//! Updates, branch switches, resets, uninstalling, and waiting for Sapphire.
use crate::ask::{run, Next, NextModel, Reply, ReplyModel, Request, RequestModel};
use crate::host::{app_config_dir, health_cmd, health_command, Host, HostModel};
use crate::message::{Message, MessageModel};
use crate::parts::{branch_ref, cmd, command, Branch, Cmd, CmdModel, Program, ProgramModel};
use crate::text::{
    contains, count_value, first_line, head_line, occurs, parse_count, push_lines, trim, trimmed,
    words,
};
use vstd::prelude::*;

verus! {

/// What happens once Sapphire has stopped.
#[derive(Debug, Clone, Copy, PartialEq, Eq, Structural)]
pub enum AfterStop {
    /// The user is told.
    Tell,
    /// The update begins.
    Update,
}

/// The files that can be reset.
#[derive(Debug, Clone, Copy, PartialEq, Eq, Structural)]
pub enum Secret {
    Password,
    Credentials,
}

/// How often a job asks whether Sapphire is still up, before it goes on
/// regardless.
pub const POLLS: u8 = 20;

/// How long a job waits between two such questions, in milliseconds.
pub const PAUSE: u64 = 500;

// ── Uninstalling ─────────────────────────────────────────────────────────

/// An uninstall job, at the point that it has reached.
#[derive(Debug, Clone)]
pub enum UninstallJob {
    /// Remove the Python environment.
    RemoveEnv,
    EnvRemoved,
    /// Delete the installation at a path.
    DeleteFolder(String),
    FolderSeen(String),
    FolderDeleted(String),
    /// Delete the user's data in the installation at a path.
    DeleteUserdata(String),
    UserdataSeen(String),
    UserdataDeleted(String),
}

/// `UninstallJob` with its texts as character sequences.
#[verifier::ext_equal]
pub enum UninstallJobModel {
    RemoveEnv,
    EnvRemoved,
    DeleteFolder(Seq<char>),
    FolderSeen(Seq<char>),
    FolderDeleted(Seq<char>),
    DeleteUserdata(Seq<char>),
    UserdataSeen(Seq<char>),
    UserdataDeleted(Seq<char>),
}

impl DeepView for UninstallJob {
    type V = UninstallJobModel;

    open spec fn deep_view(&self) -> UninstallJobModel {
        match self {
            UninstallJob::RemoveEnv => UninstallJobModel::RemoveEnv,
            UninstallJob::EnvRemoved => UninstallJobModel::EnvRemoved,
            UninstallJob::DeleteFolder(p) => UninstallJobModel::DeleteFolder(p@),
            UninstallJob::FolderSeen(p) => UninstallJobModel::FolderSeen(p@),
            UninstallJob::FolderDeleted(p) => UninstallJobModel::FolderDeleted(p@),
            UninstallJob::DeleteUserdata(p) => UninstallJobModel::DeleteUserdata(p@),
            UninstallJob::UserdataSeen(p) => UninstallJobModel::UserdataSeen(p@),
            UninstallJob::UserdataDeleted(p) => UninstallJobModel::UserdataDeleted(p@),
        }
    }
}

/// The message that ends an uninstall job.
pub open spec fn uninstalled(text: Seq<char>, ok: bool) -> NextModel<UninstallJobModel> {
    NextModel::Finish(MessageModel::UninstallResult(text, ok))
}

/// How an uninstall job goes on.
pub open spec fn uninstall_next(h: HostModel, job: UninstallJobModel, r: ReplyModel) -> NextModel<
    UninstallJobModel,
> {
    match job {
        UninstallJobModel::RemoveEnv => run(
            command(
                ProgramModel::Conda,
                seq!["remove"@, "-n"@, "sapphire"@, "--all"@, "-y"@],
            ),
            UninstallJobModel::EnvRemoved,
        ),
        UninstallJobModel::EnvRemoved => match r.full() {
            Ok(out) => uninstalled("Removed conda environment 'sapphire'.\n"@ + out, true),
            Err(why) => if occurs(why, "does not exist"@) || occurs(why, "not found"@) {
                uninstalled(
                    "Conda environment 'sapphire' doesn't exist — nothing to remove."@,
                    true,
                )
            } else {
                uninstalled("Failed to remove conda environment: "@ + why, false)
            },
        },
        UninstallJobModel::DeleteFolder(path) => NextModel::Ask(
            RequestModel::Probe(seq![path]),
            UninstallJobModel::FolderSeen(path),
        ),
        UninstallJobModel::FolderSeen(path) => if r.found(0) {
            NextModel::Ask(RequestModel::RemoveDir(path), UninstallJobModel::FolderDeleted(path))
        } else {
            uninstalled("Folder "@ + path + " doesn't exist — nothing to delete."@, true)
        },
        UninstallJobModel::FolderDeleted(path) => match r.failure() {
            None => uninstalled("Deleted "@ + path, true),
            Some(why) => uninstalled("Couldn't delete "@ + path + ": "@ + why, false),
        },
        UninstallJobModel::DeleteUserdata(path) => NextModel::Ask(
            RequestModel::Probe(seq![h.path(path, "user"@)]),
            UninstallJobModel::UserdataSeen(path),
        ),
        UninstallJobModel::UserdataSeen(path) => if r.found(0) {
            NextModel::Ask(
                RequestModel::RemoveDir(h.path(path, "user"@)),
                UninstallJobModel::UserdataDeleted(path),
            )
        } else {
            uninstalled(
                "No user folder found at "@ + path + "\\user — nothing to delete."@,
                true,
            )
        },
        UninstallJobModel::UserdataDeleted(path) => match r.failure() {
            None => uninstalled(
                "Deleted "@ + path + "\\user — your settings and data are gone."@,
                true,
            ),
            Some(why) => uninstalled("Couldn't delete "@ + path + "\\user: "@ + why, false),
        },
    }
}

// ── Updating ─────────────────────────────────────────────────────────────

/// A job of an update, at the point that it has reached.
#[derive(Debug, Clone)]
pub enum UpdateJob {
    /// Count the commits that the installation at a path is behind.
    CheckUpdates(String, Branch),
    UpdatesSeen(String, Branch),
    Fetched(String, Branch),
    Counted,
    /// Pull the latest changes, putting local ones aside.
    Pull(String),
    StatusKnown(String),
    Stashed(String),
    /// The changes were pulled; were there local ones?
    Pulled(bool),
    /// Bring the dependencies up to date.
    UpdateDeps(String),
    DepsUpdated,
}

/// `UpdateJob` with its texts as character sequences.
#[verifier::ext_equal]
pub enum UpdateJobModel {
    CheckUpdates(Seq<char>, Branch),
    UpdatesSeen(Seq<char>, Branch),
    Fetched(Seq<char>, Branch),
    Counted,
    Pull(Seq<char>),
    StatusKnown(Seq<char>),
    Stashed(Seq<char>),
    Pulled(bool),
    UpdateDeps(Seq<char>),
    DepsUpdated,
}

impl DeepView for UpdateJob {
    type V = UpdateJobModel;

    open spec fn deep_view(&self) -> UpdateJobModel {
        match self {
            UpdateJob::CheckUpdates(p, b) => UpdateJobModel::CheckUpdates(p@, *b),
            UpdateJob::UpdatesSeen(p, b) => UpdateJobModel::UpdatesSeen(p@, *b),
            UpdateJob::Fetched(p, b) => UpdateJobModel::Fetched(p@, *b),
            UpdateJob::Counted => UpdateJobModel::Counted,
            UpdateJob::Pull(p) => UpdateJobModel::Pull(p@),
            UpdateJob::StatusKnown(p) => UpdateJobModel::StatusKnown(p@),
            UpdateJob::Stashed(p) => UpdateJobModel::Stashed(p@),
            UpdateJob::Pulled(d) => UpdateJobModel::Pulled(*d),
            UpdateJob::UpdateDeps(p) => UpdateJobModel::UpdateDeps(p@),
            UpdateJob::DepsUpdated => UpdateJobModel::DepsUpdated,
        }
    }
}

/// The command that runs git in a repository.
pub open spec fn git_in(path: Seq<char>, words: Seq<Seq<char>>) -> CmdModel {
    command(ProgramModel::Git, seq!["-C"@, path] + words)
}

/// The message that tells how far behind an installation is.
pub open spec fn behind(count: Option<u32>) -> NextModel<UpdateJobModel> {
    NextModel::Finish(MessageModel::UpdatesAvailable(count))
}

/// The message that ends a step of an update.
pub open spec fn step_done(text: Seq<char>, ok: bool) -> NextModel<UpdateJobModel> {
    NextModel::Finish(MessageModel::UpdateStepDone(text, ok))
}

/// Does git's status say that there are local changes?
pub open spec fn dirty(answer: Result<Seq<char>, Seq<char>>) -> bool {
    match answer {
        Ok(out) => trimmed(out).len() > 0,
        Err(_) => false,
    }
}

/// The request to pull.
pub open spec fn pull(path: Seq<char>, dirty: bool) -> NextModel<UpdateJobModel> {
    run(git_in(path, seq!["pull"@]), UpdateJobModel::Pulled(dirty))
}

/// How an update job goes on.
pub open spec fn update_next(h: HostModel, job: UpdateJobModel, r: ReplyModel) -> NextModel<
    UpdateJobModel,
> {
    match job {
        UpdateJobModel::CheckUpdates(path, b) => NextModel::Ask(
            RequestModel::Probe(seq![h.path(path, ".git"@)]),
            UpdateJobModel::UpdatesSeen(path, b),
        ),
        UpdateJobModel::UpdatesSeen(path, b) => if r.found(0) {
            run(git_in(path, seq!["fetch"@, "origin"@]), UpdateJobModel::Fetched(path, b))
        } else {
            behind(None)
        },
        UpdateJobModel::Fetched(path, b) => run(
            git_in(path, seq!["rev-list"@, "--count"@, "HEAD..origin/"@ + branch_ref(b)]),
            UpdateJobModel::Counted,
        ),
        UpdateJobModel::Counted => match r.full() {
            Ok(count) => behind(count_value(trimmed(count))),
            Err(_) => behind(None),
        },
        UpdateJobModel::Pull(path) => run(
            git_in(path, seq!["status"@, "--porcelain"@]),
            UpdateJobModel::StatusKnown(path),
        ),
        UpdateJobModel::StatusKnown(path) => if dirty(r.full()) {
            run(
                git_in(
                    path,
                    seq![
                        "stash"@,
                        "push"@,
                        "-m"@,
                        "sapphire-launcher auto-stash before update"@,
                    ],
                ),
                UpdateJobModel::Stashed(path),
            )
        } else {
            pull(path, false)
        },
        UpdateJobModel::Stashed(path) => match r.full() {
            Ok(_) => pull(path, true),
            Err(why) => step_done("Couldn't stash local changes: "@ + why, false),
        },
        UpdateJobModel::Pulled(dirty) => match r.full() {
            Ok(out) => if dirty {
                step_done(
                    "pull: "@ + first_line(out)
                        + " (your local changes were stashed — run 'git stash pop' to restore)"@,
                    true,
                )
            } else {
                step_done("pull: "@ + first_line(out), true)
            },
            Err(why) => step_done("pull failed: "@ + why, false),
        },
        UpdateJobModel::UpdateDeps(path) => run(
            command(
                ProgramModel::Pip,
                seq!["install"@, "-r"@, h.path(path, "requirements.txt"@)],
            ),
            UpdateJobModel::DepsUpdated,
        ),
        UpdateJobModel::DepsUpdated => match r.full() {
            Ok(_) => step_done("Dependencies updated."@, true),
            Err(why) => step_done("pip install failed: "@ + why, false),
        },
    }
}

// ── Resets ───────────────────────────────────────────────────────────────

/// A reset, at the point that it has reached.
#[derive(Debug, Clone)]
pub enum ResetJob {
    /// Delete a secret of the user.
    Begin(Secret),
    SecretSeen(Secret),
    SecretDeleted(Secret),
}

/// `ResetJob` with its texts as character sequences.
#[verifier::ext_equal]
pub enum ResetJobModel {
    Begin(Secret),
    SecretSeen(Secret),
    SecretDeleted(Secret),
}

impl DeepView for ResetJob {
    type V = ResetJobModel;

    open spec fn deep_view(&self) -> ResetJobModel {
        match self {
            ResetJob::Begin(s) => ResetJobModel::Begin(*s),
            ResetJob::SecretSeen(s) => ResetJobModel::SecretSeen(*s),
            ResetJob::SecretDeleted(s) => ResetJobModel::SecretDeleted(*s),
        }
    }
}

/// The file of a secret.
pub open spec fn secret_path(h: HostModel, s: Secret) -> Seq<char> {
    h.path(
        h.config_dir(),
        match s {
            Secret::Password => "secret_key"@,
            Secret::Credentials => "credentials.json"@,
        },
    )
}

/// The message that ends a reset.
pub open spec fn told(text: Seq<char>) -> NextModel<ResetJobModel> {
    NextModel::Finish(MessageModel::ResetResult(text))
}

/// How a reset goes on.
pub open spec fn reset_next(h: HostModel, job: ResetJobModel, r: ReplyModel) -> NextModel<
    ResetJobModel,
> {
    match job {
        ResetJobModel::Begin(s) => NextModel::Ask(
            RequestModel::Probe(seq![secret_path(h, s)]),
            ResetJobModel::SecretSeen(s),
        ),
        ResetJobModel::SecretSeen(s) => if r.found(0) {
            NextModel::Ask(
                RequestModel::RemoveFile(secret_path(h, s)),
                ResetJobModel::SecretDeleted(s),
            )
        } else {
            told(
                match s {
                    Secret::Password => "No password file found — nothing to reset."@,
                    Secret::Credentials => "No credentials file found — nothing to reset."@,
                },
            )
        },
        ResetJobModel::SecretDeleted(s) => match r.failure() {
            None => told(
                match s {
                    Secret::Password => "Password reset. Sapphire will ask for a new password on next launch."@,
                    Secret::Credentials => "API keys cleared. You'll need to re-enter them in Sapphire."@,
                },
            ),
            Some(why) => told("Couldn't delete "@ + secret_path(h, s) + ": "@ + why),
        },
    }
}

// ── Switching and waiting ────────────────────────────────────────────────

/// A branch switch, or the wait for Sapphire to come up or go down, at the point that it has reached.
#[derive(Debug, Clone)]
pub enum WaitJob {
    /// Check a branch out.
    Checkout(String, Branch),
    CheckedOut(Branch),
    /// Check a branch out once Sapphire is down.
    Switch(String, Branch),
    /// Sapphire was asked for its health; that may be repeated so often.
    SwitchPolled(String, Branch, u8),
    SwitchPaused(String, Branch, u8),
    /// Wait until Sapphire is down.
    Await(AfterStop),
    Paused(AfterStop, u8),
    Polled(AfterStop, u8),
    /// Find out whether Sapphire is running; did the user ask to launch it?
    PreCheck(bool),
    PreChecked(bool),
}

/// `WaitJob` with its texts as character sequences.
#[verifier::ext_equal]
pub enum WaitJobModel {
    Checkout(Seq<char>, Branch),
    CheckedOut(Branch),
    Switch(Seq<char>, Branch),
    SwitchPolled(Seq<char>, Branch, u8),
    SwitchPaused(Seq<char>, Branch, u8),
    Await(AfterStop),
    Paused(AfterStop, u8),
    Polled(AfterStop, u8),
    PreCheck(bool),
    PreChecked(bool),
}

impl DeepView for WaitJob {
    type V = WaitJobModel;

    open spec fn deep_view(&self) -> WaitJobModel {
        match self {
            WaitJob::Checkout(p, b) => WaitJobModel::Checkout(p@, *b),
            WaitJob::CheckedOut(b) => WaitJobModel::CheckedOut(*b),
            WaitJob::Switch(p, b) => WaitJobModel::Switch(p@, *b),
            WaitJob::SwitchPolled(p, b, n) => WaitJobModel::SwitchPolled(p@, *b, *n),
            WaitJob::SwitchPaused(p, b, n) => WaitJobModel::SwitchPaused(p@, *b, *n),
            WaitJob::Await(a) => WaitJobModel::Await(*a),
            WaitJob::Paused(a, n) => WaitJobModel::Paused(*a, *n),
            WaitJob::Polled(a, n) => WaitJobModel::Polled(*a, *n),
            WaitJob::PreCheck(u) => WaitJobModel::PreCheck(*u),
            WaitJob::PreChecked(u) => WaitJobModel::PreChecked(*u),
        }
    }
}

/// Does the answer to the health question say that Sapphire is up?
pub open spec fn up(answer: Result<Seq<char>, Seq<char>>) -> bool {
    match answer {
        Ok(body) => occurs(body, "ok"@),
        Err(_) => false,
    }
}

/// The request to check a branch out.
pub open spec fn checkout(path: Seq<char>, b: Branch) -> NextModel<WaitJobModel> {
    run(git_in(path, seq!["checkout"@, branch_ref(b)]), WaitJobModel::CheckedOut(b))
}

/// The message that Sapphire is down, or taken to be.
pub open spec fn stopped(after: AfterStop) -> NextModel<WaitJobModel> {
    NextModel::Finish(
        match after {
            AfterStop::Tell => MessageModel::SapphireStopConfirmed,
            AfterStop::Update => MessageModel::UpdateAfterStop,
        },
    )
}

/// How a branch switch, or the wait for Sapphire's end, goes on.
pub open spec fn wait_next(job: WaitJobModel, r: ReplyModel) -> NextModel<WaitJobModel> {
    match job {
        WaitJobModel::Checkout(path, b) => checkout(path, b),
        WaitJobModel::CheckedOut(b) => NextModel::Finish(
            match r.full() {
                Ok(out) => MessageModel::SwitchBranchResult(
                    "Switched to "@ + branch_ref(b) + ": "@ + out,
                    true,
                ),
                Err(why) => MessageModel::SwitchBranchResult(
                    "Branch switch failed: "@ + why,
                    false,
                ),
            },
        ),
        WaitJobModel::Switch(path, b) => run(
            health_cmd("2"@),
            WaitJobModel::SwitchPolled(path, b, (POLLS - 1) as u8),
        ),
        WaitJobModel::SwitchPolled(path, b, left) => if up(r.full()) {
            NextModel::Ask(
                RequestModel::Sleep(PAUSE),
                WaitJobModel::SwitchPaused(path, b, left),
            )
        } else {
            checkout(path, b)
        },
        WaitJobModel::SwitchPaused(path, b, left) => if left == 0 {
            checkout(path, b)
        } else {
            run(
                health_cmd("2"@),
                WaitJobModel::SwitchPolled(path, b, (left - 1) as u8),
            )
        },
        WaitJobModel::Await(after) => NextModel::Ask(
            RequestModel::Sleep(PAUSE),
            WaitJobModel::Paused(after, (POLLS - 1) as u8),
        ),
        WaitJobModel::Paused(after, left) => run(
            health_cmd("2"@),
            WaitJobModel::Polled(after, left),
        ),
        WaitJobModel::Polled(after, left) => if up(r.full()) && left > 0 {
            NextModel::Ask(
                RequestModel::Sleep(PAUSE),
                WaitJobModel::Paused(after, (left - 1) as u8),
            )
        } else {
            stopped(after)
        },
        WaitJobModel::PreCheck(user) => run(health_cmd("3"@), WaitJobModel::PreChecked(user)),
        WaitJobModel::PreChecked(user) => NextModel::Finish(
            MessageModel::LaunchPreCheck(up(r.full()), user),
        ),
    }
}

fn uninstall_done(text: String, ok: bool) -> (n: Next<UninstallJob>)
    ensures
        n.deep_view() == uninstalled(text@, ok),
{
    Next::Finish(Message::UninstallResult(text, ok))
}

fn update_done(text: String, ok: bool) -> (n: Next<UpdateJob>)
    ensures
        n.deep_view() == step_done(text@, ok),
{
    Next::Finish(Message::UpdateStepDone(text, ok))
}

fn secret_file(host: &Host, s: Secret) -> (path: String)
    ensures
        path@ == secret_path(host.deep_view(), s),
{
    let dir = app_config_dir(host);
    match s {
        Secret::Password => host.path(dir.as_str(), "secret_key"),
        Secret::Credentials => host.path(dir.as_str(), "credentials.json"),
    }
}

fn git_cmd(path: &str, list: &[&str]) -> (c: Cmd)
    ensures
        c.deep_view() == git_in(path@, Seq::new(list@.len(), |i: int| list@[i]@)),
{
    let mut args = words(&["-C", path]);
    push_lines(&mut args, words(list));
    assert(args.deep_view() =~= seq!["-C"@, path@] + Seq::new(list@.len(), |i: int| list@[i]@));
    Cmd { program: Program::Git, args }
}

fn is_up(reply: &Reply) -> (b: bool)
    ensures
        b == up(reply.deep_view().full()),
{
    match reply.full() {
        Ok(body) => contains(body.as_str(), "ok"),
        Err(_) => false,
    }
}

fn start_pull(path: String, dirty: bool) -> (n: Next<UpdateJob>)
    ensures
        n.deep_view() == pull(path@, dirty),
{
    Next::Ask(
        Request::Run(git_cmd(path.as_str(), &["pull"])),
        UpdateJob::Pulled(dirty),
    )
}

fn start_checkout(path: String, b: Branch) -> (n: Next<WaitJob>)
    ensures
        n.deep_view() == checkout(path@, b),
{
    Next::Ask(
        Request::Run(git_cmd(path.as_str(), &["checkout", b.git_name()])),
        WaitJob::CheckedOut(b),
    )
}

impl UninstallJob {
    /// Goes on with a reply.
    pub fn advance(self, host: &Host, reply: &Reply) -> (next: Next<UninstallJob>)
        ensures
            next.deep_view() == uninstall_next(host.deep_view(), self.deep_view(), reply.deep_view()),
    {
        match self {
            UninstallJob::RemoveEnv => Next::Ask(
                Request::Run(cmd(Program::Conda, &["remove", "-n", "sapphire", "--all", "-y"])),
                UninstallJob::EnvRemoved,
            ),
            UninstallJob::EnvRemoved => match reply.full() {
                Ok(out) => uninstall_done(
                    "Removed conda environment 'sapphire'.\n".to_string().concat(out.as_str()),
                    true,
                ),
                Err(why) => if contains(why.as_str(), "does not exist") || contains(
                    why.as_str(),
                    "not found",
                ) {
                    uninstall_done(
                        "Conda environment 'sapphire' doesn't exist — nothing to remove.".to_string(),
                        true,
                    )
                } else {
                    uninstall_done(
                        "Failed to remove conda environment: ".to_string().concat(why.as_str()),
                        false,
                    )
                },
            },
            UninstallJob::DeleteFolder(path) => Next::Ask(
                Request::Probe(words(&[path.as_str()])),
                UninstallJob::FolderSeen(path),
            ),
            UninstallJob::FolderSeen(path) => if reply.found(0) {
                Next::Ask(Request::RemoveDir(path.clone()), UninstallJob::FolderDeleted(path))
            } else {
                uninstall_done(
                    "Folder ".to_string().concat(path.as_str()).concat(
                        " doesn't exist — nothing to delete.",
                    ),
                    true,
                )
            },
            UninstallJob::FolderDeleted(path) => match reply.failure() {
                None => uninstall_done("Deleted ".to_string().concat(path.as_str()), true),
                Some(why) => uninstall_done(
                    "Couldn't delete ".to_string().concat(path.as_str()).concat(": ").concat(
                        why.as_str(),
                    ),
                    false,
                ),
            },
            UninstallJob::DeleteUserdata(path) => {
                let dir = host.path(path.as_str(), "user");
                Next::Ask(Request::Probe(words(&[dir.as_str()])), UninstallJob::UserdataSeen(path))
            },
            UninstallJob::UserdataSeen(path) => if reply.found(0) {
                let dir = host.path(path.as_str(), "user");
                Next::Ask(Request::RemoveDir(dir), UninstallJob::UserdataDeleted(path))
            } else {
                uninstall_done(
                    "No user folder found at ".to_string().concat(path.as_str()).concat(
                        "\\user — nothing to delete.",
                    ),
                    true,
                )
            },
            UninstallJob::UserdataDeleted(path) => match reply.failure() {
                None => uninstall_done(
                    "Deleted ".to_string().concat(path.as_str()).concat(
                        "\\user — your settings and data are gone.",
                    ),
                    true,
                ),
                Some(why) => uninstall_done(
                    "Couldn't delete ".to_string().concat(path.as_str()).concat(
                        "\\user: ",
                    ).concat(why.as_str()),
                    false,
                ),
            },
        }
    }
}

impl UpdateJob {
    /// Goes on with a reply.
    pub fn advance(self, host: &Host, reply: &Reply) -> (next: Next<UpdateJob>)
        ensures
            next.deep_view() == update_next(host.deep_view(), self.deep_view(), reply.deep_view()),
    {
        match self {
            UpdateJob::CheckUpdates(path, b) => {
                let dir = host.path(path.as_str(), ".git");
                Next::Ask(Request::Probe(words(&[dir.as_str()])), UpdateJob::UpdatesSeen(path, b))
            },
            UpdateJob::UpdatesSeen(path, b) => if reply.found(0) {
                Next::Ask(
                    Request::Run(git_cmd(path.as_str(), &["fetch", "origin"])),
                    UpdateJob::Fetched(path, b),
                )
            } else {
                Next::Finish(Message::UpdatesAvailable(None))
            },
            UpdateJob::Fetched(path, b) => {
                let range = "HEAD..origin/".to_string().concat(b.git_name());
                Next::Ask(
                    Request::Run(
                        git_cmd(path.as_str(), &["rev-list", "--count", range.as_str()]),
                    ),
                    UpdateJob::Counted,
                )
            },
            UpdateJob::Counted => match reply.full() {
                Ok(count) => {
                    let count = trim(count.as_str());
                    Next::Finish(Message::UpdatesAvailable(parse_count(count.as_str())))
                },
                Err(_) => Next::Finish(Message::UpdatesAvailable(None)),
            },
            UpdateJob::Pull(path) => Next::Ask(
                Request::Run(git_cmd(path.as_str(), &["status", "--porcelain"])),
                UpdateJob::StatusKnown(path),
            ),
            UpdateJob::StatusKnown(path) => {
                let dirty = match reply.full() {
                    Ok(out) => !trim(out.as_str()).as_str().is_empty(),
                    Err(_) => false,
                };
                if dirty {
                    Next::Ask(
                        Request::Run(
                            git_cmd(path.as_str(), &["stash", "push", "-m", "sapphire-launcher auto-stash before update"]),
                        ),
                        UpdateJob::Stashed(path),
                    )
                } else {
                    start_pull(path, false)
                }
            },
            UpdateJob::Stashed(path) => match reply.full() {
                Ok(_) => start_pull(path, true),
                Err(why) => update_done(
                    "Couldn't stash local changes: ".to_string().concat(why.as_str()),
                    false,
                ),
            },
            UpdateJob::Pulled(dirty) => match reply.full() {
                Ok(out) => {
                    let summary = head_line(out.as_str());
                    let text = "pull: ".to_string().concat(summary.as_str());
                    if dirty {
                        update_done(
                            text.concat(
                                " (your local changes were stashed — run 'git stash pop' to restore)",
                            ),
                            true,
                        )
                    } else {
                        update_done(text, true)
                    }
                },
                Err(why) => update_done(
                    "pull failed: ".to_string().concat(why.as_str()),
                    false,
                ),
            },
            UpdateJob::UpdateDeps(path) => {
                let req = host.path(path.as_str(), "requirements.txt");
                Next::Ask(
                    Request::Run(cmd(Program::Pip, &["install", "-r", req.as_str()])),
                    UpdateJob::DepsUpdated,
                )
            },
            UpdateJob::DepsUpdated => match reply.full() {
                Ok(_) => update_done("Dependencies updated.".to_string(), true),
                Err(why) => update_done(
                    "pip install failed: ".to_string().concat(why.as_str()),
                    false,
                ),
            },
        }
    }
}

impl ResetJob {
    /// Goes on with a reply.
    pub fn advance(self, host: &Host, reply: &Reply) -> (next: Next<ResetJob>)
        ensures
            next.deep_view() == reset_next(host.deep_view(), self.deep_view(), reply.deep_view()),
    {
        match self {
            ResetJob::Begin(s) => {
                let file = secret_file(host, s);
                Next::Ask(Request::Probe(words(&[file.as_str()])), ResetJob::SecretSeen(s))
            },
            ResetJob::SecretSeen(s) => if reply.found(0) {
                Next::Ask(Request::RemoveFile(secret_file(host, s)), ResetJob::SecretDeleted(s))
            } else {
                Next::Finish(
                    Message::ResetResult(
                        match s {
                            Secret::Password => "No password file found — nothing to reset.".to_string(),
                            Secret::Credentials => "No credentials file found — nothing to reset.".to_string(),
                        },
                    ),
                )
            },
            ResetJob::SecretDeleted(s) => match reply.failure() {
                None => Next::Finish(
                    Message::ResetResult(
                        match s {
                            Secret::Password => "Password reset. Sapphire will ask for a new password on next launch.".to_string(),
                            Secret::Credentials => "API keys cleared. You'll need to re-enter them in Sapphire.".to_string(),
                        },
                    ),
                ),
                Some(why) => {
                    let file = secret_file(host, s);
                    Next::Finish(
                        Message::ResetResult(
                            "Couldn't delete ".to_string().concat(file.as_str()).concat(
                                ": ",
                            ).concat(why.as_str()),
                        ),
                    )
                },
            },
        }
    }
}

impl WaitJob {
    /// Goes on with a reply.
    pub fn advance(self, reply: &Reply) -> (next: Next<WaitJob>)
        ensures
            next.deep_view() == wait_next(self.deep_view(), reply.deep_view()),
    {
        match self {
            WaitJob::Checkout(path, b) => start_checkout(path, b),
            WaitJob::CheckedOut(b) => match reply.full() {
                Ok(out) => Next::Finish(
                    Message::SwitchBranchResult(
                        "Switched to ".to_string().concat(b.git_name()).concat(": ").concat(
                            out.as_str(),
                        ),
                        true,
                    ),
                ),
                Err(why) => Next::Finish(
                    Message::SwitchBranchResult(
                        "Branch switch failed: ".to_string().concat(why.as_str()),
                        false,
                    ),
                ),
            },
            WaitJob::Switch(path, b) => Next::Ask(
                Request::Run(health_command("2")),
                WaitJob::SwitchPolled(path, b, POLLS - 1),
            ),
            WaitJob::SwitchPolled(path, b, left) => if is_up(reply) {
                Next::Ask(Request::Sleep(PAUSE), WaitJob::SwitchPaused(path, b, left))
            } else {
                start_checkout(path, b)
            },
            WaitJob::SwitchPaused(path, b, left) => if left == 0 {
                start_checkout(path, b)
            } else {
                Next::Ask(
                    Request::Run(health_command("2")),
                    WaitJob::SwitchPolled(path, b, left - 1),
                )
            },
            WaitJob::Await(after) => Next::Ask(
                Request::Sleep(PAUSE),
                WaitJob::Paused(after, POLLS - 1),
            ),
            WaitJob::Paused(after, left) => Next::Ask(
                Request::Run(health_command("2")),
                WaitJob::Polled(after, left),
            ),
            WaitJob::Polled(after, left) => if is_up(reply) && left > 0 {
                Next::Ask(Request::Sleep(PAUSE), WaitJob::Paused(after, left - 1))
            } else {
                match after {
                    AfterStop::Tell => Next::Finish(Message::SapphireStopConfirmed),
                    AfterStop::Update => Next::Finish(Message::UpdateAfterStop),
                }
            },
            WaitJob::PreCheck(user) => Next::Ask(
                Request::Run(health_command("3")),
                WaitJob::PreChecked(user),
            ),
            WaitJob::PreChecked(user) => Next::Finish(
                Message::LaunchPreCheck(is_up(reply), user),
            ),
        }
    }
}

// ── Laws ─────────────────────────────────────────────────────────────────

/// The folder that an uninstall job is about, if it is about one.
pub open spec fn doomed(h: HostModel, job: UninstallJobModel) -> Option<Seq<char>> {
    match job {
        UninstallJobModel::RemoveEnv | UninstallJobModel::EnvRemoved => None,
        UninstallJobModel::DeleteFolder(path)
        | UninstallJobModel::FolderSeen(path)
        | UninstallJobModel::FolderDeleted(path) => Some(path),
        UninstallJobModel::DeleteUserdata(path)
        | UninstallJobModel::UserdataSeen(path)
        | UninstallJobModel::UserdataDeleted(path) => Some(h.path(path, "user"@)),
    }
}

/// An uninstall job touches nothing but Sapphire: from its first question to
/// its last it asks only to remove the environment named `sapphire`, or for
/// the one folder that it is about, to look for it or to remove it. Git and
/// Miniconda stay.
pub proof fn law_uninstall_touches_only_sapphire(
    h: HostModel,
    job: UninstallJobModel,
    r: ReplyModel,
)
    ensures
        uninstall_next(h, job, r) matches NextModel::Ask(request, next) ==> {
            &&& doomed(h, next) == doomed(h, job)
            &&& match request {
                RequestModel::Run(c) => c == command(
                    ProgramModel::Conda,
                    seq!["remove"@, "-n"@, "sapphire"@, "--all"@, "-y"@],
                ),
                RequestModel::Probe(places) => places.len() == 1 && doomed(h, job) == Some(
                    places[0],
                ),
                RequestModel::RemoveDir(place) => doomed(h, job) == Some(place),
                _ => false,
            }
        },
{
}

/// An update never pulls over local changes: whatever is answered, a request
/// to pull comes only after git's status told of none, or could not be had,
/// or after the changes were put aside with success.
pub proof fn law_pull_spares_local_changes(
    h: HostModel,
    job: UpdateJobModel,
    r: ReplyModel,
    path: Seq<char>,
    next: UpdateJobModel,
)
    requires
        update_next(h, job, r) == run(git_in(path, seq!["pull"@]), next),
    ensures
        (job == UpdateJobModel::StatusKnown(path) && !dirty(r.full())) || (job
            == UpdateJobModel::Stashed(path) && r.worked()),
{
    let asked = git_in(path, seq!["pull"@]);
    assert(asked.args.len() == 3);
    assert(asked.args[1] == path);
    match job {
        UpdateJobModel::StatusKnown(p) => {
            if !dirty(r.full()) {
                assert(git_in(p, seq!["pull"@]).args[1] == p);
            }
        },
        UpdateJobModel::Stashed(p) => {
            if r.worked() {
                assert(git_in(p, seq!["pull"@]).args[1] == p);
            }
        },
        _ => {},
    }
}

/// The message that a wait ends with, if it is over after `steps` requests
/// at most and is answered by `replies`, one after the other.
pub open spec fn wait_outcome(
    next: NextModel<WaitJobModel>,
    replies: spec_fn(nat) -> ReplyModel,
    steps: nat,
) -> Option<MessageModel>
    decreases steps,
{
    match next {
        NextModel::Finish(m) => Some(m),
        NextModel::Ask(_, job) => if steps == 0 {
            None
        } else {
            wait_outcome(wait_next(job, replies(steps)), replies, (steps - 1) as nat)
        },
    }
}

proof fn lemma_wait_ends(
    after: AfterStop,
    left: u8,
    replies: spec_fn(nat) -> ReplyModel,
    r: ReplyModel,
    steps: nat,
)
    requires
        steps >= 2 * left + 1,
    ensures
        wait_outcome(wait_next(WaitJobModel::Paused(after, left), r), replies, steps)
            == wait_outcome(stopped(after), replies, 0),
    decreases left,
{
    reveal_with_fuel(wait_outcome, 3);
    if up(replies(steps).full()) && left > 0 {
        lemma_wait_ends(
            after,
            (left - 1) as u8,
            replies,
            replies((steps - 1) as nat),
            (steps - 2) as nat,
        );
    }
}

/// The wait for Sapphire's end is over after twenty questions at most,
/// whatever is answered: a Sapphire that does not stop cannot hang the
/// launcher.
pub proof fn law_waiting_ends(after: AfterStop, replies: spec_fn(nat) -> ReplyModel)
    ensures
        wait_outcome(
            wait_next(WaitJobModel::Await(after), ReplyModel::Begin),
            replies,
            (2 * POLLS) as nat,
        ) == Some(
            match after {
                AfterStop::Tell => MessageModel::SapphireStopConfirmed,
                AfterStop::Update => MessageModel::UpdateAfterStop,
            },
        ),
{
    lemma_wait_ends(after, 19, replies, replies(40), 39);
}

proof fn lemma_switch_ends(
    path: Seq<char>,
    b: Branch,
    left: u8,
    replies: spec_fn(nat) -> ReplyModel,
    r: ReplyModel,
    steps: nat,
)
    requires
        steps >= 2 * left + 2,
    ensures
        wait_outcome(wait_next(WaitJobModel::SwitchPolled(path, b, left), r), replies, steps)
            matches Some(MessageModel::SwitchBranchResult(_, _)),
    decreases left,
{
    reveal_with_fuel(wait_outcome, 3);
    if up(r.full()) && left > 0 {
        lemma_switch_ends(
            path,
            b,
            (left - 1) as u8,
            replies,
            replies((steps - 1) as nat),
            (steps - 2) as nat,
        );
    }
}

/// A branch switch comes to its checkout after twenty questions at most,
/// whatever is answered, and then tells what came of it.
pub proof fn law_switching_ends(
    path: Seq<char>,
    b: Branch,
    replies: spec_fn(nat) -> ReplyModel,
)
    ensures
        wait_outcome(
            wait_next(WaitJobModel::Switch(path, b), ReplyModel::Begin),
            replies,
            (2 * POLLS + 1) as nat,
        ) matches Some(MessageModel::SwitchBranchResult(_, _)),
{
    lemma_switch_ends(path, b, 19, replies, replies(41), 40);
}

} // verus!

//! Sapphire as a service: the systemd user unit on Linux, the logon task on
//! Windows, and the environment file.
use crate::ask::{run, Next, NextModel, Reply, ReplyModel, Request, RequestModel};
use crate::host::{
    app_config_dir, autostart_log_path, autostart_marker_path, autostart_shim_path, env_python,
    first_found, sapphire_env_python, sapphire_pythonw, Host, HostModel, Platform,
};
use crate::message::{Message, MessageModel};
use crate::output::{Output, OutputModel};
use crate::parts::{named, named_cmd, Cmd, CmdModel, ServiceInfo, ServiceInfoModel};
use crate::text::{
    escape, escaped, last_value, lemma_escaped_step, lemma_replaced_step, lines, lines_of, replace,
    replaced, same, value_of, words,
};
use vstd::prelude::*;

verus! {

// ── Detection ────────────────────────────────────────────────────────────

/// The command that tells the state of the unit.
pub open spec fn show_unit() -> CmdModel {
    named(
        "systemctl"@,
        seq![
            "--user"@,
            "show"@,
            "sapphire"@,
            "-p"@,
            "LoadState"@,
            "-p"@,
            "ActiveState"@,
            "-p"@,
            "SubState"@,
            "-p"@,
            "UnitFileState"@,
            "-p"@,
            "WorkingDirectory"@,
        ],
    )
}

/// Makes the command that tells the state of the unit.
pub fn show_unit_command() -> (c: Cmd)
    ensures
        c.deep_view() == show_unit(),
{
    named_cmd(
        "systemctl",
        &[
            "--user",
            "show",
            "sapphire",
            "-p",
            "LoadState",
            "-p",
            "ActiveState",
            "-p",
            "SubState",
            "-p",
            "UnitFileState",
            "-p",
            "WorkingDirectory",
        ],
    )
}

/// The service that the unit's properties tell of: none, unless the unit is
/// loaded.
pub open spec fn service_in(list: Seq<Seq<char>>) -> Option<ServiceInfoModel> {
    if last_value(list, "LoadState="@) != "loaded"@ {
        None
    } else {
        let dir = last_value(list, "WorkingDirectory="@);
        Some(
            ServiceInfoModel {
                active: last_value(list, "ActiveState="@) == "active"@,
                active_state: last_value(list, "ActiveState="@),
                enabled: last_value(list, "UnitFileState="@) == "enabled"@,
                sub_state: last_value(list, "SubState="@),
                working_dir: if dir.len() == 0 {
                    None
                } else {
                    Some(dir)
                },
            },
        )
    }
}

/// The service that there is, given what systemctl printed, if it ran at
/// all. Windows has none.
pub open spec fn service_there(p: Platform, shown: Option<OutputModel>) -> Option<
    ServiceInfoModel,
> {
    match shown {
        Some(o) if p == Platform::Linux => service_in(lines(o.stdout)),
        _ => None,
    }
}

/// Reads the state of the service from what systemctl printed.
pub fn detect_sapphire_service(p: Platform, shown: &Option<Output>) -> (info: Option<ServiceInfo>)
    ensures
        info.deep_view() == service_there(p, shown.deep_view()),
{
    match (p, shown) {
        (Platform::Linux, Some(o)) => {
            let list = lines_of(o.stdout.as_str());
            let load = value_of(&list, "LoadState=");
            let active = value_of(&list, "ActiveState=");
            let sub = value_of(&list, "SubState=");
            let unit_file = value_of(&list, "UnitFileState=");
            let dir = value_of(&list, "WorkingDirectory=");
            if !same(load.as_str(), "loaded") {
                return None;
            }
            Some(
                ServiceInfo {
                    active: same(active.as_str(), "active"),
                    active_state: active,
                    enabled: same(unit_file.as_str(), "enabled"),
                    sub_state: sub,
                    working_dir: if dir.as_str().is_empty() {
                        None
                    } else {
                        Some(dir)
                    },
                },
            )
        },
        _ => None,
    }
}

/// Is there a systemd user instance, given what systemctl answered, if it
/// ran at all?
pub open spec fn systemd_there(p: Platform, answer: Option<OutputModel>) -> bool {
    match answer {
        Some(o) => p == Platform::Linux && o.success,
        None => false,
    }
}

/// Finds out whether there is a systemd user instance.
pub fn systemd_user_available(p: Platform, answer: &Option<Output>) -> (b: bool)
    ensures
        b == systemd_there(p, answer.deep_view()),
{
    match (p, answer) {
        (Platform::Linux, Some(o)) => o.success,
        _ => false,
    }
}

// ── Actions ──────────────────────────────────────────────────────────────

/// What can be done with the unit.
#[derive(Debug, Clone, Copy, PartialEq, Eq, Structural)]
pub enum Action {
    Start,
    Stop,
    Restart,
    Enable,
    Disable,
}

/// The word for an action.
pub open spec fn action_word(a: Action) -> Seq<char> {
    match a {
        Action::Start => "start"@,
        Action::Stop => "stop"@,
        Action::Restart => "restart"@,
        Action::Enable => "enable"@,
        Action::Disable => "disable"@,
    }
}

/// What is said where an action worked.
pub open spec fn action_done(a: Action) -> Seq<char> {
    match a {
        Action::Start => "Service started."@,
        Action::Stop => "Service stopped."@,
        Action::Restart => "Service restarted."@,
        Action::Enable => "Autostart enabled."@,
        Action::Disable => "Autostart disabled."@,
    }
}

/// What is said where an action failed, before the reason.
pub open spec fn action_failed(a: Action) -> Seq<char> {
    match a {
        Action::Start => "Service start failed: "@,
        Action::Stop => "Service stop failed: "@,
        Action::Restart => "Service restart failed: "@,
        Action::Enable => "Enable failed: "@,
        Action::Disable => "Disable failed: "@,
    }
}

/// The command for an action.
pub open spec fn action_cmd(a: Action) -> CmdModel {
    named("systemctl"@, seq!["--user"@, action_word(a), "sapphire"@])
}

impl Action {
    /// Makes the command for the action.
    pub fn command(self) -> (c: Cmd)
        ensures
            c.deep_view() == action_cmd(self),
    {
        let word = match self {
            Action::Start => "start",
            Action::Stop => "stop",
            Action::Restart => "restart",
            Action::Enable => "enable",
            Action::Disable => "disable",
        };
        named_cmd("systemctl", &["--user", word, "sapphire"])
    }

    fn done(self) -> (s: &'static str)
        ensures
            s@ == action_done(self),
    {
        match self {
            Action::Start => "Service started.",
            Action::Stop => "Service stopped.",
            Action::Restart => "Service restarted.",
            Action::Enable => "Autostart enabled.",
            Action::Disable => "Autostart disabled.",
        }
    }

    fn failed(self) -> (s: &'static str)
        ensures
            s@ == action_failed(self),
    {
        match self {
            Action::Start => "Service start failed: ",
            Action::Stop => "Service stop failed: ",
            Action::Restart => "Service restart failed: ",
            Action::Enable => "Enable failed: ",
            Action::Disable => "Disable failed: ",
        }
    }
}

/// What an action came to.
pub open spec fn action_result(a: Action, answer: Result<Seq<char>, Seq<char>>) -> (
    Seq<char>,
    bool,
) {
    match answer {
        Ok(_) => (action_done(a), true),
        Err(why) => (action_failed(a) + why, false),
    }
}

/// How long a stopped service is given to settle, in milliseconds.
pub const SETTLE: u64 = 300;

/// A question about the service, an action on it, or its environment file,
/// at the point that it has reached.
#[derive(Debug, Clone)]
pub enum ServiceJob {
    /// Look for the service; is it the first look?
    Detect(bool),
    Shown(bool),
    /// Look for systemd.
    FindSystemd,
    SystemdAnswered,
    /// Read the environment file.
    ReadEnv,
    EnvRead,
    /// Write the environment file.
    WriteEnv(String),
    EnvDirMade(String),
    EnvWritten,
    EnvProtected,
    Act(Action),
    Acted(Action),
    /// The service settles; what is said of the action, and whether it
    /// worked.
    Settling(String, bool),
}

/// `ServiceJob` with its texts as character sequences.
#[verifier::ext_equal]
pub enum ServiceJobModel {
    Detect(bool),
    Shown(bool),
    FindSystemd,
    SystemdAnswered,
    ReadEnv,
    EnvRead,
    WriteEnv(Seq<char>),
    EnvDirMade(Seq<char>),
    EnvWritten,
    EnvProtected,
    Act(Action),
    Acted(Action),
    Settling(Seq<char>, bool),
}

impl DeepView for ServiceJob {
    type V = ServiceJobModel;

    open spec fn deep_view(&self) -> ServiceJobModel {
        match self {
            ServiceJob::Detect(f) => ServiceJobModel::Detect(*f),
            ServiceJob::Shown(f) => ServiceJobModel::Shown(*f),
            ServiceJob::FindSystemd => ServiceJobModel::FindSystemd,
            ServiceJob::SystemdAnswered => ServiceJobModel::SystemdAnswered,
            ServiceJob::ReadEnv => ServiceJobModel::ReadEnv,
            ServiceJob::EnvRead => ServiceJobModel::EnvRead,
            ServiceJob::WriteEnv(s) => ServiceJobModel::WriteEnv(s@),
            ServiceJob::EnvDirMade(s) => ServiceJobModel::EnvDirMade(s@),
            ServiceJob::EnvWritten => ServiceJobModel::EnvWritten,
            ServiceJob::EnvProtected => ServiceJobModel::EnvProtected,
            ServiceJob::Act(a) => ServiceJobModel::Act(*a),
            ServiceJob::Acted(a) => ServiceJobModel::Acted(*a),
            ServiceJob::Settling(s, ok) => ServiceJobModel::Settling(s@, *ok),
        }
    }
}

/// The output of a command, if it ran.
pub open spec fn printed(r: ReplyModel) -> Option<OutputModel> {
    match r {
        ReplyModel::Output(o) => Some(o),
        _ => None,
    }
}

/// The message that tells of the service.
pub open spec fn service_message(first: bool, info: Option<ServiceInfoModel>) -> NextModel<
    ServiceJobModel,
> {
    NextModel::Finish(
        if first {
            MessageModel::ServiceDetected(info)
        } else {
            MessageModel::ServiceRefreshed(info)
        },
    )
}

/// The directory of the environment file.
pub open spec fn env_dir(h: HostModel) -> Seq<char> {
    h.user_dir() + "/.config/sapphire"@
}

/// The environment file.
pub open spec fn env_file(h: HostModel) -> Seq<char> {
    h.user_dir() + "/.config/sapphire"@ + "/service.env"@
}

/// How a job goes on with a reply.
pub open spec fn service_next(h: HostModel, job: ServiceJobModel, r: ReplyModel) -> NextModel<
    ServiceJobModel,
> {
    match job {
        ServiceJobModel::Detect(first) => match h.platform {
            Platform::Windows => service_message(first, None),
            Platform::Linux => run(show_unit(), ServiceJobModel::Shown(first)),
        },
        ServiceJobModel::Shown(first) => service_message(
            first,
            service_there(h.platform, printed(r)),
        ),
        ServiceJobModel::FindSystemd => match h.platform {
            Platform::Windows => NextModel::Finish(MessageModel::SystemdChecked(false)),
            Platform::Linux => run(
                named("systemctl"@, seq!["--user"@, "show-environment"@]),
                ServiceJobModel::SystemdAnswered,
            ),
        },
        ServiceJobModel::SystemdAnswered => NextModel::Finish(
            MessageModel::SystemdChecked(systemd_there(h.platform, printed(r))),
        ),
        ServiceJobModel::ReadEnv => match h.platform {
            Platform::Windows => NextModel::Finish(MessageModel::EnvLoaded(""@)),
            Platform::Linux => NextModel::Ask(
                RequestModel::Read(env_file(h)),
                ServiceJobModel::EnvRead,
            ),
        },
        ServiceJobModel::EnvRead => NextModel::Finish(
            MessageModel::EnvLoaded(
                match r.text() {
                    Some(text) => text,
                    None => ""@,
                },
            ),
        ),
        ServiceJobModel::WriteEnv(text) => match h.platform {
            Platform::Windows => NextModel::Finish(MessageModel::EnvSaved(false)),
            Platform::Linux => NextModel::Ask(
                RequestModel::CreateDir(env_dir(h)),
                ServiceJobModel::EnvDirMade(text),
            ),
        },
        ServiceJobModel::EnvDirMade(text) => match r.failure() {
            Some(_) => NextModel::Finish(MessageModel::EnvSaved(false)),
            None => NextModel::Ask(
                RequestModel::Write(env_file(h), text),
                ServiceJobModel::EnvWritten,
            ),
        },
        ServiceJobModel::EnvWritten => match r.failure() {
            Some(_) => NextModel::Finish(MessageModel::EnvSaved(false)),
            None => NextModel::Ask(
                RequestModel::Protect(env_file(h)),
                ServiceJobModel::EnvProtected,
            ),
        },
        ServiceJobModel::EnvProtected => NextModel::Finish(
            MessageModel::EnvSaved(r.failure() is None),
        ),
        ServiceJobModel::Act(a) => run(action_cmd(a), ServiceJobModel::Acted(a)),
        ServiceJobModel::Acted(a) => {
            let (text, ok) = action_result(a, r.full());
            if a == Action::Stop {
                NextModel::Ask(
                    RequestModel::Sleep(SETTLE),
                    ServiceJobModel::Settling(text, ok),
                )
            } else {
                NextModel::Finish(MessageModel::ServiceActionResult(text, ok))
            }
        },
        ServiceJobModel::Settling(text, ok) => NextModel::Finish(
            MessageModel::ServiceActionResult(text, ok),
        ),
    }
}

fn printed_by(reply: &Reply) -> (out: Option<Output>)
    ensures
        out.deep_view() == printed(reply.deep_view()),
{
    match reply {
        Reply::Output(o) => Some(
            Output {
                success: o.success,
                code: o.code,
                stdout: o.stdout.clone(),
                stderr: o.stderr.clone(),
            },
        ),
        _ => None,
    }
}

fn tell_service(first: bool, info: Option<ServiceInfo>) -> (n: Next<ServiceJob>)
    ensures
        n.deep_view() == service_message(first, info.deep_view()),
{
    if first {
        Next::Finish(Message::ServiceDetected(info))
    } else {
        Next::Finish(Message::ServiceRefreshed(info))
    }
}

fn env_path(host: &Host) -> (s: String)
    ensures
        s@ == env_file(host.deep_view()),
{
    host.user_dir().concat("/.config/sapphire").concat("/service.env")
}

impl ServiceJob {
    /// Goes on with a reply.
    pub fn advance(self, host: &Host, reply: &Reply) -> (next: Next<ServiceJob>)
        ensures
            next.deep_view() == service_next(
                host.deep_view(),
                self.deep_view(),
                reply.deep_view(),
            ),
    {
        match self {
            ServiceJob::Detect(first) => match host.platform {
                Platform::Windows => tell_service(first, None),
                Platform::Linux => Next::Ask(
                    Request::Run(show_unit_command()),
                    ServiceJob::Shown(first),
                ),
            },
            ServiceJob::Shown(first) => tell_service(
                first,
                detect_sapphire_service(host.platform, &printed_by(reply)),
            ),
            ServiceJob::FindSystemd => match host.platform {
                Platform::Windows => Next::Finish(Message::SystemdChecked(false)),
                Platform::Linux => Next::Ask(
                    Request::Run(named_cmd("systemctl", &["--user", "show-environment"])),
                    ServiceJob::SystemdAnswered,
                ),
            },
            ServiceJob::SystemdAnswered => Next::Finish(
                Message::SystemdChecked(
                    systemd_user_available(host.platform, &printed_by(reply)),
                ),
            ),
            ServiceJob::ReadEnv => match host.platform {
                Platform::Windows => Next::Finish(Message::EnvLoaded("".to_string())),
                Platform::Linux => Next::Ask(Request::Read(env_path(host)), ServiceJob::EnvRead),
            },
            ServiceJob::EnvRead => Next::Finish(
                Message::EnvLoaded(
                    match reply.text() {
                        Some(text) => text,
                        None => "".to_string(),
                    },
                ),
            ),
            ServiceJob::WriteEnv(text) => match host.platform {
                Platform::Windows => Next::Finish(Message::EnvSaved(false)),
                Platform::Linux => Next::Ask(
                    Request::CreateDir(host.user_dir().concat("/.config/sapphire")),
                    ServiceJob::EnvDirMade(text),
                ),
            },
            ServiceJob::EnvDirMade(text) => match reply.failure() {
                Some(_) => Next::Finish(Message::EnvSaved(false)),
                None => Next::Ask(Request::Write(env_path(host), text), ServiceJob::EnvWritten),
            },
            ServiceJob::EnvWritten => match reply.failure() {
                Some(_) => Next::Finish(Message::EnvSaved(false)),
                None => Next::Ask(Request::Protect(env_path(host)), ServiceJob::EnvProtected),
            },
            ServiceJob::EnvProtected => Next::Finish(
                Message::EnvSaved(reply.failure().is_none()),
            ),
            ServiceJob::Act(a) => Next::Ask(Request::Run(a.command()), ServiceJob::Acted(a)),
            ServiceJob::Acted(a) => {
                let (text, ok) = match reply.full() {
                    Ok(_) => (a.done().to_string(), true),
                    Err(why) => (a.failed().to_string().concat(why.as_str()), false),
                };
                if a == Action::Stop {
                    Next::Ask(Request::Sleep(SETTLE), ServiceJob::Settling(text, ok))
                } else {
                    Next::Finish(Message::ServiceActionResult(text, ok))
                }
            },
            ServiceJob::Settling(text, ok) => Next::Finish(Message::ServiceActionResult(text, ok)),
        }
    }
}

// ── The systemd unit ─────────────────────────────────────────────────────

/// The text of the unit that runs Sapphire with `py` in `wd` and takes its
/// environment from `env`, if that is there.
pub open spec fn unit_content(wd: Seq<char>, py: Seq<char>, env: Seq<char>) -> Seq<char> {
    "[Unit]\nDescription=Sapphire AI\nAfter=network.target\n\n[Service]\nType=simple\nWorkingDirectory="@
        + wd + "\nExecStart="@ + py
        + " main.py\nRestart=on-failure\nRestartSec=3\nEnvironment=PYTHONUNBUFFERED=1\nEnvironmentFile=-"@
        + env + "\n\n[Install]\nWantedBy=default.target\n"@
}

/// Writes the text of the unit.
pub fn unit_text(wd: &str, py: &str, env: &str) -> (s: String)
    ensures
        s@ == unit_content(wd@, py@, env@),
{
    "[Unit]\nDescription=Sapphire AI\nAfter=network.target\n\n[Service]\nType=simple\nWorkingDirectory=".to_string().concat(
    wd).concat("\nExecStart=").concat(py).concat(
        " main.py\nRestart=on-failure\nRestartSec=3\nEnvironment=PYTHONUNBUFFERED=1\nEnvironmentFile=-",
    ).concat(env).concat("\n\n[Install]\nWantedBy=default.target\n")
}

/// The directory of the user's units.
pub open spec fn unit_dir(h: HostModel) -> Seq<char> {
    h.user_dir() + "/.config/systemd/user"@
}

/// The file of the unit.
pub open spec fn unit_file(h: HostModel) -> Seq<char> {
    h.user_dir() + "/.config/systemd/user"@ + "/sapphire.service"@
}

/// The installation or the removal of the unit, at the point that it has
/// reached.
#[derive(Debug, Clone)]
pub enum UnitJob {
    /// Install the unit for the installation at a path.
    Install(String),
    PythonSeen(String),
    /// The directory was made; the path and the Python.
    DirMade(String, String),
    Written,
    Reloaded,
    Enabled,
    /// Remove the unit.
    Remove,
    Disabled,
    Seen,
    Copied,
    Deleted,
    Gone,
}

/// `UnitJob` with its texts as character sequences.
#[verifier::ext_equal]
pub enum UnitJobModel {
    Install(Seq<char>),
    PythonSeen(Seq<char>),
    DirMade(Seq<char>, Seq<char>),
    Written,
    Reloaded,
    Enabled,
    Remove,
    Disabled,
    Seen,
    Copied,
    Deleted,
    Gone,
}

impl DeepView for UnitJob {
    type V = UnitJobModel;

    open spec fn deep_view(&self) -> UnitJobModel {
        match self {
            UnitJob::Install(p) => UnitJobModel::Install(p@),
            UnitJob::PythonSeen(p) => UnitJobModel::PythonSeen(p@),
            UnitJob::DirMade(p, y) => UnitJobModel::DirMade(p@, y@),
            UnitJob::Written => UnitJobModel::Written,
            UnitJob::Reloaded => UnitJobModel::Reloaded,
            UnitJob::Enabled => UnitJobModel::Enabled,
            UnitJob::Remove => UnitJobModel::Remove,
            UnitJob::Disabled => UnitJobModel::Disabled,
            UnitJob::Seen => UnitJobModel::Seen,
            UnitJob::Copied => UnitJobModel::Copied,
            UnitJob::Deleted => UnitJobModel::Deleted,
            UnitJob::Gone => UnitJobModel::Gone,
        }
    }
}

/// The message that ends the installation of a service.
pub open spec fn service_installed<J>(text: Seq<char>, ok: bool) -> NextModel<J> {
    NextModel::Finish(MessageModel::ServiceInstallResult(text, ok))
}

/// The message that ends the removal of a service.
pub open spec fn service_removed<J>(text: Seq<char>, ok: bool) -> NextModel<J> {
    NextModel::Finish(MessageModel::ServiceRemoveResult(text, ok))
}

/// The command that makes systemd read its units again.
pub open spec fn reload_units() -> CmdModel {
    named("systemctl"@, seq!["--user"@, "daemon-reload"@])
}

/// How the installation or the removal of the unit goes on.
pub open spec fn unit_next(h: HostModel, job: UnitJobModel, r: ReplyModel) -> NextModel<
    UnitJobModel,
> {
    match job {
        UnitJobModel::Install(path) => NextModel::Ask(
            RequestModel::Probe(h.python_places()),
            UnitJobModel::PythonSeen(path),
        ),
        UnitJobModel::PythonSeen(path) => match env_python(h, r.flags()) {
            None => service_installed(
                "Couldn't find the Sapphire environment's Python — install Sapphire first."@,
                false,
            ),
            Some(py) => NextModel::Ask(
                RequestModel::CreateDir(unit_dir(h)),
                UnitJobModel::DirMade(path, py),
            ),
        },
        UnitJobModel::DirMade(path, py) => match r.failure() {
            Some(why) => service_installed(
                "Couldn't create "@ + unit_dir(h) + ": "@ + why,
                false,
            ),
            None => NextModel::Ask(
                RequestModel::Write(unit_file(h), unit_content(path, py, env_file(h))),
                UnitJobModel::Written,
            ),
        },
        UnitJobModel::Written => match r.failure() {
            Some(why) => service_installed(
                "Couldn't write "@ + unit_file(h) + ": "@ + why,
                false,
            ),
            None => run(reload_units(), UnitJobModel::Reloaded),
        },
        UnitJobModel::Reloaded => run(
            named("systemctl"@, seq!["--user"@, "enable"@, "--now"@, "sapphire"@]),
            UnitJobModel::Enabled,
        ),
        UnitJobModel::Enabled => match r.full() {
            Ok(_) => service_installed(
                "Service created and started. Sapphire will start when you sign in."@,
                true,
            ),
            Err(why) => service_installed(
                "Unit written, but enabling it failed: "@ + why,
                false,
            ),
        },
        UnitJobModel::Remove => run(
            named("systemctl"@, seq!["--user"@, "disable"@, "--now"@, "sapphire"@]),
            UnitJobModel::Disabled,
        ),
        UnitJobModel::Disabled => NextModel::Ask(
            RequestModel::Probe(seq![unit_file(h)]),
            UnitJobModel::Seen,
        ),
        UnitJobModel::Seen => if r.found(0) {
            NextModel::Ask(
                RequestModel::CopyFile(unit_file(h), unit_file(h) + ".bak"@),
                UnitJobModel::Copied,
            )
        } else {
            run(reload_units(), UnitJobModel::Gone)
        },
        UnitJobModel::Copied => match r.failure() {
            Some(why) => service_removed(
                "Disabled, but couldn't back up "@ + unit_file(h) + ": "@ + why,
                false,
            ),
            None => NextModel::Ask(
                RequestModel::RemoveFile(unit_file(h)),
                UnitJobModel::Deleted,
            ),
        },
        UnitJobModel::Deleted => match r.failure() {
            Some(why) => service_removed(
                "Disabled, but couldn't delete "@ + unit_file(h) + ": "@ + why,
                false,
            ),
            None => run(reload_units(), UnitJobModel::Gone),
        },
        UnitJobModel::Gone => service_removed(
            "Service stopped, disabled, and removed (kept a .bak copy)."@,
            true,
        ),
    }
}

fn unit_path(host: &Host) -> (s: String)
    ensures
        s@ == unit_file(host.deep_view()),
{
    host.user_dir().concat("/.config/systemd/user").concat("/sapphire.service")
}

fn reload_command() -> (c: Cmd)
    ensures
        c.deep_view() == reload_units(),
{
    named_cmd("systemctl", &["--user", "daemon-reload"])
}

fn not_installed<J: DeepView>(text: String) -> (n: Next<J>)
    ensures
        n.deep_view() == service_installed::<J::V>(text@, false),
{
    Next::Finish(Message::ServiceInstallResult(text, false))
}

impl UnitJob {
    /// Goes on with a reply.
    pub fn advance(self, host: &Host, reply: &Reply) -> (next: Next<UnitJob>)
        ensures
            next.deep_view() == unit_next(host.deep_view(), self.deep_view(), reply.deep_view()),
    {
        match self {
            UnitJob::Install(path) => Next::Ask(
                Request::Probe(host.python_places()),
                UnitJob::PythonSeen(path),
            ),
            UnitJob::PythonSeen(path) => match sapphire_env_python(host, &reply.flags()) {
                None => not_installed(
                    "Couldn't find the Sapphire environment's Python — install Sapphire first.".to_string(),
                ),
                Some(py) => Next::Ask(
                    Request::CreateDir(host.user_dir().concat("/.config/systemd/user")),
                    UnitJob::DirMade(path, py),
                ),
            },
            UnitJob::DirMade(path, py) => match reply.failure() {
                Some(why) => {
                    let dir = host.user_dir().concat("/.config/systemd/user");
                    not_installed(
                        "Couldn't create ".to_string().concat(dir.as_str()).concat(": ").concat(
                            why.as_str(),
                        ),
                    )
                },
                None => {
                    let env = env_path(host);
                    Next::Ask(
                        Request::Write(
                            unit_path(host),
                            unit_text(path.as_str(), py.as_str(), env.as_str()),
                        ),
                        UnitJob::Written,
                    )
                },
            },
            UnitJob::Written => match reply.failure() {
                Some(why) => {
                    let file = unit_path(host);
                    not_installed(
                        "Couldn't write ".to_string().concat(file.as_str()).concat(": ").concat(
                            why.as_str(),
                        ),
                    )
                },
                None => Next::Ask(Request::Run(reload_command()), UnitJob::Reloaded),
            },
            UnitJob::Reloaded => Next::Ask(
                Request::Run(named_cmd("systemctl", &["--user", "enable", "--now", "sapphire"])),
                UnitJob::Enabled,
            ),
            UnitJob::Enabled => match reply.full() {
                Ok(_) => Next::Finish(
                    Message::ServiceInstallResult(
                        "Service created and started. Sapphire will start when you sign in.".to_string(),
                        true,
                    ),
                ),
                Err(why) => not_installed(
                    "Unit written, but enabling it failed: ".to_string().concat(why.as_str()),
                ),
            },
            UnitJob::Remove => Next::Ask(
                Request::Run(named_cmd("systemctl", &["--user", "disable", "--now", "sapphire"])),
                UnitJob::Disabled,
            ),
            UnitJob::Disabled => {
                let file = unit_path(host);
                Next::Ask(Request::Probe(words(&[file.as_str()])), UnitJob::Seen)
            },
            UnitJob::Seen => if reply.found(0) {
                Next::Ask(
                    Request::CopyFile(unit_path(host), unit_path(host).concat(".bak")),
                    UnitJob::Copied,
                )
            } else {
                Next::Ask(Request::Run(reload_command()), UnitJob::Gone)
            },
            UnitJob::Copied => match reply.failure() {
                Some(why) => {
                    let file = unit_path(host);
                    Next::Finish(
                        Message::ServiceRemoveResult(
                            "Disabled, but couldn't back up ".to_string().concat(
                                file.as_str(),
                            ).concat(": ").concat(why.as_str()),
                            false,
                        ),
                    )
                },
                None => Next::Ask(Request::RemoveFile(unit_path(host)), UnitJob::Deleted),
            },
            UnitJob::Deleted => match reply.failure() {
                Some(why) => {
                    let file = unit_path(host);
                    Next::Finish(
                        Message::ServiceRemoveResult(
                            "Disabled, but couldn't delete ".to_string().concat(
                                file.as_str(),
                            ).concat(": ").concat(why.as_str()),
                            false,
                        ),
                    )
                },
                None => Next::Ask(Request::Run(reload_command()), UnitJob::Gone),
            },
            UnitJob::Gone => Next::Finish(
                Message::ServiceRemoveResult(
                    "Service stopped, disabled, and removed (kept a .bak copy).".to_string(),
                    true,
                ),
            ),
        }
    }
}

// ── The logon task ───────────────────────────────────────────────────────

/// `s` inside a Python string literal.
pub open spec fn python_literal(s: Seq<char>) -> Seq<char> {
    escaped(s)
}

/// `s` inside a PowerShell string in single quotes.
pub open spec fn shell_literal(s: Seq<char>) -> Seq<char> {
    replaced(s, "'"@, "''"@)
}

fn to_shell(s: &str) -> (out: String)
    ensures
        out@ == shell_literal(s@),
{
    proof {
        reveal_strlit("'");
    }
    replace(s, "'", "''")
}

/// The text of the script that the task runs: it sends the output to `log`
/// and starts Sapphire in `cwd`.
pub open spec fn shim_content(cwd: Seq<char>, log: Seq<char>) -> Seq<char> {
    "import runpy, sys, os\r\nos.chdir(\""@ + python_literal(cwd) + "\")\r\n_log = \""@
        + python_literal(log)
        + "\"\r\nos.makedirs(os.path.dirname(_log), exist_ok=True)\r\nsys.stdout = sys.stderr = open(_log, \"a\", buffering=1, encoding=\"utf-8\", errors=\"replace\")\r\nrunpy.run_path(\"main.py\", run_name=\"__main__\")\r\n"@
}

/// Writes the text of the script that the task runs.
pub fn shim_text(cwd: &str, log: &str) -> (s: String)
    ensures
        s@ == shim_content(cwd@, log@),
{
    let cwd = escape(cwd);
    let log = escape(log);
    "import runpy, sys, os\r\nos.chdir(\"".to_string().concat(cwd.as_str()).concat(
        "\")\r\n_log = \"",
    ).concat(log.as_str()).concat(
        "\"\r\nos.makedirs(os.path.dirname(_log), exist_ok=True)\r\nsys.stdout = sys.stderr = open(_log, \"a\", buffering=1, encoding=\"utf-8\", errors=\"replace\")\r\nrunpy.run_path(\"main.py\", run_name=\"__main__\")\r\n",
    )
}

/// The text of the PowerShell script that registers the task for `user`.
pub open spec fn register_content(
    pyw: Seq<char>,
    shim: Seq<char>,
    cwd: Seq<char>,
    user: Seq<char>,
) -> Seq<char> {
    "$ErrorActionPreference='Stop'\r\n$a = New-ScheduledTaskAction -Execute '"@ + shell_literal(pyw)
        + "' -Argument '\""@ + shell_literal(shim) + "\"' -WorkingDirectory '"@ + shell_literal(cwd)
        + "'\r\n$t = New-ScheduledTaskTrigger -AtLogOn -User '"@ + shell_literal(user)
        + "'\r\n$p = New-ScheduledTaskPrincipal -UserId '"@ + shell_literal(user)
        + "' -LogonType Interactive\r\n$s = New-ScheduledTaskSettingsSet -AllowStartIfOnBatteries -DontStopIfGoingOnBatteries -ExecutionTimeLimit ([TimeSpan]::Zero) -StartWhenAvailable\r\nRegister-ScheduledTask -TaskName Sapphire -Action $a -Trigger $t -Principal $p -Settings $s -Force | Out-Null\r\n"@
}

/// Writes the text of the PowerShell script that registers the task.
pub fn register_text(pyw: &str, shim: &str, cwd: &str, user: &str) -> (s: String)
    ensures
        s@ == register_content(pyw@, shim@, cwd@, user@),
{
    let pyw = to_shell(pyw);
    let shim = to_shell(shim);
    let cwd = to_shell(cwd);
    let user = to_shell(user);
    "$ErrorActionPreference='Stop'\r\n$a = New-ScheduledTaskAction -Execute '".to_string().concat(
        pyw.as_str(),
    ).concat("' -Argument '\"").concat(shim.as_str()).concat("\"' -WorkingDirectory '").concat(
        cwd.as_str(),
    ).concat("'\r\n$t = New-ScheduledTaskTrigger -AtLogOn -User '").concat(user.as_str()).concat(
        "'\r\n$p = New-ScheduledTaskPrincipal -UserId '",
    ).concat(user.as_str()).concat(
        "' -LogonType Interactive\r\n$s = New-ScheduledTaskSettingsSet -AllowStartIfOnBatteries -DontStopIfGoingOnBatteries -ExecutionTimeLimit ([TimeSpan]::Zero) -StartWhenAvailable\r\nRegister-ScheduledTask -TaskName Sapphire -Action $a -Trigger $t -Principal $p -Settings $s -Force | Out-Null\r\n",
    )
}

/// The PowerShell command that runs a script file with elevated rights.
pub open spec fn elevated(file: Seq<char>) -> Seq<char> {
    "$ErrorActionPreference='Stop'; try { $p = Start-Process powershell -Verb RunAs -WindowStyle Hidden -PassThru -Wait -ArgumentList '-NoProfile','-ExecutionPolicy','Bypass','-File','"@
        + shell_literal(file) + "'; exit $p.ExitCode } catch { exit 1223 }"@
}

/// The command that runs a PowerShell command line.
pub open spec fn powershell(line: Seq<char>) -> CmdModel {
    named("powershell"@, seq!["-NoProfile"@, "-Command"@, line])
}

/// The PowerShell command that removes the task with elevated rights.
pub const UNREGISTER: &'static str =
    "$ErrorActionPreference='Stop'; try { $p = Start-Process powershell -Verb RunAs -WindowStyle Hidden -PassThru -Wait -ArgumentList '-NoProfile','-Command','Unregister-ScheduledTask -TaskName Sapphire -Confirm:$false'; exit $p.ExitCode } catch { exit 1223 }";

/// The installation or the removal of the logon task, at the point that it
/// has reached.
#[derive(Debug, Clone)]
pub enum TaskJob {
    /// Install the task for the installation at a path.
    Install(String),
    PythonSeen(String),
    /// The directory was made; the path and the Python.
    DirMade(String, String),
    LogCleared(String, String),
    ShimWritten(String, String),
    ScriptWritten,
    Registered,
    MarkerDirMade,
    Marked,
    /// Remove the task.
    Remove,
    Unregistered,
    Unmarked,
}

/// `TaskJob` with its texts as character sequences.
#[verifier::ext_equal]
pub enum TaskJobModel {
    Install(Seq<char>),
    PythonSeen(Seq<char>),
    DirMade(Seq<char>, Seq<char>),
    LogCleared(Seq<char>, Seq<char>),
    ShimWritten(Seq<char>, Seq<char>),
    ScriptWritten,
    Registered,
    MarkerDirMade,
    Marked,
    Remove,
    Unregistered,
    Unmarked,
}

impl DeepView for TaskJob {
    type V = TaskJobModel;

    open spec fn deep_view(&self) -> TaskJobModel {
        match self {
            TaskJob::Install(p) => TaskJobModel::Install(p@),
            TaskJob::PythonSeen(p) => TaskJobModel::PythonSeen(p@),
            TaskJob::DirMade(p, y) => TaskJobModel::DirMade(p@, y@),
            TaskJob::LogCleared(p, y) => TaskJobModel::LogCleared(p@, y@),
            TaskJob::ShimWritten(p, y) => TaskJobModel::ShimWritten(p@, y@),
            TaskJob::ScriptWritten => TaskJobModel::ScriptWritten,
            TaskJob::Registered => TaskJobModel::Registered,
            TaskJob::MarkerDirMade => TaskJobModel::MarkerDirMade,
            TaskJob::Marked => TaskJobModel::Marked,
            TaskJob::Remove => TaskJobModel::Remove,
            TaskJob::Unregistered => TaskJobModel::Unregistered,
            TaskJob::Unmarked => TaskJobModel::Unmarked,
        }
    }
}

/// The user that the task starts for.
pub open spec fn logon_user(h: HostModel) -> Seq<char> {
    h.user_domain + "\\"@ + h.user_name
}

/// The file of the script that registers the task.
pub open spec fn script_file(h: HostModel) -> Seq<char> {
    h.path(h.temp_dir, "sapphire-enable.ps1"@)
}

/// The file that says that autostart is on.
pub open spec fn marker_file(h: HostModel) -> Seq<char> {
    h.path(h.config_dir(), "autostart.on"@)
}

/// How the installation or the removal of the task goes on.
pub open spec fn task_next(h: HostModel, job: TaskJobModel, r: ReplyModel) -> NextModel<
    TaskJobModel,
> {
    let shim = h.path(h.config_dir(), "autostart.pyw"@);
    let log = h.path(h.config_dir(), "autostart.log"@);
    match job {
        TaskJobModel::Install(path) => NextModel::Ask(
            RequestModel::Probe(h.pythonw_places()),
            TaskJobModel::PythonSeen(path),
        ),
        TaskJobModel::PythonSeen(path) => match first_found(h.pythonw_places(), r.flags()) {
            None => service_installed(
                "Couldn't find Sapphire's environment (pythonw.exe) — install Sapphire first."@,
                false,
            ),
            Some(pyw) => NextModel::Ask(
                RequestModel::CreateDir(h.config_dir()),
                TaskJobModel::DirMade(path, pyw),
            ),
        },
        TaskJobModel::DirMade(path, pyw) => match r.failure() {
            Some(why) => service_installed(
                "Couldn't create the autostart folder: "@ + why,
                false,
            ),
            None => NextModel::Ask(
                RequestModel::Write(log, ""@),
                TaskJobModel::LogCleared(path, pyw),
            ),
        },
        TaskJobModel::LogCleared(path, pyw) => NextModel::Ask(
            RequestModel::Write(shim, shim_content(path, log)),
            TaskJobModel::ShimWritten(path, pyw),
        ),
        TaskJobModel::ShimWritten(path, pyw) => match r.failure() {
            Some(why) => service_installed(
                "Couldn't write the autostart launcher: "@ + why,
                false,
            ),
            None => NextModel::Ask(
                RequestModel::Write(
                    script_file(h),
                    register_content(pyw, shim, path, logon_user(h)),
                ),
                TaskJobModel::ScriptWritten,
            ),
        },
        TaskJobModel::ScriptWritten => match r.failure() {
            Some(why) => service_installed("Couldn't write the setup script: "@ + why, false),
            None => run(powershell(elevated(script_file(h))), TaskJobModel::Registered),
        },
        TaskJobModel::Registered => if r.worked() {
            NextModel::Ask(RequestModel::CreateDir(h.config_dir()), TaskJobModel::MarkerDirMade)
        } else {
            service_installed(
                "Couldn't enable autostart — the admin prompt may have been declined. Try again and choose Yes."@,
                false,
            )
        },
        TaskJobModel::MarkerDirMade => NextModel::Ask(
            RequestModel::Write(marker_file(h), "on"@),
            TaskJobModel::Marked,
        ),
        TaskJobModel::Marked => service_installed(
            "Autostart enabled — Sapphire will start when you sign in."@,
            true,
        ),
        TaskJobModel::Remove => run(powershell(UNREGISTER@), TaskJobModel::Unregistered),
        TaskJobModel::Unregistered => if r.worked() {
            NextModel::Ask(RequestModel::RemoveFile(marker_file(h)), TaskJobModel::Unmarked)
        } else {
            service_removed(
                "Couldn't remove autostart — the admin prompt may have been declined. Nothing was changed."@,
                false,
            )
        },
        TaskJobModel::Unmarked => service_removed("Autostart removed."@, true),
    }
}

impl TaskJob {
    /// Goes on with a reply.
    pub fn advance(self, host: &Host, reply: &Reply) -> (next: Next<TaskJob>)
        ensures
            next.deep_view() == task_next(host.deep_view(), self.deep_view(), reply.deep_view()),
    {
        match self {
            TaskJob::Install(path) => Next::Ask(
                Request::Probe(host.pythonw_places()),
                TaskJob::PythonSeen(path),
            ),
            TaskJob::PythonSeen(path) => match sapphire_pythonw(host, &reply.flags()) {
                None => not_installed(
                    "Couldn't find Sapphire's environment (pythonw.exe) — install Sapphire first.".to_string(),
                ),
                Some(pyw) => Next::Ask(
                    Request::CreateDir(app_config_dir(host)),
                    TaskJob::DirMade(path, pyw),
                ),
            },
            TaskJob::DirMade(path, pyw) => match reply.failure() {
                Some(why) => not_installed(
                    "Couldn't create the autostart folder: ".to_string().concat(why.as_str()),
                ),
                None => Next::Ask(
                    Request::Write(autostart_log_path(host), "".to_string()),
                    TaskJob::LogCleared(path, pyw),
                ),
            },
            TaskJob::LogCleared(path, pyw) => {
                let log = autostart_log_path(host);
                Next::Ask(
                    Request::Write(
                        autostart_shim_path(host),
                        shim_text(path.as_str(), log.as_str()),
                    ),
                    TaskJob::ShimWritten(path, pyw),
                )
            },
            TaskJob::ShimWritten(path, pyw) => match reply.failure() {
                Some(why) => not_installed(
                    "Couldn't write the autostart launcher: ".to_string().concat(why.as_str()),
                ),
                None => {
                    let shim = autostart_shim_path(host);
                    let user = host.user_domain.clone().concat("\\").concat(
                        host.user_name.as_str(),
                    );
                    Next::Ask(
                        Request::Write(
                            host.path(host.temp_dir.as_str(), "sapphire-enable.ps1"),
                            register_text(
                                pyw.as_str(),
                                shim.as_str(),
                                path.as_str(),
                                user.as_str(),
                            ),
                        ),
                        TaskJob::ScriptWritten,
                    )
                },
            },
            TaskJob::ScriptWritten => match reply.failure() {
                Some(why) => not_installed(
                    "Couldn't write the setup script: ".to_string().concat(why.as_str()),
                ),
                None => {
                    let file = host.path(host.temp_dir.as_str(), "sapphire-enable.ps1");
                    let file = to_shell(file.as_str());
                    let line =
                        "$ErrorActionPreference='Stop'; try { $p = Start-Process powershell -Verb RunAs -WindowStyle Hidden -PassThru -Wait -ArgumentList '-NoProfile','-ExecutionPolicy','Bypass','-File','".to_string().concat(
                    file.as_str()).concat("'; exit $p.ExitCode } catch { exit 1223 }");
                    Next::Ask(
                        Request::Run(
                            named_cmd("powershell", &["-NoProfile", "-Command", line.as_str()]),
                        ),
                        TaskJob::Registered,
                    )
                },
            },
            TaskJob::Registered => if reply.worked() {
                Next::Ask(Request::CreateDir(app_config_dir(host)), TaskJob::MarkerDirMade)
            } else {
                not_installed(
                    "Couldn't enable autostart — the admin prompt may have been declined. Try again and choose Yes.".to_string(),
                )
            },
            TaskJob::MarkerDirMade => Next::Ask(
                Request::Write(autostart_marker_path(host), "on".to_string()),
                TaskJob::Marked,
            ),
            TaskJob::Marked => Next::Finish(
                Message::ServiceInstallResult(
                    "Autostart enabled — Sapphire will start when you sign in.".to_string(),
                    true,
                ),
            ),
            TaskJob::Remove => Next::Ask(
                Request::Run(named_cmd("powershell", &["-NoProfile", "-Command", UNREGISTER])),
                TaskJob::Unregistered,
            ),
            TaskJob::Unregistered => if reply.worked() {
                Next::Ask(Request::RemoveFile(autostart_marker_path(host)), TaskJob::Unmarked)
            } else {
                Next::Finish(
                    Message::ServiceRemoveResult(
                        "Couldn't remove autostart — the admin prompt may have been declined. Nothing was changed.".to_string(),
                        false,
                    ),
                )
            },
            TaskJob::Unmarked => Next::Finish(
                Message::ServiceRemoveResult("Autostart removed.".to_string(), true),
            ),
        }
    }
}

// ── Laws ─────────────────────────────────────────────────────────────────

/// The mark that autostart is on is taken away only after the task is gone:
/// a declined prompt leaves it in place.
pub proof fn law_mark_outlives_a_declined_removal(
    h: HostModel,
    job: TaskJobModel,
    r: ReplyModel,
    file: Seq<char>,
    next: TaskJobModel,
)
    requires
        task_next(h, job, r) == NextModel::Ask(RequestModel::RemoveFile(file), next),
    ensures
        job == TaskJobModel::Unregistered && r.worked() && file == marker_file(h),
{
}

/// The unit is deleted only after a copy of it was made.
pub proof fn law_unit_is_copied_first(
    h: HostModel,
    before: UnitJobModel,
    s: ReplyModel,
    request: RequestModel,
    job: UnitJobModel,
    r: ReplyModel,
    file: Seq<char>,
    next: UnitJobModel,
)
    requires
        unit_next(h, before, s) == NextModel::Ask(request, job),
        unit_next(h, job, r) == NextModel::Ask(RequestModel::RemoveFile(file), next),
    ensures
        file == unit_file(h),
        request == RequestModel::CopyFile(unit_file(h), unit_file(h) + ".bak"@),
        r.failure() is None,
{
}

/// An environment file that is said to be saved was written with the text
/// and then closed to other users.
pub proof fn law_saved_environment_is_protected(
    h: HostModel,
    before: ServiceJobModel,
    s: ReplyModel,
    request: RequestModel,
    job: ServiceJobModel,
    r: ReplyModel,
)
    requires
        service_next(h, before, s) == NextModel::Ask(request, job),
        service_next(h, job, r) == NextModel::<ServiceJobModel>::Finish(
            MessageModel::EnvSaved(true),
        ),
    ensures
        request == RequestModel::Protect(env_file(h)),
        before == ServiceJobModel::EnvWritten && s.failure() is None,
        r.failure() is None,
{
}

/// What Python makes of a text that stands behind the opening quote of a
/// string: the string, and what follows its closing quote. Nothing, where
/// the string does not end on its line or has an escape other than that of
/// a backslash or a quote.
pub open spec fn python_string(t: Seq<char>) -> Option<(Seq<char>, Seq<char>)>
    decreases t.len(),
{
    if t.len() == 0 || t[0] == '\n' || t[0] == '\r' {
        None
    } else if t[0] == '"' {
        Some((Seq::empty(), t.drop_first()))
    } else {
        let n: int = if t[0] == '\\' {
            1
        } else {
            0
        };
        if n >= t.len() || (n == 1 && t[1] != '\\' && t[1] != '"') {
            None
        } else {
            match python_string(t.skip(n + 1)) {
                Some((s, rest)) => Some((seq![t[n]] + s, rest)),
                None => None,
            }
        }
    }
}

/// Does PowerShell take `c` for a single quote? It does so for the quotes of
/// typography too.
pub open spec fn shell_quote(c: char) -> bool {
    c == '\'' || 0x2018 <= c as u32 <= 0x201b
}

/// What PowerShell makes of a text that stands behind the opening single
/// quote of a string: the string, in which a doubled quote stands for one,
/// and what follows its closing quote. Nothing, where it has no end.
pub open spec fn shell_string(t: Seq<char>) -> Option<(Seq<char>, Seq<char>)>
    decreases t.len(),
{
    if t.len() == 0 {
        None
    } else if !shell_quote(t[0]) {
        match shell_string(t.drop_first()) {
            Some((s, rest)) => Some((seq![t[0]] + s, rest)),
            None => None,
        }
    } else if t.len() > 1 && shell_quote(t[1]) {
        match shell_string(t.skip(2)) {
            Some((s, rest)) => Some((seq![t[1]] + s, rest)),
            None => None,
        }
    } else {
        Some((Seq::empty(), t.drop_first()))
    }
}

/// The script that starts Sapphire at logon names the folders that are
/// meant, whatever blanks, quotes and backslashes they have: Python reads
/// back the path that was written. A path with a line break in it is left
/// out: a string ends on its line.
pub proof fn law_python_reads_the_path(s: Seq<char>, rest: Seq<char>)
    requires
        !s.contains('\n'),
        !s.contains('\r'),
    ensures
        python_string(python_literal(s) + "\""@ + rest) == Some((s, rest)),
    decreases s.len(),
{
    reveal_strlit("\"");
    let end = "\""@ + rest;
    let whole = python_literal(s) + "\""@ + rest;
    assert(whole =~= python_literal(s) + end);
    if s.len() == 0 {
        assert(whole =~= end);
        assert(whole.drop_first() =~= rest);
    } else {
        let tail = s.drop_first();
        assert(s.contains(s[0]));
        assert forall|c: char| tail.contains(c) implies s.contains(c) by {
            let k = choose|k: int| 0 <= k < tail.len() && tail[k] == c;
            assert(s[k + 1] == c);
        }
        law_python_reads_the_path(tail, rest);
        lemma_escaped_step(s);
        let n: int = if s[0] == '\\' || s[0] == '"' {
            1
        } else {
            0
        };
        assert(whole[n] == s[0]);
        assert(n == 1 ==> whole[0] == '\\');
        assert(whole.skip(n + 1) =~= python_literal(tail) + "\""@ + rest);
        assert(seq![s[0]] + tail =~= s);
    }
}

/// The commands that PowerShell is given name the folders and the user that
/// are meant: PowerShell reads back what was written between single quotes.
/// A name with a quote of typography in it is left out: such a quote is not
/// doubled.
pub proof fn law_powershell_reads_the_name(s: Seq<char>, rest: Seq<char>)
    requires
        forall|i: int| 0 <= i < s.len() && shell_quote(#[trigger] s[i]) ==> s[i] == '\'',
        rest.len() > 0 ==> !shell_quote(rest[0]),
    ensures
        shell_string(shell_literal(s) + "'"@ + rest) == Some((s, rest)),
    decreases s.len(),
{
    reveal_strlit("'");
    reveal_strlit("''");
    let end = "'"@ + rest;
    let whole = shell_literal(s) + "'"@ + rest;
    assert(whole =~= shell_literal(s) + end);
    if s.len() == 0 {
        assert(whole =~= end);
        assert(whole.drop_first() =~= rest);
        if whole.len() > 1 {
            assert(whole[1] == rest[0]);
        }
    } else {
        let tail = s.drop_first();
        assert forall|i: int| 0 <= i < tail.len() && shell_quote(#[trigger] tail[i]) implies tail[i]
            == '\'' by {
            assert(tail[i] == s[i + 1]);
        }
        law_powershell_reads_the_name(tail, rest);
        lemma_replaced_step(s, "'"@, "''"@);
        if s[0] == '\'' {
            assert(whole.skip(2) =~= shell_literal(tail) + "'"@ + rest);
        } else {
            assert(whole.drop_first() =~= shell_literal(tail) + "'"@ + rest);
        }
        assert(seq![s[0]] + tail =~= s);
    }
}

} // verus!

//! Installing what the scan did not find, one step at a time.
use crate::ask::{run, Next, NextModel, Reply, ReplyModel, Request, RequestModel};
use crate::host::{Host, HostModel, Platform};
use crate::message::{Message, MessageModel};
use crate::parts::{
    branch_ref, cmd, command, named, named_cmd, Branch, Cmd, CmdModel, Program, ProgramModel, Step,
    StepStatus, StepStatusModel,
};
use crate::text::{
    contains, last_value, lines, lines_of, lowercase, occurs, peel, peeled, same, to_lower, trim,
    trimmed, value_of, words,
};
use vstd::prelude::*;

verus! {

// ── System packages on Linux ─────────────────────────────────────────────

/// The words of the package manager's command line that installs the
/// prerequisites, and the command for a user to type. No words, where the
/// distribution is not known.
pub open spec fn packages_for(family: Seq<char>) -> (Seq<Seq<char>>, Seq<char>) {
    if occurs(family, "debian"@) || occurs(family, "ubuntu"@) {
        (
            seq![
                "apt-get"@,
                "install"@,
                "-y"@,
                "git"@,
                "libportaudio2"@,
                "python3-dev"@,
                "curl"@,
            ],
            "sudo apt install git libportaudio2 python3-dev curl"@,
        )
    } else if occurs(family, "fedora"@) || occurs(family, "rhel"@) || occurs(family, "centos"@) {
        (
            seq!["dnf"@, "install"@, "-y"@, "git"@, "portaudio"@, "python3-devel"@, "curl"@],
            "sudo dnf install git portaudio python3-devel curl"@,
        )
    } else if occurs(family, "arch"@) {
        (
            seq!["pacman"@, "-S"@, "--noconfirm"@, "git"@, "portaudio"@, "curl"@],
            "sudo pacman -S git portaudio curl"@,
        )
    } else if occurs(family, "suse"@) {
        (
            seq![
                "zypper"@,
                "install"@,
                "-y"@,
                "git"@,
                "libportaudio2"@,
                "python3-devel"@,
                "curl"@,
            ],
            "sudo zypper install git libportaudio2 python3-devel curl"@,
        )
    } else {
        (
            Seq::empty(),
            "install git, portaudio, python dev headers, and curl with your package manager"@,
        )
    }
}

/// Chooses the package manager for a distribution family in lower case.
pub fn choose_packages(family: &str) -> (plan: (Vec<String>, String))
    ensures
        plan.deep_view() == packages_for(family@),
{
    if contains(family, "debian") || contains(family, "ubuntu") {
        (
            words(&["apt-get", "install", "-y", "git", "libportaudio2", "python3-dev", "curl"]),
            "sudo apt install git libportaudio2 python3-dev curl".to_string(),
        )
    } else if contains(family, "fedora") || contains(family, "rhel") || contains(
        family,
        "centos",
    ) {
        (
            words(&["dnf", "install", "-y", "git", "portaudio", "python3-devel", "curl"]),
            "sudo dnf install git portaudio python3-devel curl".to_string(),
        )
    } else if contains(family, "arch") {
        (
            words(&["pacman", "-S", "--noconfirm", "git", "portaudio", "curl"]),
            "sudo pacman -S git portaudio curl".to_string(),
        )
    } else if contains(family, "suse") {
        (
            words(&["zypper", "install", "-y", "git", "libportaudio2", "python3-devel", "curl"]),
            "sudo zypper install git libportaudio2 python3-devel curl".to_string(),
        )
    } else {
        (
            Vec::new(),
            "install git, portaudio, python dev headers, and curl with your package manager".to_string(),
        )
    }
}

/// The distribution family that an os-release file names: its `ID` and its
/// `ID_LIKE`, without quotes, in lower case.
pub open spec fn family_of(os_release: Seq<char>) -> Seq<char> {
    lowercase(peeled(last_value(lines(os_release), "ID="@), '"')) + " "@ + lowercase(
        peeled(last_value(lines(os_release), "ID_LIKE="@), '"'),
    )
}

/// Plans the installation of the prerequisites from the text of an
/// os-release file.
pub fn system_packages_plan(os_release: &str) -> (plan: (Vec<String>, String))
    ensures
        plan.deep_view() == packages_for(family_of(os_release@)),
{
    let list = lines_of(os_release);
    let id = peel(value_of(&list, "ID=").as_str(), '"');
    let id_like = peel(value_of(&list, "ID_LIKE=").as_str(), '"');
    let low_id = to_lower(id.as_str());
    let low_like = to_lower(id_like.as_str());
    let family = low_id.concat(" ").concat(low_like.as_str());
    choose_packages(family.as_str())
}

// ── Pieces of the steps ──────────────────────────────────────────────────

/// The command that installs a package on Windows.
pub open spec fn winget(package: Seq<char>) -> CmdModel {
    named(
        "winget"@,
        seq![
            "install"@,
            package,
            "--accept-source-agreements"@,
            "--accept-package-agreements"@,
        ],
    )
}

fn winget_cmd(package: &str) -> (c: Cmd)
    ensures
        c.deep_view() == winget(package@),
{
    named_cmd(
        "winget",
        &["install", package, "--accept-source-agreements", "--accept-package-agreements"],
    )
}

/// The name of the processor in the names of Miniconda's installers.
pub open spec fn installer_arch(machine: Seq<char>) -> Seq<char> {
    if trimmed(machine) == "aarch64"@ || trimmed(machine) == "arm64"@ {
        "aarch64"@
    } else {
        "x86_64"@
    }
}

/// Where the Miniconda installer for a machine is downloaded from.
pub open spec fn installer_url(machine: Seq<char>) -> Seq<char> {
    "https://repo.anaconda.com/miniconda/Miniconda3-latest-Linux-"@ + installer_arch(machine)
        + ".sh"@
}

/// Finds where to download the Miniconda installer from.
pub fn miniconda_url(machine: &str) -> (url: String)
    ensures
        url@ == installer_url(machine@),
{
    let name = trim(machine);
    let arch = if same(name.as_str(), "aarch64") || same(name.as_str(), "arm64") {
        "aarch64"
    } else {
        "x86_64"
    };
    "https://repo.anaconda.com/miniconda/Miniconda3-latest-Linux-".to_string().concat(arch).concat(
        ".sh",
    )
}

/// The channels whose terms have to be accepted.
pub open spec fn channel(i: int) -> Seq<char> {
    if i == 0 {
        "https://repo.anaconda.com/pkgs/main"@
    } else if i == 1 {
        "https://repo.anaconda.com/pkgs/r"@
    } else {
        "https://repo.anaconda.com/pkgs/msys2"@
    }
}

/// The command that accepts the terms of a channel.
pub open spec fn accept_terms(i: int) -> CmdModel {
    command(
        ProgramModel::Conda,
        seq!["tos"@, "accept"@, "--override-channels"@, "--channel"@, channel(i)],
    )
}

fn accept_cmd(i: u8) -> (c: Cmd)
    ensures
        c.deep_view() == accept_terms(i as int),
{
    let name = if i == 0 {
        "https://repo.anaconda.com/pkgs/main"
    } else if i == 1 {
        "https://repo.anaconda.com/pkgs/r"
    } else {
        "https://repo.anaconda.com/pkgs/msys2"
    };
    cmd(Program::Conda, &["tos", "accept", "--override-channels", "--channel", name])
}

// ── The steps ────────────────────────────────────────────────────────────

/// The installation of one step, at the point that it has reached.
#[derive(Debug, Clone)]
pub enum InstallJob {
    /// Install git, or the system packages.
    Git,
    GitInstalled,
    /// The os-release file was read.
    Distribution,
    /// The package manager ran; the command for a user to type.
    PackagesInstalled(String),
    /// Install Miniconda.
    Conda,
    CondaInstalled,
    /// The machine was asked for its processor.
    Machine,
    /// The installer was downloaded from a place, or not.
    Downloaded(String),
    DownloadedAgain,
    InstallerRan,
    /// Initialize conda.
    CondaInit,
    /// The terms of so many channels were accepted.
    Accepted(u8),
    Initialized,
    /// Create the Python environment.
    PythonEnv,
    EnvCreated,
    /// Clone the repository to a path.
    Clone(String, Branch),
    CloneSeen(String, Branch),
    CloneEmpty(String, Branch),
    CheckedOut(Branch),
    Cloned(String, Branch),
    /// Install the dependencies of the installation at a path.
    Deps(String),
    DepsSeen(String),
    DepsInstalled,
}

/// `InstallJob` with its texts as character sequences.
#[verifier::ext_equal]
pub enum InstallJobModel {
    Git,
    GitInstalled,
    Distribution,
    PackagesInstalled(Seq<char>),
    Conda,
    CondaInstalled,
    Machine,
    Downloaded(Seq<char>),
    DownloadedAgain,
    InstallerRan,
    CondaInit,
    Accepted(u8),
    Initialized,
    PythonEnv,
    EnvCreated,
    Clone(Seq<char>, Branch),
    CloneSeen(Seq<char>, Branch),
    CloneEmpty(Seq<char>, Branch),
    CheckedOut(Branch),
    Cloned(Seq<char>, Branch),
    Deps(Seq<char>),
    DepsSeen(Seq<char>),
    DepsInstalled,
}

impl DeepView for InstallJob {
    type V = InstallJobModel;

    open spec fn deep_view(&self) -> InstallJobModel {
        match self {
            InstallJob::Git => InstallJobModel::Git,
            InstallJob::GitInstalled => InstallJobModel::GitInstalled,
            InstallJob::Distribution => InstallJobModel::Distribution,
            InstallJob::PackagesInstalled(s) => InstallJobModel::PackagesInstalled(s@),
            InstallJob::Conda => InstallJobModel::Conda,
            InstallJob::CondaInstalled => InstallJobModel::CondaInstalled,
            InstallJob::Machine => InstallJobModel::Machine,
            InstallJob::Downloaded(s) => InstallJobModel::Downloaded(s@),
            InstallJob::DownloadedAgain => InstallJobModel::DownloadedAgain,
            InstallJob::InstallerRan => InstallJobModel::InstallerRan,
            InstallJob::CondaInit => InstallJobModel::CondaInit,
            InstallJob::Accepted(n) => InstallJobModel::Accepted(*n),
            InstallJob::Initialized => InstallJobModel::Initialized,
            InstallJob::PythonEnv => InstallJobModel::PythonEnv,
            InstallJob::EnvCreated => InstallJobModel::EnvCreated,
            InstallJob::Clone(p, b) => InstallJobModel::Clone(p@, *b),
            InstallJob::CloneSeen(p, b) => InstallJobModel::CloneSeen(p@, *b),
            InstallJob::CloneEmpty(p, b) => InstallJobModel::CloneEmpty(p@, *b),
            InstallJob::CheckedOut(b) => InstallJobModel::CheckedOut(*b),
            InstallJob::Cloned(p, b) => InstallJobModel::Cloned(p@, *b),
            InstallJob::Deps(p) => InstallJobModel::Deps(p@),
            InstallJob::DepsSeen(p) => InstallJobModel::DepsSeen(p@),
            InstallJob::DepsInstalled => InstallJobModel::DepsInstalled,
        }
    }
}

/// The message that ends an installation: the step, how it ended and what is
/// to be logged of it.
pub open spec fn installed(
    step: Step,
    status: StepStatusModel,
    log: Seq<char>,
) -> NextModel<InstallJobModel> {
    NextModel::Finish(MessageModel::InstallStepResult(step, status, log))
}

/// How a step ends whose command ran: a failure that mentions `known` counts
/// as done.
pub open spec fn ended(
    step: Step,
    result: Result<Seq<char>, Seq<char>>,
    done: Seq<char>,
    known: Seq<char>,
    known_done: Seq<char>,
    failed: Seq<char>,
) -> NextModel<InstallJobModel> {
    match result {
        Ok(out) => installed(step, StepStatusModel::Done(done), out),
        Err(why) => if occurs(why, known) {
            installed(step, StepStatusModel::Done(known_done), why)
        } else {
            installed(step, StepStatusModel::Failed(failed + why), why)
        },
    }
}

/// Where the Miniconda installer is put.
pub open spec fn installer_file(h: HostModel) -> Seq<char> {
    h.path(h.temp_dir, "miniconda-installer.sh"@)
}

/// The command that runs the Miniconda installer.
pub open spec fn run_installer(h: HostModel) -> NextModel<InstallJobModel> {
    run(
        named("bash"@, seq![installer_file(h), "-b"@, "-p"@, h.user_dir() + "/miniconda3"@]),
        InstallJobModel::InstallerRan,
    )
}

/// The command that clones the repository.
pub open spec fn clone_repo(path: Seq<char>, b: Branch) -> NextModel<InstallJobModel> {
    run(
        command(
            ProgramModel::Git,
            seq![
                "clone"@,
                "--branch"@,
                branch_ref(b),
                "https://github.com/ddxfish/sapphire.git"@,
                path,
            ],
        ),
        InstallJobModel::Cloned(path, b),
    )
}

/// How an installation goes on once the distribution is known.
pub open spec fn install_packages(plan: (Seq<Seq<char>>, Seq<char>)) -> NextModel<InstallJobModel> {
    if plan.0.len() == 0 {
        installed(
            Step::Git,
            StepStatusModel::Failed(
                "Couldn't detect your package manager. Run this yourself, then Re-scan:  "@
                    + plan.1,
            ),
            ""@,
        )
    } else {
        run(named("pkexec"@, plan.0), InstallJobModel::PackagesInstalled(plan.1))
    }
}

/// How an installation of git or the system packages goes on.
pub open spec fn git_next(h: HostModel, job: InstallJobModel, r: ReplyModel) -> NextModel<
    InstallJobModel,
> {
    match job {
        InstallJobModel::Git => match h.platform {
            Platform::Windows => run(winget("Git.Git"@), InstallJobModel::GitInstalled),
            Platform::Linux => NextModel::Ask(
                RequestModel::Read("/etc/os-release"@),
                InstallJobModel::Distribution,
            ),
        },
        InstallJobModel::GitInstalled => ended(
            Step::Git,
            r.full(),
            "Git installed! You may need to restart the launcher for PATH to update."@,
            "already installed"@,
            "Git is already installed"@,
            "Couldn't install Git — try installing it manually. "@,
        ),
        InstallJobModel::Distribution => install_packages(
            packages_for(
                family_of(
                    match r.text() {
                        Some(text) => text,
                        None => ""@,
                    },
                ),
            ),
        ),
        InstallJobModel::PackagesInstalled(manual) => match r.full() {
            Ok(out) => installed(
                Step::Git,
                StepStatusModel::Done("System packages installed (git, audio libs)."@),
                out,
            ),
            Err(why) => installed(
                Step::Git,
                StepStatusModel::Failed(
                    "Couldn't install system packages automatically. Run this in a terminal, then Re-scan:  "@
                        + manual,
                ),
                why,
            ),
        },
        _ => arbitrary(),
    }
}

/// How an installation of Miniconda goes on.
pub open spec fn conda_next(h: HostModel, job: InstallJobModel, r: ReplyModel) -> NextModel<
    InstallJobModel,
> {
    match job {
        InstallJobModel::Conda => match h.platform {
            Platform::Windows => run(
                winget("Anaconda.Miniconda3"@),
                InstallJobModel::CondaInstalled,
            ),
            Platform::Linux => run(named("uname"@, seq!["-m"@]), InstallJobModel::Machine),
        },
        InstallJobModel::CondaInstalled => ended(
            Step::Conda,
            r.full(),
            "Miniconda installed! You may need to restart the launcher for PATH to update."@,
            "already installed"@,
            "Miniconda is already installed"@,
            "Couldn't install Miniconda — try installing it manually. "@,
        ),
        InstallJobModel::Machine => {
            let url = installer_url(
                match r.brief() {
                    Ok(machine) => machine,
                    Err(_) => ""@,
                },
            );
            run(
                named("curl"@, seq!["-fsSL"@, "-o"@, installer_file(h), url]),
                InstallJobModel::Downloaded(url),
            )
        },
        InstallJobModel::Downloaded(url) => if r.worked() {
            run_installer(h)
        } else {
            run(
                named("wget"@, seq!["-qO"@, installer_file(h), url]),
                InstallJobModel::DownloadedAgain,
            )
        },
        InstallJobModel::DownloadedAgain => match r.full() {
            Ok(_) => run_installer(h),
            Err(why) => installed(
                Step::Conda,
                StepStatusModel::Failed(
                    "Couldn't download the Miniconda installer (need curl or wget): "@ + why,
                ),
                why,
            ),
        },
        InstallJobModel::InstallerRan => ended(
            Step::Conda,
            r.full(),
            "Miniconda installed into ~/miniconda3"@,
            "already exists"@,
            "Miniconda already installed"@,
            "Miniconda install failed: "@,
        ),
        _ => arbitrary(),
    }
}

/// How the setup of conda and of the environment goes on.
pub open spec fn env_next(job: InstallJobModel, r: ReplyModel) -> NextModel<InstallJobModel> {
    match job {
        InstallJobModel::CondaInit => run(accept_terms(0), InstallJobModel::Accepted(1)),
        InstallJobModel::Accepted(n) => if n < 3 {
            run(accept_terms(n as int), InstallJobModel::Accepted((n + 1) as u8))
        } else {
            run(command(ProgramModel::Conda, seq!["init"@]), InstallJobModel::Initialized)
        },
        InstallJobModel::Initialized => match r.full() {
            Ok(out) => installed(
                Step::CondaInit,
                StepStatusModel::Done("Conda initialized"@),
                out,
            ),
            Err(why) => installed(
                Step::CondaInit,
                StepStatusModel::Failed("Conda init had a problem: "@ + why),
                why,
            ),
        },
        InstallJobModel::PythonEnv => run(
            command(
                ProgramModel::Conda,
                seq!["create"@, "-n"@, "sapphire"@, "python=3.11"@, "-y"@],
            ),
            InstallJobModel::EnvCreated,
        ),
        InstallJobModel::EnvCreated => ended(
            Step::PythonEnv,
            r.full(),
            "Python 3.11 environment 'sapphire' created"@,
            "already exists"@,
            "Environment 'sapphire' already exists"@,
            "Couldn't create Python environment: "@,
        ),
        _ => arbitrary(),
    }
}

/// How the cloning of the repository goes on: into a folder with files that
/// is no repository it never clones.
pub open spec fn clone_next(h: HostModel, job: InstallJobModel, r: ReplyModel) -> NextModel<
    InstallJobModel,
> {
    match job {
        InstallJobModel::Clone(path, b) => NextModel::Ask(
            RequestModel::Probe(seq![h.path(path, ".git"@), path]),
            InstallJobModel::CloneSeen(path, b),
        ),
        InstallJobModel::CloneSeen(path, b) => if r.found(0) {
            run(
                command(ProgramModel::Git, seq!["-C"@, path, "checkout"@, branch_ref(b)]),
                InstallJobModel::CheckedOut(b),
            )
        } else if r.found(1) {
            NextModel::Ask(RequestModel::DirEmpty(path), InstallJobModel::CloneEmpty(path, b))
        } else {
            clone_repo(path, b)
        },
        InstallJobModel::CloneEmpty(path, b) => if r.found(0) {
            clone_repo(path, b)
        } else {
            installed(
                Step::Clone,
                StepStatusModel::Failed(
                    "Folder "@ + path
                        + " already exists and has files in it. Move or rename it first."@,
                ),
                ""@,
            )
        },
        InstallJobModel::CheckedOut(b) => installed(
            Step::Clone,
            StepStatusModel::Done("Repo exists, switched to "@ + branch_ref(b) + " branch"@),
            ""@,
        ),
        InstallJobModel::Cloned(path, b) => match r.full() {
            Ok(out) => installed(
                Step::Clone,
                StepStatusModel::Done(
                    "Cloned Sapphire ("@ + branch_ref(b) + ") into "@ + path,
                ),
                out,
            ),
            Err(why) => installed(
                Step::Clone,
                StepStatusModel::Failed("Clone failed: "@ + why),
                why,
            ),
        },
        _ => arbitrary(),
    }
}

/// How the installation of the dependencies goes on.
pub open spec fn deps_next(h: HostModel, job: InstallJobModel, r: ReplyModel) -> NextModel<
    InstallJobModel,
> {
    match job {
        InstallJobModel::Deps(path) => NextModel::Ask(
            RequestModel::Probe(seq![h.path(path, "requirements.txt"@)]),
            InstallJobModel::DepsSeen(path),
        ),
        InstallJobModel::DepsSeen(path) => if r.found(0) {
            NextModel::Ask(
                RequestModel::RunLive(
                    command(
                        ProgramModel::Pip,
                        seq!["install"@, "-r"@, h.path(path, "requirements.txt"@)],
                    ),
                ),
                InstallJobModel::DepsInstalled,
            )
        } else {
            installed(
                Step::Deps,
                StepStatusModel::Failed("requirements.txt not found — clone may have failed"@),
                ""@,
            )
        },
        InstallJobModel::DepsInstalled => match r.live() {
            Ok(_) => installed(
                Step::Deps,
                StepStatusModel::Done("Dependencies installed"@),
                ""@,
            ),
            Err(why) => installed(
                Step::Deps,
                StepStatusModel::Failed("pip install failed: "@ + why),
                ""@,
            ),
        },
        _ => arbitrary(),
    }
}

/// How an installation goes on with a reply.
pub open spec fn install_next(h: HostModel, job: InstallJobModel, r: ReplyModel) -> NextModel<
    InstallJobModel,
> {
    match job {
        InstallJobModel::Git
        | InstallJobModel::GitInstalled
        | InstallJobModel::Distribution
        | InstallJobModel::PackagesInstalled(_) => git_next(h, job, r),
        InstallJobModel::Conda
        | InstallJobModel::CondaInstalled
        | InstallJobModel::Machine
        | InstallJobModel::Downloaded(_)
        | InstallJobModel::DownloadedAgain
        | InstallJobModel::InstallerRan => conda_next(h, job, r),
        InstallJobModel::CondaInit
        | InstallJobModel::Accepted(_)
        | InstallJobModel::Initialized
        | InstallJobModel::PythonEnv
        | InstallJobModel::EnvCreated => env_next(job, r),
        InstallJobModel::Clone(_, _)
        | InstallJobModel::CloneSeen(_, _)
        | InstallJobModel::CloneEmpty(_, _)
        | InstallJobModel::CheckedOut(_)
        | InstallJobModel::Cloned(_, _) => clone_next(h, job, r),
        InstallJobModel::Deps(_)
        | InstallJobModel::DepsSeen(_)
        | InstallJobModel::DepsInstalled => deps_next(h, job, r),
    }
}

fn finish(step: Step, status: StepStatus, log: String) -> (n: Next<InstallJob>)
    ensures
        n.deep_view() == installed(step, status.deep_view(), log@),
{
    Next::Finish(Message::InstallStepResult(step, status, log))
}

fn end(
    step: Step,
    result: Result<String, String>,
    done: &str,
    known: &str,
    known_done: &str,
    failed: &str,
) -> (n: Next<InstallJob>)
    ensures
        n.deep_view() == ended(
            step,
            crate::output::result_model(result),
            done@,
            known@,
            known_done@,
            failed@,
        ),
{
    match result {
        Ok(out) => finish(step, StepStatus::Done(done.to_string()), out),
        Err(why) => if contains(why.as_str(), known) {
            finish(step, StepStatus::Done(known_done.to_string()), why)
        } else {
            finish(step, StepStatus::Failed(failed.to_string().concat(why.as_str())), why)
        },
    }
}

fn start_installer(host: &Host) -> (n: Next<InstallJob>)
    ensures
        n.deep_view() == run_installer(host.deep_view()),
{
    let file = host.path(host.temp_dir.as_str(), "miniconda-installer.sh");
    let prefix = host.user_dir().concat("/miniconda3");
    Next::Ask(
        Request::Run(named_cmd("bash", &[file.as_str(), "-b", "-p", prefix.as_str()])),
        InstallJob::InstallerRan,
    )
}

fn start_clone(path: String, b: Branch) -> (n: Next<InstallJob>)
    ensures
        n.deep_view() == clone_repo(path@, b),
{
    Next::Ask(
        Request::Run(
            cmd(
                Program::Git,
                &[
                    "clone",
                    "--branch",
                    b.git_name(),
                    "https://github.com/ddxfish/sapphire.git",
                    path.as_str(),
                ],
            ),
        ),
        InstallJob::Cloned(path, b),
    )
}

fn start_packages(plan: (Vec<String>, String)) -> (n: Next<InstallJob>)
    ensures
        n.deep_view() == install_packages(plan.deep_view()),
{
    let (list, manual) = plan;
    if list.len() == 0 {
        finish(
            Step::Git,
            StepStatus::Failed(
                "Couldn't detect your package manager. Run this yourself, then Re-scan:  ".to_string().concat(
                    manual.as_str(),
                ),
            ),
            "".to_string(),
        )
    } else {
        Next::Ask(
            Request::Run(Cmd { program: Program::Named("pkexec".to_string()), args: list }),
            InstallJob::PackagesInstalled(manual),
        )
    }
}

impl InstallJob {
    /// Goes on with a reply.
    pub fn advance(self, host: &Host, reply: &Reply) -> (next: Next<InstallJob>)
        ensures
            next.deep_view() == install_next(
                host.deep_view(),
                self.deep_view(),
                reply.deep_view(),
            ),
    {
        match self {
            InstallJob::Git => match host.platform {
                Platform::Windows => Next::Ask(
                    Request::Run(winget_cmd("Git.Git")),
                    InstallJob::GitInstalled,
                ),
                Platform::Linux => Next::Ask(
                    Request::Read("/etc/os-release".to_string()),
                    InstallJob::Distribution,
                ),
            },
            InstallJob::GitInstalled => end(
                Step::Git,
                reply.full(),
                "Git installed! You may need to restart the launcher for PATH to update.",
                "already installed",
                "Git is already installed",
                "Couldn't install Git — try installing it manually. ",
            ),
            InstallJob::Distribution => {
                let text = match reply.text() {
                    Some(text) => text,
                    None => "".to_string(),
                };
                start_packages(system_packages_plan(text.as_str()))
            },
            InstallJob::PackagesInstalled(manual) => match reply.full() {
                Ok(out) => finish(
                    Step::Git,
                    StepStatus::Done("System packages installed (git, audio libs).".to_string()),
                    out,
                ),
                Err(why) => finish(
                    Step::Git,
                    StepStatus::Failed(
                        "Couldn't install system packages automatically. Run this in a terminal, then Re-scan:  ".to_string().concat(
                            manual.as_str(),
                        ),
                    ),
                    why,
                ),
            },
            InstallJob::Conda => match host.platform {
                Platform::Windows => Next::Ask(
                    Request::Run(winget_cmd("Anaconda.Miniconda3")),
                    InstallJob::CondaInstalled,
                ),
                Platform::Linux => Next::Ask(
                    Request::Run(named_cmd("uname", &["-m"])),
                    InstallJob::Machine,
                ),
            },
            InstallJob::CondaInstalled => end(
                Step::Conda,
                reply.full(),
                "Miniconda installed! You may need to restart the launcher for PATH to update.",
                "already installed",
                "Miniconda is already installed",
                "Couldn't install Miniconda — try installing it manually. ",
            ),
            InstallJob::Machine => {
                let machine = match reply.brief() {
                    Ok(machine) => machine,
                    Err(_) => "".to_string(),
                };
                let url = miniconda_url(machine.as_str());
                let file = host.path(host.temp_dir.as_str(), "miniconda-installer.sh");
                Next::Ask(
                    Request::Run(
                        named_cmd("curl", &["-fsSL", "-o", file.as_str(), url.as_str()]),
                    ),
                    InstallJob::Downloaded(url),
                )
            },
            InstallJob::Downloaded(url) => if reply.worked() {
                start_installer(host)
            } else {
                let file = host.path(host.temp_dir.as_str(), "miniconda-installer.sh");
                Next::Ask(
                    Request::Run(named_cmd("wget", &["-qO", file.as_str(), url.as_str()])),
                    InstallJob::DownloadedAgain,
                )
            },
            InstallJob::DownloadedAgain => match reply.full() {
                Ok(_) => start_installer(host),
                Err(why) => finish(
                    Step::Conda,
                    StepStatus::Failed(
                        "Couldn't download the Miniconda installer (need curl or wget): ".to_string().concat(
                            why.as_str(),
                        ),
                    ),
                    why,
                ),
            },
            InstallJob::InstallerRan => end(
                Step::Conda,
                reply.full(),
                "Miniconda installed into ~/miniconda3",
                "already exists",
                "Miniconda already installed",
                "Miniconda install failed: ",
            ),
            InstallJob::CondaInit => Next::Ask(
                Request::Run(accept_cmd(0)),
                InstallJob::Accepted(1),
            ),
            InstallJob::Accepted(n) => if n < 3 {
                Next::Ask(Request::Run(accept_cmd(n)), InstallJob::Accepted(n + 1))
            } else {
                Next::Ask(Request::Run(cmd(Program::Conda, &["init"])), InstallJob::Initialized)
            },
            InstallJob::Initialized => match reply.full() {
                Ok(out) => finish(
                    Step::CondaInit,
                    StepStatus::Done("Conda initialized".to_string()),
                    out,
                ),
                Err(why) => finish(
                    Step::CondaInit,
                    StepStatus::Failed(
                        "Conda init had a problem: ".to_string().concat(why.as_str()),
                    ),
                    why,
                ),
            },
            InstallJob::PythonEnv => Next::Ask(
                Request::Run(
                    cmd(Program::Conda, &["create", "-n", "sapphire", "python=3.11", "-y"]),
                ),
                InstallJob::EnvCreated,
            ),
            InstallJob::EnvCreated => end(
                Step::PythonEnv,
                reply.full(),
                "Python 3.11 environment 'sapphire' created",
                "already exists",
                "Environment 'sapphire' already exists",
                "Couldn't create Python environment: ",
            ),
            InstallJob::Clone(path, b) => {
                let git_dir = host.path(path.as_str(), ".git");
                Next::Ask(
                    Request::Probe(words(&[git_dir.as_str(), path.as_str()])),
                    InstallJob::CloneSeen(path, b),
                )
            },
            InstallJob::CloneSeen(path, b) => if reply.found(0) {
                Next::Ask(
                    Request::Run(
                        cmd(Program::Git, &["-C", path.as_str(), "checkout", b.git_name()]),
                    ),
                    InstallJob::CheckedOut(b),
                )
            } else if reply.found(1) {
                Next::Ask(Request::DirEmpty(path.clone()), InstallJob::CloneEmpty(path, b))
            } else {
                start_clone(path, b)
            },
            InstallJob::CloneEmpty(path, b) => if reply.found(0) {
                start_clone(path, b)
            } else {
                finish(
                    Step::Clone,
                    StepStatus::Failed(
                        "Folder ".to_string().concat(path.as_str()).concat(
                            " already exists and has files in it. Move or rename it first.",
                        ),
                    ),
                    "".to_string(),
                )
            },
            InstallJob::CheckedOut(b) => finish(
                Step::Clone,
                StepStatus::Done(
                    "Repo exists, switched to ".to_string().concat(b.git_name()).concat(
                        " branch",
                    ),
                ),
                "".to_string(),
            ),
            InstallJob::Cloned(path, b) => match reply.full() {
                Ok(out) => finish(
                    Step::Clone,
                    StepStatus::Done(
                        "Cloned Sapphire (".to_string().concat(b.git_name()).concat(
                            ") into ",
                        ).concat(path.as_str()),
                    ),
                    out,
                ),
                Err(why) => finish(
                    Step::Clone,
                    StepStatus::Failed("Clone failed: ".to_string().concat(why.as_str())),
                    why,
                ),
            },
            InstallJob::Deps(path) => {
                let req = host.path(path.as_str(), "requirements.txt");
                Next::Ask(Request::Probe(words(&[req.as_str()])), InstallJob::DepsSeen(path))
            },
            InstallJob::DepsSeen(path) => if reply.found(0) {
                let req = host.path(path.as_str(), "requirements.txt");
                Next::Ask(
                    Request::RunLive(cmd(Program::Pip, &["install", "-r", req.as_str()])),
                    InstallJob::DepsInstalled,
                )
            } else {
                finish(
                    Step::Deps,
                    StepStatus::Failed(
                        "requirements.txt not found — clone may have failed".to_string(),
                    ),
                    "".to_string(),
                )
            },
            InstallJob::DepsInstalled => match reply.live() {
                Ok(_) => finish(
                    Step::Deps,
                    StepStatus::Done("Dependencies installed".to_string()),
                    "".to_string(),
                ),
                Err(why) => finish(
                    Step::Deps,
                    StepStatus::Failed("pip install failed: ".to_string().concat(why.as_str())),
                    "".to_string(),
                ),
            },
        }
    }
}

// ── Law ──────────────────────────────────────────────────────────────────

/// A folder that holds files is never cloned into: whatever is answered, a
/// clone is asked for only where the path was found not to exist, or where
/// the folder was found to be empty.
pub proof fn law_full_folder_is_spared(
    h: HostModel,
    job: InstallJobModel,
    r: ReplyModel,
    path: Seq<char>,
    b: Branch,
)
    requires
        install_next(h, job, r) == clone_repo(path, b),
    ensures
        (job == InstallJobModel::CloneSeen(path, b) && !r.found(0) && !r.found(1)) || (job
            == InstallJobModel::CloneEmpty(path, b) && r.found(0)),
{
}

} // verus!

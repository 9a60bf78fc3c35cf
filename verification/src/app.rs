//! The state of the launcher and what it can have done.
use crate::host::{Host, HostModel};
use crate::job::{Job, JobModel};
use crate::message::{Message, MessageModel};
use crate::parts::{
    all_checks, all_steps, branch_or_stable, or_stable, Branch, Cmd, CmdModel, ServiceInfo,
    ServiceInfoModel, Step, StepStatus, StepStatusModel, Tab, TsCheck, TsStatus, TsStatusModel,
};
use crate::service::{ServiceJob, ServiceJobModel};
use crate::text::words;
use crate::upkeep::{UpdateJob, UpdateJobModel, WaitJob, WaitJobModel};
use vstd::prelude::*;

verus! {

// ── State ────────────────────────────────────────────────────────────────

/// What is going on.
#[derive(Debug, Clone, Copy, PartialEq, Eq, Structural)]
pub struct Busy {
    pub scanning: bool,
    pub installing: bool,
    /// Is a step of the installation being timed?
    pub timed: bool,
    pub uninstalling: bool,
    pub checking_updates: bool,
    pub updating: bool,
    pub troubleshooting: bool,
}

/// Which confirmations are armed: what deletes has to be clicked twice.
#[derive(Debug, Clone, Copy, PartialEq, Eq, Structural)]
pub struct Armed {
    pub remove_env: bool,
    pub delete_folder: bool,
    pub delete_userdata: bool,
    pub remove_service: bool,
}

/// How Sapphire is.
#[derive(Debug, Clone, Copy, PartialEq, Eq, Structural)]
pub struct Run {
    pub running: bool,
    pub stopping: bool,
    /// Was it stopped for a branch switch, to be started again after?
    pub restart: bool,
}

/// The follower of the service's journal.
#[derive(Debug, Clone, Copy, PartialEq, Eq, Structural)]
pub struct Journal {
    pub streaming: bool,
    /// Tells one follower from the one before it.
    pub epoch: usize,
}

/// Nothing is going on.
#[verifier::allow_in_spec]
pub fn idle() -> (b: Busy)
    returns
        (Busy {
            scanning: false,
            installing: false,
            timed: false,
            uninstalling: false,
            checking_updates: false,
            updating: false,
            troubleshooting: false,
        }),
{
    Busy {
        scanning: false,
        installing: false,
        timed: false,
        uninstalling: false,
        checking_updates: false,
        updating: false,
        troubleshooting: false,
    }
}

/// No confirmation is armed.
#[verifier::allow_in_spec]
pub fn unarmed() -> (a: Armed)
    returns
        (Armed {
            remove_env: false,
            delete_folder: false,
            delete_userdata: false,
            remove_service: false,
        }),
{
    Armed {
        remove_env: false,
        delete_folder: false,
        delete_userdata: false,
        remove_service: false,
    }
}

/// Sapphire does not run.
#[verifier::allow_in_spec]
pub fn down() -> (r: Run)
    returns
        (Run { running: false, stopping: false, restart: false }),
{
    Run { running: false, stopping: false, restart: false }
}

/// The state of the launcher.
#[derive(Debug)]
pub struct App {
    pub host: Host,
    pub install_path: String,
    pub selected_branch: Option<Branch>,
    pub active_tab: Tab,
    pub log_visible: bool,
    pub log_lines: Vec<String>,
    pub steps: Vec<(Step, StepStatus)>,
    pub busy: Busy,
    pub armed: Armed,
    /// Commits that the installation is behind, if that is known.
    pub updates_available: Option<u32>,
    pub update_status: Vec<(String, StepStatus)>,
    pub ts_checks: Vec<(TsCheck, TsStatus)>,
    pub spinner_tick: usize,
    pub sapphire: Run,
    pub sapphire_log: Vec<String>,
    /// The service, where there is one: then it is what runs Sapphire.
    pub service: Option<ServiceInfo>,
    pub journal: Journal,
    pub systemd_available: bool,
}

/// `App` with its texts as character sequences.
pub struct AppModel {
    pub host: HostModel,
    pub install_path: Seq<char>,
    pub selected_branch: Option<Branch>,
    pub active_tab: Tab,
    pub log_visible: bool,
    pub log_lines: Seq<Seq<char>>,
    pub steps: Seq<(Step, StepStatusModel)>,
    pub busy: Busy,
    pub armed: Armed,
    pub updates_available: Option<u32>,
    pub update_status: Seq<(Seq<char>, StepStatusModel)>,
    pub ts_checks: Seq<(TsCheck, TsStatusModel)>,
    pub spinner_tick: usize,
    pub sapphire: Run,
    pub sapphire_log: Seq<Seq<char>>,
    pub service: Option<ServiceInfoModel>,
    pub journal: Journal,
    pub systemd_available: bool,
}

impl DeepView for App {
    type V = AppModel;

    open spec fn deep_view(&self) -> AppModel {
        AppModel {
            host: self.host.deep_view(),
            install_path: self.install_path@,
            selected_branch: self.selected_branch,
            active_tab: self.active_tab,
            log_visible: self.log_visible,
            log_lines: self.log_lines.deep_view(),
            steps: self.steps.deep_view(),
            busy: self.busy,
            armed: self.armed,
            updates_available: self.updates_available,
            update_status: self.update_status.deep_view(),
            ts_checks: self.ts_checks.deep_view(),
            spinner_tick: self.spinner_tick,
            sapphire: self.sapphire,
            sapphire_log: self.sapphire_log.deep_view(),
            service: self.service.deep_view(),
            journal: self.journal,
            systemd_available: self.systemd_available,
        }
    }
}

impl AppModel {
    /// Every step, every check and every part of an update has its line, in
    /// its order.
    pub open spec fn wf(self) -> bool {
        &&& self.steps.len() == all_steps().len()
        &&& forall|i: int| 0 <= i < all_steps().len() ==> (#[trigger] self.steps[i]).0
            == all_steps()[i]
        &&& self.ts_checks.len() == all_checks().len()
        &&& forall|i: int| 0 <= i < all_checks().len() ==> (#[trigger] self.ts_checks[i]).0
            == all_checks()[i]
        &&& self.update_status.len() == 2
        &&& self.update_status[0].0 == "Pull latest changes"@
        &&& self.update_status[1].0 == "Update dependencies"@
    }

    /// Is anything going on that the launcher shows as moving?
    pub open spec fn moving(self) -> bool {
        let b = self.busy;
        b.scanning || b.installing || b.updating || b.uninstalling || b.troubleshooting
            || b.checking_updates || self.sapphire.stopping
    }

    /// The follower of the journal that should be there, by its epoch.
    pub open spec fn follower(self) -> Option<usize> {
        if self.journal.streaming {
            Some(self.journal.epoch)
        } else {
            None
        }
    }
}

/// The state at the start.
pub open spec fn fresh(host: HostModel, path: Seq<char>, branch: Branch) -> AppModel {
    AppModel {
        host,
        install_path: path,
        selected_branch: Some(branch),
        active_tab: Tab::Install,
        log_visible: true,
        log_lines: seq!["Ready."@],
        steps: Seq::new(
            all_steps().len(),
            |i: int| (all_steps()[i], StepStatusModel::NotStarted),
        ),
        busy: idle(),
        armed: unarmed(),
        updates_available: None,
        update_status: seq![
            ("Pull latest changes"@, StepStatusModel::NotStarted),
            ("Update dependencies"@, StepStatusModel::NotStarted),
        ],
        ts_checks: Seq::new(
            all_checks().len(),
            |i: int| (all_checks()[i], TsStatusModel::NotChecked),
        ),
        spinner_tick: 0,
        sapphire: down(),
        sapphire_log: Seq::empty(),
        service: None,
        journal: Journal { streaming: false, epoch: 0 },
        systemd_available: false,
    }
}

// ── Effects ──────────────────────────────────────────────────────────────

/// One thing that the launcher has done.
#[derive(Debug, Clone)]
pub enum Effect {
    /// Write the settings file with this content.
    SaveConfig(String),
    /// Stop Sapphire with these commands, one after the other; is the
    /// process that was started to be forgotten?
    Kill(Vec<Cmd>, bool),
    /// Run a job and hand back its message.
    Start(Job),
    /// Let the user choose a folder.
    Browse,
    /// Start Sapphire in this folder and follow its output.
    Follow(String),
    /// Start a command and leave it alone.
    Spawn(Cmd),
    /// Write the run log to a file and tell whether that worked: the path,
    /// then the text.
    WriteRunLog(String, String),
    /// Put a text on the clipboard.
    Copy(String),
    /// Scroll the run log to its end.
    ScrollLog,
    /// Put a text into the environment editor.
    SetEnv(String),
    /// Take a message as the next one.
    Send(Message),
    /// Forget what an earlier installation printed.
    ClearOutput,
}

/// `Effect` with its texts as character sequences.
#[verifier::ext_equal]
pub enum EffectModel {
    SaveConfig(Seq<char>),
    Kill(Seq<CmdModel>, bool),
    Start(JobModel),
    Browse,
    Follow(Seq<char>),
    Spawn(CmdModel),
    WriteRunLog(Seq<char>, Seq<char>),
    Copy(Seq<char>),
    ScrollLog,
    SetEnv(Seq<char>),
    Send(MessageModel),
    ClearOutput,
}

impl DeepView for Effect {
    type V = EffectModel;

    open spec fn deep_view(&self) -> EffectModel {
        match self {
            Effect::SaveConfig(s) => EffectModel::SaveConfig(s@),
            Effect::Kill(l, forget) => EffectModel::Kill(l.deep_view(), *forget),
            Effect::Start(j) => EffectModel::Start(j.deep_view()),
            Effect::Browse => EffectModel::Browse,
            Effect::Follow(p) => EffectModel::Follow(p@),
            Effect::Spawn(c) => EffectModel::Spawn(c.deep_view()),
            Effect::WriteRunLog(p, s) => EffectModel::WriteRunLog(p@, s@),
            Effect::Copy(s) => EffectModel::Copy(s@),
            Effect::ScrollLog => EffectModel::ScrollLog,
            Effect::SetEnv(s) => EffectModel::SetEnv(s@),
            Effect::Send(m) => EffectModel::Send(m.deep_view()),
            Effect::ClearOutput => EffectModel::ClearOutput,
        }
    }
}

/// What is true outside when a message comes.
#[derive(Debug, Clone)]
pub struct Facts {
    /// Is the installation a git repository?
    pub repo: bool,
    /// Is `main.py` in the installation?
    pub main_py: bool,
    /// Is `main.py` in the folder of the service that the message tells of?
    pub service_main_py: bool,
    /// The branch that the folder of that service is on.
    pub service_branch: Branch,
    /// The process that was started for Sapphire: 0, where there is none.
    pub pid: u32,
    /// What the installation has printed since the last tick.
    pub output: Vec<String>,
}

/// `Facts` with its texts as character sequences.
#[verifier::ext_equal]
pub struct FactsModel {
    pub repo: bool,
    pub main_py: bool,
    pub service_main_py: bool,
    pub service_branch: Branch,
    pub pid: u32,
    pub output: Seq<Seq<char>>,
}

impl DeepView for Facts {
    type V = FactsModel;

    open spec fn deep_view(&self) -> FactsModel {
        FactsModel {
            repo: self.repo,
            main_py: self.main_py,
            service_main_py: self.service_main_py,
            service_branch: self.service_branch,
            pid: self.pid,
            output: self.output.deep_view(),
        }
    }
}

// ── The start ────────────────────────────────────────────────────────────

/// What the launcher has done at its start: it looks for a service, for
/// systemd, for the environment file, for a Sapphire that is running and for
/// updates, and scans the system.
pub open spec fn first_effects(a: AppModel) -> Seq<EffectModel> {
    seq![
        EffectModel::Start(JobModel::Service(ServiceJobModel::Detect(true))),
        EffectModel::Start(JobModel::Service(ServiceJobModel::FindSystemd)),
        EffectModel::Start(JobModel::Service(ServiceJobModel::ReadEnv)),
        EffectModel::Start(JobModel::Wait(WaitJobModel::PreCheck(false))),
        EffectModel::Start(
            JobModel::Update(
                UpdateJobModel::CheckUpdates(a.install_path, branch_or_stable(a.selected_branch)),
            ),
        ),
        EffectModel::Send(MessageModel::ScanClicked),
    ]
}

fn first_steps() -> (list: Vec<(Step, StepStatus)>)
    ensures
        list.deep_view() == Seq::new(
            all_steps().len(),
            |i: int| (all_steps()[i], StepStatusModel::NotStarted),
        ),
{
    let list = vec![
        (Step::Git, StepStatus::NotStarted),
        (Step::Conda, StepStatus::NotStarted),
        (Step::CondaInit, StepStatus::NotStarted),
        (Step::PythonEnv, StepStatus::NotStarted),
        (Step::Clone, StepStatus::NotStarted),
        (Step::Deps, StepStatus::NotStarted),
        (Step::Done, StepStatus::NotStarted),
    ];
    assert(list.deep_view() =~= Seq::new(
        all_steps().len(),
        |i: int| (all_steps()[i], StepStatusModel::NotStarted),
    ));
    list
}

fn first_checks() -> (list: Vec<(TsCheck, TsStatus)>)
    ensures
        list.deep_view() == Seq::new(
            all_checks().len(),
            |i: int| (all_checks()[i], TsStatusModel::NotChecked),
        ),
{
    let list = vec![
        (TsCheck::SapphireRunning, TsStatus::NotChecked),
        (TsCheck::WebUi, TsStatus::NotChecked),
        (TsCheck::DepsHealth, TsStatus::NotChecked),
        (TsCheck::Plugins, TsStatus::NotChecked),
        (TsCheck::Gpu, TsStatus::NotChecked),
    ];
    assert(list.deep_view() =~= Seq::new(
        all_checks().len(),
        |i: int| (all_checks()[i], TsStatusModel::NotChecked),
    ));
    list
}

impl App {
    /// The launcher at its start, for an installation at `path` on `branch`.
    pub fn new(host: Host, path: String, branch: Branch) -> (a: App)
        ensures
            a.deep_view() == fresh(host.deep_view(), path@, branch),
            a.deep_view().wf(),
    {
        let a = App {
            host,
            install_path: path,
            selected_branch: Some(branch),
            active_tab: Tab::Install,
            log_visible: true,
            log_lines: words(&["Ready."]),
            steps: first_steps(),
            busy: idle(),
            armed: unarmed(),
            updates_available: None,
            update_status: vec![
                ("Pull latest changes".to_string(), StepStatus::NotStarted),
                ("Update dependencies".to_string(), StepStatus::NotStarted),
            ],
            ts_checks: first_checks(),
            spinner_tick: 0,
            sapphire: down(),
            sapphire_log: Vec::new(),
            service: None,
            journal: Journal { streaming: false, epoch: 0 },
            systemd_available: false,
        };
        assert(a.log_lines.deep_view() =~= seq!["Ready."@]);
        assert(a.sapphire_log.deep_view() =~= Seq::empty());
        assert(a.update_status.deep_view() =~= fresh(
            host.deep_view(),
            path@,
            branch,
        ).update_status);
        a
    }

    /// What the launcher has done at its start.
    pub fn startup(&self) -> (effects: Vec<Effect>)
        ensures
            effects.deep_view() == first_effects(self.deep_view()),
    {
        let effects = vec![
            Effect::Start(Job::Service(ServiceJob::Detect(true))),
            Effect::Start(Job::Service(ServiceJob::FindSystemd)),
            Effect::Start(Job::Service(ServiceJob::ReadEnv)),
            Effect::Start(Job::Wait(WaitJob::PreCheck(false))),
            Effect::Start(
                Job::Update(
                    UpdateJob::CheckUpdates(
                        self.install_path.clone(),
                        or_stable(self.selected_branch),
                    ),
                ),
            ),
            Effect::Send(Message::ScanClicked),
        ];
        assert(effects.deep_view() =~= first_effects(self.deep_view()));
        effects
    }

    /// Is anything going on that the launcher shows as moving?
    pub fn is_busy(&self) -> (b: bool)
        ensures
            b == self.deep_view().moving(),
    {
        let b = self.busy;
        b.scanning || b.installing || b.updating || b.uninstalling || b.troubleshooting
            || b.checking_updates || self.sapphire.stopping
    }

    /// The follower of the journal that should be there.
    pub fn journal_follower(&self) -> (epoch: Option<usize>)
        ensures
            epoch == self.deep_view().follower(),
    {
        if self.journal.streaming {
            Some(self.journal.epoch)
        } else {
            None
        }
    }
}

} // verus!

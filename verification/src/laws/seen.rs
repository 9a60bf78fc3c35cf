//! What the contracts speak of is what the code is given: nothing is lost or
//! changed between a value and its model.
use crate::app::{App, Effect, EffectModel, Facts};
use crate::ask::{Reply, ReplyModel, Request, RequestModel};
use crate::host::Host;
use crate::install::{InstallJob, InstallJobModel};
use crate::job::{Job, JobModel};
use crate::message::{Message, MessageModel};
use crate::output::Output;
use crate::parts::{
    Branch, Cmd, Program, ProgramModel, ServiceInfo, Step, StepStatus, StepStatusModel, Tab,
    TsCheck, TsStatus, TsStatusModel,
};
use crate::scan::{ScanJob, ScanJobModel};
use crate::service::{
    Action, ServiceJob, ServiceJobModel, TaskJob, TaskJobModel, UnitJob, UnitJobModel,
};
use crate::troubleshoot::{TsJob, TsJobModel};
use crate::upkeep::{
    AfterStop, ResetJob, ResetJobModel, Secret, UninstallJob, UninstallJobModel, UpdateJob,
    UpdateJobModel, WaitJob, WaitJobModel,
};
use vstd::prelude::*;

verus! {

/// A job is seen with the folder, the branch and the choice that it is
/// started for.
pub proof fn law_jobs_are_seen_whole(
    p: String,
    b: Branch,
    after: AfterStop,
    s: Secret,
    a: Action,
    yes: bool,
)
    ensures
        b.deep_view() == b,
        Job::Scan(ScanJob::Clone(p)).deep_view() == JobModel::Scan(ScanJobModel::Clone(p@)),
        Job::Scan(ScanJob::Deps(p)).deep_view() == JobModel::Scan(ScanJobModel::Deps(p@)),
        Job::Scan(ScanJob::Git).deep_view() == JobModel::Scan(ScanJobModel::Git),
        Job::Scan(ScanJob::Conda).deep_view() == JobModel::Scan(ScanJobModel::Conda),
        Job::Scan(ScanJob::CondaInit).deep_view() == JobModel::Scan(ScanJobModel::CondaInit),
        Job::Scan(ScanJob::PythonEnv).deep_view() == JobModel::Scan(ScanJobModel::PythonEnv),
        Job::Install(InstallJob::Git).deep_view() == JobModel::Install(InstallJobModel::Git),
        Job::Install(InstallJob::Conda).deep_view() == JobModel::Install(InstallJobModel::Conda),
        Job::Install(InstallJob::CondaInit).deep_view() == JobModel::Install(
            InstallJobModel::CondaInit,
        ),
        Job::Install(InstallJob::PythonEnv).deep_view() == JobModel::Install(
            InstallJobModel::PythonEnv,
        ),
        Job::Install(InstallJob::Clone(p, b)).deep_view() == JobModel::Install(
            InstallJobModel::Clone(p@, b),
        ),
        Job::Install(InstallJob::CloneSeen(p, b)).deep_view() == JobModel::Install(
            InstallJobModel::CloneSeen(p@, b),
        ),
        Job::Install(InstallJob::CloneEmpty(p, b)).deep_view() == JobModel::Install(
            InstallJobModel::CloneEmpty(p@, b),
        ),
        Job::Install(InstallJob::Cloned(p, b)).deep_view() == JobModel::Install(
            InstallJobModel::Cloned(p@, b),
        ),
        Job::Install(InstallJob::CheckedOut(b)).deep_view() == JobModel::Install(
            InstallJobModel::CheckedOut(b),
        ),
        Job::Install(InstallJob::Deps(p)).deep_view() == JobModel::Install(
            InstallJobModel::Deps(p@),
        ),
        Job::Uninstall(UninstallJob::RemoveEnv).deep_view() == JobModel::Uninstall(
            UninstallJobModel::RemoveEnv,
        ),
        Job::Uninstall(UninstallJob::DeleteFolder(p)).deep_view() == JobModel::Uninstall(
            UninstallJobModel::DeleteFolder(p@),
        ),
        Job::Uninstall(UninstallJob::DeleteUserdata(p)).deep_view() == JobModel::Uninstall(
            UninstallJobModel::DeleteUserdata(p@),
        ),
        Job::Update(UpdateJob::CheckUpdates(p, b)).deep_view() == JobModel::Update(
            UpdateJobModel::CheckUpdates(p@, b),
        ),
        Job::Update(UpdateJob::Pull(p)).deep_view() == JobModel::Update(UpdateJobModel::Pull(p@)),
        Job::Update(UpdateJob::UpdateDeps(p)).deep_view() == JobModel::Update(
            UpdateJobModel::UpdateDeps(p@),
        ),
        Job::Reset(ResetJob::Begin(s)).deep_view() == JobModel::Reset(ResetJobModel::Begin(s)),
        Job::Wait(WaitJob::Checkout(p, b)).deep_view() == JobModel::Wait(
            WaitJobModel::Checkout(p@, b),
        ),
        Job::Wait(WaitJob::Switch(p, b)).deep_view() == JobModel::Wait(WaitJobModel::Switch(p@, b)),
        Job::Wait(WaitJob::CheckedOut(b)).deep_view() == JobModel::Wait(
            WaitJobModel::CheckedOut(b),
        ),
        Job::Wait(WaitJob::Await(after)).deep_view() == JobModel::Wait(WaitJobModel::Await(after)),
        Job::Wait(WaitJob::PreCheck(yes)).deep_view() == JobModel::Wait(
            WaitJobModel::PreCheck(yes),
        ),
        Job::Troubleshoot(TsJob::Running).deep_view() == JobModel::Troubleshoot(
            TsJobModel::Running,
        ),
        Job::Troubleshoot(TsJob::WebUi).deep_view() == JobModel::Troubleshoot(TsJobModel::WebUi),
        Job::Troubleshoot(TsJob::Deps).deep_view() == JobModel::Troubleshoot(TsJobModel::Deps),
        Job::Troubleshoot(TsJob::Plugins(p)).deep_view() == JobModel::Troubleshoot(
            TsJobModel::Plugins(p@),
        ),
        Job::Troubleshoot(TsJob::Gpu).deep_view() == JobModel::Troubleshoot(TsJobModel::Gpu),
        Job::Troubleshoot(TsJob::FixDeps(p)).deep_view() == JobModel::Troubleshoot(
            TsJobModel::FixDeps(p@),
        ),
        Job::Troubleshoot(TsJob::FixPlugins(p)).deep_view() == JobModel::Troubleshoot(
            TsJobModel::FixPlugins(p@),
        ),
        Job::Service(ServiceJob::Detect(yes)).deep_view() == JobModel::Service(
            ServiceJobModel::Detect(yes),
        ),
        Job::Service(ServiceJob::FindSystemd).deep_view() == JobModel::Service(
            ServiceJobModel::FindSystemd,
        ),
        Job::Service(ServiceJob::ReadEnv).deep_view() == JobModel::Service(
            ServiceJobModel::ReadEnv,
        ),
        Job::Service(ServiceJob::WriteEnv(p)).deep_view() == JobModel::Service(
            ServiceJobModel::WriteEnv(p@),
        ),
        Job::Service(ServiceJob::Act(a)).deep_view() == JobModel::Service(ServiceJobModel::Act(a)),
        Job::Unit(UnitJob::Install(p)).deep_view() == JobModel::Unit(UnitJobModel::Install(p@)),
        Job::Unit(UnitJob::Remove).deep_view() == JobModel::Unit(UnitJobModel::Remove),
        Job::Task(TaskJob::Install(p)).deep_view() == JobModel::Task(TaskJobModel::Install(p@)),
        Job::Task(TaskJob::Remove).deep_view() == JobModel::Task(TaskJobModel::Remove),
{
}

/// A request is seen with all that it asks for, and a reply with all that it
/// says.
pub proof fn law_requests_and_replies_are_seen_whole(
    c: Cmd,
    list: Vec<String>,
    p: String,
    q: String,
    ms: u64,
    o: Output,
    flags: Vec<bool>,
)
    ensures
        c.deep_view().args.len() == c.args@.len(),
        forall|i: int| 0 <= i < c.args@.len() ==> #[trigger] c.deep_view().args[i] == c.args@[i]@,
        c.deep_view().program == match c.program {
            Program::Named(name) => ProgramModel::Named(name@),
            Program::Git => ProgramModel::Git,
            Program::Conda => ProgramModel::Conda,
            Program::Pip => ProgramModel::Pip,
        },
        Request::Run(c).deep_view() == RequestModel::Run(c.deep_view()),
        Request::RunLive(c).deep_view() == RequestModel::RunLive(c.deep_view()),
        Request::Probe(list).deep_view() == RequestModel::Probe(list.deep_view()),
        forall|i: int| 0 <= i < list@.len() ==> #[trigger] list.deep_view()[i] == list@[i]@,
        Request::DirEmpty(p).deep_view() == RequestModel::DirEmpty(p@),
        Request::Read(p).deep_view() == RequestModel::Read(p@),
        Request::CreateDir(p).deep_view() == RequestModel::CreateDir(p@),
        Request::Write(p, q).deep_view() == RequestModel::Write(p@, q@),
        Request::RemoveDir(p).deep_view() == RequestModel::RemoveDir(p@),
        Request::RemoveFile(p).deep_view() == RequestModel::RemoveFile(p@),
        Request::CopyFile(p, q).deep_view() == RequestModel::CopyFile(p@, q@),
        Request::Protect(p).deep_view() == RequestModel::Protect(p@),
        Request::Sleep(ms).deep_view() == RequestModel::Sleep(ms),
        Request::Gigabytes(p).deep_view() == RequestModel::Gigabytes(p@),
        Reply::Begin.deep_view() == ReplyModel::Begin,
        Reply::Output(o).deep_view() == ReplyModel::Output(o.deep_view()),
        o.deep_view().success == o.success,
        o.deep_view().code == o.code,
        o.deep_view().stdout == o.stdout@,
        o.deep_view().stderr == o.stderr@,
        Reply::Failed(p).deep_view() == ReplyModel::Failed(p@),
        Reply::Found(flags).deep_view() == ReplyModel::Found(flags@),
        Reply::Text(Some(p)).deep_view() == ReplyModel::Text(Some(p@)),
        Reply::Text(None).deep_view() == ReplyModel::Text(None),
        Reply::Done(Some(p)).deep_view() == ReplyModel::Done(Some(p@)),
        Reply::Done(None).deep_view() == ReplyModel::Done(None),
{
}

/// The news that jobs bring is seen with all that it says, good or bad.
pub proof fn law_news_is_seen_whole(
    p: String,
    q: String,
    ok: bool,
    step: Step,
    status: StepStatus,
    check: TsCheck,
    verdict: TsStatus,
    count: Option<u32>,
    info: Option<ServiceInfo>,
    list: Vec<String>,
)
    ensures
        status.deep_view() == match status {
            StepStatus::NotStarted => StepStatusModel::NotStarted,
            StepStatus::Checking => StepStatusModel::Checking,
            StepStatus::Found(s) => StepStatusModel::Found(s@),
            StepStatus::NotFound(s) => StepStatusModel::NotFound(s@),
            StepStatus::Installing => StepStatusModel::Installing,
            StepStatus::Done(s) => StepStatusModel::Done(s@),
            StepStatus::Failed(s) => StepStatusModel::Failed(s@),
        },
        verdict.deep_view() == match verdict {
            TsStatus::NotChecked => TsStatusModel::NotChecked,
            TsStatus::Checking => TsStatusModel::Checking,
            TsStatus::Fine(s) => TsStatusModel::Fine(s@),
            TsStatus::Problem(s) => TsStatusModel::Problem(s@),
            TsStatus::Fixing => TsStatusModel::Fixing,
            TsStatus::Fixed(s) => TsStatusModel::Fixed(s@),
        },
        Message::SwitchBranchResult(p, ok).deep_view() == MessageModel::SwitchBranchResult(p@, ok),
        Message::StepResult(step, status).deep_view() == MessageModel::StepResult(
            step,
            status.deep_view(),
        ),
        Message::InstallStepResult(step, status, q).deep_view() == MessageModel::InstallStepResult(
            step,
            status.deep_view(),
            q@,
        ),
        Message::Log(p).deep_view() == MessageModel::Log(p@),
        Message::RunLogWritten(ok).deep_view() == MessageModel::RunLogWritten(ok),
        Message::SapphireLine(p).deep_view() == MessageModel::SapphireLine(p@),
        Message::SapphireLines(list).deep_view() == MessageModel::SapphireLines(list.deep_view()),
        Message::SapphireExited(p).deep_view() == MessageModel::SapphireExited(p@),
        Message::SapphireStopConfirmed.deep_view() == MessageModel::SapphireStopConfirmed,
        Message::ResetResult(p).deep_view() == MessageModel::ResetResult(p@),
        Message::UninstallResult(p, ok).deep_view() == MessageModel::UninstallResult(p@, ok),
        Message::UpdatesAvailable(count).deep_view() == MessageModel::UpdatesAvailable(count),
        Message::UpdateAfterStop.deep_view() == MessageModel::UpdateAfterStop,
        Message::UpdateStepDone(p, ok).deep_view() == MessageModel::UpdateStepDone(p@, ok),
        Message::TroubleshootResult(check, verdict).deep_view()
            == MessageModel::TroubleshootResult(check, verdict.deep_view()),
        Message::TroubleshootFixResult(check, p, ok).deep_view()
            == MessageModel::TroubleshootFixResult(check, p@, ok),
        Message::ServiceDetected(info).deep_view() == MessageModel::ServiceDetected(
            info.deep_view(),
        ),
        Message::ServiceRefreshed(info).deep_view() == MessageModel::ServiceRefreshed(
            info.deep_view(),
        ),
        info matches Some(s) ==> info.deep_view() matches Some(m) && m.active == s.active
            && m.active_state == s.active_state@ && m.enabled == s.enabled && m.sub_state
            == s.sub_state@ && (s.working_dir is Some <==> m.working_dir is Some) && (
        s.working_dir matches Some(dir) ==> m.working_dir == Some(dir@)),
        info is None ==> info.deep_view() is None,
        Message::ServiceActionResult(p, ok).deep_view() == MessageModel::ServiceActionResult(
            p@,
            ok,
        ),
        Message::ServiceInstallResult(p, ok).deep_view() == MessageModel::ServiceInstallResult(
            p@,
            ok,
        ),
        Message::ServiceRemoveResult(p, ok).deep_view() == MessageModel::ServiceRemoveResult(
            p@,
            ok,
        ),
        Message::SystemdChecked(ok).deep_view() == MessageModel::SystemdChecked(ok),
        Message::EnvLoaded(p).deep_view() == MessageModel::EnvLoaded(p@),
        Message::EnvSaved(ok).deep_view() == MessageModel::EnvSaved(ok),
{
}

/// Each click is seen as the click that it is.
pub proof fn law_clicks_are_seen(
    p: String,
    b: Branch,
    tab: Tab,
    check: TsCheck,
    x: bool,
    y: bool,
)
    ensures
        Message::Tick.deep_view() == MessageModel::Tick,
        Message::PathChanged(p).deep_view() == MessageModel::PathChanged(p@),
        Message::BranchSelected(b).deep_view() == MessageModel::BranchSelected(b),
        Message::BrowsePath.deep_view() == MessageModel::BrowsePath,
        Message::Launch.deep_view() == MessageModel::Launch,
        Message::StopSapphire.deep_view() == MessageModel::StopSapphire,
        Message::OpenBrowser.deep_view() == MessageModel::OpenBrowser,
        Message::SwitchBranch.deep_view() == MessageModel::SwitchBranch,
        Message::TabSelected(tab).deep_view() == MessageModel::TabSelected(tab),
        Message::ToggleLog.deep_view() == MessageModel::ToggleLog,
        Message::ScanClicked.deep_view() == MessageModel::ScanClicked,
        Message::GoClicked.deep_view() == MessageModel::GoClicked,
        Message::CopyRunLog.deep_view() == MessageModel::CopyRunLog,
        Message::OpenRunLog.deep_view() == MessageModel::OpenRunLog,
        Message::ScrollRunLog.deep_view() == MessageModel::ScrollRunLog,
        Message::LaunchPreCheck(x, y).deep_view() == MessageModel::LaunchPreCheck(x, y),
        Message::ResetPassword.deep_view() == MessageModel::ResetPassword,
        Message::ResetCredentials.deep_view() == MessageModel::ResetCredentials,
        Message::UninstallCondaEnvClick.deep_view() == MessageModel::UninstallCondaEnvClick,
        Message::UninstallDeleteFolderClick.deep_view()
            == MessageModel::UninstallDeleteFolderClick,
        Message::UninstallDeleteUserdataClick.deep_view()
            == MessageModel::UninstallDeleteUserdataClick,
        Message::CheckForUpdates.deep_view() == MessageModel::CheckForUpdates,
        Message::UpdateClicked.deep_view() == MessageModel::UpdateClicked,
        Message::TroubleshootCheck.deep_view() == MessageModel::TroubleshootCheck,
        Message::TroubleshootFix(check).deep_view() == MessageModel::TroubleshootFix(check),
        Message::ServiceStart.deep_view() == MessageModel::ServiceStart,
        Message::ServiceStop.deep_view() == MessageModel::ServiceStop,
        Message::ServiceRestart.deep_view() == MessageModel::ServiceRestart,
        Message::ServiceEnable.deep_view() == MessageModel::ServiceEnable,
        Message::ServiceDisable.deep_view() == MessageModel::ServiceDisable,
        Message::ServiceInstall.deep_view() == MessageModel::ServiceInstall,
        Message::ServiceRemoveClick.deep_view() == MessageModel::ServiceRemoveClick,
        Message::EnvSaveRestart(p).deep_view() == MessageModel::EnvSaveRestart(p@),
{
}

/// The effects are seen with all that they do, and the launcher with all that
/// it knows.
pub proof fn law_launcher_is_seen_whole(
    a: App,
    f: Facts,
    h: Host,
    j: Job,
    m: Message,
    list: Vec<Cmd>,
    c: Cmd,
    p: String,
    q: String,
    forget: bool,
)
    ensures
        Effect::SaveConfig(p).deep_view() == EffectModel::SaveConfig(p@),
        Effect::Kill(list, forget).deep_view() == EffectModel::Kill(list.deep_view(), forget),
        Effect::Start(j).deep_view() == EffectModel::Start(j.deep_view()),
        Effect::Browse.deep_view() == EffectModel::Browse,
        Effect::Follow(p).deep_view() == EffectModel::Follow(p@),
        Effect::Spawn(c).deep_view() == EffectModel::Spawn(c.deep_view()),
        Effect::WriteRunLog(p, q).deep_view() == EffectModel::WriteRunLog(p@, q@),
        Effect::Copy(p).deep_view() == EffectModel::Copy(p@),
        Effect::ScrollLog.deep_view() == EffectModel::ScrollLog,
        Effect::SetEnv(p).deep_view() == EffectModel::SetEnv(p@),
        Effect::Send(m).deep_view() == EffectModel::Send(m.deep_view()),
        Effect::ClearOutput.deep_view() == EffectModel::ClearOutput,
        ({
            let v = a.deep_view();
            &&& v.host == a.host.deep_view()
            &&& v.install_path == a.install_path@
            &&& v.selected_branch == a.selected_branch
            &&& v.active_tab == a.active_tab
            &&& v.log_visible == a.log_visible
            &&& v.log_lines == a.log_lines.deep_view()
            &&& v.steps == a.steps.deep_view()
            &&& v.busy == a.busy
            &&& v.armed == a.armed
            &&& v.updates_available == a.updates_available
            &&& v.update_status == a.update_status.deep_view()
            &&& v.ts_checks == a.ts_checks.deep_view()
            &&& v.spinner_tick == a.spinner_tick
            &&& v.sapphire == a.sapphire
            &&& v.sapphire_log == a.sapphire_log.deep_view()
            &&& v.service == a.service.deep_view()
            &&& v.journal == a.journal
            &&& v.systemd_available == a.systemd_available
        }),
        ({
            let v = f.deep_view();
            &&& v.repo == f.repo
            &&& v.main_py == f.main_py
            &&& v.service_main_py == f.service_main_py
            &&& v.service_branch == f.service_branch
            &&& v.pid == f.pid
            &&& v.output == f.output.deep_view()
        }),
        ({
            let v = h.deep_view();
            &&& v.platform == h.platform
            &&& v.home == h.home.deep_view()
            &&& v.user_profile == h.user_profile.deep_view()
            &&& v.app_data == h.app_data.deep_view()
            &&& v.xdg_config_home == h.xdg_config_home.deep_view()
            &&& v.user_domain == h.user_domain@
            &&& v.user_name == h.user_name@
            &&& v.temp_dir == h.temp_dir@
        }),
{
}

} // verus!

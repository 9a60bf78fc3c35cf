//! What can happen to the launcher.
use crate::parts::{
    Branch, ServiceInfo, ServiceInfoModel, Step, StepStatus, StepStatusModel, Tab, TsCheck, TsStatus,
    TsStatusModel,
};
use vstd::prelude::*;

verus! {

/// Everything that can happen: what the user does and what jobs report.
#[derive(Debug, Clone)]
pub enum Message {
    Tick,
    PathChanged(String),
    BranchSelected(Branch),
    BrowsePath,
    Launch,
    StopSapphire,
    OpenBrowser,
    SwitchBranch,
    /// What came of a branch switch, and whether it worked.
    SwitchBranchResult(String, bool),
    TabSelected(Tab),
    ToggleLog,
    ScanClicked,
    GoClicked,
    StepResult(Step, StepStatus),
    /// A step, how it ended and what it printed.
    InstallStepResult(Step, StepStatus, String),
    Log(String),
    CopyRunLog,
    OpenRunLog,
    /// Was the run log written to a file?
    RunLogWritten(bool),
    ScrollRunLog,
    /// Is Sapphire running already, and did the user ask to launch it?
    LaunchPreCheck(bool, bool),
    SapphireLine(String),
    SapphireLines(Vec<String>),
    SapphireExited(String),
    SapphireStopConfirmed,
    ResetPassword,
    ResetCredentials,
    ResetResult(String),
    UninstallCondaEnvClick,
    UninstallDeleteFolderClick,
    UninstallDeleteUserdataClick,
    UninstallResult(String, bool),
    CheckForUpdates,
    /// How many commits the installation is behind, if that is known.
    UpdatesAvailable(Option<u32>),
    UpdateClicked,
    UpdateAfterStop,
    UpdateStepDone(String, bool),
    TroubleshootCheck,
    TroubleshootResult(TsCheck, TsStatus),
    TroubleshootFix(TsCheck),
    TroubleshootFixResult(TsCheck, String, bool),
    ServiceDetected(Option<ServiceInfo>),
    ServiceStart,
    ServiceStop,
    ServiceRestart,
    ServiceEnable,
    ServiceDisable,
    ServiceActionResult(String, bool),
    ServiceRefreshed(Option<ServiceInfo>),
    SystemdChecked(bool),
    ServiceInstall,
    ServiceInstallResult(String, bool),
    ServiceRemoveClick,
    ServiceRemoveResult(String, bool),
    EnvLoaded(String),
    /// The text of the environment editor is to be saved.
    EnvSaveRestart(String),
    EnvSaved(bool),
}

/// `Message` with its texts as character sequences.
#[verifier::ext_equal]
pub enum MessageModel {
    Tick,
    PathChanged(Seq<char>),
    BranchSelected(Branch),
    BrowsePath,
    Launch,
    StopSapphire,
    OpenBrowser,
    SwitchBranch,
    SwitchBranchResult(Seq<char>, bool),
    TabSelected(Tab),
    ToggleLog,
    ScanClicked,
    GoClicked,
    StepResult(Step, StepStatusModel),
    InstallStepResult(Step, StepStatusModel, Seq<char>),
    Log(Seq<char>),
    CopyRunLog,
    OpenRunLog,
    RunLogWritten(bool),
    ScrollRunLog,
    LaunchPreCheck(bool, bool),
    SapphireLine(Seq<char>),
    SapphireLines(Seq<Seq<char>>),
    SapphireExited(Seq<char>),
    SapphireStopConfirmed,
    ResetPassword,
    ResetCredentials,
    ResetResult(Seq<char>),
    UninstallCondaEnvClick,
    UninstallDeleteFolderClick,
    UninstallDeleteUserdataClick,
    UninstallResult(Seq<char>, bool),
    CheckForUpdates,
    UpdatesAvailable(Option<u32>),
    UpdateClicked,
    UpdateAfterStop,
    UpdateStepDone(Seq<char>, bool),
    TroubleshootCheck,
    TroubleshootResult(TsCheck, TsStatusModel),
    TroubleshootFix(TsCheck),
    TroubleshootFixResult(TsCheck, Seq<char>, bool),
    ServiceDetected(Option<ServiceInfoModel>),
    ServiceStart,
    ServiceStop,
    ServiceRestart,
    ServiceEnable,
    ServiceDisable,
    ServiceActionResult(Seq<char>, bool),
    ServiceRefreshed(Option<ServiceInfoModel>),
    SystemdChecked(bool),
    ServiceInstall,
    ServiceInstallResult(Seq<char>, bool),
    ServiceRemoveClick,
    ServiceRemoveResult(Seq<char>, bool),
    EnvLoaded(Seq<char>),
    EnvSaveRestart(Seq<char>),
    EnvSaved(bool),
}

impl DeepView for Message {
    type V = MessageModel;

    open spec fn deep_view(&self) -> MessageModel {
        match self {
            Message::Tick => MessageModel::Tick,
            Message::PathChanged(s) => MessageModel::PathChanged(s@),
            Message::BranchSelected(b) => MessageModel::BranchSelected(*b),
            Message::BrowsePath => MessageModel::BrowsePath,
            Message::Launch => MessageModel::Launch,
            Message::StopSapphire => MessageModel::StopSapphire,
            Message::OpenBrowser => MessageModel::OpenBrowser,
            Message::SwitchBranch => MessageModel::SwitchBranch,
            Message::SwitchBranchResult(s, ok) => MessageModel::SwitchBranchResult(s@, *ok),
            Message::TabSelected(t) => MessageModel::TabSelected(*t),
            Message::ToggleLog => MessageModel::ToggleLog,
            Message::ScanClicked => MessageModel::ScanClicked,
            Message::GoClicked => MessageModel::GoClicked,
            Message::StepResult(st, s) => MessageModel::StepResult(*st, s.deep_view()),
            Message::InstallStepResult(st, s, out) => MessageModel::InstallStepResult(
                *st,
                s.deep_view(),
                out@,
            ),
            Message::Log(s) => MessageModel::Log(s@),
            Message::CopyRunLog => MessageModel::CopyRunLog,
            Message::OpenRunLog => MessageModel::OpenRunLog,
            Message::RunLogWritten(ok) => MessageModel::RunLogWritten(*ok),
            Message::ScrollRunLog => MessageModel::ScrollRunLog,
            Message::LaunchPreCheck(r, u) => MessageModel::LaunchPreCheck(*r, *u),
            Message::SapphireLine(s) => MessageModel::SapphireLine(s@),
            Message::SapphireLines(l) => MessageModel::SapphireLines(l.deep_view()),
            Message::SapphireExited(s) => MessageModel::SapphireExited(s@),
            Message::SapphireStopConfirmed => MessageModel::SapphireStopConfirmed,
            Message::ResetPassword => MessageModel::ResetPassword,
            Message::ResetCredentials => MessageModel::ResetCredentials,
            Message::ResetResult(s) => MessageModel::ResetResult(s@),
            Message::UninstallCondaEnvClick => MessageModel::UninstallCondaEnvClick,
            Message::UninstallDeleteFolderClick => MessageModel::UninstallDeleteFolderClick,
            Message::UninstallDeleteUserdataClick => MessageModel::UninstallDeleteUserdataClick,
            Message::UninstallResult(s, ok) => MessageModel::UninstallResult(s@, *ok),
            Message::CheckForUpdates => MessageModel::CheckForUpdates,
            Message::UpdatesAvailable(n) => MessageModel::UpdatesAvailable(*n),
            Message::UpdateClicked => MessageModel::UpdateClicked,
            Message::UpdateAfterStop => MessageModel::UpdateAfterStop,
            Message::UpdateStepDone(s, ok) => MessageModel::UpdateStepDone(s@, *ok),
            Message::TroubleshootCheck => MessageModel::TroubleshootCheck,
            Message::TroubleshootResult(c, s) => MessageModel::TroubleshootResult(
                *c,
                s.deep_view(),
            ),
            Message::TroubleshootFix(c) => MessageModel::TroubleshootFix(*c),
            Message::TroubleshootFixResult(c, s, ok) => MessageModel::TroubleshootFixResult(
                *c,
                s@,
                *ok,
            ),
            Message::ServiceDetected(i) => MessageModel::ServiceDetected(i.deep_view()),
            Message::ServiceStart => MessageModel::ServiceStart,
            Message::ServiceStop => MessageModel::ServiceStop,
            Message::ServiceRestart => MessageModel::ServiceRestart,
            Message::ServiceEnable => MessageModel::ServiceEnable,
            Message::ServiceDisable => MessageModel::ServiceDisable,
            Message::ServiceActionResult(s, ok) => MessageModel::ServiceActionResult(s@, *ok),
            Message::ServiceRefreshed(i) => MessageModel::ServiceRefreshed(i.deep_view()),
            Message::SystemdChecked(b) => MessageModel::SystemdChecked(*b),
            Message::ServiceInstall => MessageModel::ServiceInstall,
            Message::ServiceInstallResult(s, ok) => MessageModel::ServiceInstallResult(s@, *ok),
            Message::ServiceRemoveClick => MessageModel::ServiceRemoveClick,
            Message::ServiceRemoveResult(s, ok) => MessageModel::ServiceRemoveResult(s@, *ok),
            Message::EnvLoaded(s) => MessageModel::EnvLoaded(s@),
            Message::EnvSaveRestart(s) => MessageModel::EnvSaveRestart(s@),
            Message::EnvSaved(ok) => MessageModel::EnvSaved(*ok),
        }
    }
}

/// What comes of letting the user choose a folder: the folder, or a note
/// that none was chosen.
pub open spec fn browsed(chosen: Option<Seq<char>>) -> MessageModel {
    match chosen {
        Some(path) => MessageModel::PathChanged(path),
        None => MessageModel::Log("Browse cancelled."@),
    }
}

/// Tells what the user has chosen.
pub fn browse_result(chosen: Option<String>) -> (m: Message)
    ensures
        m.deep_view() == browsed(chosen.deep_view()),
{
    match chosen {
        Some(path) => Message::PathChanged(path),
        None => Message::Log("Browse cancelled.".to_string()),
    }
}

} // verus!

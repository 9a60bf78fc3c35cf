//! What every message does to the state, and what it has done outside.
use crate::app::{App, AppModel, Armed, Effect, EffectModel, Facts, FactsModel, Journal};
use crate::host::{file_cmd, open_file, open_url, url_cmd};
use crate::job::{
    install_service, remove_service, service_install, service_remove, Job, JobModel,
};
use crate::launch::{
    acting, branch_selected, check_updates, env_saved, exited, launched, lines_came, part_done,
    path_changed, prechecked, run_log_file, service_acted, service_detected, service_refreshed,
    service_restarted, service_started, service_stopped, service_was_installed,
    service_was_removed, stop_confirmed, stopping, switch_asked, switched, tab_selected, ticked,
    update_after_stop, update_asked, updates_known,
};
use crate::message::{Message, MessageModel};
use crate::service::{Action, ServiceJob, ServiceJobModel};
use crate::setup::{
    check_made, checks_started, delete_folder_clicked, delete_userdata_clicked, fix_over,
    fix_started, install_started, remove_env_clicked, scan_started, step_checked, step_installed,
    uninstall_over,
};
use crate::text::{join, joined, words};
use crate::turn::{noted, nothing, one, quiet, starting, Turn};
use crate::upkeep::{ResetJob, ResetJobModel, Secret};
use vstd::prelude::*;

verus! {

// ── Small turns ──────────────────────────────────────────────────────────

/// A file that the run log was written to is opened.
#[verifier::opaque]
pub open spec fn run_log_written(a: AppModel, ok: bool) -> Turn {
    if ok {
        (a, seq![EffectModel::Spawn(file_cmd(a.host.platform, run_log_file(a.host)))])
    } else {
        quiet(noted(a, "Couldn't write log file."@))
    }
}

/// The removal of the service is clicked: the first click arms it, the
/// second does it.
#[verifier::opaque]
pub open spec fn remove_service_clicked(a: AppModel) -> Turn {
    if !a.armed.remove_service {
        quiet(AppModel { armed: Armed { remove_service: true, ..a.armed }, ..a })
    } else {
        starting(
            noted(
                AppModel {
                    armed: Armed { remove_service: false, ..a.armed },
                    journal: Journal { streaming: false, ..a.journal },
                    ..a
                },
                "[service] Removing systemd --user unit..."@,
            ),
            service_remove(a.host.platform),
        )
    }
}

impl App {
    fn on_run_log_written(&mut self, ok: bool) -> (effects: Vec<Effect>)
        ensures
            final(self).deep_view() == run_log_written(old(self).deep_view(), ok).0,
            effects.deep_view() == run_log_written(old(self).deep_view(), ok).1,
    {
        proof {
            reveal(run_log_written);
        }
        if ok {
            let file = self.host.path(self.host.temp_dir.as_str(), "sapphire_log.txt");
            one(Effect::Spawn(open_file(self.host.platform, file.as_str())))
        } else {
            self.note("Couldn't write log file.");
            nothing()
        }
    }

    fn on_remove_service(&mut self) -> (effects: Vec<Effect>)
        ensures
            final(self).deep_view() == remove_service_clicked(old(self).deep_view()).0,
            effects.deep_view() == remove_service_clicked(old(self).deep_view()).1,
    {
        proof {
            reveal(remove_service_clicked);
        }
        if !self.armed.remove_service {
            self.armed.remove_service = true;
            return nothing();
        }
        self.armed.remove_service = false;
        self.journal.streaming = false;
        self.note("[service] Removing systemd --user unit...");
        one(Effect::Start(remove_service(self.host.platform)))
    }
}

// ── Every message ────────────────────────────────────────────────────────

/// The turn that a message about running Sapphire brings about.
#[verifier::opaque]
pub open spec fn run_turn(a: AppModel, m: MessageModel, f: FactsModel) -> Turn {
    match m {
        MessageModel::Tick => ticked(a, f),
        MessageModel::PathChanged(path) => path_changed(a, path),
        MessageModel::BranchSelected(b) => branch_selected(a, b, f),
        MessageModel::BrowsePath => (a, seq![EffectModel::Browse]),
        MessageModel::Launch => launched(a, f),
        MessageModel::StopSapphire => stopping(a, f),
        MessageModel::OpenBrowser => (
            a,
            seq![EffectModel::Spawn(url_cmd(a.host.platform, "https://localhost:8073"@))],
        ),
        MessageModel::SwitchBranch => switch_asked(a, f),
        MessageModel::SwitchBranchResult(text, _) => switched(a, text, f),
        MessageModel::TabSelected(tab) => tab_selected(a, tab),
        MessageModel::ToggleLog => quiet(AppModel { log_visible: !a.log_visible, ..a }),
        MessageModel::Log(line) => quiet(noted(a, line)),
        MessageModel::CopyRunLog => (
            noted(a, "Copied to clipboard."@),
            seq![EffectModel::Copy(joined(a.sapphire_log, "\n"@))],
        ),
        MessageModel::OpenRunLog => (
            a,
            seq![
                EffectModel::WriteRunLog(run_log_file(a.host), joined(a.sapphire_log, "\n"@)),
            ],
        ),
        MessageModel::RunLogWritten(ok) => run_log_written(a, ok),
        MessageModel::ScrollRunLog => (a, seq![EffectModel::ScrollLog]),
        MessageModel::LaunchPreCheck(running, user) => prechecked(a, running, user),
        MessageModel::SapphireLine(line) => lines_came(a, seq![line]),
        MessageModel::SapphireLines(list) => lines_came(a, list),
        MessageModel::SapphireExited(text) => exited(a, text),
        MessageModel::SapphireStopConfirmed => stop_confirmed(a),
        MessageModel::CheckForUpdates => check_updates(a),
        MessageModel::UpdatesAvailable(count) => updates_known(a, count),
        MessageModel::UpdateClicked => update_asked(a, f),
        MessageModel::UpdateAfterStop => update_after_stop(a, f),
        MessageModel::UpdateStepDone(text, ok) => part_done(a, text, ok),
        _ => quiet(a),
    }
}

/// The turn that a message about setting Sapphire up brings about.
#[verifier::opaque]
pub open spec fn setup_turn(a: AppModel, m: MessageModel) -> Turn {
    match m {
        MessageModel::ScanClicked => scan_started(a),
        MessageModel::GoClicked => install_started(a),
        MessageModel::StepResult(step, status) => step_checked(a, step, status),
        MessageModel::InstallStepResult(step, status, output) => step_installed(
            a,
            step,
            status,
            output,
        ),
        MessageModel::ResetPassword => starting(
            a,
            JobModel::Reset(ResetJobModel::Begin(Secret::Password)),
        ),
        MessageModel::ResetCredentials => starting(
            a,
            JobModel::Reset(ResetJobModel::Begin(Secret::Credentials)),
        ),
        MessageModel::ResetResult(text) => quiet(noted(a, text)),
        MessageModel::UninstallCondaEnvClick => remove_env_clicked(a),
        MessageModel::UninstallDeleteFolderClick => delete_folder_clicked(a),
        MessageModel::UninstallDeleteUserdataClick => delete_userdata_clicked(a),
        MessageModel::UninstallResult(text, ok) => uninstall_over(a, text, ok),
        MessageModel::TroubleshootCheck => checks_started(a),
        MessageModel::TroubleshootResult(check, status) => check_made(a, check, status),
        MessageModel::TroubleshootFix(check) => fix_started(a, check),
        MessageModel::TroubleshootFixResult(check, text, ok) => fix_over(a, check, text, ok),
        _ => quiet(a),
    }
}

/// The turn that a message about the service brings about.
#[verifier::opaque]
pub open spec fn service_turn(a: AppModel, m: MessageModel, f: FactsModel) -> Turn {
    match m {
        MessageModel::ServiceDetected(info) => service_detected(a, info, f),
        MessageModel::ServiceStart => service_started(a),
        MessageModel::ServiceStop => service_stopped(a),
        MessageModel::ServiceRestart => service_restarted(a),
        MessageModel::ServiceEnable => acting(
            a,
            "Enabling sapphire.service (autostart at login)..."@,
            Action::Enable,
        ),
        MessageModel::ServiceDisable => acting(
            a,
            "Disabling sapphire.service autostart..."@,
            Action::Disable,
        ),
        MessageModel::ServiceActionResult(text, ok) => service_acted(a, text, ok),
        MessageModel::ServiceRefreshed(info) => service_refreshed(a, info),
        MessageModel::SystemdChecked(there) => quiet(AppModel { systemd_available: there, ..a }),
        MessageModel::ServiceInstall => starting(
            noted(a, "[service] Creating systemd --user unit..."@),
            service_install(a.host.platform, a.install_path),
        ),
        MessageModel::ServiceInstallResult(text, ok) => service_was_installed(a, text, ok),
        MessageModel::ServiceRemoveClick => remove_service_clicked(a),
        MessageModel::ServiceRemoveResult(text, ok) => service_was_removed(a, text, ok),
        MessageModel::EnvLoaded(text) => (a, seq![EffectModel::SetEnv(text)]),
        MessageModel::EnvSaveRestart(text) => starting(
            noted(a, "[service] Saving environment, then restarting..."@),
            JobModel::Service(ServiceJobModel::WriteEnv(text)),
        ),
        MessageModel::EnvSaved(ok) => env_saved(a, ok),
        _ => quiet(a),
    }
}

/// The turn that a message brings about.
pub open spec fn turned(a: AppModel, m: MessageModel, f: FactsModel) -> Turn {
    match m {
        MessageModel::ScanClicked
        | MessageModel::GoClicked
        | MessageModel::StepResult(_, _)
        | MessageModel::InstallStepResult(_, _, _)
        | MessageModel::ResetPassword
        | MessageModel::ResetCredentials
        | MessageModel::ResetResult(_)
        | MessageModel::UninstallCondaEnvClick
        | MessageModel::UninstallDeleteFolderClick
        | MessageModel::UninstallDeleteUserdataClick
        | MessageModel::UninstallResult(_, _)
        | MessageModel::TroubleshootCheck
        | MessageModel::TroubleshootResult(_, _)
        | MessageModel::TroubleshootFix(_)
        | MessageModel::TroubleshootFixResult(_, _, _) => setup_turn(a, m),
        MessageModel::ServiceDetected(_)
        | MessageModel::ServiceStart
        | MessageModel::ServiceStop
        | MessageModel::ServiceRestart
        | MessageModel::ServiceEnable
        | MessageModel::ServiceDisable
        | MessageModel::ServiceActionResult(_, _)
        | MessageModel::ServiceRefreshed(_)
        | MessageModel::SystemdChecked(_)
        | MessageModel::ServiceInstall
        | MessageModel::ServiceInstallResult(_, _)
        | MessageModel::ServiceRemoveClick
        | MessageModel::ServiceRemoveResult(_, _)
        | MessageModel::EnvLoaded(_)
        | MessageModel::EnvSaveRestart(_)
        | MessageModel::EnvSaved(_) => service_turn(a, m, f),
        _ => run_turn(a, m, f),
    }
}

impl App {
    fn on_copy(&mut self) -> (effects: Vec<Effect>)
        ensures
            final(self).deep_view() == noted(old(self).deep_view(), "Copied to clipboard."@),
            effects.deep_view() == seq![
                EffectModel::Copy(joined(old(self).deep_view().sapphire_log, "\n"@)),
            ],
    {
        let text = join(&self.sapphire_log, "\n");
        self.note("Copied to clipboard.");
        one(Effect::Copy(text))
    }

    fn update_run(&mut self, message: Message, facts: &Facts) -> (effects: Vec<Effect>)
        ensures
            final(self).deep_view() == run_turn(
                old(self).deep_view(),
                message.deep_view(),
                facts.deep_view(),
            ).0,
            effects.deep_view() == run_turn(
                old(self).deep_view(),
                message.deep_view(),
                facts.deep_view(),
            ).1,
    {
        proof {
            reveal(run_turn);
        }
        match message {
            Message::Tick => self.on_tick(facts),
            Message::PathChanged(path) => self.on_path(path),
            Message::BranchSelected(b) => self.on_branch(b, facts),
            Message::BrowsePath => one(Effect::Browse),
            Message::Launch => self.on_launch(facts),
            Message::StopSapphire => self.on_stop(facts),
            Message::OpenBrowser => one(
                Effect::Spawn(open_url(self.host.platform, "https://localhost:8073")),
            ),
            Message::SwitchBranch => self.on_switch(facts),
            Message::SwitchBranchResult(text, _) => self.on_switched(text, facts),
            Message::TabSelected(tab) => self.on_tab(tab),
            Message::ToggleLog => {
                self.log_visible = !self.log_visible;
                nothing()
            },
            Message::Log(line) => {
                self.note(line.as_str());
                nothing()
            },
            Message::CopyRunLog => self.on_copy(),
            Message::OpenRunLog => {
                let file = self.host.path(self.host.temp_dir.as_str(), "sapphire_log.txt");
                one(Effect::WriteRunLog(file, join(&self.sapphire_log, "\n")))
            },
            Message::RunLogWritten(ok) => self.on_run_log_written(ok),
            Message::ScrollRunLog => one(Effect::ScrollLog),
            Message::LaunchPreCheck(running, user) => self.on_precheck(running, user),
            Message::SapphireLine(line) => {
                let list = words(&[line.as_str()]);
                assert(list.deep_view() =~= seq![line@]);
                self.on_lines(list)
            },
            Message::SapphireLines(list) => self.on_lines(list),
            Message::SapphireExited(text) => self.on_exit(text),
            Message::SapphireStopConfirmed => self.on_stop_confirmed(),
            Message::CheckForUpdates => self.on_check_updates(),
            Message::UpdatesAvailable(count) => self.on_updates(count),
            Message::UpdateClicked => self.on_update(facts),
            Message::UpdateAfterStop => self.on_update_after_stop(facts),
            Message::UpdateStepDone(text, ok) => self.on_part_done(text, ok),
            _ => nothing(),
        }
    }

    fn update_setup(&mut self, message: Message) -> (effects: Vec<Effect>)
        ensures
            final(self).deep_view() == setup_turn(
                old(self).deep_view(),
                message.deep_view(),
            ).0,
            effects.deep_view() == setup_turn(
                old(self).deep_view(),
                message.deep_view(),
            ).1,
    {
        proof {
            reveal(setup_turn);
        }
        match message {
            Message::ScanClicked => self.on_scan(),
            Message::GoClicked => self.on_go(),
            Message::StepResult(step, status) => self.on_step_checked(step, status),
            Message::InstallStepResult(step, status, output) => self.on_step_installed(
                step,
                status,
                output,
            ),
            Message::ResetPassword => one(
                Effect::Start(Job::Reset(ResetJob::Begin(Secret::Password))),
            ),
            Message::ResetCredentials => one(
                Effect::Start(Job::Reset(ResetJob::Begin(Secret::Credentials))),
            ),
            Message::ResetResult(text) => {
                self.note(text.as_str());
                nothing()
            },
            Message::UninstallCondaEnvClick => self.on_remove_env(),
            Message::UninstallDeleteFolderClick => self.on_delete_folder(),
            Message::UninstallDeleteUserdataClick => self.on_delete_userdata(),
            Message::UninstallResult(text, ok) => self.on_uninstall_over(text, ok),
            Message::TroubleshootCheck => self.on_checks(),
            Message::TroubleshootResult(check, status) => self.on_check_made(check, status),
            Message::TroubleshootFix(check) => self.on_fix(check),
            Message::TroubleshootFixResult(check, text, ok) => self.on_fix_over(check, text, ok),
            _ => nothing(),
        }
    }

    fn update_service(&mut self, message: Message, facts: &Facts) -> (effects: Vec<Effect>)
        ensures
            final(self).deep_view() == service_turn(
                old(self).deep_view(),
                message.deep_view(),
                facts.deep_view(),
            ).0,
            effects.deep_view() == service_turn(
                old(self).deep_view(),
                message.deep_view(),
                facts.deep_view(),
            ).1,
    {
        proof {
            reveal(service_turn);
        }
        match message {
            Message::ServiceDetected(info) => self.on_service_detected(info, facts),
            Message::ServiceStart => self.on_service_start(),
            Message::ServiceStop => self.on_service_stop(),
            Message::ServiceRestart => self.on_service_restart(),
            Message::ServiceEnable => self.act(
                "Enabling sapphire.service (autostart at login)...",
                Action::Enable,
            ),
            Message::ServiceDisable => self.act(
                "Disabling sapphire.service autostart...",
                Action::Disable,
            ),
            Message::ServiceActionResult(text, ok) => self.on_service_acted(text, ok),
            Message::ServiceRefreshed(info) => self.on_service_refreshed(info),
            Message::SystemdChecked(there) => {
                self.systemd_available = there;
                nothing()
            },
            Message::ServiceInstall => {
                self.note("[service] Creating systemd --user unit...");
                one(
                    Effect::Start(
                        install_service(self.host.platform, self.install_path.clone()),
                    ),
                )
            },
            Message::ServiceInstallResult(text, ok) => self.on_service_installed(text, ok),
            Message::ServiceRemoveClick => self.on_remove_service(),
            Message::ServiceRemoveResult(text, ok) => self.on_service_removed(text, ok),
            Message::EnvLoaded(text) => one(Effect::SetEnv(text)),
            Message::EnvSaveRestart(text) => {
                self.note("[service] Saving environment, then restarting...");
                one(Effect::Start(Job::Service(ServiceJob::WriteEnv(text))))
            },
            Message::EnvSaved(ok) => self.on_env_saved(ok),
            _ => nothing(),
        }
    }

    /// Takes a message: the state changes, and what is to be done outside
    /// comes back.
    pub fn update(&mut self, message: Message, facts: &Facts) -> (effects: Vec<Effect>)
        ensures
            final(self).deep_view() == turned(
                old(self).deep_view(),
                message.deep_view(),
                facts.deep_view(),
            ).0,
            effects.deep_view() == turned(
                old(self).deep_view(),
                message.deep_view(),
                facts.deep_view(),
            ).1,
    {
        match message {
            Message::ScanClicked
            | Message::GoClicked
            | Message::StepResult(_, _)
            | Message::InstallStepResult(_, _, _)
            | Message::ResetPassword
            | Message::ResetCredentials
            | Message::ResetResult(_)
            | Message::UninstallCondaEnvClick
            | Message::UninstallDeleteFolderClick
            | Message::UninstallDeleteUserdataClick
            | Message::UninstallResult(_, _)
            | Message::TroubleshootCheck
            | Message::TroubleshootResult(_, _)
            | Message::TroubleshootFix(_)
            | Message::TroubleshootFixResult(_, _, _) => self.update_setup(message),
            Message::ServiceDetected(_)
            | Message::ServiceStart
            | Message::ServiceStop
            | Message::ServiceRestart
            | Message::ServiceEnable
            | Message::ServiceDisable
            | Message::ServiceActionResult(_, _)
            | Message::ServiceRefreshed(_)
            | Message::SystemdChecked(_)
            | Message::ServiceInstall
            | Message::ServiceInstallResult(_, _)
            | Message::ServiceRemoveClick
            | Message::ServiceRemoveResult(_, _)
            | Message::EnvLoaded(_)
            | Message::EnvSaveRestart(_)
            | Message::EnvSaved(_) => self.update_service(
                message,
                facts,
            ),
            _ => self.update_run(message, facts),
        }
    }
}

} // verus!

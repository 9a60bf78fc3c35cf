//! What holds of the launcher as a whole, whatever messages come.
pub mod checks;
pub mod files;
pub mod install;
pub mod machine;
pub mod seen;
pub mod service;
pub mod shown;
pub mod story;
pub mod text;
pub mod turns;
pub mod upkeep;

use crate::app::{down, first_effects, fresh, unarmed, AppModel, Busy, EffectModel, FactsModel};
use crate::ask::{run, NextModel, ReplyModel};
use crate::config::{
    law_saved_branch_is_loaded, law_saved_path_is_loaded, start_branch, start_path,
};
use crate::host::{health_cmd, HostModel};
use crate::job::JobModel;
use crate::launch::{
    branch_selected, check_updates, current_part, env_saved, exited, launched, lines_came,
    part_done, path_changed, prechecked, run_log_file, service_acted, service_detected,
    service_refreshed, service_restarted, service_started, service_stopped,
    service_was_installed, service_was_removed, stop_confirmed, stopping, switch_asked, switched,
    tab_selected, ticked, update_after_stop, update_asked, update_started, updates_known,
};
use crate::message::MessageModel;
use crate::output::OutputModel;
use crate::parts::{
    all_checks, all_set, all_steps, branch_or_stable, check_place, step_place, with_check,
    with_step, Branch, ServiceInfoModel, Step, StepStatusModel, Tab, TsCheck, TsStatusModel, RED,
};
use crate::scan::step_name;
use crate::service::{action_cmd, Action, ServiceJobModel, TaskJobModel, UnitJobModel};
use crate::setup::{
    all_found, check_made, checks_started, delete_folder_clicked, delete_userdata_clicked,
    fix_over, fix_started, install_job, install_started, kicked, next_missing, remove_env_clicked,
    scan_started, step_checked, step_installed, still_checking, uninstall_over, with_report,
};
use crate::text::{joined, tail_of};
use crate::turn::{noted, Turn};
use crate::update::{
    remove_service_clicked, run_log_written, run_turn, service_turn, setup_turn, turned,
};
use crate::upkeep::{up, wait_next, UpdateJobModel, WaitJobModel};
use crate::view::{header, running_tab, uninstall_tab};
use vstd::prelude::*;

verus! {

// ── The lines keep their places ──────────────────────────────────────────

/// Does `b` have the same steps, checks and parts of an update as `a`, in
/// the same places?
pub open spec fn same_lines(a: AppModel, b: AppModel) -> bool {
    &&& b.steps.len() == a.steps.len()
    &&& forall|i: int| 0 <= i < a.steps.len() ==> (#[trigger] b.steps[i]).0 == a.steps[i].0
    &&& b.ts_checks.len() == a.ts_checks.len()
    &&& forall|i: int|
        0 <= i < a.ts_checks.len() ==> (#[trigger] b.ts_checks[i]).0 == a.ts_checks[i].0
    &&& b.update_status.len() == a.update_status.len()
    &&& forall|i: int|
        0 <= i < a.update_status.len() ==> (#[trigger] b.update_status[i]).0
            == a.update_status[i].0
}

proof fn lemma_step_place(list: Seq<(Step, StepStatusModel)>, step: Step)
    ensures
        step_place(list, step) <= list.len(),
        step_place(list, step) < list.len() ==> list[step_place(list, step) as int].0 == step,
    decreases list.len(),
{
    if list.len() > 0 && list[0].0 != step {
        lemma_step_place(list.drop_first(), step);
    }
}

proof fn lemma_check_place(list: Seq<(TsCheck, TsStatusModel)>, check: TsCheck)
    ensures
        check_place(list, check) <= list.len(),
        check_place(list, check) < list.len() ==> list[check_place(list, check) as int].0 == check,
    decreases list.len(),
{
    if list.len() > 0 && list[0].0 != check {
        lemma_check_place(list.drop_first(), check);
    }
}

proof fn lemma_with_step(list: Seq<(Step, StepStatusModel)>, step: Step, status: StepStatusModel)
    ensures
        with_step(list, step, status).len() == list.len(),
        forall|i: int|
            0 <= i < list.len() ==> (#[trigger] with_step(list, step, status)[i]).0 == list[i].0,
{
    lemma_step_place(list, step);
}

proof fn lemma_with_check(list: Seq<(TsCheck, TsStatusModel)>, check: TsCheck, status: TsStatusModel)
    ensures
        with_check(list, check, status).len() == list.len(),
        forall|i: int|
            0 <= i < list.len() ==> (#[trigger] with_check(list, check, status)[i]).0 == list[i].0,
{
    lemma_check_place(list, check);
}

proof fn lemma_kicked(a: AppModel)
    ensures
        same_lines(a, kicked(a).0),
{
    reveal(kicked);
    match next_missing(a.steps) {
        None => {
            lemma_with_step(
                a.steps,
                Step::Done,
                StepStatusModel::Done("Sapphire is ready! Hit Launch."@),
            );
        },
        Some(step) => {
            lemma_with_step(a.steps, step, StepStatusModel::Installing);
        },
    }
}

proof fn lemma_setup_lines(a: AppModel, m: MessageModel)
    ensures
        same_lines(a, setup_turn(a, m).0),
{
    reveal(setup_turn);
    match m {
        MessageModel::ScanClicked => {
            reveal(scan_started);
            lemma_with_step(
                all_set(a.steps, StepStatusModel::Checking),
                Step::Done,
                StepStatusModel::NotStarted,
            );
        },
        MessageModel::GoClicked => {
            reveal(install_started);
            lemma_kicked(
                noted(
                    AppModel { busy: Busy { installing: true, ..a.busy }, ..a },
                    "Starting install..."@,
                ),
            );
        },
        MessageModel::StepResult(step, status) => {
            reveal(step_checked);
            lemma_with_step(a.steps, step, status);
            lemma_with_step(
                with_step(a.steps, step, status),
                Step::Done,
                StepStatusModel::Done("Sapphire looks ready! Hit Launch."@),
            );
        },
        MessageModel::InstallStepResult(step, status, output) => {
            reveal(step_installed);
            lemma_with_step(a.steps, step, status);
            let b = AppModel {
                steps: with_step(a.steps, step, status),
                ..noted(
                    AppModel {
                        log_lines: with_report(a.log_lines, output),
                        ..a
                    },
                    "[install] "@ + step_name(a.host.platform, step) + " — "@
                        + status.detail_text(),
                )
            };
            lemma_kicked(b);
        },
        MessageModel::UninstallCondaEnvClick => {
            reveal(remove_env_clicked);
        },
        MessageModel::UninstallDeleteFolderClick => {
            reveal(delete_folder_clicked);
        },
        MessageModel::UninstallDeleteUserdataClick => {
            reveal(delete_userdata_clicked);
        },
        MessageModel::UninstallResult(_, _) => {
            reveal(uninstall_over);
        },
        MessageModel::TroubleshootCheck => {
            reveal(checks_started);
        },
        MessageModel::TroubleshootResult(check, status) => {
            reveal(check_made);
            lemma_with_check(a.ts_checks, check, status);
        },
        MessageModel::TroubleshootFix(check) => {
            reveal(fix_started);
            lemma_with_check(a.ts_checks, check, TsStatusModel::Fixing);
        },
        MessageModel::TroubleshootFixResult(check, text, ok) => {
            reveal(fix_over);
            lemma_with_check(
                a.ts_checks,
                check,
                if ok {
                    TsStatusModel::Fixed(text)
                } else {
                    TsStatusModel::Problem(text)
                },
            );
        },
        _ => {},
    }
}

proof fn lemma_launch_lines(a: AppModel, f: FactsModel)
    ensures
        same_lines(a, launched(a, f).0),
{
    reveal(launched);
    reveal(service_started);
}

proof fn lemma_run_lines(a: AppModel, m: MessageModel, f: FactsModel)
    ensures
        same_lines(a, run_turn(a, m, f).0),
{
    reveal(run_turn);
    match m {
        MessageModel::Tick => {
            reveal(ticked);
        },
        MessageModel::PathChanged(_) => {
            reveal(path_changed);
        },
        MessageModel::BranchSelected(_) => {
            reveal(branch_selected);
        },
        MessageModel::Launch => {
            lemma_launch_lines(a, f);
        },
        MessageModel::StopSapphire => {
            reveal(stopping);
            reveal(service_stopped);
        },
        MessageModel::SwitchBranch => {
            reveal(switch_asked);
        },
        MessageModel::SwitchBranchResult(text, _) => {
            reveal(switched);
            lemma_launch_lines(
                noted(
                    AppModel {
                        sapphire: down(),
                        sapphire_log: Seq::empty(),
                        ..a
                    },
                    text,
                ),
                f,
            );
        },
        MessageModel::TabSelected(_) => {
            reveal(tab_selected);
            reveal(check_updates);
        },
        MessageModel::RunLogWritten(_) => {
            reveal(run_log_written);
        },
        MessageModel::LaunchPreCheck(_, _) => {
            reveal(prechecked);
        },
        MessageModel::SapphireLine(_) | MessageModel::SapphireLines(_) => {
            reveal(lines_came);
        },
        MessageModel::SapphireExited(_) => {
            reveal(exited);
        },
        MessageModel::SapphireStopConfirmed => {
            reveal(stop_confirmed);
        },
        MessageModel::CheckForUpdates => {
            reveal(check_updates);
        },
        MessageModel::UpdatesAvailable(_) => {
            reveal(updates_known);
        },
        MessageModel::UpdateClicked => {
            reveal(update_asked);
            reveal(update_started);
        },
        MessageModel::UpdateAfterStop => {
            reveal(update_after_stop);
            reveal(update_started);
        },
        MessageModel::UpdateStepDone(_, _) => {
            reveal(part_done);
        },
        _ => {},
    }
}

proof fn lemma_service_lines(a: AppModel, m: MessageModel, f: FactsModel)
    ensures
        same_lines(a, service_turn(a, m, f).0),
{
    reveal(service_turn);
    match m {
        MessageModel::ServiceDetected(_) => {
            reveal(service_detected);
        },
        MessageModel::ServiceStart => {
            reveal(service_started);
        },
        MessageModel::ServiceStop => {
            reveal(service_stopped);
        },
        MessageModel::ServiceRestart => {
            reveal(service_restarted);
        },
        MessageModel::ServiceActionResult(_, _) => {
            reveal(service_acted);
        },
        MessageModel::ServiceRefreshed(_) => {
            reveal(service_refreshed);
        },
        MessageModel::ServiceInstallResult(_, _) => {
            reveal(service_was_installed);
        },
        MessageModel::ServiceRemoveClick => {
            reveal(remove_service_clicked);
        },
        MessageModel::ServiceRemoveResult(_, _) => {
            reveal(service_was_removed);
        },
        MessageModel::EnvSaved(_) => {
            reveal(env_saved);
            reveal(service_restarted);
        },
        _ => {},
    }
}

/// Every message keeps the state well formed: whatever comes, each step,
/// each check and each part of an update has its line, in its place.
pub proof fn law_lines_keep_their_places(a: AppModel, m: MessageModel, f: FactsModel)
    requires
        a.wf(),
    ensures
        turned(a, m, f).0.wf(),
{
    lemma_setup_lines(a, m);
    lemma_run_lines(a, m, f);
    lemma_service_lines(a, m, f);
    let b = turned(a, m, f).0;
    assert(same_lines(a, b));
    assert forall|i: int| 0 <= i < all_steps().len() implies (#[trigger] b.steps[i]).0
        == all_steps()[i] by {
        assert(b.steps[i].0 == a.steps[i].0);
    }
    assert forall|i: int| 0 <= i < all_checks().len() implies (
    #[trigger] b.ts_checks[i]).0 == all_checks()[i] by {
        assert(b.ts_checks[i].0 == a.ts_checks[i].0);
    }
    assert(b.update_status[0].0 == a.update_status[0].0);
    assert(b.update_status[1].0 == a.update_status[1].0);
}

// ── What has which effect ────────────────────────────────────────────────

/// Is `m` the click on something that deletes, with its confirmation armed
/// in `a`?
pub open spec fn confirmed(a: AppModel, m: MessageModel) -> bool {
    match m {
        MessageModel::UninstallCondaEnvClick => a.armed.remove_env,
        MessageModel::UninstallDeleteFolderClick => a.armed.delete_folder,
        MessageModel::UninstallDeleteUserdataClick => a.armed.delete_userdata,
        MessageModel::ServiceRemoveClick => a.armed.remove_service,
        _ => false,
    }
}

/// Does an effect begin to remove the environment, the installation, the
/// user's data or the service? The resets of the password and of the API
/// keys, which each delete one file on one click, are not among these.
pub open spec fn deletes(e: EffectModel) -> bool {
    match e {
        EffectModel::Start(JobModel::Uninstall(_)) => true,
        EffectModel::Start(JobModel::Unit(UnitJobModel::Remove)) => true,
        EffectModel::Start(JobModel::Task(TaskJobModel::Remove)) => true,
        _ => false,
    }
}

/// May a message that turns `a` into `b` have an effect?
spec fn warranted(a: AppModel, m: MessageModel, b: AppModel, e: EffectModel) -> bool {
    &&& deletes(e) ==> confirmed(a, m)
    &&& match e {
        EffectModel::Start(JobModel::Update(UpdateJobModel::Pull(path))) => path
            == a.install_path && !b.sapphire.running && !b.sapphire.stopping,
        EffectModel::Start(JobModel::Update(UpdateJobModel::UpdateDeps(_))) => m matches
            MessageModel::UpdateStepDone(_, ok) && ok && current_part(a.update_status) == 0,
        EffectModel::Follow(path) => m == MessageModel::LaunchPreCheck(false, true)
            && a.service is None && path == a.install_path,
        EffectModel::Kill(list, forget) => {
            &&& a.service is Some ==> list == seq![action_cmd(Action::Stop)] && !forget
            &&& a.sapphire.running || a.sapphire.stopping || m is StopSapphire
        },
        _ => true,
    }
}

spec fn all_warranted(a: AppModel, m: MessageModel, t: Turn) -> bool {
    forall|i: int| 0 <= i < t.1.len() ==> warranted(a, m, t.0, #[trigger] t.1[i])
}

proof fn lemma_setup_effects(a: AppModel, m: MessageModel)
    ensures
        all_warranted(a, m, setup_turn(a, m)),
{
    reveal(setup_turn);
    match m {
        MessageModel::ScanClicked => {
            reveal(scan_started);
        },
        MessageModel::GoClicked => {
            reveal(install_started);
            reveal(kicked);
        },
        MessageModel::StepResult(_, _) => {
            reveal(step_checked);
        },
        MessageModel::InstallStepResult(_, _, _) => {
            reveal(step_installed);
            reveal(kicked);
        },
        MessageModel::UninstallCondaEnvClick => {
            reveal(remove_env_clicked);
        },
        MessageModel::UninstallDeleteFolderClick => {
            reveal(delete_folder_clicked);
        },
        MessageModel::UninstallDeleteUserdataClick => {
            reveal(delete_userdata_clicked);
        },
        MessageModel::UninstallResult(_, _) => {
            reveal(uninstall_over);
        },
        MessageModel::TroubleshootCheck => {
            reveal(checks_started);
        },
        MessageModel::TroubleshootResult(_, _) => {
            reveal(check_made);
        },
        MessageModel::TroubleshootFix(_) => {
            reveal(fix_started);
        },
        MessageModel::TroubleshootFixResult(_, _, _) => {
            reveal(fix_over);
        },
        _ => {},
    }
}

proof fn lemma_launch_effects(a: AppModel, f: FactsModel)
    ensures
        forall|i: int|
            0 <= i < launched(a, f).1.len() ==> (#[trigger] launched(a, f).1[i] matches
                EffectModel::Start(job) && (job is Wait || job is Service)),
{
    reveal(launched);
    reveal(service_started);
}

proof fn lemma_run_effects(a: AppModel, m: MessageModel, f: FactsModel)
    ensures
        all_warranted(a, m, run_turn(a, m, f)),
{
    reveal(run_turn);
    match m {
        MessageModel::Tick => {
            reveal(ticked);
        },
        MessageModel::PathChanged(_) => {
            reveal(path_changed);
        },
        MessageModel::BranchSelected(_) => {
            reveal(branch_selected);
        },
        MessageModel::Launch => {
            lemma_launch_effects(a, f);
        },
        MessageModel::StopSapphire => {
            reveal(stopping);
            reveal(service_stopped);
        },
        MessageModel::SwitchBranch => {
            reveal(switch_asked);
        },
        MessageModel::SwitchBranchResult(text, _) => {
            reveal(switched);
            lemma_launch_effects(
                noted(
                    AppModel { sapphire: down(), sapphire_log: Seq::empty(), ..a },
                    text,
                ),
                f,
            );
        },
        MessageModel::TabSelected(_) => {
            reveal(tab_selected);
            reveal(check_updates);
        },
        MessageModel::RunLogWritten(_) => {
            reveal(run_log_written);
        },
        MessageModel::LaunchPreCheck(_, _) => {
            reveal(prechecked);
        },
        MessageModel::SapphireLine(_) | MessageModel::SapphireLines(_) => {
            reveal(lines_came);
        },
        MessageModel::SapphireExited(_) => {
            reveal(exited);
        },
        MessageModel::SapphireStopConfirmed => {
            reveal(stop_confirmed);
        },
        MessageModel::CheckForUpdates => {
            reveal(check_updates);
        },
        MessageModel::UpdatesAvailable(_) => {
            reveal(updates_known);
        },
        MessageModel::UpdateClicked => {
            reveal(update_asked);
            reveal(update_started);
        },
        MessageModel::UpdateAfterStop => {
            reveal(update_after_stop);
            reveal(update_started);
        },
        MessageModel::UpdateStepDone(_, _) => {
            reveal(part_done);
        },
        _ => {},
    }
}

proof fn lemma_service_effects(a: AppModel, m: MessageModel, f: FactsModel)
    ensures
        all_warranted(a, m, service_turn(a, m, f)),
{
    reveal(service_turn);
    match m {
        MessageModel::ServiceDetected(_) => {
            reveal(service_detected);
        },
        MessageModel::ServiceStart => {
            reveal(service_started);
        },
        MessageModel::ServiceStop => {
            reveal(service_stopped);
        },
        MessageModel::ServiceRestart => {
            reveal(service_restarted);
        },
        MessageModel::ServiceActionResult(_, _) => {
            reveal(service_acted);
        },
        MessageModel::ServiceRefreshed(_) => {
            reveal(service_refreshed);
        },
        MessageModel::ServiceInstallResult(_, _) => {
            reveal(service_was_installed);
        },
        MessageModel::ServiceRemoveClick => {
            reveal(remove_service_clicked);
        },
        MessageModel::ServiceRemoveResult(_, _) => {
            reveal(service_was_removed);
        },
        MessageModel::EnvSaved(_) => {
            reveal(env_saved);
            reveal(service_restarted);
        },
        _ => {},
    }
}

proof fn lemma_effects(a: AppModel, m: MessageModel, f: FactsModel)
    ensures
        all_warranted(a, m, turned(a, m, f)),
{
    lemma_setup_effects(a, m);
    lemma_run_effects(a, m, f);
    lemma_service_effects(a, m, f);
}

/// The environment, the installation, the user's data and the service are
/// never removed on a first click: that comes only from the click on what
/// removes it, with its confirmation armed.
pub proof fn law_deleting_is_confirmed(a: AppModel, m: MessageModel, f: FactsModel, i: int)
    requires
        0 <= i < turned(a, m, f).1.len(),
        deletes(turned(a, m, f).1[i]),
    ensures
        confirmed(a, m),
{
    lemma_effects(a, m, f);
}

/// In service mode the unit is what runs Sapphire: no message starts a
/// process for it, and none stops it but through the unit.
pub proof fn law_service_mode_owns_sapphire(a: AppModel, m: MessageModel, f: FactsModel, i: int)
    requires
        a.service is Some,
        0 <= i < turned(a, m, f).1.len(),
    ensures
        turned(a, m, f).1[i] !is Follow,
        turned(a, m, f).1[i] matches EffectModel::Kill(list, forget) ==> list == seq![
            action_cmd(Action::Stop),
        ] && !forget,
{
    lemma_effects(a, m, f);
}

/// A process for Sapphire is started only after it was found not to be
/// running, at the user's wish, in the folder of the installation.
pub proof fn law_sapphire_is_started_once(a: AppModel, m: MessageModel, f: FactsModel, i: int)
    requires
        0 <= i < turned(a, m, f).1.len(),
        turned(a, m, f).1[i] is Follow,
    ensures
        m == MessageModel::LaunchPreCheck(false, true),
        turned(a, m, f).1[i] == EffectModel::Follow(a.install_path),
{
    lemma_effects(a, m, f);
}

/// A Sapphire that runs already is noticed at the start: the launcher asks,
/// and a healthy answer has it shown as running, with nothing started and no
/// other tab shown.
pub proof fn law_running_sapphire_is_noticed(a: AppModel, r: ReplyModel, f: FactsModel)
    requires
        a.service is None,
        up(r.full()),
    ensures
        first_effects(a).contains(
            EffectModel::Start(JobModel::Wait(WaitJobModel::PreCheck(false))),
        ),
        wait_next(WaitJobModel::PreCheck(false), ReplyModel::Begin) == run(
            health_cmd("3"@),
            WaitJobModel::PreChecked(false),
        ),
        wait_next(WaitJobModel::PreChecked(false), r) == NextModel::<WaitJobModel>::Finish(
            MessageModel::LaunchPreCheck(true, false),
        ),
        turned(a, MessageModel::LaunchPreCheck(true, false), f).0.sapphire.running,
        turned(a, MessageModel::LaunchPreCheck(true, false), f).0.active_tab == a.active_tab,
        turned(a, MessageModel::LaunchPreCheck(true, false), f).1.len() == 0,
{
    reveal(run_turn);
    reveal(prechecked);
    assert(first_effects(a)[3] == EffectModel::Start(
        JobModel::Wait(WaitJobModel::PreCheck(false)),
    ));
}

/// Changes are pulled only while Sapphire neither runs nor is being stopped.
pub proof fn law_update_waits_for_the_stop(a: AppModel, m: MessageModel, f: FactsModel, i: int)
    requires
        0 <= i < turned(a, m, f).1.len(),
        turned(a, m, f).1[i] matches EffectModel::Start(
            JobModel::Update(UpdateJobModel::Pull(_)),
        ),
    ensures
        !turned(a, m, f).0.sapphire.running,
        !turned(a, m, f).0.sapphire.stopping,
{
    lemma_effects(a, m, f);
}

/// The dependencies are brought up to date only after a pull that worked.
pub proof fn law_dependencies_follow_the_pull(a: AppModel, m: MessageModel, f: FactsModel, i: int)
    requires
        0 <= i < turned(a, m, f).1.len(),
        turned(a, m, f).1[i] matches EffectModel::Start(
            JobModel::Update(UpdateJobModel::UpdateDeps(_)),
        ),
    ensures
        m matches MessageModel::UpdateStepDone(_, ok) && ok,
        current_part(a.update_status) == 0,
{
    lemma_effects(a, m, f);
}

// ── Confirmations ────────────────────────────────────────────────────────

/// `b` is armed only where `a` is, or where `m` is the first click.
spec fn armed_by(a: AppModel, m: MessageModel, b: AppModel) -> bool {
    &&& b.armed.remove_env ==> a.armed.remove_env || m is UninstallCondaEnvClick
    &&& b.armed.delete_folder ==> a.armed.delete_folder || m is UninstallDeleteFolderClick
    &&& b.armed.delete_userdata ==> a.armed.delete_userdata || m is UninstallDeleteUserdataClick
    &&& b.armed.remove_service ==> a.armed.remove_service || m is ServiceRemoveClick
}

proof fn lemma_launch_arms(a: AppModel, f: FactsModel)
    ensures
        launched(a, f).0.armed == a.armed,
{
    reveal(launched);
    reveal(service_started);
}

proof fn lemma_run_arms(a: AppModel, m: MessageModel, f: FactsModel)
    ensures
        armed_by(a, m, run_turn(a, m, f).0),
{
    reveal(run_turn);
    match m {
        MessageModel::Tick => {
            reveal(ticked);
        },
        MessageModel::PathChanged(_) => {
            reveal(path_changed);
        },
        MessageModel::BranchSelected(_) => {
            reveal(branch_selected);
        },
        MessageModel::Launch => {
            lemma_launch_arms(a, f);
        },
        MessageModel::StopSapphire => {
            reveal(stopping);
            reveal(service_stopped);
        },
        MessageModel::SwitchBranch => {
            reveal(switch_asked);
        },
        MessageModel::SwitchBranchResult(text, _) => {
            reveal(switched);
            lemma_launch_arms(
                noted(
                    AppModel { sapphire: down(), sapphire_log: Seq::empty(), ..a },
                    text,
                ),
                f,
            );
        },
        MessageModel::TabSelected(_) => {
            reveal(tab_selected);
            reveal(check_updates);
        },
        MessageModel::RunLogWritten(_) => {
            reveal(run_log_written);
        },
        MessageModel::LaunchPreCheck(_, _) => {
            reveal(prechecked);
        },
        MessageModel::SapphireLine(_) | MessageModel::SapphireLines(_) => {
            reveal(lines_came);
        },
        MessageModel::SapphireExited(_) => {
            reveal(exited);
        },
        MessageModel::SapphireStopConfirmed => {
            reveal(stop_confirmed);
        },
        MessageModel::CheckForUpdates => {
            reveal(check_updates);
        },
        MessageModel::UpdatesAvailable(_) => {
            reveal(updates_known);
        },
        MessageModel::UpdateClicked => {
            reveal(update_asked);
            reveal(update_started);
        },
        MessageModel::UpdateAfterStop => {
            reveal(update_after_stop);
            reveal(update_started);
        },
        MessageModel::UpdateStepDone(_, _) => {
            reveal(part_done);
        },
        _ => {},
    }
}

proof fn lemma_setup_arms(a: AppModel, m: MessageModel)
    ensures
        armed_by(a, m, setup_turn(a, m).0),
{
    reveal(setup_turn);
    reveal(scan_started);
    reveal(install_started);
    reveal(kicked);
    reveal(step_checked);
    reveal(step_installed);
    reveal(remove_env_clicked);
    reveal(delete_folder_clicked);
    reveal(delete_userdata_clicked);
    reveal(uninstall_over);
    reveal(checks_started);
    reveal(check_made);
    reveal(fix_started);
    reveal(fix_over);
}

proof fn lemma_service_arms(a: AppModel, m: MessageModel, f: FactsModel)
    ensures
        armed_by(a, m, service_turn(a, m, f).0),
{
    reveal(service_turn);
    reveal(service_detected);
    reveal(service_started);
    reveal(service_stopped);
    reveal(service_restarted);
    reveal(service_acted);
    reveal(service_refreshed);
    reveal(service_was_installed);
    reveal(service_was_removed);
    reveal(remove_service_clicked);
    reveal(env_saved);
}

/// Only its own click arms a confirmation, and that click has no effect
/// outside: it has to be clicked a second time.
pub proof fn law_first_click_only_arms(a: AppModel, m: MessageModel, f: FactsModel)
    ensures
        ({
            let (b, effects) = turned(a, m, f);
            &&& b.armed.remove_env && !a.armed.remove_env ==> m is UninstallCondaEnvClick
                && effects.len() == 0
            &&& b.armed.delete_folder && !a.armed.delete_folder ==> m is UninstallDeleteFolderClick
                && effects.len() == 0
            &&& b.armed.delete_userdata && !a.armed.delete_userdata ==> m
                is UninstallDeleteUserdataClick && effects.len() == 0
            &&& b.armed.remove_service && !a.armed.remove_service ==> m is ServiceRemoveClick
                && effects.len() == 0
        }),
{
    lemma_run_arms(a, m, f);
    lemma_setup_arms(a, m);
    lemma_service_arms(a, m, f);
    reveal(setup_turn);
    reveal(service_turn);
    reveal(remove_env_clicked);
    reveal(delete_folder_clicked);
    reveal(delete_userdata_clicked);
    reveal(remove_service_clicked);
}

/// At the start, and whenever a tab is selected, no confirmation is armed.
pub proof fn law_selecting_a_tab_disarms(
    a: AppModel,
    tab: Tab,
    f: FactsModel,
    h: HostModel,
    path: Seq<char>,
    b: Branch,
)
    ensures
        turned(a, MessageModel::TabSelected(tab), f).0.armed == unarmed(),
        fresh(h, path, b).armed == unarmed(),
{
    reveal(run_turn);
    reveal(tab_selected);
    reveal(check_updates);
}

// ── Branch switches ──────────────────────────────────────────────────────

/// A Sapphire that runs when a branch is selected is started again once the
/// switch is over, whether the switch worked or not: through the service
/// where there is one, else by the same way as a launch, which needs a
/// `main.py` on the branch.
pub proof fn law_switch_restarts_sapphire(
    a: AppModel,
    b: Branch,
    f: FactsModel,
    text: Seq<char>,
    ok: bool,
    g: FactsModel,
)
    requires
        a.sapphire.running,
        !a.sapphire.stopping,
        f.repo,
    ensures
        ({
            let during = turned(a, MessageModel::BranchSelected(b), f).0;
            let effects = turned(during, MessageModel::SwitchBranchResult(text, ok), g).1;
            &&& during.sapphire.stopping
            &&& a.service is Some ==> effects == seq![
                EffectModel::Start(JobModel::Service(ServiceJobModel::Act(Action::Start))),
            ]
            &&& a.service is None && g.main_py ==> effects == seq![
                EffectModel::Start(JobModel::Wait(WaitJobModel::PreCheck(true))),
            ]
        }),
{
    reveal(run_turn);
    reveal(branch_selected);
    reveal(switched);
    reveal(launched);
    reveal(service_started);
}

/// A Sapphire that did not run when a branch was selected is not started by
/// the switch.
pub proof fn law_switch_starts_nothing_new(
    a: AppModel,
    b: Branch,
    f: FactsModel,
    text: Seq<char>,
    ok: bool,
    g: FactsModel,
)
    requires
        !a.sapphire.running,
        !a.sapphire.restart,
    ensures
        turned(
            turned(a, MessageModel::BranchSelected(b), f).0,
            MessageModel::SwitchBranchResult(text, ok),
            g,
        ).1.len() == 0,
{
    reveal(run_turn);
    reveal(branch_selected);
    reveal(switched);
}

/// A Stop during a branch switch is heeded: Sapphire is not started again
/// when the switch is over.
pub proof fn law_stop_outlasts_the_switch(
    a: AppModel,
    m: MessageModel,
    f: FactsModel,
    text: Seq<char>,
    ok: bool,
    g: FactsModel,
)
    requires
        m is StopSapphire || m is ServiceStop,
    ensures
        turned(
            turned(a, m, f).0,
            MessageModel::SwitchBranchResult(text, ok),
            g,
        ).1.len() == 0,
{
    reveal(run_turn);
    reveal(service_turn);
    reveal(stopping);
    reveal(service_stopped);
    reveal(switched);
}

// ── The service's journal ────────────────────────────────────────────────

/// A service that is stopped is not followed, and one that is started or
/// restarted is followed anew: its follower is never the one from before.
pub proof fn law_service_is_followed_anew(a: AppModel, f: FactsModel)
    ensures
        turned(a, MessageModel::ServiceStop, f).0.follower() is None,
        turned(a, MessageModel::ServiceStart, f).0.follower() matches Some(e) && e
            != a.journal.epoch,
        turned(a, MessageModel::ServiceRestart, f).0.follower() matches Some(e) && e
            != a.journal.epoch,
        turned(a, MessageModel::EnvSaved(true), f).0.follower() matches Some(e) && e
            != a.journal.epoch,
{
    reveal(service_turn);
    reveal(service_stopped);
    reveal(service_started);
    reveal(service_restarted);
    reveal(env_saved);
}

// ── Logs and settings ────────────────────────────────────────────────────

/// However much Sapphire prints, the run log keeps its last two thousand
/// lines and no more: the newest lines are there, in their order.
pub proof fn law_run_log_is_bounded(a: AppModel, list: Seq<Seq<char>>, f: FactsModel)
    ensures
        ({
            let log = turned(a, MessageModel::SapphireLines(list), f).0.sapphire_log;
            &&& log.len() <= 2000
            &&& log.len() == 2000 || log == a.sapphire_log + list
            &&& forall|i: int|
                0 < i <= list.len() && i <= 2000 ==> #[trigger] log[log.len() - i]
                    == list[list.len() - i]
        }),
{
    reveal(run_turn);
    reveal(lines_came);
}

/// What is copied or opened is the whole run log, though only its end is
/// shown.
pub proof fn law_copied_log_is_whole(a: AppModel, f: FactsModel)
    ensures
        turned(a, MessageModel::CopyRunLog, f).1 == seq![
            EffectModel::Copy(joined(a.sapphire_log, "\n"@)),
        ],
        turned(a, MessageModel::OpenRunLog, f).1 == seq![
            EffectModel::WriteRunLog(run_log_file(a.host), joined(a.sapphire_log, "\n"@)),
        ],
        a.sapphire_log.len() > 0 ==> running_tab(a).log == joined(
            tail_of(a.sapphire_log, 800),
            "\n"@,
        ),
{
    reveal(run_turn);
}

/// The launcher log keeps its last thousand lines when an installation
/// prints into it.
pub proof fn law_install_output_is_bounded(a: AppModel, f: FactsModel)
    requires
        f.output.len() > 0,
    ensures
        turned(a, MessageModel::Tick, f).0.log_lines.len() <= 1000,
{
    reveal(run_turn);
    reveal(ticked);
}

/// A folder that was chosen is the installation of the next session: what
/// is written to the settings file names it when it is read again.
pub proof fn law_chosen_folder_is_remembered(
    a: AppModel,
    path: Seq<char>,
    f: FactsModel,
    fallback: Seq<char>,
)
    requires
        path.len() > 0,
    ensures
        turned(a, MessageModel::PathChanged(path), f).0.install_path == path,
        turned(a, MessageModel::PathChanged(path), f).1.len() == 1,
        turned(a, MessageModel::PathChanged(path), f).1[0] matches EffectModel::SaveConfig(content)
            && start_path(Some(content), fallback) == path,
{
    reveal(run_turn);
    reveal(path_changed);
    law_saved_path_is_loaded(path, branch_or_stable(a.selected_branch), fallback);
}

/// A branch that was chosen before there is a repository is the branch of
/// the next session.
pub proof fn law_chosen_branch_is_remembered(
    a: AppModel,
    b: Branch,
    f: FactsModel,
    head: Option<OutputModel>,
)
    requires
        !f.repo,
    ensures
        turned(a, MessageModel::BranchSelected(b), f).0.selected_branch == Some(b),
        turned(a, MessageModel::BranchSelected(b), f).1.len() == 1,
        turned(a, MessageModel::BranchSelected(b), f).1[0] matches EffectModel::SaveConfig(content)
            && start_branch(Some(content), false, head) == b,
{
    reveal(run_turn);
    reveal(branch_selected);
    law_saved_branch_is_loaded(a.install_path, b, head);
}

/// A service does not take over an installation that is there: the folder
/// that is known stays, unless it holds no Sapphire and the service's folder
/// does.
pub proof fn law_known_install_is_kept(
    a: AppModel,
    info: Option<ServiceInfoModel>,
    f: FactsModel,
)
    ensures
        ({
            let b = turned(a, MessageModel::ServiceDetected(info), f).0;
            &&& f.main_py ==> b.install_path == a.install_path && b.selected_branch
                == a.selected_branch
            &&& b.install_path != a.install_path ==> f.service_main_py
        }),
{
    reveal(service_turn);
    reveal(service_detected);
}

// ── Scanning and installing ──────────────────────────────────────────────

/// The result of the last check that was open ends the scan, and if every
/// step was found Sapphire is said to be ready.
pub proof fn law_last_result_ends_the_scan(
    a: AppModel,
    step: Step,
    status: StepStatusModel,
    f: FactsModel,
)
    requires
        a.wf(),
        status != StepStatusModel::Checking,
        forall|i: int|
            0 <= i < a.steps.len() && (#[trigger] a.steps[i]).1 == StepStatusModel::Checking
                ==> a.steps[i].0 == step,
    ensures
        ({
            let b = turned(a, MessageModel::StepResult(step, status), f).0;
            &&& !b.busy.scanning
            &&& all_found(with_step(a.steps, step, status)) ==> b.steps[6].1 is Done
        }),
{
    reveal(setup_turn);
    reveal(step_checked);
    let steps = with_step(a.steps, step, status);
    lemma_distinct(a);
    lemma_step_place(a.steps, step);
    lemma_place_of(a.steps, step);
    assert forall|i: int|
        0 <= i < steps.len() && (#[trigger] steps[i]).0 != Step::Done implies steps[i].1
        != StepStatusModel::Checking by {
        if i != step_place(a.steps, step) {
            assert(steps[i] == a.steps[i]);
        }
    }
    assert(!still_checking(steps));
    if all_found(steps) {
        lemma_with_step(a.steps, step, status);
        assert(steps[6].0 == Step::Done);
        let ready = StepStatusModel::Done("Sapphire looks ready! Hit Launch."@);
        lemma_with_step(steps, Step::Done, ready);
        lemma_step_place(steps, Step::Done);
        lemma_place_of(steps, Step::Done);
    }
}

/// How many steps, apart from the last, were not found.
pub open spec fn missing_count(steps: Seq<(Step, StepStatusModel)>) -> nat
    decreases steps.len(),
{
    if steps.len() == 0 {
        0
    } else {
        missing_count(steps.drop_first()) + if steps[0].0 != Step::Done && steps[0].1
            is NotFound {
            1nat
        } else {
            0nat
        }
    }
}

spec fn distinct(steps: Seq<(Step, StepStatusModel)>) -> bool {
    forall|i: int, j: int|
        0 <= i < j < steps.len() ==> (#[trigger] steps[i]).0 != (#[trigger] steps[j]).0
}

proof fn lemma_distinct(a: AppModel)
    requires
        a.wf(),
    ensures
        distinct(a.steps),
{
    assert forall|i: int, j: int| 0 <= i < j < a.steps.len() implies (#[trigger] a.steps[i]).0 != (
    #[trigger] a.steps[j]).0 by {
        assert(a.steps[i].0 == all_steps()[i]);
        assert(a.steps[j].0 == all_steps()[j]);
    }
}

/// In a list without the same step twice, a step is where it was found.
proof fn lemma_place_of(list: Seq<(Step, StepStatusModel)>, step: Step)
    ensures
        forall|i: int|
            0 <= i < list.len() && (#[trigger] list[i]).0 == step ==> step_place(list, step) <= i,
    decreases list.len(),
{
    if list.len() > 0 && list[0].0 != step {
        lemma_place_of(list.drop_first(), step);
        assert forall|i: int| 0 <= i < list.len() && (#[trigger] list[i]).0 == step implies
            step_place(list, step) <= i by {
            assert(list.drop_first()[i - 1] == list[i]);
        }
    }
}

proof fn lemma_next_missing_is_there(steps: Seq<(Step, StepStatusModel)>, step: Step)
    requires
        next_missing(steps) == Some(step),
    ensures
        step != Step::Done,
        exists|i: int|
            0 <= i < steps.len() && (#[trigger] steps[i]).0 == step && steps[i].1 is NotFound,
    decreases steps.len(),
{
    if steps[0].0 != Step::Done && steps[0].1 is NotFound {
        assert(steps[0].0 == step);
    } else {
        lemma_next_missing_is_there(steps.drop_first(), step);
        let i = choose|i: int|
            0 <= i < steps.drop_first().len() && (#[trigger] steps.drop_first()[i]).0 == step
                && steps.drop_first()[i].1 is NotFound;
        assert(steps[i + 1].0 == step);
    }
}

proof fn lemma_count_with_step(
    steps: Seq<(Step, StepStatusModel)>,
    step: Step,
    status: StepStatusModel,
)
    requires
        distinct(steps),
        status !is NotFound,
    ensures
        missing_count(with_step(steps, step, status)) <= missing_count(steps),
        next_missing(steps) == Some(step) ==> missing_count(with_step(steps, step, status)) + 1
            == missing_count(steps),
    decreases steps.len(),
{
    if steps.len() > 0 {
        let rest = steps.drop_first();
        assert forall|i: int, j: int| 0 <= i < j < rest.len() implies (#[trigger] rest[i]).0 != (
        #[trigger] rest[j]).0 by {
            assert(rest[i] == steps[i + 1]);
            assert(rest[j] == steps[j + 1]);
        }
        lemma_count_with_step(rest, step, status);
        let after = with_step(steps, step, status);
        if steps[0].0 == step {
            assert(after.drop_first() =~= rest);
            if next_missing(steps) == Some(step) && !(steps[0].1 is NotFound) {
                lemma_next_missing_is_there(rest, step);
                let i = choose|i: int|
                    0 <= i < rest.len() && (#[trigger] rest[i]).0 == step
                        && rest[i].1 is NotFound;
                assert(steps[i + 1].0 == step);
                assert(steps[0].0 != steps[i + 1].0);
            }
            if next_missing(steps) == Some(step) {
                assert(step != Step::Done) by {
                    lemma_next_missing_is_there(steps, step);
                }
            }
        } else {
            lemma_step_place(rest, step);
            assert(after.drop_first() =~= with_step(rest, step, status));
            assert(after[0] == steps[0]);
        }
    }
}

/// The installation goes on to the first step that is missing and starts
/// exactly its job; that leaves one step fewer to do.
pub proof fn law_install_takes_the_next_step(a: AppModel, step: Step)
    requires
        a.wf(),
        next_missing(a.steps) == Some(step),
    ensures
        step != Step::Done,
        kicked(a).1 == install_job(a, step),
        kicked(a).1.len() == 1,
        missing_count(kicked(a).0.steps) + 1 == missing_count(a.steps),
{
    reveal(kicked);
    lemma_distinct(a);
    lemma_next_missing_is_there(a.steps, step);
    lemma_count_with_step(a.steps, step, StepStatusModel::Installing);
}

/// An installation comes to its end: each result that starts another job
/// leaves fewer steps to do, and a failure starts none.
pub proof fn law_install_ends(
    a: AppModel,
    step: Step,
    status: StepStatusModel,
    output: Seq<char>,
    f: FactsModel,
)
    requires
        a.wf(),
        status !is NotFound,
    ensures
        ({
            let (b, effects) = turned(
                a,
                MessageModel::InstallStepResult(step, status, output),
                f,
            );
            &&& status is Failed ==> effects.len() == 0 && !b.busy.installing
            &&& effects.len() == 0 ==> !b.busy.installing
            &&& effects.len() > 0 ==> missing_count(b.steps) < missing_count(a.steps)
        }),
{
    reveal(setup_turn);
    reveal(step_installed);
    lemma_distinct(a);
    lemma_count_with_step(a.steps, step, status);
    lemma_with_step(a.steps, step, status);
    let b = AppModel {
        steps: with_step(a.steps, step, status),
        ..noted(
            AppModel { log_lines: with_report(a.log_lines, output), ..a },
            "[install] "@ + step_name(a.host.platform, step) + " — "@ + status.detail_text(),
        )
    };
    if !(status is Failed) {
        assert forall|i: int| 0 <= i < all_steps().len() implies (#[trigger] b.steps[i]).0
            == all_steps()[i] by {
            assert(b.steps[i].0 == a.steps[i].0);
        }
        assert(b.wf());
        match next_missing(b.steps) {
            Some(next) => {
                law_install_takes_the_next_step(b, next);
            },
            None => {},
        }
        reveal(kicked);
    }
}

// ── What is shown ────────────────────────────────────────────────────────

/// A first click on something that deletes makes its card warn in red, and
/// only then does a card warn.
pub proof fn law_first_click_shows_a_warning(a: AppModel, f: FactsModel)
    ensures
        ({
            let env = turned(a, MessageModel::UninstallCondaEnvClick, f).0;
            let data = turned(a, MessageModel::UninstallDeleteUserdataClick, f).0;
            let folder = turned(a, MessageModel::UninstallDeleteFolderClick, f).0;
            &&& uninstall_tab(env).dangers[0].note.color == RED <==> !a.armed.remove_env
            &&& uninstall_tab(data).dangers[1].note.color == RED <==> !a.armed.delete_userdata
            &&& uninstall_tab(folder).dangers[2].note.color == RED <==> !a.armed.delete_folder
        }),
{
    reveal(setup_turn);
    reveal(remove_env_clicked);
    reveal(delete_userdata_clicked);
    reveal(delete_folder_clicked);
}

/// The header has a badge exactly when the last look for updates found some.
pub proof fn law_badge_tells_of_updates(
    a: AppModel,
    count: Option<u32>,
    f: FactsModel,
    main_py: bool,
    there: bool,
)
    ensures
        header(turned(a, MessageModel::UpdatesAvailable(count), f).0, main_py, there).badge is Some
            <==> (count matches Some(n) && n > 0),
{
    reveal(run_turn);
    reveal(updates_known);
}

/// A Launch button that is offered is never refused for a Sapphire that runs
/// already: it is offered only while none runs or is being stopped.
pub proof fn law_offered_launch_is_taken(a: AppModel, main_py: bool, there: bool, i: int)
    requires
        0 <= i < header(a, main_py, there).buttons.len(),
        header(a, main_py, there).buttons[i].sends == Some(MessageModel::Launch),
    ensures
        !a.sapphire.running,
        !a.sapphire.stopping,
{
}

} // verus!

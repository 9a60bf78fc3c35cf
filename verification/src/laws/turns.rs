//! What each click and each piece of news does to the launcher.
use super::story::in_repository;
use crate::app::{down, AppModel, Armed, Busy, EffectModel, FactsModel, Run};
use crate::config::config_content;
use crate::host::{kill_cmds, Platform};
use crate::install::InstallJobModel;
use crate::job::JobModel;
use crate::launch::{
    branch_selected, check_updates, current_part, env_saved, exited, launched, lines_came,
    part_done, path_changed, prechecked, service_acted, service_detected, service_refreshed,
    service_restarted, service_started, service_stopped, service_was_installed, service_was_removed,
    stop_confirmed, stopping, switch_asked, switched, tab_selected, ticked, update_after_stop,
    update_asked, update_started, updates_known,
};
use crate::message::{browsed, MessageModel};
use crate::parts::{
    all_checks, all_steps, check_name, check_place, step_place, with_step, Branch, CmdModel,
    ProgramModel, ServiceInfoModel, Step, StepStatusModel, Tab, TsCheck, TsStatusModel,
};
use crate::scan::{step_name, ScanJobModel};
use crate::service::{Action, ServiceJobModel, TaskJobModel, UnitJobModel};
use crate::setup::{
    all_found, check_made, checks_open, checks_started, delete_folder_clicked,
    delete_userdata_clicked, fix_over, fix_started, install_started, kicked, next_missing,
    remove_env_clicked, scan_started, step_checked, step_installed, still_checking, uninstall_over,
};
use crate::text::{joined, lines};
use crate::troubleshoot::TsJobModel;
use crate::turn::noted;
use crate::update::{
    remove_service_clicked, run_log_written, run_turn, service_turn, setup_turn, turned,
};
use crate::upkeep::{
    AfterStop, ResetJobModel, Secret, UninstallJobModel, UpdateJobModel, WaitJobModel,
};
use vstd::prelude::*;

verus! {

/// The effects that start one job and do nothing else.
pub open spec fn starts(job: JobModel) -> Seq<EffectModel> {
    seq![EffectModel::Start(job)]
}

/// The branch that counts: the one that was chosen, or else the stable one.
pub open spec fn chosen(a: AppModel) -> Branch {
    if a.selected_branch == Some(Branch::Development) {
        Branch::Development
    } else {
        Branch::Stable
    }
}

/// The effect that stops Sapphire: the unit is stopped where there is one,
/// else the processes are ended, with the one that was started.
pub open spec fn killing(a: AppModel, f: FactsModel) -> EffectModel {
    if a.service is Some {
        EffectModel::Kill(
            seq![
                CmdModel {
                    program: ProgramModel::Named("systemctl"@),
                    args: seq!["--user"@, "stop"@, "sapphire"@],
                },
            ],
            false,
        )
    } else {
        EffectModel::Kill(kill_cmds(a.host.platform, f.pid), f.pid > 0)
    }
}

// ── The scan ─────────────────────────────────────────────────────────────

/// In the list of a well-formed state each step stands in its place.
proof fn lemma_places(list: Seq<(Step, StepStatusModel)>, k: int)
    requires
        list.len() == 7,
        forall|i: int| 0 <= i < 7 ==> (#[trigger] list[i]).0 == all_steps()[i],
        0 <= k < 7,
    ensures
        step_place(list, all_steps()[k]) == k,
{
    lemma_step_at(list, all_steps()[k], k);
}

proof fn lemma_step_at(list: Seq<(Step, StepStatusModel)>, step: Step, k: int)
    requires
        0 <= k < list.len(),
        list[k].0 == step,
        forall|i: int| 0 <= i < k ==> (#[trigger] list[i]).0 != step,
    ensures
        step_place(list, step) == k,
    decreases k,
{
    if k > 0 {
        let t = list.drop_first();
        assert(list[0].0 != step);
        assert forall|i: int| 0 <= i < k - 1 implies (#[trigger] t[i]).0 != step by {
            assert(t[i] == list[i + 1]);
        }
        lemma_step_at(t, step, k - 1);
    }
}

proof fn lemma_check_at(list: Seq<(TsCheck, TsStatusModel)>, check: TsCheck, k: int)
    requires
        0 <= k < list.len(),
        list[k].0 == check,
        forall|i: int| 0 <= i < k ==> (#[trigger] list[i]).0 != check,
    ensures
        check_place(list, check) == k,
    decreases k,
{
    if k > 0 {
        let t = list.drop_first();
        assert(list[0].0 != check);
        assert forall|i: int| 0 <= i < k - 1 implies (#[trigger] t[i]).0 != check by {
            assert(t[i] == list[i + 1]);
        }
        lemma_check_at(t, check, k - 1);
    }
}

proof fn lemma_steps_of(a: AppModel)
    requires
        a.wf(),
    ensures
        a.steps.len() == 7,
        a.steps[0].0 == Step::Git,
        a.steps[1].0 == Step::Conda,
        a.steps[2].0 == Step::CondaInit,
        a.steps[3].0 == Step::PythonEnv,
        a.steps[4].0 == Step::Clone,
        a.steps[5].0 == Step::Deps,
        a.steps[6].0 == Step::Done,
        forall|i: int| 0 <= i < 7 ==> (#[trigger] a.steps[i]).0 == all_steps()[i],
{
    assert(all_steps()[0] == Step::Git);
    assert(a.steps[0].0 == all_steps()[0]);
    assert(a.steps[1].0 == all_steps()[1]);
    assert(a.steps[2].0 == all_steps()[2]);
    assert(a.steps[3].0 == all_steps()[3]);
    assert(a.steps[4].0 == all_steps()[4]);
    assert(a.steps[5].0 == all_steps()[5]);
    assert(a.steps[6].0 == all_steps()[6]);
}

/// A scan looks at each step, in the folder that was chosen, and until the
/// results come each step is shown as being checked, but for the last.
pub proof fn law_scan_looks_at_every_step(a: AppModel, f: FactsModel)
    requires
        a.wf(),
    ensures
        ({
            let (b, effects) = turned(a, MessageModel::ScanClicked, f);
            &&& effects == seq![
                EffectModel::Start(JobModel::Scan(ScanJobModel::Git)),
                EffectModel::Start(JobModel::Scan(ScanJobModel::Conda)),
                EffectModel::Start(JobModel::Scan(ScanJobModel::CondaInit)),
                EffectModel::Start(JobModel::Scan(ScanJobModel::PythonEnv)),
                EffectModel::Start(JobModel::Scan(ScanJobModel::Clone(a.install_path))),
                EffectModel::Start(JobModel::Scan(ScanJobModel::Deps(a.install_path))),
            ]
            &&& b.busy == Busy { scanning: true, ..a.busy }
            &&& forall|i: int|
                0 <= i < 6 ==> (#[trigger] b.steps[i]) == (
                    a.steps[i].0,
                    StepStatusModel::Checking,
                )
            &&& b.steps[6].1 == StepStatusModel::NotStarted
        }),
{
    reveal(setup_turn);
    reveal(scan_started);
    lemma_steps_of(a);
    let all = crate::parts::all_set(a.steps, StepStatusModel::Checking);
    lemma_step_at(all, Step::Done, 6);
}

/// What a check of the scan found is what its step shows, and the other steps
/// keep what they show; nothing is started by it. The scan goes on exactly as
/// long as another step is being checked.
pub proof fn law_result_of_a_check_is_shown(
    a: AppModel,
    k: int,
    status: StepStatusModel,
    f: FactsModel,
)
    requires
        a.wf(),
        0 <= k < 6,
        status != StepStatusModel::Checking,
    ensures
        ({
            let (b, effects) = turned(
                a,
                MessageModel::StepResult(a.steps[k].0, status),
                f,
            );
            &&& effects.len() == 0
            &&& b.steps[k] == (a.steps[k].0, status)
            &&& forall|i: int| 0 <= i < 6 && i != k ==> #[trigger] b.steps[i] == a.steps[i]
            &&& b.busy == Busy {
                scanning: a.busy.scanning && exists|i: int|
                    0 <= i < 6 && i != k && (#[trigger] a.steps[i]).1 == StepStatusModel::Checking,
                ..a.busy
            }
            &&& b.steps[6] != a.steps[6] ==> forall|i: int|
                0 <= i < 6 ==> (#[trigger] b.steps[i]).1 is Found
            &&& (forall|i: int| 0 <= i < 6 ==> (#[trigger] b.steps[i]).1 is Found) ==> b.steps[6].1
                is Done
        }),
{
    reveal(setup_turn);
    reveal(step_checked);
    lemma_steps_of(a);
    let step = a.steps[k].0;
    lemma_places(a.steps, k);
    let steps = with_step(a.steps, step, status);
    assert(steps == a.steps.update(k, (step, status)));
    assert forall|i: int| 0 <= i < 7 implies (#[trigger] steps[i]).0 == all_steps()[i] by {
        assert(a.steps[i].0 == all_steps()[i]);
    }
    lemma_places(steps, 6);
    assert(still_checking(steps) <==> exists|i: int|
        0 <= i < 6 && i != k && (#[trigger] a.steps[i]).1 == StepStatusModel::Checking) by {
        if still_checking(steps) {
            let i = choose|i: int|
                0 <= i < steps.len() && (#[trigger] steps[i]).0 != Step::Done && steps[i].1
                    == StepStatusModel::Checking;
            assert(i != 6 && i != k);
            assert(a.steps[i].1 == StepStatusModel::Checking);
        }
        if exists|i: int|
            0 <= i < 6 && i != k && (#[trigger] a.steps[i]).1 == StepStatusModel::Checking {
            let i = choose|i: int|
                0 <= i < 6 && i != k && (#[trigger] a.steps[i]).1 == StepStatusModel::Checking;
            assert(steps[i].1 == StepStatusModel::Checking);
            assert(steps[i].0 == all_steps()[i]);
        }
    }
    assert(all_found(steps) <==> forall|i: int| 0 <= i < 6 ==> (#[trigger] steps[i]).1 is Found) by {
        if all_found(steps) {
            assert forall|i: int| 0 <= i < 6 implies (#[trigger] steps[i]).1 is Found by {
                assert(steps[i].0 == all_steps()[i]);
            }
        }
    }
    let b = turned(a, MessageModel::StepResult(step, status), f).0;
    if !still_checking(steps) && all_found(steps) {
        assert forall|i: int| 0 <= i < 6 implies #[trigger] b.steps[i] == steps[i] by {}
    } else {
        assert(b.steps == steps);
    }
    if (forall|i: int| 0 <= i < 6 ==> (#[trigger] b.steps[i]).1 is Found) {
        assert forall|i: int| 0 <= i < 6 implies (#[trigger] steps[i]).1 is Found by {
            assert(b.steps[i].1 is Found);
        }
        assert(all_found(steps));
        if still_checking(steps) {
            let i = choose|i: int|
                0 <= i < steps.len() && (#[trigger] steps[i]).0 != Step::Done && steps[i].1
                    == StepStatusModel::Checking;
            assert(i < 6);
        }
    }
}

// ── Installing ───────────────────────────────────────────────────────────

/// The job that installs the step at a place of the list, with the folder and
/// the branch that were chosen.
pub open spec fn job_for(a: AppModel, i: int) -> JobModel {
    JobModel::Install(
        if i == 0 {
            InstallJobModel::Git
        } else if i == 1 {
            InstallJobModel::Conda
        } else if i == 2 {
            InstallJobModel::CondaInit
        } else if i == 3 {
            InstallJobModel::PythonEnv
        } else if i == 4 {
            InstallJobModel::Clone(a.install_path, chosen(a))
        } else {
            InstallJobModel::Deps(a.install_path)
        },
    )
}

/// Is the step at this place the first that is missing?
pub open spec fn first_missing(steps: Seq<(Step, StepStatusModel)>, i: int) -> bool {
    &&& 0 <= i < 6
    &&& steps[i].1 is NotFound
    &&& forall|j: int| 0 <= j < i ==> !((#[trigger] steps[j]).1 is NotFound)
}

/// Is no step missing?
pub open spec fn none_missing(steps: Seq<(Step, StepStatusModel)>) -> bool {
    forall|j: int| 0 <= j < 6 ==> !((#[trigger] steps[j]).1 is NotFound)
}

proof fn lemma_next_missing(steps: Seq<(Step, StepStatusModel)>, i: int)
    requires
        0 <= i <= steps.len(),
        forall|j: int| 0 <= j < i ==> (#[trigger] steps[j]).0 == Step::Done || !(steps[j].1
            is NotFound),
    ensures
        i < steps.len() && steps[i].0 != Step::Done && steps[i].1 is NotFound ==> next_missing(
            steps,
        ) == Some(steps[i].0),
        i == steps.len() ==> next_missing(steps) is None,
    decreases i,
{
    if i > 0 {
        let t = steps.drop_first();
        assert(steps[0].0 == Step::Done || !(steps[0].1 is NotFound));
        assert forall|j: int| 0 <= j < i - 1 implies (#[trigger] t[j]).0 == Step::Done || !(t[j].1
            is NotFound) by {
            assert(t[j] == steps[j + 1]);
        }
        lemma_next_missing(t, i - 1);
        if i < steps.len() {
            assert(t[i - 1] == steps[i]);
        }
    }
}

proof fn lemma_kick(a: AppModel)
    requires
        a.wf(),
    ensures
        forall|i: int| #[trigger]
            first_missing(a.steps, i) ==> {
                &&& kicked(a).1 == starts(job_for(a, i))
                &&& kicked(a).0.steps[i] == (a.steps[i].0, StepStatusModel::Installing)
                &&& kicked(a).0.busy == Busy { timed: true, ..a.busy }
                &&& forall|j: int|
                    0 <= j < 7 && j != i ==> #[trigger] kicked(a).0.steps[j] == a.steps[j]
            },
        none_missing(a.steps) ==> {
            &&& kicked(a).1.len() == 0
            &&& kicked(a).0.busy == Busy { installing: false, timed: false, ..a.busy }
            &&& kicked(a).0.steps[6].1 is Done
            &&& forall|j: int| 0 <= j < 6 ==> #[trigger] kicked(a).0.steps[j] == a.steps[j]
        },
{
    reveal(kicked);
    lemma_steps_of(a);
    assert forall|i: int| #[trigger] first_missing(a.steps, i) implies {
        &&& kicked(a).1 == starts(job_for(a, i))
        &&& kicked(a).0.steps[i] == (a.steps[i].0, StepStatusModel::Installing)
        &&& kicked(a).0.busy == Busy { timed: true, ..a.busy }
        &&& forall|j: int| 0 <= j < 7 && j != i ==> #[trigger] kicked(a).0.steps[j] == a.steps[j]
    } by {
        lemma_next_missing(a.steps, i);
        assert(a.steps[i].0 == all_steps()[i]);
        lemma_places(a.steps, i);
    }
    if none_missing(a.steps) {
        assert forall|j: int| 0 <= j < 7 implies (#[trigger] a.steps[j]).0 == Step::Done || !(
        a.steps[j].1 is NotFound) by {
            if j < 6 {
                assert(!(a.steps[j].1 is NotFound));
            }
        }
        lemma_next_missing(a.steps, 7);
        lemma_places(a.steps, 6);
    }
}

/// Go installs the first step that is missing, by its own job, for the folder
/// and the branch that were chosen; where nothing is missing nothing is
/// started, and Sapphire is said to be ready.
pub proof fn law_go_installs_what_is_missing(a: AppModel, f: FactsModel, i: int)
    requires
        a.wf(),
    ensures
        ({
            let (b, effects) = turned(a, MessageModel::GoClicked, f);
            &&& first_missing(a.steps, i) ==> {
                &&& effects == seq![EffectModel::ClearOutput, EffectModel::Start(job_for(a, i))]
                &&& b.steps[i] == (a.steps[i].0, StepStatusModel::Installing)
                &&& b.busy == Busy { installing: true, timed: true, ..a.busy }
            }
            &&& none_missing(a.steps) ==> {
                &&& effects == seq![EffectModel::ClearOutput]
                &&& b.steps[6].1 is Done
                &&& b.busy == Busy { installing: false, timed: false, ..a.busy }
            }
        }),
{
    reveal(setup_turn);
    reveal(install_started);
    let c = noted(
        AppModel { busy: Busy { installing: true, ..a.busy }, ..a },
        "Starting install..."@,
    );
    assert(c.wf());
    lemma_kick(c);
    if first_missing(a.steps, i) {
        assert(first_missing(c.steps, i));
        assert(job_for(c, i) == job_for(a, i));
    }
    if none_missing(a.steps) {
        assert(none_missing(c.steps));
    }
    let effects = turned(a, MessageModel::GoClicked, f).1;
    if first_missing(a.steps, i) {
        assert(effects =~= seq![EffectModel::ClearOutput, EffectModel::Start(job_for(a, i))]);
    }
    if none_missing(a.steps) {
        assert(effects =~= seq![EffectModel::ClearOutput]);
    }
}

/// How an installed step came out is what it shows. After a success the next
/// step that is missing is installed, until none is; a failure stops the
/// installation.
pub proof fn law_install_goes_on_after_success(
    a: AppModel,
    k: int,
    status: StepStatusModel,
    output: Seq<char>,
    f: FactsModel,
    i: int,
)
    requires
        a.wf(),
        0 <= k < 6,
        status is Done || status is Failed,
    ensures
        ({
            let (b, effects) = turned(
                a,
                MessageModel::InstallStepResult(a.steps[k].0, status, output),
                f,
            );
            let steps = a.steps.update(k, (a.steps[k].0, status));
            &&& b.steps[k] == (a.steps[k].0, status)
            &&& status is Failed ==> effects.len() == 0 && b.busy == (Busy {
                installing: false,
                ..a.busy
            }) && b.steps == steps
            &&& status is Done && first_missing(steps, i) ==> effects == starts(job_for(a, i))
                && b.steps[i] == (a.steps[i].0, StepStatusModel::Installing)
            &&& status is Done && none_missing(steps) ==> effects.len() == 0
                && !b.busy.installing && b.steps[6].1 is Done
        }),
{
    reveal(setup_turn);
    reveal(step_installed);
    lemma_steps_of(a);
    let step = a.steps[k].0;
    lemma_places(a.steps, k);
    let steps = a.steps.update(k, (step, status));
    let c = AppModel {
        steps: with_step(a.steps, step, status),
        ..noted(
            AppModel { log_lines: crate::setup::with_report(a.log_lines, output), ..a },
            "[install] "@ + step_name(a.host.platform, step) + " — "@ + status.detail_text(),
        )
    };
    assert(c.steps == steps);
    assert forall|j: int| 0 <= j < 7 implies (#[trigger] c.steps[j]).0 == all_steps()[j] by {
        assert(a.steps[j].0 == all_steps()[j]);
    }
    assert(c.wf());
    if status is Done {
        lemma_kick(c);
        reveal(kicked);
        if first_missing(steps, i) {
            assert(job_for(c, i) == job_for(a, i));
            assert(i != k);
        }
        if next_missing(c.steps) is Some {
            let s = next_missing(c.steps)->0;
            lemma_missing_elsewhere(c.steps, s, k);
        } else {
            lemma_places(c.steps, 6);
        }
    }
}

/// The next step that is missing is not one that is there.
proof fn lemma_missing_elsewhere(steps: Seq<(Step, StepStatusModel)>, step: Step, k: int)
    requires
        steps.len() == 7,
        forall|i: int| 0 <= i < 7 ==> (#[trigger] steps[i]).0 == all_steps()[i],
        next_missing(steps) == Some(step),
        0 <= k < 7,
        !(steps[k].1 is NotFound),
    ensures
        step_place(steps, step) != k,
{
    lemma_missing_at(steps, step);
    let i = choose|i: int|
        0 <= i < steps.len() && (#[trigger] steps[i]).0 == step && steps[i].1 is NotFound;
    assert(steps[i].0 == all_steps()[i]);
    lemma_places(steps, i);
}

proof fn lemma_missing_at(steps: Seq<(Step, StepStatusModel)>, step: Step)
    requires
        next_missing(steps) == Some(step),
    ensures
        exists|i: int|
            0 <= i < steps.len() && (#[trigger] steps[i]).0 == step && steps[i].1 is NotFound,
    decreases steps.len(),
{
    if steps[0].0 != Step::Done && steps[0].1 is NotFound {
        assert(steps[0].0 == step);
    } else {
        let t = steps.drop_first();
        lemma_missing_at(t, step);
        let i = choose|i: int|
            0 <= i < t.len() && (#[trigger] t[i]).0 == step && t[i].1 is NotFound;
        assert(steps[i + 1].0 == step);
    }
}

// ── Updates ──────────────────────────────────────────────────────────────

/// An update pulls first and updates the dependencies then, both in the
/// folder that was chosen. One whose parts both work ends with both parts
/// done and nothing left to update; one whose first part fails does not come
/// to the second, and either failure ends it and is shown.
pub proof fn law_update_has_two_parts(
    a: AppModel,
    f: FactsModel,
    pulled: Seq<char>,
    g: FactsModel,
    installed: Seq<char>,
    h: FactsModel,
)
    requires
        a.wf(),
        f.repo,
        !a.sapphire.running,
        !a.sapphire.stopping,
    ensures
        ({
            let (b, begin) = turned(a, MessageModel::UpdateClicked, f);
            let (c, then) = turned(b, MessageModel::UpdateStepDone(pulled, true), g);
            let (d, last) = turned(c, MessageModel::UpdateStepDone(installed, true), h);
            let (x, none) = turned(b, MessageModel::UpdateStepDone(pulled, false), g);
            let (y, stop) = turned(c, MessageModel::UpdateStepDone(installed, false), h);
            let parts = |one: StepStatusModel, two: StepStatusModel|
                seq![("Pull latest changes"@, one), ("Update dependencies"@, two)];
            &&& begin == starts(JobModel::Update(UpdateJobModel::Pull(a.install_path)))
            &&& b.busy == Busy { updating: true, ..a.busy }
            &&& b.update_status == parts(StepStatusModel::Installing, StepStatusModel::NotStarted)
            &&& then == starts(JobModel::Update(UpdateJobModel::UpdateDeps(a.install_path)))
            &&& c.busy.updating
            &&& c.update_status == parts(
                StepStatusModel::Done(pulled),
                StepStatusModel::Installing,
            )
            &&& last.len() == 0
            &&& d.update_status == parts(
                StepStatusModel::Done(pulled),
                StepStatusModel::Done(installed),
            )
            &&& d.updates_available == Some(0u32)
            &&& d.busy == Busy { updating: false, ..a.busy }
            &&& none.len() == 0 && stop.len() == 0
            &&& x.update_status == parts(
                StepStatusModel::Failed(pulled),
                StepStatusModel::NotStarted,
            )
            &&& y.update_status == parts(
                StepStatusModel::Done(pulled),
                StepStatusModel::Failed(installed),
            )
            &&& x.updates_available == a.updates_available
            &&& y.updates_available == a.updates_available
            &&& !x.busy.updating && !y.busy.updating
        }),
{
    reveal(run_turn);
    reveal(update_asked);
    reveal(update_started);
    reveal(part_done);
    reveal_with_fuel(current_part, 3);
    let parts = |one: StepStatusModel, two: StepStatusModel|
        seq![("Pull latest changes"@, one), ("Update dependencies"@, two)];
    let b = turned(a, MessageModel::UpdateClicked, f).0;
    assert(b.update_status =~= parts(StepStatusModel::Installing, StepStatusModel::NotStarted));
    assert(current_part(b.update_status) == 0);
    let c = turned(b, MessageModel::UpdateStepDone(pulled, true), g).0;
    assert(c.update_status =~= parts(
        StepStatusModel::Done(pulled),
        StepStatusModel::Installing,
    ));
    assert(c.update_status.drop_first() =~= seq![
        ("Update dependencies"@, StepStatusModel::Installing),
    ]);
    assert(current_part(c.update_status) == 1);
    let d = turned(c, MessageModel::UpdateStepDone(installed, true), h).0;
    assert(d.update_status =~= parts(
        StepStatusModel::Done(pulled),
        StepStatusModel::Done(installed),
    ));
    let x = turned(b, MessageModel::UpdateStepDone(pulled, false), g).0;
    assert(x.update_status =~= parts(
        StepStatusModel::Failed(pulled),
        StepStatusModel::NotStarted,
    ));
    let y = turned(c, MessageModel::UpdateStepDone(installed, false), h).0;
    assert(y.update_status =~= parts(
        StepStatusModel::Done(pulled),
        StepStatusModel::Failed(installed),
    ));
}

/// A Sapphire that runs is stopped before an update, which begins once it is
/// down; without a repository there is nothing to update.
pub proof fn law_update_stops_sapphire_first(a: AppModel, f: FactsModel, g: FactsModel)
    ensures
        ({
            let (b, effects) = turned(a, MessageModel::UpdateClicked, f);
            let (c, then) = turned(b, MessageModel::UpdateAfterStop, g);
            &&& a.sapphire.running || a.sapphire.stopping ==> {
                &&& effects.len() == 2
                &&& effects[0] == killing(a, f)
                &&& effects[1] == EffectModel::Start(
                    JobModel::Wait(WaitJobModel::Await(AfterStop::Update)),
                )
                &&& b.sapphire == Run { stopping: true, ..a.sapphire }
                &&& b.update_status == a.update_status && b.busy == a.busy
            }
            &&& !c.sapphire.running && !c.sapphire.stopping && c.sapphire_log.len() == 0
            &&& c.log_lines == b.log_lines.push("Sapphire stopped. Starting update..."@).push(
                if g.repo {
                    "[update] Pulling latest changes..."@
                } else {
                    "No repo found — install first."@
                },
            )
            &&& g.repo ==> then == starts(JobModel::Update(UpdateJobModel::Pull(a.install_path)))
            &&& !g.repo ==> then.len() == 0 && c.busy == b.busy && c.update_status
                == b.update_status
            &&& !a.sapphire.running && !a.sapphire.stopping && !f.repo ==> effects.len() == 0
        }),
{
    reveal(run_turn);
    reveal(update_asked);
    reveal(update_started);
    reveal(update_after_stop);
}

/// The updates are counted for the folder and the branch that were chosen,
/// once at a time, when the user asks or looks at the tab for them; the count
/// is kept as it comes.
pub proof fn law_updates_are_looked_for(a: AppModel, f: FactsModel, count: Option<u32>, tab: Tab)
    ensures
        ({
            let (b, effects) = turned(a, MessageModel::CheckForUpdates, f);
            let (c, shown) = turned(a, MessageModel::TabSelected(tab), f);
            let (d, none) = turned(a, MessageModel::UpdatesAvailable(count), f);
            let look = starts(
                JobModel::Update(UpdateJobModel::CheckUpdates(a.install_path, chosen(a))),
            );
            &&& effects == if a.busy.checking_updates {
                Seq::empty()
            } else {
                look
            }
            &&& b.busy == Busy { checking_updates: true, ..a.busy }
            &&& shown == if tab == Tab::Update && !a.busy.checking_updates {
                look
            } else {
                Seq::empty()
            }
            &&& c.active_tab == tab
            &&& c.armed == Armed {
                remove_env: false,
                delete_folder: false,
                delete_userdata: false,
                remove_service: false,
            }
            &&& d.updates_available == count
            &&& d.busy == Busy { checking_updates: false, ..a.busy }
            &&& none.len() == 0
        }),
{
    reveal(run_turn);
    reveal(tab_selected);
    reveal(check_updates);
    reveal(updates_known);
}

// ── Branches and folders ─────────────────────────────────────────────────

/// Choosing a branch keeps the choice, for this session and the next. In a
/// repository it also switches to that branch, after stopping a Sapphire that
/// runs, and no other branch is ever switched to. Only a Sapphire that ran
/// and was not being stopped already is to be started again.
pub proof fn law_chosen_branch_is_switched_to(a: AppModel, b: Branch, f: FactsModel)
    ensures
        ({
            let (c, effects) = turned(a, MessageModel::BranchSelected(b), f);
            let save = EffectModel::SaveConfig(config_content(a.install_path, b));
            let switch = EffectModel::Start(
                JobModel::Wait(WaitJobModel::Switch(a.install_path, b)),
            );
            let up = a.sapphire.running || a.sapphire.stopping;
            &&& c.selected_branch == Some(b)
            &&& c.install_path == a.install_path
            &&& !f.repo ==> effects == seq![save] && c.sapphire == a.sapphire
            &&& f.repo && !up ==> effects == seq![save, switch] && c.sapphire == a.sapphire
            &&& f.repo && up ==> effects == seq![save, killing(a, f), switch] && c.sapphire == (Run {
                running: a.sapphire.running,
                stopping: true,
                restart: a.sapphire.restart || (a.sapphire.running && !a.sapphire.stopping),
            })
            &&& f.repo && up ==> c.log_lines == a.log_lines.push(
                "Stopping Sapphire for branch switch..."@,
            ).push("Switching to "@ + in_repository(b) + " branch..."@)
            &&& f.repo && !up ==> c.log_lines == a.log_lines.push(
                "Switching to "@ + in_repository(b) + " branch..."@,
            )
        }),
        ({
            let (c, effects) = turned(a, MessageModel::SwitchBranch, f);
            &&& f.repo ==> effects == starts(
                JobModel::Wait(WaitJobModel::Checkout(a.install_path, chosen(a))),
            )
            &&& !f.repo ==> effects.len() == 0
            &&& c.selected_branch == a.selected_branch
        }),
{
    reveal(run_turn);
    reveal(branch_selected);
    reveal(switch_asked);
}

/// After a switch nothing is taken to run, whatever came of it, and what came
/// of it is told.
pub proof fn law_switch_is_over(a: AppModel, text: Seq<char>, ok: bool, f: FactsModel)
    requires
        !a.sapphire.restart,
    ensures
        ({
            let (b, effects) = turned(a, MessageModel::SwitchBranchResult(text, ok), f);
            &&& effects.len() == 0
            &&& b.sapphire == Run { running: false, stopping: false, restart: false }
            &&& b.sapphire_log.len() == 0
            &&& b.log_lines == a.log_lines.push(text)
            &&& b.selected_branch == a.selected_branch
        }),
{
    reveal(run_turn);
    reveal(switched);
}

/// A folder that was chosen is the installation from then on, and is saved
/// with the branch; no folder changes nothing.
pub proof fn law_folder_is_chosen(a: AppModel, path: Seq<char>, f: FactsModel)
    ensures
        ({
            let (b, effects) = turned(a, MessageModel::PathChanged(path), f);
            &&& path.len() > 0 ==> b.install_path == path && effects == seq![
                EffectModel::SaveConfig(config_content(path, chosen(a))),
            ]
            &&& path.len() == 0 ==> b.install_path == a.install_path && effects.len() == 0
            &&& b.selected_branch == a.selected_branch
        }),
        turned(a, MessageModel::BrowsePath, f) == (a, seq![EffectModel::Browse]),
        browsed(Some(path)) == MessageModel::PathChanged(path),
        browsed(None) == MessageModel::Log("Browse cancelled."@),
{
    reveal(run_turn);
    reveal(path_changed);
}

// ── Launching and stopping ───────────────────────────────────────────────

/// A launch of a Sapphire that runs starts nothing. Otherwise the service is
/// started where there is one, and else, if there is a `main.py` to run, the
/// launcher first finds out whether Sapphire runs already.
pub proof fn law_launch_is_considered(a: AppModel, f: FactsModel)
    ensures
        ({
            let (b, effects) = turned(a, MessageModel::Launch, f);
            &&& a.sapphire.running ==> effects.len() == 0 && b.sapphire == a.sapphire
            &&& !a.sapphire.running && a.service is Some ==> effects == starts(
                JobModel::Service(ServiceJobModel::Act(Action::Start)),
            ) && b.sapphire.running
            &&& !a.sapphire.running && a.service is None && !f.main_py ==> effects.len() == 0
                && b.sapphire == a.sapphire && b.log_lines.last() == "Can't find "@ + a.host.path(
                a.install_path,
                "main.py"@,
            ) + ". Run the installer first."@
            &&& !a.sapphire.running && a.service is None && f.main_py ==> effects == starts(
                JobModel::Wait(WaitJobModel::PreCheck(true)),
            ) && b.sapphire == a.sapphire
        }),
{
    reveal(run_turn);
    reveal(launched);
    reveal(service_started);
}

/// Sapphire is started in the folder that was chosen exactly where the user
/// asked for it, it was found not to run, and there is no service to start
/// it; then it is shown as running, with an empty log, on the tab for it.
pub proof fn law_launch_starts_sapphire(a: AppModel, running: bool, user: bool, f: FactsModel)
    ensures
        ({
            let (b, effects) = turned(a, MessageModel::LaunchPreCheck(running, user), f);
            &&& effects == if !running && user && a.service is None {
                seq![EffectModel::Follow(a.install_path)]
            } else {
                Seq::empty()
            }
            &&& a.service is None && (running || user) ==> b.sapphire.running
            &&& a.service is None && !running && !user ==> b.sapphire == a.sapphire
                && b.sapphire_log == a.sapphire_log
            &&& a.service is Some ==> b.sapphire.running == running
            &&& b.sapphire.stopping == a.sapphire.stopping
            &&& a.service is None && !running && user ==> b.sapphire_log.len() == 0
            &&& a.service is None && running ==> b.sapphire_log == seq![
                "Sapphire is already running (started outside this app)."@,
                ""@,
                "No live logs available for this session."@,
                "To see logs: click Stop, then Launch again."@,
            ]
            &&& b.active_tab == if user {
                Tab::Running
            } else {
                a.active_tab
            }
        }),
{
    reveal(run_turn);
    reveal(prechecked);
}

/// A stop ends Sapphire's processes, by the commands for that and with the
/// process that was started, or stops the service where there is one; then
/// the launcher waits for the end, which only the news of it brings.
pub proof fn law_stop_stops_sapphire(a: AppModel, f: FactsModel, g: FactsModel)
    ensures
        ({
            let (b, effects) = turned(a, MessageModel::StopSapphire, f);
            let (c, none) = turned(b, MessageModel::SapphireStopConfirmed, g);
            &&& a.service is None ==> effects == seq![
                killing(a, f),
                EffectModel::Start(JobModel::Wait(WaitJobModel::Await(AfterStop::Tell))),
            ]
            &&& a.service is Some ==> effects == starts(
                JobModel::Service(ServiceJobModel::Act(Action::Stop)),
            )
            &&& b.sapphire == Run { running: a.sapphire.running, stopping: true, restart: false }
            &&& none.len() == 0
            &&& c.sapphire == Run { running: false, stopping: false, restart: false }
            &&& c.log_lines.last() == "Sapphire stopped."@
        }),
{
    reveal(run_turn);
    reveal(stopping);
    reveal(service_stopped);
    reveal(stop_confirmed);
}

/// When Sapphire's process ends, Sapphire no longer runs, and its end is in
/// its log and in the launcher's.
pub proof fn law_end_of_sapphire_is_shown(a: AppModel, text: Seq<char>, f: FactsModel)
    ensures
        ({
            let (b, effects) = turned(a, MessageModel::SapphireExited(text), f);
            &&& effects.len() == 0
            &&& b.sapphire == Run { running: false, stopping: false, ..a.sapphire }
            &&& b.sapphire_log == a.sapphire_log.push("--- "@ + text + " ---"@)
            &&& b.log_lines == a.log_lines.push(text)
        }),
{
    reveal(run_turn);
    reveal(exited);
}

/// The browser is opened on Sapphire's own address, and the log that was
/// written to a file is what is opened, if it was written.
pub proof fn law_browser_and_log_are_opened(a: AppModel, f: FactsModel, ok: bool)
    ensures
        ({
            let file = a.host.path(a.host.temp_dir, "sapphire_log.txt"@);
            let open = |what: Seq<char>, windows: CmdModel|
                seq![
                    EffectModel::Spawn(
                        if a.host.platform == Platform::Windows {
                            windows
                        } else {
                            CmdModel {
                                program: ProgramModel::Named("xdg-open"@),
                                args: seq![what],
                            }
                        },
                    ),
                ];
            &&& turned(a, MessageModel::OpenBrowser, f) == (
                a,
                open(
                    "https://localhost:8073"@,
                    CmdModel {
                        program: ProgramModel::Named("cmd"@),
                        args: seq!["/c"@, "start"@, "https://localhost:8073"@],
                    },
                ),
            )
            &&& turned(a, MessageModel::OpenRunLog, f) == (
                a,
                seq![EffectModel::WriteRunLog(file, joined(a.sapphire_log, "\n"@))],
            )
            &&& ok ==> turned(a, MessageModel::RunLogWritten(ok), f) == (
                a,
                open(
                    file,
                    CmdModel { program: ProgramModel::Named("notepad"@), args: seq![file] },
                ),
            )
            &&& !ok ==> turned(a, MessageModel::RunLogWritten(ok), f).1.len() == 0
            &&& turned(a, MessageModel::ScrollRunLog, f) == (a, seq![EffectModel::ScrollLog])
            &&& turned(a, MessageModel::ToggleLog, f).0.log_visible == !a.log_visible
            &&& turned(a, MessageModel::ToggleLog, f).1.len() == 0
        }),
{
    reveal(run_turn);
    reveal(run_log_written);
}

// ── Resets and the uninstaller ───────────────────────────────────────────

/// Each reset button starts the reset of what it names.
pub proof fn law_reset_buttons(a: AppModel, f: FactsModel, text: Seq<char>)
    ensures
        turned(a, MessageModel::ResetPassword, f) == (
            a,
            starts(JobModel::Reset(ResetJobModel::Begin(Secret::Password))),
        ),
        turned(a, MessageModel::ResetCredentials, f) == (
            a,
            starts(JobModel::Reset(ResetJobModel::Begin(Secret::Credentials))),
        ),
        turned(a, MessageModel::ResetResult(text), f).0.log_lines == a.log_lines.push(text),
        turned(a, MessageModel::ResetResult(text), f).1.len() == 0,
{
    reveal(setup_turn);
}

/// A confirmed click removes what the button names, in the folder that was
/// chosen, and has to be confirmed anew the next time.
pub proof fn law_confirmed_click_removes(a: AppModel, f: FactsModel)
    ensures
        ({
            let (b, env) = turned(a, MessageModel::UninstallCondaEnvClick, f);
            let (c, folder) = turned(a, MessageModel::UninstallDeleteFolderClick, f);
            let (d, data) = turned(a, MessageModel::UninstallDeleteUserdataClick, f);
            let (e, service) = turned(a, MessageModel::ServiceRemoveClick, f);
            &&& b.armed == Armed { remove_env: !a.armed.remove_env, ..a.armed }
            &&& c.armed == Armed { delete_folder: !a.armed.delete_folder, ..a.armed }
            &&& d.armed == Armed { delete_userdata: !a.armed.delete_userdata, ..a.armed }
            &&& e.armed == Armed { remove_service: !a.armed.remove_service, ..a.armed }
            &&& env == if a.armed.remove_env {
                starts(JobModel::Uninstall(UninstallJobModel::RemoveEnv))
            } else {
                Seq::empty()
            }
            &&& folder == if a.armed.delete_folder {
                starts(JobModel::Uninstall(UninstallJobModel::DeleteFolder(a.install_path)))
            } else {
                Seq::empty()
            }
            &&& data == if a.armed.delete_userdata {
                starts(JobModel::Uninstall(UninstallJobModel::DeleteUserdata(a.install_path)))
            } else {
                Seq::empty()
            }
            &&& service == if !a.armed.remove_service {
                Seq::empty()
            } else if a.host.platform == Platform::Windows {
                starts(JobModel::Task(TaskJobModel::Remove))
            } else {
                starts(JobModel::Unit(UnitJobModel::Remove))
            }
            &&& b.busy.uninstalling == (a.busy.uninstalling || a.armed.remove_env)
            &&& c.busy.uninstalling == (a.busy.uninstalling || a.armed.delete_folder)
            &&& d.busy.uninstalling == (a.busy.uninstalling || a.armed.delete_userdata)
        }),
{
    reveal(setup_turn);
    reveal(service_turn);
    reveal(remove_env_clicked);
    reveal(delete_folder_clicked);
    reveal(delete_userdata_clicked);
    reveal(remove_service_clicked);
}

/// What the uninstaller did is told line by line, and where it worked nothing
/// is known of the steps any more.
pub proof fn law_uninstall_is_over(a: AppModel, text: Seq<char>, ok: bool, f: FactsModel)
    ensures
        ({
            let (b, effects) = turned(a, MessageModel::UninstallResult(text, ok), f);
            let told = lines(text);
            &&& effects.len() == 0
            &&& b.busy == Busy { uninstalling: false, ..a.busy }
            &&& b.log_lines.len() == a.log_lines.len() + told.len() + 1
            &&& forall|i: int|
                0 <= i < told.len() ==> #[trigger] b.log_lines[a.log_lines.len() + i] == "  "@
                    + told[i]
            &&& b.log_lines.last() == if ok {
                "[uninstall] Done."@
            } else {
                "[uninstall] Something went wrong — check the log above."@
            }
            &&& !ok ==> b.steps == a.steps
            &&& ok ==> b.steps.len() == a.steps.len() && forall|i: int|
                0 <= i < a.steps.len() ==> #[trigger] b.steps[i] == (
                    a.steps[i].0,
                    StepStatusModel::NotStarted,
                )
        }),
{
    reveal(setup_turn);
    reveal(uninstall_over);
}

// ── Troubleshooting ──────────────────────────────────────────────────────

proof fn lemma_checks_of(a: AppModel)
    requires
        a.wf(),
    ensures
        a.ts_checks.len() == 5,
        a.ts_checks[0].0 == TsCheck::SapphireRunning,
        a.ts_checks[1].0 == TsCheck::WebUi,
        a.ts_checks[2].0 == TsCheck::DepsHealth,
        a.ts_checks[3].0 == TsCheck::Plugins,
        a.ts_checks[4].0 == TsCheck::Gpu,
{
    assert(a.ts_checks[0].0 == all_checks()[0]);
    assert(a.ts_checks[1].0 == all_checks()[1]);
    assert(a.ts_checks[2].0 == all_checks()[2]);
    assert(a.ts_checks[3].0 == all_checks()[3]);
    assert(a.ts_checks[4].0 == all_checks()[4]);
}

/// The troubleshooter makes all five checks, the ones on the installation in
/// the folder that was chosen, and shows each as under way.
pub proof fn law_every_check_is_made(a: AppModel, f: FactsModel)
    ensures
        ({
            let (b, effects) = turned(a, MessageModel::TroubleshootCheck, f);
            &&& effects == seq![
                EffectModel::Start(JobModel::Troubleshoot(TsJobModel::Running)),
                EffectModel::Start(JobModel::Troubleshoot(TsJobModel::WebUi)),
                EffectModel::Start(JobModel::Troubleshoot(TsJobModel::Deps)),
                EffectModel::Start(JobModel::Troubleshoot(TsJobModel::Plugins(a.install_path))),
                EffectModel::Start(JobModel::Troubleshoot(TsJobModel::Gpu)),
            ]
            &&& b.busy == Busy { troubleshooting: true, ..a.busy }
            &&& b.ts_checks.len() == a.ts_checks.len()
            &&& forall|i: int|
                0 <= i < a.ts_checks.len() ==> #[trigger] b.ts_checks[i] == (
                    a.ts_checks[i].0,
                    TsStatusModel::Checking,
                )
        }),
{
    reveal(setup_turn);
    reveal(checks_started);
}

/// What a check found is what its line shows, and the other lines keep what
/// they show. The troubleshooter is done exactly when no check is under way.
pub proof fn law_result_of_a_check_is_kept(
    a: AppModel,
    k: int,
    status: TsStatusModel,
    f: FactsModel,
)
    requires
        a.wf(),
        0 <= k < 5,
        status is Fine || status is Problem,
    ensures
        ({
            let (b, effects) = turned(
                a,
                MessageModel::TroubleshootResult(a.ts_checks[k].0, status),
                f,
            );
            &&& effects.len() == 0
            &&& b.ts_checks == a.ts_checks.update(k, (a.ts_checks[k].0, status))
            &&& b.busy == Busy {
                troubleshooting: a.busy.troubleshooting && exists|i: int|
                    0 <= i < 5 && i != k && (#[trigger] a.ts_checks[i]).1
                        == TsStatusModel::Checking,
                ..a.busy
            }
            &&& b.log_lines == a.log_lines || b.log_lines == a.log_lines.push(
                "[troubleshoot] Done."@,
            ) && !b.busy.troubleshooting
        }),
{
    reveal(setup_turn);
    reveal(check_made);
    lemma_checks_of(a);
    let check = a.ts_checks[k].0;
    lemma_check_at(a.ts_checks, check, k);
    let checks = a.ts_checks.update(k, (check, status));
    assert(checks_open(checks) <==> exists|i: int|
        0 <= i < 5 && i != k && (#[trigger] a.ts_checks[i]).1 == TsStatusModel::Checking) by {
        if checks_open(checks) {
            let i = choose|i: int|
                0 <= i < checks.len() && (#[trigger] checks[i]).1 == TsStatusModel::Checking;
            assert(i != k);
            assert(a.ts_checks[i].1 == TsStatusModel::Checking);
        }
        if exists|i: int|
            0 <= i < 5 && i != k && (#[trigger] a.ts_checks[i]).1 == TsStatusModel::Checking {
            let i = choose|i: int|
                0 <= i < 5 && i != k && (#[trigger] a.ts_checks[i]).1 == TsStatusModel::Checking;
            assert(checks[i].1 == TsStatusModel::Checking);
        }
    }
}

/// A repair is that of the check whose button was clicked, in the folder that
/// was chosen, and what came of it is what the line of that check shows: fixed
/// exactly where it worked. Only the packages and the voice features can be
/// repaired.
pub proof fn law_repair_is_for_its_check(
    a: AppModel,
    k: int,
    text: Seq<char>,
    ok: bool,
    f: FactsModel,
)
    requires
        a.wf(),
        0 <= k < 5,
    ensures
        ({
            let check = a.ts_checks[k].0;
            let (b, effects) = turned(a, MessageModel::TroubleshootFix(check), f);
            let (c, none) = turned(a, MessageModel::TroubleshootFixResult(check, text, ok), f);
            &&& effects == if check == TsCheck::DepsHealth {
                starts(JobModel::Troubleshoot(TsJobModel::FixDeps(a.install_path)))
            } else if check == TsCheck::Plugins {
                starts(JobModel::Troubleshoot(TsJobModel::FixPlugins(a.install_path)))
            } else {
                Seq::empty()
            }
            &&& b.ts_checks == a.ts_checks.update(k, (check, TsStatusModel::Fixing))
            &&& none.len() == 0
            &&& c.ts_checks == a.ts_checks.update(
                k,
                (
                    check,
                    if ok {
                        TsStatusModel::Fixed(text)
                    } else {
                        TsStatusModel::Problem(text)
                    },
                ),
            )
        }),
{
    reveal(setup_turn);
    reveal(fix_started);
    reveal(fix_over);
    lemma_checks_of(a);
    lemma_check_at(a.ts_checks, a.ts_checks[k].0, k);
}

// ── The service ──────────────────────────────────────────────────────────

/// Each button of the service drives the unit as it says, and nothing else:
/// what is started or restarted counts as running and its journal is
/// followed, what is stopped is being stopped.
pub proof fn law_service_buttons(a: AppModel, f: FactsModel)
    ensures
        ({
            let act = |x: Action| starts(JobModel::Service(ServiceJobModel::Act(x)));
            let (b, start) = turned(a, MessageModel::ServiceStart, f);
            let (c, stop) = turned(a, MessageModel::ServiceStop, f);
            let (d, restart) = turned(a, MessageModel::ServiceRestart, f);
            let (e, enable) = turned(a, MessageModel::ServiceEnable, f);
            let (g, disable) = turned(a, MessageModel::ServiceDisable, f);
            &&& start == act(Action::Start)
            &&& stop == act(Action::Stop)
            &&& restart == act(Action::Restart)
            &&& enable == act(Action::Enable)
            &&& disable == act(Action::Disable)
            &&& b.sapphire == Run { running: true, stopping: false, ..a.sapphire }
            &&& d.sapphire == Run { running: true, stopping: false, ..a.sapphire }
            &&& c.sapphire == Run { stopping: true, restart: false, ..a.sapphire }
            &&& e.sapphire == a.sapphire && g.sapphire == a.sapphire
            &&& b.journal.streaming && d.journal.streaming && !c.journal.streaming
            &&& b.active_tab == Tab::Running && d.active_tab == Tab::Running
            &&& e.journal == a.journal && g.journal == a.journal
        }),
{
    reveal(service_turn);
    reveal(service_started);
    reveal(service_stopped);
    reveal(service_restarted);
}

/// After each action on the service its state is asked for again; one that
/// failed leaves nothing running.
pub proof fn law_service_is_looked_at_again(a: AppModel, text: Seq<char>, ok: bool, f: FactsModel)
    ensures
        ({
            let look = starts(JobModel::Service(ServiceJobModel::Detect(false)));
            let (b, acted) = turned(a, MessageModel::ServiceActionResult(text, ok), f);
            let (c, installed) = turned(a, MessageModel::ServiceInstallResult(text, ok), f);
            let (d, removed) = turned(a, MessageModel::ServiceRemoveResult(text, ok), f);
            let off = Run { running: false, stopping: false, ..a.sapphire };
            &&& acted == look && installed == look && removed == look
            &&& b.sapphire == if ok {
                a.sapphire
            } else {
                off
            }
            &&& c.sapphire == if ok {
                Run { running: true, ..a.sapphire }
            } else {
                a.sapphire
            }
            &&& d.sapphire == if ok {
                off
            } else {
                a.sapphire
            }
            &&& ok ==> c.journal.streaming
            &&& b.log_lines == a.log_lines.push("[service] "@ + text)
            &&& c.log_lines == b.log_lines && d.log_lines == b.log_lines
        }),
{
    reveal(service_turn);
    reveal(service_acted);
    reveal(service_was_installed);
    reveal(service_was_removed);
}

/// What systemd says of the service is what the launcher shows: whether there
/// is one, and whether it runs.
pub proof fn law_state_of_the_service_is_taken_over(
    a: AppModel,
    info: Option<ServiceInfoModel>,
    there: bool,
    f: FactsModel,
)
    ensures
        ({
            let (b, none) = turned(a, MessageModel::ServiceRefreshed(info), f);
            let (c, effects) = turned(a, MessageModel::ServiceDetected(info), f);
            let (d, nothing) = turned(a, MessageModel::SystemdChecked(there), f);
            &&& b.service == info && c.service == info
            &&& none.len() == 0 && nothing.len() == 0
            &&& info is Some ==> b.sapphire == (Run {
                running: info->0.active,
                stopping: false,
                ..a.sapphire
            }) && c.sapphire == (Run { running: info->0.active, ..a.sapphire })
            &&& info is None ==> b.sapphire == a.sapphire && c.sapphire == a.sapphire
                && effects.len() == 0
            &&& info is Some && info->0.active ==> c.journal.streaming && c.sapphire_log.len() == 0
            &&& info is Some && !info->0.active ==> c.journal == a.journal && c.sapphire_log
                == a.sapphire_log
            &&& d.systemd_available == there
        }),
{
    reveal(service_turn);
    reveal(service_refreshed);
    reveal(service_detected);
}

/// A service that runs in another folder is taken over only where there is no
/// Sapphire in the folder that is known and one in the service's; then that
/// folder and its branch are the ones that count, are saved, and are scanned.
pub proof fn law_folder_of_the_service_is_taken_over(
    a: AppModel,
    s: ServiceInfoModel,
    f: FactsModel,
)
    ensures
        ({
            let (b, effects) = turned(a, MessageModel::ServiceDetected(Some(s)), f);
            let adopt = s.working_dir is Some && !f.main_py && f.service_main_py;
            &&& adopt ==> {
                &&& b.install_path == s.working_dir->0
                &&& b.selected_branch == Some(f.service_branch)
                &&& effects == seq![
                    EffectModel::SaveConfig(
                        config_content(s.working_dir->0, f.service_branch),
                    ),
                    EffectModel::Send(MessageModel::ScanClicked),
                ]
            }
            &&& !adopt ==> b.install_path == a.install_path && b.selected_branch
                == a.selected_branch && effects.len() == 0
        }),
{
    reveal(service_turn);
    reveal(service_detected);
}

/// Autostart is installed for the folder that was chosen, by the means of the
/// system; the environment is saved as it was typed, and the service is
/// restarted exactly where that worked.
pub proof fn law_autostart_and_environment(a: AppModel, text: Seq<char>, ok: bool, f: FactsModel)
    ensures
        turned(a, MessageModel::ServiceInstall, f).1 == starts(
            if a.host.platform == Platform::Windows {
                JobModel::Task(TaskJobModel::Install(a.install_path))
            } else {
                JobModel::Unit(UnitJobModel::Install(a.install_path))
            },
        ),
        turned(a, MessageModel::EnvLoaded(text), f) == (a, seq![EffectModel::SetEnv(text)]),
        turned(a, MessageModel::EnvSaveRestart(text), f).1 == starts(
            JobModel::Service(ServiceJobModel::WriteEnv(text)),
        ),
        turned(a, MessageModel::EnvSaved(ok), f).1 == if ok {
            starts(JobModel::Service(ServiceJobModel::Act(Action::Restart)))
        } else {
            Seq::empty()
        },
{
    reveal(service_turn);
    reveal(env_saved);
    reveal(service_restarted);
}

// ── What stays ───────────────────────────────────────────────────────────

/// Does `b` differ from `a` only in what `m` is about?
pub open spec fn only_its_own(a: AppModel, m: MessageModel, b: AppModel) -> bool {
    &&& b.host == a.host
    &&& b.install_path != a.install_path ==> m is PathChanged || m is ServiceDetected
    &&& b.selected_branch != a.selected_branch ==> m is BranchSelected || m is ServiceDetected
    &&& b.log_visible != a.log_visible ==> m is ToggleLog
    &&& b.spinner_tick != a.spinner_tick ==> m is Tick
    &&& b.updates_available != a.updates_available ==> m is UpdatesAvailable || m is UpdateStepDone
    &&& b.update_status != a.update_status ==> m is UpdateClicked || m is UpdateAfterStop || m
        is UpdateStepDone
    &&& b.steps != a.steps ==> m is ScanClicked || m is GoClicked || m is StepResult || m
        is InstallStepResult || m is UninstallResult
    &&& b.ts_checks != a.ts_checks ==> m is TroubleshootCheck || m is TroubleshootResult || m
        is TroubleshootFix || m is TroubleshootFixResult
    &&& b.service != a.service ==> m is ServiceDetected || m is ServiceRefreshed
    &&& b.systemd_available != a.systemd_available ==> m is SystemdChecked
    &&& b.active_tab != a.active_tab ==> m is TabSelected || m is LaunchPreCheck || m is Launch || m
        is SwitchBranchResult || m is ServiceStart || m is ServiceRestart || m is EnvSaved
    &&& b.journal != a.journal ==> m is Launch || m is StopSapphire || m is SwitchBranchResult || m
        is ServiceDetected || m is ServiceStart || m is ServiceStop || m is ServiceRestart || m
        is ServiceInstallResult || m is ServiceRemoveClick || m is EnvSaved
    &&& b.sapphire.running && !a.sapphire.running ==> m is Launch || m is LaunchPreCheck || m
        is SwitchBranchResult || m is ServiceDetected || m is ServiceRefreshed || m is ServiceStart
        || m is ServiceRestart || m is ServiceInstallResult || m is EnvSaved
    &&& b.sapphire.restart && !a.sapphire.restart ==> m is BranchSelected
    &&& b.sapphire.stopping && !a.sapphire.stopping ==> m is StopSapphire || m is BranchSelected || m
        is UpdateClicked || m is ServiceStop
    &&& m is Tick || m is UninstallResult || m is InstallStepResult || a.log_lines.is_prefix_of(
        b.log_lines,
    )
}

proof fn lemma_run_keeps(a: AppModel, m: MessageModel, f: FactsModel)
    ensures
        only_its_own(a, m, run_turn(a, m, f).0),
{
    reveal(run_turn);
    match m {
        MessageModel::Tick => {
            reveal(ticked);
        },
        MessageModel::PathChanged(_) => {
            reveal(path_changed);
        },
        MessageModel::BranchSelected(_) => {
            reveal(branch_selected);
        },
        MessageModel::Launch => {
            reveal(launched);
            reveal(service_started);
        },
        MessageModel::StopSapphire => {
            reveal(stopping);
            reveal(service_stopped);
        },
        MessageModel::SwitchBranch => {
            reveal(switch_asked);
        },
        MessageModel::SwitchBranchResult(_, _) => {
            reveal(switched);
            reveal(launched);
            reveal(service_started);
        },
        MessageModel::TabSelected(_) => {
            reveal(tab_selected);
            reveal(check_updates);
        },
        MessageModel::RunLogWritten(_) => {
            reveal(run_log_written);
        },
        MessageModel::LaunchPreCheck(_, _) => {
            reveal(prechecked);
        },
        MessageModel::SapphireLine(_) | MessageModel::SapphireLines(_) => {
            reveal(lines_came);
        },
        MessageModel::SapphireExited(_) => {
            reveal(exited);
        },
        MessageModel::SapphireStopConfirmed => {
            reveal(stop_confirmed);
        },
        MessageModel::CheckForUpdates => {
            reveal(check_updates);
        },
        MessageModel::UpdatesAvailable(_) => {
            reveal(updates_known);
        },
        MessageModel::UpdateClicked => {
            reveal(update_asked);
            reveal(update_started);
        },
        MessageModel::UpdateAfterStop => {
            reveal(update_after_stop);
            reveal(update_started);
        },
        MessageModel::UpdateStepDone(_, _) => {
            reveal(part_done);
        },
        _ => {},
    }
}

proof fn lemma_setup_keeps(a: AppModel, m: MessageModel)
    ensures
        only_its_own(a, m, setup_turn(a, m).0),
{
    reveal(setup_turn);
    match m {
        MessageModel::ScanClicked => {
            reveal(scan_started);
        },
        MessageModel::GoClicked => {
            reveal(install_started);
            reveal(kicked);
        },
        MessageModel::StepResult(_, _) => {
            reveal(step_checked);
        },
        MessageModel::InstallStepResult(_, _, _) => {
            reveal(step_installed);
            reveal(kicked);
        },
        MessageModel::UninstallCondaEnvClick => {
            reveal(remove_env_clicked);
        },
        MessageModel::UninstallDeleteFolderClick => {
            reveal(delete_folder_clicked);
        },
        MessageModel::UninstallDeleteUserdataClick => {
            reveal(delete_userdata_clicked);
        },
        MessageModel::UninstallResult(_, _) => {
            reveal(uninstall_over);
        },
        MessageModel::TroubleshootCheck => {
            reveal(checks_started);
        },
        MessageModel::TroubleshootResult(_, _) => {
            reveal(check_made);
        },
        MessageModel::TroubleshootFix(_) => {
            reveal(fix_started);
        },
        MessageModel::TroubleshootFixResult(_, _, _) => {
            reveal(fix_over);
        },
        _ => {},
    }
}

proof fn lemma_service_keeps(a: AppModel, m: MessageModel, f: FactsModel)
    ensures
        only_its_own(a, m, service_turn(a, m, f).0),
{
    reveal(service_turn);
    reveal(service_detected);
    reveal(service_started);
    reveal(service_stopped);
    reveal(service_restarted);
    reveal(service_acted);
    reveal(service_refreshed);
    reveal(service_was_installed);
    reveal(service_was_removed);
    reveal(remove_service_clicked);
    reveal(env_saved);
}

/// Whatever comes, it changes only what it is about: the folder and the
/// branch stay until others are chosen, results stay until newer ones come,
/// nothing starts to run by itself, and the log only grows, but where it is
/// cut to its length.
pub proof fn law_news_changes_only_its_own(a: AppModel, m: MessageModel, f: FactsModel)
    ensures
        only_its_own(a, m, turned(a, m, f).0),
{
    lemma_run_keeps(a, m, f);
    lemma_setup_keeps(a, m);
    lemma_service_keeps(a, m, f);
}

/// Lines that came, from an installation or from Sapphire, are put behind
/// those that are there, and only the oldest ever go.
pub proof fn law_lines_are_added_at_the_end(
    a: AppModel,
    line: Seq<char>,
    list: Seq<Seq<char>>,
    f: FactsModel,
)
    ensures
        ({
            let b = turned(a, MessageModel::SapphireLines(list), f).0;
            let c = turned(a, MessageModel::SapphireLine(line), f).0;
            let d = turned(a, MessageModel::Tick, f).0;
            let e = turned(a, MessageModel::Log(line), f).0;
            let g = turned(a, MessageModel::CopyRunLog, f);
            &&& b.sapphire_log.is_suffix_of(a.sapphire_log + list)
            &&& a.sapphire_log.len() + list.len() <= 2000 ==> b.sapphire_log == a.sapphire_log + list
            &&& c.sapphire_log.is_suffix_of(a.sapphire_log.push(line))
            &&& c.sapphire_log.last() == line
            &&& d.log_lines.is_suffix_of(a.log_lines + f.output)
            &&& a.log_lines.len() + f.output.len() <= 1000 ==> d.log_lines == a.log_lines
                + f.output
            &&& d.spinner_tick != a.spinner_tick
            &&& e.log_lines == a.log_lines.push(line)
            &&& g.1 == seq![EffectModel::Copy(joined(a.sapphire_log, "\n"@))]
        }),
{
    reveal(run_turn);
    reveal(lines_came);
    reveal(ticked);
    super::text::law_list_is_cut_to_length(a.sapphire_log + list, 2000);
    super::text::law_list_is_cut_to_length(a.sapphire_log + seq![line], 2000);
    super::text::law_list_is_cut_to_length(a.log_lines + f.output, 1000);
    assert(a.sapphire_log + seq![line] =~= a.sapphire_log.push(line));
    assert(a.log_lines + Seq::<Seq<char>>::empty() =~= a.log_lines);
    if f.output.len() == 0 {
        assert(a.log_lines + f.output =~= a.log_lines);
    }
}

// ── The log ──────────────────────────────────────────────────────────────

/// Does `b` have the log of `a` with this line behind it?
pub open spec fn adds(a: AppModel, b: AppModel, line: Seq<char>) -> bool {
    b.log_lines == a.log_lines.push(line)
}

/// The log tells of launches, stops and updates in the words for them.
pub proof fn law_log_tells_of_runs(a: AppModel, text: Seq<char>, ok: bool, f: FactsModel)
    ensures
        a.sapphire.running ==> adds(
            a,
            turned(a, MessageModel::Launch, f).0,
            "Sapphire is already running."@,
        ),
        !a.sapphire.running && a.service is Some ==> adds(
            a,
            turned(a, MessageModel::Launch, f).0,
            "Starting Sapphire service..."@,
        ),
        !a.sapphire.running && a.service is None && f.main_py ==> adds(
            a,
            turned(a, MessageModel::Launch, f).0,
            "Checking if Sapphire is already running..."@,
        ),
        a.service is None ==> adds(
            a,
            turned(a, MessageModel::LaunchPreCheck(false, true), f).0,
            "Launching Sapphire..."@,
        ),
        a.service is None ==> adds(
            a,
            turned(a, MessageModel::LaunchPreCheck(true, ok), f).0,
            "Sapphire already running."@,
        ),
        adds(
            a,
            turned(a, MessageModel::StopSapphire, f).0,
            if a.service is Some {
                "Stopping Sapphire service..."@
            } else {
                "Stopping Sapphire..."@
            },
        ),
        !f.repo ==> adds(
            a,
            turned(a, MessageModel::SwitchBranch, f).0,
            "No repo found — install first."@,
        ),
        a.sapphire.running || a.sapphire.stopping ==> adds(
            a,
            turned(a, MessageModel::UpdateClicked, f).0,
            "[update] Stopping Sapphire first..."@,
        ),
        !a.sapphire.running && !a.sapphire.stopping ==> adds(
            a,
            turned(a, MessageModel::UpdateClicked, f).0,
            if f.repo {
                "[update] Pulling latest changes..."@
            } else {
                "No repo found — install first."@
            },
        ),
        !ok ==> turned(a, MessageModel::UpdateStepDone(text, ok), f).0.log_lines
            == a.log_lines.push("[update] "@ + text).push(
            "[update] Stopped — fix the issue and try again."@,
        ),
        ok ==> turned(a, MessageModel::UpdateStepDone(text, ok), f).0.log_lines == a.log_lines.push(
            "[update] "@ + text,
        ).push(
            if current_part(a.update_status) == 0 && a.update_status.len() > 0 {
                "[update] Updating dependencies..."@
            } else {
                "[update] Update complete!"@
            },
        ),
        adds(a, turned(a, MessageModel::CopyRunLog, f).0, "Copied to clipboard."@),
        adds(a, turned(a, MessageModel::RunLogWritten(false), f).0, "Couldn't write log file."@),
{
    reveal(run_turn);
    reveal(launched);
    reveal(service_started);
    reveal(service_stopped);
    reveal(prechecked);
    reveal(stopping);
    reveal(switch_asked);
    reveal(update_asked);
    reveal(update_started);
    reveal(part_done);
    reveal(run_log_written);
}

/// The log tells of scans, installations, checks and the uninstaller in the
/// words for them.
pub proof fn law_log_tells_of_setup(
    a: AppModel,
    step: Step,
    status: StepStatusModel,
    check: TsCheck,
    text: Seq<char>,
    ok: bool,
    f: FactsModel,
)
    ensures
        adds(a, turned(a, MessageModel::ScanClicked, f).0, "Scanning system..."@),
        ({
            let log = turned(a, MessageModel::StepResult(step, status), f).0.log_lines;
            let line = "[scan] "@ + step_name(a.host.platform, step) + " — "@
                + status.detail_text();
            let known = a.log_lines.push(line);
            ||| log == known
            ||| log == known.push("Scan complete."@)
            ||| log == known.push("Scan complete."@).push(
                "Everything looks good! Sapphire is ready to launch."@,
            )
        }),
        status is Failed ==> turned(a, MessageModel::InstallStepResult(step, status, ""@), f).0.log_lines
            == a.log_lines.push(
            "[install] "@ + step_name(a.host.platform, step) + " — "@ + status.detail_text(),
        ).push("Install stopped — fix the issue above and try again."@),
        adds(a, turned(a, MessageModel::TroubleshootCheck, f).0, "[troubleshoot] Running checks..."@),
        adds(
            a,
            turned(a, MessageModel::TroubleshootFix(check), f).0,
            "[troubleshoot] Fixing "@ + check_name(check) + "..."@,
        ),
        adds(
            a,
            turned(a, MessageModel::TroubleshootFixResult(check, text, ok), f).0,
            "[troubleshoot] "@ + text,
        ),
        a.armed.remove_env ==> adds(
            a,
            turned(a, MessageModel::UninstallCondaEnvClick, f).0,
            "[uninstall] Removing conda environment 'sapphire'..."@,
        ),
        a.armed.delete_folder ==> adds(
            a,
            turned(a, MessageModel::UninstallDeleteFolderClick, f).0,
            "[uninstall] Deleting "@ + a.install_path + "..."@,
        ),
        a.armed.delete_userdata ==> adds(
            a,
            turned(a, MessageModel::UninstallDeleteUserdataClick, f).0,
            "[uninstall] Deleting "@ + a.install_path + "\\user..."@,
        ),
        status.detail() is None ==> status.detail_text() == ""@,
        status.detail() is Some ==> status.detail_text() == status.detail()->0,
{
    reveal(setup_turn);
    reveal(scan_started);
    reveal(step_checked);
    reveal(step_installed);
    reveal(checks_started);
    reveal(fix_started);
    reveal(fix_over);
    reveal(remove_env_clicked);
    reveal(delete_folder_clicked);
    reveal(delete_userdata_clicked);
    reveal_strlit("");
}

/// The log tells of an installation from its beginning to its end, and shows
/// what each step printed before what came of it.
pub proof fn law_log_tells_of_the_installation(
    a: AppModel,
    k: int,
    text: Seq<char>,
    output: Seq<char>,
    i: int,
    f: FactsModel,
)
    requires
        a.wf(),
        0 <= k < 6,
        output.len() > 0,
    ensures
        ({
            let step = a.steps[k].0;
            let b = turned(a, MessageModel::GoClicked, f).0;
            let c = turned(
                a,
                MessageModel::InstallStepResult(step, StepStatusModel::Failed(text), output),
                f,
            ).0;
            let report = crate::text::tail_of(
                a.log_lines + crate::output::report_of(lines(output)),
                1000,
            );
            &&& first_missing(a.steps, i) ==> b.log_lines == a.log_lines.push(
                "Starting install..."@,
            ).push("[install] "@ + step_name(a.host.platform, a.steps[i].0) + "..."@)
            &&& none_missing(a.steps) ==> b.log_lines == a.log_lines.push(
                "Starting install..."@,
            ).push("All done! Sapphire is installed and ready."@)
            &&& c.log_lines == report.push(
                "[install] "@ + step_name(a.host.platform, step) + " — "@ + text,
            ).push("Install stopped — fix the issue above and try again."@)
        }),
{
    reveal(setup_turn);
    reveal(install_started);
    reveal(step_installed);
    reveal(kicked);
    lemma_steps_of(a);
    let c = noted(
        AppModel { busy: Busy { installing: true, ..a.busy }, ..a },
        "Starting install..."@,
    );
    if first_missing(a.steps, i) {
        lemma_next_missing(c.steps, i);
        assert(a.steps[i].0 == all_steps()[i]);
    }
    if none_missing(a.steps) {
        assert forall|j: int| 0 <= j < 7 implies (#[trigger] c.steps[j]).0 == Step::Done || !(
        c.steps[j].1 is NotFound) by {
            if j < 6 {
                assert(!(a.steps[j].1 is NotFound));
            }
        }
        lemma_next_missing(c.steps, 7);
    }
}

/// The log tells of the service in the words for it.
pub proof fn law_log_tells_of_the_service(
    a: AppModel,
    s: ServiceInfoModel,
    text: Seq<char>,
    f: FactsModel,
)
    ensures
        adds(a, turned(a, MessageModel::ServiceStart, f).0, "Starting Sapphire service..."@),
        adds(a, turned(a, MessageModel::ServiceStop, f).0, "Stopping Sapphire service..."@),
        adds(a, turned(a, MessageModel::ServiceRestart, f).0, "Restarting Sapphire service..."@),
        adds(
            a,
            turned(a, MessageModel::ServiceEnable, f).0,
            "Enabling sapphire.service (autostart at login)..."@,
        ),
        adds(
            a,
            turned(a, MessageModel::ServiceDisable, f).0,
            "Disabling sapphire.service autostart..."@,
        ),
        adds(
            a,
            turned(a, MessageModel::ServiceInstall, f).0,
            "[service] Creating systemd --user unit..."@,
        ),
        a.armed.remove_service ==> adds(
            a,
            turned(a, MessageModel::ServiceRemoveClick, f).0,
            "[service] Removing systemd --user unit..."@,
        ),
        adds(
            a,
            turned(a, MessageModel::EnvSaveRestart(text), f).0,
            "[service] Saving environment, then restarting..."@,
        ),
        turned(a, MessageModel::EnvSaved(true), f).0.log_lines == a.log_lines.push(
            "[service] Environment saved."@,
        ).push("Restarting Sapphire service..."@),
        adds(
            a,
            turned(a, MessageModel::EnvSaved(false), f).0,
            "[service] Couldn't write the environment file."@,
        ),
        ({
            let b = turned(a, MessageModel::ServiceDetected(Some(s)), f).0;
            let found = a.log_lines.push("Detected sapphire.service ("@ + s.sub_state + ")."@);
            b.log_lines == if s.working_dir is Some && !f.main_py && f.service_main_py {
                found.push("Using service path: "@ + s.working_dir->0)
            } else {
                found
            }
        }),
{
    reveal(service_turn);
    reveal(service_started);
    reveal(service_stopped);
    reveal(service_restarted);
    reveal(remove_service_clicked);
    reveal(env_saved);
    reveal(service_detected);
}

} // verus!

//! Scanning, installing, uninstalling and troubleshooting, as the state sees
//! them.
use crate::app::{App, AppModel, Armed, Busy, Effect, EffectModel};
use crate::install::{InstallJob, InstallJobModel};
use crate::job::{Job, JobModel};
use crate::output::{cap_lines, report, report_of};
use crate::parts::{
    all_checking, all_set, branch_or_stable, check_name, or_stable, set_all_checking, set_all_steps,
    set_check, set_step, ts_label, with_check, with_step, Step, StepStatus, StepStatusModel,
    TsCheck, TsStatus, TsStatusModel,
};
use crate::scan::{step_label, step_name, ScanJob, ScanJobModel};
use crate::text::{lines, lines_of, push_lines, tail_of};
use crate::troubleshoot::{TsJob, TsJobModel};
use crate::turn::{add_effects, noted, nothing, one, quiet, starting, Turn, LOG_CAP};
use crate::upkeep::{UninstallJob, UninstallJobModel};
use vstd::prelude::*;

verus! {

// ── Scanning ─────────────────────────────────────────────────────────────

/// The request for a check.
pub open spec fn scan_effect(job: ScanJobModel) -> EffectModel {
    EffectModel::Start(JobModel::Scan(job))
}

/// The system is to be scanned: all checks start at once.
#[verifier::opaque]
pub open spec fn scan_started(a: AppModel) -> Turn {
    (
        noted(
            AppModel {
                busy: Busy { scanning: true, ..a.busy },
                steps: with_step(
                    all_set(a.steps, StepStatusModel::Checking),
                    Step::Done,
                    StepStatusModel::NotStarted,
                ),
                ..a
            },
            "Scanning system..."@,
        ),
        seq![
            scan_effect(ScanJobModel::Git),
            scan_effect(ScanJobModel::Conda),
            scan_effect(ScanJobModel::CondaInit),
            scan_effect(ScanJobModel::PythonEnv),
            scan_effect(ScanJobModel::Clone(a.install_path)),
            scan_effect(ScanJobModel::Deps(a.install_path)),
        ],
    )
}

/// Is a step, apart from the last, still being checked?
pub open spec fn still_checking(steps: Seq<(Step, StepStatusModel)>) -> bool {
    exists|i: int|
        0 <= i < steps.len() && (#[trigger] steps[i]).0 != Step::Done && steps[i].1
            == StepStatusModel::Checking
}

/// Was every step, apart from the last, found?
pub open spec fn all_found(steps: Seq<(Step, StepStatusModel)>) -> bool {
    forall|i: int|
        0 <= i < steps.len() && (#[trigger] steps[i]).0 != Step::Done ==> steps[i].1 is Found
}

/// A check is over; with the last of them the scan is.
#[verifier::opaque]
pub open spec fn step_checked(a: AppModel, step: Step, status: StepStatusModel) -> Turn {
    let steps = with_step(a.steps, step, status);
    let b = AppModel {
        steps,
        ..noted(
            a,
            "[scan] "@ + step_name(a.host.platform, step) + " — "@ + status.detail_text(),
        )
    };
    quiet(
        if still_checking(steps) {
            b
        } else {
            let c = noted(
                AppModel { busy: Busy { scanning: false, ..a.busy }, ..b },
                "Scan complete."@,
            );
            if all_found(steps) {
                noted(
                    AppModel {
                        steps: with_step(
                            steps,
                            Step::Done,
                            StepStatusModel::Done("Sapphire looks ready! Hit Launch."@),
                        ),
                        ..c
                    },
                    "Everything looks good! Sapphire is ready to launch."@,
                )
            } else {
                c
            }
        },
    )
}

fn any_checking(steps: &Vec<(Step, StepStatus)>) -> (b: bool)
    ensures
        b == still_checking(steps.deep_view()),
{
    let ghost all = steps.deep_view();
    for i in 0..steps.len()
        invariant
            all == steps.deep_view(),
            forall|j: int|
                0 <= j < i ==> (#[trigger] all[j]).0 == Step::Done || all[j].1
                    != StepStatusModel::Checking,
    {
        assert(all[i as int] == steps@[i as int].deep_view());
        let checking = match &steps[i].1 {
            StepStatus::Checking => true,
            _ => false,
        };
        if steps[i].0 != Step::Done && checking {
            assert(all[i as int].0 != Step::Done);
            return true;
        }
    }
    false
}

fn everything_found(steps: &Vec<(Step, StepStatus)>) -> (b: bool)
    ensures
        b == all_found(steps.deep_view()),
{
    let ghost all = steps.deep_view();
    for i in 0..steps.len()
        invariant
            all == steps.deep_view(),
            forall|j: int|
                0 <= j < i ==> (#[trigger] all[j]).0 == Step::Done || all[j].1 is Found,
    {
        assert(all[i as int] == steps@[i as int].deep_view());
        let found = match &steps[i].1 {
            StepStatus::Found(_) => true,
            _ => false,
        };
        if steps[i].0 != Step::Done && !found {
            assert(all[i as int].0 != Step::Done);
            return false;
        }
    }
    true
}

impl App {
    pub(crate) fn on_scan(&mut self) -> (effects: Vec<Effect>)
        ensures
            final(self).deep_view() == scan_started(old(self).deep_view()).0,
            effects.deep_view() == scan_started(old(self).deep_view()).1,
    {
        proof {
            reveal(scan_started);
        }
        self.busy.scanning = true;
        self.note("Scanning system...");
        set_all_steps(&mut self.steps, StepStatus::Checking);
        set_step(&mut self.steps, Step::Done, StepStatus::NotStarted);
        let effects = vec![
            Effect::Start(Job::Scan(ScanJob::Git)),
            Effect::Start(Job::Scan(ScanJob::Conda)),
            Effect::Start(Job::Scan(ScanJob::CondaInit)),
            Effect::Start(Job::Scan(ScanJob::PythonEnv)),
            Effect::Start(Job::Scan(ScanJob::Clone(self.install_path.clone()))),
            Effect::Start(Job::Scan(ScanJob::Deps(self.install_path.clone()))),
        ];
        assert(effects.deep_view() =~= scan_started(old(self).deep_view()).1);
        effects
    }

    fn log_step(&mut self, tag: &str, step: Step, status: &StepStatus)
        ensures
            final(self).deep_view() == noted(
                old(self).deep_view(),
                tag@ + step_name(old(self).host.platform, step) + " — "@
                    + status.deep_view().detail_text(),
            ),
    {
        let detail = status.detail_text();
        let line = tag.to_string().concat(step_label(self.host.platform, step)).concat(
            " — ",
        ).concat(detail.as_str());
        self.note(line.as_str());
    }

    pub(crate) fn on_step_checked(&mut self, step: Step, status: StepStatus) -> (effects: Vec<
        Effect,
    >)
        ensures
            final(self).deep_view() == step_checked(
                old(self).deep_view(),
                step,
                status.deep_view(),
            ).0,
            effects.deep_view() == step_checked(
                old(self).deep_view(),
                step,
                status.deep_view(),
            ).1,
    {
        proof {
            reveal(step_checked);
        }
        self.log_step("[scan] ", step, &status);
        set_step(&mut self.steps, step, status);
        if !any_checking(&self.steps) {
            self.busy.scanning = false;
            self.note("Scan complete.");
            if everything_found(&self.steps) {
                set_step(
                    &mut self.steps,
                    Step::Done,
                    StepStatus::Done("Sapphire looks ready! Hit Launch.".to_string()),
                );
                self.note("Everything looks good! Sapphire is ready to launch.");
            }
        }
        nothing()
    }
}

// ── Installing ───────────────────────────────────────────────────────────

/// The first step, apart from the last, that was not found: none, if there
/// is no such step.
pub open spec fn next_missing(steps: Seq<(Step, StepStatusModel)>) -> Option<Step>
    decreases steps.len(),
{
    if steps.len() == 0 {
        None
    } else if steps[0].0 != Step::Done && steps[0].1 is NotFound {
        Some(steps[0].0)
    } else {
        next_missing(steps.drop_first())
    }
}

/// The job that installs a step.
pub open spec fn install_job(a: AppModel, step: Step) -> Seq<EffectModel> {
    let start = |job: InstallJobModel| seq![EffectModel::Start(JobModel::Install(job))];
    match step {
        Step::Git => start(InstallJobModel::Git),
        Step::Conda => start(InstallJobModel::Conda),
        Step::CondaInit => start(InstallJobModel::CondaInit),
        Step::PythonEnv => start(InstallJobModel::PythonEnv),
        Step::Clone => start(
            InstallJobModel::Clone(a.install_path, branch_or_stable(a.selected_branch)),
        ),
        Step::Deps => start(InstallJobModel::Deps(a.install_path)),
        Step::Done => Seq::empty(),
    }
}

/// The installation goes to the next step that is missing, or is over.
#[verifier::opaque]
pub open spec fn kicked(a: AppModel) -> Turn {
    match next_missing(a.steps) {
        None => quiet(
            noted(
                AppModel {
                    busy: Busy { installing: false, timed: false, ..a.busy },
                    steps: with_step(
                        a.steps,
                        Step::Done,
                        StepStatusModel::Done("Sapphire is ready! Hit Launch."@),
                    ),
                    ..a
                },
                "All done! Sapphire is installed and ready."@,
            ),
        ),
        Some(step) => (
            noted(
                AppModel {
                    busy: Busy { timed: true, ..a.busy },
                    steps: with_step(a.steps, step, StepStatusModel::Installing),
                    ..a
                },
                "[install] "@ + step_name(a.host.platform, step) + "..."@,
            ),
            install_job(a, step),
        ),
    }
}

/// The installation is to begin.
#[verifier::opaque]
pub open spec fn install_started(a: AppModel) -> Turn {
    let (b, effects) = kicked(
        noted(
            AppModel { busy: Busy { installing: true, ..a.busy }, ..a },
            "Starting install..."@,
        ),
    );
    (b, seq![EffectModel::ClearOutput] + effects)
}

/// The log with what a step has printed.
pub open spec fn with_report(log: Seq<Seq<char>>, output: Seq<char>) -> Seq<Seq<char>> {
    if output.len() == 0 {
        log
    } else {
        tail_of(log + report_of(lines(output)), LOG_CAP as nat)
    }
}

/// The installation of a step is over: a failure ends the installation, else
/// it goes on.
#[verifier::opaque]
pub open spec fn step_installed(
    a: AppModel,
    step: Step,
    status: StepStatusModel,
    output: Seq<char>,
) -> Turn {
    let b = AppModel {
        steps: with_step(a.steps, step, status),
        ..noted(
            AppModel { log_lines: with_report(a.log_lines, output), ..a },
            "[install] "@ + step_name(a.host.platform, step) + " — "@ + status.detail_text(),
        )
    };
    if status is Failed {
        quiet(
            noted(
                AppModel { busy: Busy { installing: false, ..a.busy }, ..b },
                "Install stopped — fix the issue above and try again."@,
            ),
        )
    } else {
        kicked(b)
    }
}

/// Finds the first step, apart from the last, that was not found.
pub fn first_missing(steps: &Vec<(Step, StepStatus)>) -> (step: Option<Step>)
    ensures
        step == next_missing(steps.deep_view()),
{
    let ghost all = steps.deep_view();
    let mut i: usize = 0;
    assert(all.skip(0) =~= all);
    while i < steps.len()
        invariant
            i <= steps@.len(),
            all == steps.deep_view(),
            next_missing(all) == next_missing(all.skip(i as int)),
        decreases steps@.len() - i,
    {
        assert(all.skip(i as int).drop_first() =~= all.skip(i + 1));
        assert(all.skip(i as int)[0] == steps@[i as int].deep_view());
        let missing = match &steps[i].1 {
            StepStatus::NotFound(_) => true,
            _ => false,
        };
        if steps[i].0 != Step::Done && missing {
            return Some(steps[i].0);
        }
        i = i + 1;
    }
    None
}

impl App {
    fn job_for(&self, step: Step) -> (effects: Vec<Effect>)
        ensures
            effects.deep_view() == install_job(self.deep_view(), step),
    {
        let job = match step {
            Step::Git => InstallJob::Git,
            Step::Conda => InstallJob::Conda,
            Step::CondaInit => InstallJob::CondaInit,
            Step::PythonEnv => InstallJob::PythonEnv,
            Step::Clone => InstallJob::Clone(
                self.install_path.clone(),
                or_stable(self.selected_branch),
            ),
            Step::Deps => InstallJob::Deps(self.install_path.clone()),
            Step::Done => {
                return nothing();
            },
        };
        one(Effect::Start(Job::Install(job)))
    }

    pub(crate) fn kick_next_install(&mut self) -> (effects: Vec<Effect>)
        ensures
            final(self).deep_view() == kicked(old(self).deep_view()).0,
            effects.deep_view() == kicked(old(self).deep_view()).1,
    {
        proof {
            reveal(kicked);
        }
        match first_missing(&self.steps) {
            None => {
                self.busy.installing = false;
                self.busy.timed = false;
                set_step(
                    &mut self.steps,
                    Step::Done,
                    StepStatus::Done("Sapphire is ready! Hit Launch.".to_string()),
                );
                self.note("All done! Sapphire is installed and ready.");
                nothing()
            },
            Some(step) => {
                let effects = self.job_for(step);
                set_step(&mut self.steps, step, StepStatus::Installing);
                self.busy.timed = true;
                let line = "[install] ".to_string().concat(
                    step_label(self.host.platform, step),
                ).concat("...");
                self.note(line.as_str());
                effects
            },
        }
    }

    pub(crate) fn on_go(&mut self) -> (effects: Vec<Effect>)
        ensures
            final(self).deep_view() == install_started(old(self).deep_view()).0,
            effects.deep_view() == install_started(old(self).deep_view()).1,
    {
        proof {
            reveal(install_started);
        }
        self.busy.installing = true;
        self.note("Starting install...");
        let more = self.kick_next_install();
        let mut effects = one(Effect::ClearOutput);
        add_effects(&mut effects, more);
        effects
    }

    fn take_report(&mut self, output: &str)
        ensures
            final(self).deep_view() == (AppModel {
                log_lines: with_report(old(self).deep_view().log_lines, output@),
                ..old(self).deep_view()
            }),
    {
        if !output.is_empty() {
            push_lines(&mut self.log_lines, report(output));
            cap_lines(&mut self.log_lines, LOG_CAP);
        }
    }

    pub(crate) fn on_step_installed(
        &mut self,
        step: Step,
        status: StepStatus,
        output: String,
    ) -> (effects: Vec<Effect>)
        ensures
            final(self).deep_view() == step_installed(
                old(self).deep_view(),
                step,
                status.deep_view(),
                output@,
            ).0,
            effects.deep_view() == step_installed(
                old(self).deep_view(),
                step,
                status.deep_view(),
                output@,
            ).1,
    {
        proof {
            reveal(step_installed);
        }
        self.take_report(output.as_str());
        let failed = match &status {
            StepStatus::Failed(_) => true,
            _ => false,
        };
        self.log_step("[install] ", step, &status);
        set_step(&mut self.steps, step, status);
        if failed {
            self.busy.installing = false;
            self.note("Install stopped — fix the issue above and try again.");
            return nothing();
        }
        self.kick_next_install()
    }
}

// ── Uninstalling ─────────────────────────────────────────────────────────

/// An uninstall job begins.
pub open spec fn uninstalling(
    a: AppModel,
    armed: Armed,
    line: Seq<char>,
    job: UninstallJobModel,
) -> Turn {
    starting(
        noted(
            AppModel { armed, busy: Busy { uninstalling: true, ..a.busy }, ..a },
            line,
        ),
        JobModel::Uninstall(job),
    )
}

/// The removal of the environment is clicked: the first click arms it, the
/// second does it.
#[verifier::opaque]
pub open spec fn remove_env_clicked(a: AppModel) -> Turn {
    if !a.armed.remove_env {
        quiet(AppModel { armed: Armed { remove_env: true, ..a.armed }, ..a })
    } else {
        uninstalling(
            a,
            Armed { remove_env: false, ..a.armed },
            "[uninstall] Removing conda environment 'sapphire'..."@,
            UninstallJobModel::RemoveEnv,
        )
    }
}

/// The deletion of the installation is clicked.
#[verifier::opaque]
pub open spec fn delete_folder_clicked(a: AppModel) -> Turn {
    if !a.armed.delete_folder {
        quiet(AppModel { armed: Armed { delete_folder: true, ..a.armed }, ..a })
    } else {
        uninstalling(
            a,
            Armed { delete_folder: false, ..a.armed },
            "[uninstall] Deleting "@ + a.install_path + "..."@,
            UninstallJobModel::DeleteFolder(a.install_path),
        )
    }
}

/// The deletion of the user's data is clicked.
#[verifier::opaque]
pub open spec fn delete_userdata_clicked(a: AppModel) -> Turn {
    if !a.armed.delete_userdata {
        quiet(AppModel { armed: Armed { delete_userdata: true, ..a.armed }, ..a })
    } else {
        uninstalling(
            a,
            Armed { delete_userdata: false, ..a.armed },
            "[uninstall] Deleting "@ + a.install_path + "\\user..."@,
            UninstallJobModel::DeleteUserdata(a.install_path),
        )
    }
}

/// `list` with two blanks before every line.
pub open spec fn indented(list: Seq<Seq<char>>) -> Seq<Seq<char>> {
    Seq::new(list.len(), |i: int| "  "@ + list[i])
}

/// An uninstall job is over.
#[verifier::opaque]
pub open spec fn uninstall_over(a: AppModel, text: Seq<char>, ok: bool) -> Turn {
    let b = AppModel {
        busy: Busy { uninstalling: false, ..a.busy },
        log_lines: a.log_lines + indented(lines(text)),
        ..a
    };
    quiet(
        if ok {
            AppModel {
                steps: all_set(a.steps, StepStatusModel::NotStarted),
                ..noted(b, "[uninstall] Done."@)
            }
        } else {
            noted(b, "[uninstall] Something went wrong — check the log above."@)
        },
    )
}

fn indent(text: &str) -> (list: Vec<String>)
    ensures
        list.deep_view() == indented(lines(text@)),
{
    let raw = lines_of(text);
    let ghost all = raw.deep_view();
    let mut list: Vec<String> = Vec::new();
    for i in 0..raw.len()
        invariant
            all == raw.deep_view(),
            list@.len() == i,
            forall|j: int|
                #![trigger list@[j]]
                0 <= j < i ==> list@[j]@ == "  "@ + all[j],
    {
        assert(all[i as int] == raw@[i as int]@);
        list.push("  ".to_string().concat(raw[i].as_str()));
    }
    assert(list.deep_view() =~= indented(all));
    list
}

impl App {
    fn uninstall(&mut self, line: &str, job: UninstallJob) -> (effects: Vec<Effect>)
        ensures
            final(self).deep_view() == uninstalling(
                old(self).deep_view(),
                old(self).armed,
                line@,
                job.deep_view(),
            ).0,
            effects.deep_view() == uninstalling(
                old(self).deep_view(),
                old(self).armed,
                line@,
                job.deep_view(),
            ).1,
    {
        self.busy.uninstalling = true;
        self.note(line);
        one(Effect::Start(Job::Uninstall(job)))
    }

    pub(crate) fn on_remove_env(&mut self) -> (effects: Vec<Effect>)
        ensures
            final(self).deep_view() == remove_env_clicked(old(self).deep_view()).0,
            effects.deep_view() == remove_env_clicked(old(self).deep_view()).1,
    {
        proof {
            reveal(remove_env_clicked);
        }
        if !self.armed.remove_env {
            self.armed.remove_env = true;
            return nothing();
        }
        self.armed.remove_env = false;
        self.uninstall(
            "[uninstall] Removing conda environment 'sapphire'...",
            UninstallJob::RemoveEnv,
        )
    }

    pub(crate) fn on_delete_folder(&mut self) -> (effects: Vec<Effect>)
        ensures
            final(self).deep_view() == delete_folder_clicked(old(self).deep_view()).0,
            effects.deep_view() == delete_folder_clicked(old(self).deep_view()).1,
    {
        proof {
            reveal(delete_folder_clicked);
        }
        if !self.armed.delete_folder {
            self.armed.delete_folder = true;
            return nothing();
        }
        self.armed.delete_folder = false;
        let path = self.install_path.clone();
        let line = "[uninstall] Deleting ".to_string().concat(path.as_str()).concat("...");
        self.uninstall(line.as_str(), UninstallJob::DeleteFolder(path))
    }

    pub(crate) fn on_delete_userdata(&mut self) -> (effects: Vec<Effect>)
        ensures
            final(self).deep_view() == delete_userdata_clicked(old(self).deep_view()).0,
            effects.deep_view() == delete_userdata_clicked(old(self).deep_view()).1,
    {
        proof {
            reveal(delete_userdata_clicked);
        }
        if !self.armed.delete_userdata {
            self.armed.delete_userdata = true;
            return nothing();
        }
        self.armed.delete_userdata = false;
        let path = self.install_path.clone();
        let line = "[uninstall] Deleting ".to_string().concat(path.as_str()).concat("\\user...");
        self.uninstall(line.as_str(), UninstallJob::DeleteUserdata(path))
    }

    pub(crate) fn on_uninstall_over(&mut self, text: String, ok: bool) -> (effects: Vec<Effect>)
        ensures
            final(self).deep_view() == uninstall_over(old(self).deep_view(), text@, ok).0,
            effects.deep_view() == uninstall_over(old(self).deep_view(), text@, ok).1,
    {
        proof {
            reveal(uninstall_over);
        }
        self.busy.uninstalling = false;
        push_lines(&mut self.log_lines, indent(text.as_str()));
        if ok {
            self.note("[uninstall] Done.");
            set_all_steps(&mut self.steps, StepStatus::NotStarted);
        } else {
            self.note("[uninstall] Something went wrong — check the log above.");
        }
        nothing()
    }
}

// ── Troubleshooting ──────────────────────────────────────────────────────

/// The request for a troubleshooting check.
pub open spec fn check_effect(job: TsJobModel) -> EffectModel {
    EffectModel::Start(JobModel::Troubleshoot(job))
}

/// All checks are to be made.
#[verifier::opaque]
pub open spec fn checks_started(a: AppModel) -> Turn {
    (
        noted(
            AppModel {
                busy: Busy { troubleshooting: true, ..a.busy },
                ts_checks: all_checking(a.ts_checks),
                ..a
            },
            "[troubleshoot] Running checks..."@,
        ),
        seq![
            check_effect(TsJobModel::Running),
            check_effect(TsJobModel::WebUi),
            check_effect(TsJobModel::Deps),
            check_effect(TsJobModel::Plugins(a.install_path)),
            check_effect(TsJobModel::Gpu),
        ],
    )
}

/// Is a check still being made?
pub open spec fn checks_open(checks: Seq<(TsCheck, TsStatusModel)>) -> bool {
    exists|i: int|
        0 <= i < checks.len() && (#[trigger] checks[i]).1 == TsStatusModel::Checking
}

/// A check was made; with the last of them they are over.
#[verifier::opaque]
pub open spec fn check_made(a: AppModel, check: TsCheck, status: TsStatusModel) -> Turn {
    let checks = with_check(a.ts_checks, check, status);
    let b = AppModel { ts_checks: checks, ..a };
    quiet(
        if checks_open(checks) {
            b
        } else {
            noted(
                AppModel { busy: Busy { troubleshooting: false, ..a.busy }, ..b },
                "[troubleshoot] Done."@,
            )
        },
    )
}

/// A repair is to be made: there is one for the packages and one for the
/// optional features.
#[verifier::opaque]
pub open spec fn fix_started(a: AppModel, check: TsCheck) -> Turn {
    let b = noted(
        AppModel { ts_checks: with_check(a.ts_checks, check, TsStatusModel::Fixing), ..a },
        "[troubleshoot] Fixing "@ + check_name(check) + "..."@,
    );
    match check {
        TsCheck::DepsHealth => (b, seq![check_effect(TsJobModel::FixDeps(a.install_path))]),
        TsCheck::Plugins => (b, seq![check_effect(TsJobModel::FixPlugins(a.install_path))]),
        _ => quiet(b),
    }
}

/// A repair is over.
#[verifier::opaque]
pub open spec fn fix_over(a: AppModel, check: TsCheck, text: Seq<char>, ok: bool) -> Turn {
    quiet(
        AppModel {
            ts_checks: with_check(
                a.ts_checks,
                check,
                if ok {
                    TsStatusModel::Fixed(text)
                } else {
                    TsStatusModel::Problem(text)
                },
            ),
            ..noted(a, "[troubleshoot] "@ + text)
        },
    )
}

fn any_open(checks: &Vec<(TsCheck, TsStatus)>) -> (b: bool)
    ensures
        b == checks_open(checks.deep_view()),
{
    let ghost all = checks.deep_view();
    for i in 0..checks.len()
        invariant
            all == checks.deep_view(),
            forall|j: int| 0 <= j < i ==> (#[trigger] all[j]).1 != TsStatusModel::Checking,
    {
        assert(all[i as int] == checks@[i as int].deep_view());
        let checking = match &checks[i].1 {
            TsStatus::Checking => true,
            _ => false,
        };
        if checking {
            assert(all[i as int].1 == TsStatusModel::Checking);
            return true;
        }
    }
    false
}

impl App {
    pub(crate) fn on_checks(&mut self) -> (effects: Vec<Effect>)
        ensures
            final(self).deep_view() == checks_started(old(self).deep_view()).0,
            effects.deep_view() == checks_started(old(self).deep_view()).1,
    {
        proof {
            reveal(checks_started);
        }
        self.busy.troubleshooting = true;
        set_all_checking(&mut self.ts_checks);
        self.note("[troubleshoot] Running checks...");
        let effects = vec![
            Effect::Start(Job::Troubleshoot(TsJob::Running)),
            Effect::Start(Job::Troubleshoot(TsJob::WebUi)),
            Effect::Start(Job::Troubleshoot(TsJob::Deps)),
            Effect::Start(Job::Troubleshoot(TsJob::Plugins(self.install_path.clone()))),
            Effect::Start(Job::Troubleshoot(TsJob::Gpu)),
        ];
        assert(effects.deep_view() =~= checks_started(old(self).deep_view()).1);
        effects
    }

    pub(crate) fn on_check_made(&mut self, check: TsCheck, status: TsStatus) -> (effects: Vec<
        Effect,
    >)
        ensures
            final(self).deep_view() == check_made(
                old(self).deep_view(),
                check,
                status.deep_view(),
            ).0,
            effects.deep_view() == check_made(
                old(self).deep_view(),
                check,
                status.deep_view(),
            ).1,
    {
        proof {
            reveal(check_made);
        }
        set_check(&mut self.ts_checks, check, status);
        if !any_open(&self.ts_checks) {
            self.busy.troubleshooting = false;
            self.note("[troubleshoot] Done.");
        }
        nothing()
    }

    pub(crate) fn on_fix(&mut self, check: TsCheck) -> (effects: Vec<Effect>)
        ensures
            final(self).deep_view() == fix_started(old(self).deep_view(), check).0,
            effects.deep_view() == fix_started(old(self).deep_view(), check).1,
    {
        proof {
            reveal(fix_started);
        }
        set_check(&mut self.ts_checks, check, TsStatus::Fixing);
        let line = "[troubleshoot] Fixing ".to_string().concat(ts_label(check)).concat("...");
        self.note(line.as_str());
        let path = self.install_path.clone();
        match check {
            TsCheck::DepsHealth => one(Effect::Start(Job::Troubleshoot(TsJob::FixDeps(path)))),
            TsCheck::Plugins => one(Effect::Start(Job::Troubleshoot(TsJob::FixPlugins(path)))),
            _ => nothing(),
        }
    }

    pub(crate) fn on_fix_over(&mut self, check: TsCheck, text: String, ok: bool) -> (effects: Vec<
        Effect,
    >)
        ensures
            final(self).deep_view() == fix_over(old(self).deep_view(), check, text@, ok).0,
            effects.deep_view() == fix_over(old(self).deep_view(), check, text@, ok).1,
    {
        proof {
            reveal(fix_over);
        }
        let line = "[troubleshoot] ".to_string().concat(text.as_str());
        self.note(line.as_str());
        let status = if ok {
            TsStatus::Fixed(text)
        } else {
            TsStatus::Problem(text)
        };
        set_check(&mut self.ts_checks, check, status);
        nothing()
    }
}

} // verus!

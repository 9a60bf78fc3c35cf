//! Running Sapphire: ticks, logs, launching and stopping, branches, updates
//! and the service.
use crate::app::{
    down, unarmed, App, AppModel, Busy, Effect, EffectModel, Facts, FactsModel, Journal, Run,
};
use crate::config::{config_content, config_text};
use crate::host::{kill_cmds, kill_process_tree, HostModel};
use crate::job::{Job, JobModel};
use crate::message::{Message, MessageModel};
use crate::output::cap_lines;
use crate::parts::{
    branch_or_stable, branch_ref, or_stable, Branch, ServiceInfo, ServiceInfoModel, StepStatus,
    StepStatusModel, Tab,
};
use crate::service::{action_cmd, Action, ServiceJob, ServiceJobModel};
use crate::text::{push_line, push_lines, tail_of, words};
use crate::turn::{
    add_effect, bump, empty_lines, halted, next_number, noted, nothing, one, quiet, starting, Turn,
    LOG_CAP, RUN_LOG_CAP,
};
use crate::upkeep::{AfterStop, UpdateJob, UpdateJobModel, WaitJob, WaitJobModel};
use vstd::prelude::*;

verus! {

// ── Ticks, paths and logs ────────────────────────────────────────────────

/// Time passes: the spinner turns, and what an installation has printed goes
/// to the log.
#[verifier::opaque]
pub open spec fn ticked(a: AppModel, f: FactsModel) -> Turn {
    quiet(
        AppModel {
            spinner_tick: bump(a.spinner_tick),
            log_lines: if f.output.len() > 0 {
                tail_of(a.log_lines + f.output, LOG_CAP as nat)
            } else {
                a.log_lines
            },
            ..a
        },
    )
}

/// Another folder is chosen; an empty path is none.
#[verifier::opaque]
pub open spec fn path_changed(a: AppModel, path: Seq<char>) -> Turn {
    if path.len() > 0 {
        (
            AppModel { install_path: path, ..a },
            seq![
                EffectModel::SaveConfig(
                    config_content(path, branch_or_stable(a.selected_branch)),
                ),
            ],
        )
    } else {
        quiet(a)
    }
}

/// Lines of Sapphire's output come in.
#[verifier::opaque]
pub open spec fn lines_came(a: AppModel, more: Seq<Seq<char>>) -> Turn {
    quiet(
        AppModel { sapphire_log: tail_of(a.sapphire_log + more, RUN_LOG_CAP as nat), ..a },
    )
}

/// Sapphire has ended.
#[verifier::opaque]
pub open spec fn exited(a: AppModel, text: Seq<char>) -> Turn {
    quiet(
        AppModel {
            sapphire: halted(a.sapphire),
            sapphire_log: a.sapphire_log.push("--- "@ + text + " ---"@),
            log_lines: a.log_lines.push(text),
            ..a
        },
    )
}

/// The file that the run log is written to.
pub open spec fn run_log_file(h: HostModel) -> Seq<char> {
    h.path(h.temp_dir, "sapphire_log.txt"@)
}

/// A tab is selected: confirmations are disarmed, and the update tab looks
/// for updates.
#[verifier::opaque]
pub open spec fn tab_selected(a: AppModel, tab: Tab) -> Turn {
    let b = AppModel {
        active_tab: tab,
        armed: unarmed(),
        ..a
    };
    if tab == Tab::Update {
        check_updates(b)
    } else {
        quiet(b)
    }
}

impl App {
    pub(crate) fn on_tick(&mut self, facts: &Facts) -> (effects: Vec<Effect>)
        ensures
            final(self).deep_view() == ticked(old(self).deep_view(), facts.deep_view()).0,
            effects.deep_view() == ticked(old(self).deep_view(), facts.deep_view()).1,
    {
        proof {
            reveal(ticked);
        }
        self.spinner_tick = next_number(self.spinner_tick);
        if facts.output.len() > 0 {
            for i in 0..facts.output.len()
                invariant
                    self.deep_view() == (AppModel {
                        spinner_tick: bump(old(self).spinner_tick),
                        log_lines: old(self).log_lines.deep_view()
                            + facts.output.deep_view().take(i as int),
                        ..old(self).deep_view()
                    }),
            {
                push_line(&mut self.log_lines, facts.output[i].clone());
                assert(facts.output.deep_view().take(i + 1) =~= facts.output.deep_view().take(
                    i as int,
                ).push(facts.output[i as int]@));
                assert(self.log_lines.deep_view() =~= old(self).log_lines.deep_view()
                    + facts.output.deep_view().take(i + 1));
            }
            assert(facts.output.deep_view().take(facts.output@.len() as int)
                =~= facts.output.deep_view());
            cap_lines(&mut self.log_lines, LOG_CAP);
        }
        nothing()
    }

    pub(crate) fn on_path(&mut self, path: String) -> (effects: Vec<Effect>)
        ensures
            final(self).deep_view() == path_changed(old(self).deep_view(), path@).0,
            effects.deep_view() == path_changed(old(self).deep_view(), path@).1,
    {
        proof {
            reveal(path_changed);
        }
        if path.as_str().is_empty() {
            return nothing();
        }
        let text = config_text(path.as_str(), or_stable(self.selected_branch));
        self.install_path = path;
        one(Effect::SaveConfig(text))
    }

    pub(crate) fn on_lines(&mut self, more: Vec<String>) -> (effects: Vec<Effect>)
        ensures
            final(self).deep_view() == lines_came(old(self).deep_view(), more.deep_view()).0,
            effects.deep_view() == lines_came(old(self).deep_view(), more.deep_view()).1,
    {
        proof {
            reveal(lines_came);
        }
        push_lines(&mut self.sapphire_log, more);
        cap_lines(&mut self.sapphire_log, RUN_LOG_CAP);
        nothing()
    }

    pub(crate) fn on_exit(&mut self, text: String) -> (effects: Vec<Effect>)
        ensures
            final(self).deep_view() == exited(old(self).deep_view(), text@).0,
            effects.deep_view() == exited(old(self).deep_view(), text@).1,
    {
        proof {
            reveal(exited);
        }
        self.sapphire.running = false;
        self.sapphire.stopping = false;
        push_line(
            &mut self.sapphire_log,
            "--- ".to_string().concat(text.as_str()).concat(" ---"),
        );
        push_line(&mut self.log_lines, text);
        nothing()
    }

    pub(crate) fn on_tab(&mut self, tab: Tab) -> (effects: Vec<Effect>)
        ensures
            final(self).deep_view() == tab_selected(old(self).deep_view(), tab).0,
            effects.deep_view() == tab_selected(old(self).deep_view(), tab).1,
    {
        proof {
            reveal(tab_selected);
        }
        self.active_tab = tab;
        self.armed = unarmed();
        if tab == Tab::Update {
            self.on_check_updates()
        } else {
            nothing()
        }
    }
}

// ── Launching and stopping ───────────────────────────────────────────────

/// Stopping Sapphire: the service where there is one, else the process that
/// was started and any stray one.
pub open spec fn killing(a: AppModel, f: FactsModel) -> EffectModel {
    if a.service is Some {
        EffectModel::Kill(seq![action_cmd(Action::Stop)], false)
    } else {
        EffectModel::Kill(kill_cmds(a.host.platform, f.pid), f.pid > 0)
    }
}

/// Sapphire is to be launched.
#[verifier::opaque]
pub open spec fn launched(a: AppModel, f: FactsModel) -> Turn {
    if a.sapphire.running {
        quiet(noted(a, "Sapphire is already running."@))
    } else if a.service is Some {
        service_started(a)
    } else if !f.main_py {
        quiet(
            noted(
                a,
                "Can't find "@ + a.host.path(a.install_path, "main.py"@)
                    + ". Run the installer first."@,
            ),
        )
    } else {
        starting(
            noted(a, "Checking if Sapphire is already running..."@),
            JobModel::Wait(WaitJobModel::PreCheck(true)),
        )
    }
}

/// What the run log says of a Sapphire that was started elsewhere.
pub open spec fn foreign_log() -> Seq<Seq<char>> {
    seq![
        "Sapphire is already running (started outside this app)."@,
        ""@,
        "No live logs available for this session."@,
        "To see logs: click Stop, then Launch again."@,
    ]
}

/// It is known whether Sapphire is running already.
#[verifier::opaque]
pub open spec fn prechecked(a: AppModel, running: bool, user: bool) -> Turn {
    let tab = if user {
        Tab::Running
    } else {
        a.active_tab
    };
    if a.service is Some {
        quiet(
            AppModel {
                sapphire: Run { running, ..a.sapphire },
                active_tab: tab,
                ..a
            },
        )
    } else if running {
        quiet(
            noted(
                AppModel {
                    sapphire: Run { running: true, ..a.sapphire },
                    sapphire_log: foreign_log(),
                    active_tab: tab,
                    ..a
                },
                "Sapphire already running."@,
            ),
        )
    } else if user {
        (
            noted(
                AppModel {
                    sapphire: Run { running: true, ..a.sapphire },
                    sapphire_log: Seq::empty(),
                    active_tab: tab,
                    ..a
                },
                "Launching Sapphire..."@,
            ),
            seq![EffectModel::Follow(a.install_path)],
        )
    } else {
        quiet(a)
    }
}

/// Sapphire is to be stopped, and stays so after a branch switch.
#[verifier::opaque]
pub open spec fn stopping(a: AppModel, f: FactsModel) -> Turn {
    if a.service is Some {
        service_stopped(a)
    } else {
        (
            noted(
                AppModel { sapphire: Run { stopping: true, restart: false, ..a.sapphire }, ..a },
                "Stopping Sapphire..."@,
            ),
            seq![
                killing(a, f),
                EffectModel::Start(JobModel::Wait(WaitJobModel::Await(AfterStop::Tell))),
            ],
        )
    }
}

/// Sapphire is down.
#[verifier::opaque]
pub open spec fn stop_confirmed(a: AppModel) -> Turn {
    quiet(
        noted(
            AppModel { sapphire: halted(a.sapphire), ..a },
            "Sapphire stopped."@,
        ),
    )
}

impl App {
    fn kill(&self, facts: &Facts) -> (e: Effect)
        ensures
            e.deep_view() == killing(self.deep_view(), facts.deep_view()),
    {
        if self.service.is_some() {
            let list = vec![Action::Stop.command()];
            assert(list.deep_view() =~= seq![action_cmd(Action::Stop)]);
            Effect::Kill(list, false)
        } else {
            Effect::Kill(kill_process_tree(self.host.platform, facts.pid), facts.pid > 0)
        }
    }

    pub(crate) fn on_launch(&mut self, facts: &Facts) -> (effects: Vec<Effect>)
        ensures
            final(self).deep_view() == launched(old(self).deep_view(), facts.deep_view()).0,
            effects.deep_view() == launched(old(self).deep_view(), facts.deep_view()).1,
    {
        proof {
            reveal(launched);
        }
        if self.sapphire.running {
            self.note("Sapphire is already running.");
            nothing()
        } else if self.service.is_some() {
            self.on_service_start()
        } else if !facts.main_py {
            let file = self.host.path(self.install_path.as_str(), "main.py");
            let line = "Can't find ".to_string().concat(file.as_str()).concat(
                ". Run the installer first.",
            );
            self.note(line.as_str());
            nothing()
        } else {
            self.note("Checking if Sapphire is already running...");
            one(Effect::Start(Job::Wait(WaitJob::PreCheck(true))))
        }
    }

    pub(crate) fn on_precheck(&mut self, running: bool, user: bool) -> (effects: Vec<Effect>)
        ensures
            final(self).deep_view() == prechecked(old(self).deep_view(), running, user).0,
            effects.deep_view() == prechecked(old(self).deep_view(), running, user).1,
    {
        proof {
            reveal(prechecked);
        }
        if self.service.is_some() {
            self.sapphire.running = running;
            if user {
                self.active_tab = Tab::Running;
            }
            nothing()
        } else if running {
            self.sapphire.running = true;
            self.sapphire_log =
            words(
                &[
                    "Sapphire is already running (started outside this app).",
                    "",
                    "No live logs available for this session.",
                    "To see logs: click Stop, then Launch again.",
                ],
            );
            assert(self.sapphire_log.deep_view() =~= foreign_log());
            self.note("Sapphire already running.");
            if user {
                self.active_tab = Tab::Running;
            }
            nothing()
        } else if user {
            self.sapphire.running = true;
            self.sapphire_log = empty_lines();
            self.active_tab = Tab::Running;
            self.note("Launching Sapphire...");
            one(Effect::Follow(self.install_path.clone()))
        } else {
            nothing()
        }
    }

    pub(crate) fn on_stop(&mut self, facts: &Facts) -> (effects: Vec<Effect>)
        ensures
            final(self).deep_view() == stopping(old(self).deep_view(), facts.deep_view()).0,
            effects.deep_view() == stopping(old(self).deep_view(), facts.deep_view()).1,
    {
        proof {
            reveal(stopping);
        }
        if self.service.is_some() {
            self.on_service_stop()
        } else {
            self.sapphire.stopping = true;
            self.sapphire.restart = false;
            self.note("Stopping Sapphire...");
            let mut effects = one(self.kill(facts));
            add_effect(&mut effects, Effect::Start(Job::Wait(WaitJob::Await(AfterStop::Tell))));
            effects
        }
    }
}

impl App {
    pub(crate) fn on_stop_confirmed(&mut self) -> (effects: Vec<Effect>)
        ensures
            final(self).deep_view() == stop_confirmed(old(self).deep_view()).0,
            effects.deep_view() == stop_confirmed(old(self).deep_view()).1,
    {
        proof {
            reveal(stop_confirmed);
        }
        self.sapphire.running = false;
        self.sapphire.stopping = false;
        self.note("Sapphire stopped.");
        nothing()
    }
}

// ── Branches ─────────────────────────────────────────────────────────────

/// What is noted of a branch switch.
pub open spec fn switch_line(b: Branch) -> Seq<char> {
    "Switching to "@ + branch_ref(b) + " branch..."@
}

/// A branch is selected: where there is a repository, Sapphire is stopped if
/// need be and the branch checked out.
#[verifier::opaque]
pub open spec fn branch_selected(a: AppModel, b: Branch, f: FactsModel) -> Turn {
    let save = EffectModel::SaveConfig(config_content(a.install_path, b));
    let switch = EffectModel::Start(JobModel::Wait(WaitJobModel::Switch(a.install_path, b)));
    let chosen = AppModel { selected_branch: Some(b), ..a };
    if !f.repo {
        (chosen, seq![save])
    } else if a.sapphire.running || a.sapphire.stopping {
        (
            noted(
                AppModel {
                    sapphire: Run {
                        stopping: true,
                        restart: a.sapphire.restart || (a.sapphire.running
                            && !a.sapphire.stopping),
                        ..a.sapphire
                    },
                    ..noted(chosen, "Stopping Sapphire for branch switch..."@)
                },
                switch_line(b),
            ),
            seq![save, killing(a, f), switch],
        )
    } else {
        (noted(chosen, switch_line(b)), seq![save, switch])
    }
}

/// The selected branch is to be checked out.
#[verifier::opaque]
pub open spec fn switch_asked(a: AppModel, f: FactsModel) -> Turn {
    let b = branch_or_stable(a.selected_branch);
    if !f.repo {
        quiet(noted(a, "No repo found — install first."@))
    } else {
        starting(
            noted(a, switch_line(b)),
            JobModel::Wait(WaitJobModel::Checkout(a.install_path, b)),
        )
    }
}

/// A branch switch is over: a Sapphire that was stopped for it is launched
/// again.
#[verifier::opaque]
pub open spec fn switched(a: AppModel, text: Seq<char>, f: FactsModel) -> Turn {
    let b = noted(
        AppModel {
            sapphire: down(),
            sapphire_log: Seq::empty(),
            ..a
        },
        text,
    );
    if a.sapphire.restart {
        launched(b, f)
    } else {
        quiet(b)
    }
}

impl App {
    pub(crate) fn on_branch(&mut self, b: Branch, facts: &Facts) -> (effects: Vec<Effect>)
        ensures
            final(self).deep_view() == branch_selected(
                old(self).deep_view(),
                b,
                facts.deep_view(),
            ).0,
            effects.deep_view() == branch_selected(old(self).deep_view(), b, facts.deep_view()).1,
    {
        proof {
            reveal(branch_selected);
        }
        self.selected_branch = Some(b);
        let text = config_text(self.install_path.as_str(), b);
        let mut effects = one(Effect::SaveConfig(text));
        if !facts.repo {
            return effects;
        }
        if self.sapphire.running || self.sapphire.stopping {
            self.note("Stopping Sapphire for branch switch...");
            add_effect(&mut effects, self.kill(facts));
            self.sapphire.restart = self.sapphire.restart || (self.sapphire.running
                && !self.sapphire.stopping);
            self.sapphire.stopping = true;
        }
        let line = "Switching to ".to_string().concat(b.git_name()).concat(" branch...");
        self.note(line.as_str());
        add_effect(
            &mut effects,
            Effect::Start(Job::Wait(WaitJob::Switch(self.install_path.clone(), b))),
        );
        effects
    }

    pub(crate) fn on_switch(&mut self, facts: &Facts) -> (effects: Vec<Effect>)
        ensures
            final(self).deep_view() == switch_asked(old(self).deep_view(), facts.deep_view()).0,
            effects.deep_view() == switch_asked(old(self).deep_view(), facts.deep_view()).1,
    {
        proof {
            reveal(switch_asked);
        }
        if !facts.repo {
            self.note("No repo found — install first.");
            return nothing();
        }
        let b = or_stable(self.selected_branch);
        let line = "Switching to ".to_string().concat(b.git_name()).concat(" branch...");
        self.note(line.as_str());
        one(Effect::Start(Job::Wait(WaitJob::Checkout(self.install_path.clone(), b))))
    }

    pub(crate) fn on_switched(&mut self, text: String, facts: &Facts) -> (effects: Vec<Effect>)
        ensures
            final(self).deep_view() == switched(
                old(self).deep_view(),
                text@,
                facts.deep_view(),
            ).0,
            effects.deep_view() == switched(old(self).deep_view(), text@, facts.deep_view()).1,
    {
        proof {
            reveal(switched);
        }
        let restart = self.sapphire.restart;
        self.sapphire = down();
        self.sapphire_log = empty_lines();
        push_line(&mut self.log_lines, text);
        if restart {
            self.on_launch(facts)
        } else {
            nothing()
        }
    }
}

// ── Updates ──────────────────────────────────────────────────────────────

/// Updates are looked for, unless that is going on already.
#[verifier::opaque]
pub open spec fn check_updates(a: AppModel) -> Turn {
    if a.busy.checking_updates {
        quiet(a)
    } else {
        starting(
            AppModel { busy: Busy { checking_updates: true, ..a.busy }, ..a },
            JobModel::Update(
                UpdateJobModel::CheckUpdates(a.install_path, branch_or_stable(a.selected_branch)),
            ),
        )
    }
}

/// It is known how far the installation is behind, or that this cannot be
/// known.
#[verifier::opaque]
pub open spec fn updates_known(a: AppModel, count: Option<u32>) -> Turn {
    quiet(
        AppModel {
            busy: Busy { checking_updates: false, ..a.busy },
            updates_available: count,
            ..a
        },
    )
}

/// The lines of an update that has just begun.
pub open spec fn begun(list: Seq<(Seq<char>, StepStatusModel)>) -> Seq<(Seq<char>, StepStatusModel)> {
    Seq::new(
        list.len(),
        |i: int|
            (
                list[i].0,
                if i == 0 {
                    StepStatusModel::Installing
                } else {
                    StepStatusModel::NotStarted
                },
            ),
    )
}

/// The update begins, where there is a repository.
#[verifier::opaque]
pub open spec fn update_started(a: AppModel, f: FactsModel) -> Turn {
    if !f.repo {
        quiet(noted(a, "No repo found — install first."@))
    } else {
        starting(
            noted(
                AppModel {
                    busy: Busy { updating: true, ..a.busy },
                    update_status: begun(a.update_status),
                    ..a
                },
                "[update] Pulling latest changes..."@,
            ),
            JobModel::Update(UpdateJobModel::Pull(a.install_path)),
        )
    }
}

/// An update is asked for: a Sapphire that is running is stopped first.
#[verifier::opaque]
pub open spec fn update_asked(a: AppModel, f: FactsModel) -> Turn {
    if a.sapphire.running || a.sapphire.stopping {
        (
            AppModel {
                sapphire: Run { stopping: true, ..a.sapphire },
                ..noted(a, "[update] Stopping Sapphire first..."@)
            },
            seq![
                killing(a, f),
                EffectModel::Start(JobModel::Wait(WaitJobModel::Await(AfterStop::Update))),
            ],
        )
    } else {
        update_started(a, f)
    }
}

/// Sapphire was stopped for an update.
#[verifier::opaque]
pub open spec fn update_after_stop(a: AppModel, f: FactsModel) -> Turn {
    update_started(
        noted(
            AppModel {
                sapphire: halted(a.sapphire),
                sapphire_log: Seq::empty(),
                ..a
            },
            "Sapphire stopped. Starting update..."@,
        ),
        f,
    )
}

/// The part of an update that is going on: the number of parts, if none is.
pub open spec fn current_part(list: Seq<(Seq<char>, StepStatusModel)>) -> nat
    decreases list.len(),
{
    if list.len() == 0 || list[0].1 == StepStatusModel::Installing {
        0
    } else {
        1 + current_part(list.drop_first())
    }
}

/// `list` with the status of part `i` set.
pub open spec fn with_part(
    list: Seq<(Seq<char>, StepStatusModel)>,
    i: int,
    status: StepStatusModel,
) -> Seq<(Seq<char>, StepStatusModel)> {
    if 0 <= i < list.len() {
        list.update(i, (list[i].0, status))
    } else {
        list
    }
}

/// Part `i` of an update has failed, which ends the update.
pub open spec fn part_failed(a: AppModel, i: int, text: Seq<char>) -> Turn {
    quiet(
        noted(
            AppModel {
                update_status: with_part(a.update_status, i, StepStatusModel::Failed(text)),
                busy: Busy { updating: false, ..a.busy },
                ..a
            },
            "[update] Stopped — fix the issue and try again."@,
        ),
    )
}

/// The pull has worked, and the dependencies are next.
pub open spec fn pull_done(a: AppModel, text: Seq<char>) -> Turn {
    starting(
        noted(
            AppModel {
                update_status: with_part(
                    with_part(a.update_status, 0, StepStatusModel::Done(text)),
                    1,
                    StepStatusModel::Installing,
                ),
                ..a
            },
            "[update] Updating dependencies..."@,
        ),
        JobModel::Update(UpdateJobModel::UpdateDeps(a.install_path)),
    )
}

/// Part `i` of an update was the last, and has worked.
pub open spec fn update_done(a: AppModel, i: int, text: Seq<char>) -> Turn {
    quiet(
        noted(
            AppModel {
                update_status: with_part(a.update_status, i, StepStatusModel::Done(text)),
                busy: Busy { updating: false, ..a.busy },
                updates_available: Some(0),
                ..a
            },
            "[update] Update complete!"@,
        ),
    )
}

/// A part of an update is over: the pull is followed by the dependencies, a
/// failure ends the update.
#[verifier::opaque]
pub open spec fn part_done(a: AppModel, text: Seq<char>, ok: bool) -> Turn {
    let b = noted(a, "[update] "@ + text);
    let i = current_part(a.update_status) as int;
    if !ok {
        part_failed(b, i, text)
    } else if i == 0 && a.update_status.len() > 0 {
        pull_done(b, text)
    } else {
        update_done(b, i, text)
    }
}

fn begin(list: &mut Vec<(String, StepStatus)>)
    ensures
        final(list).deep_view() == begun(old(list).deep_view()),
{
    let ghost all = list.deep_view();
    let n: usize = list.len();
    let mut fresh: Vec<(String, StepStatus)> = Vec::new();
    for i in 0..n
        invariant
            list@.len() == n,
            list.deep_view() == all,
            fresh@.len() == i,
            forall|j: int|
                #![trigger fresh@[j]]
                0 <= j < i ==> fresh@[j].deep_view() == begun(all)[j],
    {
        let status = if i == 0 {
            StepStatus::Installing
        } else {
            StepStatus::NotStarted
        };
        assert(all[i as int].0 == list@[i as int].0@);
        fresh.push((list[i].0.clone(), status));
    }
    *list = fresh;
    assert(list.deep_view() =~= begun(all));
}

fn part_going_on(list: &Vec<(String, StepStatus)>) -> (k: usize)
    ensures
        k == current_part(list.deep_view()),
        k <= list@.len(),
{
    let ghost all = list.deep_view();
    let mut i: usize = 0;
    assert(all.skip(0) =~= all);
    while i < list.len()
        invariant
            i <= list@.len(),
            all == list.deep_view(),
            current_part(all) == i + current_part(all.skip(i as int)),
        decreases list@.len() - i,
    {
        assert(all.skip(i as int).drop_first() =~= all.skip(i + 1));
        assert(all[i as int].1 == list@[i as int].1.deep_view());
        let here = match &list[i].1 {
            StepStatus::Installing => true,
            _ => false,
        };
        if here {
            return i;
        }
        i = i + 1;
    }
    i
}

fn set_part(list: &mut Vec<(String, StepStatus)>, i: usize, status: StepStatus)
    ensures
        final(list).deep_view() == with_part(
            old(list).deep_view(),
            i as int,
            status.deep_view(),
        ),
{
    if i < list.len() {
        let ghost all = list.deep_view();
        let label = list[i].0.clone();
        list.set(i, (label, status));
        assert(list.deep_view() =~= all.update(
            i as int,
            (all[i as int].0, status.deep_view()),
        ));
    }
}

impl App {
    pub(crate) fn on_check_updates(&mut self) -> (effects: Vec<Effect>)
        ensures
            final(self).deep_view() == check_updates(old(self).deep_view()).0,
            effects.deep_view() == check_updates(old(self).deep_view()).1,
    {
        proof {
            reveal(check_updates);
        }
        if self.busy.checking_updates {
            return nothing();
        }
        self.busy.checking_updates = true;
        one(
            Effect::Start(
                Job::Update(
                    UpdateJob::CheckUpdates(
                        self.install_path.clone(),
                        or_stable(self.selected_branch),
                    ),
                ),
            ),
        )
    }

    pub(crate) fn on_updates(&mut self, count: Option<u32>) -> (effects: Vec<Effect>)
        ensures
            final(self).deep_view() == updates_known(old(self).deep_view(), count).0,
            effects.deep_view() == updates_known(old(self).deep_view(), count).1,
    {
        proof {
            reveal(updates_known);
        }
        self.busy.checking_updates = false;
        self.updates_available = count;
        nothing()
    }

    fn start_update(&mut self, facts: &Facts) -> (effects: Vec<Effect>)
        ensures
            final(self).deep_view() == update_started(old(self).deep_view(), facts.deep_view()).0,
            effects.deep_view() == update_started(old(self).deep_view(), facts.deep_view()).1,
    {
        proof {
            reveal(update_started);
        }
        if !facts.repo {
            self.note("No repo found — install first.");
            return nothing();
        }
        self.busy.updating = true;
        begin(&mut self.update_status);
        self.note("[update] Pulling latest changes...");
        one(Effect::Start(Job::Update(UpdateJob::Pull(self.install_path.clone()))))
    }

    pub(crate) fn on_update(&mut self, facts: &Facts) -> (effects: Vec<Effect>)
        ensures
            final(self).deep_view() == update_asked(old(self).deep_view(), facts.deep_view()).0,
            effects.deep_view() == update_asked(old(self).deep_view(), facts.deep_view()).1,
    {
        proof {
            reveal(update_asked);
        }
        if self.sapphire.running || self.sapphire.stopping {
            self.note("[update] Stopping Sapphire first...");
            let mut effects = one(self.kill(facts));
            self.sapphire.stopping = true;
            add_effect(
                &mut effects,
                Effect::Start(Job::Wait(WaitJob::Await(AfterStop::Update))),
            );
            return effects;
        }
        self.start_update(facts)
    }

    pub(crate) fn on_update_after_stop(&mut self, facts: &Facts) -> (effects: Vec<Effect>)
        ensures
            final(self).deep_view() == update_after_stop(
                old(self).deep_view(),
                facts.deep_view(),
            ).0,
            effects.deep_view() == update_after_stop(old(self).deep_view(), facts.deep_view()).1,
    {
        proof {
            reveal(update_after_stop);
        }
        self.sapphire.running = false;
        self.sapphire.stopping = false;
        self.sapphire_log = empty_lines();
        self.note("Sapphire stopped. Starting update...");
        self.start_update(facts)
    }

    fn fail_part(&mut self, i: usize, text: String) -> (effects: Vec<Effect>)
        ensures
            final(self).deep_view() == part_failed(old(self).deep_view(), i as int, text@).0,
            effects.deep_view() == part_failed(old(self).deep_view(), i as int, text@).1,
    {
        set_part(&mut self.update_status, i, StepStatus::Failed(text));
        self.busy.updating = false;
        self.note("[update] Stopped — fix the issue and try again.");
        nothing()
    }

    fn finish_pull(&mut self, text: String) -> (effects: Vec<Effect>)
        ensures
            final(self).deep_view() == pull_done(old(self).deep_view(), text@).0,
            effects.deep_view() == pull_done(old(self).deep_view(), text@).1,
    {
        set_part(&mut self.update_status, 0, StepStatus::Done(text));
        set_part(&mut self.update_status, 1, StepStatus::Installing);
        self.note("[update] Updating dependencies...");
        one(Effect::Start(Job::Update(UpdateJob::UpdateDeps(self.install_path.clone()))))
    }

    fn finish_update(&mut self, i: usize, text: String) -> (effects: Vec<Effect>)
        ensures
            final(self).deep_view() == update_done(old(self).deep_view(), i as int, text@).0,
            effects.deep_view() == update_done(old(self).deep_view(), i as int, text@).1,
    {
        set_part(&mut self.update_status, i, StepStatus::Done(text));
        self.busy.updating = false;
        self.updates_available = Some(0);
        self.note("[update] Update complete!");
        nothing()
    }

    pub(crate) fn on_part_done(&mut self, text: String, ok: bool) -> (effects: Vec<Effect>)
        ensures
            final(self).deep_view() == part_done(old(self).deep_view(), text@, ok).0,
            effects.deep_view() == part_done(old(self).deep_view(), text@, ok).1,
    {
        proof {
            reveal(part_done);
        }
        let line = "[update] ".to_string().concat(text.as_str());
        self.note(line.as_str());
        let i = part_going_on(&self.update_status);
        if !ok {
            self.fail_part(i, text)
        } else if i == 0 && self.update_status.len() > 0 {
            self.finish_pull(text)
        } else {
            self.finish_update(i, text)
        }
    }
}

// ── The service ──────────────────────────────────────────────────────────

/// The journal is followed anew.
pub open spec fn followed(j: Journal) -> Journal {
    Journal { streaming: true, epoch: bump(j.epoch) }
}

/// The state of the service is asked for.
pub open spec fn refreshing(a: AppModel) -> Turn {
    starting(a, JobModel::Service(ServiceJobModel::Detect(false)))
}

/// An action on the service is started.
pub open spec fn acting(a: AppModel, line: Seq<char>, act: Action) -> Turn {
    starting(noted(a, line), JobModel::Service(ServiceJobModel::Act(act)))
}

/// The service is to be started.
#[verifier::opaque]
pub open spec fn service_started(a: AppModel) -> Turn {
    acting(
        AppModel {
            sapphire: Run { running: true, stopping: false, ..a.sapphire },
            sapphire_log: Seq::empty(),
            journal: followed(a.journal),
            active_tab: Tab::Running,
            ..a
        },
        "Starting Sapphire service..."@,
        Action::Start,
    )
}

/// The service is to be stopped, and stays so after a branch switch.
#[verifier::opaque]
pub open spec fn service_stopped(a: AppModel) -> Turn {
    acting(
        AppModel {
            sapphire: Run { stopping: true, restart: false, ..a.sapphire },
            journal: Journal { streaming: false, ..a.journal },
            ..a
        },
        "Stopping Sapphire service..."@,
        Action::Stop,
    )
}

/// The service is to be restarted.
#[verifier::opaque]
pub open spec fn service_restarted(a: AppModel) -> Turn {
    acting(
        AppModel {
            sapphire: Run { running: true, stopping: false, ..a.sapphire },
            journal: followed(a.journal),
            active_tab: Tab::Running,
            ..a
        },
        "Restarting Sapphire service..."@,
        Action::Restart,
    )
}

/// Is the folder of the service to be taken as the installation? Only where
/// the one that is known holds no Sapphire and the service's folder does.
pub open spec fn adopts(info: ServiceInfoModel, f: FactsModel) -> bool {
    info.working_dir is Some && !f.main_py && f.service_main_py
}

/// The folder of the service is taken as the installation.
pub open spec fn adopted(a: AppModel, dir: Seq<char>, f: FactsModel) -> AppModel {
    noted(
        AppModel { install_path: dir, selected_branch: Some(f.service_branch), ..a },
        "Using service path: "@ + dir,
    )
}

/// The journal of a service that is running is followed.
pub open spec fn attached(a: AppModel, active: bool) -> AppModel {
    AppModel {
        sapphire: Run { running: active, ..a.sapphire },
        sapphire_log: if active {
            Seq::empty()
        } else {
            a.sapphire_log
        },
        journal: if active {
            followed(a.journal)
        } else {
            a.journal
        },
        ..a
    }
}

/// The first look for a service is over.
#[verifier::opaque]
pub open spec fn service_detected(
    a: AppModel,
    info: Option<ServiceInfoModel>,
    f: FactsModel,
) -> Turn {
    let b = AppModel { service: info, ..a };
    match info {
        None => quiet(b),
        Some(s) => {
            let c = noted(b, "Detected sapphire.service ("@ + s.sub_state + ")."@);
            if adopts(s, f) {
                let dir = s.working_dir->0;
                (
                    attached(adopted(c, dir, f), s.active),
                    seq![
                        EffectModel::SaveConfig(config_content(dir, f.service_branch)),
                        EffectModel::Send(MessageModel::ScanClicked),
                    ],
                )
            } else {
                quiet(attached(c, s.active))
            }
        },
    }
}

/// An action on the service is over: its state is asked for anew.
#[verifier::opaque]
pub open spec fn service_acted(a: AppModel, text: Seq<char>, ok: bool) -> Turn {
    let b = noted(a, "[service] "@ + text);
    refreshing(
        if ok {
            b
        } else {
            AppModel { sapphire: halted(a.sapphire), ..b }
        },
    )
}

/// The state of the service is known anew.
#[verifier::opaque]
pub open spec fn service_refreshed(a: AppModel, info: Option<ServiceInfoModel>) -> Turn {
    quiet(
        AppModel {
            service: info,
            sapphire: match info {
                Some(s) => Run { running: s.active, stopping: false, ..a.sapphire },
                None => a.sapphire,
            },
            ..a
        },
    )
}

/// The service was installed, or not.
#[verifier::opaque]
pub open spec fn service_was_installed(a: AppModel, text: Seq<char>, ok: bool) -> Turn {
    let b = noted(a, "[service] "@ + text);
    refreshing(
        if ok {
            AppModel {
                sapphire: Run { running: true, ..a.sapphire },
                sapphire_log: Seq::empty(),
                journal: followed(a.journal),
                ..b
            }
        } else {
            b
        },
    )
}

/// The service was removed, or not.
#[verifier::opaque]
pub open spec fn service_was_removed(a: AppModel, text: Seq<char>, ok: bool) -> Turn {
    let b = noted(a, "[service] "@ + text);
    refreshing(
        if ok {
            AppModel { sapphire: halted(a.sapphire), ..b }
        } else {
            b
        },
    )
}

/// The environment file was saved, or not.
#[verifier::opaque]
pub open spec fn env_saved(a: AppModel, ok: bool) -> Turn {
    if ok {
        service_restarted(noted(a, "[service] Environment saved."@))
    } else {
        quiet(noted(a, "[service] Couldn't write the environment file."@))
    }
}

fn follow(j: Journal) -> (k: Journal)
    ensures
        k == followed(j),
{
    Journal { streaming: true, epoch: next_number(j.epoch) }
}

fn refresh() -> (effects: Vec<Effect>)
    ensures
        effects.deep_view() == seq![
            EffectModel::Start(JobModel::Service(ServiceJobModel::Detect(false))),
        ],
{
    one(Effect::Start(Job::Service(ServiceJob::Detect(false))))
}

impl App {
    pub(crate) fn act(&mut self, line: &str, act: Action) -> (effects: Vec<Effect>)
        ensures
            final(self).deep_view() == acting(old(self).deep_view(), line@, act).0,
            effects.deep_view() == acting(old(self).deep_view(), line@, act).1,
    {
        self.note(line);
        one(Effect::Start(Job::Service(ServiceJob::Act(act))))
    }

    pub(crate) fn on_service_start(&mut self) -> (effects: Vec<Effect>)
        ensures
            final(self).deep_view() == service_started(old(self).deep_view()).0,
            effects.deep_view() == service_started(old(self).deep_view()).1,
    {
        proof {
            reveal(service_started);
        }
        self.sapphire.running = true;
        self.sapphire.stopping = false;
        self.sapphire_log = empty_lines();
        self.journal = follow(self.journal);
        self.active_tab = Tab::Running;
        self.act("Starting Sapphire service...", Action::Start)
    }

    pub(crate) fn on_service_stop(&mut self) -> (effects: Vec<Effect>)
        ensures
            final(self).deep_view() == service_stopped(old(self).deep_view()).0,
            effects.deep_view() == service_stopped(old(self).deep_view()).1,
    {
        proof {
            reveal(service_stopped);
        }
        self.sapphire.stopping = true;
        self.sapphire.restart = false;
        self.journal.streaming = false;
        self.act("Stopping Sapphire service...", Action::Stop)
    }

    pub(crate) fn on_service_restart(&mut self) -> (effects: Vec<Effect>)
        ensures
            final(self).deep_view() == service_restarted(old(self).deep_view()).0,
            effects.deep_view() == service_restarted(old(self).deep_view()).1,
    {
        proof {
            reveal(service_restarted);
        }
        self.sapphire.running = true;
        self.sapphire.stopping = false;
        self.journal = follow(self.journal);
        self.active_tab = Tab::Running;
        self.act("Restarting Sapphire service...", Action::Restart)
    }

    fn adopt(&mut self, dir: &str, facts: &Facts)
        ensures
            final(self).deep_view() == adopted(old(self).deep_view(), dir@, facts.deep_view()),
    {
        self.install_path = dir.to_string();
        self.selected_branch = Some(facts.service_branch);
        let line = "Using service path: ".to_string().concat(dir);
        self.note(line.as_str());
    }

    fn attach(&mut self, active: bool)
        ensures
            final(self).deep_view() == attached(old(self).deep_view(), active),
    {
        self.sapphire.running = active;
        if active {
            self.sapphire_log = empty_lines();
            self.journal = follow(self.journal);
        }
    }

    pub(crate) fn on_service_detected(
        &mut self,
        info: Option<ServiceInfo>,
        facts: &Facts,
    ) -> (effects: Vec<Effect>)
        ensures
            final(self).deep_view() == service_detected(
                old(self).deep_view(),
                info.deep_view(),
                facts.deep_view(),
            ).0,
            effects.deep_view() == service_detected(
                old(self).deep_view(),
                info.deep_view(),
                facts.deep_view(),
            ).1,
    {
        proof {
            reveal(service_detected);
        }
        match info {
            None => {
                self.service = None;
                nothing()
            },
            Some(s) => {
                let active = s.active;
                let line = "Detected sapphire.service (".to_string().concat(
                    s.sub_state.as_str(),
                ).concat(").");
                let dir = match &s.working_dir {
                    Some(dir) => Some(dir.clone()),
                    None => None,
                };
                self.service = Some(s);
                self.note(line.as_str());
                match dir {
                    Some(dir) => {
                        if !facts.main_py && facts.service_main_py {
                            self.adopt(dir.as_str(), facts);
                            self.attach(active);
                            let text = config_text(dir.as_str(), facts.service_branch);
                            let mut effects = one(Effect::SaveConfig(text));
                            add_effect(&mut effects, Effect::Send(Message::ScanClicked));
                            effects
                        } else {
                            self.attach(active);
                            nothing()
                        }
                    },
                    None => {
                        self.attach(active);
                        nothing()
                    },
                }
            },
        }
    }

    fn note_service(&mut self, text: &str)
        ensures
            final(self).deep_view() == noted(old(self).deep_view(), "[service] "@ + text@),
    {
        let line = "[service] ".to_string().concat(text);
        self.note(line.as_str());
    }

    pub(crate) fn on_service_acted(&mut self, text: String, ok: bool) -> (effects: Vec<Effect>)
        ensures
            final(self).deep_view() == service_acted(old(self).deep_view(), text@, ok).0,
            effects.deep_view() == service_acted(old(self).deep_view(), text@, ok).1,
    {
        proof {
            reveal(service_acted);
        }
        self.note_service(text.as_str());
        if !ok {
            self.sapphire.running = false;
            self.sapphire.stopping = false;
        }
        refresh()
    }

    pub(crate) fn on_service_refreshed(&mut self, info: Option<ServiceInfo>) -> (effects: Vec<
        Effect,
    >)
        ensures
            final(self).deep_view() == service_refreshed(
                old(self).deep_view(),
                info.deep_view(),
            ).0,
            effects.deep_view() == service_refreshed(old(self).deep_view(), info.deep_view()).1,
    {
        proof {
            reveal(service_refreshed);
        }
        match &info {
            Some(s) => {
                self.sapphire.running = s.active;
                self.sapphire.stopping = false;
            },
            None => {},
        }
        self.service = info;
        nothing()
    }

    pub(crate) fn on_service_installed(&mut self, text: String, ok: bool) -> (effects: Vec<Effect>)
        ensures
            final(self).deep_view() == service_was_installed(old(self).deep_view(), text@, ok).0,
            effects.deep_view() == service_was_installed(old(self).deep_view(), text@, ok).1,
    {
        proof {
            reveal(service_was_installed);
        }
        self.note_service(text.as_str());
        if ok {
            self.sapphire.running = true;
            self.journal = follow(self.journal);
            self.sapphire_log = empty_lines();
        }
        refresh()
    }

    pub(crate) fn on_service_removed(&mut self, text: String, ok: bool) -> (effects: Vec<Effect>)
        ensures
            final(self).deep_view() == service_was_removed(old(self).deep_view(), text@, ok).0,
            effects.deep_view() == service_was_removed(old(self).deep_view(), text@, ok).1,
    {
        proof {
            reveal(service_was_removed);
        }
        self.note_service(text.as_str());
        if ok {
            self.sapphire.running = false;
            self.sapphire.stopping = false;
        }
        refresh()
    }

    pub(crate) fn on_env_saved(&mut self, ok: bool) -> (effects: Vec<Effect>)
        ensures
            final(self).deep_view() == env_saved(old(self).deep_view(), ok).0,
            effects.deep_view() == env_saved(old(self).deep_view(), ok).1,
    {
        proof {
            reveal(env_saved);
        }
        if ok {
            self.note("[service] Environment saved.");
            self.on_service_restart()
        } else {
            self.note("[service] Couldn't write the environment file.");
            nothing()
        }
    }
}

} // verus!

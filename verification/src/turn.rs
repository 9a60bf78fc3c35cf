//! A turn of the launcher: a new state and what is done outside.
use crate::app::{App, AppModel, Effect, EffectModel, Run};
use crate::job::JobModel;
use crate::text::push_line;
use vstd::prelude::*;

verus! {

/// How many lines the launcher log keeps where a job prints into it.
pub const LOG_CAP: usize = 1000;

/// How many lines of Sapphire's output are kept.
pub const RUN_LOG_CAP: usize = 2000;

// ── Small pieces ─────────────────────────────────────────────────────────

/// A state and what is done outside.
pub type Turn = (AppModel, Seq<EffectModel>);

/// Nothing is done outside.
pub open spec fn quiet(a: AppModel) -> Turn {
    (a, Seq::empty())
}

/// A job is started.
pub open spec fn starting(a: AppModel, job: JobModel) -> Turn {
    (a, seq![EffectModel::Start(job)])
}

/// A line is added to the launcher log.
pub open spec fn noted(a: AppModel, line: Seq<char>) -> AppModel {
    AppModel { log_lines: a.log_lines.push(line), ..a }
}

/// Sapphire neither runs nor is being stopped.
pub open spec fn halted(r: Run) -> Run {
    Run { running: false, stopping: false, ..r }
}

/// The number after `n`; after the last one comes 0.
pub open spec fn bump(n: usize) -> usize {
    if n == usize::MAX {
        0
    } else {
        (n + 1) as usize
    }
}

pub(crate) fn next_number(n: usize) -> (m: usize)
    ensures
        m == bump(n),
{
    if n == usize::MAX {
        0
    } else {
        n + 1
    }
}

pub(crate) fn nothing() -> (effects: Vec<Effect>)
    ensures
        effects.deep_view() == Seq::<EffectModel>::empty(),
{
    let effects: Vec<Effect> = Vec::new();
    assert(effects.deep_view() =~= Seq::empty());
    effects
}

pub(crate) fn one(e: Effect) -> (effects: Vec<Effect>)
    ensures
        effects.deep_view() == seq![e.deep_view()],
{
    let effects = vec![e];
    assert(effects.deep_view() =~= seq![e.deep_view()]);
    effects
}

pub(crate) fn add_effect(effects: &mut Vec<Effect>, e: Effect)
    ensures
        final(effects).deep_view() == old(effects).deep_view().push(e.deep_view()),
{
    let ghost before = effects.deep_view();
    effects.push(e);
    assert(effects.deep_view() =~= before.push(e.deep_view()));
}

pub(crate) fn add_effects(effects: &mut Vec<Effect>, more: Vec<Effect>)
    ensures
        final(effects).deep_view() == old(effects).deep_view() + more.deep_view(),
{
    let mut more = more;
    let ghost before = effects.deep_view();
    let ghost added = more.deep_view();
    effects.append(&mut more);
    assert(effects.deep_view() =~= before + added);
}

pub(crate) fn empty_lines() -> (list: Vec<String>)
    ensures
        list.deep_view() == Seq::<Seq<char>>::empty(),
{
    let list: Vec<String> = Vec::new();
    assert(list.deep_view() =~= Seq::empty());
    list
}

impl App {
    pub(crate) fn note(&mut self, line: &str)
        ensures
            final(self).deep_view() == noted(old(self).deep_view(), line@),
    {
        push_line(&mut self.log_lines, line.to_string());
    }
}

} // verus!

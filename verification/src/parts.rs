//! The small types that the launcher's state, messages and jobs are made of.
use crate::text::words;
use vstd::prelude::*;

verus! {

// ── Install steps ────────────────────────────────────────────────────────

/// The steps of an installation, in their order.
#[derive(Debug, Clone, Copy, PartialEq, Eq, Structural)]
pub enum Step {
    Git,
    Conda,
    CondaInit,
    PythonEnv,
    Clone,
    Deps,
    Done,
}

impl DeepView for Step {
    type V = Step;

    open spec fn deep_view(&self) -> Step {
        *self
    }
}

/// The steps of an installation, in their order.
pub open spec fn all_steps() -> Seq<Step> {
    seq![
        Step::Git,
        Step::Conda,
        Step::CondaInit,
        Step::PythonEnv,
        Step::Clone,
        Step::Deps,
        Step::Done,
    ]
}

/// How far a step has come.
#[derive(Debug, Clone)]
pub enum StepStatus {
    NotStarted,
    Checking,
    /// Already there, with a friendly detail.
    Found(String),
    /// Not there, with what is going to be done about it.
    NotFound(String),
    Installing,
    Done(String),
    Failed(String),
}

/// `StepStatus` with its texts as character sequences.
#[verifier::ext_equal]
pub enum StepStatusModel {
    NotStarted,
    Checking,
    Found(Seq<char>),
    NotFound(Seq<char>),
    Installing,
    Done(Seq<char>),
    Failed(Seq<char>),
}

impl DeepView for StepStatus {
    type V = StepStatusModel;

    open spec fn deep_view(&self) -> StepStatusModel {
        match self {
            StepStatus::NotStarted => StepStatusModel::NotStarted,
            StepStatus::Checking => StepStatusModel::Checking,
            StepStatus::Found(s) => StepStatusModel::Found(s@),
            StepStatus::NotFound(s) => StepStatusModel::NotFound(s@),
            StepStatus::Installing => StepStatusModel::Installing,
            StepStatus::Done(s) => StepStatusModel::Done(s@),
            StepStatus::Failed(s) => StepStatusModel::Failed(s@),
        }
    }
}

/// The picture of the spinner at a tick.
pub open spec fn spinner(tick: nat) -> Seq<char> {
    let k = tick % 4;
    if k == 0 {
        "/"@
    } else if k == 1 {
        "-"@
    } else if k == 2 {
        "\\"@
    } else {
        "|"@
    }
}

/// Draws the spinner at a tick.
pub fn spinner_at(tick: usize) -> (s: &'static str)
    ensures
        s@ == spinner(tick as nat),
{
    let k: usize = tick % 4;
    if k == 0 {
        "/"
    } else if k == 1 {
        "-"
    } else if k == 2 {
        "\\"
    } else {
        "|"
    }
}

/// Colours, as red, green and blue bytes of one number.
pub const GREY: u32 = 0x585b70;

pub const BLUE: u32 = 0x3d85c6;

pub const GREEN: u32 = 0x4caf50;

pub const YELLOW: u32 = 0xf9e154;

pub const RED: u32 = 0xe74c3c;

pub const DIM: u32 = 0x7f849c;

impl StepStatusModel {
    /// The sign in front of a step.
    pub open spec fn indicator(self, tick: nat) -> Seq<char> {
        match self {
            StepStatusModel::NotStarted => "-"@,
            StepStatusModel::Checking | StepStatusModel::Installing => spinner(tick),
            StepStatusModel::Found(_) | StepStatusModel::Done(_) => "+"@,
            StepStatusModel::NotFound(_) => "?"@,
            StepStatusModel::Failed(_) => "x"@,
        }
    }

    /// The colour of that sign.
    pub open spec fn color(self) -> u32 {
        match self {
            StepStatusModel::NotStarted => GREY,
            StepStatusModel::Checking | StepStatusModel::Installing => BLUE,
            StepStatusModel::Found(_) | StepStatusModel::Done(_) => GREEN,
            StepStatusModel::NotFound(_) => YELLOW,
            StepStatusModel::Failed(_) => RED,
        }
    }

    /// The detail that the status carries.
    pub open spec fn detail(self) -> Option<Seq<char>> {
        match self {
            StepStatusModel::Found(s) => Some(s),
            StepStatusModel::NotFound(s) => Some(s),
            StepStatusModel::Done(s) => Some(s),
            StepStatusModel::Failed(s) => Some(s),
            _ => None,
        }
    }

    /// The detail that the log shows: nothing, where there is none.
    pub open spec fn detail_text(self) -> Seq<char> {
        match self.detail() {
            Some(s) => s,
            None => ""@,
        }
    }
}

impl StepStatus {
    /// The sign in front of a step.
    pub fn indicator(&self, tick: usize) -> (s: &'static str)
        ensures
            s@ == self.deep_view().indicator(tick as nat),
    {
        match self {
            StepStatus::NotStarted => "-",
            StepStatus::Checking | StepStatus::Installing => spinner_at(tick),
            StepStatus::Found(_) => "+",
            StepStatus::NotFound(_) => "?",
            StepStatus::Done(_) => "+",
            StepStatus::Failed(_) => "x",
        }
    }

    /// The colour of that sign.
    pub fn color(&self) -> (c: u32)
        ensures
            c == self.deep_view().color(),
    {
        match self {
            StepStatus::NotStarted => GREY,
            StepStatus::Checking | StepStatus::Installing => BLUE,
            StepStatus::Found(_) | StepStatus::Done(_) => GREEN,
            StepStatus::NotFound(_) => YELLOW,
            StepStatus::Failed(_) => RED,
        }
    }

    /// The detail that the status carries.
    pub fn detail(&self) -> (d: Option<&str>)
        ensures
            d.deep_view() == self.deep_view().detail(),
    {
        match self {
            StepStatus::Found(s) => Some(s.as_str()),
            StepStatus::NotFound(s) => Some(s.as_str()),
            StepStatus::Done(s) => Some(s.as_str()),
            StepStatus::Failed(s) => Some(s.as_str()),
            _ => None,
        }
    }

    /// The detail that the log shows.
    pub fn detail_text(&self) -> (s: String)
        ensures
            s@ == self.deep_view().detail_text(),
    {
        match self.detail() {
            Some(s) => s.to_string(),
            None => "".to_string(),
        }
    }

    /// A status with the same content.
    pub fn copy(&self) -> (s: StepStatus)
        ensures
            s.deep_view() == self.deep_view(),
    {
        match self {
            StepStatus::NotStarted => StepStatus::NotStarted,
            StepStatus::Checking => StepStatus::Checking,
            StepStatus::Found(s) => StepStatus::Found(s.clone()),
            StepStatus::NotFound(s) => StepStatus::NotFound(s.clone()),
            StepStatus::Installing => StepStatus::Installing,
            StepStatus::Done(s) => StepStatus::Done(s.clone()),
            StepStatus::Failed(s) => StepStatus::Failed(s.clone()),
        }
    }
}

/// Where `step` stands first in `list`; the length of `list`, if it does not.
pub open spec fn step_place(list: Seq<(Step, StepStatusModel)>, step: Step) -> nat
    decreases list.len(),
{
    if list.len() == 0 || list[0].0 == step {
        0
    } else {
        1 + step_place(list.drop_first(), step)
    }
}

/// `list` with the status of `step` set.
pub open spec fn with_step(
    list: Seq<(Step, StepStatusModel)>,
    step: Step,
    status: StepStatusModel,
) -> Seq<(Step, StepStatusModel)> {
    let k = step_place(list, step);
    if k < list.len() {
        list.update(k as int, (step, status))
    } else {
        list
    }
}

/// `list` with every status set to `status`.
pub open spec fn all_set(
    list: Seq<(Step, StepStatusModel)>,
    status: StepStatusModel,
) -> Seq<(Step, StepStatusModel)> {
    Seq::new(list.len(), |i: int| (list[i].0, status))
}

fn step_at(list: &Vec<(Step, StepStatus)>, step: Step) -> (k: usize)
    ensures
        k == step_place(list.deep_view(), step),
        k <= list@.len(),
        k < list@.len() ==> list@[k as int].0 == step,
{
    let ghost all = list.deep_view();
    let mut i: usize = 0;
    assert(all.skip(0) =~= all);
    while i < list.len()
        invariant
            i <= list@.len(),
            all == list.deep_view(),
            step_place(all, step) == i + step_place(all.skip(i as int), step),
        decreases list@.len() - i,
    {
        assert(all.skip(i as int).drop_first() =~= all.skip(i + 1));
        assert(all[i as int].0 == list@[i as int].0);
        if list[i].0 == step {
            return i;
        }
        i = i + 1;
    }
    i
}

/// Sets the status of `step`.
pub fn set_step(list: &mut Vec<(Step, StepStatus)>, step: Step, status: StepStatus)
    ensures
        final(list).deep_view() == with_step(old(list).deep_view(), step, status.deep_view()),
{
    let ghost all = list.deep_view();
    let k = step_at(list, step);
    if k < list.len() {
        list.set(k, (step, status));
        assert(list.deep_view() =~= all.update(k as int, (step, status.deep_view())));
    }
}

/// Sets every status to `status`.
pub fn set_all_steps(list: &mut Vec<(Step, StepStatus)>, status: StepStatus)
    ensures
        final(list).deep_view() == all_set(old(list).deep_view(), status.deep_view()),
{
    let ghost all = list.deep_view();
    let n: usize = list.len();
    for i in 0..n
        invariant
            list@.len() == all.len() == n,
            forall|j: int|
                #![trigger list@[j]]
                0 <= j < i ==> list@[j].deep_view() == (all[j].0, status.deep_view()),
            forall|j: int|
                #![trigger list@[j]]
                i <= j < all.len() ==> list@[j].deep_view() == all[j],
    {
        let step = list[i].0;
        assert(list@[i as int].deep_view() == all[i as int]);
        list.set(i, (step, status.copy()));
    }
    assert(list.deep_view() =~= all_set(all, status.deep_view()));
}

// ── Branches and tabs ────────────────────────────────────────────────────

/// The two lines of development that can be installed.
#[derive(Debug, Clone, Copy, PartialEq, Eq, Structural)]
pub enum Branch {
    Stable,
    Development,
}

impl DeepView for Branch {
    type V = Branch;

    open spec fn deep_view(&self) -> Branch {
        *self
    }
}

/// A branch as the user sees it.
pub open spec fn branch_title(b: Branch) -> Seq<char> {
    match b {
        Branch::Stable => "Stable"@,
        Branch::Development => "Development"@,
    }
}

/// A branch as git knows it.
pub open spec fn branch_ref(b: Branch) -> Seq<char> {
    match b {
        Branch::Stable => "main"@,
        Branch::Development => "dev"@,
    }
}

impl Branch {
    /// The branch as the user sees it.
    pub fn title(self) -> (s: &'static str)
        ensures
            s@ == branch_title(self),
    {
        match self {
            Branch::Stable => "Stable",
            Branch::Development => "Development",
        }
    }

    /// The branch as git knows it.
    pub fn git_name(self) -> (s: &'static str)
        ensures
            s@ == branch_ref(self),
    {
        match self {
            Branch::Stable => "main",
            Branch::Development => "dev",
        }
    }
}

/// The branch that counts where none is selected.
pub open spec fn branch_or_stable(b: Option<Branch>) -> Branch {
    match b {
        Some(b) => b,
        None => Branch::Stable,
    }
}

/// The selected branch, or the stable one.
pub fn or_stable(b: Option<Branch>) -> (r: Branch)
    ensures
        r == branch_or_stable(b),
{
    match b {
        Some(b) => b,
        None => Branch::Stable,
    }
}

/// The tabs of the window.
#[derive(Debug, Clone, Copy, PartialEq, Eq, Structural)]
pub enum Tab {
    Install,
    Update,
    Uninstall,
    Troubleshoot,
    Running,
    Service,
}

impl DeepView for Tab {
    type V = Tab;

    open spec fn deep_view(&self) -> Tab {
        *self
    }
}

// ── Troubleshooting ──────────────────────────────────────────────────────

/// What the troubleshooter looks at.
#[derive(Debug, Clone, Copy, PartialEq, Eq, Structural)]
pub enum TsCheck {
    SapphireRunning,
    WebUi,
    DepsHealth,
    Plugins,
    Gpu,
}

impl DeepView for TsCheck {
    type V = TsCheck;

    open spec fn deep_view(&self) -> TsCheck {
        *self
    }
}

/// The checks, in their order.
pub open spec fn all_checks() -> Seq<TsCheck> {
    seq![
        TsCheck::SapphireRunning,
        TsCheck::WebUi,
        TsCheck::DepsHealth,
        TsCheck::Plugins,
        TsCheck::Gpu,
    ]
}

/// What the troubleshooter has to say on a check.
#[derive(Debug, Clone)]
pub enum TsStatus {
    NotChecked,
    Checking,
    Fine(String),
    Problem(String),
    Fixing,
    Fixed(String),
}

/// `TsStatus` with its texts as character sequences.
#[verifier::ext_equal]
pub enum TsStatusModel {
    NotChecked,
    Checking,
    Fine(Seq<char>),
    Problem(Seq<char>),
    Fixing,
    Fixed(Seq<char>),
}

impl DeepView for TsStatus {
    type V = TsStatusModel;

    open spec fn deep_view(&self) -> TsStatusModel {
        match self {
            TsStatus::NotChecked => TsStatusModel::NotChecked,
            TsStatus::Checking => TsStatusModel::Checking,
            TsStatus::Fine(s) => TsStatusModel::Fine(s@),
            TsStatus::Problem(s) => TsStatusModel::Problem(s@),
            TsStatus::Fixing => TsStatusModel::Fixing,
            TsStatus::Fixed(s) => TsStatusModel::Fixed(s@),
        }
    }
}

/// The name of a check.
pub open spec fn check_name(c: TsCheck) -> Seq<char> {
    match c {
        TsCheck::SapphireRunning => "Sapphire responding"@,
        TsCheck::WebUi => "Web UI loading"@,
        TsCheck::DepsHealth => "Package health"@,
        TsCheck::Plugins => "Optional features"@,
        TsCheck::Gpu => "GPU"@,
    }
}

/// The name of a check.
pub fn ts_label(check: TsCheck) -> (s: &'static str)
    ensures
        s@ == check_name(check),
{
    match check {
        TsCheck::SapphireRunning => "Sapphire responding",
        TsCheck::WebUi => "Web UI loading",
        TsCheck::DepsHealth => "Package health",
        TsCheck::Plugins => "Optional features",
        TsCheck::Gpu => "GPU",
    }
}

/// Where `check` stands first in `list`; the length of `list`, if it does
/// not.
pub open spec fn check_place(list: Seq<(TsCheck, TsStatusModel)>, check: TsCheck) -> nat
    decreases list.len(),
{
    if list.len() == 0 || list[0].0 == check {
        0
    } else {
        1 + check_place(list.drop_first(), check)
    }
}

/// `list` with the status of `check` set.
pub open spec fn with_check(
    list: Seq<(TsCheck, TsStatusModel)>,
    check: TsCheck,
    status: TsStatusModel,
) -> Seq<(TsCheck, TsStatusModel)> {
    let k = check_place(list, check);
    if k < list.len() {
        list.update(k as int, (check, status))
    } else {
        list
    }
}

/// `list` with every check under way.
pub open spec fn all_checking(list: Seq<(TsCheck, TsStatusModel)>) -> Seq<(TsCheck, TsStatusModel)> {
    Seq::new(list.len(), |i: int| (list[i].0, TsStatusModel::Checking))
}

fn check_at(list: &Vec<(TsCheck, TsStatus)>, check: TsCheck) -> (k: usize)
    ensures
        k == check_place(list.deep_view(), check),
        k <= list@.len(),
{
    let ghost all = list.deep_view();
    let mut i: usize = 0;
    assert(all.skip(0) =~= all);
    while i < list.len()
        invariant
            i <= list@.len(),
            all == list.deep_view(),
            check_place(all, check) == i + check_place(all.skip(i as int), check),
        decreases list@.len() - i,
    {
        assert(all.skip(i as int).drop_first() =~= all.skip(i + 1));
        assert(all[i as int].0 == list@[i as int].0);
        if list[i].0 == check {
            return i;
        }
        i = i + 1;
    }
    i
}

/// Sets the status of `check`.
pub fn set_check(list: &mut Vec<(TsCheck, TsStatus)>, check: TsCheck, status: TsStatus)
    ensures
        final(list).deep_view() == with_check(old(list).deep_view(), check, status.deep_view()),
{
    let ghost all = list.deep_view();
    let k = check_at(list, check);
    if k < list.len() {
        list.set(k, (check, status));
        assert(list.deep_view() =~= all.update(k as int, (check, status.deep_view())));
    }
}

/// Marks every check as under way.
pub fn set_all_checking(list: &mut Vec<(TsCheck, TsStatus)>)
    ensures
        final(list).deep_view() == all_checking(old(list).deep_view()),
{
    let ghost all = list.deep_view();
    let n: usize = list.len();
    for i in 0..n
        invariant
            list@.len() == all.len() == n,
            forall|j: int|
                #![trigger list@[j]]
                0 <= j < i ==> list@[j].deep_view() == (all[j].0, TsStatusModel::Checking),
            forall|j: int|
                #![trigger list@[j]]
                i <= j < all.len() ==> list@[j].deep_view() == all[j],
    {
        let check = list[i].0;
        assert(list@[i as int].deep_view() == all[i as int]);
        list.set(i, (check, TsStatus::Checking));
    }
    assert(list.deep_view() =~= all_checking(all));
}

// ── The service ──────────────────────────────────────────────────────────

/// What systemd says of the unit that runs Sapphire.
#[derive(Debug, Clone)]
pub struct ServiceInfo {
    /// Is it running now?
    pub active: bool,
    /// The raw state: active, failed, activating or inactive.
    pub active_state: String,
    /// Does it start at sign-in?
    pub enabled: bool,
    /// The finer state.
    pub sub_state: String,
    /// Where it runs, if it says so.
    pub working_dir: Option<String>,
}

/// `ServiceInfo` with its texts as character sequences.
#[verifier::ext_equal]
pub struct ServiceInfoModel {
    pub active: bool,
    pub active_state: Seq<char>,
    pub enabled: bool,
    pub sub_state: Seq<char>,
    pub working_dir: Option<Seq<char>>,
}

impl DeepView for ServiceInfo {
    type V = ServiceInfoModel;

    open spec fn deep_view(&self) -> ServiceInfoModel {
        ServiceInfoModel {
            active: self.active,
            active_state: self.active_state@,
            enabled: self.enabled,
            sub_state: self.sub_state@,
            working_dir: self.working_dir.deep_view(),
        }
    }
}

// ── Commands ─────────────────────────────────────────────────────────────

/// A program to run: by its name, or one that has to be found first.
#[derive(Debug, Clone)]
pub enum Program {
    Named(String),
    Git,
    Conda,
    /// pip in Sapphire's environment.
    Pip,
}

/// `Program` with its text as a character sequence.
#[verifier::ext_equal]
pub enum ProgramModel {
    Named(Seq<char>),
    Git,
    Conda,
    Pip,
}

impl DeepView for Program {
    type V = ProgramModel;

    open spec fn deep_view(&self) -> ProgramModel {
        match self {
            Program::Named(s) => ProgramModel::Named(s@),
            Program::Git => ProgramModel::Git,
            Program::Conda => ProgramModel::Conda,
            Program::Pip => ProgramModel::Pip,
        }
    }
}

/// A program with its arguments.
#[derive(Debug, Clone)]
pub struct Cmd {
    pub program: Program,
    pub args: Vec<String>,
}

/// `Cmd` with its texts as character sequences.
#[verifier::ext_equal]
pub struct CmdModel {
    pub program: ProgramModel,
    pub args: Seq<Seq<char>>,
}

impl DeepView for Cmd {
    type V = CmdModel;

    open spec fn deep_view(&self) -> CmdModel {
        CmdModel { program: self.program.deep_view(), args: self.args.deep_view() }
    }
}

/// The command that runs `program` with `args`.
pub open spec fn command(program: ProgramModel, args: Seq<Seq<char>>) -> CmdModel {
    CmdModel { program, args }
}

/// The command that runs the program called `name` with `args`.
pub open spec fn named(name: Seq<char>, args: Seq<Seq<char>>) -> CmdModel {
    CmdModel { program: ProgramModel::Named(name), args }
}

/// Makes the command that runs `program` with `args`.
pub fn cmd(program: Program, args: &[&str]) -> (c: Cmd)
    ensures
        c.deep_view() == command(
            program.deep_view(),
            Seq::new(args@.len(), |i: int| args@[i]@),
        ),
{
    Cmd { program, args: words(args) }
}

/// Makes the command that runs the program called `name` with `args`.
pub fn named_cmd(name: &str, args: &[&str]) -> (c: Cmd)
    ensures
        c.deep_view() == named(name@, Seq::new(args@.len(), |i: int| args@[i]@)),
{
    Cmd { program: Program::Named(name.to_string()), args: words(args) }
}

} // verus!

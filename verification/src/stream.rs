//! Following a process: its lines are handed on in batches, its end last.
use crate::message::{Message, MessageModel};
use crate::output::{show_code, shown_code};
use crate::parts::{named, named_cmd, Cmd, CmdModel, Program, ProgramModel};
use crate::text::{push_line, signed_decimal};
use vstd::prelude::*;

verus! {

// ── Notices ──────────────────────────────────────────────────────────────

/// The exit code with which Sapphire asks to be started again.
pub const RESTART_CODE: i32 = 42;

/// What is said of a Sapphire that has ended by itself.
pub open spec fn end_text(success: bool, code: Option<i32>) -> Seq<char> {
    if success {
        "Sapphire exited."@
    } else if code == Some(RESTART_CODE) {
        "Sapphire is restarting..."@
    } else {
        "Sapphire exited (code "@ + signed_decimal(shown_code(code)) + ")."@
    }
}

/// Tells how Sapphire has ended.
pub fn end_notice(success: bool, code: Option<i32>) -> (s: String)
    ensures
        s@ == end_text(success, code),
{
    if success {
        return "Sapphire exited.".to_string();
    }
    let restart = match code {
        Some(n) => n == RESTART_CODE,
        None => false,
    };
    if restart {
        "Sapphire is restarting...".to_string()
    } else {
        let n = show_code(code);
        "Sapphire exited (code ".to_string().concat(n.as_str()).concat(").")
    }
}

/// Tells that Sapphire could not be started.
pub fn start_failure(why: &str) -> (s: String)
    ensures
        s@ == "Failed to start: "@ + why@,
{
    "Failed to start: ".to_string().concat(why)
}

/// Tells that Sapphire's end could not be awaited.
pub fn wait_failure(why: &str) -> (s: String)
    ensures
        s@ == "Error: "@ + why@,
{
    "Error: ".to_string().concat(why)
}

/// The command that prints the journal of the service, its last lines first
/// and then each new one.
pub open spec fn journal_cmd() -> CmdModel {
    named(
        "journalctl"@,
        seq!["--user"@, "-u"@, "sapphire"@, "-f"@, "-n"@, "200"@, "-o"@, "cat"@],
    )
}

/// Makes the command that follows the journal of the service.
pub fn journal_command() -> (c: Cmd)
    ensures
        c.deep_view() == journal_cmd(),
{
    named_cmd("journalctl", &["--user", "-u", "sapphire", "-f", "-n", "200", "-o", "cat"])
}

/// Tells that the journal could not be followed.
pub fn journal_failure(why: &str) -> (s: String)
    ensures
        s@ == "Couldn't read service logs: "@ + why@,
{
    "Couldn't read service logs: ".to_string().concat(why)
}

/// The first line of the run log, for a Python that is run directly.
pub open spec fn first_notice(python: CmdModel) -> Option<Seq<char>> {
    match python.program {
        ProgramModel::Named(name) if python.args.len() == 0 => Some("Using "@ + name),
        _ => None,
    }
}

/// Tells which Python runs Sapphire, where it is run directly.
pub fn python_notice(python: &Cmd) -> (s: Option<String>)
    ensures
        s.deep_view() == first_notice(python.deep_view()),
{
    match &python.program {
        Program::Named(name) => if python.args.len() == 0 {
            Some("Using ".to_string().concat(name.as_str()))
        } else {
            None
        },
        _ => None,
    }
}

// ── Batches ──────────────────────────────────────────────────────────────

/// One thing that comes from a process: a line, or the news of its end.
#[derive(Debug, Clone)]
pub enum SpawnItem {
    Line(String),
    Exited(String),
}

/// `SpawnItem` with its text as a character sequence.
#[verifier::ext_equal]
pub enum ItemModel {
    Line(Seq<char>),
    Exited(Seq<char>),
}

impl DeepView for SpawnItem {
    type V = ItemModel;

    open spec fn deep_view(&self) -> ItemModel {
        match self {
            SpawnItem::Line(s) => ItemModel::Line(s@),
            SpawnItem::Exited(s) => ItemModel::Exited(s@),
        }
    }
}

/// What has been taken from a process and not been handed on.
#[derive(Debug)]
pub struct Batch {
    pub lines: Vec<String>,
    pub exit: Option<String>,
}

/// `Batch` with its texts as character sequences.
#[verifier::ext_equal]
pub struct BatchModel {
    pub lines: Seq<Seq<char>>,
    pub exit: Option<Seq<char>>,
}

impl DeepView for Batch {
    type V = BatchModel;

    open spec fn deep_view(&self) -> BatchModel {
        BatchModel { lines: self.lines.deep_view(), exit: self.exit.deep_view() }
    }
}

/// The batch with nothing in it.
pub open spec fn no_items() -> BatchModel {
    BatchModel { lines: Seq::empty(), exit: None }
}

impl BatchModel {
    /// The batch with one more item.
    pub open spec fn with(self, item: ItemModel) -> BatchModel {
        match item {
            ItemModel::Line(s) => BatchModel { lines: self.lines.push(s), ..self },
            ItemModel::Exited(s) => BatchModel { exit: Some(s), ..self },
        }
    }

    /// Does the batch take another item? Any number of lines goes into it,
    /// until the end comes.
    pub open spec fn is_open(self) -> bool {
        self.exit is None
    }
}

/// How the following of a process goes on after a batch.
#[derive(Debug, Clone)]
pub enum After {
    /// With the next batch.
    More,
    /// With the news of the end, and nothing more.
    Exit(String),
    /// It is over.
    Over,
}

/// `After` with its text as a character sequence.
#[verifier::ext_equal]
pub enum AfterModel {
    More,
    Exit(Seq<char>),
    Over,
}

impl DeepView for After {
    type V = AfterModel;

    open spec fn deep_view(&self) -> AfterModel {
        match self {
            After::More => AfterModel::More,
            After::Exit(s) => AfterModel::Exit(s@),
            After::Over => AfterModel::Over,
        }
    }
}

/// The message that a batch becomes, and how it goes on: one message at a
/// time, the lines before the end.
pub open spec fn handed_on(b: BatchModel) -> (MessageModel, AfterModel) {
    match b.exit {
        Some(s) => if b.lines.len() == 0 {
            (MessageModel::SapphireExited(s), AfterModel::Over)
        } else {
            (MessageModel::SapphireLines(b.lines), AfterModel::Exit(s))
        },
        None => (MessageModel::SapphireLines(b.lines), AfterModel::More),
    }
}

impl Batch {
    /// The batch with nothing in it.
    pub fn new() -> (b: Batch)
        ensures
            b.deep_view() == no_items(),
    {
        let b = Batch { lines: Vec::new(), exit: None };
        assert(b.lines.deep_view() =~= Seq::empty());
        b
    }

    /// Takes an item, and tells whether another may follow.
    pub fn take(&mut self, item: SpawnItem) -> (more: bool)
        ensures
            final(self).deep_view() == old(self).deep_view().with(item.deep_view()),
            more == final(self).deep_view().is_open(),
    {
        match item {
            SpawnItem::Line(s) => {
                push_line(&mut self.lines, s);
            },
            SpawnItem::Exited(s) => {
                self.exit = Some(s);
            },
        }
        self.exit.is_none()
    }

    /// Turns the batch into a message, and tells how it goes on.
    pub fn hand_on(self) -> (r: (Message, After))
        ensures
            r.deep_view() == handed_on(self.deep_view()),
    {
        match self.exit {
            Some(s) => if self.lines.len() == 0 {
                (Message::SapphireExited(s), After::Over)
            } else {
                (Message::SapphireLines(self.lines), After::Exit(s))
            },
            None => (Message::SapphireLines(self.lines), After::More),
        }
    }
}

// ── Nothing is lost ──────────────────────────────────────────────────────

/// The batch after it has taken what it takes of `items`, and how many items
/// that were.
pub open spec fn filled(b: BatchModel, items: Seq<ItemModel>) -> (BatchModel, nat)
    decreases items.len(),
{
    if items.len() == 0 || !b.is_open() {
        (b, 0)
    } else {
        let (c, n) = filled(b.with(items[0]), items.drop_first());
        (c, n + 1)
    }
}

/// Lines as items.
pub open spec fn as_items(lines: Seq<Seq<char>>) -> Seq<ItemModel> {
    Seq::new(lines.len(), |i: int| ItemModel::Line(lines[i]))
}

/// The items that a batch holds, the end last.
pub open spec fn held(b: BatchModel) -> Seq<ItemModel> {
    match b.exit {
        Some(s) => as_items(b.lines).push(ItemModel::Exited(s)),
        None => as_items(b.lines),
    }
}

/// The items that a message and what comes after it tell of.
pub open spec fn told(m: MessageModel, after: AfterModel) -> Seq<ItemModel> {
    let now = match m {
        MessageModel::SapphireLines(lines) => as_items(lines),
        MessageModel::SapphireExited(s) => seq![ItemModel::Exited(s)],
        _ => Seq::empty(),
    };
    match after {
        AfterModel::Exit(s) => now.push(ItemModel::Exited(s)),
        _ => now,
    }
}

proof fn lemma_filled(b: BatchModel, items: Seq<ItemModel>)
    requires
        b.is_open() || items.len() == 0,
    ensures
        ({
            let (c, n) = filled(b, items);
            &&& n <= items.len()
            &&& held(c) == held(b) + items.take(n as int)
            &&& items.len() > 0 ==> n > 0
            &&& n < items.len() ==> !c.is_open()
        }),
    decreases items.len(),
{
    if items.len() > 0 && b.is_open() {
        let one = b.with(items[0]);
        let rest = items.drop_first();
        assert(held(one) =~= held(b).push(items[0]));
        if one.is_open() || rest.len() == 0 {
            lemma_filled(one, rest);
            let (c, n) = filled(one, rest);
            assert(items.take(n as int + 1) =~= seq![items[0]] + rest.take(n as int));
            assert(held(b) + items.take(n as int + 1) =~= held(one) + rest.take(n as int));
        } else {
            assert(filled(one, rest) == (one, 0nat));
            assert(items.take(1) =~= seq![items[0]]);
            assert(held(b) + items.take(1) =~= held(one));
        }
    } else {
        assert(items.take(0) =~= Seq::empty());
        assert(held(b) + items.take(0) =~= held(b));
    }
}

/// Following a process loses nothing and keeps the order: the message of a
/// batch, and the news of the end if that comes after it, tell of exactly
/// the items that were taken. A batch takes all items that are there, up to
/// the news of the end. That news is the last thing that is handed on.
pub proof fn law_following_loses_nothing(items: Seq<ItemModel>)
    requires
        items.len() > 0,
    ensures
        ({
            let (b, n) = filled(no_items(), items);
            let (m, after) = handed_on(b);
            &&& 0 < n <= items.len()
            &&& told(m, after) == items.take(n as int)
            &&& n < items.len() ==> items[n - 1] is Exited
            &&& items[n - 1] is Exited <==> after !is More
        }),
{
    let (b, n) = filled(no_items(), items);
    let (m, after) = handed_on(b);
    lemma_filled(no_items(), items);
    assert(held(no_items()) + items.take(n as int) =~= items.take(n as int));
    assert(told(m, after) =~= held(b)) by {
        if b.lines.len() == 0 {
            assert(as_items(b.lines) =~= Seq::empty());
        }
    }
    assert(items.take(n as int).last() == items[n - 1]);
    assert(held(b).last() == items[n - 1]);
}

/// All lines that are queued go into one batch, however many they are.
pub proof fn law_batch_takes_all_lines(lines: Seq<Seq<char>>)
    requires
        lines.len() > 0,
    ensures
        ({
            let (b, n) = filled(no_items(), as_items(lines));
            &&& n == lines.len()
            &&& handed_on(b) == (MessageModel::SapphireLines(lines), AfterModel::More)
        }),
{
    let items = as_items(lines);
    let (b, n) = filled(no_items(), items);
    lemma_filled(no_items(), items);
    assert(held(no_items()) + items.take(n as int) =~= items.take(n as int));
    law_following_loses_nothing(items);
    assert(items[n - 1] is Line);
    assert(items.take(n as int) =~= items);
    assert(held(b) == items);
    assert(held(b).last() == items[n - 1]);
    assert forall|i: int| 0 <= i < lines.len() implies b.lines[i] == lines[i] by {
        assert(held(b)[i] == items[i]);
    }
    assert(b.lines =~= lines);
}

} // verus!

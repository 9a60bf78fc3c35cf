//! What the launcher makes of the output of other programs.
use crate::text::{
    after_last, chars_of, decode_lossy, is_letter, keep_after_last, letter, lines, lines_of,
    push_line, show_signed, signed_decimal, tail_of, text_of, trim, trim_end, trimmed,
    trimmed_end, utf8_lossy,
};
use vstd::prelude::*;

verus! {

// ── Escape sequences ─────────────────────────────────────────────────────

/// The character that starts an escape sequence.
pub const ESC: char = '\x1b';

/// Does `c` end an escape sequence? One with a bracket ends at a character
/// from `@` to `~`, any other one at a letter.
pub open spec fn ends_sequence(bracket: bool, c: char) -> bool {
    if bracket {
        '@' as u32 <= c as u32 <= '~' as u32
    } else {
        letter(c)
    }
}

/// What follows the end of an escape sequence that has begun before `s`. A
/// sequence without an end goes to the next one, or to the end of the text.
pub open spec fn after_end(bracket: bool, s: Seq<char>) -> Seq<char>
    decreases s.len(),
{
    if s.len() == 0 || s[0] == ESC {
        s
    } else if ends_sequence(bracket, s[0]) {
        s.drop_first()
    } else {
        after_end(bracket, s.drop_first())
    }
}

/// What follows an escape sequence, given what follows its escape character.
pub open spec fn after_sequence(s: Seq<char>) -> Seq<char> {
    if s.len() > 0 && s[0] == '[' {
        after_end(true, s.drop_first())
    } else {
        after_end(false, s)
    }
}

proof fn lemma_after_end_shorter(bracket: bool, s: Seq<char>)
    ensures
        after_end(bracket, s).len() <= s.len(),
    decreases s.len(),
{
    if s.len() > 0 && s[0] != ESC && !ends_sequence(bracket, s[0]) {
        lemma_after_end_shorter(bracket, s.drop_first());
    }
}

proof fn lemma_after_sequence_shorter(s: Seq<char>)
    ensures
        after_sequence(s).len() <= s.len(),
{
    lemma_after_end_shorter(false, s);
    if s.len() > 0 {
        lemma_after_end_shorter(true, s.drop_first());
    }
}

/// `s` without its escape sequences.
pub open spec fn stripped(s: Seq<char>) -> Seq<char>
    decreases s.len(),
    via stripped_shrinks
{
    if s.len() == 0 {
        s
    } else if s[0] == ESC {
        stripped(after_sequence(s.drop_first()))
    } else {
        seq![s[0]] + stripped(s.drop_first())
    }
}

#[via_fn]
proof fn stripped_shrinks(s: Seq<char>) {
    if s.len() > 0 {
        lemma_after_sequence_shorter(s.drop_first());
    }
}

/// Where in a text a stripping is.
#[derive(Debug, Clone, Copy, PartialEq, Eq, Structural)]
pub enum Place {
    Text,
    /// Behind an escape character.
    Start,
    /// In a sequence, with a bracket or without.
    Inside(bool),
}

/// The place behind `c`, given the place before it.
pub open spec fn place_behind(place: Place, c: char) -> Place {
    if c == ESC {
        Place::Start
    } else {
        match place {
            Place::Text => Place::Text,
            Place::Start => if c == '[' {
                Place::Inside(true)
            } else if ends_sequence(false, c) {
                Place::Text
            } else {
                Place::Inside(false)
            },
            Place::Inside(bracket) => if ends_sequence(bracket, c) {
                Place::Text
            } else {
                place
            },
        }
    }
}

/// The place at the end of `s`, given the place before it.
pub open spec fn place_after(place: Place, s: Seq<char>) -> Place
    decreases s.len(),
{
    if s.len() == 0 {
        place
    } else {
        place_after(place_behind(place, s[0]), s.drop_first())
    }
}

/// What a stripping at a place makes of the rest of a text.
spec fn stripped_from(place: Place, rest: Seq<char>) -> Seq<char> {
    match place {
        Place::Text => stripped(rest),
        Place::Start => stripped(after_sequence(rest)),
        Place::Inside(bracket) => stripped(after_end(bracket, rest)),
    }
}

proof fn lemma_stripped_from(place: Place, rest: Seq<char>)
    requires
        rest.len() > 0,
    ensures
        stripped_from(place, rest) == if place == Place::Text && rest[0] != ESC {
            seq![rest[0]] + stripped(rest.drop_first())
        } else {
            stripped_from(place_behind(place, rest[0]), rest.drop_first())
        },
{
}

fn is_end(bracket: bool, c: char) -> (b: bool)
    ensures
        b == ends_sequence(bracket, c),
{
    if bracket {
        '@' as u32 <= c as u32 && c as u32 <= '~' as u32
    } else {
        is_letter(c)
    }
}

fn pass(place: Place, c: char) -> (next: Place)
    ensures
        next == place_behind(place, c),
{
    if c == ESC {
        return Place::Start;
    }
    match place {
        Place::Text => Place::Text,
        Place::Start => if c == '[' {
            Place::Inside(true)
        } else if is_end(false, c) {
            Place::Text
        } else {
            Place::Inside(false)
        },
        Place::Inside(bracket) => if is_end(bracket, c) {
            Place::Text
        } else {
            place
        },
    }
}

/// Strips escape sequences from a text.
pub fn strip_ansi(s: &str) -> (out: String)
    ensures
        out@ == stripped(s@),
{
    let chars = chars_of(s);
    let mut out = String::new();
    let mut place = Place::Text;
    let mut i: usize = 0;
    assert(chars@.skip(0) =~= s@);
    assert(out@ + stripped(s@) =~= stripped(s@));
    while i < chars.len()
        invariant
            i <= chars@.len(),
            out@ + stripped_from(place, chars@.skip(i as int)) == stripped(s@),
        decreases chars@.len() - i,
    {
        let ghost rest = chars@.skip(i as int);
        assert(rest.drop_first() =~= chars@.skip(i + 1));
        let c = chars[i];
        proof {
            lemma_stripped_from(place, rest);
        }
        if place == Place::Text && c != ESC {
            assert(out@ + (seq![c] + stripped(rest.drop_first())) =~= out@.push(c) + stripped(
                rest.drop_first(),
            ));
            out.push(c);
        } else {
            place = pass(place, c);
        }
        i = i + 1;
    }
    assert(stripped_from(place, chars@.skip(i as int)) =~= Seq::<char>::empty());
    assert(out@ + Seq::<char>::empty() =~= out@);
    out
}

/// No escape character is left in a stripped text.
pub proof fn law_stripped_has_no_escape(s: Seq<char>)
    ensures
        !stripped(s).contains(ESC),
    decreases s.len(),
{
    if s.len() > 0 {
        if s[0] == ESC {
            lemma_after_sequence_shorter(s.drop_first());
            law_stripped_has_no_escape(after_sequence(s.drop_first()));
        } else {
            let rest = stripped(s.drop_first());
            law_stripped_has_no_escape(s.drop_first());
            assert forall|i: int| 0 <= i < stripped(s).len() implies stripped(s)[i] != ESC by {
                if i > 0 {
                    assert(stripped(s)[i] == rest[i - 1]);
                    assert(rest.contains(rest[i - 1]));
                }
            }
        }
    }
}

/// A text without escape characters comes through as it is.
pub proof fn law_stripped_keeps_plain_text(s: Seq<char>)
    requires
        !s.contains(ESC),
    ensures
        stripped(s) == s,
    decreases s.len(),
{
    if s.len() > 0 {
        assert(s.contains(s[0]));
        assert forall|c: char| s.drop_first().contains(c) implies s.contains(c) by {
            let i = choose|i: int| 0 <= i < s.drop_first().len() && s.drop_first()[i] == c;
            assert(s[i + 1] == c);
        }
        law_stripped_keeps_plain_text(s.drop_first());
        assert(seq![s[0]] + s.drop_first() =~= s);
    }
}

proof fn lemma_after_end(bracket: bool, w: Seq<char>, end: char, q: Seq<char>)
    requires
        ends_sequence(bracket, end),
        end != ESC,
        forall|i: int|
            0 <= i < w.len() ==> #[trigger] w[i] != ESC && !ends_sequence(bracket, w[i]),
    ensures
        after_end(bracket, w + seq![end] + q) == q,
    decreases w.len(),
{
    let whole = w + seq![end] + q;
    if w.len() == 0 {
        assert(whole[0] == end);
        assert(whole.drop_first() =~= q);
    } else {
        let tail = w.drop_first();
        assert(whole[0] == w[0]);
        assert forall|i: int| 0 <= i < tail.len() implies #[trigger] tail[i] != ESC
            && !ends_sequence(bracket, tail[i]) by {
            assert(tail[i] == w[i + 1]);
        }
        lemma_after_end(bracket, tail, end, q);
        assert(whole.drop_first() =~= tail + seq![end] + q);
    }
}

/// An escape sequence goes, and the text round it stays: plain text `p`, a
/// sequence that ends at `end`, with a bracket or without, and any text `q`
/// behind it.
pub proof fn law_sequence_is_stripped(
    p: Seq<char>,
    bracket: bool,
    w: Seq<char>,
    end: char,
    q: Seq<char>,
)
    requires
        !p.contains(ESC),
        ends_sequence(bracket, end),
        forall|i: int|
            0 <= i < w.len() ==> #[trigger] w[i] != ESC && !ends_sequence(bracket, w[i]),
        !bracket && w.len() > 0 ==> w[0] != '[',
    ensures
        stripped(
            p + (if bracket {
                seq![ESC, '[']
            } else {
                seq![ESC]
            }) + w + seq![end] + q,
        ) == p + stripped(q),
    decreases p.len(),
{
    let head = if bracket {
        seq![ESC, '[']
    } else {
        seq![ESC]
    };
    let whole = p + head + w + seq![end] + q;
    if p.len() == 0 {
        lemma_after_end(bracket, w, end, q);
        let body = w + seq![end] + q;
        assert(whole[0] == ESC);
        if bracket {
            assert(whole.drop_first()[0] == '[');
            assert(whole.drop_first().drop_first() =~= body);
        } else {
            assert(whole.drop_first() =~= body);
            assert(body[0] == if w.len() > 0 {
                w[0]
            } else {
                end
            });
        }
        assert(p + stripped(q) =~= stripped(q));
    } else {
        let tail = p.drop_first();
        assert(p.contains(p[0]));
        assert(!tail.contains(ESC)) by {
            if tail.contains(ESC) {
                let k = choose|k: int| 0 <= k < tail.len() && tail[k] == ESC;
                assert(p[k + 1] == ESC);
            }
        }
        law_sequence_is_stripped(tail, bracket, w, end, q);
        assert(whole[0] == p[0]);
        assert(whole.drop_first() =~= tail + head + w + seq![end] + q);
        assert(seq![p[0]] + (tail + stripped(q)) =~= p + stripped(q));
    }
}

proof fn lemma_stripped_over_cut(place: Place, a: Seq<char>, b: Seq<char>)
    ensures
        stripped_from(place, a + b) == stripped_from(place, a) + stripped_from(
            place_after(place, a),
            b,
        ),
    decreases a.len(),
{
    if a.len() == 0 {
        assert(a + b =~= b);
        assert(stripped_from(place, a) =~= Seq::<char>::empty());
        assert(stripped_from(place, a) + stripped_from(place, b) =~= stripped_from(place, b));
    } else {
        let tail = a.drop_first();
        assert((a + b).drop_first() =~= tail + b);
        lemma_stripped_from(place, a);
        lemma_stripped_from(place, a + b);
        lemma_stripped_over_cut(place_behind(place, a[0]), tail, b);
        if place == Place::Text && a[0] != ESC {
            assert(seq![a[0]] + (stripped(tail) + stripped_from(place_after(Place::Text, tail), b))
                =~= seq![a[0]] + stripped(tail) + stripped_from(place_after(Place::Text, tail), b));
        }
    }
}

/// A text that is cut in two, though not inside an escape sequence, can be
/// stripped piece by piece.
pub proof fn law_stripping_goes_over_a_cut(a: Seq<char>, b: Seq<char>)
    requires
        place_after(Place::Text, a) == Place::Text,
    ensures
        stripped(a + b) == stripped(a) + stripped(b),
{
    lemma_stripped_over_cut(Place::Text, a, b);
}

/// Stripping a second time changes nothing.
pub proof fn law_stripping_twice(s: Seq<char>)
    ensures
        stripped(stripped(s)) == stripped(s),
{
    law_stripped_has_no_escape(s);
    law_stripped_keeps_plain_text(stripped(s));
}

/// Is `part` what stands in `s` at the places `at`, in their order?
pub open spec fn stands_at(part: Seq<char>, s: Seq<char>, at: Seq<int>) -> bool {
    &&& at.len() == part.len()
    &&& forall|i: int| 0 <= i < at.len() ==> 0 <= #[trigger] at[i] < s.len() && s[at[i]] == part[i]
    &&& forall|i: int, j: int| 0 <= i < j < at.len() ==> #[trigger] at[i] < #[trigger] at[j]
}

proof fn lemma_after_end_is_rest(bracket: bool, s: Seq<char>)
    ensures
        after_end(bracket, s) == s.skip(s.len() - after_end(bracket, s).len()),
    decreases s.len(),
{
    lemma_after_end_shorter(bracket, s);
    if s.len() == 0 || s[0] == ESC {
        assert(s.skip(0) =~= s);
    } else if ends_sequence(bracket, s[0]) {
        assert(s.skip(1) =~= s.drop_first());
    } else {
        let t = s.drop_first();
        lemma_after_end_shorter(bracket, t);
        lemma_after_end_is_rest(bracket, t);
        let k = t.len() - after_end(bracket, t).len();
        assert(t.skip(k) =~= s.skip(k + 1));
    }
}

/// Stripping only leaves out: what is left stands in the text, character by
/// character, in the same order. The places are told.
pub proof fn law_stripped_is_part_of_the_text(s: Seq<char>) -> (at: Seq<int>)
    ensures
        stands_at(stripped(s), s, at),
        stripped(s).len() <= s.len(),
    decreases s.len(),
{
    if s.len() == 0 {
        Seq::empty()
    } else {
        let t = s.drop_first();
        let rest = if s[0] == ESC {
            after_sequence(t)
        } else {
            t
        };
        lemma_after_sequence_shorter(t);
        lemma_after_end_is_rest(false, t);
        if s[0] == ESC && t.len() > 0 {
            lemma_after_end_shorter(true, t.drop_first());
            lemma_after_end_is_rest(true, t.drop_first());
        }
        let k: int = s.len() - rest.len();
        assert(rest =~= s.skip(k));
        let inner = law_stripped_is_part_of_the_text(rest);
        let moved = Seq::new(inner.len(), |i: int| inner[i] + k);
        if s[0] == ESC {
            moved
        } else {
            let at = seq![0int] + moved;
            assert forall|i: int| 0 <= i < at.len() implies 0 <= #[trigger] at[i] < s.len()
                && s[at[i]] == stripped(s)[i] by {
                if i > 0 {
                    assert(at[i] == inner[i - 1] + 1);
                }
            }
            assert forall|i: int, j: int| 0 <= i < j < at.len() implies #[trigger] at[i]
                < #[trigger] at[j] by {
                assert(at[j] == inner[j - 1] + 1);
                if i > 0 {
                    assert(at[i] == inner[i - 1] + 1);
                }
            }
            at
        }
    }
}

// ── Live lines ───────────────────────────────────────────────────────────

/// `bytes` without the line feeds and carriage returns that they end with.
pub open spec fn chomped(bytes: Seq<u8>) -> Seq<u8>
    decreases bytes.len(),
{
    if bytes.len() > 0 && (bytes.last() == 10 || bytes.last() == 13) {
        chomped(bytes.drop_last())
    } else {
        bytes
    }
}

fn chomp(bytes: Vec<u8>) -> (out: Vec<u8>)
    ensures
        out@ == chomped(bytes@),
{
    let mut out = bytes;
    while out.len() > 0 && (out[out.len() - 1] == 10 || out[out.len() - 1] == 13)
        invariant
            chomped(out@) == chomped(bytes@),
        decreases out@.len(),
    {
        let ghost was = out@;
        let _ = out.pop();
        assert(out@ =~= was.drop_last());
    }
    out
}

/// `s` without the line feeds and carriage returns that it ends with.
pub open spec fn chomped_text(s: Seq<char>) -> Seq<char>
    decreases s.len(),
{
    if s.len() > 0 && (s.last() == '\n' || s.last() == '\r') {
        chomped_text(s.drop_last())
    } else {
        s
    }
}

fn chomp_text(s: &str) -> (out: String)
    ensures
        out@ == chomped_text(s@),
{
    let chars = chars_of(s);
    let mut n: usize = chars.len();
    assert(chars@.take(n as int) =~= s@);
    while n > 0 && (chars[n - 1] == '\n' || chars[n - 1] == '\r')
        invariant
            n <= chars@.len(),
            chomped_text(chars@.take(n as int)) == chomped_text(s@),
        decreases n,
    {
        assert(chars@.take(n as int).drop_last() =~= chars@.take(n - 1));
        n = n - 1;
    }
    assert(chars@.subrange(0, n as int) =~= chars@.take(n as int));
    text_of(&chars, 0, n)
}

/// A line of install output, already decoded: the last state of a progress
/// bar, stripped and set off by two blanks.
pub open spec fn install_line(s: Seq<char>) -> Seq<char> {
    "  "@ + stripped(after_last(s, '\r'))
}

/// Shapes a decoded line of install output for the launcher log.
pub fn shape_install_line(s: &str) -> (out: String)
    ensures
        out@ == install_line(s@),
{
    let bar = keep_after_last(s, '\r');
    let plain = strip_ansi(bar.as_str());
    "  ".to_string().concat(plain.as_str())
}

/// Shapes the raw bytes of one line of install output.
pub fn install_line_from(bytes: Vec<u8>) -> (out: String)
    ensures
        out@ == install_line(utf8_lossy(chomped(bytes@))),
{
    let line = chomp(bytes);
    let s = decode_lossy(line.as_slice());
    shape_install_line(s.as_str())
}

/// A line that Sapphire printed, already decoded: stripped first, then cut
/// down to the last state of a progress bar.
pub open spec fn sapphire_line(s: Seq<char>) -> Seq<char> {
    after_last(stripped(s), '\r')
}

/// Shapes a decoded line of Sapphire's output.
pub fn shape_sapphire_line(s: &str) -> (out: String)
    ensures
        out@ == sapphire_line(s@),
{
    let plain = strip_ansi(s);
    keep_after_last(plain.as_str(), '\r')
}

/// Shapes the raw bytes of one line of Sapphire's output.
pub fn sapphire_line_from(bytes: Vec<u8>) -> (out: String)
    ensures
        out@ == sapphire_line(utf8_lossy(chomped(bytes@))),
{
    let line = chomp(bytes);
    let s = decode_lossy(line.as_slice());
    shape_sapphire_line(s.as_str())
}

/// A line of the journal, already decoded: without its line end, cut down to
/// the last state of a progress bar, then stripped.
pub open spec fn journal_line(s: Seq<char>) -> Seq<char> {
    stripped(after_last(chomped_text(s), '\r'))
}

/// Shapes a decoded line of the journal.
pub fn shape_journal_line(s: &str) -> (out: String)
    ensures
        out@ == journal_line(s@),
{
    let line = chomp_text(s);
    let bar = keep_after_last(line.as_str(), '\r');
    strip_ansi(bar.as_str())
}

/// Shapes the raw bytes of one line of the journal.
pub fn journal_line_from(bytes: Vec<u8>) -> (out: String)
    ensures
        out@ == journal_line(utf8_lossy(bytes@)),
{
    let s = decode_lossy(bytes.as_slice());
    shape_journal_line(s.as_str())
}

/// What a line of a finished step's output becomes in the launcher log, if
/// anything is left of it.
pub open spec fn report_line(raw: Seq<char>) -> Seq<char> {
    trimmed_end(after_last(stripped(raw), '\r'))
}

/// The launcher log's share of a list of raw lines: each line that is not
/// blank, set off by two blanks.
pub open spec fn report_of(raw: Seq<Seq<char>>) -> Seq<Seq<char>>
    decreases raw.len(),
{
    if raw.len() == 0 {
        Seq::empty()
    } else {
        let shown = report_of(raw.drop_last());
        let line = report_line(raw.last());
        if line.len() == 0 {
            shown
        } else {
            shown.push("  "@ + line)
        }
    }
}

/// The launcher log's share of a finished step's output.
pub fn report(output: &str) -> (out: Vec<String>)
    ensures
        out.deep_view() == report_of(lines(output@)),
{
    let raw = lines_of(output);
    let ghost all = raw.deep_view();
    let mut out: Vec<String> = Vec::new();
    assert(out.deep_view() =~= report_of(all.take(0)));
    for i in 0..raw.len()
        invariant
            all == raw.deep_view(),
            out.deep_view() == report_of(all.take(i as int)),
    {
        let ghost upto = all.take(i + 1);
        assert(upto.drop_last() =~= all.take(i as int));
        let plain = strip_ansi(raw[i].as_str());
        let bar = keep_after_last(plain.as_str(), '\r');
        let line = trim_end(bar.as_str());
        if !line.as_str().is_empty() {
            push_line(&mut out, "  ".to_string().concat(line.as_str()));
        }
    }
    assert(all.take(all.len() as int) =~= all);
    out
}

/// Drops the oldest entries of `list` until at most `cap` are left.
pub fn cap_lines(list: &mut Vec<String>, cap: usize)
    ensures
        final(list).deep_view() == tail_of(old(list).deep_view(), cap as nat),
{
    if list.len() > cap {
        let ghost whole = list.deep_view();
        let excess: usize = list.len() - cap;
        let kept = list.split_off(excess);
        *list = kept;
        assert(list.deep_view() =~= whole.skip(excess as int));
    }
}

// ── Finished commands ────────────────────────────────────────────────────

/// What a finished command left behind.
#[derive(Debug, Clone)]
pub struct Output {
    /// Did it exit with success?
    pub success: bool,
    /// Its exit code, where it has one.
    pub code: Option<i32>,
    /// What it printed.
    pub stdout: String,
    /// What it printed to the error stream.
    pub stderr: String,
}

/// `Output` with its texts as character sequences.
#[verifier::ext_equal]
pub struct OutputModel {
    pub success: bool,
    pub code: Option<i32>,
    pub stdout: Seq<char>,
    pub stderr: Seq<char>,
}

impl DeepView for Output {
    type V = OutputModel;

    open spec fn deep_view(&self) -> OutputModel {
        OutputModel {
            success: self.success,
            code: self.code,
            stdout: self.stdout@,
            stderr: self.stderr@,
        }
    }
}

/// Takes the raw streams of a finished command.
pub fn output_from(success: bool, code: Option<i32>, stdout: &[u8], stderr: &[u8]) -> (out: Output)
    ensures
        out.deep_view() == (OutputModel {
            success,
            code,
            stdout: utf8_lossy(stdout@),
            stderr: utf8_lossy(stderr@),
        }),
{
    Output { success, code, stdout: decode_lossy(stdout), stderr: decode_lossy(stderr) }
}

/// The exit code that is shown for a command: -1, where it has none.
pub open spec fn shown_code(code: Option<i32>) -> int {
    match code {
        Some(n) => n as int,
        None => -1,
    }
}

/// Writes the exit code of a command.
pub fn show_code(code: Option<i32>) -> (out: String)
    ensures
        out@ == signed_decimal(shown_code(code)),
{
    match code {
        Some(n) => show_signed(n),
        None => show_signed(-1),
    }
}

/// A command's answer in brief: what it printed, or why it failed, which is
/// its error stream or else its exit code.
pub open spec fn brief(o: OutputModel) -> Result<Seq<char>, Seq<char>> {
    if o.success {
        Ok(trimmed(o.stdout))
    } else if trimmed(o.stderr).len() == 0 {
        Err("Exit code "@ + signed_decimal(shown_code(o.code)))
    } else {
        Err(trimmed(o.stderr))
    }
}

/// A command's answer in full: both its streams, as success or as failure.
pub open spec fn full(o: OutputModel) -> Result<Seq<char>, Seq<char>> {
    let both = trimmed(o.stdout + o.stderr);
    if o.success {
        Ok(both)
    } else {
        Err(both)
    }
}

/// A text or the reason for its absence, as character sequences.
pub open spec fn result_model(r: Result<String, String>) -> Result<Seq<char>, Seq<char>> {
    match r {
        Ok(s) => Ok(s@),
        Err(s) => Err(s@),
    }
}

/// Sums up a command's output in brief.
pub fn brief_of(o: &Output) -> (r: Result<String, String>)
    ensures
        result_model(r) == brief(o.deep_view()),
{
    let stdout = trim(o.stdout.as_str());
    let stderr = trim(o.stderr.as_str());
    if o.success {
        Ok(stdout)
    } else if stderr.as_str().is_empty() {
        let code = show_code(o.code);
        Err("Exit code ".to_string().concat(code.as_str()))
    } else {
        Err(stderr)
    }
}

/// Sums up a command's output in full.
pub fn full_of(o: &Output) -> (r: Result<String, String>)
    ensures
        result_model(r) == full(o.deep_view()),
{
    let both = o.stdout.clone().concat(o.stderr.as_str());
    let text = trim(both.as_str());
    if o.success {
        Ok(text)
    } else {
        Err(text)
    }
}

} // verus!

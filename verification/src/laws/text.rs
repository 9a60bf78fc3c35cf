//! What holds of texts, numbers and lists of lines.
use crate::text::{
    after_last, all_digits, at_most, before, begins, count_value, cut_at, decimal, digits_value,
    first_line, joined, last_value, lemma_after_last, lemma_before_is, lines, occurs, peeled,
    peeled_end, peeled_start, signed_decimal, tail_of, trimmed, trimmed_end, trimmed_start, white,
};
use vstd::prelude::*;

verus! {

// ── Blanks ───────────────────────────────────────────────────────────────

proof fn lemma_trimmed_start(s: Seq<char>) -> (a: int)
    ensures
        0 <= a <= s.len(),
        trimmed_start(s) == s.skip(a),
        forall|i: int| 0 <= i < a ==> white(#[trigger] s[i]),
        a < s.len() ==> !white(s[a]),
    decreases s.len(),
{
    if s.len() > 0 && white(s[0]) {
        let n = lemma_trimmed_start(s.drop_first());
        assert(s.drop_first().skip(n) =~= s.skip(n + 1));
        assert forall|i: int| 0 <= i < n + 1 implies white(#[trigger] s[i]) by {
            if i > 0 {
                assert(s.drop_first()[i - 1] == s[i]);
            }
        }
        n + 1
    } else {
        assert(s.skip(0) =~= s);
        0
    }
}

proof fn lemma_trimmed_end(s: Seq<char>) -> (b: int)
    ensures
        0 <= b <= s.len(),
        trimmed_end(s) == s.take(b),
        forall|i: int| b <= i < s.len() ==> white(#[trigger] s[i]),
        b > 0 ==> !white(s[b - 1]),
    decreases s.len(),
{
    if s.len() > 0 && white(s.last()) {
        let b = lemma_trimmed_end(s.drop_last());
        assert(s.drop_last().take(b) =~= s.take(b));
        assert forall|i: int| b <= i < s.len() implies white(#[trigger] s[i]) by {
            if i < s.len() - 1 {
                assert(s.drop_last()[i] == s[i]);
            }
        }
        b
    } else {
        assert(s.take(s.len() as int) =~= s);
        s.len() as int
    }
}

/// A text that is trimmed loses blanks at its ends and nothing else: what is
/// left stands in it between two places, with only blanks before and behind,
/// and neither begins nor ends with one.
pub proof fn law_trimming_takes_only_blanks(s: Seq<char>) -> (cut: (int, int))
    ensures
        0 <= cut.0 <= cut.1 <= s.len(),
        trimmed(s) == s.subrange(cut.0, cut.1),
        forall|i: int| 0 <= i < cut.0 || cut.1 <= i < s.len() ==> white(#[trigger] s[i]),
        trimmed(s).len() > 0 ==> !white(trimmed(s)[0]) && !white(trimmed(s).last()),
{
    let a = lemma_trimmed_start(s);
    let t = s.skip(a);
    let b = lemma_trimmed_end(t);
    assert(t.take(b) =~= s.subrange(a, a + b));
    assert forall|i: int| 0 <= i < a || a + b <= i < s.len() implies white(#[trigger] s[i]) by {
        if i >= a {
            assert(t[i - a] == s[i]);
        }
    }
    if b > 0 {
        assert(t[0] == s[a]);
        assert(t[b - 1] == s[a + b - 1]);
    }
    (a, a + b)
}

/// A text that neither begins nor ends with a blank is kept as it is.
pub proof fn law_text_without_blanks_is_kept(s: Seq<char>)
    requires
        s.len() > 0 ==> !white(s[0]) && !white(s.last()),
    ensures
        trimmed(s) == s,
{
}

/// Trimming twice is trimming once.
pub proof fn law_trimming_twice(s: Seq<char>)
    ensures
        trimmed(trimmed(s)) == trimmed(s),
{
    let cut = law_trimming_takes_only_blanks(s);
    law_text_without_blanks_is_kept(trimmed(s));
}

/// Spaces, tabs and the ends of lines are blanks; the printable characters of
/// ASCII are none.
pub proof fn law_blanks(c: char)
    ensures
        c == ' ' || c == '\t' || c == '\n' || c == '\r' ==> white(c),
        '!' as u32 <= c as u32 <= '~' as u32 ==> !white(c),
{
}

/// Quotes are peeled off both ends, however many there are, and nothing
/// else.
pub proof fn law_quotes_are_peeled(s: Seq<char>, c: char)
    requires
        s.len() > 0 ==> s[0] != c && s.last() != c,
    ensures
        peeled(s, c) == s,
        peeled(seq![c] + s + seq![c], c) == s,
{
    let q = seq![c] + s + seq![c];
    assert(q.drop_first() =~= s + seq![c]);
    if s.len() == 0 {
        assert(s + seq![c] =~= seq![c]);
        assert(seq![c].drop_first() =~= Seq::<char>::empty());
        reveal_with_fuel(peeled_start, 4);
        assert(peeled_start(q, c) =~= Seq::<char>::empty());
    } else {
        assert((s + seq![c])[0] == s[0]);
        reveal_with_fuel(peeled_start, 3);
        assert(peeled_start(q, c) == s + seq![c]);
        assert((s + seq![c]).drop_last() =~= s);
        assert((s + seq![c]).last() == c);
        reveal_with_fuel(peeled_end, 3);
    }
}

// ── Parts of texts ───────────────────────────────────────────────────────

/// A text occurs in another exactly where something can be put before and
/// behind it to make the other.
pub proof fn law_part_occurs(s: Seq<char>, p: Seq<char>, a: Seq<char>, b: Seq<char>)
    ensures
        occurs(a + p + b, p),
        occurs(s, p) ==> exists|x: Seq<char>, y: Seq<char>| s == #[trigger] (x + p + y),
        s.len() < p.len() ==> !occurs(s, p),
{
    let whole = a + p + b;
    let n = a.len() as int;
    assert(whole.subrange(n, n + p.len()) =~= p);
    if occurs(s, p) {
        let i = choose|i: int| 0 <= i <= s.len() - p.len() && #[trigger] s.subrange(i, i + p.len()) == p;
        let x = s.take(i);
        let y = s.skip(i + p.len());
        assert(s =~= x + p + y) by {
            assert forall|k: int| 0 <= k < s.len() implies s[k] == (x + p + y)[k] by {
                if i <= k < i + p.len() {
                    assert(s.subrange(i, i + p.len())[k - i] == s[k]);
                }
            }
        }
    }
}

/// A text that is cut at a character is cut at the first one: its parts make
/// it up again, and the first part does not have it.
pub proof fn law_text_is_cut_at_the_first(a: Seq<char>, c: char, b: Seq<char>)
    requires
        !a.contains(c),
    ensures
        cut_at(a + seq![c] + b, c) == Some((a, b)),
        cut_at(a, c) is None,
{
    let whole = a + seq![c] + b;
    assert forall|i: int| 0 <= i < a.len() implies a[i] != c by {
        assert(a.contains(a[i]));
    }
    lemma_before_is(whole, c, a.len());
    lemma_before_is(a, c, a.len());
    assert(whole.take(a.len() as int) =~= a);
    assert(whole.skip(a.len() + 1int) =~= b);
}

/// What comes after the last of a character is what overwrote the rest.
pub proof fn law_last_part_is_kept(a: Seq<char>, c: char, b: Seq<char>)
    requires
        !b.contains(c),
    ensures
        after_last(a + seq![c] + b, c) == b,
        after_last(b, c) == b,
{
    let whole = a + seq![c] + b;
    let t = after_last(whole, c);
    lemma_after_last(whole, c);
    lemma_after_last(b, c);
    let n = a.len() as int;
    assert(whole[n] == c);
    if t.len() < b.len() {
        let k = whole.len() - t.len() - 1;
        assert(whole[k] == b[k - n - 1]);
        assert(b.contains(b[k - n - 1]));
    }
    if t.len() > b.len() {
        assert(t[t.len() - b.len() - 1] == whole[n]);
        assert(t.contains(c));
    }
    assert(t =~= b);
    if after_last(b, c).len() < b.len() {
        let k = b.len() - after_last(b, c).len() - 1;
        assert(b.contains(b[k]));
    }
    assert(after_last(b, c) =~= b);
}

/// The first line of a text is what stands before its first line feed.
pub proof fn law_first_line_is_read(line: Seq<char>, rest: Seq<char>)
    requires
        !line.contains('\n'),
        line.len() > 0 && line.last() != '\r',
    ensures
        first_line(line + seq!['\n'] + rest) == line,
        first_line(line) == line,
{
    let whole = line + seq!['\n'] + rest;
    assert forall|i: int| 0 <= i < line.len() implies line[i] != '\n' by {
        assert(line.contains(line[i]));
    }
    lemma_before_is(whole, '\n', line.len());
    lemma_before_is(line, '\n', line.len());
    assert(whole.take(line.len() as int) =~= line);
}

/// A text is read line by line, whichever way its lines end; what follows the
/// last end is a line, too.
pub proof fn law_lines_end_either_way(line: Seq<char>, rest: Seq<char>)
    requires
        !line.contains('\n'),
        line.len() > 0 ==> line.last() != '\r',
    ensures
        lines(line + seq!['\n'] + rest) == seq![line] + lines(rest),
        lines(line + seq!['\r', '\n'] + rest) == seq![line] + lines(rest),
        line.len() > 0 ==> lines(line) == seq![line],
        lines(Seq::empty()).len() == 0,
{
    assert forall|i: int| 0 <= i < line.len() implies line[i] != '\n' by {
        assert(line.contains(line[i]));
    }
    let a = line + seq!['\n'] + rest;
    lemma_before_is(a, '\n', line.len());
    assert(a.take(line.len() as int) =~= line);
    assert(a.skip(line.len() + 1int) =~= rest);
    let b = line + seq!['\r', '\n'] + rest;
    let c = line.push('\r');
    lemma_before_is(b, '\n', line.len() + 1);
    assert(b.take(line.len() + 1int) =~= c);
    assert(c.drop_last() =~= line);
    assert(b.skip(line.len() + 2int) =~= rest);
    lemma_before_is(line, '\n', line.len());
}

/// Of the lines that give a key a value, the last one counts.
pub proof fn law_last_value_counts(
    list: Seq<Seq<char>>,
    key: Seq<char>,
    value: Seq<char>,
    more: Seq<Seq<char>>,
)
    requires
        forall|i: int| 0 <= i < more.len() ==> !begins(#[trigger] more[i], key),
    ensures
        last_value(list.push(key + value) + more, key) == value,
        last_value(more, key) == ""@,
    decreases more.len(),
{
    let whole = list.push(key + value) + more;
    if more.len() == 0 {
        assert(whole =~= list.push(key + value));
        let line = key + value;
        assert(line.take(key.len() as int) =~= key);
        assert(line.skip(key.len() as int) =~= value);
    } else {
        let front = more.drop_last();
        assert forall|i: int| 0 <= i < front.len() implies !begins(#[trigger] front[i], key) by {
            assert(front[i] == more[i]);
        }
        law_last_value_counts(list, key, value, front);
        assert(whole.drop_last() =~= list.push(key + value) + front);
        assert(whole.last() == more.last());
        assert(!begins(more[more.len() - 1], key));
    }
}

// ── Lists ────────────────────────────────────────────────────────────────

/// Each part of a joined list stands in it.
pub proof fn law_joined_has_every_part(list: Seq<Seq<char>>, sep: Seq<char>, i: int)
    requires
        0 <= i < list.len(),
    ensures
        occurs(joined(list, sep), list[i]),
    decreases list.len(),
{
    let whole = joined(list, sep);
    if list.len() == 1 {
        assert(whole.subrange(0, 0int + list[i].len()) =~= list[i]);
    } else if i == list.len() - 1 {
        let n = (joined(list.drop_last(), sep) + sep).len() as int;
        assert(whole.subrange(n, n + list[i].len()) =~= list[i]);
    } else {
        let front = list.drop_last();
        law_joined_has_every_part(front, sep, i);
        let part = joined(front, sep);
        assert(front[i] == list[i]);
        let k = choose|k: int|
            0 <= k <= part.len() - list[i].len() && #[trigger] part.subrange(k, k + list[i].len())
                == list[i];
        assert(whole.subrange(k, k + list[i].len()) =~= part.subrange(k, k + list[i].len()));
    }
}

/// A list of one part is that part, and between two parts stands the
/// separator and nothing else.
pub proof fn law_joined_parts_are_separated(a: Seq<char>, b: Seq<char>, c: Seq<char>, sep: Seq<char>)
    ensures
        joined(seq![a], sep) == a,
        joined(seq![a, b], sep) == a + sep + b,
        joined(seq![a, b, c], sep) == a + sep + b + sep + c,
{
    reveal_with_fuel(joined, 4);
    assert(seq![a, b, c].drop_last() =~= seq![a, b]);
    assert(seq![a, b].drop_last() =~= seq![a]);
}

/// Only so many of a list are kept, from its beginning or from its end.
pub proof fn law_list_is_cut_to_length<A>(list: Seq<A>, n: nat)
    ensures
        at_most(list, n).len() <= n,
        tail_of(list, n).len() <= n,
        list.len() <= n ==> at_most(list, n) == list && tail_of(list, n) == list,
        list.len() > n ==> at_most(list, n).len() == n && tail_of(list, n).len() == n,
        at_most(list, n).is_prefix_of(list),
        tail_of(list, n).is_suffix_of(list),
{
    assert(list.subrange(0, at_most(list, n).len() as int) =~= at_most(list, n));
    assert(list.subrange(
        list.len() - tail_of(list, n).len(),
        list.len() as int,
    ) =~= tail_of(list, n));
}

// ── Numbers ──────────────────────────────────────────────────────────────

/// A number that is written in digits is read back.
pub proof fn law_number_is_read_back(n: nat)
    ensures
        all_digits(decimal(n)),
        digits_value(decimal(n)) == n,
        n <= u32::MAX ==> count_value(decimal(n)) == Some(n as u32),
        signed_decimal(n as int) == decimal(n),
        n > 0 ==> signed_decimal(-(n as int)) == seq!['-'] + decimal(n),
    decreases n,
{
    reveal_strlit("-");
    assert("-"@ =~= seq!['-']);
    let d = decimal(n);
    if n < 10 {
        assert(d.drop_last() =~= Seq::<char>::empty());
        assert(digits_value(Seq::<char>::empty()) == 0);
    } else {
        law_number_is_read_back(n / 10);
        assert(d.drop_last() =~= decimal(n / 10));
        assert forall|i: int| 0 <= i < d.len() implies '0' as u32 <= #[trigger] d[i] as u32
            <= '9' as u32 by {
            if i < d.len() - 1 {
                assert(d[i] == decimal(n / 10)[i]);
            }
        }
    }
    assert('0' as u32 <= d[0] as u32 <= '9' as u32);
}

/// What has a character that is no digit, behind its first, is no number.
pub proof fn law_other_text_is_no_number(s: Seq<char>, i: int)
    requires
        0 < i < s.len(),
        !('0' as u32 <= s[i] as u32 <= '9' as u32),
    ensures
        count_value(s) is None,
{
    if s[0] == '+' {
        assert(s.drop_first()[i - 1] == s[i]);
    }
}

} // verus!

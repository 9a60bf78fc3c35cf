//! Text as the launcher reads it: lines, blanks, occurrences, pieces.
//!
//! The specifications speak of a text as a sequence of characters; the
//! functions work on `String` and `&str`.
use vstd::prelude::*;

verus! {

/// `String::push` appends one character to the end of the string.
pub assume_specification[ String::push ](s: &mut String, c: char)
    ensures
        final(s)@ == old(s)@.push(c),
;

/// What `String::from_utf8_lossy` makes of a byte sequence.
pub uninterp spec fn utf8_lossy(bytes: Seq<u8>) -> Seq<char>;

/// Decodes bytes with `String::from_utf8_lossy`. Valid UTF-8 comes out as the
/// characters that it encodes; what replaces an invalid part is left to the
/// name `utf8_lossy`.
#[verifier::external_body]
pub(crate) fn decode_lossy(bytes: &[u8]) -> (out: String)
    ensures
        out@ == utf8_lossy(bytes@),
        vstd::utf8::valid_utf8(bytes@) ==> out@ == vstd::utf8::decode_utf8(bytes@),
{
    String::from_utf8_lossy(bytes).into_owned()
}

/// What `str::to_lowercase` makes of a text.
pub uninterp spec fn lowercase(s: Seq<char>) -> Seq<char>;

/// A letter of ASCII in its small form; any other character as it is.
pub open spec fn small(c: char) -> char {
    if 'A' <= c && c <= 'Z' {
        (c as u32 + 32) as char
    } else {
        c
    }
}

/// Converts a text with `str::to_lowercase`. In a text of ASCII characters
/// every capital becomes its small letter; of other texts, where Unicode's
/// tables decide, only the name `lowercase` speaks.
#[verifier::external_body]
pub(crate) fn to_lower(s: &str) -> (out: String)
    ensures
        out@ == lowercase(s@),
        (forall|i: int| 0 <= i < s@.len() ==> (#[trigger] s@[i] as u32) < 128) ==> out@
            == s@.map_values(|c: char| small(c)),
{
    s.to_lowercase()
}

// ── Characters ───────────────────────────────────────────────────────────

/// The characters that Unicode gives the property `White_Space`.
pub open spec fn white(c: char) -> bool {
    let n = c as u32;
    ||| 0x9 <= n <= 0xd
    ||| n == 0x20
    ||| n == 0x85
    ||| n == 0xa0
    ||| n == 0x1680
    ||| 0x2000 <= n <= 0x200a
    ||| n == 0x2028
    ||| n == 0x2029
    ||| n == 0x202f
    ||| n == 0x205f
    ||| n == 0x3000
}

/// Is `c` white space?
pub fn is_white(c: char) -> (b: bool)
    ensures
        b == white(c),
{
    let n: u32 = c as u32;
    (0x9 <= n && n <= 0xd) || n == 0x20 || n == 0x85 || n == 0xa0 || n == 0x1680 || (0x2000 <= n && n
        <= 0x200a) || n == 0x2028 || n == 0x2029 || n == 0x202f || n == 0x205f || n == 0x3000
}

/// An ASCII letter.
pub open spec fn letter(c: char) -> bool {
    'a' as u32 <= c as u32 <= 'z' as u32 || 'A' as u32 <= c as u32 <= 'Z' as u32
}

/// Is `c` an ASCII letter?
pub fn is_letter(c: char) -> (b: bool)
    ensures
        b == letter(c),
{
    let n: u32 = c as u32;
    (97 <= n && n <= 122) || (65 <= n && n <= 90)
}

/// The characters of `s`.
pub fn chars_of(s: &str) -> (out: Vec<char>)
    ensures
        out@ == s@,
{
    let mut out: Vec<char> = Vec::new();
    for c in it: s.chars()
        invariant
            out@ == it.seq().take(it.index() as int),
            it.seq() == s@,
    {
        out.push(c);
    }
    out
}

/// The text made of `chars[from..to]`.
pub fn text_of(chars: &Vec<char>, from: usize, to: usize) -> (out: String)
    requires
        from <= to <= chars@.len(),
    ensures
        out@ == chars@.subrange(from as int, to as int),
{
    let mut out = String::new();
    for i in from..to
        invariant
            from <= to <= chars@.len(),
            out@ == chars@.subrange(from as int, i as int),
    {
        out.push(chars[i]);
    }
    out
}

// ── Lists of texts ───────────────────────────────────────────────────────

/// Owned copies of the given words.
pub fn words(list: &[&str]) -> (out: Vec<String>)
    ensures
        out.deep_view() == Seq::new(list@.len(), |i: int| list@[i]@),
{
    let mut out: Vec<String> = Vec::new();
    for i in 0..list.len()
        invariant
            out.deep_view() =~= Seq::new(i as nat, |j: int| list@[j]@),
    {
        let ghost had = out.deep_view();
        push_line(&mut out, list[i].to_string());
        assert(had.push(list@[i as int]@) =~= Seq::new((i + 1) as nat, |j: int| list@[j]@));
    }
    out
}

/// Adds `line` at the end of `list`.
pub fn push_line(list: &mut Vec<String>, line: String)
    ensures
        final(list).deep_view() == old(list).deep_view().push(line@),
{
    let ghost before = list.deep_view();
    list.push(line);
    assert(list.deep_view() =~= before.push(line@));
}

/// Adds all of `more` at the end of `list`.
pub fn push_lines(list: &mut Vec<String>, more: Vec<String>)
    ensures
        final(list).deep_view() == old(list).deep_view() + more.deep_view(),
{
    let mut more = more;
    let ghost before = list@;
    let ghost added = more@;
    list.append(&mut more);
    assert(list.deep_view() =~= Seq::new(before.len(), |i: int| before[i]@) + Seq::new(
        added.len(),
        |i: int| added[i]@,
    ));
}

/// The first `n` entries of `list`, or all of them.
pub open spec fn at_most<A>(list: Seq<A>, n: nat) -> Seq<A> {
    if list.len() <= n {
        list
    } else {
        list.take(n as int)
    }
}

/// The last `n` entries of `list`, or all of them.
pub open spec fn tail_of<A>(list: Seq<A>, n: nat) -> Seq<A> {
    if list.len() <= n {
        list
    } else {
        list.skip(list.len() - n)
    }
}

/// The entries of `list` with `sep` between neighbours.
pub open spec fn joined(list: Seq<Seq<char>>, sep: Seq<char>) -> Seq<char>
    decreases list.len(),
{
    if list.len() == 0 {
        Seq::empty()
    } else if list.len() == 1 {
        list[0]
    } else {
        joined(list.drop_last(), sep) + sep + list.last()
    }
}

/// Joins `list[from..]` with `sep`.
pub fn join_from(list: &Vec<String>, from: usize, sep: &str) -> (out: String)
    requires
        from <= list@.len(),
    ensures
        out@ == joined(list.deep_view().skip(from as int), sep@),
{
    let ghost all = list.deep_view().skip(from as int);
    let mut out = String::new();
    for i in from..list.len()
        invariant
            from <= list@.len(),
            all == list.deep_view().skip(from as int),
            out@ == joined(all.take(i - from), sep@),
    {
        let ghost upto = all.take(i + 1 - from);
        assert(upto.drop_last() =~= all.take(i - from));
        if i > from {
            out.append(sep);
            out.append(list[i].as_str());
        } else {
            out.append(list[i].as_str());
            assert(out@ =~= upto[0]);
        }
    }
    assert(all.take(list@.len() - from) =~= all);
    out
}

/// Joins the entries of `list` with `sep`.
pub fn join(list: &Vec<String>, sep: &str) -> (out: String)
    ensures
        out@ == joined(list.deep_view(), sep@),
{
    assert(list.deep_view().skip(0) =~= list.deep_view());
    join_from(list, 0, sep)
}

/// Are two texts the same?
pub fn same(a: &str, b: &str) -> (r: bool)
    ensures
        r == (a@ == b@),
{
    a.to_string() == b.to_string()
}

// ── Blanks at the ends ───────────────────────────────────────────────────

/// `s` without the white space that it starts with.
pub open spec fn trimmed_start(s: Seq<char>) -> Seq<char>
    decreases s.len(),
{
    if s.len() > 0 && white(s[0]) {
        trimmed_start(s.drop_first())
    } else {
        s
    }
}

/// `s` without the white space that it ends with.
pub open spec fn trimmed_end(s: Seq<char>) -> Seq<char>
    decreases s.len(),
{
    if s.len() > 0 && white(s.last()) {
        trimmed_end(s.drop_last())
    } else {
        s
    }
}

/// `s` without white space at either end.
pub open spec fn trimmed(s: Seq<char>) -> Seq<char> {
    trimmed_end(trimmed_start(s))
}

/// Drops white space at the end.
pub fn trim_end(s: &str) -> (out: String)
    ensures
        out@ == trimmed_end(s@),
{
    let chars = chars_of(s);
    let mut n: usize = chars.len();
    assert(chars@.take(n as int) =~= s@);
    while n > 0 && is_white(chars[n - 1])
        invariant
            n <= chars@.len(),
            trimmed_end(chars@.take(n as int)) == trimmed_end(s@),
        decreases n,
    {
        assert(chars@.take(n as int).drop_last() =~= chars@.take(n - 1));
        n = n - 1;
    }
    assert(chars@.subrange(0, n as int) =~= chars@.take(n as int));
    text_of(&chars, 0, n)
}

/// Drops white space at both ends.
pub fn trim(s: &str) -> (out: String)
    ensures
        out@ == trimmed(s@),
{
    let chars = chars_of(s);
    let mut i: usize = 0;
    assert(chars@.skip(0) =~= s@);
    while i < chars.len() && is_white(chars[i])
        invariant
            i <= chars@.len(),
            trimmed_start(chars@.skip(i as int)) == trimmed_start(s@),
        decreases chars@.len() - i,
    {
        assert(chars@.skip(i as int).drop_first() =~= chars@.skip(i + 1));
        i = i + 1;
    }
    let len: usize = chars.len();
    assert(chars@.subrange(i as int, len as int) =~= chars@.skip(i as int));
    let rest = text_of(&chars, i, len);
    trim_end(rest.as_str())
}

// ── Quotes at the ends ───────────────────────────────────────────────────

/// `s` without the characters `c` that it starts with.
pub open spec fn peeled_start(s: Seq<char>, c: char) -> Seq<char>
    decreases s.len(),
{
    if s.len() > 0 && s[0] == c {
        peeled_start(s.drop_first(), c)
    } else {
        s
    }
}

/// `s` without the characters `c` that it ends with.
pub open spec fn peeled_end(s: Seq<char>, c: char) -> Seq<char>
    decreases s.len(),
{
    if s.len() > 0 && s.last() == c {
        peeled_end(s.drop_last(), c)
    } else {
        s
    }
}

/// `s` without `c` at either end.
pub open spec fn peeled(s: Seq<char>, c: char) -> Seq<char> {
    peeled_end(peeled_start(s, c), c)
}

/// Drops the characters `c` at both ends.
pub fn peel(s: &str, c: char) -> (out: String)
    ensures
        out@ == peeled(s@, c),
{
    let chars = chars_of(s);
    let mut i: usize = 0;
    let mut n: usize = chars.len();
    assert(chars@.skip(0) =~= s@);
    while i < chars.len() && chars[i] == c
        invariant
            i <= chars@.len(),
            peeled_start(chars@.skip(i as int), c) == peeled_start(s@, c),
        decreases chars@.len() - i,
    {
        assert(chars@.skip(i as int).drop_first() =~= chars@.skip(i + 1));
        i = i + 1;
    }
    assert(chars@.subrange(i as int, n as int) =~= chars@.skip(i as int));
    while n > i && chars[n - 1] == c
        invariant
            i <= n <= chars@.len(),
            peeled_end(chars@.subrange(i as int, n as int), c) == peeled(s@, c),
        decreases n,
    {
        assert(chars@.subrange(i as int, n as int).drop_last() =~= chars@.subrange(
            i as int,
            n - 1,
        ));
        n = n - 1;
    }
    text_of(&chars, i, n)
}

// ── Occurrences ──────────────────────────────────────────────────────────

/// Does `s` start with `p`?
pub open spec fn begins(s: Seq<char>, p: Seq<char>) -> bool {
    p.len() <= s.len() && s.take(p.len() as int) == p
}

/// Does `p` occur somewhere in `s`?
pub open spec fn occurs(s: Seq<char>, p: Seq<char>) -> bool {
    exists|i: int| 0 <= i <= s.len() - p.len() && #[trigger] s.subrange(i, i + p.len()) == p
}

/// Where `p` occurs first in `s`, if it does.
pub open spec fn first_at(s: Seq<char>, p: Seq<char>) -> Option<nat>
    decreases s.len(),
{
    if begins(s, p) {
        Some(0)
    } else if s.len() == 0 {
        None
    } else {
        match first_at(s.drop_first(), p) {
            Some(i) => Some(i + 1),
            None => None,
        }
    }
}

/// How many characters of `s` come before the first `c`: all of them, if `c`
/// is not there.
pub open spec fn before(s: Seq<char>, c: char) -> nat
    decreases s.len(),
{
    if s.len() == 0 || s[0] == c {
        0
    } else {
        1 + before(s.drop_first(), c)
    }
}

/// `before` stops at the first `c`, or at the end.
pub proof fn lemma_before(s: Seq<char>, c: char)
    ensures
        before(s, c) <= s.len(),
        forall|i: int| 0 <= i < before(s, c) ==> s[i] != c,
        before(s, c) < s.len() ==> s[before(s, c) as int] == c,
    decreases s.len(),
{
    if s.len() > 0 && s[0] != c {
        lemma_before(s.drop_first(), c);
        assert forall|i: int| 0 <= i < before(s, c) implies s[i] != c by {
            if i > 0 {
                assert(s[i] == s.drop_first()[i - 1]);
            }
        }
    }
}

/// Text that holds no `c` before its place `n`, where it ends or has one.
pub proof fn lemma_before_is(s: Seq<char>, c: char, n: nat)
    requires
        n <= s.len(),
        forall|i: int| 0 <= i < n ==> s[i] != c,
        n < s.len() ==> s[n as int] == c,
    ensures
        before(s, c) == n,
{
    lemma_before(s, c);
    if before(s, c) < n {
        assert(s[before(s, c) as int] != c);
    }
}

/// The place, at `from` or later, where `c` comes first.
pub fn find_from(chars: &Vec<char>, from: usize, c: char) -> (at: usize)
    requires
        from <= chars@.len(),
    ensures
        at == from + before(chars@.skip(from as int), c),
        from <= at <= chars@.len(),
{
    let mut i: usize = from;
    while i < chars.len() && chars[i] != c
        invariant
            from <= i <= chars@.len(),
            before(chars@.skip(from as int), c) == i - from + before(chars@.skip(i as int), c),
        decreases chars@.len() - i,
    {
        assert(chars@.skip(i as int).drop_first() =~= chars@.skip(i + 1));
        i = i + 1;
    }
    i
}

/// Does `chars`, from place `at` on, start with `p`?
fn begins_at(chars: &Vec<char>, at: usize, p: &Vec<char>) -> (b: bool)
    requires
        at <= chars@.len(),
    ensures
        b == begins(chars@.skip(at as int), p@),
{
    let len: usize = chars.len();
    if p.len() > len - at {
        return false;
    }
    let ghost rest = chars@.skip(at as int);
    for i in 0..p.len()
        invariant
            at + p@.len() <= len == chars@.len(),
            rest == chars@.skip(at as int),
            forall|j: int| 0 <= j < i ==> rest[j] == p@[j],
    {
        if chars[at + i] != p[i] {
            assert(rest.take(p@.len() as int)[i as int] != p@[i as int]);
            return false;
        }
    }
    assert(rest.take(p@.len() as int) =~= p@);
    true
}

/// The place, at `from` or later, where `p` occurs first.
pub fn find_text_from(chars: &Vec<char>, from: usize, p: &Vec<char>) -> (at: Option<usize>)
    requires
        from <= chars@.len(),
    ensures
        match at {
            Some(i) => from <= i && i + p@.len() <= chars@.len() && first_at(
                chars@.skip(from as int),
                p@,
            ) == Some((i - from) as nat),
            None => first_at(chars@.skip(from as int), p@) is None,
        },
{
    let ghost whole = first_at(chars@.skip(from as int), p@);
    let mut i: usize = from;
    loop
        invariant
            from <= i <= chars@.len(),
            whole == first_at(chars@.skip(from as int), p@),
            match first_at(chars@.skip(i as int), p@) {
                Some(k) => whole == Some((k + i - from) as nat),
                None => whole is None,
            },
        decreases chars@.len() - i,
    {
        if begins_at(chars, i, p) {
            return Some(i);
        }
        if i == chars.len() {
            return None;
        }
        assert(chars@.skip(i as int).drop_first() =~= chars@.skip(i + 1));
        i = i + 1;
    }
}

/// `first_at` finds an occurrence whenever there is one.
pub proof fn lemma_first_at(s: Seq<char>, p: Seq<char>)
    ensures
        first_at(s, p) is Some <==> occurs(s, p),
        first_at(s, p) matches Some(i) ==> i + p.len() <= s.len() && s.subrange(
            i as int,
            (i + p.len()) as int,
        ) == p,
    decreases s.len(),
{
    if begins(s, p) {
        assert(s.subrange(0, 0int + p.len()) =~= s.take(p.len() as int));
    } else {
        if occurs(s, p) {
            let i = choose|i: int|
                0 <= i <= s.len() - p.len() && #[trigger] s.subrange(i, i + p.len()) == p;
            if i == 0 {
                assert(s.take(p.len() as int) =~= s.subrange(0, 0int + p.len()));
            }
            assert(s.drop_first().subrange(i - 1, i - 1 + p.len()) =~= s.subrange(i, i + p.len()));
        }
        if s.len() > 0 {
            lemma_first_at(s.drop_first(), p);
            if let Some(k) = first_at(s.drop_first(), p) {
                let k = k as int;
                assert(s.subrange(k + 1, k + 1 + p.len()) =~= s.drop_first().subrange(
                    k,
                    k + p.len(),
                ));
            }
        }
    }
}

/// Does `p` occur somewhere in `s`?
pub fn contains(s: &str, p: &str) -> (b: bool)
    ensures
        b == occurs(s@, p@),
{
    let chars = chars_of(s);
    let pat = chars_of(p);
    proof {
        lemma_first_at(s@, p@);
        assert(chars@.skip(0) =~= s@);
    }
    find_text_from(&chars, 0, &pat).is_some()
}

/// What is left of `s` when `p` is taken off its start.
pub open spec fn without_prefix(s: Seq<char>, p: Seq<char>) -> Option<Seq<char>> {
    if begins(s, p) {
        Some(s.skip(p.len() as int))
    } else {
        None
    }
}

/// Takes `p` off the start of `s`.
pub fn strip_prefix(s: &str, p: &str) -> (out: Option<String>)
    ensures
        out.deep_view() == without_prefix(s@, p@),
{
    let chars = chars_of(s);
    let pat = chars_of(p);
    assert(chars@.skip(0) =~= s@);
    if begins_at(&chars, 0, &pat) {
        let len: usize = chars.len();
        assert(chars@.subrange(pat@.len() as int, len as int) =~= s@.skip(p@.len() as int));
        Some(text_of(&chars, pat.len(), len))
    } else {
        None
    }
}

/// What follows `key` on the last line of `list` that starts with it;
/// nothing, if none does.
pub open spec fn last_value(list: Seq<Seq<char>>, key: Seq<char>) -> Seq<char>
    decreases list.len(),
{
    if list.len() == 0 {
        ""@
    } else {
        match without_prefix(list.last(), key) {
            Some(v) => v,
            None => last_value(list.drop_last(), key),
        }
    }
}

/// Finds what follows `key` on the last line that starts with it.
pub fn value_of(list: &Vec<String>, key: &str) -> (out: String)
    ensures
        out@ == last_value(list.deep_view(), key@),
{
    let ghost all = list.deep_view();
    let mut n: usize = list.len();
    assert(all.take(n as int) =~= all);
    while n > 0
        invariant
            n <= list@.len(),
            all == list.deep_view(),
            last_value(all.take(n as int), key@) == last_value(all, key@),
        decreases n,
    {
        assert(all.take(n as int).last() == list[n - 1]@);
        assert(all.take(n as int).drop_last() =~= all.take(n - 1));
        match strip_prefix(list[n - 1].as_str(), key) {
            Some(v) => {
                return v;
            },
            None => {
                n = n - 1;
            },
        }
    }
    "".to_string()
}

/// Does `s` start with `p`?
pub fn starts_with(s: &str, p: &str) -> (b: bool)
    ensures
        b == begins(s@, p@),
{
    let chars = chars_of(s);
    let pat = chars_of(p);
    assert(chars@.skip(0) =~= s@);
    begins_at(&chars, 0, &pat)
}

/// `s` with every occurrence of `p`, taken from the left and without
/// overlap, replaced by `by`.
pub open spec fn replaced(s: Seq<char>, p: Seq<char>, by: Seq<char>) -> Seq<char>
    decreases s.len(),
{
    if s.len() == 0 || p.len() == 0 {
        s
    } else if begins(s, p) {
        by + replaced(s.skip(p.len() as int), p, by)
    } else {
        seq![s[0]] + replaced(s.drop_first(), p, by)
    }
}

/// Replaces every occurrence of `p` by `by`.
pub fn replace(s: &str, p: &str, by: &str) -> (out: String)
    requires
        p@.len() > 0,
    ensures
        out@ == replaced(s@, p@, by@),
{
    let chars = chars_of(s);
    let pat = chars_of(p);
    let mut out = String::new();
    let mut i: usize = 0;
    assert(chars@.skip(0) =~= s@);
    while i < chars.len()
        invariant
            i <= chars@.len(),
            pat@ == p@,
            p@.len() > 0,
            out@ + replaced(chars@.skip(i as int), p@, by@) == replaced(s@, p@, by@),
        decreases chars@.len() - i,
    {
        let ghost rest = chars@.skip(i as int);
        if begins_at(&chars, i, &pat) {
            assert(rest.skip(p@.len() as int) =~= chars@.skip(i + p@.len()));
            assert(out@ + (by@ + replaced(rest.skip(p@.len() as int), p@, by@)) =~= (out@ + by@)
                + replaced(rest.skip(p@.len() as int), p@, by@));
            out.append(by);
            i = i + pat.len();
        } else {
            assert(rest.drop_first() =~= chars@.skip(i + 1));
            assert(out@ + (seq![rest[0]] + replaced(rest.drop_first(), p@, by@)) =~= out@.push(rest[0])
                + replaced(rest.drop_first(), p@, by@));
            out.push(chars[i]);
            i = i + 1;
        }
    }
    assert(out@ + replaced(chars@.skip(i as int), p@, by@) =~= out@);
    out
}

// ── Pieces ───────────────────────────────────────────────────────────────

/// `s` with a backslash before each of its backslashes and quotes, as it can
/// stand between quotes.
pub open spec fn escaped(s: Seq<char>) -> Seq<char> {
    replaced(replaced(s, "\\"@, "\\\\"@), "\""@, "\\\""@)
}

/// Puts a backslash before each backslash and each quote of `s`.
pub fn escape(s: &str) -> (out: String)
    ensures
        out@ == escaped(s@),
{
    proof {
        reveal_strlit("\\");
        reveal_strlit("\"");
    }
    let once = replace(s, "\\", "\\\\");
    replace(once.as_str(), "\"", "\\\"")
}

/// Replacing a pattern of one character goes character by character.
pub proof fn lemma_replaced_step(s: Seq<char>, p: Seq<char>, by: Seq<char>)
    requires
        s.len() > 0,
        p.len() == 1,
    ensures
        replaced(s, p, by) == (if s[0] == p[0] {
            by
        } else {
            seq![s[0]]
        }) + replaced(s.drop_first(), p, by),
{
    if s[0] == p[0] {
        assert(s.take(1) =~= p);
        assert(s.skip(1) =~= s.drop_first());
    } else if begins(s, p) {
        assert(s.take(1)[0] == p[0]);
    }
}

/// Escaping goes character by character.
pub proof fn lemma_escaped_step(s: Seq<char>)
    requires
        s.len() > 0,
    ensures
        escaped(s) == (if s[0] == '\\' || s[0] == '"' {
            seq!['\\', s[0]]
        } else {
            seq![s[0]]
        }) + escaped(s.drop_first()),
{
    reveal_strlit("\\");
    reveal_strlit("\\\\");
    reveal_strlit("\"");
    reveal_strlit("\\\"");
    let once = replaced(s, "\\"@, "\\\\"@);
    let tail = replaced(s.drop_first(), "\\"@, "\\\\"@);
    lemma_replaced_step(s, "\\"@, "\\\\"@);
    lemma_replaced_step(once, "\""@, "\\\""@);
    if s[0] == '\\' {
        lemma_replaced_step(once.drop_first(), "\""@, "\\\""@);
        assert(once.drop_first().drop_first() =~= tail);
        assert(escaped(s) =~= seq!['\\', s[0]] + escaped(s.drop_first()));
    } else {
        assert(once.drop_first() =~= tail);
        if s[0] == '"' {
            assert("\\\""@ =~= seq!['\\', s[0]]);
        }
    }
}

/// `s` without one carriage return at its end.
pub open spec fn without_cr(s: Seq<char>) -> Seq<char> {
    if s.len() > 0 && s.last() == '\r' {
        s.drop_last()
    } else {
        s
    }
}

/// The lines of `s`. A line ends at a line feed, which may have a carriage
/// return before it, or at the end of the text.
pub open spec fn lines(s: Seq<char>) -> Seq<Seq<char>>
    decreases s.len(),
{
    if s.len() == 0 {
        Seq::empty()
    } else {
        let n = before(s, '\n') as int;
        if n >= s.len() {
            seq![s]
        } else {
            seq![without_cr(s.take(n))] + lines(s.skip(n + 1))
        }
    }
}

/// Cuts `s` into its lines.
pub fn lines_of(s: &str) -> (out: Vec<String>)
    ensures
        out.deep_view() == lines(s@),
{
    let chars = chars_of(s);
    let len: usize = chars.len();
    let mut out: Vec<String> = Vec::new();
    let mut start: usize = 0;
    assert(chars@.skip(0) =~= s@);
    assert(out.deep_view() + lines(s@) =~= lines(s@));
    while start < len
        invariant
            start <= len == chars@.len(),
            out.deep_view() + lines(chars@.skip(start as int)) == lines(s@),
        decreases len - start,
    {
        let ghost rest = chars@.skip(start as int);
        let ghost had = out.deep_view();
        let end = find_from(&chars, start, '\n');
        if end == len {
            assert(rest =~= chars@.subrange(start as int, len as int));
            push_line(&mut out, text_of(&chars, start, len));
            assert(had.push(rest) =~= had + seq![rest]);
            assert(chars@.skip(len as int) =~= Seq::<char>::empty());
            assert(out.deep_view() + lines(chars@.skip(len as int)) =~= out.deep_view());
            start = len;
        } else {
            let ghost n = end - start;
            let ghost line = rest.take(n);
            assert(rest.skip(n + 1) =~= chars@.skip(end + 1));
            let stop: usize = if end > start && chars[end - 1] == '\r' {
                end - 1
            } else {
                end
            };
            assert(chars@.subrange(start as int, stop as int) =~= without_cr(line));
            push_line(&mut out, text_of(&chars, start, stop));
            assert(had + (seq![without_cr(line)] + lines(rest.skip(n + 1))) =~= had.push(
                without_cr(line),
            ) + lines(rest.skip(n + 1)));
            start = end + 1;
        }
    }
    assert(out.deep_view() + lines(chars@.skip(start as int)) =~= out.deep_view());
    out
}

/// A text made of lines, each of them with a line feed behind it.
pub open spec fn ended(list: Seq<Seq<char>>) -> Seq<char>
    decreases list.len(),
{
    if list.len() == 0 {
        Seq::empty()
    } else {
        ended(list.drop_last()) + list.last().push('\n')
    }
}

/// Makes a text of lines.
pub fn end_lines(list: &Vec<String>) -> (out: String)
    ensures
        out@ == ended(list.deep_view()),
{
    let ghost all = list.deep_view();
    let n: usize = list.len();
    let mut out = String::new();
    assert(all.take(0) =~= Seq::empty());
    for i in 0..n
        invariant
            n == list@.len(),
            all == list.deep_view(),
            out@ == ended(all.take(i as int)),
    {
        assert(all.take(i + 1).drop_last() =~= all.take(i as int));
        assert(all.take(i + 1).last() == list@[i as int]@);
        out = out.concat(list[i].as_str());
        out.push('\n');
        assert(out@ =~= ended(all.take(i + 1)));
    }
    assert(all.take(n as int) =~= all);
    out
}

/// Can `line` be a line? It holds no line feed and ends in no carriage
/// return.
pub open spec fn is_line(line: Seq<char>) -> bool {
    !line.contains('\n') && (line.len() > 0 ==> line.last() != '\r')
}

proof fn lemma_lines_append(x: Seq<char>, line: Seq<char>)
    requires
        x.len() > 0 ==> x.last() == '\n',
        is_line(line),
    ensures
        lines(x + line.push('\n')) == lines(x).push(line),
    decreases x.len(),
{
    let y = line.push('\n');
    let whole = x + y;
    if x.len() == 0 {
        let n = line.len() as int;
        assert(whole =~= y);
        assert forall|k: int| 0 <= k < n implies y[k] != '\n' by {
            assert(line.contains(line[k]));
        }
        lemma_before_is(y, '\n', n as nat);
        assert(y.take(n) =~= line);
        assert(y.skip(n + 1) =~= Seq::empty());
        assert(lines(Seq::<char>::empty()) =~= Seq::empty());
        assert(without_cr(line) == line);
        assert(lines(whole) =~= seq![line]);
        assert(lines(x).push(line) =~= seq![line]);
    } else {
        lemma_before(x, '\n');
        assert(x.contains(x.last()));
        let n = before(x, '\n') as int;
        assert forall|k: int| 0 <= k < n implies whole[k] != '\n' by {
            assert(whole[k] == x[k]);
        }
        assert(whole[n] == x[n]);
        lemma_before_is(whole, '\n', n as nat);
        let tail = x.skip(n + 1);
        if tail.len() > 0 {
            assert(tail.last() == x.last());
        }
        lemma_lines_append(tail, line);
        assert(whole.take(n) =~= x.take(n));
        assert(whole.skip(n + 1) =~= tail + y);
        assert(lines(whole) =~= lines(x).push(line));
    }
}

/// The lines that a text was made of are the lines that it has.
pub proof fn law_lines_are_read_back(list: Seq<Seq<char>>)
    requires
        forall|i: int| 0 <= i < list.len() ==> is_line(#[trigger] list[i]),
    ensures
        lines(ended(list)) == list,
    decreases list.len(),
{
    if list.len() > 0 {
        let front = list.drop_last();
        assert forall|i: int| 0 <= i < front.len() implies is_line(#[trigger] front[i]) by {
            assert(front[i] == list[i]);
        }
        law_lines_are_read_back(front);
        if front.len() > 0 {
            assert(ended(front).last() == '\n');
        }
        lemma_lines_append(ended(front), list.last());
        assert(front.push(list.last()) =~= list);
    }
}

/// A line with the line feeds before and after it.
pub open spec fn framed(line: Seq<char>) -> Seq<char> {
    seq!['\n'] + line + seq!['\n']
}

/// A text of lines ends in a line feed.
proof fn lemma_ended_last(list: Seq<Seq<char>>)
    requires
        list.len() > 0,
    ensures
        ended(list).len() > 0,
        ended(list).last() == '\n',
{
}

/// Every line of a text but the first stands between two line feeds.
pub proof fn lemma_line_is_framed(list: Seq<Seq<char>>, k: int)
    requires
        0 < k < list.len(),
    ensures
        occurs(ended(list), framed(list[k])),
    decreases list.len(),
{
    let front = list.drop_last();
    let whole = ended(list);
    let frame = framed(list[k]);
    lemma_ended_last(front);
    if k == list.len() - 1 {
        let i = ended(front).len() - 1;
        assert(whole.subrange(i, i + frame.len()) =~= frame);
    } else {
        lemma_line_is_framed(front, k);
        assert(front[k] == list[k]);
        let i = choose|i: int|
            0 <= i <= ended(front).len() - frame.len() && #[trigger] ended(front).subrange(
                i,
                i + frame.len(),
            ) == frame;
        assert(whole.subrange(i, i + frame.len()) =~= ended(front).subrange(i, i + frame.len()));
    }
}

/// What stands between two line feeds, and has none in it, is a line.
pub proof fn lemma_framed_is_line(list: Seq<Seq<char>>, line: Seq<char>)
    requires
        forall|i: int| 0 <= i < list.len() ==> is_line(#[trigger] list[i]),
        !line.contains('\n'),
        occurs(ended(list), framed(line)),
    ensures
        list.contains(line),
    decreases list.len(),
{
    let whole = ended(list);
    let frame = framed(line);
    let m = frame.len() as int;
    let i = choose|i: int| 0 <= i <= whole.len() - m && #[trigger] whole.subrange(i, i + m) == frame;
    assert forall|j: int| 0 <= j < m implies whole[i + j] == #[trigger] frame[j] by {
        assert(whole.subrange(i, i + m)[j] == whole[i + j]);
    }
    assert(frame[0] == '\n' && frame[m - 1] == '\n');
    let front = list.drop_last();
    let last = list.last();
    let n = ended(front).len() as int;
    assert forall|j: int| 0 <= j < front.len() implies is_line(#[trigger] front[j]) by {
        assert(front[j] == list[j]);
    }
    if i + m <= n {
        assert(ended(front).subrange(i, i + m) =~= whole.subrange(i, i + m));
        lemma_framed_is_line(front, line);
        let j = choose|j: int| 0 <= j < front.len() && front[j] == line;
        assert(list[j] == line);
    } else {
        assert(is_line(list[list.len() - 1]));
        assert forall|j: int| n <= j < whole.len() - 1 implies whole[j] != '\n' by {
            assert(whole[j] == last[j - n]);
            assert(last.contains(last[j - n]));
        }
        assert(whole[i + (m - 1)] == '\n');
        assert(i + m == whole.len());
        assert(whole[i + 0] == '\n');
        assert(i < n);
        lemma_ended_last(front);
        assert(whole[n - 1] == '\n');
        if i < n - 1 {
            assert(whole[i + (n - 1 - i)] == frame[n - 1 - i]);
            assert(frame[n - 1 - i] == line[n - 2 - i]);
            assert(line.contains(line[n - 2 - i]));
        }
        assert forall|j: int| 0 <= j < line.len() implies line[j] == #[trigger] last[j] by {
            assert(frame[j + 1] == line[j]);
            assert(whole[i + (j + 1)] == last[j]);
        }
        assert(line =~= last);
        assert(list[list.len() - 1] == line);
    }
}

/// The first line of `s`; `s` itself, if it has none.
pub open spec fn first_line(s: Seq<char>) -> Seq<char> {
    if lines(s).len() > 0 {
        lines(s)[0]
    } else {
        s
    }
}

/// The first line of `s`.
pub fn head_line(s: &str) -> (out: String)
    ensures
        out@ == first_line(s@),
{
    let all = lines_of(s);
    if all.len() > 0 {
        assert(all.deep_view()[0] == all[0]@);
        all[0].clone()
    } else {
        s.to_string()
    }
}

/// The first `n` lines of `s`, with line feeds between them.
pub fn first_lines(s: &str, n: usize) -> (out: String)
    ensures
        out@ == joined(at_most(lines(s@), n as nat), "\n"@),
{
    let mut all = lines_of(s);
    let ghost whole = all.deep_view();
    if all.len() > n {
        all.truncate(n);
        assert(all.deep_view() =~= whole.take(n as int));
    }
    join(&all, "\n")
}

/// What follows the last `c` in `s`; all of `s`, if `c` is not there.
pub open spec fn after_last(s: Seq<char>, c: char) -> Seq<char>
    decreases s.len(),
{
    if s.len() == 0 || s.last() == c {
        Seq::empty()
    } else {
        after_last(s.drop_last(), c).push(s.last())
    }
}

/// `after_last` is the longest end of `s` without `c`.
pub proof fn lemma_after_last(s: Seq<char>, c: char)
    ensures
        after_last(s, c).len() <= s.len(),
        after_last(s, c) == s.skip(s.len() - after_last(s, c).len()),
        !after_last(s, c).contains(c),
        after_last(s, c).len() < s.len() ==> s[s.len() - after_last(s, c).len() - 1] == c,
    decreases s.len(),
{
    if s.len() > 0 && s.last() != c {
        lemma_after_last(s.drop_last(), c);
        assert(after_last(s, c) =~= s.skip(s.len() - after_last(s, c).len()));
    } else {
        assert(after_last(s, c) =~= s.skip(s.len() as int));
    }
}

/// Keeps what follows the last `c`.
pub fn keep_after_last(s: &str, c: char) -> (out: String)
    ensures
        out@ == after_last(s@, c),
{
    let chars = chars_of(s);
    let len: usize = chars.len();
    let mut i: usize = len;
    assert(chars@.take(len as int) =~= s@);
    assert(after_last(s@, c) + chars@.skip(len as int) =~= after_last(s@, c));
    while i > 0 && chars[i - 1] != c
        invariant
            i <= len == chars@.len(),
            after_last(chars@.take(i as int), c) + chars@.skip(i as int) == after_last(s@, c),
        decreases i,
    {
        let ghost head = chars@.take(i as int);
        assert(head.drop_last() =~= chars@.take(i - 1));
        assert(after_last(head, c) + chars@.skip(i as int) =~= after_last(head.drop_last(), c)
            + chars@.skip(i - 1));
        i = i - 1;
    }
    assert(after_last(chars@.take(i as int), c) =~= Seq::<char>::empty());
    assert(chars@.subrange(i as int, len as int) =~= after_last(s@, c));
    text_of(&chars, i, len)
}

/// The two parts of `s` round its first `c`, if `c` is there.
pub open spec fn cut_at(s: Seq<char>, c: char) -> Option<(Seq<char>, Seq<char>)> {
    let n = before(s, c) as int;
    if n >= s.len() {
        None
    } else {
        Some((s.take(n), s.skip(n + 1)))
    }
}

/// Cuts `s` at its first `c`.
pub fn split_once(s: &str, c: char) -> (out: Option<(String, String)>)
    ensures
        out.deep_view() == cut_at(s@, c),
{
    let chars = chars_of(s);
    let len: usize = chars.len();
    assert(chars@.skip(0) =~= s@);
    let n = find_from(&chars, 0, c);
    if n == len {
        None
    } else {
        assert(chars@.subrange(0, n as int) =~= s@.take(n as int));
        assert(chars@.subrange(n + 1, len as int) =~= s@.skip(n + 1));
        Some((text_of(&chars, 0, n), text_of(&chars, n + 1, len)))
    }
}

/// Keeps the last `n` characters of `s`.
pub fn last_chars(s: &str, n: usize) -> (out: String)
    ensures
        out@ == tail_of(s@, n as nat),
{
    let chars = chars_of(s);
    let len: usize = chars.len();
    let from: usize = if len > n {
        len - n
    } else {
        0
    };
    assert(chars@.subrange(from as int, len as int) =~= tail_of(s@, n as nat));
    text_of(&chars, from, len)
}

// ── Numbers ──────────────────────────────────────────────────────────────

/// The character of a decimal digit.
pub open spec fn digit(d: int) -> char {
    (('0' as u32) + d) as char
}

/// A number in decimal digits.
pub open spec fn decimal(n: nat) -> Seq<char>
    decreases n,
{
    if n < 10 {
        seq![digit(n as int)]
    } else {
        decimal(n / 10).push(digit((n % 10) as int))
    }
}

/// The character of the digit `d`.
fn digit_char(d: u64) -> (c: char)
    requires
        d < 10,
    ensures
        c == digit(d as int),
{
    match d {
        0 => '0',
        1 => '1',
        2 => '2',
        3 => '3',
        4 => '4',
        5 => '5',
        6 => '6',
        7 => '7',
        8 => '8',
        _ => '9',
    }
}

/// Writes `n` in decimal.
pub fn show(n: u64) -> (out: String)
    ensures
        out@ == decimal(n as nat),
    decreases n,
{
    if n < 10 {
        let mut out = String::new();
        out.push(digit_char(n));
        assert(out@ =~= seq![digit(n as int)]);
        out
    } else {
        let mut out = show(n / 10);
        out.push(digit_char(n % 10));
        out
    }
}

/// A whole number in decimal, with a minus sign where it is negative.
pub open spec fn signed_decimal(n: int) -> Seq<char> {
    if n < 0 {
        "-"@ + decimal((-n) as nat)
    } else {
        decimal(n as nat)
    }
}

/// Writes `n` in decimal.
pub fn show_signed(n: i32) -> (out: String)
    ensures
        out@ == signed_decimal(n as int),
{
    let wide: i64 = n as i64;
    if wide < 0 {
        let digits = show((0 - wide) as u64);
        "-".to_string().concat(digits.as_str())
    } else {
        show(wide as u64)
    }
}

/// The number that the decimal digits of `s` write, most significant first.
pub open spec fn digits_value(s: Seq<char>) -> nat
    decreases s.len(),
{
    if s.len() == 0 {
        0
    } else {
        digits_value(s.drop_last()) * 10 + ((s.last() as u32) - ('0' as u32)) as nat
    }
}

/// Is every character of `s` a decimal digit, and is there one?
pub open spec fn all_digits(s: Seq<char>) -> bool {
    s.len() > 0 && forall|i: int| 0 <= i < s.len() ==> '0' as u32 <= #[trigger] s[i] as u32 <= '9' as u32
}

/// A count as git prints it: decimal digits, after an optional plus sign,
/// whose value fits in 32 bits.
pub open spec fn count_value(s: Seq<char>) -> Option<u32> {
    let d = if s.len() > 0 && s[0] == '+' {
        s.drop_first()
    } else {
        s
    };
    if all_digits(d) && digits_value(d) <= u32::MAX {
        Some(digits_value(d) as u32)
    } else {
        None
    }
}

proof fn lemma_digits_grow(s: Seq<char>, n: int)
    requires
        0 <= n <= s.len(),
    ensures
        digits_value(s.take(n)) <= digits_value(s),
    decreases s.len(),
{
    if n < s.len() {
        lemma_digits_grow(s.drop_last(), n);
        assert(s.drop_last().take(n) =~= s.take(n));
    } else {
        assert(s.take(n) =~= s);
    }
}

/// Reads a count.
pub fn parse_count(s: &str) -> (out: Option<u32>)
    ensures
        out == count_value(s@),
{
    let chars = chars_of(s);
    let from: usize = if chars.len() > 0 && chars[0] == '+' {
        1
    } else {
        0
    };
    let ghost d = chars@.skip(from as int);
    assert(from == 1 ==> d =~= s@.drop_first());
    assert(from == 0 ==> d =~= s@);
    if from == chars.len() {
        return None;
    }
    let mut value: u64 = 0;
    for i in from..chars.len()
        invariant
            from <= chars@.len(),
            d == chars@.skip(from as int),
            d == (if s@.len() > 0 && s@[0] == '+' {
                s@.drop_first()
            } else {
                s@
            }),
            forall|j: int| 0 <= j < i - from ==> '0' as u32 <= #[trigger] d[j] as u32 <= '9' as u32,
            value == digits_value(d.take(i - from)),
            value <= u32::MAX,
    {
        let code: u32 = chars[i] as u32;
        assert(code == d[i - from] as u32);
        if code < 48 || code > 57 {
            return None;
        }
        let ghost upto = d.take(i + 1 - from);
        assert(upto.drop_last() =~= d.take(i - from));
        value = value * 10 + (code - 48) as u64;
        if value > u32::MAX as u64 {
            proof {
                lemma_digits_grow(d, i + 1 - from);
            }
            return None;
        }
    }
    assert(d.take(chars@.len() - from) =~= d);
    Some(value as u32)
}

} // verus!

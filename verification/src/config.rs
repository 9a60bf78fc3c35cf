//! The launcher's settings file and the branch that a repository is on.
use crate::host::{default_install_path, Host};
use crate::output::{Output, OutputModel};
use crate::parts::{branch_ref, branch_title, cmd, command, Branch, Cmd, Program, ProgramModel};
use crate::text::{
    begins, chars_of, contains, cut_at, escape, escaped, find_text_from, first_at,
    lemma_before_is, lemma_escaped_step, occurs, split_once, text_of, trim, trimmed, trimmed_end,
    trimmed_start,
};
use vstd::prelude::*;

verus! {

/// The key of the installation's path.
pub const KEY: &'static str = "\"install_path\"";

/// The content of the settings file.
pub open spec fn config_content(path: Seq<char>, branch: Branch) -> Seq<char> {
    "{\n  \"install_path\": \""@ + escaped(path) + "\",\n  \"branch\": \""@ + branch_title(branch)
        + "\"\n}\n"@
}

/// Writes the content of the settings file.
pub fn config_text(path: &str, branch: Branch) -> (s: String)
    ensures
        s@ == config_content(path@, branch),
{
    let safe = escape(path);
    "{\n  \"install_path\": \"".to_string().concat(safe.as_str()).concat(
        "\",\n  \"branch\": \"",
    ).concat(branch.title()).concat("\"\n}\n")
}

/// The string that stands at the start of `t`, behind its opening quote: it
/// goes to the closing quote, or to the end if that is missing. A backslash
/// before a backslash or a quote stands for nothing.
pub open spec fn string_at(t: Seq<char>) -> Seq<char>
    decreases t.len(),
{
    if t.len() == 0 || t[0] == '"' {
        Seq::empty()
    } else if t[0] == '\\' && t.len() > 1 && (t[1] == '\\' || t[1] == '"') {
        seq![t[1]] + string_at(t.skip(2))
    } else {
        seq![t[0]] + string_at(t.drop_first())
    }
}

/// The path that a settings file names, if it names one: the string that
/// follows the first mention of its key.
pub open spec fn named_path(content: Seq<char>) -> Option<Seq<char>> {
    match first_at(content, KEY@) {
        None => None,
        Some(i) => match cut_at(content.skip((i + KEY@.len()) as int), '"') {
            None => None,
            Some((_, t)) => Some(string_at(t)),
        },
    }
}

fn read_string(t: &str) -> (out: String)
    ensures
        out@ == string_at(t@),
{
    let chars = chars_of(t);
    let len: usize = chars.len();
    let mut out = String::new();
    let mut i: usize = 0;
    assert(chars@.skip(0) =~= t@);
    assert(out@ + string_at(t@) =~= string_at(t@));
    while i < len && chars[i] != '"'
        invariant
            i <= len,
            len == chars@.len(),
            out@ + string_at(chars@.skip(i as int)) == string_at(t@),
        decreases len - i,
    {
        let ghost rest = chars@.skip(i as int);
        let c = if chars[i] == '\\' && i + 1 < len && (chars[i + 1] == '\\' || chars[i + 1] == '"') {
            i = i + 1;
            assert(rest.skip(2) =~= chars@.skip(i + 1));
            chars[i]
        } else {
            assert(rest.drop_first() =~= chars@.skip(i + 1));
            chars[i]
        };
        i = i + 1;
        assert(out@ + (seq![c] + string_at(chars@.skip(i as int))) =~= out@.push(c) + string_at(
            chars@.skip(i as int),
        ));
        out.push(c);
    }
    assert(out@ + string_at(chars@.skip(i as int)) =~= out@);
    out
}

/// Reads the path from a settings file.
pub fn path_in_config(content: &str) -> (path: Option<String>)
    ensures
        path.deep_view() == named_path(content@),
{
    let chars = chars_of(content);
    let key = chars_of(KEY);
    let len: usize = chars.len();
    assert(chars@.skip(0) =~= content@);
    match find_text_from(&chars, 0, &key) {
        None => None,
        Some(i) => {
            let from: usize = i + key.len();
            assert(chars@.subrange(from as int, len as int) =~= content@.skip(from as int));
            let rest = text_of(&chars, from, len);
            match split_once(rest.as_str(), '"') {
                None => None,
                Some((_, after)) => Some(read_string(after.as_str())),
            }
        },
    }
}

/// The installation's path at the start of a session: what the settings
/// file names, if it could be read and names one, else the default.
pub open spec fn start_path(content: Option<Seq<char>>, fallback: Seq<char>) -> Seq<char> {
    match content {
        None => fallback,
        Some(text) => match named_path(text) {
            None => fallback,
            Some(path) => path,
        },
    }
}

/// Settles the installation's path at the start of a session.
pub fn load_install_path(host: &Host, content: Option<String>) -> (path: String)
    ensures
        path@ == start_path(content.deep_view(), host.deep_view().default_install()),
{
    match content {
        None => default_install_path(host),
        Some(text) => match path_in_config(text.as_str()) {
            None => default_install_path(host),
            Some(path) => path,
        },
    }
}

/// How a settings file says that the development branch is selected.
pub const DEVELOPMENT: &'static str = "\"branch\": \"Development\"";

/// The branch that a settings file names: the stable one, unless it says
/// otherwise.
pub open spec fn named_branch(content: Option<Seq<char>>) -> Branch {
    match content {
        Some(text) if occurs(text, DEVELOPMENT@) => Branch::Development,
        _ => Branch::Stable,
    }
}

/// The branch at the start of a session: the one that the repository is on,
/// or, where there is no repository yet, the one that was selected last.
pub open spec fn start_branch(
    content: Option<Seq<char>>,
    repo: bool,
    head: Option<OutputModel>,
) -> Branch {
    if repo {
        branch_there(repo, head)
    } else {
        named_branch(content)
    }
}

/// Settles the branch at the start of a session.
pub fn load_branch(content: &Option<String>, repo: bool, head: &Option<Output>) -> (b: Branch)
    ensures
        b == start_branch(content.deep_view(), repo, head.deep_view()),
{
    if repo {
        return detect_git_branch(repo, head);
    }
    match content {
        Some(text) => if contains(text.as_str(), DEVELOPMENT) {
            Branch::Development
        } else {
            Branch::Stable
        },
        None => Branch::Stable,
    }
}

/// Asks git which branch a repository is on.
pub fn head_command(install_path: &str) -> (c: Cmd)
    ensures
        c.deep_view() == command(
            ProgramModel::Git,
            seq!["-C"@, install_path@, "rev-parse"@, "--abbrev-ref"@, "HEAD"@],
        ),
{
    cmd(Program::Git, &["-C", install_path, "rev-parse", "--abbrev-ref", "HEAD"])
}

/// The branch that a repository is on. Without a repository or an answer it
/// counts as the stable one, and so does any branch but `dev`.
pub open spec fn branch_there(repo: bool, head: Option<OutputModel>) -> Branch {
    match head {
        Some(o) if repo && o.success && trimmed(o.stdout) == "dev"@ => Branch::Development,
        _ => Branch::Stable,
    }
}

/// Settles the branch that a repository is on, from whether there is one and
/// what git answered.
pub fn detect_git_branch(repo: bool, head: &Option<Output>) -> (b: Branch)
    ensures
        b == branch_there(repo, head.deep_view()),
{
    if !repo {
        return Branch::Stable;
    }
    match head {
        Some(o) => {
            if o.success {
                let name = trim(o.stdout.as_str());
                if name == "dev".to_string() {
                    return Branch::Development;
                }
            }
            Branch::Stable
        },
        None => Branch::Stable,
    }
}

// ── What is written is read back ─────────────────────────────────────────

proof fn lemma_first_at_is(s: Seq<char>, p: Seq<char>, n: nat)
    requires
        n <= s.len(),
        begins(s.skip(n as int), p),
        forall|i: int| 0 <= i < n ==> !begins(#[trigger] s.skip(i), p),
    ensures
        first_at(s, p) == Some(n),
    decreases n,
{
    assert(s.skip(0) =~= s);
    if n > 0 {
        let t = s.drop_first();
        assert forall|i: int| 0 <= i < n - 1 implies !begins(#[trigger] t.skip(i), p) by {
            assert(t.skip(i) =~= s.skip(i + 1));
        }
        assert(t.skip(n - 1) =~= s.skip(n as int));
        lemma_first_at_is(t, p, (n - 1) as nat);
    }
}

/// A string that was escaped is read back as it was.
pub proof fn law_escaped_string_is_read(s: Seq<char>, rest: Seq<char>)
    ensures
        string_at(escaped(s) + "\""@ + rest) == s,
    decreases s.len(),
{
    reveal_strlit("\"");
    let end = "\""@ + rest;
    let whole = escaped(s) + "\""@ + rest;
    assert(whole =~= escaped(s) + end);
    if s.len() == 0 {
        assert(whole =~= end);
    } else {
        let tail = s.drop_first();
        law_escaped_string_is_read(tail, rest);
        lemma_escaped_step(s);
        if s[0] == '\\' || s[0] == '"' {
            assert(whole[0] == '\\' && whole[1] == s[0]);
            assert(whole.skip(2) =~= escaped(tail) + "\""@ + rest);
        } else {
            assert(whole[0] == s[0]);
            assert(whole.drop_first() =~= escaped(tail) + "\""@ + rest);
        }
        assert(seq![s[0]] + tail =~= s);
    }
}

/// Every quote in an escaped text has a backslash before it.
proof fn lemma_quotes_are_escaped(s: Seq<char>)
    ensures
        forall|k: int|
            0 <= k < escaped(s).len() && #[trigger] escaped(s)[k] == '"' ==> k > 0 && escaped(s)[k
                - 1] == '\\',
    decreases s.len(),
{
    let e = escaped(s);
    if s.len() > 0 {
        let tail = escaped(s.drop_first());
        lemma_quotes_are_escaped(s.drop_first());
        lemma_escaped_step(s);
        let n: int = e.len() - tail.len();
        assert forall|k: int| 0 <= k < e.len() && #[trigger] e[k] == '"' implies k > 0 && e[k - 1]
            == '\\' by {
            if k >= n {
                assert(tail[k - n] == e[k]);
                assert(tail[k - n - 1] == e[k - 1]);
            }
        }
    }
}

/// The path that is saved is the path that the next session starts with,
/// whatever the path and the branch.
pub proof fn law_saved_path_is_loaded(path: Seq<char>, branch: Branch, fallback: Seq<char>)
    ensures
        start_path(Some(config_content(path, branch)), fallback) == path,
{
    reveal_strlit("{\n  \"install_path\": \"");
    reveal_strlit("\",\n  \"branch\": \"");
    reveal_strlit("\"install_path\"");
    reveal_strlit("\"");
    let content = config_content(path, branch);
    let key = KEY@;
    // The key stands behind the opening brace.
    assert forall|i: int| 0 <= i < 4 implies !begins(#[trigger] content.skip(i), key) by {
        if begins(content.skip(i), key) {
            assert(content.skip(i).take(14)[0] == key[0]);
        }
    }
    assert(content.skip(4).take(14) =~= key);
    lemma_first_at_is(content, key, 4);
    // The path comes next.
    let rest = content.skip(18);
    assert(rest[0] == ':' && rest[1] == ' ' && rest[2] == '"');
    lemma_before_is(rest, '"', 2);
    let after = content.skip(22 + escaped(path).len() as int);
    assert(rest.skip(3) =~= escaped(path) + "\""@ + after);
    law_escaped_string_is_read(path, after);
}

/// The branch that is saved is the branch that the next session starts
/// with, where there is no repository yet to tell it.
pub proof fn law_saved_branch_is_loaded(path: Seq<char>, branch: Branch, head: Option<OutputModel>)
    ensures
        start_branch(Some(config_content(path, branch)), false, head) == branch,
{
    reveal_strlit("{\n  \"install_path\": \"");
    reveal_strlit("\",\n  \"branch\": \"");
    reveal_strlit("\"\n}\n");
    reveal_strlit("Stable");
    reveal_strlit("Development");
    reveal_strlit("\"branch\": \"Development\"");
    let content = config_content(path, branch);
    let e = escaped(path);
    let mark = DEVELOPMENT@;
    let n = e.len() as int;
    lemma_quotes_are_escaped(path);
    assert forall|k: int| 0 <= k < n implies #[trigger] content[21 + k] == e[k] by {}
    match branch {
        Branch::Development => {
            assert(content.subrange(26 + n, 26 + n + mark.len()) =~= mark);
        },
        Branch::Stable => {
            assert forall|j: int| 0 <= j <= content.len() - mark.len() implies #[trigger]
                content.subrange(j, j + mark.len()) != mark by {
                let there = content.subrange(j, j + mark.len());
                if there == mark {
                    assert(content[j] == there[0]);
                    assert(content[j + 6] == there[6]);
                    assert(content[j + 7] == there[7]);
                    assert(content[j + 8] == there[8]);
                    assert(content[j + 11] == there[11]);
                    // The second quote of the mark has no backslash before it.
                    if 21 <= j + 7 < 21 + n {
                        assert(content[21 + (j + 7 - 21)] == e[j + 7 - 21]);
                        assert(content[21 + (j + 6 - 21)] == e[j + 6 - 21]);
                    }
                    assert(false);
                }
            }
        },
    }
}

/// A branch that git names on a line of its own is the branch that is
/// detected.
pub proof fn law_branch_is_detected(b: Branch, answer: OutputModel)
    requires
        answer.success,
        answer.stdout == branch_ref(b).push('\n'),
    ensures
        branch_there(true, Some(answer)) == b,
{
    reveal_strlit("dev");
    reveal_strlit("main");
    let s = answer.stdout;
    let name = branch_ref(b);
    assert(name == "dev"@ || name == "main"@);
    assert(s[0] == name[0]);
    assert(trimmed_start(s) == s);
    assert(s.drop_last() =~= name);
    assert(trimmed_end(name) == name);
    assert(trimmed_end(s) == trimmed_end(s.drop_last()));
    assert("main"@.len() != "dev"@.len());
}

} // verus!

//! What is read from and written to files and streams: settings, output and
//! the files of the desktop.
use super::text::{law_last_part_is_kept, law_last_value_counts};
use crate::config::{branch_there, config_content, named_path, start_branch, start_path};
use crate::icon::{
    desktop_entry, desktop_sizes, icon_dir, ico_sizes, is_icon_file, refresh_icons, IconFile,
};
use crate::install::family_of;
use crate::output::{
    brief, chomped, chomped_text, full, install_line, journal_line, law_stripped_keeps_plain_text,
    report_line, report_of, sapphire_line, OutputModel, ESC,
};
use crate::parts::{Branch, CmdModel, ProgramModel};
use crate::text::{
    begins, decimal, ended, escaped, lines, lowercase, occurs, peeled, trimmed, white,
};
use vstd::prelude::*;

verus! {

// ── Settings ─────────────────────────────────────────────────────────────

/// Without settings, or without a path in them, the folder is the one that
/// stands in for it; the branch is the stable one unless the settings name
/// the other.
pub proof fn law_settings_may_be_missing(
    text: Seq<char>,
    fallback: Seq<char>,
    head: Option<OutputModel>,
)
    ensures
        start_path(None, fallback) == fallback,
        named_path(text) is None ==> start_path(Some(text), fallback) == fallback,
        named_path(text) is Some ==> start_path(Some(text), fallback) == named_path(text)->0,
        !occurs(text, "\"install_path\""@) ==> named_path(text) is None,
        start_branch(None, false, head) == Branch::Stable,
        start_branch(Some(text), false, head) == if occurs(text, "\"branch\": \"Development\""@) {
            Branch::Development
        } else {
            Branch::Stable
        },
{
    crate::text::lemma_first_at(text, crate::config::KEY@);
}

/// In a repository the branch is the one that it is on, whatever the settings
/// say: `dev` is the one in development, and everything else counts as
/// stable.
pub proof fn law_repository_decides_the_branch(
    content: Option<Seq<char>>,
    head: Option<OutputModel>,
)
    ensures
        start_branch(content, true, head) == branch_there(true, head),
        branch_there(true, head) == Branch::Development <==> (head matches Some(o) && o.success
            && trimmed(o.stdout) == "dev"@),
        branch_there(false, head) == Branch::Stable,
{
}

/// The settings are written as JSON, with the folder and the branch under
/// their names.
pub proof fn law_settings_are_json(path: Seq<char>, b: Branch)
    ensures
        config_content(path, b) == "{\n  \"install_path\": \""@ + escaped(path)
            + "\",\n  \"branch\": \""@ + (if b == Branch::Development {
            "Development"@
        } else {
            "Stable"@
        }) + "\"\n}\n"@,
{
}

/// The distribution family is made of the name and the relatives that the
/// last lines for them give, without the quotes round them, in lower case.
pub proof fn law_distribution_is_read(
    text: Seq<char>,
    first: Seq<Seq<char>>,
    id: Seq<char>,
    between: Seq<Seq<char>>,
    like: Seq<char>,
    rest: Seq<Seq<char>>,
)
    requires
        lines(text) == first.push("ID="@ + id) + (between.push("ID_LIKE="@ + like) + rest),
        forall|i: int| 0 <= i < between.len() ==> !begins(#[trigger] between[i], "ID="@),
        forall|i: int| 0 <= i < rest.len() ==> !begins(#[trigger] rest[i], "ID="@) && !begins(
            rest[i],
            "ID_LIKE="@,
        ),
    ensures
        family_of(text) == lowercase(peeled(id, '"')) + " "@ + lowercase(peeled(like, '"')),
{
    let more = between.push("ID_LIKE="@ + like) + rest;
    reveal_strlit("ID=");
    reveal_strlit("ID_LIKE=");
    assert forall|i: int| 0 <= i < more.len() implies !begins(#[trigger] more[i], "ID="@) by {
        if i < between.len() {
            assert(more[i] == between[i]);
        } else if i == between.len() {
            let l = "ID_LIKE="@ + like;
            assert(more[i] == l);
            assert(l[2] == '_');
            assert("ID="@[2] == '=');
            if begins(l, "ID="@) {
                assert(l.take(3)[2] == l[2]);
            }
        } else {
            assert(more[i] == rest[i - between.len() - 1]);
        }
    }
    law_last_value_counts(first, "ID="@, id, more);
    let before = first.push("ID="@ + id) + between;
    assert(lines(text) =~= before.push("ID_LIKE="@ + like) + rest);
    law_last_value_counts(before, "ID_LIKE="@, like, rest);
}

// ── Output ───────────────────────────────────────────────────────────────

/// What a command came to, in full: success exactly where it exited so, with
/// all that it printed, its own output before its complaints, without the
/// blanks round it.
pub proof fn law_output_is_told(o: OutputModel)
    ensures
        full(o) is Ok <==> o.success,
        o.success ==> full(o) == Ok::<Seq<char>, Seq<char>>(trimmed(o.stdout + o.stderr)),
        !o.success ==> full(o) == Err::<Seq<char>, Seq<char>>(trimmed(o.stdout + o.stderr)),
        brief(o) is Ok <==> o.success,
        o.success ==> brief(o) == Ok::<Seq<char>, Seq<char>>(trimmed(o.stdout)),
        !o.success && trimmed(o.stderr).len() > 0 ==> brief(o) == Err::<Seq<char>, Seq<char>>(
            trimmed(o.stderr),
        ),
        !o.success && trimmed(o.stderr).len() == 0 && o.code is Some ==> brief(o) == Err::<
            Seq<char>,
            Seq<char>,
        >("Exit code "@ + crate::text::signed_decimal(o.code->0 as int)),
{
}

/// Is this plain text, without escapes and returns?
pub open spec fn plain(s: Seq<char>) -> bool {
    !s.contains(ESC) && !s.contains('\r') && !s.contains('\n')
}

proof fn lemma_parts_are_plain(a: Seq<char>, c: char, b: Seq<char>)
    requires
        !a.contains(ESC),
        !b.contains(ESC),
        c != ESC,
    ensures
        !(a + seq![c] + b).contains(ESC),
{
    let whole = a + seq![c] + b;
    assert forall|i: int| 0 <= i < whole.len() implies whole[i] != ESC by {
        if i < a.len() {
            assert(a.contains(a[i]));
        } else if i > a.len() {
            assert(b.contains(b[i - a.len() - 1]));
        }
    }
}

/// A line is shown as it was printed; where it was overwritten by a return,
/// only what came last is. Lines of an installation are set in by two blanks.
pub proof fn law_line_is_shown_as_it_ended(a: Seq<char>, b: Seq<char>)
    requires
        plain(b),
        !a.contains(ESC),
    ensures
        install_line(b) == "  "@ + b,
        install_line(a + seq!['\r'] + b) == "  "@ + b,
        sapphire_line(b) == b,
        sapphire_line(a + seq!['\r'] + b) == b,
        journal_line(b) == b,
        journal_line(b + seq!['\n']) == b,
        b.len() > 0 && !white(b.last()) ==> report_line(b) == b && report_line(
            a + seq!['\r'] + b,
        ) == b,
{
    let whole = a + seq!['\r'] + b;
    lemma_parts_are_plain(a, '\r', b);
    law_stripped_keeps_plain_text(b);
    law_stripped_keeps_plain_text(whole);
    law_last_part_is_kept(a, '\r', b);
    if b.len() > 0 {
        assert(b.contains(b.last()));
    }
    let ended = b + seq!['\n'];
    assert(ended.drop_last() =~= b);
    assert(ended.last() == '\n');
    reveal_with_fuel(chomped_text, 3);
}

/// The line ends of a line that was read are no part of it, and nothing else
/// goes.
pub proof fn law_line_end_is_dropped(bytes: Seq<u8>)
    requires
        bytes.len() > 0 ==> bytes.last() != 10 && bytes.last() != 13,
    ensures
        chomped(bytes) == bytes,
        chomped(bytes.push(10)) == bytes,
        chomped(bytes.push(13).push(10)) == bytes,
{
    assert(bytes.push(10).drop_last() =~= bytes);
    assert(bytes.push(13).drop_last() =~= bytes);
    assert(bytes.push(13).push(10).drop_last() =~= bytes.push(13));
    reveal_with_fuel(chomped, 4);
}

/// Of what a command printed each line that shows something is in the log,
/// set in and in its order; the others are left out.
pub proof fn law_report_has_every_line(list: Seq<Seq<char>>, line: Seq<char>)
    ensures
        report_line(line).len() > 0 ==> report_of(list.push(line)) == report_of(list).push(
            "  "@ + report_line(line),
        ),
        report_line(line).len() == 0 ==> report_of(list.push(line)) == report_of(list),
        report_of(Seq::empty()).len() == 0,
{
    assert(list.push(line).drop_last() =~= list);
}

// ── The desktop ──────────────────────────────────────────────────────────

/// The icons of the desktop come in the sizes that desktops ask for, each in
/// the folder for its size.
pub proof fn law_icons_have_their_places(home: Seq<char>, size: u32, file: Seq<u8>, icon: IconFile)
    ensures
        desktop_sizes() == seq![512u32, 256u32, 128u32, 64u32, 48u32, 32u32, 16u32],
        ico_sizes() == seq![256u32, 48u32, 32u32, 16u32],
        icon_dir(home, size) == home + "/.local/share/icons/hicolor/"@ + decimal(size as nat) + "x"@
            + decimal(size as nat) + "/apps"@,
        is_icon_file(home, file, size, icon) ==> icon.dir@ == icon_dir(home, size) && icon.path@
            == icon.dir@ + "/sapphire-launcher.png"@,
        refresh_icons(home) == (CmdModel {
            program: ProgramModel::Named("gtk-update-icon-cache"@),
            args: seq!["-f"@, "-t"@, home + "/.local/share/icons/hicolor"@],
        }),
{
}

/// The desktop entry starts the program at the path that it was written for,
/// with the launcher's own name and icon.
pub proof fn law_desktop_entry_starts_the_launcher(exe: Seq<char>)
    ensures
        desktop_entry(exe) == ended(
            seq![
                "[Desktop Entry]"@,
                "Type=Application"@,
                "Name=Sapphire Launcher"@,
                "Comment=Install and manage Sapphire"@,
                "Exec="@ + exe,
                "Icon=sapphire-launcher"@,
                "Terminal=false"@,
                "Categories=Utility;"@,
                "StartupWMClass=sapphire-launcher"@,
            ],
        ),
{
}

} // verus!

//! What the launcher knows of the machine: paths, programs and commands.
use super::story::{tool, yes};
use crate::ask::{ReplyModel, RequestModel};
use crate::host::{
    env_python, file_cmd, first_found, kill_cmds, null_path, python_cmd, start_cmd, url_cmd,
    HostModel, Platform,
};
use crate::locate::{run_there, search_for, search_next, FoundModel, SearchModel};
use crate::parts::{CmdModel, ProgramModel};
use crate::stream::{end_text, first_notice, journal_cmd};
use crate::text::{decimal, first_line, signed_decimal, trimmed};
use vstd::prelude::*;

verus! {

// ── Paths ────────────────────────────────────────────────────────────────

/// A name in a folder is the folder, the sign that the system puts between
/// the two, and the name; a folder that ends with that sign gets no second
/// one, and a name in no folder stands alone.
pub proof fn law_path_is_joined(h: HostModel, base: Seq<char>, name: Seq<char>)
    ensures
        ({
            let path = h.path(base, name);
            &&& base.len() == 0 ==> path == name
            &&& base.len() > 0 && h.platform == Platform::Linux ==> path == if base.last() == '/' {
                base + name
            } else {
                base + seq!['/'] + name
            }
            &&& base.len() == 2 && h.platform == Platform::Windows && crate::text::letter(base[0])
                && base[1] == ':' ==> path == base + name
            &&& base.len() > 2 && h.platform == Platform::Windows ==> path == if base.last() == '\\'
                || base.last() == '/' {
                base + name
            } else {
                base + seq!['\\'] + name
            }
        }),
{
    reveal_strlit("/");
    reveal_strlit("\\");
    assert("/"@ =~= seq!['/']);
    assert("\\"@ =~= seq!['\\']);
}

/// The settings are kept where the system keeps those of the user: on Linux
/// in the folder that is named for it, else in `.config` in the user's folder;
/// on Windows in the application data.
pub proof fn law_settings_folder(h: HostModel)
    ensures
        ({
            let dir = h.config_dir();
            &&& h.platform == Platform::Linux && (h.xdg_config_home matches Some(x) && x.len() > 0)
                ==> dir == h.path(h.xdg_config_home->0, "sapphire"@)
            &&& h.platform == Platform::Linux && !(h.xdg_config_home matches Some(x) && x.len() > 0)
                ==> dir == h.path(
                h.path(
                    match h.home {
                        Some(home) => home,
                        None => "."@,
                    },
                    ".config"@,
                ),
                "sapphire"@,
            )
            &&& h.platform == Platform::Windows && (h.app_data matches Some(x) && x.len() > 0)
                ==> dir == h.path(h.app_data->0, "Sapphire"@)
            &&& h.platform == Platform::Windows && !(h.app_data matches Some(x) && x.len() > 0)
                ==> dir == h.path(
                h.path(
                    h.path(
                        match h.user_profile {
                            Some(home) => home,
                            None => "."@,
                        },
                        "AppData"@,
                    ),
                    "Roaming"@,
                ),
                "Sapphire"@,
            )
        }),
{
}

/// Sapphire is installed into the user's folder, unless another is chosen.
pub proof fn law_default_folder(h: HostModel)
    ensures
        h.platform == Platform::Linux && h.home is Some ==> h.default_install() == h.home->0
            + "/sapphire"@,
        h.platform == Platform::Windows && h.user_profile is Some ==> h.default_install()
            == h.user_profile->0 + "\\sapphire"@,
        h.platform == Platform::Windows && h.user_profile is None && h.home is Some
            ==> h.default_install() == h.home->0 + "\\sapphire"@,
{
}

/// The user's folder.
pub open spec fn home(h: HostModel) -> Seq<char> {
    let dir = if h.platform == Platform::Windows {
        h.user_profile
    } else {
        h.home
    };
    match dir {
        Some(dir) => dir,
        None => ""@,
    }
}

/// The Pythons and the pips that are looked for are those of Sapphire's
/// environment, in the Miniconda or the Anaconda of the user, in that order.
pub proof fn law_environment_is_looked_for(h: HostModel)
    ensures
        ({
            let home = home(h);
            &&& h.platform == Platform::Linux ==> {
                &&& h.python_places() == seq![
                    home + "/miniconda3/envs/sapphire/bin/python"@,
                    home + "/anaconda3/envs/sapphire/bin/python"@,
                ]
                &&& h.pip_places() == seq![
                    home + "/miniconda3/envs/sapphire/bin/pip"@,
                    home + "/anaconda3/envs/sapphire/bin/pip"@,
                ]
                &&& h.conda_places() == seq![
                    home + "/miniconda3/bin/conda"@,
                    home + "/anaconda3/bin/conda"@,
                    "/opt/miniconda3/bin/conda"@,
                    "/opt/anaconda3/bin/conda"@,
                ]
                &&& h.conda_scan_places() == h.conda_places()
                &&& h.pythonw_places().len() == 0
                &&& h.git_places().len() == 0
            }
            &&& h.platform == Platform::Windows ==> {
                &&& h.python_places() == seq![
                    home + "\\miniconda3\\envs\\sapphire\\python.exe"@,
                    home + "\\Miniconda3\\envs\\sapphire\\python.exe"@,
                    home + "\\anaconda3\\envs\\sapphire\\python.exe"@,
                    home + "\\Anaconda3\\envs\\sapphire\\python.exe"@,
                ]
                &&& h.pythonw_places() == seq![
                    home + "\\miniconda3\\envs\\sapphire\\pythonw.exe"@,
                    home + "\\Miniconda3\\envs\\sapphire\\pythonw.exe"@,
                    home + "\\anaconda3\\envs\\sapphire\\pythonw.exe"@,
                    home + "\\Anaconda3\\envs\\sapphire\\pythonw.exe"@,
                ]
                &&& h.pip_places() == seq![
                    home + "\\miniconda3\\envs\\sapphire\\Scripts\\pip.exe"@,
                    home + "\\Miniconda3\\envs\\sapphire\\Scripts\\pip.exe"@,
                    home + "\\anaconda3\\envs\\sapphire\\Scripts\\pip.exe"@,
                ]
                &&& h.conda_places() == seq![
                    home + "\\miniconda3\\Scripts\\conda.exe"@,
                    home + "\\Miniconda3\\Scripts\\conda.exe"@,
                    home + "\\anaconda3\\Scripts\\conda.exe"@,
                    home + "\\Anaconda3\\Scripts\\conda.exe"@,
                ]
                &&& h.conda_scan_places().len() == 4
                &&& forall|i: int| 0 <= i < 4 ==> h.conda_places().contains(
                    #[trigger] h.conda_scan_places()[i],
                )
                &&& h.git_places() == seq![
                    "C:\\Program Files\\Git\\cmd\\git.exe"@,
                    "C:\\Program Files (x86)\\Git\\cmd\\git.exe"@,
                    "C:\\Program Files\\Git\\bin\\git.exe"@,
                    home + "\\AppData\\Local\\Programs\\Git\\cmd\\git.exe"@,
                    home + "\\scoop\\shims\\git.exe"@,
                    home
                        + "\\AppData\\Local\\GitHubDesktop\\app\\resources\\app\\git\\cmd\\git.exe"@,
                ]
            }
        }),
{
    if h.platform == Platform::Windows {
        let (a, b) = (h.conda_places(), h.conda_scan_places());
        assert(a[0] == b[0] && a[2] == b[1] && a[1] == b[2] && a[3] == b[3]);
        assert forall|i: int| 0 <= i < 4 implies a.contains(#[trigger] b[i]) by {
            let j: int = if i == 1 {
                2
            } else if i == 2 {
                1
            } else {
                i
            };
            assert(a[j] == b[i]);
        }
    }
}

/// Of the places where something may be, the first where it is counts.
pub proof fn law_first_place_is_taken(places: Seq<Seq<char>>, there: Seq<bool>, i: int)
    requires
        0 <= i <= places.len(),
        i <= there.len(),
        forall|j: int| 0 <= j < i ==> !(#[trigger] there[j]),
    ensures
        i < places.len() && i < there.len() && there[i] ==> first_found(places, there) == Some(
            places[i],
        ),
        i == places.len() || i == there.len() ==> first_found(places, there) is None,
    decreases i,
{
    if i > 0 {
        let (p, t) = (places.drop_first(), there.drop_first());
        assert(!there[0]);
        assert forall|j: int| 0 <= j < i - 1 implies !(#[trigger] t[j]) by {
            assert(t[j] == there[j + 1]);
        }
        law_first_place_is_taken(p, t, i - 1);
        if i < places.len() {
            assert(p[i - 1] == places[i]);
        }
        if i < there.len() {
            assert(t[i - 1] == there[i]);
        }
    }
}

// ── Commands ─────────────────────────────────────────────────────────────

/// Sapphire is started by running its `main.py`, with output that is not held
/// back, by the first Python of its environment that is there; where none is,
/// conda is asked to find it.
pub proof fn law_sapphire_is_started_by_its_python(h: HostModel, there: Seq<bool>)
    ensures
        ({
            let c = start_cmd(python_cmd(h, there));
            match first_found(h.python_places(), there) {
                Some(python) => c.program == ProgramModel::Named(python) && c.args == seq![
                    "-u"@,
                    "main.py"@,
                ],
                None => c.program == ProgramModel::Named("conda"@) && c.args == seq![
                    "run"@,
                    "-n"@,
                    "sapphire"@,
                    "python"@,
                    "-u"@,
                    "main.py"@,
                ],
            }
        }),
        env_python(h, there) == if h.platform == Platform::Linux {
            first_found(h.python_places(), there)
        } else {
            None
        },
{
    let c = start_cmd(python_cmd(h, there));
    assert(Seq::<Seq<char>>::empty() + seq!["-u"@, "main.py"@] =~= seq!["-u"@, "main.py"@]);
    assert(seq!["run"@, "-n"@, "sapphire"@, "python"@] + seq!["-u"@, "main.py"@] =~= seq![
        "run"@,
        "-n"@,
        "sapphire"@,
        "python"@,
        "-u"@,
        "main.py"@,
    ]);
}

/// Sapphire is stopped by ending the processes that were started for it, if
/// some were, and then every Python of its environment, wherever it was
/// started from.
pub proof fn law_stopping_reaches_every_python(p: Platform, pid: u32)
    ensures
        ({
            let list = kill_cmds(p, pid);
            let number = decimal(pid as nat);
            &&& list.len() == if pid > 0 {
                2nat
            } else {
                1nat
            }
            &&& pid > 0 ==> list[0] == match p {
                Platform::Linux => CmdModel {
                    program: ProgramModel::Named("kill"@),
                    args: seq!["-TERM"@, "-"@ + number],
                },
                Platform::Windows => CmdModel {
                    program: ProgramModel::Named("taskkill"@),
                    args: seq!["/F"@, "/T"@, "/PID"@, number],
                },
            }
            &&& list.last() == match p {
                Platform::Linux => CmdModel {
                    program: ProgramModel::Named("pkill"@),
                    args: seq!["-TERM"@, "-f"@, "envs/sapphire/bin/python"@],
                },
                Platform::Windows => CmdModel {
                    program: ProgramModel::Named("powershell"@),
                    args: seq![
                        "-NoProfile"@,
                        "-Command"@,
                        "Get-CimInstance Win32_Process -Filter \"Name='python.exe' OR Name='pythonw.exe'\" | Where-Object { $_.ExecutablePath -like '*\\envs\\sapphire\\*' } | ForEach-Object { Stop-Process -Id $_.ProcessId -Force -ErrorAction SilentlyContinue }"@,
                    ],
                },
            }
        }),
{
}

/// Addresses and files are opened by what the system has for them, and
/// nothing but what was asked for is opened.
pub proof fn law_things_are_opened(p: Platform, what: Seq<char>)
    ensures
        url_cmd(p, what) == match p {
            Platform::Linux => CmdModel {
                program: ProgramModel::Named("xdg-open"@),
                args: seq![what],
            },
            Platform::Windows => CmdModel {
                program: ProgramModel::Named("cmd"@),
                args: seq!["/c"@, "start"@, what],
            },
        },
        file_cmd(p, what) == match p {
            Platform::Linux => CmdModel {
                program: ProgramModel::Named("xdg-open"@),
                args: seq![what],
            },
            Platform::Windows => CmdModel {
                program: ProgramModel::Named("notepad"@),
                args: seq![what],
            },
        },
        null_path(p) == match p {
            Platform::Linux => "/dev/null"@,
            Platform::Windows => "NUL"@,
        },
{
}

// ── What Sapphire's end and its journal say ──────────────────────────────

/// What is said of Sapphire's end tells success, its wish to be started
/// again, and every other code apart.
pub proof fn law_end_is_told(success: bool, code: Option<i32>)
    ensures
        success ==> end_text(success, code) == "Sapphire exited."@,
        !success && code == Some(42i32) ==> end_text(success, code)
            == "Sapphire is restarting..."@,
        !success && code is Some && code != Some(42i32) ==> end_text(success, code)
            == "Sapphire exited (code "@ + signed_decimal(code->0 as int) + ")."@,
        !success && code is None ==> end_text(success, code) == "Sapphire exited (code "@
            + signed_decimal(-1) + ")."@,
{
}

/// The journal of the service is followed from its last two hundred lines
/// on, as plain text.
pub proof fn law_journal_is_followed()
    ensures
        journal_cmd() == (CmdModel {
            program: ProgramModel::Named("journalctl"@),
            args: seq![
                "--user"@,
                "-u"@,
                "sapphire"@,
                "-f"@,
                "-n"@,
                "200"@,
                "-o"@,
                "cat"@,
            ],
        }),
{
}

/// The Python that was found is named before Sapphire's first line; conda,
/// which finds it by itself, is not.
pub proof fn law_python_is_named(h: HostModel, there: Seq<bool>)
    ensures
        first_notice(python_cmd(h, there)) == match first_found(h.python_places(), there) {
            Some(python) => Some("Using "@ + python),
            None => None,
        },
{
}

// ── Programs ─────────────────────────────────────────────────────────────

/// The command that is run in the end is the one that was wanted: the program
/// as it was found, with its own words first, then all that were given.
pub proof fn law_words_reach_the_program(found: CmdModel, c: CmdModel)
    ensures
        run_there(found, c).program == found.program,
        run_there(found, c).args == found.args + c.args,
        search_for(c.program) is None <==> c.program is Named,
        search_for(ProgramModel::Git) == Some(SearchModel::Git),
        search_for(ProgramModel::Conda) == Some(SearchModel::Conda(false)),
        search_for(ProgramModel::Pip) == Some(SearchModel::Pip),
{
}

/// What a search for a program wants.
pub enum Wanted {
    Git,
    Conda,
    Pip,
}

/// What a search is for.
pub open spec fn wanted(s: SearchModel) -> Wanted {
    match s {
        SearchModel::Git
        | SearchModel::GitPlaces
        | SearchModel::GitAsked
        | SearchModel::GitNamed(_) => Wanted::Git,
        SearchModel::Conda(pip)
        | SearchModel::CondaPlaces(pip)
        | SearchModel::CondaAsked(pip)
        | SearchModel::CondaNamed(pip, _) => if pip {
            Wanted::Pip
        } else {
            Wanted::Conda
        },
        SearchModel::Pip | SearchModel::PipPlaces => Wanted::Pip,
    }
}

/// The place that a program was said to be at.
pub open spec fn said_to_be(h: HostModel, r: ReplyModel) -> Seq<char> {
    match r {
        ReplyModel::Output(o) => if !o.success {
            ""@
        } else if h.platform == Platform::Linux {
            trimmed(o.stdout)
        } else {
            trimmed(first_line(o.stdout))
        },
        _ => ""@,
    }
}

/// Is `c` a command that runs what was wanted by `program`? pip is run by its
/// own program, or by conda in Sapphire's environment.
pub open spec fn runs(w: Wanted, program: Seq<char>, own: bool, c: CmdModel) -> bool {
    &&& c.program == ProgramModel::Named(program)
    &&& c.args == if w is Pip && !own {
        seq!["run"@, "-n"@, "sapphire"@, "pip"@]
    } else {
        Seq::empty()
    }
}

/// A search stays what it is: whatever is answered, it goes on looking for the
/// same program, and asks only whether files are there or where the system
/// has the program. What it ends with is a program that was found to be
/// there, or the name of the program for the system to find.
pub proof fn law_search_finds_what_is_wanted(h: HostModel, s: SearchModel, r: ReplyModel)
    ensures
        match search_next(h, s, r) {
            FoundModel::Ask(request, next) => {
                &&& wanted(next) == wanted(s)
                &&& match request {
                    RequestModel::Probe(places) => {
                        ||| wanted(s) is Git && (places == h.git_places() || places == seq![
                            said_to_be(h, r),
                        ])
                        ||| !(wanted(s) is Git) && (places == h.conda_places() || places == seq![
                            said_to_be(h, r),
                        ])
                        ||| wanted(s) is Pip && places == h.pip_places()
                    },
                    RequestModel::Run(c) => {
                        let name = if wanted(s) is Git {
                            "git"@
                        } else {
                            "conda"@
                        };
                        c == if h.platform == Platform::Linux {
                            CmdModel { program: ProgramModel::Named("which"@), args: seq![name] }
                        } else {
                            CmdModel {
                                program: ProgramModel::Named("cmd"@),
                                args: seq!["/c"@, "where"@, name],
                            }
                        }
                    },
                    _ => false,
                }
            },
            FoundModel::Run(c) => {
                let name = if wanted(s) is Git {
                    "git"@
                } else {
                    "conda"@
                };
                ||| runs(wanted(s), name, false, c)
                ||| s matches SearchModel::PipPlaces && first_found(
                    h.pip_places(),
                    r.flags(),
                ) is Some && runs(
                    Wanted::Pip,
                    first_found(h.pip_places(), r.flags())->0,
                    true,
                    c,
                )
                ||| s matches SearchModel::GitPlaces && first_found(
                    h.git_places(),
                    r.flags(),
                ) is Some && runs(
                    Wanted::Git,
                    first_found(h.git_places(), r.flags())->0,
                    true,
                    c,
                )
                ||| s is CondaPlaces && first_found(h.conda_places(), r.flags()) is Some && runs(
                    wanted(s),
                    first_found(h.conda_places(), r.flags())->0,
                    false,
                    c,
                )
                ||| s is GitNamed && yes(r, 0) && runs(Wanted::Git, s->GitNamed_0, true, c)
                ||| s is CondaNamed && yes(r, 0) && runs(wanted(s), s->CondaNamed_1, false, c)
            },
        },
{
}

/// A program is looked for on the disk before the system is asked for it:
/// pip in Sapphire's environment, then conda, to run it; conda in its usual
/// places; git in its usual places on Windows. Only where none of them has it
/// is the system asked, and on Windows conda is then left to the system.
pub proof fn law_disk_is_searched_first(h: HostModel, r: ReplyModel, pip: bool)
    ensures
        search_next(h, SearchModel::Pip, r) matches FoundModel::Ask(request, _) && request
            == RequestModel::Probe(h.pip_places()),
        search_next(h, SearchModel::Conda(pip), r) matches FoundModel::Ask(request, _) && request
            == RequestModel::Probe(h.conda_places()),
        first_found(h.pip_places(), r.flags()) is None ==> (search_next(
            h,
            SearchModel::PipPlaces,
            r,
        ) matches FoundModel::Ask(request, next) && request == RequestModel::Probe(
            h.conda_places(),
        ) && wanted(next) is Pip),
        h.platform == Platform::Windows ==> (search_next(h, SearchModel::Git, r) matches
            FoundModel::Ask(request, _) && request == RequestModel::Probe(h.git_places())),
        h.platform == Platform::Linux ==> (search_next(h, SearchModel::Git, r) matches
            FoundModel::Ask(request, _) && request == tool("which"@, seq!["git"@])),
        first_found(h.git_places(), r.flags()) is None && h.platform == Platform::Windows ==> (
        search_next(h, SearchModel::GitPlaces, r) matches FoundModel::Ask(request, _) && request
            == tool("cmd"@, seq!["/c"@, "where"@, "git"@])),
        first_found(h.conda_places(), r.flags()) is None && h.platform == Platform::Linux ==> (
        search_next(h, SearchModel::CondaPlaces(pip), r) matches FoundModel::Ask(request, _)
            && request == tool("which"@, seq!["conda"@])),
{
}

/// A program that is found on the disk is the one that is used, without
/// asking further.
pub proof fn law_found_program_is_used(h: HostModel, r: ReplyModel, pip: bool)
    ensures
        first_found(h.pip_places(), r.flags()) is Some ==> (search_next(
            h,
            SearchModel::PipPlaces,
            r,
        ) matches FoundModel::Run(c) && runs(
            Wanted::Pip,
            first_found(h.pip_places(), r.flags())->0,
            true,
            c,
        )),
        first_found(h.git_places(), r.flags()) is Some ==> (search_next(
            h,
            SearchModel::GitPlaces,
            r,
        ) matches FoundModel::Run(c) && runs(
            Wanted::Git,
            first_found(h.git_places(), r.flags())->0,
            true,
            c,
        )),
        first_found(h.conda_places(), r.flags()) is Some ==> (search_next(
            h,
            SearchModel::CondaPlaces(pip),
            r,
        ) matches FoundModel::Run(c) && runs(
            if pip {
                Wanted::Pip
            } else {
                Wanted::Conda
            },
            first_found(h.conda_places(), r.flags())->0,
            false,
            c,
        )),
{
}

/// A place that the system names is used where it is there; an answer that
/// names none leaves the program to the system.
pub proof fn law_named_place_is_used(h: HostModel, r: ReplyModel, place: Seq<char>, pip: bool)
    ensures
        yes(r, 0) ==> (search_next(h, SearchModel::GitNamed(place), r) matches FoundModel::Run(c)
            && runs(Wanted::Git, place, true, c)),
        yes(r, 0) ==> (search_next(h, SearchModel::CondaNamed(pip, place), r) matches
            FoundModel::Run(c) && runs(
            if pip {
                Wanted::Pip
            } else {
                Wanted::Conda
            },
            place,
            false,
            c,
        )),
        said_to_be(h, r).len() > 0 ==> search_next(h, SearchModel::GitAsked, r) == FoundModel::Ask(
            RequestModel::Probe(seq![said_to_be(h, r)]),
            SearchModel::GitNamed(said_to_be(h, r)),
        ),
        said_to_be(h, r).len() > 0 ==> search_next(h, SearchModel::CondaAsked(pip), r)
            == FoundModel::Ask(
            RequestModel::Probe(seq![said_to_be(h, r)]),
            SearchModel::CondaNamed(pip, said_to_be(h, r)),
        ),
{
}

} // verus!

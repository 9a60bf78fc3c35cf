//! What the launcher does with the service, the logon task and the
//! environment file.
use super::machine::law_first_place_is_taken;
use super::story::{going_on, printed, ran_well, reason, story, tool, was_done, yes, Story};
use crate::ask::{NextModel, ReplyModel, RequestModel};
use crate::host::{first_found, HostModel, Platform};
use crate::job::JobModel;
use crate::message::MessageModel;
use crate::output::OutputModel;
use crate::parts::{CmdModel, ProgramModel, ServiceInfoModel};
use crate::service::{
    action_cmd, python_literal, register_content, service_there, shell_literal, shim_content,
    task_next, unit_content, Action, ServiceJobModel, TaskJobModel, UnitJobModel,
};
use crate::text::{ended, is_line, last_value, law_lines_are_read_back, lines};
use vstd::prelude::*;

verus! {

// ── Actions ──────────────────────────────────────────────────────────────

/// The verb of an action, as systemctl knows it.
pub open spec fn verb(a: Action) -> Seq<char> {
    match a {
        Action::Start => "start"@,
        Action::Stop => "stop"@,
        Action::Restart => "restart"@,
        Action::Enable => "enable"@,
        Action::Disable => "disable"@,
    }
}

/// An action on the service asks systemctl for exactly its verb, on the
/// user's unit of Sapphire, and says that it worked exactly where systemctl
/// exited with success: what is said then is said of no other action. A stop
/// is given a moment to settle.
#[verifier::spinoff_prover]
#[verifier::rlimit(60)]
pub proof fn law_action_drives_the_unit(h: HostModel, a: Action, r: ReplyModel, slept: ReplyModel)
    ensures
        ({
            let s = story(h, JobModel::Service(ServiceJobModel::Act(a)), seq![r, slept]);
            let act = tool("systemctl"@, seq!["--user"@, verb(a), "sapphire"@]);
            &&& s.asked == if a == Action::Stop {
                seq![act, RequestModel::Sleep(300)]
            } else {
                seq![act]
            }
            &&& s.end == Some(
                MessageModel::ServiceActionResult(
                    match a {
                        Action::Start => if ran_well(r) {
                            "Service started."@
                        } else {
                            "Service start failed: "@ + printed(r)
                        },
                        Action::Stop => if ran_well(r) {
                            "Service stopped."@
                        } else {
                            "Service stop failed: "@ + printed(r)
                        },
                        Action::Restart => if ran_well(r) {
                            "Service restarted."@
                        } else {
                            "Service restart failed: "@ + printed(r)
                        },
                        Action::Enable => if ran_well(r) {
                            "Autostart enabled."@
                        } else {
                            "Enable failed: "@ + printed(r)
                        },
                        Action::Disable => if ran_well(r) {
                            "Autostart disabled."@
                        } else {
                            "Disable failed: "@ + printed(r)
                        },
                    },
                    ran_well(r),
                ),
            )
        }),
{
    reveal_with_fuel(going_on, 4);
}

/// The command of an action is systemctl with the verb of that action, and
/// two actions never have the same command.
pub proof fn law_actions_have_their_own_commands(a: Action, b: Action)
    ensures
        action_cmd(a) == (CmdModel {
            program: ProgramModel::Named("systemctl"@),
            args: seq!["--user"@, verb(a), "sapphire"@],
        }),
        a != b ==> action_cmd(a) != action_cmd(b),
{
    reveal_strlit("start");
    reveal_strlit("stop");
    reveal_strlit("restart");
    reveal_strlit("enable");
    reveal_strlit("disable");
    assert(action_cmd(a).args[1] == verb(a));
    assert(action_cmd(b).args[1] == verb(b));
    assert("start"@[0] == 's' && "stop"@[0] == 's' && "restart"@[0] == 'r' && "enable"@[0] == 'e'
        && "disable"@[0] == 'd');
    assert("start"@.len() == 5 && "stop"@.len() == 4);
}

// ── Detection ────────────────────────────────────────────────────────────

/// There is a service exactly where systemd has loaded the unit, on Linux. It
/// is active where systemd says that it is, it starts at sign-in where its
/// unit is enabled, and it runs in the folder that the unit names.
pub proof fn law_loaded_unit_is_the_service(p: Platform, o: OutputModel)
    ensures
        ({
            let says = |key: Seq<char>| last_value(lines(o.stdout), key);
            let info = service_there(p, Some(o));
            &&& info is Some <==> p == Platform::Linux && says("LoadState="@) == "loaded"@
            &&& info is Some ==> {
                let s = info->0;
                &&& s.active <==> says("ActiveState="@) == "active"@
                &&& s.active_state == says("ActiveState="@)
                &&& s.enabled <==> says("UnitFileState="@) == "enabled"@
                &&& s.sub_state == says("SubState="@)
                &&& says("WorkingDirectory="@).len() > 0 ==> s.working_dir == Some(
                    says("WorkingDirectory="@),
                )
                &&& says("WorkingDirectory="@).len() == 0 ==> s.working_dir is None
            }
        }),
        service_there(p, None) is None,
{
}

/// The state of the service is asked of systemd, with all the properties that
/// count, and told as what it is: the first find, or a later look. On Windows
/// there is none, and nothing is asked.
pub proof fn law_service_is_looked_for(h: HostModel, first: bool, r: ReplyModel)
    ensures
        ({
            let s = story(h, JobModel::Service(ServiceJobModel::Detect(first)), seq![r]);
            let info = match r {
                ReplyModel::Output(o) => service_there(h.platform, Some(o)),
                _ => None,
            };
            let end = |info: Option<ServiceInfoModel>|
                Some(
                    if first {
                        MessageModel::ServiceDetected(info)
                    } else {
                        MessageModel::ServiceRefreshed(info)
                    },
                );
            if h.platform == Platform::Windows {
                s.asked.len() == 0 && s.end == end(None)
            } else {
                &&& s.asked == seq![
                    tool(
                        "systemctl"@,
                        seq![
                            "--user"@,
                            "show"@,
                            "sapphire"@,
                            "-p"@,
                            "LoadState"@,
                            "-p"@,
                            "ActiveState"@,
                            "-p"@,
                            "SubState"@,
                            "-p"@,
                            "UnitFileState"@,
                            "-p"@,
                            "WorkingDirectory"@,
                        ],
                    ),
                ]
                &&& s.end == end(info)
            }
        }),
{
    reveal_with_fuel(going_on, 3);
}

/// There is a systemd to install a service with exactly where systemctl
/// answers for the user, on Linux.
pub proof fn law_systemd_is_looked_for(h: HostModel, r: ReplyModel)
    ensures
        ({
            let s = story(h, JobModel::Service(ServiceJobModel::FindSystemd), seq![r]);
            let linux = h.platform == Platform::Linux;
            &&& s.asked == if linux {
                seq![tool("systemctl"@, seq!["--user"@, "show-environment"@])]
            } else {
                Seq::empty()
            }
            &&& s.end == Some(MessageModel::SystemdChecked(linux && ran_well(r)))
        }),
{
    reveal_with_fuel(going_on, 3);
}

// ── The environment file ─────────────────────────────────────────────────

/// The user's folder on Linux.
pub open spec fn home(h: HostModel) -> Seq<char> {
    match h.home {
        Some(dir) => dir,
        None => ""@,
    }
}

/// Where the environment of the service is kept.
pub open spec fn environment(h: HostModel) -> Seq<char> {
    home(h) + "/.config/sapphire"@ + "/service.env"@
}

/// The environment file is read whole, and a file that is not there is read
/// as empty.
pub proof fn law_environment_is_read(h: HostModel, text: Option<Seq<char>>)
    requires
        h.platform == Platform::Linux,
    ensures
        story(h, JobModel::Service(ServiceJobModel::ReadEnv), seq![ReplyModel::Text(text)]) == (
        Story {
            asked: seq![RequestModel::Read(environment(h))],
            end: Some(
                MessageModel::EnvLoaded(
                    match text {
                        Some(text) => text,
                        None => ""@,
                    },
                ),
            ),
        }),
{
    reveal_with_fuel(going_on, 3);
}

/// The text of the environment is written to the file that the service reads,
/// as it is, and the file is closed to other users. It counts as saved only
/// if each of these was done, and the first that was not is the last that was
/// asked for.
#[verifier::spinoff_prover]
#[verifier::rlimit(60)]
pub proof fn law_environment_is_written(
    h: HostModel,
    text: Seq<char>,
    made: ReplyModel,
    written: ReplyModel,
    closed: ReplyModel,
)
    requires
        h.platform == Platform::Linux,
    ensures
        ({
            let s = story(
                h,
                JobModel::Service(ServiceJobModel::WriteEnv(text)),
                seq![made, written, closed],
            );
            let make = RequestModel::CreateDir(home(h) + "/.config/sapphire"@);
            let write = RequestModel::Write(environment(h), text);
            let close = RequestModel::Protect(environment(h));
            &&& s.asked == if !was_done(made) {
                seq![make]
            } else if !was_done(written) {
                seq![make, write]
            } else {
                seq![make, write, close]
            }
            &&& s.end == Some(
                MessageModel::EnvSaved(was_done(made) && was_done(written) && was_done(closed)),
            )
        }),
{
    reveal_with_fuel(going_on, 5);
}

/// On Windows there is no environment file: nothing is read or written.
pub proof fn law_windows_has_no_environment(h: HostModel, text: Seq<char>, r: ReplyModel)
    requires
        h.platform == Platform::Windows,
    ensures
        story(h, JobModel::Service(ServiceJobModel::ReadEnv), seq![r]) == (Story {
            asked: Seq::empty(),
            end: Some(MessageModel::EnvLoaded(""@)),
        }),
        story(h, JobModel::Service(ServiceJobModel::WriteEnv(text)), seq![r]) == (Story {
            asked: Seq::empty(),
            end: Some(MessageModel::EnvSaved(false)),
        }),
{
    reveal_with_fuel(going_on, 2);
}

// ── The systemd unit ─────────────────────────────────────────────────────

/// The unit runs `main.py` of the installation with the given Python, in the
/// folder of the installation and with the environment file, if that is
/// there; it is started at sign-in, and again where it fails. Paths that do
/// not fit on a line are left out.
pub proof fn law_unit_runs_sapphire(wd: Seq<char>, py: Seq<char>, env: Seq<char>)
    requires
        is_line(wd),
        !py.contains('\n'),
        is_line(env),
    ensures
        lines(unit_content(wd, py, env)) == seq![
            "[Unit]"@,
            "Description=Sapphire AI"@,
            "After=network.target"@,
            ""@,
            "[Service]"@,
            "Type=simple"@,
            "WorkingDirectory="@ + wd,
            "ExecStart="@ + py + " main.py"@,
            "Restart=on-failure"@,
            "RestartSec=3"@,
            "Environment=PYTHONUNBUFFERED=1"@,
            "EnvironmentFile=-"@ + env,
            ""@,
            "[Install]"@,
            "WantedBy=default.target"@,
        ],
{
    reveal_strlit("[Unit]");
    reveal_strlit("Description=Sapphire AI");
    reveal_strlit("After=network.target");
    reveal_strlit("");
    reveal_strlit("[Service]");
    reveal_strlit("Type=simple");
    reveal_strlit("WorkingDirectory=");
    reveal_strlit("ExecStart=");
    reveal_strlit(" main.py");
    reveal_strlit("Restart=on-failure");
    reveal_strlit("RestartSec=3");
    reveal_strlit("Environment=PYTHONUNBUFFERED=1");
    reveal_strlit("EnvironmentFile=-");
    reveal_strlit("[Install]");
    reveal_strlit("WantedBy=default.target");
    reveal_strlit(
        "[Unit]\nDescription=Sapphire AI\nAfter=network.target\n\n[Service]\nType=simple\nWorkingDirectory=",
    );
    reveal_strlit("\nExecStart=");
    reveal_strlit(
        " main.py\nRestart=on-failure\nRestartSec=3\nEnvironment=PYTHONUNBUFFERED=1\nEnvironmentFile=-",
    );
    reveal_strlit("\n\n[Install]\nWantedBy=default.target\n");
    let list = seq![
        "[Unit]"@,
        "Description=Sapphire AI"@,
        "After=network.target"@,
        ""@,
        "[Service]"@,
        "Type=simple"@,
        "WorkingDirectory="@ + wd,
        "ExecStart="@ + py + " main.py"@,
        "Restart=on-failure"@,
        "RestartSec=3"@,
        "Environment=PYTHONUNBUFFERED=1"@,
        "EnvironmentFile=-"@ + env,
        ""@,
        "[Install]"@,
        "WantedBy=default.target"@,
    ];
    assert(ended(list.take(0)) =~= Seq::<char>::empty());
    lemma_ended_step(list, 0);
    lemma_ended_step(list, 1);
    lemma_ended_step(list, 2);
    lemma_ended_step(list, 3);
    lemma_ended_step(list, 4);
    lemma_ended_step(list, 5);
    lemma_ended_step(list, 6);
    lemma_ended_step(list, 7);
    lemma_ended_step(list, 8);
    lemma_ended_step(list, 9);
    lemma_ended_step(list, 10);
    lemma_ended_step(list, 11);
    lemma_ended_step(list, 12);
    lemma_ended_step(list, 13);
    lemma_ended_step(list, 14);
    let a =
        "[Unit]\nDescription=Sapphire AI\nAfter=network.target\n\n[Service]\nType=simple\nWorkingDirectory="@;
    let c =
        " main.py\nRestart=on-failure\nRestartSec=3\nEnvironment=PYTHONUNBUFFERED=1\nEnvironmentFile=-"@;
    let d = "\n\n[Install]\nWantedBy=default.target\n"@;
    assert(ended(list.take(6)) + "WorkingDirectory="@ =~= a);
    assert(ended(list.take(7)) =~= a + wd + seq!['\n']);
    assert(ended(list.take(8)) =~= a + wd + "\nExecStart="@ + py + " main.py"@ + seq!['\n']);
    assert(" main.py\n"@ =~= " main.py"@ + seq!['\n']) by {
        reveal_strlit(" main.py\n");
    }
    assert(ended(list.take(11)) + "EnvironmentFile=-"@ =~= a + wd + "\nExecStart="@ + py + c);
    assert(ended(list.take(12)) =~= a + wd + "\nExecStart="@ + py + c + env + seq!['\n']);
    assert(ended(list.take(15)) =~= a + wd + "\nExecStart="@ + py + c + env + d);
    assert(list.take(15) =~= list);
    assert forall|i: int| 0 <= i < list.len() implies is_line(#[trigger] list[i]) by {
        if i == 6 {
            lemma_line_with(wd, "WorkingDirectory="@);
        } else if i == 11 {
            lemma_line_with(env, "EnvironmentFile=-"@);
        } else if i == 7 {
            let l = list[7];
            assert forall|k: int| 0 <= k < l.len() implies l[k] != '\n' by {
                if 10 <= k < 10 + py.len() {
                    assert(l[k] == py[k - 10]);
                    assert(py.contains(py[k - 10]));
                }
            }
            assert(l.last() == 'y');
        } else if list[i].len() > 0 {
            assert(list[i].last() != '\r');
        }
    }
    law_lines_are_read_back(list);
}

/// Words before a line make a line.
proof fn lemma_line_with(line: Seq<char>, words: Seq<char>)
    requires
        is_line(line),
        is_line(words),
        words.len() > 0,
    ensures
        is_line(words + line),
{
    let l = words + line;
    assert forall|k: int| 0 <= k < l.len() implies l[k] != '\n' by {
        if k < words.len() {
            assert(words.contains(words[k]));
        } else {
            assert(line.contains(line[k - words.len()]));
        }
    }
    if line.len() > 0 {
        assert(l.last() == line.last());
    } else {
        assert(l.last() == words.last());
    }
}

/// A text of lines grows line by line.
pub(crate) proof fn lemma_ended_step(list: Seq<Seq<char>>, k: int)
    requires
        0 <= k < list.len(),
    ensures
        ended(list.take(k + 1)) == ended(list.take(k)) + list[k].push('\n'),
{
    assert(list.take(k + 1).drop_last() =~= list.take(k));
}

/// Where the unit of Sapphire is.
pub open spec fn unit(h: HostModel) -> Seq<char> {
    home(h) + "/.config/systemd/user"@ + "/sapphire.service"@
}

/// The message that ends the installation of the service.
pub open spec fn installed(text: Seq<char>, ok: bool) -> Option<MessageModel> {
    Some(MessageModel::ServiceInstallResult(text, ok))
}

/// The message that ends the removal of the service.
pub open spec fn removed(text: Seq<char>, ok: bool) -> Option<MessageModel> {
    Some(MessageModel::ServiceRemoveResult(text, ok))
}

/// The service is installed by writing the unit that runs the installation
/// with the Python that was found, and then enabling and starting it. It
/// counts as installed exactly where that last command worked, and whatever
/// fails before it is the last that is tried.
#[verifier::spinoff_prover]
#[verifier::rlimit(60)]
pub proof fn law_unit_is_installed(
    h: HostModel,
    path: Seq<char>,
    seen: ReplyModel,
    made: ReplyModel,
    written: ReplyModel,
    reloaded: ReplyModel,
    r: ReplyModel,
)
    requires
        h.platform == Platform::Linux,
    ensures
        ({
            let s = story(
                h,
                JobModel::Unit(UnitJobModel::Install(path)),
                seq![seen, made, written, reloaded, r],
            );
            let places = seq![
                home(h) + "/miniconda3/envs/sapphire/bin/python"@,
                home(h) + "/anaconda3/envs/sapphire/bin/python"@,
            ];
            let py = if yes(seen, 0) {
                places[0]
            } else {
                places[1]
            };
            let dir = home(h) + "/.config/systemd/user"@;
            let look = RequestModel::Probe(places);
            let make = RequestModel::CreateDir(dir);
            let write = RequestModel::Write(unit(h), unit_content(path, py, environment(h)));
            let reload = tool("systemctl"@, seq!["--user"@, "daemon-reload"@]);
            let enable = tool("systemctl"@, seq!["--user"@, "enable"@, "--now"@, "sapphire"@]);
            if !yes(seen, 0) && !yes(seen, 1) {
                &&& s.asked == seq![look]
                &&& s.end == installed(
                    "Couldn't find the Sapphire environment's Python — install Sapphire first."@,
                    false,
                )
            } else if !was_done(made) {
                &&& s.asked == seq![look, make]
                &&& s.end == installed("Couldn't create "@ + dir + ": "@ + reason(made), false)
            } else if !was_done(written) {
                &&& s.asked == seq![look, make, write]
                &&& s.end == installed(
                    "Couldn't write "@ + unit(h) + ": "@ + reason(written),
                    false,
                )
            } else {
                &&& s.asked == seq![look, make, write, reload, enable]
                &&& s.end == installed(
                    if ran_well(r) {
                        "Service created and started. Sapphire will start when you sign in."@
                    } else {
                        "Unit written, but enabling it failed: "@ + printed(r)
                    },
                    ran_well(r),
                )
            }
        }),
{
    lemma_two_places(h.python_places(), seen);
    if !yes(seen, 0) && !yes(seen, 1) {
        reveal_with_fuel(going_on, 3);
    } else if !was_done(made) {
        reveal_with_fuel(going_on, 4);
    } else if !was_done(written) {
        reveal_with_fuel(going_on, 5);
    } else {
        reveal_with_fuel(going_on, 7);
    }
}

/// Of two places the first that is there is found.
proof fn lemma_two_places(places: Seq<Seq<char>>, r: ReplyModel)
    requires
        places.len() == 2,
    ensures
        first_found(places, r.flags()) == if yes(r, 0) {
            Some(places[0])
        } else if yes(r, 1) {
            Some(places[1])
        } else {
            None
        },
{
    let there = r.flags();
    if yes(r, 0) {
        law_first_place_is_taken(places, there, 0);
    } else if there.len() == 0 {
        law_first_place_is_taken(places, there, 0);
    } else if yes(r, 1) || there.len() == 1 {
        law_first_place_is_taken(places, there, 1);
    } else {
        law_first_place_is_taken(places, there, 2);
    }
}

/// The service is removed by stopping and disabling it, whatever comes of
/// that, and then deleting its unit, of which a copy is kept. A unit that is
/// not there is not deleted. It counts as removed unless the unit could not
/// be copied or deleted.
#[verifier::spinoff_prover]
#[verifier::rlimit(60)]
pub proof fn law_unit_is_removed(
    h: HostModel,
    disabled: ReplyModel,
    seen: ReplyModel,
    copied: ReplyModel,
    deleted: ReplyModel,
    reloaded: ReplyModel,
)
    requires
        h.platform == Platform::Linux,
    ensures
        ({
            let job = JobModel::Unit(UnitJobModel::Remove);
            let disable = tool("systemctl"@, seq!["--user"@, "disable"@, "--now"@, "sapphire"@]);
            let look = RequestModel::Probe(seq![unit(h)]);
            let copy = RequestModel::CopyFile(unit(h), unit(h) + ".bak"@);
            let delete = RequestModel::RemoveFile(unit(h));
            let reload = tool("systemctl"@, seq!["--user"@, "daemon-reload"@]);
            let gone = removed(
                "Service stopped, disabled, and removed (kept a .bak copy)."@,
                true,
            );
            let s = story(h, job, seq![disabled, seen, copied, deleted, reloaded]);
            if !yes(seen, 0) {
                story(h, job, seq![disabled, seen, reloaded]) == (Story {
                    asked: seq![disable, look, reload],
                    end: gone,
                })
            } else if !was_done(copied) {
                &&& s.asked == seq![disable, look, copy]
                &&& s.end == removed(
                    "Disabled, but couldn't back up "@ + unit(h) + ": "@ + reason(copied),
                    false,
                )
            } else if !was_done(deleted) {
                &&& s.asked == seq![disable, look, copy, delete]
                &&& s.end == removed(
                    "Disabled, but couldn't delete "@ + unit(h) + ": "@ + reason(deleted),
                    false,
                )
            } else {
                &&& s.asked == seq![disable, look, copy, delete, reload]
                &&& s.end == gone
            }
        }),
{
    if !yes(seen, 0) {
        reveal_with_fuel(going_on, 5);
    } else if !was_done(copied) {
        reveal_with_fuel(going_on, 5);
    } else if !was_done(deleted) {
        reveal_with_fuel(going_on, 6);
    } else {
        reveal_with_fuel(going_on, 7);
    }
}

// ── The logon task ───────────────────────────────────────────────────────

/// The windowless Python that was found, of the four places where it may be.
pub open spec fn windowless(h: HostModel, seen: ReplyModel) -> Option<Seq<char>> {
    if yes(seen, 0) {
        Some(h.pythonw_places()[0])
    } else if yes(seen, 1) {
        Some(h.pythonw_places()[1])
    } else if yes(seen, 2) {
        Some(h.pythonw_places()[2])
    } else if yes(seen, 3) {
        Some(h.pythonw_places()[3])
    } else {
        None
    }
}

proof fn lemma_windowless(h: HostModel, seen: ReplyModel)
    requires
        h.platform == Platform::Windows,
    ensures
        first_found(h.pythonw_places(), seen.flags()) == windowless(h, seen),
{
    let (places, there) = (h.pythonw_places(), seen.flags());
    if yes(seen, 0) || there.len() == 0 {
        law_first_place_is_taken(places, there, 0);
    } else if yes(seen, 1) || there.len() == 1 {
        law_first_place_is_taken(places, there, 1);
    } else if yes(seen, 2) || there.len() == 2 {
        law_first_place_is_taken(places, there, 2);
    } else if yes(seen, 3) || there.len() == 3 {
        law_first_place_is_taken(places, there, 3);
    } else {
        law_first_place_is_taken(places, there, 4);
    }
}

/// The logon task is prepared with the Python that was found: the log is
/// emptied, whatever comes of that, then the script that starts the
/// installation is written, then the one that registers the task for the user.
/// What fails on the way ends it, and no prompt is shown.
#[verifier::spinoff_prover]
#[verifier::rlimit(60)]
pub proof fn law_task_is_prepared(
    h: HostModel,
    path: Seq<char>,
    seen: ReplyModel,
    made: ReplyModel,
    cleared: ReplyModel,
    shim: ReplyModel,
    script: ReplyModel,
)
    requires
        h.platform == Platform::Windows,
    ensures
        ({
            let s = story(
                h,
                JobModel::Task(TaskJobModel::Install(path)),
                seq![seen, made, cleared, shim, script],
            );
            let dir = h.config_dir();
            let log = h.path(dir, "autostart.log"@);
            let file = h.path(dir, "autostart.pyw"@);
            let py = windowless(h, seen);
            let look = RequestModel::Probe(h.pythonw_places());
            let make = RequestModel::CreateDir(dir);
            let clear = RequestModel::Write(log, ""@);
            let write = RequestModel::Write(file, shim_content(path, log));
            let register = RequestModel::Write(
                h.path(h.temp_dir, "sapphire-enable.ps1"@),
                register_content(py->0, file, path, h.user_domain + "\\"@ + h.user_name),
            );
            if py is None {
                &&& s.asked == seq![look]
                &&& s.end == installed(
                    "Couldn't find Sapphire's environment (pythonw.exe) — install Sapphire first."@,
                    false,
                )
            } else if !was_done(made) {
                &&& s.asked == seq![look, make]
                &&& s.end == installed(
                    "Couldn't create the autostart folder: "@ + reason(made),
                    false,
                )
            } else if !was_done(shim) {
                &&& s.asked == seq![look, make, clear, write]
                &&& s.end == installed(
                    "Couldn't write the autostart launcher: "@ + reason(shim),
                    false,
                )
            } else if !was_done(script) {
                &&& s.asked == seq![look, make, clear, write, register]
                &&& s.end == installed(
                    "Couldn't write the setup script: "@ + reason(script),
                    false,
                )
            } else {
                &&& s.end is None
                &&& s.asked.len() == 6
                &&& s.asked.take(5) == seq![look, make, clear, write, register]
                &&& s.asked[5] == elevating(h.path(h.temp_dir, "sapphire-enable.ps1"@))
            }
        }),
{
    lemma_windowless(h, seen);
    if windowless(h, seen) is None {
        reveal_with_fuel(going_on, 3);
    } else if !was_done(made) {
        reveal_with_fuel(going_on, 4);
    } else if !was_done(shim) {
        reveal_with_fuel(going_on, 6);
    } else {
        reveal_with_fuel(going_on, 7);
    }
}

/// The request that runs a script file with elevated rights, after a prompt:
/// a declined one counts as a failure.
pub open spec fn elevating(file: Seq<char>) -> RequestModel {
    tool(
        "powershell"@,
        seq![
            "-NoProfile"@,
            "-Command"@,
            "$ErrorActionPreference='Stop'; try { $p = Start-Process powershell -Verb RunAs -WindowStyle Hidden -PassThru -Wait -ArgumentList '-NoProfile','-ExecutionPolicy','Bypass','-File','"@
                + shell_literal(file) + "'; exit $p.ExitCode } catch { exit 1223 }"@,
        ],
    )
}

/// A task that is registered without a failure is installed: after the
/// scripts, the prompt, and then the mark that it is on.
#[verifier::spinoff_prover]
#[verifier::rlimit(100)]
pub proof fn law_task_is_installed(
    h: HostModel,
    path: Seq<char>,
    seen: ReplyModel,
    cleared: ReplyModel,
    r: ReplyModel,
    made: ReplyModel,
    marked: ReplyModel,
)
    requires
        h.platform == Platform::Windows,
        windowless(h, seen) is Some,
        ran_well(r),
    ensures
        ({
            let ok = ReplyModel::Done(None);
            let s = story(
                h,
                JobModel::Task(TaskJobModel::Install(path)),
                seq![seen, ok, cleared, ok, ok, r, made, marked],
            );
            &&& s.asked.len() == 8
            &&& s.asked[5] == elevating(h.path(h.temp_dir, "sapphire-enable.ps1"@))
            &&& s.asked[6] == RequestModel::CreateDir(h.config_dir())
            &&& s.asked[7] == RequestModel::Write(h.path(h.config_dir(), "autostart.on"@), "on"@)
            &&& s.end == installed(
                "Autostart enabled — Sapphire will start when you sign in."@,
                true,
            )
        }),
{
    lemma_windowless(h, seen);
    reveal_with_fuel(going_on, 10);
}

/// Autostart on Windows counts as on exactly where the task was registered,
/// and only then the mark for it is left.
pub proof fn law_task_is_registered(h: HostModel, r: ReplyModel)
    ensures
        match task_next(h, TaskJobModel::Registered, r) {
            NextModel::Ask(request, next) => {
                &&& ran_well(r)
                &&& request == RequestModel::CreateDir(h.config_dir())
                &&& forall|made: ReplyModel| #[trigger]
                    task_next(h, next, made) matches NextModel::Ask(mark, last) && mark
                        == RequestModel::Write(h.path(h.config_dir(), "autostart.on"@), "on"@)
                        && forall|marked: ReplyModel| #[trigger]
                        task_next(h, last, marked) == NextModel::<TaskJobModel>::Finish(
                            MessageModel::ServiceInstallResult(
                                "Autostart enabled — Sapphire will start when you sign in."@,
                                true,
                            ),
                        )
            },
            NextModel::Finish(m) => !ran_well(r) && m == MessageModel::ServiceInstallResult(
                "Couldn't enable autostart — the admin prompt may have been declined. Try again and choose Yes."@,
                false,
            ),
        },
{
}

/// Autostart on Windows is removed by removing the task, with elevated
/// rights. Where that fails nothing else is changed; where it works the mark
/// is taken away, too.
#[verifier::spinoff_prover]
#[verifier::rlimit(60)]
pub proof fn law_task_is_removed(h: HostModel, r: ReplyModel, unmarked: ReplyModel)
    ensures
        ({
            let s = story(h, JobModel::Task(TaskJobModel::Remove), seq![r, unmarked]);
            let remove = tool(
                "powershell"@,
                seq![
                    "-NoProfile"@,
                    "-Command"@,
                    "$ErrorActionPreference='Stop'; try { $p = Start-Process powershell -Verb RunAs -WindowStyle Hidden -PassThru -Wait -ArgumentList '-NoProfile','-Command','Unregister-ScheduledTask -TaskName Sapphire -Confirm:$false'; exit $p.ExitCode } catch { exit 1223 }"@,
                ],
            );
            if ran_well(r) {
                &&& s.asked == seq![
                    remove,
                    RequestModel::RemoveFile(h.path(h.config_dir(), "autostart.on"@)),
                ]
                &&& s.end == removed("Autostart removed."@, true)
            } else {
                &&& s.asked == seq![remove]
                &&& s.end == removed(
                    "Couldn't remove autostart — the admin prompt may have been declined. Nothing was changed."@,
                    false,
                )
            }
        }),
{
    reveal_with_fuel(going_on, 4);
}

/// The script that the task runs goes to the folder of the installation,
/// sends all output to the log, and runs `main.py` there; the script that
/// registers the task names the Python, the first script, the folder and the
/// user.
pub proof fn law_task_runs_sapphire(
    pyw: Seq<char>,
    shim: Seq<char>,
    cwd: Seq<char>,
    log: Seq<char>,
    user: Seq<char>,
)
    ensures
        shim_content(cwd, log) == "import runpy, sys, os\r\nos.chdir(\""@ + python_literal(cwd)
            + "\")\r\n_log = \""@ + python_literal(log)
            + "\"\r\nos.makedirs(os.path.dirname(_log), exist_ok=True)\r\nsys.stdout = sys.stderr = open(_log, \"a\", buffering=1, encoding=\"utf-8\", errors=\"replace\")\r\nrunpy.run_path(\"main.py\", run_name=\"__main__\")\r\n"@,
        register_content(pyw, shim, cwd, user)
            == "$ErrorActionPreference='Stop'\r\n$a = New-ScheduledTaskAction -Execute '"@
            + shell_literal(pyw) + "' -Argument '\""@ + shell_literal(shim)
            + "\"' -WorkingDirectory '"@ + shell_literal(cwd)
            + "'\r\n$t = New-ScheduledTaskTrigger -AtLogOn -User '"@ + shell_literal(user)
            + "'\r\n$p = New-ScheduledTaskPrincipal -UserId '"@ + shell_literal(user)
            + "' -LogonType Interactive\r\n$s = New-ScheduledTaskSettingsSet -AllowStartIfOnBatteries -DontStopIfGoingOnBatteries -ExecutionTimeLimit ([TimeSpan]::Zero) -StartWhenAvailable\r\nRegister-ScheduledTask -TaskName Sapphire -Action $a -Trigger $t -Principal $p -Settings $s -Force | Out-Null\r\n"@,
{
}

} // verus!

//! What updates, branch switches, resets and the uninstaller do.
use super::story::{
    conda, git, going_on, in_repository, pip, printed, ran_well, reason, story, tool, was_done, yes,
    Story,
};
use super::text::{law_number_is_read_back, law_trimming_twice};
use crate::ask::{NextModel, ReplyModel, RequestModel};
use crate::host::HostModel;
use crate::job::JobModel;
use crate::message::MessageModel;
use crate::parts::Branch;
use crate::text::{count_value, decimal, first_line, occurs, trimmed};
use crate::upkeep::{
    law_switching_ends, law_waiting_ends, update_next, wait_next, wait_outcome, AfterStop,
    ResetJobModel, Secret, UninstallJobModel, UpdateJobModel, WaitJobModel,
};
use vstd::prelude::*;

verus! {

// ── Updates ──────────────────────────────────────────────────────────────

/// The commits that an installation is behind are counted against the branch
/// that was chosen, after the newest ones were fetched. The count that git
/// prints is told; without a repository, or where git fails, none is.
#[verifier::spinoff_prover]
#[verifier::rlimit(60)]
pub proof fn law_updates_are_counted(
    h: HostModel,
    path: Seq<char>,
    b: Branch,
    seen: ReplyModel,
    fetched: ReplyModel,
    r: ReplyModel,
    n: u32,
)
    ensures
        ({
            let s = story(
                h,
                JobModel::Update(UpdateJobModel::CheckUpdates(path, b)),
                seq![seen, fetched, r],
            );
            let look = RequestModel::Probe(seq![h.path(path, ".git"@)]);
            if !yes(seen, 0) {
                s.asked == seq![look] && s.end == Some(MessageModel::UpdatesAvailable(None))
            } else {
                &&& s.asked == seq![
                    look,
                    git(seq!["-C"@, path, "fetch"@, "origin"@]),
                    git(
                        seq![
                            "-C"@,
                            path,
                            "rev-list"@,
                            "--count"@,
                            "HEAD..origin/"@ + in_repository(b),
                        ],
                    ),
                ]
                &&& s.end is Some && s.end->0 is UpdatesAvailable
                &&& !ran_well(r) ==> s.end == Some(MessageModel::UpdatesAvailable(None))
                &&& ran_well(r) && printed(r) == decimal(n as nat) ==> s.end == Some(
                    MessageModel::UpdatesAvailable(Some(n)),
                )
                &&& ran_well(r) ==> s.end == Some(
                    MessageModel::UpdatesAvailable(count_value(printed(r))),
                )
            }
        }),
{
    let word = in_repository(b);
    assert(seq!["-C"@, path] + seq!["fetch"@, "origin"@] =~= seq![
        "-C"@,
        path,
        "fetch"@,
        "origin"@,
    ]);
    let range = "HEAD..origin/"@ + word;
    assert(seq!["-C"@, path] + seq!["rev-list"@, "--count"@, range] =~= seq![
        "-C"@,
        path,
        "rev-list"@,
        "--count"@,
        range,
    ]);
    assert(count_value(decimal(n as nat)) == Some(n)) by {
        law_number_is_read_back(n as nat);
    }
    if r is Output {
        let text = r->Output_0.stdout + r->Output_0.stderr;
        assert(trimmed(trimmed(text)) == trimmed(text)) by {
            law_trimming_twice(text);
        }
    }
    let counting = UpdateJobModel::Counted;
    let end = update_next(h, counting, r);
    assert(end is Finish);
    if yes(seen, 0) {
        reveal_with_fuel(going_on, 5);
    } else {
        reveal_with_fuel(going_on, 3);
    }
}

/// Changes are pulled in the folder of the installation. Local changes, which
/// git's status tells of, are put aside first, and where that fails nothing
/// is pulled. The part is said to have worked exactly where the pull exited
/// with success, and what was put aside is not passed over in silence.
#[verifier::spinoff_prover]
#[verifier::rlimit(60)]
pub proof fn law_changes_are_pulled(
    h: HostModel,
    path: Seq<char>,
    status: ReplyModel,
    stash: ReplyModel,
    r: ReplyModel,
)
    ensures
        ({
            let changed = ran_well(status) && printed(status).len() > 0;
            let look = git(seq!["-C"@, path, "status"@, "--porcelain"@]);
            let aside = git(
                seq![
                    "-C"@,
                    path,
                    "stash"@,
                    "push"@,
                    "-m"@,
                    "sapphire-launcher auto-stash before update"@,
                ],
            );
            let pull = git(seq!["-C"@, path, "pull"@]);
            let job = JobModel::Update(UpdateJobModel::Pull(path));
            let done = |text: Seq<char>, ok: bool| Some(MessageModel::UpdateStepDone(text, ok));
            &&& !changed ==> story(h, job, seq![status, r]) == (Story {
                asked: seq![look, pull],
                end: if ran_well(r) {
                    done("pull: "@ + first_line(printed(r)), true)
                } else {
                    done("pull failed: "@ + printed(r), false)
                },
            })
            &&& changed && ran_well(stash) ==> story(h, job, seq![status, stash, r]) == (Story {
                asked: seq![look, aside, pull],
                end: if ran_well(r) {
                    done(
                        "pull: "@ + first_line(printed(r))
                            + " (your local changes were stashed — run 'git stash pop' to restore)"@,
                        true,
                    )
                } else {
                    done("pull failed: "@ + printed(r), false)
                },
            })
            &&& changed && !ran_well(stash) ==> story(h, job, seq![status, stash, r]) == (Story {
                asked: seq![look, aside],
                end: done("Couldn't stash local changes: "@ + printed(stash), false),
            })
        }),
{
    reveal_with_fuel(going_on, 5);
    assert(seq!["-C"@, path] + seq!["status"@, "--porcelain"@] =~= seq![
        "-C"@,
        path,
        "status"@,
        "--porcelain"@,
    ]);
    assert(seq!["-C"@, path] + seq!["pull"@] =~= seq!["-C"@, path, "pull"@]);
    let note = "sapphire-launcher auto-stash before update"@;
    assert(seq!["-C"@, path] + seq!["stash"@, "push"@, "-m"@, note] =~= seq![
        "-C"@,
        path,
        "stash"@,
        "push"@,
        "-m"@,
        note,
    ]);
    if status is Output {
        law_trimming_twice(status->Output_0.stdout + status->Output_0.stderr);
    }
}

/// The dependencies are brought up to date from the requirements file of the
/// installation. That part of an update is said to have worked exactly where
/// pip exited with success; what pip complained of is told.
pub proof fn law_dependencies_are_updated(h: HostModel, path: Seq<char>, r: ReplyModel)
    ensures
        story(h, JobModel::Update(UpdateJobModel::UpdateDeps(path)), seq![r]) == (Story {
            asked: seq![pip(seq!["install"@, "-r"@, h.path(path, "requirements.txt"@)])],
            end: Some(
                MessageModel::UpdateStepDone(
                    if ran_well(r) {
                        "Dependencies updated."@
                    } else {
                        "pip install failed: "@ + printed(r)
                    },
                    ran_well(r),
                ),
            ),
        }),
{
    reveal_with_fuel(going_on, 3);
}

/// Whatever is answered, a part of an update that ends says that it worked
/// exactly where the last command exited with success.
pub proof fn law_update_tells_the_truth(h: HostModel, job: UpdateJobModel, r: ReplyModel)
    ensures
        update_next(h, job, r) matches NextModel::Finish(m) ==> (m is UpdatesAvailable || (m matches
            MessageModel::UpdateStepDone(_, ok) && ok == ran_well(r))),
{
}

// ── Branch switches ──────────────────────────────────────────────────────

/// The branch that a switch is to go to, if a job is one.
pub open spec fn target(job: WaitJobModel) -> Option<Branch> {
    match job {
        WaitJobModel::Checkout(_, b)
        | WaitJobModel::CheckedOut(b)
        | WaitJobModel::Switch(_, b)
        | WaitJobModel::SwitchPolled(_, b, _)
        | WaitJobModel::SwitchPaused(_, b, _) => Some(b),
        _ => None,
    }
}

/// The installation that a switch is about, until it is checked out.
pub open spec fn place(job: WaitJobModel) -> Option<Seq<char>> {
    match job {
        WaitJobModel::Checkout(p, _)
        | WaitJobModel::Switch(p, _)
        | WaitJobModel::SwitchPolled(p, _, _)
        | WaitJobModel::SwitchPaused(p, _, _) => Some(p),
        _ => None,
    }
}

/// The question whether Sapphire is up, with so many seconds to answer it.
pub open spec fn health(seconds: Seq<char>) -> RequestModel {
    tool(
        "curl"@,
        seq!["-sk"@, "--max-time"@, seconds, "https://localhost:8073/api/health"@],
    )
}

/// Is Sapphire up, by the answer to that question?
pub open spec fn is_up(r: ReplyModel) -> bool {
    ran_well(r) && occurs(printed(r), "ok"@)
}

/// Whatever is answered, the only git command that a branch switch ever asks
/// for checks out the branch that was chosen, in the folder of the
/// installation; everything else that it asks for is whether Sapphire is
/// still up, and a little time. The message that ends it names the same
/// branch, and says that the switch worked exactly where git did.
pub proof fn law_switch_goes_to_the_chosen_branch(job: WaitJobModel, r: ReplyModel)
    requires
        target(job) is Some,
    ensures
        ({
            let b = target(job)->0;
            match wait_next(job, r) {
                NextModel::Ask(request, next) => {
                    &&& target(next) == target(job)
                    &&& place(next) is Some ==> place(next) == place(job)
                    &&& place(next) is None ==> place(job) is Some && request == git(
                        seq!["-C"@, place(job)->0, "checkout"@, in_repository(b)],
                    )
                    &&& place(next) is Some ==> request == health("2"@) || request
                        == RequestModel::Sleep(500)
                },
                NextModel::Finish(m) => {
                    &&& place(job) is None
                    &&& m == MessageModel::SwitchBranchResult(
                        if ran_well(r) {
                            "Switched to "@ + in_repository(b) + ": "@ + printed(r)
                        } else {
                            "Branch switch failed: "@ + printed(r)
                        },
                        ran_well(r),
                    )
                },
            }
        }),
{
    if place(job) is Some {
        let p = place(job)->0;
        let w = in_repository(target(job)->0);
        assert(seq!["-C"@, p] + seq!["checkout"@, w] =~= seq!["-C"@, p, "checkout"@, w]);
    }
}

/// A Sapphire that does not run is not waited for: its branch is checked out
/// at once. One that still runs is asked again after half a second, and the
/// branch is checked out as soon as it is down.
#[verifier::spinoff_prover]
#[verifier::rlimit(60)]
pub proof fn law_switch_waits_while_sapphire_runs(
    h: HostModel,
    path: Seq<char>,
    b: Branch,
    first: ReplyModel,
    slept: ReplyModel,
    second: ReplyModel,
    r: ReplyModel,
)
    ensures
        ({
            let job = JobModel::Wait(WaitJobModel::Switch(path, b));
            let checkout = git(seq!["-C"@, path, "checkout"@, in_repository(b)]);
            &&& !is_up(first) ==> story(h, job, seq![first, r]).asked == seq![
                health("2"@),
                checkout,
            ]
            &&& is_up(first) && !is_up(second) ==> story(
                h,
                job,
                seq![first, slept, second, r],
            ).asked == seq![health("2"@), RequestModel::Sleep(500), health("2"@), checkout]
            &&& story(h, JobModel::Wait(WaitJobModel::Checkout(path, b)), seq![r]).asked == seq![
                checkout,
            ]
        }),
{
    let w = in_repository(b);
    assert(seq!["-C"@, path] + seq!["checkout"@, w] =~= seq!["-C"@, path, "checkout"@, w]);
    let job = JobModel::Wait(WaitJobModel::Switch(path, b));
    if !is_up(first) {
        reveal_with_fuel(going_on, 4);
        assert(story(h, job, seq![first, r]).asked =~= seq![
            health("2"@),
            git(seq!["-C"@, path, "checkout"@, w]),
        ]);
    } else if !is_up(second) {
        reveal_with_fuel(going_on, 6);
        assert(story(h, job, seq![first, slept, second, r]).asked =~= seq![
            health("2"@),
            RequestModel::Sleep(500),
            health("2"@),
            git(seq!["-C"@, path, "checkout"@, w]),
        ]);
    }
    assert(story(h, JobModel::Wait(WaitJobModel::Checkout(path, b)), seq![r]).asked =~= seq![
        git(seq!["-C"@, path, "checkout"@, w]),
    ]) by {
        reveal_with_fuel(going_on, 3);
    }
}

/// While it waits for Sapphire's end the launcher asks for nothing but its
/// health and half a second; it goes on as soon as Sapphire is down, and on
/// the way to what it was told to do then.
#[verifier::spinoff_prover]
#[verifier::rlimit(60)]
pub proof fn law_stop_is_noticed(
    h: HostModel,
    after: AfterStop,
    slept: ReplyModel,
    r: ReplyModel,
    again: ReplyModel,
    s: ReplyModel,
)
    ensures
        ({
            let job = JobModel::Wait(WaitJobModel::Await(after));
            let end = Some(
                if after == AfterStop::Update {
                    MessageModel::UpdateAfterStop
                } else {
                    MessageModel::SapphireStopConfirmed
                },
            );
            let asked = seq![RequestModel::Sleep(500), health("2"@)];
            &&& !is_up(r) ==> story(h, job, seq![slept, r]) == (Story { asked, end })
            &&& is_up(r) && !is_up(s) ==> story(h, job, seq![slept, r, again, s]) == (Story {
                asked: asked + asked,
                end,
            })
        }),
{
    reveal_with_fuel(going_on, 6);
}

proof fn lemma_patient(after: AfterStop, left: u8, replies: spec_fn(nat) -> ReplyModel, r: ReplyModel, steps: nat)
    requires
        forall|k: nat| is_up(#[trigger] replies(k)),
        steps <= 2 * left,
    ensures
        wait_outcome(wait_next(WaitJobModel::Paused(after, left), r), replies, steps) is None,
    decreases left,
{
    reveal_with_fuel(wait_outcome, 3);
    assert(is_up(replies(steps)));
    if steps >= 2 {
        lemma_patient(
            after,
            (left - 1) as u8,
            replies,
            replies((steps - 1) as nat),
            (steps - 2) as nat,
        );
    }
}

proof fn lemma_switch_is_patient(
    path: Seq<char>,
    b: Branch,
    left: u8,
    replies: spec_fn(nat) -> ReplyModel,
    r: ReplyModel,
    steps: nat,
)
    requires
        forall|k: nat| is_up(#[trigger] replies(k)),
        is_up(r),
        steps <= 2 * left + 1,
    ensures
        wait_outcome(wait_next(WaitJobModel::SwitchPolled(path, b, left), r), replies, steps)
            is None,
    decreases left,
{
    reveal_with_fuel(wait_outcome, 3);
    assert(is_up(replies(steps)));
    if steps >= 2 {
        assert(is_up(replies((steps - 1) as nat)));
        lemma_switch_is_patient(
            path,
            b,
            (left - 1) as u8,
            replies,
            replies((steps - 1) as nat),
            (steps - 2) as nat,
        );
    }
}

/// A Sapphire that stays up is asked twenty times before the launcher goes on
/// regardless, for a stop as for a branch switch: with one answer less it
/// still waits.
pub proof fn law_waiting_is_patient(
    after: AfterStop,
    path: Seq<char>,
    b: Branch,
    replies: spec_fn(nat) -> ReplyModel,
)
    requires
        forall|k: nat| is_up(#[trigger] replies(k)),
    ensures
        wait_outcome(wait_next(WaitJobModel::Await(after), ReplyModel::Begin), replies, 39)
            is None,
        wait_outcome(wait_next(WaitJobModel::Await(after), ReplyModel::Begin), replies, 40)
            is Some,
        wait_outcome(wait_next(WaitJobModel::Switch(path, b), ReplyModel::Begin), replies, 40)
            is None,
        wait_outcome(wait_next(WaitJobModel::Switch(path, b), ReplyModel::Begin), replies, 41)
            is Some,
{
    lemma_patient(after, 19, replies, replies(39), 38);
    assert(is_up(replies(40)));
    lemma_switch_is_patient(path, b, 19, replies, replies(40), 39);
    law_waiting_ends(after, replies);
    law_switching_ends(path, b, replies);
}

/// Before a launch Sapphire is asked for its health, and it counts as running
/// exactly where it answers that it is well; the answer goes with who asked.
pub proof fn law_launch_is_checked(h: HostModel, user: bool, r: ReplyModel)
    ensures
        story(h, JobModel::Wait(WaitJobModel::PreCheck(user)), seq![r]) == (Story {
            asked: seq![health("3"@)],
            end: Some(MessageModel::LaunchPreCheck(is_up(r), user)),
        }),
{
    reveal_with_fuel(going_on, 3);
}

// ── Resets ───────────────────────────────────────────────────────────────

/// A reset deletes one file in the folder of Sapphire's settings, that of the
/// password or that of the API keys, and nothing where it is not there. It
/// tells what it did, and what went wrong.
#[verifier::spinoff_prover]
#[verifier::rlimit(60)]
pub proof fn law_reset_deletes_one_file(h: HostModel, s: Secret, seen: ReplyModel, r: ReplyModel)
    ensures
        ({
            let file = h.path(
                h.config_dir(),
                if s == Secret::Password {
                    "secret_key"@
                } else {
                    "credentials.json"@
                },
            );
            let t = story(h, JobModel::Reset(ResetJobModel::Begin(s)), seq![seen, r]);
            let look = RequestModel::Probe(seq![file]);
            let told = |text: Seq<char>| Some(MessageModel::ResetResult(text));
            if !yes(seen, 0) {
                &&& t.asked == seq![look]
                &&& t.end == told(
                    if s == Secret::Password {
                        "No password file found — nothing to reset."@
                    } else {
                        "No credentials file found — nothing to reset."@
                    },
                )
            } else {
                &&& t.asked == seq![look, RequestModel::RemoveFile(file)]
                &&& t.end == told(
                    if !was_done(r) {
                        "Couldn't delete "@ + file + ": "@ + reason(r)
                    } else if s == Secret::Password {
                        "Password reset. Sapphire will ask for a new password on next launch."@
                    } else {
                        "API keys cleared. You'll need to re-enter them in Sapphire."@
                    },
                )
            }
        }),
{
    reveal_with_fuel(going_on, 4);
}

// ── The uninstaller ──────────────────────────────────────────────────────

/// The environment is removed by conda, under its name. That counts as done
/// where conda exits with success, or says that there is none.
pub proof fn law_environment_is_removed(h: HostModel, r: ReplyModel)
    ensures
        ({
            let s = story(h, JobModel::Uninstall(UninstallJobModel::RemoveEnv), seq![r]);
            let gone = occurs(printed(r), "does not exist"@) || occurs(printed(r), "not found"@);
            &&& s.asked == seq![conda(seq!["remove"@, "-n"@, "sapphire"@, "--all"@, "-y"@])]
            &&& s.end == Some(
                MessageModel::UninstallResult(
                    if ran_well(r) {
                        "Removed conda environment 'sapphire'.\n"@ + printed(r)
                    } else if gone {
                        "Conda environment 'sapphire' doesn't exist — nothing to remove."@
                    } else {
                        "Failed to remove conda environment: "@ + printed(r)
                    },
                    ran_well(r) || gone,
                ),
            )
        }),
{
    reveal_with_fuel(going_on, 3);
}

/// The folder that was chosen is deleted, or only the user's data in it, and
/// nothing where there is nothing. It counts as done where it was not there,
/// or is gone.
#[verifier::spinoff_prover]
#[verifier::rlimit(60)]
pub proof fn law_folder_is_deleted(h: HostModel, path: Seq<char>, seen: ReplyModel, r: ReplyModel)
    ensures
        ({
            let s = story(
                h,
                JobModel::Uninstall(UninstallJobModel::DeleteFolder(path)),
                seq![seen, r],
            );
            let t = story(
                h,
                JobModel::Uninstall(UninstallJobModel::DeleteUserdata(path)),
                seq![seen, r],
            );
            let data = h.path(path, "user"@);
            let ok = !yes(seen, 0) || was_done(r);
            let asked = |place: Seq<char>|
                if yes(seen, 0) {
                    seq![RequestModel::Probe(seq![place]), RequestModel::RemoveDir(place)]
                } else {
                    seq![RequestModel::Probe(seq![place])]
                };
            &&& s.asked == asked(path)
            &&& t.asked == asked(data)
            &&& s.end == Some(
                MessageModel::UninstallResult(
                    if !yes(seen, 0) {
                        "Folder "@ + path + " doesn't exist — nothing to delete."@
                    } else if ok {
                        "Deleted "@ + path
                    } else {
                        "Couldn't delete "@ + path + ": "@ + reason(r)
                    },
                    ok,
                ),
            )
            &&& t.end == Some(
                MessageModel::UninstallResult(
                    if !yes(seen, 0) {
                        "No user folder found at "@ + path + "\\user — nothing to delete."@
                    } else if ok {
                        "Deleted "@ + path + "\\user — your settings and data are gone."@
                    } else {
                        "Couldn't delete "@ + path + "\\user: "@ + reason(r)
                    },
                    ok,
                ),
            )
        }),
{
    reveal_with_fuel(going_on, 4);
}

} // verus!

//! What the scan and the troubleshooter find out, and what the repairs do.
use super::story::{conda, git, going_on, pip, printed, ran_well, story, tool, yes, Story};
use super::text::{
    law_text_is_cut_at_the_first, law_text_without_blanks_is_kept, law_trimming_twice,
};
use super::upkeep::{health, is_up};
use crate::ask::{NextModel, ReplyModel, RequestModel};
use crate::host::{first_found, HostModel, Platform};
use crate::job::JobModel;
use crate::message::MessageModel;
use crate::parts::{Step, StepStatusModel, TsCheck, TsStatusModel};
use crate::scan::{
    ends_name, env_listed, first_package, law_package_name_is_read, names_package, package_of,
    step_name, ScanJobModel,
};
use crate::text::{
    at_most, before, begins, joined, lemma_before, lines, occurs, trimmed, white, without_cr,
};
use crate::troubleshoot::{
    asked_for, asked_packages, asks_for_package, feature_after, feature_line, feature_path,
    features_status, show_package, ts_next, Feature, TsJobModel,
};
use vstd::prelude::*;

verus! {

// ── Health ───────────────────────────────────────────────────────────────

/// The message that ends a check.
pub open spec fn found_to_be(check: TsCheck, status: TsStatusModel) -> Option<MessageModel> {
    Some(MessageModel::TroubleshootResult(check, status))
}

/// Sapphire is fine exactly where it answers that it is well; another answer
/// is told apart from none.
pub proof fn law_health_is_judged(h: HostModel, r: ReplyModel)
    ensures
        story(h, JobModel::Troubleshoot(TsJobModel::Running), seq![r]) == (Story {
            asked: seq![health("5"@)],
            end: found_to_be(
                TsCheck::SapphireRunning,
                if is_up(r) {
                    TsStatusModel::Fine("Sapphire is responding"@)
                } else if ran_well(r) {
                    TsStatusModel::Problem("Sapphire responded but health check failed"@)
                } else {
                    TsStatusModel::Problem("Can't reach Sapphire — is it running?"@)
                },
            ),
        }),
{
    reveal_with_fuel(going_on, 3);
}

/// The last three characters of what a command printed.
pub open spec fn last_three(r: ReplyModel) -> Seq<char> {
    let t = printed(r);
    if t.len() > 3 {
        t.skip(t.len() - 3)
    } else {
        t
    }
}

/// The web UI is asked for its page, and is fine exactly where the code that
/// comes back is 200; every other code is a problem that names it.
pub proof fn law_web_ui_is_judged_by_its_code(h: HostModel, r: ReplyModel)
    ensures
        ({
            let s = story(h, JobModel::Troubleshoot(TsJobModel::WebUi), seq![r]);
            let code = last_three(r);
            &&& s.asked == seq![
                tool(
                    "curl"@,
                    seq![
                        "-sk"@,
                        "--max-time"@,
                        "5"@,
                        "-o"@,
                        if h.platform == Platform::Windows {
                            "NUL"@
                        } else {
                            "/dev/null"@
                        },
                        "-w"@,
                        "%{http_code}"@,
                        "-L"@,
                        "https://localhost:8073/"@,
                    ],
                ),
            ]
            &&& s.end == found_to_be(
                TsCheck::WebUi,
                if !ran_well(r) {
                    TsStatusModel::Problem("Can't reach web UI — is Sapphire running?"@)
                } else if code == "200"@ {
                    TsStatusModel::Fine("Web UI is loading fine"@)
                } else if code == "500"@ {
                    TsStatusModel::Problem(
                        "Web UI returns error 500 — likely a package version issue"@,
                    )
                } else {
                    TsStatusModel::Problem("Web UI returned HTTP "@ + code)
                },
            )
        }),
{
    reveal_with_fuel(going_on, 3);
    if r is Output {
        law_trimming_twice(r->Output_0.stdout + r->Output_0.stderr);
    }
}

// ── Packages ─────────────────────────────────────────────────────────────

/// Every line of a text stands in it.
proof fn lemma_line_occurs(s: Seq<char>, i: int)
    requires
        0 <= i < lines(s).len(),
    ensures
        occurs(s, lines(s)[i]),
    decreases s.len(),
{
    let n = before(s, '\n') as int;
    lemma_before(s, '\n');
    if n >= s.len() {
        assert(s.subrange(0, 0int + s.len()) =~= s);
    } else if i == 0 {
        let line = without_cr(s.take(n));
        assert(s.subrange(0, 0int + line.len()) =~= line);
    } else {
        let rest = s.skip(n + 1);
        lemma_line_occurs(rest, i - 1);
        let line = lines(rest)[i - 1];
        assert(lines(s)[i] == line);
        let k = choose|k: int|
            0 <= k <= rest.len() - line.len() && #[trigger] rest.subrange(k, k + line.len()) == line;
        assert(s.subrange(n + 1 + k, n + 1 + k + line.len()) =~= rest.subrange(
            k,
            k + line.len(),
        ));
    }
}

/// What stands in a part of a text stands in the text.
proof fn lemma_occurs_behind(a: Seq<char>, s: Seq<char>, p: Seq<char>)
    requires
        occurs(s, p),
    ensures
        occurs(a + s, p),
{
    let k = choose|k: int| 0 <= k <= s.len() - p.len() && #[trigger] s.subrange(k, k + p.len()) == p;
    let n = a.len() + k;
    assert((a + s).subrange(n, n + p.len()) =~= s.subrange(k, k + p.len()));
}

/// The packages are asked of `pip check`, and they are fine only if pip
/// exited with success and printed that no requirement is broken. Every other
/// answer is a problem, and the first five lines of what pip printed are told
/// with it, whatever it complained of.
pub proof fn law_packages_are_fine_only_if_pip_says_so(h: HostModel, r: ReplyModel)
    ensures
        ({
            let s = story(h, JobModel::Troubleshoot(TsJobModel::Deps), seq![r]);
            let good = ran_well(r) && occurs(printed(r), "No broken requirements"@);
            &&& s.asked == seq![pip(seq!["check"@])]
            &&& good ==> s.end == found_to_be(
                TsCheck::DepsHealth,
                TsStatusModel::Fine("All dependencies look good"@),
            )
            &&& !good ==> exists|text: Seq<char>|
                s.end == #[trigger] found_to_be(TsCheck::DepsHealth, TsStatusModel::Problem(text))
                    && forall|i: int|
                    0 <= i < 5 && i < lines(printed(r)).len() ==> occurs(
                        text,
                        #[trigger] lines(printed(r))[i],
                    )
        }),
{
    reveal_with_fuel(going_on, 3);
    let why = printed(r);
    let good = ran_well(r) && occurs(why, "No broken requirements"@);
    if !good {
        let some = at_most(lines(why), 5);
        let told = joined(some, "\n"@);
        let text = if ran_well(r) || occurs(why, "has requirement"@) || occurs(
            why,
            "not installed"@,
        ) {
            "Broken packages:\n"@ + told
        } else {
            "Couldn't check: "@ + why
        };
        assert forall|i: int| 0 <= i < 5 && i < lines(why).len() implies occurs(
            text,
            #[trigger] lines(why)[i],
        ) by {
            assert(some[i] == lines(why)[i]);
            super::text::law_joined_has_every_part(some, "\n"@, i);
            lemma_occurs_behind("Broken packages:\n"@, told, some[i]);
            lemma_line_occurs(why, i);
            lemma_occurs_behind("Couldn't check: "@, why, lines(why)[i]);
        }
        assert(story(h, JobModel::Troubleshoot(TsJobModel::Deps), seq![r]).end == found_to_be(
            TsCheck::DepsHealth,
            TsStatusModel::Problem(text),
        ));
    }
}

/// Whatever job comes to a verdict on the packages, and whatever was answered,
/// the verdict is that they are fine only where pip exited with success and
/// printed that no requirement is broken, and a problem everywhere else.
pub proof fn law_verdict_on_packages_is_true(
    h: HostModel,
    job: TsJobModel,
    r: ReplyModel,
    status: TsStatusModel,
)
    requires
        ts_next(h, job, r) == NextModel::<TsJobModel>::Finish(
            MessageModel::TroubleshootResult(TsCheck::DepsHealth, status),
        ),
    ensures
        status is Fine <==> ran_well(r) && occurs(printed(r), "No broken requirements"@),
        status is Fine || status is Problem,
{
}

/// What pip says is broken is called broken; a check that could not be made
/// is told apart from it.
pub proof fn law_broken_packages_are_called_so(h: HostModel, r: ReplyModel)
    ensures
        ({
            let s = story(h, JobModel::Troubleshoot(TsJobModel::Deps), seq![r]);
            let why = printed(r);
            let list = lines(why);
            let five = if list.len() > 5 {
                list.take(5)
            } else {
                list
            };
            let broken = if ran_well(r) {
                !occurs(why, "No broken requirements"@)
            } else {
                occurs(why, "has requirement"@) || occurs(why, "not installed"@)
            };
            &&& broken ==> s.end == found_to_be(
                TsCheck::DepsHealth,
                TsStatusModel::Problem("Broken packages:\n"@ + joined(five, "\n"@)),
            )
            &&& !ran_well(r) && !broken ==> s.end == found_to_be(
                TsCheck::DepsHealth,
                TsStatusModel::Problem("Couldn't check: "@ + why),
            )
        }),
{
    reveal_with_fuel(going_on, 3);
}

/// The dependencies are repaired by installing them again from the
/// requirements file of the installation; the repair counts as done exactly
/// where pip exits with success.
pub proof fn law_dependencies_are_repaired(h: HostModel, path: Seq<char>, r: ReplyModel)
    ensures
        story(h, JobModel::Troubleshoot(TsJobModel::FixDeps(path)), seq![r]) == (Story {
            asked: seq![pip(seq!["install"@, "-r"@, h.path(path, "requirements.txt"@)])],
            end: Some(
                MessageModel::TroubleshootFixResult(
                    TsCheck::DepsHealth,
                    if ran_well(r) {
                        "Repaired! Restart Sapphire to apply."@
                    } else {
                        "Repair failed: "@ + printed(r)
                    },
                    ran_well(r),
                ),
            ),
        }),
{
    reveal_with_fuel(going_on, 3);
}

// ── Voice features ───────────────────────────────────────────────────────

/// The requirements file of a feature, in the installation at a path.
pub open spec fn requirements(h: HostModel, path: Seq<char>, k: Feature) -> Seq<char> {
    h.path(
        h.path(path, "install"@),
        match k {
            Feature::SpeechToText => "requirements-stt.txt"@,
            Feature::TextToSpeech => "requirements-tts.txt"@,
            Feature::WakeWord => "requirements-wakeword.txt"@,
        },
    )
}

/// The name of a feature.
pub open spec fn called(k: Feature) -> Seq<char> {
    match k {
        Feature::SpeechToText => "Speech-to-Text"@,
        Feature::TextToSpeech => "Text-to-Speech"@,
        Feature::WakeWord => "Wake Word"@,
    }
}

/// Each feature has its own requirements file and its own name, and each
/// comes in its turn; a package is looked for by asking pip to show it.
pub proof fn law_features_are_told_apart(h: HostModel, path: Seq<char>, k: Feature, p: Seq<char>)
    ensures
        feature_path(h, path, k) == requirements(h, path, k),
        RequestModel::Run(show_package(p)) == pip(seq!["show"@, p]),
        feature_line(k, Seq::empty()) == called(k) + ": installed"@,
        feature_line(k, seq![p]) == called(k) + ": missing "@ + p,
        feature_after(Feature::SpeechToText) == Some(Feature::TextToSpeech),
        feature_after(Feature::TextToSpeech) == Some(Feature::WakeWord),
        feature_after(Feature::WakeWord) is None,
{
    super::text::law_joined_parts_are_separated(p, p, p, ", "@);
}

/// A feature counts as installed only where no package of it is missing, and
/// each that is missing is named.
pub proof fn law_missing_packages_are_named(k: Feature, missing: Seq<Seq<char>>, i: int)
    requires
        0 <= i < missing.len(),
    ensures
        occurs(feature_line(k, missing), missing[i]),
        feature_line(k, missing) == called(k) + ": missing "@ + joined(missing, ", "@),
{
    super::text::law_joined_has_every_part(missing, ", "@, i);
    lemma_occurs_behind(called(k) + ": missing "@, joined(missing, ", "@), missing[i]);
}

/// The features are a problem exactly where one lacks a package, and all that
/// was found out is told either way.
pub proof fn law_features_are_judged(results: Seq<Seq<char>>, any_missing: bool)
    ensures
        features_status(results, any_missing) is Problem <==> any_missing,
        !any_missing ==> features_status(results, any_missing) is Fine,
        any_missing ==> features_status(results, any_missing)->Problem_0 == joined(results, " | "@),
        !any_missing && results.len() > 0 ==> features_status(results, any_missing)->Fine_0
            == joined(results, " | "@),
        !any_missing && results.len() == 0 ==> features_status(results, any_missing)->Fine_0
            == "No optional features found"@,
{
}

/// An installation without voice features has none to complain of.
pub proof fn law_no_features_are_no_problem(h: HostModel, path: Seq<char>, seen: ReplyModel)
    requires
        !yes(seen, 0),
    ensures
        story(h, JobModel::Troubleshoot(TsJobModel::Plugins(path)), seq![seen]) == (Story {
            asked: seq![RequestModel::Probe(seq![h.path(path, "install"@)])],
            end: found_to_be(
                TsCheck::Plugins,
                TsStatusModel::Fine("No optional features found"@),
            ),
        }),
{
    reveal_with_fuel(going_on, 3);
}

/// The signs that a requirement goes on with behind the name of its package,
/// and blanks, are no part of the name; letters, digits, dashes, underscores
/// and dots are.
pub proof fn law_name_of_a_package_ends(c: char)
    ensures
        white(c) || c == '>' || c == '<' || c == '=' || c == '!' || c == '~' || c == '[' || c == ';'
            || c == '@' || c == ',' ==> ends_name(false, c),
        crate::text::letter(c) || '0' as u32 <= c as u32 <= '9' as u32 || c == '-' || c == '_' || c
            == '.' ==> !ends_name(false, c) && !ends_name(true, c),
        c == ' ' || c == '/' || c == ':' || c == '@' || c == '+' ==> !ends_name(true, c),
        c == '>' || c == '<' || c == '=' || c == '!' || c == '[' ==> ends_name(true, c),
{
}

/// Is `name` the name of a package, which `rest` may follow on its line?
pub open spec fn requirement(name: Seq<char>, rest: Seq<char>) -> bool {
    &&& name.len() > 0 && name[0] != '#' && name[0] != '-'
    &&& forall|i: int| 0 <= i < name.len() ==> !ends_name(false, #[trigger] name[i])
    &&& rest.len() > 0 ==> ends_name(false, rest[0]) && !white(rest.last())
}

proof fn lemma_requirement(name: Seq<char>, rest: Seq<char>)
    requires
        requirement(name, rest),
    ensures
        trimmed(name + rest) == name + rest,
        package_of(name + rest) == name,
        asked_for(name + rest) == name,
        names_package(name + rest),
        asks_for_package(name + rest),
{
    let line = name + rest;
    law_package_name_is_read(name, rest);
    assert(line[0] == name[0]);
    assert(!ends_name(false, name[0]));
    assert(!ends_name(false, name[name.len() - 1]));
    if rest.len() > 0 {
        assert(line.last() == rest.last());
    } else {
        assert(line.last() == name.last());
    }
    law_text_without_blanks_is_kept(line);
}

/// Every line that asks for a package adds it, by its name alone, to those
/// that are looked for, behind those of the lines before it; an empty line
/// and a remark add none.
pub proof fn law_every_requirement_is_looked_for(
    list: Seq<Seq<char>>,
    name: Seq<char>,
    rest: Seq<char>,
    other: Seq<char>,
)
    requires
        requirement(name, rest),
        trimmed(other).len() > 0 ==> trimmed(other)[0] == '#',
    ensures
        asked_packages(list.push(name + rest)) == asked_packages(list).push(name),
        asked_packages(list.push(other)) == asked_packages(list),
        asked_packages(Seq::empty()).len() == 0,
{
    lemma_requirement(name, rest);
    assert(list.push(name + rest).drop_last() =~= list);
    assert(list.push(other).drop_last() =~= list);
}

/// The package whose presence stands for that of all is the first that the
/// requirements file asks for: remarks, options and empty lines before it are
/// passed over, and what follows it does not count.
pub proof fn law_first_requirement_is_probed(
    before: Seq<Seq<char>>,
    name: Seq<char>,
    rest: Seq<char>,
    more: Seq<Seq<char>>,
)
    requires
        requirement(name, rest),
        forall|i: int| 0 <= i < before.len() && trimmed(#[trigger] before[i]).len() > 0
            ==> trimmed(before[i])[0] == '#' || trimmed(before[i])[0] == '-',
    ensures
        first_package(before.push(name + rest) + more) == Some(name),
        first_package(before) is None,
    decreases before.len(),
{
    let whole = before.push(name + rest) + more;
    lemma_requirement(name, rest);
    if before.len() == 0 {
        assert(whole[0] == name + rest);
    } else {
        let tail = before.drop_first();
        assert forall|i: int| 0 <= i < tail.len() && trimmed(#[trigger] tail[i]).len() > 0 implies
            trimmed(tail[i])[0] == '#' || trimmed(tail[i])[0] == '-' by {
            assert(tail[i] == before[i + 1]);
        }
        law_first_requirement_is_probed(tail, name, rest, more);
        assert(whole[0] == before[0]);
        assert(trimmed(before[0]).len() > 0 ==> trimmed(before[0])[0] == '#' || trimmed(
            before[0],
        )[0] == '-');
        assert(whole.drop_first() =~= tail.push(name + rest) + more);
    }
}

/// The message that ends the repair of the voice features.
pub open spec fn features_fixed(text: Seq<char>, ok: bool) -> MessageModel {
    MessageModel::TroubleshootFixResult(TsCheck::Plugins, text, ok)
}

/// The features are installed one after the other, each from its own file: a
/// feature whose file is not there is passed over, and the first that pip
/// fails on ends the repair, which then names it. Only the last of them says
/// that all are installed.
pub proof fn law_features_are_repaired(h: HostModel, path: Seq<char>, k: Feature, r: ReplyModel)
    ensures
        ({
            let next = |k: Feature|
                NextModel::Ask(
                    RequestModel::Probe(seq![requirements(h, path, k)]),
                    TsJobModel::FixSeen(path, k),
                );
            let on = match k {
                Feature::SpeechToText => next(Feature::TextToSpeech),
                Feature::TextToSpeech => next(Feature::WakeWord),
                Feature::WakeWord => NextModel::Finish(
                    features_fixed(
                        "All optional features installed. Restart Sapphire to apply."@,
                        true,
                    ),
                ),
            };
            let file = match k {
                Feature::SpeechToText => "requirements-stt.txt"@,
                Feature::TextToSpeech => "requirements-tts.txt"@,
                Feature::WakeWord => "requirements-wakeword.txt"@,
            };
            &&& ts_next(h, TsJobModel::FixPlugins(path), ReplyModel::Begin) == next(
                Feature::SpeechToText,
            )
            &&& ts_next(h, TsJobModel::FixSeen(path, k), r) == if yes(r, 0) {
                NextModel::Ask(
                    pip(seq!["install"@, "-r"@, requirements(h, path, k)]),
                    TsJobModel::FixRan(path, k),
                )
            } else {
                on
            }
            &&& ts_next(h, TsJobModel::FixRan(path, k), r) == if ran_well(r) {
                on
            } else {
                NextModel::Finish(
                    features_fixed("Failed on "@ + file + ": "@ + printed(r), false),
                )
            }
        }),
{
}

// ── The graphics card ────────────────────────────────────────────────────

/// The graphics card is asked of NVIDIA's own tool. That there is none is no
/// problem; one that is there is told by its name, with its memory where that
/// is told, too.
#[verifier::spinoff_prover]
#[verifier::rlimit(60)]
pub proof fn law_graphics_card_is_told(
    h: HostModel,
    r: ReplyModel,
    name: Seq<char>,
    memory: Seq<char>,
    size: Seq<char>,
)
    requires
        !name.contains(','),
    ensures
        ({
            let job = JobModel::Troubleshoot(TsJobModel::Gpu);
            let ask = tool(
                "nvidia-smi"@,
                seq!["--query-gpu=name,memory.total"@, "--format=csv,noheader,nounits"@],
            );
            let fine = |text: Seq<char>| found_to_be(TsCheck::Gpu, TsStatusModel::Fine(text));
            let told = |text: Seq<char>| (r matches ReplyModel::Output(o) && o.success && trimmed(
                o.stdout,
            ) == text);
            &&& !ran_well(r) ==> story(h, job, seq![r]) == (Story {
                asked: seq![ask],
                end: fine(
                    "No NVIDIA GPU found — voice features will use CPU (still works, just slower)"@,
                ),
            })
            &&& told(name) ==> story(h, job, seq![r]) == (Story {
                asked: seq![ask],
                end: fine("NVIDIA GPU found: "@ + name),
            })
            &&& told(name + seq![','] + memory) ==> story(
                h,
                job,
                seq![r, ReplyModel::Text(Some(size))],
            ) == (Story {
                asked: seq![ask, RequestModel::Gigabytes(trimmed(memory))],
                end: fine(
                    trimmed(name) + " ("@ + size + " GB) — voice features will use GPU"@,
                ),
            })
        }),
{
    law_text_is_cut_at_the_first(name, ',', memory);
    if r is Output {
        law_trimming_twice(r->Output_0.stdout);
    }
    reveal_with_fuel(going_on, 4);
}

// ── The scan ─────────────────────────────────────────────────────────────

/// The message that ends the check of a step.
pub open spec fn scanned(step: Step, status: StepStatusModel) -> Option<MessageModel> {
    Some(MessageModel::StepResult(step, status))
}

/// What a command printed to its standard output, without the blanks round
/// it.
pub open spec fn answer(r: ReplyModel) -> Seq<char> {
    match r {
        ReplyModel::Output(o) => trimmed(o.stdout),
        _ => Seq::empty(),
    }
}

/// On Windows git is there exactly where it tells its version.
pub proof fn law_git_is_looked_for(h: HostModel, r: ReplyModel)
    requires
        h.platform == Platform::Windows,
    ensures
        story(h, JobModel::Scan(ScanJobModel::Git), seq![r]) == (Story {
            asked: seq![git(seq!["--version"@])],
            end: scanned(
                Step::Git,
                if ran_well(r) {
                    StepStatusModel::Found(answer(r))
                } else {
                    StepStatusModel::NotFound("Git not found — we'll install it"@)
                },
            ),
        }),
{
    reveal_with_fuel(going_on, 3);
}

/// On Linux all of git, the audio library and curl have to be there; what is
/// not is named, and nothing else is.
#[verifier::spinoff_prover]
#[verifier::rlimit(60)]
pub proof fn law_system_packages_are_looked_for(
    h: HostModel,
    g: ReplyModel,
    a: ReplyModel,
    c: ReplyModel,
)
    requires
        h.platform == Platform::Linux,
    ensures
        ({
            let s = story(h, JobModel::Scan(ScanJobModel::Git), seq![g, a, c]);
            let names = (if ran_well(g) {
                Seq::empty()
            } else {
                seq!["git"@]
            }) + (if ran_well(a) {
                Seq::empty()
            } else {
                seq!["audio libs (libportaudio)"@]
            }) + (if ran_well(c) {
                Seq::empty()
            } else {
                seq!["curl"@]
            });
            &&& s.asked == seq![
                git(seq!["--version"@]),
                tool("sh"@, seq!["-c"@, "ldconfig -p 2>/dev/null | grep -qi portaudio"@]),
                tool("sh"@, seq!["-c"@, "command -v curl >/dev/null 2>&1"@]),
            ]
            &&& s.end == scanned(
                Step::Git,
                if ran_well(g) && ran_well(a) && ran_well(c) {
                    StepStatusModel::Found("git, audio libraries, and curl present"@)
                } else {
                    StepStatusModel::NotFound(
                        "Missing "@ + joined(names, ", "@)
                            + " — Go opens your system's own password prompt to install"@,
                    )
                },
            )
        }),
{
    reveal_with_fuel(going_on, 5);
}

/// Conda is there where it tells its version, or where its program is in one
/// of its usual places.
#[verifier::spinoff_prover]
#[verifier::rlimit(60)]
pub proof fn law_conda_is_looked_for(h: HostModel, r: ReplyModel, seen: ReplyModel)
    ensures
        ({
            let s = story(h, JobModel::Scan(ScanJobModel::Conda), seq![r, seen]);
            let ask = conda(seq!["--version"@]);
            if ran_well(r) {
                &&& s.asked == seq![ask]
                &&& s.end == scanned(Step::Conda, StepStatusModel::Found(answer(r)))
            } else {
                &&& s.asked == seq![ask, RequestModel::Probe(h.conda_scan_places())]
                &&& s.end == scanned(
                    Step::Conda,
                    match first_found(h.conda_scan_places(), seen.flags()) {
                        Some(place) => StepStatusModel::Found("Found at "@ + place),
                        None => StepStatusModel::NotFound(
                            "Miniconda not found — we'll install it"@,
                        ),
                    },
                )
            }
        }),
{
    reveal_with_fuel(going_on, 4);
}

/// Conda is initialized exactly where it answers, and the environment is
/// there exactly where conda lists it.
pub proof fn law_conda_and_environment_are_looked_for(h: HostModel, r: ReplyModel)
    ensures
        story(h, JobModel::Scan(ScanJobModel::CondaInit), seq![r]) == (Story {
            asked: seq![conda(seq!["info"@, "--json"@])],
            end: scanned(
                Step::CondaInit,
                if ran_well(r) {
                    StepStatusModel::Found("Conda is initialized"@)
                } else {
                    StepStatusModel::NotFound("Will run conda init after install"@)
                },
            ),
        }),
        story(h, JobModel::Scan(ScanJobModel::PythonEnv), seq![r]) == (Story {
            asked: seq![conda(seq!["env"@, "list"@])],
            end: scanned(
                Step::PythonEnv,
                if !ran_well(r) {
                    StepStatusModel::NotFound(
                        "Need conda first, then we'll create the environment"@,
                    )
                } else if env_listed(lines(answer(r))) {
                    StepStatusModel::Found("'sapphire' environment exists"@)
                } else {
                    StepStatusModel::NotFound("Will create 'sapphire' Python 3.11 environment"@)
                },
            ),
        }),
{
    reveal_with_fuel(going_on, 3);
}

/// The environment is listed exactly where a line begins with its whole name:
/// a name that only begins like it does not count.
pub proof fn law_environment_is_listed_by_its_name(list: Seq<Seq<char>>)
    ensures
        env_listed(list) <==> exists|i: int|
            0 <= i < list.len() && (#[trigger] list[i]).len() > 8 && list[i].take(8) == "sapphire"@
                && (list[i][8] == ' ' || list[i][8] == '\t'),
{
    reveal_strlit("sapphire");
    reveal_strlit("sapphire ");
    reveal_strlit("sapphire\t");
    assert forall|l: Seq<char>|
        #![trigger begins(l, "sapphire "@)]
        (begins(l, "sapphire "@) || begins(l, "sapphire\t"@)) <==> l.len() > 8 && l.take(8)
            == "sapphire"@ && (l[8] == ' ' || l[8] == '\t') by {
        if l.len() > 8 {
            let t = l.take(9);
            assert(t.take(8) =~= l.take(8));
            assert(t[8] == l[8]);
            assert("sapphire "@.take(8) =~= "sapphire"@);
            assert("sapphire\t"@.take(8) =~= "sapphire"@);
            assert("sapphire "@[8] == ' ');
            assert("sapphire\t"@[8] == '\t');
            if l.take(8) == "sapphire"@ && l[8] == ' ' {
                assert(t =~= "sapphire "@) by {
                    assert forall|k: int| 0 <= k < 9 implies t[k] == "sapphire "@[k] by {
                        if k < 8 {
                            assert(l.take(8)[k] == "sapphire "@.take(8)[k]);
                        }
                    }
                }
            }
            if l.take(8) == "sapphire"@ && l[8] == '\t' {
                assert(t =~= "sapphire\t"@) by {
                    assert forall|k: int| 0 <= k < 9 implies t[k] == "sapphire\t"@[k] by {
                        if k < 8 {
                            assert(l.take(8)[k] == "sapphire\t"@.take(8)[k]);
                        }
                    }
                }
            }
        }
    }
}

/// The repository is there exactly where the folder that was chosen is one.
pub proof fn law_repository_is_looked_for(h: HostModel, path: Seq<char>, seen: ReplyModel)
    ensures
        story(h, JobModel::Scan(ScanJobModel::Clone(path)), seq![seen]) == (Story {
            asked: seq![RequestModel::Probe(seq![h.path(path, ".git"@), path])],
            end: scanned(
                Step::Clone,
                if yes(seen, 0) {
                    StepStatusModel::Found("Repo already at "@ + path)
                } else if yes(seen, 1) {
                    StepStatusModel::NotFound(
                        "Folder exists but no git repo — will clone into "@ + path,
                    )
                } else {
                    StepStatusModel::NotFound("Will clone Sapphire into "@ + path)
                },
            ),
        }),
{
    reveal_with_fuel(going_on, 3);
}

/// The dependencies are there where pip shows the first package that the
/// requirements file asks for, or where it asks for none; without the file
/// they are not.
#[verifier::spinoff_prover]
#[verifier::rlimit(60)]
pub proof fn law_dependencies_are_looked_for(
    h: HostModel,
    path: Seq<char>,
    seen: ReplyModel,
    text: Option<Seq<char>>,
    r: ReplyModel,
)
    ensures
        ({
            let s = story(
                h,
                JobModel::Scan(ScanJobModel::Deps(path)),
                seq![seen, ReplyModel::Text(text), r],
            );
            let file = h.path(path, "requirements.txt"@);
            let first = match text {
                Some(text) => match first_package(lines(text)) {
                    Some(name) => name,
                    None => Seq::empty(),
                },
                None => Seq::empty(),
            };
            if !yes(seen, 0) {
                &&& s.asked == seq![RequestModel::Probe(seq![file])]
                &&& s.end == scanned(
                    Step::Deps,
                    StepStatusModel::NotFound("Will install after cloning"@),
                )
            } else if first.len() == 0 {
                &&& s.asked == seq![RequestModel::Probe(seq![file]), RequestModel::Read(file)]
                &&& s.end == scanned(
                    Step::Deps,
                    StepStatusModel::Found("requirements.txt is empty — nothing to install"@),
                )
            } else {
                &&& s.asked == seq![
                    RequestModel::Probe(seq![file]),
                    RequestModel::Read(file),
                    pip(seq!["show"@, first]),
                ]
                &&& s.end == scanned(
                    Step::Deps,
                    if ran_well(r) {
                        StepStatusModel::Found("Dependencies installed"@)
                    } else {
                        StepStatusModel::NotFound(
                            "Dependencies missing (no '"@ + first + "') — will install"@,
                        )
                    },
                )
            }
        }),
{
    if yes(seen, 0) {
        reveal_with_fuel(going_on, 5);
    } else {
        reveal_with_fuel(going_on, 3);
    }
}

/// Each step has its own name, on each system.
pub proof fn law_steps_are_named(p: Platform)
    ensures
        step_name(p, Step::Git) == if p == Platform::Windows {
            "Check for Git"@
        } else {
            "Check system packages (git, audio, curl)"@
        },
        step_name(p, Step::Conda) == "Check for Miniconda"@,
        step_name(p, Step::CondaInit) == "Initialize conda"@,
        step_name(p, Step::PythonEnv) == "Create Python environment"@,
        step_name(p, Step::Clone) == "Clone Sapphire"@,
        step_name(p, Step::Deps) == "Install dependencies"@,
        step_name(p, Step::Done) == "Done!"@,
{
}

} // verus!

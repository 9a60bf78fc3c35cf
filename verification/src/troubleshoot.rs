//! The troubleshooting checks and the repairs that go with them.
use crate::ask::{run, Next, NextModel, Reply, ReplyModel, Request, RequestModel};
use crate::host::{health_cmd, health_command, null_device, null_path, Host, HostModel};
use crate::message::{Message, MessageModel};
use crate::parts::{
    cmd, command, named, named_cmd, CmdModel, Program, ProgramModel, TsCheck, TsStatus, TsStatusModel,
};
use crate::scan::{name_on, package_of, package_on, read_name};
use crate::text::{
    at_most, chars_of, contains, cut_at, first_lines, join, joined, last_chars, lines, lines_of,
    occurs, push_line, same, split_once, tail_of, trim, trimmed, words,
};
use vstd::prelude::*;

verus! {

// ── Optional features ────────────────────────────────────────────────────

/// The optional voice features, in their order.
#[derive(Debug, Clone, Copy, PartialEq, Eq, Structural)]
pub enum Feature {
    SpeechToText,
    TextToSpeech,
    WakeWord,
}

/// The requirements file of a feature.
pub open spec fn feature_file(k: Feature) -> Seq<char> {
    match k {
        Feature::SpeechToText => "requirements-stt.txt"@,
        Feature::TextToSpeech => "requirements-tts.txt"@,
        Feature::WakeWord => "requirements-wakeword.txt"@,
    }
}

/// The name of a feature.
pub open spec fn feature_title(k: Feature) -> Seq<char> {
    match k {
        Feature::SpeechToText => "Speech-to-Text"@,
        Feature::TextToSpeech => "Text-to-Speech"@,
        Feature::WakeWord => "Wake Word"@,
    }
}

/// The feature after `k`.
pub open spec fn feature_after(k: Feature) -> Option<Feature> {
    match k {
        Feature::SpeechToText => Some(Feature::TextToSpeech),
        Feature::TextToSpeech => Some(Feature::WakeWord),
        Feature::WakeWord => None,
    }
}

impl Feature {
    fn file(self) -> (s: &'static str)
        ensures
            s@ == feature_file(self),
    {
        match self {
            Feature::SpeechToText => "requirements-stt.txt",
            Feature::TextToSpeech => "requirements-tts.txt",
            Feature::WakeWord => "requirements-wakeword.txt",
        }
    }

    fn title(self) -> (s: &'static str)
        ensures
            s@ == feature_title(self),
    {
        match self {
            Feature::SpeechToText => "Speech-to-Text",
            Feature::TextToSpeech => "Text-to-Speech",
            Feature::WakeWord => "Wake Word",
        }
    }

    fn after(self) -> (next: Option<Feature>)
        ensures
            next == feature_after(self),
    {
        match self {
            Feature::SpeechToText => Some(Feature::TextToSpeech),
            Feature::TextToSpeech => Some(Feature::WakeWord),
            Feature::WakeWord => None,
        }
    }
}

/// Does a trimmed line of a requirements file ask for a package?
pub open spec fn asks_for_package(line: Seq<char>) -> bool {
    line.len() > 0 && line[0] != '#'
}

/// What a trimmed line of a feature's requirements file asks for: a package,
/// or an option with all that it is given.
pub open spec fn asked_for(line: Seq<char>) -> Seq<char> {
    if line[0] == '-' {
        trimmed(name_on(true, line))
    } else {
        package_of(line)
    }
}

/// The packages that a requirements file asks for, in their order.
pub open spec fn asked_packages(list: Seq<Seq<char>>) -> Seq<Seq<char>>
    decreases list.len(),
{
    if list.len() == 0 {
        Seq::empty()
    } else {
        let line = trimmed(list.last());
        let rest = asked_packages(list.drop_last());
        if asks_for_package(line) {
            rest.push(asked_for(line))
        } else {
            rest
        }
    }
}

/// Reads the packages that a requirements file asks for.
pub fn read_packages(content: &str) -> (out: Vec<String>)
    ensures
        out.deep_view() == asked_packages(lines(content@)),
{
    let list = lines_of(content);
    let ghost all = list.deep_view();
    let mut out: Vec<String> = Vec::new();
    assert(out.deep_view() =~= Seq::empty());
    let n: usize = list.len();
    for i in 0..n
        invariant
            n == list@.len(),
            all == list.deep_view(),
            out.deep_view() == asked_packages(all.take(i as int)),
    {
        assert(all.take(i + 1).drop_last() =~= all.take(i as int));
        assert(all.take(i + 1).last() == list[i as int]@);
        let line = trim(list[i].as_str());
        let chars = chars_of(line.as_str());
        if chars.len() > 0 && chars[0] != '#' {
            let name = if chars[0] == '-' {
                trim(read_name(true, line.as_str()).as_str())
            } else {
                package_on(line.as_str())
            };
            push_line(&mut out, name);
        }
    }
    assert(all.take(n as int) =~= all);
    out
}

/// What is said of a feature, given the packages that it lacks.
pub open spec fn feature_line(k: Feature, missing: Seq<Seq<char>>) -> Seq<char> {
    if missing.len() == 0 {
        feature_title(k) + ": installed"@
    } else {
        feature_title(k) + ": missing "@ + joined(missing, ", "@)
    }
}

fn say_feature(k: Feature, missing: &Vec<String>) -> (s: String)
    ensures
        s@ == feature_line(k, missing.deep_view()),
{
    if missing.len() == 0 {
        k.title().to_string().concat(": installed")
    } else {
        let names = join(missing, ", ");
        k.title().to_string().concat(": missing ").concat(names.as_str())
    }
}

/// What is said of all features together.
pub open spec fn features_status(results: Seq<Seq<char>>, any_missing: bool) -> TsStatusModel {
    if any_missing {
        TsStatusModel::Problem(joined(results, " | "@))
    } else if results.len() == 0 {
        TsStatusModel::Fine("No optional features found"@)
    } else {
        TsStatusModel::Fine(joined(results, " | "@))
    }
}

/// What the check of the features has found so far.
#[derive(Debug, Clone)]
pub struct Tally {
    /// The installation.
    pub path: String,
    /// The feature that is being looked at.
    pub feature: Feature,
    /// What there is to say of the features before it.
    pub results: Vec<String>,
    /// Does one of those lack a package?
    pub any_missing: bool,
    /// The packages of this feature that are still to be looked for.
    pub todo: Vec<String>,
    /// Those of its packages that were not there.
    pub missing: Vec<String>,
}

/// `Tally` with its texts as character sequences.
#[verifier::ext_equal]
pub struct TallyModel {
    pub path: Seq<char>,
    pub feature: Feature,
    pub results: Seq<Seq<char>>,
    pub any_missing: bool,
    pub todo: Seq<Seq<char>>,
    pub missing: Seq<Seq<char>>,
}

impl DeepView for Tally {
    type V = TallyModel;

    open spec fn deep_view(&self) -> TallyModel {
        TallyModel {
            path: self.path@,
            feature: self.feature,
            results: self.results.deep_view(),
            any_missing: self.any_missing,
            todo: self.todo.deep_view(),
            missing: self.missing.deep_view(),
        }
    }
}

// ── Verdicts ─────────────────────────────────────────────────────────────

/// What is said of Sapphire's health.
pub open spec fn health_status(answer: Result<Seq<char>, Seq<char>>) -> TsStatusModel {
    match answer {
        Ok(body) => if occurs(body, "ok"@) {
            TsStatusModel::Fine("Sapphire is responding"@)
        } else {
            TsStatusModel::Problem("Sapphire responded but health check failed"@)
        },
        Err(_) => TsStatusModel::Problem("Can't reach Sapphire — is it running?"@),
    }
}

/// What is said of the web UI: the last three characters of the answer are
/// the status code.
pub open spec fn web_status(answer: Result<Seq<char>, Seq<char>>) -> TsStatusModel {
    match answer {
        Ok(text) => {
            let code = tail_of(trimmed(text), 3);
            if code == "200"@ {
                TsStatusModel::Fine("Web UI is loading fine"@)
            } else if code == "500"@ {
                TsStatusModel::Problem(
                    "Web UI returns error 500 — likely a package version issue"@,
                )
            } else {
                TsStatusModel::Problem("Web UI returned HTTP "@ + code)
            }
        },
        Err(_) => TsStatusModel::Problem("Can't reach web UI — is Sapphire running?"@),
    }
}

/// The first five lines of pip's complaints.
pub open spec fn broken(text: Seq<char>) -> TsStatusModel {
    TsStatusModel::Problem("Broken packages:\n"@ + joined(at_most(lines(text), 5), "\n"@))
}

/// What is said of the health of the packages.
pub open spec fn packages_health(answer: Result<Seq<char>, Seq<char>>) -> TsStatusModel {
    match answer {
        Ok(text) => if occurs(text, "No broken requirements"@) {
            TsStatusModel::Fine("All dependencies look good"@)
        } else {
            broken(text)
        },
        Err(why) => if occurs(why, "has requirement"@) || occurs(why, "not installed"@) {
            broken(why)
        } else {
            TsStatusModel::Problem("Couldn't check: "@ + why)
        },
    }
}

fn say_broken(text: &str) -> (s: TsStatus)
    ensures
        s.deep_view() == broken(text@),
{
    let some = first_lines(text, 5);
    TsStatus::Problem("Broken packages:\n".to_string().concat(some.as_str()))
}

// ── The checks ───────────────────────────────────────────────────────────

/// A check or a repair, at the point that it has reached.
#[derive(Debug, Clone)]
pub enum TsJob {
    Running,
    Health,
    WebUi,
    WebCode,
    Deps,
    PipCheck,
    /// Check the optional features of the installation at a path.
    Plugins(String),
    PluginsSeen(String),
    FeatureRead(Tally),
    /// pip was asked for this package.
    PackageShown(String, Tally),
    Gpu,
    GpuAnswer,
    /// The memory of the card with this name is being worked out.
    GpuMemory(String),
    /// Reinstall the dependencies of the installation at a path.
    FixDeps(String),
    DepsFixed,
    /// Install the optional features of the installation at a path.
    FixPlugins(String),
    /// Is the file of this feature there?
    FixSeen(String, Feature),
    FixRan(String, Feature),
}

/// `TsJob` with its texts as character sequences.
#[verifier::ext_equal]
pub enum TsJobModel {
    Running,
    Health,
    WebUi,
    WebCode,
    Deps,
    PipCheck,
    Plugins(Seq<char>),
    PluginsSeen(Seq<char>),
    FeatureRead(TallyModel),
    PackageShown(Seq<char>, TallyModel),
    Gpu,
    GpuAnswer,
    GpuMemory(Seq<char>),
    FixDeps(Seq<char>),
    DepsFixed,
    FixPlugins(Seq<char>),
    FixSeen(Seq<char>, Feature),
    FixRan(Seq<char>, Feature),
}

impl DeepView for TsJob {
    type V = TsJobModel;

    open spec fn deep_view(&self) -> TsJobModel {
        match self {
            TsJob::Running => TsJobModel::Running,
            TsJob::Health => TsJobModel::Health,
            TsJob::WebUi => TsJobModel::WebUi,
            TsJob::WebCode => TsJobModel::WebCode,
            TsJob::Deps => TsJobModel::Deps,
            TsJob::PipCheck => TsJobModel::PipCheck,
            TsJob::Plugins(p) => TsJobModel::Plugins(p@),
            TsJob::PluginsSeen(p) => TsJobModel::PluginsSeen(p@),
            TsJob::FeatureRead(t) => TsJobModel::FeatureRead(t.deep_view()),
            TsJob::PackageShown(p, t) => TsJobModel::PackageShown(p@, t.deep_view()),
            TsJob::Gpu => TsJobModel::Gpu,
            TsJob::GpuAnswer => TsJobModel::GpuAnswer,
            TsJob::GpuMemory(s) => TsJobModel::GpuMemory(s@),
            TsJob::FixDeps(p) => TsJobModel::FixDeps(p@),
            TsJob::DepsFixed => TsJobModel::DepsFixed,
            TsJob::FixPlugins(p) => TsJobModel::FixPlugins(p@),
            TsJob::FixSeen(p, k) => TsJobModel::FixSeen(p@, *k),
            TsJob::FixRan(p, k) => TsJobModel::FixRan(p@, *k),
        }
    }
}

/// The message that ends a check.
pub open spec fn checked(check: TsCheck, status: TsStatusModel) -> NextModel<TsJobModel> {
    NextModel::Finish(MessageModel::TroubleshootResult(check, status))
}

/// The message that ends a repair.
pub open spec fn fixed(check: TsCheck, text: Seq<char>, ok: bool) -> NextModel<TsJobModel> {
    NextModel::Finish(MessageModel::TroubleshootFixResult(check, text, ok))
}

/// Where the requirements file of a feature is.
pub open spec fn feature_path(h: HostModel, path: Seq<char>, k: Feature) -> Seq<char> {
    h.path(h.path(path, "install"@), feature_file(k))
}

/// Goes to a feature, or ends the check where there is none left.
pub open spec fn look_at_feature(h: HostModel, k: Option<Feature>, t: TallyModel) -> NextModel<
    TsJobModel,
> {
    match k {
        Some(k) => NextModel::Ask(
            RequestModel::Read(feature_path(h, t.path, k)),
            TsJobModel::FeatureRead(
                TallyModel { feature: k, todo: Seq::empty(), missing: Seq::empty(), ..t },
            ),
        ),
        None => checked(TsCheck::Plugins, features_status(t.results, t.any_missing)),
    }
}

/// The command that succeeds where a package is installed.
pub open spec fn show_package(p: Seq<char>) -> CmdModel {
    command(ProgramModel::Pip, seq!["show"@, p])
}

/// Looks for the next package of the feature, or sums the feature up.
pub open spec fn look_for_package(h: HostModel, t: TallyModel) -> NextModel<TsJobModel> {
    if t.todo.len() > 0 {
        run(
            show_package(t.todo[0]),
            TsJobModel::PackageShown(
                t.todo[0],
                TallyModel { todo: t.todo.drop_first(), ..t },
            ),
        )
    } else {
        look_at_feature(
            h,
            feature_after(t.feature),
            TallyModel {
                results: t.results.push(feature_line(t.feature, t.missing)),
                any_missing: t.any_missing || t.missing.len() > 0,
                ..t
            },
        )
    }
}

/// Goes on with the check of the optional features.
pub open spec fn plugins_next(h: HostModel, job: TsJobModel, r: ReplyModel) -> NextModel<
    TsJobModel,
> {
    match job {
        TsJobModel::Plugins(path) => NextModel::Ask(
            RequestModel::Probe(seq![h.path(path, "install"@)]),
            TsJobModel::PluginsSeen(path),
        ),
        TsJobModel::PluginsSeen(path) => if r.found(0) {
            look_at_feature(
                h,
                Some(Feature::SpeechToText),
                TallyModel {
                    path,
                    feature: Feature::SpeechToText,
                    results: Seq::empty(),
                    any_missing: false,
                    todo: Seq::empty(),
                    missing: Seq::empty(),
                },
            )
        } else {
            checked(TsCheck::Plugins, TsStatusModel::Fine("No optional features found"@))
        },
        TsJobModel::FeatureRead(t) => match r.text() {
            Some(text) => look_for_package(
                h,
                TallyModel { todo: asked_packages(lines(text)), missing: Seq::empty(), ..t },
            ),
            None => look_at_feature(h, feature_after(t.feature), t),
        },
        TsJobModel::PackageShown(package, t) => look_for_package(
            h,
            TallyModel {
                missing: if r.worked() {
                    t.missing
                } else {
                    t.missing.push(package)
                },
                ..t
            },
        ),
        _ => arbitrary(),
    }
}

/// Goes to the repair of a feature, or ends the repairs where none is left.
pub open spec fn look_at_fix(h: HostModel, path: Seq<char>, k: Option<Feature>) -> NextModel<
    TsJobModel,
> {
    match k {
        Some(k) => NextModel::Ask(
            RequestModel::Probe(seq![feature_path(h, path, k)]),
            TsJobModel::FixSeen(path, k),
        ),
        None => fixed(
            TsCheck::Plugins,
            "All optional features installed. Restart Sapphire to apply."@,
            true,
        ),
    }
}

/// Goes on with a repair.
pub open spec fn fix_next(h: HostModel, job: TsJobModel, r: ReplyModel) -> NextModel<TsJobModel> {
    match job {
        TsJobModel::FixDeps(path) => run(
            command(
                ProgramModel::Pip,
                seq!["install"@, "-r"@, h.path(path, "requirements.txt"@)],
            ),
            TsJobModel::DepsFixed,
        ),
        TsJobModel::DepsFixed => match r.full() {
            Ok(_) => fixed(TsCheck::DepsHealth, "Repaired! Restart Sapphire to apply."@, true),
            Err(why) => fixed(TsCheck::DepsHealth, "Repair failed: "@ + why, false),
        },
        TsJobModel::FixPlugins(path) => look_at_fix(h, path, Some(Feature::SpeechToText)),
        TsJobModel::FixSeen(path, k) => if r.found(0) {
            run(
                command(ProgramModel::Pip, seq!["install"@, "-r"@, feature_path(h, path, k)]),
                TsJobModel::FixRan(path, k),
            )
        } else {
            look_at_fix(h, path, feature_after(k))
        },
        TsJobModel::FixRan(path, k) => match r.full() {
            Ok(_) => look_at_fix(h, path, feature_after(k)),
            Err(why) => fixed(
                TsCheck::Plugins,
                "Failed on "@ + feature_file(k) + ": "@ + why,
                false,
            ),
        },
        _ => arbitrary(),
    }
}

/// Goes on with the check of the graphics card.
pub open spec fn gpu_next(job: TsJobModel, r: ReplyModel) -> NextModel<TsJobModel> {
    match job {
        TsJobModel::Gpu => run(
            named(
                "nvidia-smi"@,
                seq!["--query-gpu=name,memory.total"@, "--format=csv,noheader,nounits"@],
            ),
            TsJobModel::GpuAnswer,
        ),
        TsJobModel::GpuAnswer => match r.brief() {
            Ok(text) => match cut_at(trimmed(text), ',') {
                Some((name, memory)) => NextModel::Ask(
                    RequestModel::Gigabytes(trimmed(memory)),
                    TsJobModel::GpuMemory(trimmed(name)),
                ),
                None => checked(
                    TsCheck::Gpu,
                    TsStatusModel::Fine("NVIDIA GPU found: "@ + trimmed(text)),
                ),
            },
            Err(_) => checked(
                TsCheck::Gpu,
                TsStatusModel::Fine(
                    "No NVIDIA GPU found — voice features will use CPU (still works, just slower)"@,
                ),
            ),
        },
        TsJobModel::GpuMemory(name) => checked(
            TsCheck::Gpu,
            TsStatusModel::Fine(
                name + " ("@ + (match r.text() {
                    Some(n) => n,
                    None => "0"@,
                }) + " GB) — voice features will use GPU"@,
            ),
        ),
        _ => arbitrary(),
    }
}

/// How a check or a repair goes on with a reply.
pub open spec fn ts_next(h: HostModel, job: TsJobModel, r: ReplyModel) -> NextModel<TsJobModel> {
    match job {
        TsJobModel::Running => run(health_cmd("5"@), TsJobModel::Health),
        TsJobModel::Health => checked(TsCheck::SapphireRunning, health_status(r.full())),
        TsJobModel::WebUi => run(
            named(
                "curl"@,
                seq![
                    "-sk"@,
                    "--max-time"@,
                    "5"@,
                    "-o"@,
                    null_path(h.platform),
                    "-w"@,
                    "%{http_code}"@,
                    "-L"@,
                    "https://localhost:8073/"@,
                ],
            ),
            TsJobModel::WebCode,
        ),
        TsJobModel::WebCode => checked(TsCheck::WebUi, web_status(r.full())),
        TsJobModel::Deps => run(
            command(ProgramModel::Pip, seq!["check"@]),
            TsJobModel::PipCheck,
        ),
        TsJobModel::PipCheck => checked(TsCheck::DepsHealth, packages_health(r.full())),
        TsJobModel::Plugins(_)
        | TsJobModel::PluginsSeen(_)
        | TsJobModel::FeatureRead(_)
        | TsJobModel::PackageShown(_, _) => plugins_next(h, job, r),
        TsJobModel::Gpu | TsJobModel::GpuAnswer | TsJobModel::GpuMemory(_) => gpu_next(job, r),
        TsJobModel::FixDeps(_)
        | TsJobModel::DepsFixed
        | TsJobModel::FixPlugins(_)
        | TsJobModel::FixSeen(_, _)
        | TsJobModel::FixRan(_, _) => fix_next(h, job, r),
    }
}

fn done(check: TsCheck, status: TsStatus) -> (n: Next<TsJob>)
    ensures
        n.deep_view() == checked(check, status.deep_view()),
{
    Next::Finish(Message::TroubleshootResult(check, status))
}

fn fix_done(check: TsCheck, text: String, ok: bool) -> (n: Next<TsJob>)
    ensures
        n.deep_view() == fixed(check, text@, ok),
{
    Next::Finish(Message::TroubleshootFixResult(check, text, ok))
}

fn path_of_feature(host: &Host, path: &str, k: Feature) -> (s: String)
    ensures
        s@ == feature_path(host.deep_view(), path@, k),
{
    let dir = host.path(path, "install");
    host.path(dir.as_str(), k.file())
}

fn to_feature(host: &Host, k: Option<Feature>, t: Tally) -> (n: Next<TsJob>)
    ensures
        n.deep_view() == look_at_feature(host.deep_view(), k, t.deep_view()),
{
    match k {
        Some(k) => {
            let file = path_of_feature(host, t.path.as_str(), k);
            let t = Tally {
                path: t.path,
                feature: k,
                results: t.results,
                any_missing: t.any_missing,
                todo: Vec::new(),
                missing: Vec::new(),
            };
            assert(t.todo.deep_view() =~= Seq::empty());
            Next::Ask(Request::Read(file), TsJob::FeatureRead(t))
        },
        None => {
            let all = join(&t.results, " | ");
            if t.any_missing {
                done(TsCheck::Plugins, TsStatus::Problem(all))
            } else if t.results.len() == 0 {
                done(TsCheck::Plugins, TsStatus::Fine("No optional features found".to_string()))
            } else {
                done(TsCheck::Plugins, TsStatus::Fine(all))
            }
        },
    }
}

fn next_package(host: &Host, t: Tally) -> (n: Next<TsJob>)
    ensures
        n.deep_view() == look_for_package(host.deep_view(), t.deep_view()),
{
    let mut t = t;
    if t.todo.len() > 0 {
        let ghost todo = t.todo.deep_view();
        let name = t.todo.remove(0);
        assert(t.todo.deep_view() =~= todo.drop_first());
        assert(name@ == todo[0]);
        let c = cmd(Program::Pip, &["show", name.as_str()]);
        Next::Ask(Request::Run(c), TsJob::PackageShown(name, t))
    } else {
        let line = say_feature(t.feature, &t.missing);
        push_line(&mut t.results, line);
        t.any_missing = t.any_missing || t.missing.len() > 0;
        to_feature(host, t.feature.after(), t)
    }
}

fn to_fix(host: &Host, path: String, k: Option<Feature>) -> (n: Next<TsJob>)
    ensures
        n.deep_view() == look_at_fix(host.deep_view(), path@, k),
{
    match k {
        Some(k) => {
            let file = path_of_feature(host, path.as_str(), k);
            Next::Ask(Request::Probe(words(&[file.as_str()])), TsJob::FixSeen(path, k))
        },
        None => fix_done(
            TsCheck::Plugins,
            "All optional features installed. Restart Sapphire to apply.".to_string(),
            true,
        ),
    }
}

fn judge_health(answer: Result<String, String>) -> (s: TsStatus)
    ensures
        s.deep_view() == health_status(crate::output::result_model(answer)),
{
    match answer {
        Ok(body) => if contains(body.as_str(), "ok") {
            TsStatus::Fine("Sapphire is responding".to_string())
        } else {
            TsStatus::Problem("Sapphire responded but health check failed".to_string())
        },
        Err(_) => TsStatus::Problem("Can't reach Sapphire — is it running?".to_string()),
    }
}

fn judge_web(answer: Result<String, String>) -> (s: TsStatus)
    ensures
        s.deep_view() == web_status(crate::output::result_model(answer)),
{
    match answer {
        Ok(text) => {
            let whole = trim(text.as_str());
            let code = last_chars(whole.as_str(), 3);
            if same(code.as_str(), "200") {
                TsStatus::Fine("Web UI is loading fine".to_string())
            } else if same(code.as_str(), "500") {
                TsStatus::Problem(
                    "Web UI returns error 500 — likely a package version issue".to_string(),
                )
            } else {
                TsStatus::Problem("Web UI returned HTTP ".to_string().concat(code.as_str()))
            }
        },
        Err(_) => TsStatus::Problem("Can't reach web UI — is Sapphire running?".to_string()),
    }
}

fn judge_packages_health(answer: Result<String, String>) -> (s: TsStatus)
    ensures
        s.deep_view() == packages_health(crate::output::result_model(answer)),
{
    match answer {
        Ok(text) => if contains(text.as_str(), "No broken requirements") {
            TsStatus::Fine("All dependencies look good".to_string())
        } else {
            say_broken(text.as_str())
        },
        Err(why) => if contains(why.as_str(), "has requirement") || contains(
            why.as_str(),
            "not installed",
        ) {
            say_broken(why.as_str())
        } else {
            TsStatus::Problem("Couldn't check: ".to_string().concat(why.as_str()))
        },
    }
}

impl TsJob {
    /// Goes on with a reply.
    pub fn advance(self, host: &Host, reply: &Reply) -> (next: Next<TsJob>)
        ensures
            next.deep_view() == ts_next(host.deep_view(), self.deep_view(), reply.deep_view()),
    {
        match self {
            TsJob::Running => Next::Ask(Request::Run(health_command("5")), TsJob::Health),
            TsJob::Health => done(TsCheck::SapphireRunning, judge_health(reply.full())),
            TsJob::WebUi => Next::Ask(
                Request::Run(
                    named_cmd(
                        "curl",
                        &[
                            "-sk",
                            "--max-time",
                            "5",
                            "-o",
                            null_device(host.platform),
                            "-w",
                            "%{http_code}",
                            "-L",
                            "https://localhost:8073/",
                        ],
                    ),
                ),
                TsJob::WebCode,
            ),
            TsJob::WebCode => done(TsCheck::WebUi, judge_web(reply.full())),
            TsJob::Deps => Next::Ask(Request::Run(cmd(Program::Pip, &["check"])), TsJob::PipCheck),
            TsJob::PipCheck => done(TsCheck::DepsHealth, judge_packages_health(reply.full())),
            TsJob::Plugins(path) => {
                let dir = host.path(path.as_str(), "install");
                Next::Ask(Request::Probe(words(&[dir.as_str()])), TsJob::PluginsSeen(path))
            },
            TsJob::PluginsSeen(path) => if reply.found(0) {
                let t = Tally {
                    path,
                    feature: Feature::SpeechToText,
                    results: Vec::new(),
                    any_missing: false,
                    todo: Vec::new(),
                    missing: Vec::new(),
                };
                assert(t.results.deep_view() =~= Seq::empty());
                to_feature(host, Some(Feature::SpeechToText), t)
            } else {
                done(TsCheck::Plugins, TsStatus::Fine("No optional features found".to_string()))
            },
            TsJob::FeatureRead(t) => match reply.text() {
                Some(text) => {
                    let mut t = t;
                    t.todo = read_packages(text.as_str());
                    t.missing = Vec::new();
                    assert(t.missing.deep_view() =~= Seq::empty());
                    next_package(host, t)
                },
                None => to_feature(host, t.feature.after(), t),
            },
            TsJob::PackageShown(package, t) => {
                let mut t = t;
                if !reply.worked() {
                    push_line(&mut t.missing, package);
                }
                next_package(host, t)
            },
            TsJob::Gpu => Next::Ask(
                Request::Run(
                    named_cmd(
                        "nvidia-smi",
                        &["--query-gpu=name,memory.total", "--format=csv,noheader,nounits"],
                    ),
                ),
                TsJob::GpuAnswer,
            ),
            TsJob::GpuAnswer => match reply.brief() {
                Ok(text) => {
                    let info = trim(text.as_str());
                    match split_once(info.as_str(), ',') {
                        Some((name, memory)) => Next::Ask(
                            Request::Gigabytes(trim(memory.as_str())),
                            TsJob::GpuMemory(trim(name.as_str())),
                        ),
                        None => done(
                            TsCheck::Gpu,
                            TsStatus::Fine(
                                "NVIDIA GPU found: ".to_string().concat(info.as_str()),
                            ),
                        ),
                    }
                },
                Err(_) => done(
                    TsCheck::Gpu,
                    TsStatus::Fine(
                        "No NVIDIA GPU found — voice features will use CPU (still works, just slower)".to_string(),
                    ),
                ),
            },
            TsJob::GpuMemory(name) => {
                let n = match reply.text() {
                    Some(n) => n,
                    None => "0".to_string(),
                };
                done(
                    TsCheck::Gpu,
                    TsStatus::Fine(
                        name.concat(" (").concat(n.as_str()).concat(
                            " GB) — voice features will use GPU",
                        ),
                    ),
                )
            },
            TsJob::FixDeps(path) => {
                let req = host.path(path.as_str(), "requirements.txt");
                Next::Ask(
                    Request::Run(cmd(Program::Pip, &["install", "-r", req.as_str()])),
                    TsJob::DepsFixed,
                )
            },
            TsJob::DepsFixed => match reply.full() {
                Ok(_) => fix_done(
                    TsCheck::DepsHealth,
                    "Repaired! Restart Sapphire to apply.".to_string(),
                    true,
                ),
                Err(why) => fix_done(
                    TsCheck::DepsHealth,
                    "Repair failed: ".to_string().concat(why.as_str()),
                    false,
                ),
            },
            TsJob::FixPlugins(path) => to_fix(host, path, Some(Feature::SpeechToText)),
            TsJob::FixSeen(path, k) => if reply.found(0) {
                let file = path_of_feature(host, path.as_str(), k);
                Next::Ask(
                    Request::Run(cmd(Program::Pip, &["install", "-r", file.as_str()])),
                    TsJob::FixRan(path, k),
                )
            } else {
                to_fix(host, path, k.after())
            },
            TsJob::FixRan(path, k) => match reply.full() {
                Ok(_) => to_fix(host, path, k.after()),
                Err(why) => fix_done(
                    TsCheck::Plugins,
                    "Failed on ".to_string().concat(k.file()).concat(": ").concat(
                        why.as_str(),
                    ),
                    false,
                ),
            },
        }
    }
}

// ── What a whole check comes to ──────────────────────────────────────────

/// The message that a job ends with, if it is over after `steps` requests at
/// most and the outside answers each request as `world` says.
pub open spec fn outcome(
    h: HostModel,
    next: NextModel<TsJobModel>,
    world: spec_fn(RequestModel) -> ReplyModel,
    steps: nat,
) -> Option<MessageModel>
    decreases steps,
{
    match next {
        NextModel::Finish(m) => Some(m),
        NextModel::Ask(request, job) => if steps == 0 {
            None
        } else {
            outcome(h, ts_next(h, job, world(request)), world, (steps - 1) as nat)
        },
    }
}

/// Those of `list` that are not there.
pub open spec fn lacking(list: Seq<Seq<char>>, has: spec_fn(Seq<char>) -> bool) -> Seq<Seq<char>>
    decreases list.len(),
{
    if list.len() == 0 {
        Seq::empty()
    } else if has(list[0]) {
        lacking(list.drop_first(), has)
    } else {
        seq![list[0]] + lacking(list.drop_first(), has)
    }
}

/// The packages of a feature, given its requirements file.
pub open spec fn wanted(file: Option<Seq<char>>) -> Seq<Seq<char>> {
    match file {
        Some(text) => asked_packages(lines(text)),
        None => Seq::empty(),
    }
}

/// What is said of a feature: nothing, where its file cannot be read.
pub open spec fn said(
    k: Feature,
    file: Option<Seq<char>>,
    has: spec_fn(Seq<char>) -> bool,
) -> Seq<Seq<char>> {
    match file {
        Some(_) => seq![feature_line(k, lacking(wanted(file), has))],
        None => Seq::empty(),
    }
}

/// Does the outside answer as `files` and `has` say: which requirements
/// files can be read and what they hold, and which packages are there?
pub open spec fn answers(
    h: HostModel,
    path: Seq<char>,
    world: spec_fn(RequestModel) -> ReplyModel,
    files: spec_fn(Feature) -> Option<Seq<char>>,
    has: spec_fn(Seq<char>) -> bool,
) -> bool {
    &&& forall|k: Feature|
        #[trigger] world(RequestModel::Read(feature_path(h, path, k))).text() == files(k)
    &&& forall|p: Seq<char>| #[trigger]
        world(RequestModel::Run(show_package(p))).worked() == has(p)
}

proof fn lemma_packages_run(
    h: HostModel,
    t: TallyModel,
    world: spec_fn(RequestModel) -> ReplyModel,
    files: spec_fn(Feature) -> Option<Seq<char>>,
    has: spec_fn(Seq<char>) -> bool,
    steps: nat,
)
    requires
        answers(h, t.path, world, files, has),
    ensures
        outcome(h, look_for_package(h, t), world, steps + t.todo.len()) == outcome(
            h,
            look_for_package(
                h,
                TallyModel {
                    todo: Seq::empty(),
                    missing: t.missing + lacking(t.todo, has),
                    ..t
                },
            ),
            world,
            steps,
        ),
    decreases t.todo.len(),
{
    if t.todo.len() == 0 {
        assert(t.todo =~= Seq::empty());
        assert(t.missing + lacking(t.todo, has) =~= t.missing);
    } else {
        let package = t.todo[0];
        let rest = TallyModel {
            todo: t.todo.drop_first(),
            missing: if has(package) {
                t.missing
            } else {
                t.missing.push(package)
            },
            ..t
        };
        let request = RequestModel::Run(show_package(package));
        assert(world(request).worked() == has(package));
        let job = TsJobModel::PackageShown(
            package,
            TallyModel { todo: t.todo.drop_first(), ..t },
        );
        assert(look_for_package(h, t) == NextModel::Ask(request, job));
        assert(ts_next(h, job, world(request)) == look_for_package(h, rest));
        lemma_packages_run(h, rest, world, files, has, steps);
        assert(rest.missing + lacking(rest.todo, has) =~= t.missing + lacking(t.todo, has));
    }
}

proof fn lemma_feature_run(
    h: HostModel,
    k: Feature,
    t: TallyModel,
    world: spec_fn(RequestModel) -> ReplyModel,
    files: spec_fn(Feature) -> Option<Seq<char>>,
    has: spec_fn(Seq<char>) -> bool,
    steps: nat,
)
    requires
        answers(h, t.path, world, files, has),
    ensures
        ({
            let lack = lacking(wanted(files(k)), has);
            exists|u: TallyModel|
                #![trigger look_at_feature(h, feature_after(k), u)]
                u.path == t.path && u.results == t.results + said(k, files(k), has)
                    && u.any_missing == (t.any_missing || lack.len() > 0) && outcome(
                    h,
                    look_at_feature(h, Some(k), t),
                    world,
                    steps + 1 + wanted(files(k)).len(),
                ) == outcome(h, look_at_feature(h, feature_after(k), u), world, steps)
        }),
{
    let request = RequestModel::Read(feature_path(h, t.path, k));
    let start = TallyModel { feature: k, todo: Seq::empty(), missing: Seq::empty(), ..t };
    let job = TsJobModel::FeatureRead(start);
    let lack = lacking(wanted(files(k)), has);
    assert(look_at_feature(h, Some(k), t) == NextModel::Ask(request, job));
    assert(world(request).text() == files(k));
    match files(k) {
        Some(text) => {
            let full = TallyModel { todo: wanted(files(k)), missing: Seq::empty(), ..start };
            assert(ts_next(h, job, world(request)) == look_for_package(h, full));
            lemma_packages_run(h, full, world, files, has, steps);
            assert(full.missing + lack =~= lack);
            let end = TallyModel { todo: Seq::empty(), missing: lack, ..full };
            let u = TallyModel {
                results: end.results.push(feature_line(k, lack)),
                any_missing: end.any_missing || lack.len() > 0,
                ..end
            };
            assert(look_for_package(h, end) == look_at_feature(h, feature_after(k), u));
            assert(u.results =~= t.results + said(k, files(k), has));
        },
        None => {
            assert(ts_next(h, job, world(request)) == look_at_feature(
                h,
                feature_after(k),
                start,
            ));
            assert(start.results =~= t.results + said(k, files(k), has));
            assert(lack.len() == 0);
        },
    }
}

/// The check of the optional features tells exactly what is there: of each
/// feature whose requirements file can be read, whether it is installed or
/// which of its packages are missing, in the order of the features. It
/// reports a problem if and only if a package is missing.
pub proof fn law_features_are_told(
    h: HostModel,
    path: Seq<char>,
    world: spec_fn(RequestModel) -> ReplyModel,
    files: spec_fn(Feature) -> Option<Seq<char>>,
    has: spec_fn(Seq<char>) -> bool,
)
    requires
        world(RequestModel::Probe(seq![h.path(path, "install"@)])).found(0),
        answers(h, path, world, files, has),
    ensures
        ({
            let lines = said(Feature::SpeechToText, files(Feature::SpeechToText), has) + said(
                Feature::TextToSpeech,
                files(Feature::TextToSpeech),
                has,
            ) + said(Feature::WakeWord, files(Feature::WakeWord), has);
            let any = lacking(wanted(files(Feature::SpeechToText)), has).len() > 0 || lacking(
                wanted(files(Feature::TextToSpeech)),
                has,
            ).len() > 0 || lacking(wanted(files(Feature::WakeWord)), has).len() > 0;
            exists|steps: nat| #[trigger]
                outcome(
                    h,
                    ts_next(h, TsJobModel::Plugins(path), ReplyModel::Begin),
                    world,
                    steps,
                ) == Some(
                    MessageModel::TroubleshootResult(
                        TsCheck::Plugins,
                        features_status(lines, any),
                    ),
                )
        }),
{
    let (a, b, c) = (Feature::SpeechToText, Feature::TextToSpeech, Feature::WakeWord);
    let t0 = TallyModel {
        path,
        feature: a,
        results: Seq::empty(),
        any_missing: false,
        todo: Seq::empty(),
        missing: Seq::empty(),
    };
    let n3: nat = 0;
    let n2: nat = n3 + 1 + wanted(files(c)).len();
    let n1: nat = n2 + 1 + wanted(files(b)).len();
    let n0: nat = n1 + 1 + wanted(files(a)).len();
    lemma_feature_run(h, a, t0, world, files, has, n1);
    let t1 = choose|u: TallyModel|
        #![trigger look_at_feature(h, feature_after(a), u)]
        u.path == path && u.results == t0.results + said(a, files(a), has) && u.any_missing == (
        t0.any_missing || lacking(wanted(files(a)), has).len() > 0) && outcome(
            h,
            look_at_feature(h, Some(a), t0),
            world,
            n0,
        ) == outcome(h, look_at_feature(h, feature_after(a), u), world, n1);
    lemma_feature_run(h, b, t1, world, files, has, n2);
    let t2 = choose|u: TallyModel|
        #![trigger look_at_feature(h, feature_after(b), u)]
        u.path == path && u.results == t1.results + said(b, files(b), has) && u.any_missing == (
        t1.any_missing || lacking(wanted(files(b)), has).len() > 0) && outcome(
            h,
            look_at_feature(h, Some(b), t1),
            world,
            n1,
        ) == outcome(h, look_at_feature(h, feature_after(b), u), world, n2);
    lemma_feature_run(h, c, t2, world, files, has, n3);
    let t3 = choose|u: TallyModel|
        #![trigger look_at_feature(h, feature_after(c), u)]
        u.path == path && u.results == t2.results + said(c, files(c), has) && u.any_missing == (
        t2.any_missing || lacking(wanted(files(c)), has).len() > 0) && outcome(
            h,
            look_at_feature(h, Some(c), t2),
            world,
            n2,
        ) == outcome(h, look_at_feature(h, feature_after(c), u), world, n3);
    assert(t3.results =~= said(a, files(a), has) + said(b, files(b), has) + said(
        c,
        files(c),
        has,
    ));
    let request = RequestModel::Probe(seq![h.path(path, "install"@)]);
    let job = TsJobModel::PluginsSeen(path);
    assert(ts_next(h, TsJobModel::Plugins(path), ReplyModel::Begin) == NextModel::Ask(
        request,
        job,
    ));
    assert(ts_next(h, job, world(request)) == look_at_feature(h, Some(a), t0));
    let steps: nat = n0 + 1;
    assert(outcome(
        h,
        ts_next(h, TsJobModel::Plugins(path), ReplyModel::Begin),
        world,
        steps,
    ) == outcome(h, look_at_feature(h, Some(a), t0), world, n0));
}

} // verus!

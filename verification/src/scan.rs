//! The scan: which parts of an installation are there already.
use crate::ask::{run, Next, NextModel, Reply, ReplyModel, Request, RequestModel};
use crate::host::{first_existing, first_found, Host, HostModel, Platform};
use crate::message::{Message, MessageModel};
use crate::parts::{
    cmd, command, named, named_cmd, Program, ProgramModel, Step, StepStatus, StepStatusModel,
};
use crate::text::{
    begins, chars_of, is_white, join, joined, lines, lines_of, push_line, starts_with, trim, trimmed,
    white, words,
};
use vstd::prelude::*;

verus! {

// ── Labels ───────────────────────────────────────────────────────────────

/// The name of a step.
pub open spec fn step_name(p: Platform, step: Step) -> Seq<char> {
    match step {
        Step::Git => match p {
            Platform::Windows => "Check for Git"@,
            Platform::Linux => "Check system packages (git, audio, curl)"@,
        },
        Step::Conda => "Check for Miniconda"@,
        Step::CondaInit => "Initialize conda"@,
        Step::PythonEnv => "Create Python environment"@,
        Step::Clone => "Clone Sapphire"@,
        Step::Deps => "Install dependencies"@,
        Step::Done => "Done!"@,
    }
}

/// The name of a step.
pub fn step_label(p: Platform, step: Step) -> (s: &'static str)
    ensures
        s@ == step_name(p, step),
{
    match step {
        Step::Git => match p {
            Platform::Windows => "Check for Git",
            Platform::Linux => "Check system packages (git, audio, curl)",
        },
        Step::Conda => "Check for Miniconda",
        Step::CondaInit => "Initialize conda",
        Step::PythonEnv => "Create Python environment",
        Step::Clone => "Clone Sapphire",
        Step::Deps => "Install dependencies",
        Step::Done => "Done!",
    }
}

// ── System packages ──────────────────────────────────────────────────────

/// The names of the prerequisites that are missing.
pub open spec fn missing_names(git: bool, audio: bool, curl: bool) -> Seq<Seq<char>> {
    (if git {
        Seq::empty()
    } else {
        seq!["git"@]
    }) + (if audio {
        Seq::empty()
    } else {
        seq!["audio libs (libportaudio)"@]
    }) + (if curl {
        Seq::empty()
    } else {
        seq!["curl"@]
    })
}

/// What a scan says of the system packages on Linux: all of git, the audio
/// libraries and curl have to be there.
pub open spec fn packages_status(git: bool, audio: bool, curl: bool) -> StepStatusModel {
    if git && audio && curl {
        StepStatusModel::Found("git, audio libraries, and curl present"@)
    } else {
        StepStatusModel::NotFound(
            "Missing "@ + joined(missing_names(git, audio, curl), ", "@)
                + " — Go opens your system's own password prompt to install"@,
        )
    }
}

/// Judges the system packages on Linux.
pub fn judge_packages(git: bool, audio: bool, curl: bool) -> (s: StepStatus)
    ensures
        s.deep_view() == packages_status(git, audio, curl),
{
    if git && audio && curl {
        return StepStatus::Found("git, audio libraries, and curl present".to_string());
    }
    let mut missing: Vec<String> = Vec::new();
    if !git {
        push_line(&mut missing, "git".to_string());
    }
    if !audio {
        push_line(&mut missing, "audio libs (libportaudio)".to_string());
    }
    if !curl {
        push_line(&mut missing, "curl".to_string());
    }
    assert(missing.deep_view() =~= missing_names(git, audio, curl));
    let names = join(&missing, ", ");
    StepStatus::NotFound(
        "Missing ".to_string().concat(names.as_str()).concat(
            " — Go opens your system's own password prompt to install",
        ),
    )
}

// ── Reading lists ────────────────────────────────────────────────────────

/// Does conda's list of environments have one called sapphire?
pub open spec fn env_listed(list: Seq<Seq<char>>) -> bool {
    exists|i: int|
        0 <= i < list.len() && (begins(#[trigger] list[i], "sapphire "@) || begins(
            list[i],
            "sapphire\t"@,
        ))
}

/// Looks for the environment in conda's list.
pub fn lists_env(output: &str) -> (b: bool)
    ensures
        b == env_listed(lines(output@)),
{
    let list = lines_of(output);
    let ghost all = list.deep_view();
    for i in 0..list.len()
        invariant
            all == list.deep_view(),
            all == lines(output@),
            forall|j: int|
                0 <= j < i ==> !begins(#[trigger] all[j], "sapphire "@) && !begins(
                    all[j],
                    "sapphire\t"@,
                ),
    {
        assert(all[i as int] == list[i as int]@);
        if starts_with(list[i].as_str(), "sapphire ") || starts_with(
            list[i].as_str(),
            "sapphire\t",
        ) {
            return true;
        }
    }
    false
}

/// Does a trimmed line of a requirements file name a package?
pub open spec fn names_package(line: Seq<char>) -> bool {
    line.len() > 0 && line[0] != '#' && line[0] != '-'
}

/// Does `c` end what a line asks for? The name of a package ends at a blank
/// or at a sign that no name has. An option goes on to a sign that compares
/// or to a bracket, whatever else it holds.
pub open spec fn ends_name(option: bool, c: char) -> bool {
    ||| c == '>' || c == '<' || c == '=' || c == '!' || c == '['
    ||| !option && (white(c) || c == '~' || c == ';' || c == '@' || c == ',')
}

/// What a trimmed line asks for.
pub open spec fn name_on(option: bool, line: Seq<char>) -> Seq<char>
    decreases line.len(),
{
    if line.len() == 0 || ends_name(option, line[0]) {
        Seq::empty()
    } else {
        seq![line[0]] + name_on(option, line.drop_first())
    }
}

/// Reads what a trimmed line asks for.
pub fn read_name(option: bool, line: &str) -> (name: String)
    ensures
        name@ == name_on(option, line@),
{
    let chars = chars_of(line);
    let mut name = String::new();
    let mut i: usize = 0;
    assert(chars@.skip(0) =~= line@);
    assert(name@ + name_on(option, line@) =~= name_on(option, line@));
    while i < chars.len()
        invariant
            i <= chars@.len(),
            name@ + name_on(option, chars@.skip(i as int)) == name_on(option, line@),
        decreases chars@.len() - i,
    {
        let ghost rest = chars@.skip(i as int);
        assert(rest.drop_first() =~= chars@.skip(i + 1));
        let c = chars[i];
        let sign = c == '>' || c == '<' || c == '=' || c == '!' || c == '[';
        let end = is_white(c) || c == '~' || c == ';' || c == '@' || c == ',';
        if sign || (!option && end) {
            assert(name@ + name_on(option, rest) =~= name@);
            return name;
        }
        assert(name@ + (seq![c] + name_on(option, rest.drop_first())) =~= name@.push(c) + name_on(
            option,
            rest.drop_first(),
        ));
        name.push(c);
        i = i + 1;
    }
    assert(name@ + name_on(option, chars@.skip(i as int)) =~= name@);
    name
}

/// The name of the package on a trimmed line: what comes before its version,
/// its extras, a blank or anything else that ends a name.
pub open spec fn package_of(line: Seq<char>) -> Seq<char> {
    name_on(false, line)
}

/// Reads the name of the package on a trimmed line.
pub fn package_on(line: &str) -> (name: String)
    ensures
        name@ == package_of(line@),
{
    read_name(false, line)
}

/// The name of a package is read off its line whatever follows it, a version
/// of any kind, extras or a blank.
pub proof fn law_package_name_is_read(name: Seq<char>, rest: Seq<char>)
    requires
        forall|i: int| 0 <= i < name.len() ==> !ends_name(false, #[trigger] name[i]),
        rest.len() > 0 ==> ends_name(false, rest[0]),
    ensures
        package_of(name + rest) == name,
    decreases name.len(),
{
    let line = name + rest;
    if name.len() == 0 {
        assert(line =~= rest);
    } else {
        let tail = name.drop_first();
        assert forall|i: int| 0 <= i < tail.len() implies !ends_name(
            false,
            #[trigger] tail[i],
        ) by {
            assert(tail[i] == name[i + 1]);
        }
        law_package_name_is_read(tail, rest);
        assert(line.drop_first() =~= tail + rest);
        assert(!ends_name(false, name[0]));
        assert(seq![name[0]] + tail =~= name);
    }
}

/// The package that the first line with one names.
pub open spec fn first_package(list: Seq<Seq<char>>) -> Option<Seq<char>>
    decreases list.len(),
{
    if list.len() == 0 {
        None
    } else if names_package(trimmed(list[0])) {
        Some(package_of(trimmed(list[0])))
    } else {
        first_package(list.drop_first())
    }
}

/// Reads the first package from a requirements file.
pub fn read_first_package(content: &str) -> (p: Option<String>)
    ensures
        p.deep_view() == first_package(lines(content@)),
{
    let list = lines_of(content);
    let ghost all = list.deep_view();
    let mut i: usize = 0;
    assert(all.skip(0) =~= all);
    while i < list.len()
        invariant
            i <= list@.len(),
            all == list.deep_view(),
            all == lines(content@),
            first_package(all) == first_package(all.skip(i as int)),
        decreases list@.len() - i,
    {
        assert(all.skip(i as int)[0] == list[i as int]@);
        assert(all.skip(i as int).drop_first() =~= all.skip(i + 1));
        let line = trim(list[i].as_str());
        let chars = chars_of(line.as_str());
        if chars.len() > 0 && chars[0] != '#' && chars[0] != '-' {
            return Some(package_on(line.as_str()));
        }
        i = i + 1;
    }
    None
}

/// The package whose presence stands for that of all dependencies, if the
/// requirements file could be read and names one.
pub open spec fn probe_package(content: Option<Seq<char>>) -> Option<Seq<char>> {
    match content {
        None => None,
        Some(text) => match first_package(lines(text)) {
            Some(p) if p.len() > 0 => Some(p),
            _ => None,
        },
    }
}

fn package_to_probe(content: Option<String>) -> (p: Option<String>)
    ensures
        p.deep_view() == probe_package(content.deep_view()),
{
    match content {
        None => None,
        Some(text) => match read_first_package(text.as_str()) {
            None => None,
            Some(p) => {
                if p.as_str().is_empty() {
                    None
                } else {
                    Some(p)
                }
            },
        },
    }
}

// ── The checks ───────────────────────────────────────────────────────────

/// A check of one step, at the point that it has reached.
#[derive(Debug, Clone)]
pub enum ScanJob {
    /// Check the system packages.
    Git,
    /// Windows: git was asked for its version.
    GitVersion,
    /// Linux: git was asked for its version.
    GitSeen,
    /// Linux: the audio libraries were looked for.
    AudioSeen(bool),
    /// Linux: curl was looked for.
    CurlSeen(bool, bool),
    /// Check conda.
    Conda,
    CondaVersion,
    CondaPlaces,
    /// Check that conda is initialized.
    CondaInit,
    CondaInfo,
    /// Check the Python environment.
    PythonEnv,
    EnvList,
    /// Check the repository at a path.
    Clone(String),
    CloneSeen(String),
    /// Check the dependencies of the installation at a path.
    Deps(String),
    DepsSeen(String),
    DepsRead,
    DepsShown(String),
}

/// `ScanJob` with its texts as character sequences.
#[verifier::ext_equal]
pub enum ScanJobModel {
    Git,
    GitVersion,
    GitSeen,
    AudioSeen(bool),
    CurlSeen(bool, bool),
    Conda,
    CondaVersion,
    CondaPlaces,
    CondaInit,
    CondaInfo,
    PythonEnv,
    EnvList,
    Clone(Seq<char>),
    CloneSeen(Seq<char>),
    Deps(Seq<char>),
    DepsSeen(Seq<char>),
    DepsRead,
    DepsShown(Seq<char>),
}

impl DeepView for ScanJob {
    type V = ScanJobModel;

    open spec fn deep_view(&self) -> ScanJobModel {
        match self {
            ScanJob::Git => ScanJobModel::Git,
            ScanJob::GitVersion => ScanJobModel::GitVersion,
            ScanJob::GitSeen => ScanJobModel::GitSeen,
            ScanJob::AudioSeen(g) => ScanJobModel::AudioSeen(*g),
            ScanJob::CurlSeen(g, a) => ScanJobModel::CurlSeen(*g, *a),
            ScanJob::Conda => ScanJobModel::Conda,
            ScanJob::CondaVersion => ScanJobModel::CondaVersion,
            ScanJob::CondaPlaces => ScanJobModel::CondaPlaces,
            ScanJob::CondaInit => ScanJobModel::CondaInit,
            ScanJob::CondaInfo => ScanJobModel::CondaInfo,
            ScanJob::PythonEnv => ScanJobModel::PythonEnv,
            ScanJob::EnvList => ScanJobModel::EnvList,
            ScanJob::Clone(p) => ScanJobModel::Clone(p@),
            ScanJob::CloneSeen(p) => ScanJobModel::CloneSeen(p@),
            ScanJob::Deps(p) => ScanJobModel::Deps(p@),
            ScanJob::DepsSeen(p) => ScanJobModel::DepsSeen(p@),
            ScanJob::DepsRead => ScanJobModel::DepsRead,
            ScanJob::DepsShown(p) => ScanJobModel::DepsShown(p@),
        }
    }
}

/// The message that ends a check.
pub open spec fn scanned(step: Step, status: StepStatusModel) -> NextModel<ScanJobModel> {
    NextModel::Finish(MessageModel::StepResult(step, status))
}

/// What a scan says of conda.
pub open spec fn conda_status(found: Option<Seq<char>>) -> StepStatusModel {
    match found {
        Some(p) => StepStatusModel::Found("Found at "@ + p),
        None => StepStatusModel::NotFound("Miniconda not found — we'll install it"@),
    }
}

/// What a scan says of the Python environment, given conda's list.
pub open spec fn env_status(list: Result<Seq<char>, Seq<char>>) -> StepStatusModel {
    match list {
        Ok(text) => if env_listed(lines(text)) {
            StepStatusModel::Found("'sapphire' environment exists"@)
        } else {
            StepStatusModel::NotFound("Will create 'sapphire' Python 3.11 environment"@)
        },
        Err(_) => StepStatusModel::NotFound(
            "Need conda first, then we'll create the environment"@,
        ),
    }
}

/// What a scan says of the repository, given whether it is one and whether
/// the path exists.
pub open spec fn clone_status(path: Seq<char>, repo: bool, there: bool) -> StepStatusModel {
    if repo {
        StepStatusModel::Found("Repo already at "@ + path)
    } else if there {
        StepStatusModel::NotFound("Folder exists but no git repo — will clone into "@ + path)
    } else {
        StepStatusModel::NotFound("Will clone Sapphire into "@ + path)
    }
}

/// How a check goes on with a reply.
pub open spec fn scan_next(h: HostModel, job: ScanJobModel, r: ReplyModel) -> NextModel<ScanJobModel> {
    match job {
        ScanJobModel::Git => run(
            command(ProgramModel::Git, seq!["--version"@]),
            match h.platform {
                Platform::Windows => ScanJobModel::GitVersion,
                Platform::Linux => ScanJobModel::GitSeen,
            },
        ),
        ScanJobModel::GitVersion => scanned(
            Step::Git,
            match r.brief() {
                Ok(version) => StepStatusModel::Found(version),
                Err(_) => StepStatusModel::NotFound("Git not found — we'll install it"@),
            },
        ),
        ScanJobModel::GitSeen => run(
            named("sh"@, seq!["-c"@, "ldconfig -p 2>/dev/null | grep -qi portaudio"@]),
            ScanJobModel::AudioSeen(r.worked()),
        ),
        ScanJobModel::AudioSeen(git) => run(
            named("sh"@, seq!["-c"@, "command -v curl >/dev/null 2>&1"@]),
            ScanJobModel::CurlSeen(git, r.worked()),
        ),
        ScanJobModel::CurlSeen(git, audio) => scanned(
            Step::Git,
            packages_status(git, audio, r.worked()),
        ),
        ScanJobModel::Conda => run(
            command(ProgramModel::Conda, seq!["--version"@]),
            ScanJobModel::CondaVersion,
        ),
        ScanJobModel::CondaVersion => match r.brief() {
            Ok(version) => scanned(Step::Conda, StepStatusModel::Found(version)),
            Err(_) => NextModel::Ask(
                RequestModel::Probe(h.conda_scan_places()),
                ScanJobModel::CondaPlaces,
            ),
        },
        ScanJobModel::CondaPlaces => scanned(
            Step::Conda,
            conda_status(first_found(h.conda_scan_places(), r.flags())),
        ),
        ScanJobModel::CondaInit => run(
            command(ProgramModel::Conda, seq!["info"@, "--json"@]),
            ScanJobModel::CondaInfo,
        ),
        ScanJobModel::CondaInfo => scanned(
            Step::CondaInit,
            if r.worked() {
                StepStatusModel::Found("Conda is initialized"@)
            } else {
                StepStatusModel::NotFound("Will run conda init after install"@)
            },
        ),
        ScanJobModel::PythonEnv => run(
            command(ProgramModel::Conda, seq!["env"@, "list"@]),
            ScanJobModel::EnvList,
        ),
        ScanJobModel::EnvList => scanned(Step::PythonEnv, env_status(r.brief())),
        ScanJobModel::Clone(path) => NextModel::Ask(
            RequestModel::Probe(seq![h.path(path, ".git"@), path]),
            ScanJobModel::CloneSeen(path),
        ),
        ScanJobModel::CloneSeen(path) => scanned(
            Step::Clone,
            clone_status(path, r.found(0), r.found(1)),
        ),
        ScanJobModel::Deps(path) => NextModel::Ask(
            RequestModel::Probe(seq![h.path(path, "requirements.txt"@)]),
            ScanJobModel::DepsSeen(path),
        ),
        ScanJobModel::DepsSeen(path) => if r.found(0) {
            NextModel::Ask(
                RequestModel::Read(h.path(path, "requirements.txt"@)),
                ScanJobModel::DepsRead,
            )
        } else {
            scanned(Step::Deps, StepStatusModel::NotFound("Will install after cloning"@))
        },
        ScanJobModel::DepsRead => match probe_package(r.text()) {
            None => scanned(
                Step::Deps,
                StepStatusModel::Found("requirements.txt is empty — nothing to install"@),
            ),
            Some(p) => run(
                command(ProgramModel::Pip, seq!["show"@, p]),
                ScanJobModel::DepsShown(p),
            ),
        },
        ScanJobModel::DepsShown(p) => scanned(
            Step::Deps,
            if r.worked() {
                StepStatusModel::Found("Dependencies installed"@)
            } else {
                StepStatusModel::NotFound(
                    "Dependencies missing (no '"@ + p + "') — will install"@,
                )
            },
        ),
    }
}

fn done(step: Step, status: StepStatus) -> (n: Next<ScanJob>)
    ensures
        n.deep_view() == scanned(step, status.deep_view()),
{
    Next::Finish(Message::StepResult(step, status))
}

impl ScanJob {
    /// Goes on with a reply.
    pub fn advance(self, host: &Host, reply: &Reply) -> (next: Next<ScanJob>)
        ensures
            next.deep_view() == scan_next(host.deep_view(), self.deep_view(), reply.deep_view()),
    {
        match self {
            ScanJob::Git => {
                let after = match host.platform {
                    Platform::Windows => ScanJob::GitVersion,
                    Platform::Linux => ScanJob::GitSeen,
                };
                Next::Ask(Request::Run(cmd(Program::Git, &["--version"])), after)
            },
            ScanJob::GitVersion => match reply.brief() {
                Ok(version) => done(Step::Git, StepStatus::Found(version)),
                Err(_) => done(
                    Step::Git,
                    StepStatus::NotFound("Git not found — we'll install it".to_string()),
                ),
            },
            ScanJob::GitSeen => Next::Ask(
                Request::Run(
                    named_cmd("sh", &["-c", "ldconfig -p 2>/dev/null | grep -qi portaudio"]),
                ),
                ScanJob::AudioSeen(reply.worked()),
            ),
            ScanJob::AudioSeen(git) => Next::Ask(
                Request::Run(named_cmd("sh", &["-c", "command -v curl >/dev/null 2>&1"])),
                ScanJob::CurlSeen(git, reply.worked()),
            ),
            ScanJob::CurlSeen(git, audio) => done(
                Step::Git,
                judge_packages(git, audio, reply.worked()),
            ),
            ScanJob::Conda => Next::Ask(
                Request::Run(cmd(Program::Conda, &["--version"])),
                ScanJob::CondaVersion,
            ),
            ScanJob::CondaVersion => match reply.brief() {
                Ok(version) => done(Step::Conda, StepStatus::Found(version)),
                Err(_) => Next::Ask(Request::Probe(host.conda_scan_places()), ScanJob::CondaPlaces),
            },
            ScanJob::CondaPlaces => match first_existing(
                &host.conda_scan_places(),
                &reply.flags(),
            ) {
                Some(p) => done(
                    Step::Conda,
                    StepStatus::Found("Found at ".to_string().concat(p.as_str())),
                ),
                None => done(
                    Step::Conda,
                    StepStatus::NotFound("Miniconda not found — we'll install it".to_string()),
                ),
            },
            ScanJob::CondaInit => Next::Ask(
                Request::Run(cmd(Program::Conda, &["info", "--json"])),
                ScanJob::CondaInfo,
            ),
            ScanJob::CondaInfo => if reply.worked() {
                done(Step::CondaInit, StepStatus::Found("Conda is initialized".to_string()))
            } else {
                done(
                    Step::CondaInit,
                    StepStatus::NotFound("Will run conda init after install".to_string()),
                )
            },
            ScanJob::PythonEnv => Next::Ask(
                Request::Run(cmd(Program::Conda, &["env", "list"])),
                ScanJob::EnvList,
            ),
            ScanJob::EnvList => match reply.brief() {
                Ok(text) => if lists_env(text.as_str()) {
                    done(
                        Step::PythonEnv,
                        StepStatus::Found("'sapphire' environment exists".to_string()),
                    )
                } else {
                    done(
                        Step::PythonEnv,
                        StepStatus::NotFound(
                            "Will create 'sapphire' Python 3.11 environment".to_string(),
                        ),
                    )
                },
                Err(_) => done(
                    Step::PythonEnv,
                    StepStatus::NotFound(
                        "Need conda first, then we'll create the environment".to_string(),
                    ),
                ),
            },
            ScanJob::Clone(path) => {
                let git_dir = host.path(path.as_str(), ".git");
                Next::Ask(
                    Request::Probe(words(&[git_dir.as_str(), path.as_str()])),
                    ScanJob::CloneSeen(path),
                )
            },
            ScanJob::CloneSeen(path) => {
                let status = if reply.found(0) {
                    StepStatus::Found("Repo already at ".to_string().concat(path.as_str()))
                } else if reply.found(1) {
                    StepStatus::NotFound(
                        "Folder exists but no git repo — will clone into ".to_string().concat(
                            path.as_str(),
                        ),
                    )
                } else {
                    StepStatus::NotFound(
                        "Will clone Sapphire into ".to_string().concat(path.as_str()),
                    )
                };
                done(Step::Clone, status)
            },
            ScanJob::Deps(path) => {
                let req = host.path(path.as_str(), "requirements.txt");
                Next::Ask(Request::Probe(words(&[req.as_str()])), ScanJob::DepsSeen(path))
            },
            ScanJob::DepsSeen(path) => if reply.found(0) {
                Next::Ask(
                    Request::Read(host.path(path.as_str(), "requirements.txt")),
                    ScanJob::DepsRead,
                )
            } else {
                done(Step::Deps, StepStatus::NotFound("Will install after cloning".to_string()))
            },
            ScanJob::DepsRead => match package_to_probe(reply.text()) {
                None => done(
                    Step::Deps,
                    StepStatus::Found("requirements.txt is empty — nothing to install".to_string()),
                ),
                Some(p) => Next::Ask(
                    Request::Run(cmd(Program::Pip, &["show", p.as_str()])),
                    ScanJob::DepsShown(p),
                ),
            },
            ScanJob::DepsShown(p) => if reply.worked() {
                done(Step::Deps, StepStatus::Found("Dependencies installed".to_string()))
            } else {
                done(
                    Step::Deps,
                    StepStatus::NotFound(
                        "Dependencies missing (no '".to_string().concat(p.as_str()).concat(
                            "') — will install",
                        ),
                    ),
                )
            },
        }
    }
}

} // verus!

//! Finding git, conda and pip on disk, so that none of them has to be on the
//! search path.
use crate::ask::{Reply, ReplyModel, Request, RequestModel};
use crate::host::{first_existing, first_found, Host, HostModel, Platform};
use crate::parts::{named, named_cmd, Cmd, CmdModel, Program, ProgramModel};
use crate::text::{first_line, head_line, push_lines, trim, trimmed, words};
use vstd::prelude::*;

verus! {

/// The search for a program, at the point that it has reached.
#[derive(Debug, Clone)]
pub enum Search {
    Git,
    GitPlaces,
    /// The system was asked where git is.
    GitAsked,
    /// The system named this place.
    GitNamed(String),
    /// Find conda; is it wanted for pip?
    Conda(bool),
    CondaPlaces(bool),
    CondaAsked(bool),
    CondaNamed(bool, String),
    Pip,
    PipPlaces,
}

/// `Search` with its text as a character sequence.
#[verifier::ext_equal]
pub enum SearchModel {
    Git,
    GitPlaces,
    GitAsked,
    GitNamed(Seq<char>),
    Conda(bool),
    CondaPlaces(bool),
    CondaAsked(bool),
    CondaNamed(bool, Seq<char>),
    Pip,
    PipPlaces,
}

impl DeepView for Search {
    type V = SearchModel;

    open spec fn deep_view(&self) -> SearchModel {
        match self {
            Search::Git => SearchModel::Git,
            Search::GitPlaces => SearchModel::GitPlaces,
            Search::GitAsked => SearchModel::GitAsked,
            Search::GitNamed(s) => SearchModel::GitNamed(s@),
            Search::Conda(pip) => SearchModel::Conda(*pip),
            Search::CondaPlaces(pip) => SearchModel::CondaPlaces(*pip),
            Search::CondaAsked(pip) => SearchModel::CondaAsked(*pip),
            Search::CondaNamed(pip, s) => SearchModel::CondaNamed(*pip, s@),
            Search::Pip => SearchModel::Pip,
            Search::PipPlaces => SearchModel::PipPlaces,
        }
    }
}

/// How a search goes on: it asks and waits, or it has found how to run the
/// program.
pub enum Found {
    Ask(Request, Search),
    Run(Cmd),
}

/// `Found` with its texts as character sequences.
#[verifier::ext_equal]
pub enum FoundModel {
    Ask(RequestModel, SearchModel),
    Run(CmdModel),
}

impl DeepView for Found {
    type V = FoundModel;

    open spec fn deep_view(&self) -> FoundModel {
        match self {
            Found::Ask(r, s) => FoundModel::Ask(r.deep_view(), s.deep_view()),
            Found::Run(c) => FoundModel::Run(c.deep_view()),
        }
    }
}

/// The place that the system names for a program: on Linux all that `which`
/// printed, on Windows the first line of what `where` printed.
pub open spec fn named_place(p: Platform, r: ReplyModel) -> Seq<char> {
    match r {
        ReplyModel::Output(o) if o.success => match p {
            Platform::Linux => trimmed(o.stdout),
            Platform::Windows => trimmed(first_line(o.stdout)),
        },
        _ => ""@,
    }
}

/// conda itself, or pip by way of conda.
pub open spec fn conda_found(pip: bool, program: Seq<char>) -> FoundModel {
    FoundModel::Run(
        if pip {
            named(program, seq!["run"@, "-n"@, "sapphire"@, "pip"@])
        } else {
            named(program, Seq::empty())
        },
    )
}

/// How a search goes on with a reply.
pub open spec fn search_next(h: HostModel, s: SearchModel, r: ReplyModel) -> FoundModel {
    let ask_git = FoundModel::Ask(
        RequestModel::Run(
            match h.platform {
                Platform::Linux => named("which"@, seq!["git"@]),
                Platform::Windows => named("cmd"@, seq!["/c"@, "where"@, "git"@]),
            },
        ),
        SearchModel::GitAsked,
    );
    match s {
        SearchModel::Git => match h.platform {
            Platform::Linux => ask_git,
            Platform::Windows => FoundModel::Ask(
                RequestModel::Probe(h.git_places()),
                SearchModel::GitPlaces,
            ),
        },
        SearchModel::GitPlaces => match first_found(h.git_places(), r.flags()) {
            Some(p) => FoundModel::Run(named(p, Seq::empty())),
            None => ask_git,
        },
        SearchModel::GitAsked => {
            let place = named_place(h.platform, r);
            if place.len() == 0 {
                FoundModel::Run(named("git"@, Seq::empty()))
            } else {
                FoundModel::Ask(RequestModel::Probe(seq![place]), SearchModel::GitNamed(place))
            }
        },
        SearchModel::GitNamed(place) => FoundModel::Run(
            if r.found(0) {
                named(place, Seq::empty())
            } else {
                named("git"@, Seq::empty())
            },
        ),
        SearchModel::Conda(pip) => FoundModel::Ask(
            RequestModel::Probe(h.conda_places()),
            SearchModel::CondaPlaces(pip),
        ),
        SearchModel::CondaPlaces(pip) => match first_found(h.conda_places(), r.flags()) {
            Some(p) => conda_found(pip, p),
            None => match h.platform {
                Platform::Linux => FoundModel::Ask(
                    RequestModel::Run(named("which"@, seq!["conda"@])),
                    SearchModel::CondaAsked(pip),
                ),
                Platform::Windows => conda_found(pip, "conda"@),
            },
        },
        SearchModel::CondaAsked(pip) => {
            let place = named_place(h.platform, r);
            if place.len() == 0 {
                conda_found(pip, "conda"@)
            } else {
                FoundModel::Ask(
                    RequestModel::Probe(seq![place]),
                    SearchModel::CondaNamed(pip, place),
                )
            }
        },
        SearchModel::CondaNamed(pip, place) => conda_found(
            pip,
            if r.found(0) {
                place
            } else {
                "conda"@
            },
        ),
        SearchModel::Pip => FoundModel::Ask(
            RequestModel::Probe(h.pip_places()),
            SearchModel::PipPlaces,
        ),
        SearchModel::PipPlaces => match first_found(h.pip_places(), r.flags()) {
            Some(p) => FoundModel::Run(named(p, Seq::empty())),
            None => FoundModel::Ask(
                RequestModel::Probe(h.conda_places()),
                SearchModel::CondaPlaces(true),
            ),
        },
    }
}

fn place_of(host: &Host, reply: &Reply) -> (s: String)
    ensures
        s@ == named_place(host.platform, reply.deep_view()),
{
    match reply {
        Reply::Output(o) => if o.success {
            match host.platform {
                Platform::Linux => trim(o.stdout.as_str()),
                Platform::Windows => {
                    let line = head_line(o.stdout.as_str());
                    trim(line.as_str())
                },
            }
        } else {
            "".to_string()
        },
        _ => "".to_string(),
    }
}

fn ask_for_git(host: &Host) -> (f: Found)
    ensures
        f.deep_view() == FoundModel::Ask(
            RequestModel::Run(
                match host.platform {
                    Platform::Linux => named("which"@, seq!["git"@]),
                    Platform::Windows => named("cmd"@, seq!["/c"@, "where"@, "git"@]),
                },
            ),
            SearchModel::GitAsked,
        ),
{
    let c = match host.platform {
        Platform::Linux => named_cmd("which", &["git"]),
        Platform::Windows => named_cmd("cmd", &["/c", "where", "git"]),
    };
    Found::Ask(Request::Run(c), Search::GitAsked)
}

fn run_conda(pip: bool, program: &str) -> (f: Found)
    ensures
        f.deep_view() == conda_found(pip, program@),
{
    if pip {
        Found::Run(named_cmd(program, &["run", "-n", "sapphire", "pip"]))
    } else {
        Found::Run(named_cmd(program, &[]))
    }
}

impl Search {
    /// Goes on with a reply.
    pub fn advance(self, host: &Host, reply: &Reply) -> (f: Found)
        ensures
            f.deep_view() == search_next(host.deep_view(), self.deep_view(), reply.deep_view()),
    {
        match self {
            Search::Git => match host.platform {
                Platform::Linux => ask_for_git(host),
                Platform::Windows => Found::Ask(
                    Request::Probe(host.git_places()),
                    Search::GitPlaces,
                ),
            },
            Search::GitPlaces => match first_existing(&host.git_places(), &reply.flags()) {
                Some(p) => Found::Run(named_cmd(p.as_str(), &[])),
                None => ask_for_git(host),
            },
            Search::GitAsked => {
                let place = place_of(host, reply);
                if place.as_str().is_empty() {
                    Found::Run(named_cmd("git", &[]))
                } else {
                    Found::Ask(Request::Probe(words(&[place.as_str()])), Search::GitNamed(place))
                }
            },
            Search::GitNamed(place) => if reply.found(0) {
                Found::Run(named_cmd(place.as_str(), &[]))
            } else {
                Found::Run(named_cmd("git", &[]))
            },
            Search::Conda(pip) => Found::Ask(
                Request::Probe(host.conda_places()),
                Search::CondaPlaces(pip),
            ),
            Search::CondaPlaces(pip) => match first_existing(
                &host.conda_places(),
                &reply.flags(),
            ) {
                Some(p) => run_conda(pip, p.as_str()),
                None => match host.platform {
                    Platform::Linux => Found::Ask(
                        Request::Run(named_cmd("which", &["conda"])),
                        Search::CondaAsked(pip),
                    ),
                    Platform::Windows => run_conda(pip, "conda"),
                },
            },
            Search::CondaAsked(pip) => {
                let place = place_of(host, reply);
                if place.as_str().is_empty() {
                    run_conda(pip, "conda")
                } else {
                    Found::Ask(
                        Request::Probe(words(&[place.as_str()])),
                        Search::CondaNamed(pip, place),
                    )
                }
            },
            Search::CondaNamed(pip, place) => if reply.found(0) {
                run_conda(pip, place.as_str())
            } else {
                run_conda(pip, "conda")
            },
            Search::Pip => Found::Ask(Request::Probe(host.pip_places()), Search::PipPlaces),
            Search::PipPlaces => match first_existing(&host.pip_places(), &reply.flags()) {
                Some(p) => Found::Run(named_cmd(p.as_str(), &[])),
                None => Found::Ask(
                    Request::Probe(host.conda_places()),
                    Search::CondaPlaces(true),
                ),
            },
        }
    }
}

/// The search that a program has to be found with; none for one that goes by
/// its name.
pub open spec fn search_for(p: ProgramModel) -> Option<SearchModel> {
    match p {
        ProgramModel::Named(_) => None,
        ProgramModel::Git => Some(SearchModel::Git),
        ProgramModel::Conda => Some(SearchModel::Conda(false)),
        ProgramModel::Pip => Some(SearchModel::Pip),
    }
}

/// Chooses the search that a program has to be found with.
pub fn search_of(p: &Program) -> (s: Option<Search>)
    ensures
        s.deep_view() == search_for(p.deep_view()),
{
    match p {
        Program::Named(_) => None,
        Program::Git => Some(Search::Git),
        Program::Conda => Some(Search::Conda(false)),
        Program::Pip => Some(Search::Pip),
    }
}

/// The command that runs what was found with the arguments of `c`.
pub open spec fn run_there(found: CmdModel, c: CmdModel) -> CmdModel {
    CmdModel { program: found.program, args: found.args + c.args }
}

/// Makes the command that runs what was found with the arguments of `c`.
pub fn place_command(found: Cmd, c: Cmd) -> (out: Cmd)
    ensures
        out.deep_view() == run_there(found.deep_view(), c.deep_view()),
{
    let mut args = found.args;
    push_lines(&mut args, c.args);
    Cmd { program: found.program, args }
}

/// The command that a search ends with, if it is over after `steps` requests
/// at most and is answered by `replies`, one after the other.
pub open spec fn search_outcome(
    h: HostModel,
    next: FoundModel,
    replies: spec_fn(nat) -> ReplyModel,
    steps: nat,
) -> Option<CmdModel>
    decreases steps,
{
    match next {
        FoundModel::Run(c) => Some(c),
        FoundModel::Ask(_, s) => if steps == 0 {
            None
        } else {
            search_outcome(h, search_next(h, s, replies(steps)), replies, (steps - 1) as nat)
        },
    }
}

/// Every search comes to a program that goes by a name, after four requests
/// at most, whatever is answered: one that was found, or else the bare name.
pub proof fn law_search_ends(
    h: HostModel,
    p: ProgramModel,
    r: ReplyModel,
    replies: spec_fn(nat) -> ReplyModel,
)
    requires
        search_for(p) is Some,
    ensures
        search_outcome(h, search_next(h, search_for(p)->0, r), replies, 4) matches Some(c)
            && c.program is Named,
{
    reveal_with_fuel(search_outcome, 5);
}

/// A program that is in one of its usual places is run from there, whatever
/// the search path says: conda and pip everywhere, git on Windows.
pub proof fn law_program_on_disk_is_used(
    h: HostModel,
    r: ReplyModel,
    replies: spec_fn(nat) -> ReplyModel,
    place: Seq<char>,
)
    ensures
        first_found(h.conda_places(), replies(4).flags()) == Some(place) ==> search_outcome(
            h,
            search_next(h, SearchModel::Conda(false), r),
            replies,
            4,
        ) == Some(named(place, Seq::empty())),
        first_found(h.pip_places(), replies(4).flags()) == Some(place) ==> search_outcome(
            h,
            search_next(h, SearchModel::Pip, r),
            replies,
            4,
        ) == Some(named(place, Seq::empty())),
        h.platform == Platform::Windows && first_found(h.git_places(), replies(4).flags()) == Some(
            place,
        ) ==> search_outcome(h, search_next(h, SearchModel::Git, r), replies, 4) == Some(
            named(place, Seq::empty()),
        ),
{
    reveal_with_fuel(search_outcome, 5);
}

} // verus!

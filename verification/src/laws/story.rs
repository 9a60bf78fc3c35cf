//! A whole job, from its first request to the message that ends it.
use crate::ask::{NextModel, ReplyModel, RequestModel};
use crate::host::HostModel;
use crate::job::{job_next, JobModel};
use crate::message::MessageModel;
use crate::parts::{Branch, CmdModel, ProgramModel};
use crate::text::trimmed;
use vstd::prelude::*;

verus! {

/// What a job asks for, one after the other, and what it ends with, if it
/// ends.
#[verifier::ext_equal]
pub struct Story {
    pub asked: Seq<RequestModel>,
    pub end: Option<MessageModel>,
}

/// The story from a point on, where the answers from the `i`-th on are still
/// to come.
pub open spec fn going_on(
    h: HostModel,
    next: NextModel<JobModel>,
    replies: Seq<ReplyModel>,
    i: int,
    asked: Seq<RequestModel>,
) -> Story
    decreases replies.len() - i,
{
    match next {
        NextModel::Finish(m) => Story { asked, end: Some(m) },
        NextModel::Ask(request, job) => if i >= replies.len() {
            Story { asked: asked.push(request), end: None }
        } else {
            going_on(h, job_next(h, job, replies[i]), replies, i + 1, asked.push(request))
        },
    }
}

/// The story of a job whose requests are answered by `replies`, one after
/// the other.
pub open spec fn story(h: HostModel, job: JobModel, replies: Seq<ReplyModel>) -> Story {
    going_on(h, job_next(h, job, ReplyModel::Begin), replies, 0, Seq::empty())
}

// ── Answers ──────────────────────────────────────────────────────────────

/// Did a command run, and exit with success?
pub open spec fn ran_well(r: ReplyModel) -> bool {
    r matches ReplyModel::Output(o) && o.success
}

/// What a command printed to both its streams, without the blanks round it,
/// or why it could not be run.
pub open spec fn printed(r: ReplyModel) -> Seq<char> {
    match r {
        ReplyModel::Output(o) => trimmed(o.stdout + o.stderr),
        ReplyModel::Failed(why) => why,
        _ => Seq::empty(),
    }
}

/// Was the `i`-th thing that was asked about said to be so?
pub open spec fn yes(r: ReplyModel, i: int) -> bool {
    r matches ReplyModel::Found(l) && 0 <= i < l.len() && l[i]
}

/// Was it done?
pub open spec fn was_done(r: ReplyModel) -> bool {
    r matches ReplyModel::Done(None)
}

/// Why it was not done.
pub open spec fn reason(r: ReplyModel) -> Seq<char> {
    match r {
        ReplyModel::Done(Some(why)) => why,
        ReplyModel::Failed(why) => why,
        _ => Seq::empty(),
    }
}

// ── Commands ─────────────────────────────────────────────────────────────

/// Git, with these words.
pub open spec fn git(words: Seq<Seq<char>>) -> RequestModel {
    RequestModel::Run(CmdModel { program: ProgramModel::Git, args: words })
}

/// Conda, with these words.
pub open spec fn conda(words: Seq<Seq<char>>) -> RequestModel {
    RequestModel::Run(CmdModel { program: ProgramModel::Conda, args: words })
}

/// The pip of Sapphire's environment, with these words.
pub open spec fn pip(words: Seq<Seq<char>>) -> RequestModel {
    RequestModel::Run(CmdModel { program: ProgramModel::Pip, args: words })
}

/// The program of this name, with these words.
pub open spec fn tool(name: Seq<char>, words: Seq<Seq<char>>) -> RequestModel {
    RequestModel::Run(CmdModel { program: ProgramModel::Named(name), args: words })
}

/// The name of a branch in the repository.
pub open spec fn in_repository(b: Branch) -> Seq<char> {
    if b == Branch::Development {
        "dev"@
    } else {
        "main"@
    }
}

} // verus!

//! How a job talks to the outside: it asks for one thing at a time and goes
//! on with the reply.
use crate::message::{Message, MessageModel};
use crate::output::{
    brief, brief_of, full, full_of, result_model, show_code, shown_code, Output, OutputModel,
};
use crate::parts::{Cmd, CmdModel};
use crate::text::signed_decimal;
use vstd::prelude::*;

verus! {

/// One thing that a job wants done.
#[derive(Debug, Clone)]
pub enum Request {
    /// Run a command to its end.
    Run(Cmd),
    /// Run a command to its end and show its output line by line meanwhile.
    RunLive(Cmd),
    /// Say of each path whether it exists.
    Probe(Vec<String>),
    /// Say whether a directory can be read and holds nothing.
    DirEmpty(String),
    /// Read a text file.
    Read(String),
    /// Create a directory and those above it.
    CreateDir(String),
    /// Write a text file: its path, then its content.
    Write(String, String),
    /// Delete a directory with all that is in it.
    RemoveDir(String),
    /// Delete a file.
    RemoveFile(String),
    /// Copy a file: from, then to.
    CopyFile(String, String),
    /// Let nobody but the owner read or write a file.
    Protect(String),
    /// Wait, in milliseconds.
    Sleep(u64),
    /// Turn a number of megabytes into rounded gigabytes.
    Gigabytes(String),
}

/// `Request` with its texts as character sequences.
#[verifier::ext_equal]
pub enum RequestModel {
    Run(CmdModel),
    RunLive(CmdModel),
    Probe(Seq<Seq<char>>),
    DirEmpty(Seq<char>),
    Read(Seq<char>),
    CreateDir(Seq<char>),
    Write(Seq<char>, Seq<char>),
    RemoveDir(Seq<char>),
    RemoveFile(Seq<char>),
    CopyFile(Seq<char>, Seq<char>),
    Protect(Seq<char>),
    Sleep(u64),
    Gigabytes(Seq<char>),
}

impl DeepView for Request {
    type V = RequestModel;

    open spec fn deep_view(&self) -> RequestModel {
        match self {
            Request::Run(c) => RequestModel::Run(c.deep_view()),
            Request::RunLive(c) => RequestModel::RunLive(c.deep_view()),
            Request::Probe(l) => RequestModel::Probe(l.deep_view()),
            Request::DirEmpty(p) => RequestModel::DirEmpty(p@),
            Request::Read(p) => RequestModel::Read(p@),
            Request::CreateDir(p) => RequestModel::CreateDir(p@),
            Request::Write(p, s) => RequestModel::Write(p@, s@),
            Request::RemoveDir(p) => RequestModel::RemoveDir(p@),
            Request::RemoveFile(p) => RequestModel::RemoveFile(p@),
            Request::CopyFile(p, q) => RequestModel::CopyFile(p@, q@),
            Request::Protect(p) => RequestModel::Protect(p@),
            Request::Sleep(ms) => RequestModel::Sleep(*ms),
            Request::Gigabytes(s) => RequestModel::Gigabytes(s@),
        }
    }
}

/// The answer to a request.
#[derive(Debug, Clone)]
pub enum Reply {
    /// Nothing was asked yet.
    Begin,
    /// A command ran to its end.
    Output(Output),
    /// A command could not be run, or something broke off; why.
    Failed(String),
    /// Of each path, or of the one directory, whether it is so.
    Found(Vec<bool>),
    /// A text, where there is one.
    Text(Option<String>),
    /// Something was done, or why it was not.
    Done(Option<String>),
}

/// `Reply` with its texts as character sequences.
#[verifier::ext_equal]
pub enum ReplyModel {
    Begin,
    Output(OutputModel),
    Failed(Seq<char>),
    Found(Seq<bool>),
    Text(Option<Seq<char>>),
    Done(Option<Seq<char>>),
}

impl DeepView for Reply {
    type V = ReplyModel;

    open spec fn deep_view(&self) -> ReplyModel {
        match self {
            Reply::Begin => ReplyModel::Begin,
            Reply::Output(o) => ReplyModel::Output(o.deep_view()),
            Reply::Failed(s) => ReplyModel::Failed(s@),
            Reply::Found(l) => ReplyModel::Found(l@),
            Reply::Text(t) => ReplyModel::Text(t.deep_view()),
            Reply::Done(e) => ReplyModel::Done(e.deep_view()),
        }
    }
}

impl ReplyModel {
    /// The reply of a command in full.
    pub open spec fn full(self) -> Result<Seq<char>, Seq<char>> {
        match self {
            ReplyModel::Output(o) => full(o),
            ReplyModel::Failed(why) => Err(why),
            _ => Err(Seq::empty()),
        }
    }

    /// The reply of a command in brief.
    pub open spec fn brief(self) -> Result<Seq<char>, Seq<char>> {
        match self {
            ReplyModel::Output(o) => brief(o),
            ReplyModel::Failed(why) => Err(why),
            _ => Err(Seq::empty()),
        }
    }

    /// The reply of a command whose output was shown meanwhile: nothing, or
    /// why it failed.
    pub open spec fn live(self) -> Result<Seq<char>, Seq<char>> {
        match self {
            ReplyModel::Output(o) => if o.success {
                Ok(""@)
            } else {
                Err("exit code "@ + signed_decimal(shown_code(o.code)))
            },
            ReplyModel::Failed(why) => Err(why),
            _ => Err(Seq::empty()),
        }
    }

    /// Did a command run to its end with success?
    pub open spec fn worked(self) -> bool {
        self.full() is Ok
    }

    /// Is the `i`-th thing that was asked about so?
    pub open spec fn found(self, i: int) -> bool {
        match self {
            ReplyModel::Found(l) => 0 <= i < l.len() && l[i],
            _ => false,
        }
    }

    /// Of each thing that was asked about, whether it is so.
    pub open spec fn flags(self) -> Seq<bool> {
        match self {
            ReplyModel::Found(l) => l,
            _ => Seq::empty(),
        }
    }

    /// The text that was asked for.
    pub open spec fn text(self) -> Option<Seq<char>> {
        match self {
            ReplyModel::Text(t) => t,
            _ => None,
        }
    }

    /// Why something was not done: nothing, if it was.
    pub open spec fn failure(self) -> Option<Seq<char>> {
        match self {
            ReplyModel::Done(e) => e,
            ReplyModel::Failed(why) => Some(why),
            _ => Some(Seq::empty()),
        }
    }
}

impl Reply {
    /// The reply of a command in full.
    pub fn full(&self) -> (r: Result<String, String>)
        ensures
            result_model(r) == self.deep_view().full(),
    {
        match self {
            Reply::Output(o) => full_of(o),
            Reply::Failed(why) => Err(why.clone()),
            _ => Err(String::new()),
        }
    }

    /// The reply of a command in brief.
    pub fn brief(&self) -> (r: Result<String, String>)
        ensures
            result_model(r) == self.deep_view().brief(),
    {
        match self {
            Reply::Output(o) => brief_of(o),
            Reply::Failed(why) => Err(why.clone()),
            _ => Err(String::new()),
        }
    }

    /// The reply of a command whose output was shown meanwhile.
    pub fn live(&self) -> (r: Result<String, String>)
        ensures
            result_model(r) == self.deep_view().live(),
    {
        match self {
            Reply::Output(o) => if o.success {
                Ok("".to_string())
            } else {
                let code = show_code(o.code);
                Err("exit code ".to_string().concat(code.as_str()))
            },
            Reply::Failed(why) => Err(why.clone()),
            _ => Err(String::new()),
        }
    }

    /// Did a command run to its end with success?
    pub fn worked(&self) -> (b: bool)
        ensures
            b == self.deep_view().worked(),
    {
        match self {
            Reply::Output(o) => o.success,
            _ => false,
        }
    }

    /// Is the `i`-th thing that was asked about so?
    pub fn found(&self, i: usize) -> (b: bool)
        ensures
            b == self.deep_view().found(i as int),
    {
        match self {
            Reply::Found(l) => i < l.len() && l[i],
            _ => false,
        }
    }

    /// Of each thing that was asked about, whether it is so.
    pub fn flags(&self) -> (l: Vec<bool>)
        ensures
            l@ == self.deep_view().flags(),
    {
        match self {
            Reply::Found(l) => l.clone(),
            _ => Vec::new(),
        }
    }

    /// The text that was asked for.
    pub fn text(&self) -> (t: Option<String>)
        ensures
            t.deep_view() == self.deep_view().text(),
    {
        match self {
            Reply::Text(Some(s)) => Some(s.clone()),
            _ => None,
        }
    }

    /// Why something was not done: nothing, if it was.
    pub fn failure(&self) -> (e: Option<String>)
        ensures
            e.deep_view() == self.deep_view().failure(),
    {
        match self {
            Reply::Done(None) => None,
            Reply::Done(Some(why)) => Some(why.clone()),
            Reply::Failed(why) => Some(why.clone()),
            _ => Some(String::new()),
        }
    }
}

/// How a job goes on: it asks and waits, or it is over.
pub enum Next<J> {
    Ask(Request, J),
    Finish(Message),
}

/// `Next` with its texts as character sequences.
#[verifier::ext_equal]
pub enum NextModel<J> {
    Ask(RequestModel, J),
    Finish(MessageModel),
}

impl<J: DeepView> DeepView for Next<J> {
    type V = NextModel<J::V>;

    open spec fn deep_view(&self) -> NextModel<J::V> {
        match self {
            Next::Ask(r, j) => NextModel::Ask(r.deep_view(), j.deep_view()),
            Next::Finish(m) => NextModel::Finish(m.deep_view()),
        }
    }
}

/// A request for a command.
pub open spec fn run<J>(c: CmdModel, job: J) -> NextModel<J> {
    NextModel::Ask(RequestModel::Run(c), job)
}

} // verus!

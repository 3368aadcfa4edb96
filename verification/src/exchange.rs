//! What the library asks of its caller, and what the caller answers.

use vstd::prelude::*;

verus! {

/// Work that only the caller can do.
#[derive(Debug, PartialEq, Eq)]
pub enum Request {
    /// Is there a directory at this path?
    IsDir(String),
    /// Create the directory at this path, with the directories above it.
    CreateDirAll(String),
    /// Run git with these arguments.
    Git(Vec<String>),
}

/// The mathematical value of a [`Request`].
pub enum RequestView {
    IsDir(Seq<char>),
    CreateDirAll(Seq<char>),
    Git(Seq<Seq<char>>),
}

impl View for Request {
    type V = RequestView;

    open spec fn view(&self) -> RequestView {
        match self {
            Request::IsDir(path) => RequestView::IsDir(path@),
            Request::CreateDirAll(path) => RequestView::CreateDirAll(path@),
            Request::Git(args) => RequestView::Git(args.deep_view()),
        }
    }
}

/// How an attempt to run git ended.
#[derive(Debug, PartialEq, Eq)]
pub enum ToolRun {
    /// The process ran to its end. `success` says that its exit status was 0.
    Exited { success: bool, stdout: Vec<u8>, stderr: Vec<u8> },
    /// The process could not be started.
    NotStarted { reason: String },
}

/// The mathematical value of a [`ToolRun`].
pub enum ToolRunView {
    Exited { success: bool, stdout: Seq<u8>, stderr: Seq<u8> },
    NotStarted { reason: Seq<char> },
}

impl View for ToolRun {
    type V = ToolRunView;

    open spec fn view(&self) -> ToolRunView {
        match self {
            ToolRun::Exited { success, stdout, stderr } => ToolRunView::Exited {
                success: *success,
                stdout: stdout@,
                stderr: stderr@,
            },
            ToolRun::NotStarted { reason } => ToolRunView::NotStarted { reason: reason@ },
        }
    }
}

/// The caller's answer to a [`Request`].
#[derive(Debug, PartialEq, Eq)]
pub enum Reply {
    /// The answer to [`Request::IsDir`].
    Answer(bool),
    /// The answer to [`Request::CreateDirAll`] when the directory is there.
    Created,
    /// The answer to [`Request::CreateDirAll`] when it failed, with the reason.
    NotCreated(String),
    /// The answer to [`Request::Git`].
    Tool(ToolRun),
}

/// The mathematical value of a [`Reply`].
pub enum ReplyView {
    Answer(bool),
    Created,
    NotCreated(Seq<char>),
    Tool(ToolRunView),
}

impl View for Reply {
    type V = ReplyView;

    open spec fn view(&self) -> ReplyView {
        match self {
            Reply::Answer(yes) => ReplyView::Answer(*yes),
            Reply::Created => ReplyView::Created,
            Reply::NotCreated(reason) => ReplyView::NotCreated(reason@),
            Reply::Tool(run) => ReplyView::Tool(run@),
        }
    }
}

} // verus!

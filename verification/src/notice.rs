//! What a run has to tell its operator, as values. The caller prints them.

use vstd::prelude::*;
use crate::outcome::MirrorResult;

verus! {

/// One message to the operator, said at the point where its cause is seen.
#[derive(Debug, PartialEq, Eq)]
pub enum Notice {
    /// The work on a configuration begins.
    Processing { name: String },
    /// The work on a mirror has ended.
    Mirrored { name: String, result: MirrorResult },
    /// What git printed when a command failed.
    GitOutput { text: String },
    /// Git could not be started.
    GitNotRun { reason: String },
    /// A configuration was given up before any of its mirrors.
    ConfigurationError { name: String, reason: String },
    /// The workspace directory could not be created.
    WorkspaceError { reason: String },
}

/// The mathematical value of a [`Notice`].
pub enum NoticeView {
    Processing { name: Seq<char> },
    Mirrored { name: Seq<char>, result: MirrorResult },
    GitOutput { text: Seq<char> },
    GitNotRun { reason: Seq<char> },
    ConfigurationError { name: Seq<char>, reason: Seq<char> },
    WorkspaceError { reason: Seq<char> },
}

impl View for Notice {
    type V = NoticeView;

    open spec fn view(&self) -> NoticeView {
        match self {
            Notice::Processing { name } => NoticeView::Processing { name: name@ },
            Notice::Mirrored { name, result } => NoticeView::Mirrored {
                name: name@,
                result: *result,
            },
            Notice::GitOutput { text } => NoticeView::GitOutput { text: text@ },
            Notice::GitNotRun { reason } => NoticeView::GitNotRun { reason: reason@ },
            Notice::ConfigurationError { name, reason } => NoticeView::ConfigurationError {
                name: name@,
                reason: reason@,
            },
            Notice::WorkspaceError { reason } => NoticeView::WorkspaceError { reason: reason@ },
        }
    }
}

/// The values of a list of notices, in order.
pub open spec fn notice_views(notices: Seq<Notice>) -> Seq<NoticeView> {
    notices.map_values(|notice: Notice| notice@)
}

/// The line that reports the end of the mirror `name`.
pub open spec fn mirrored_text(name: Seq<char>, result: MirrorResult) -> Seq<char> {
    match result {
        MirrorResult::Success => name + " mirrored successfully."@,
        MirrorResult::CloneFailed => "Failed to clone "@ + name + "."@,
        MirrorResult::FetchFailed => "Failed to fetch changes for "@ + name + "."@,
        MirrorResult::RemotesError => "Failed to process remotes for "@ + name + "."@,
        MirrorResult::PushFailed => "Failed to push "@ + name + "."@,
    }
}

impl NoticeView {
    /// The text of the notice, without the end of the line.
    pub open spec fn text(self) -> Seq<char> {
        match self {
            NoticeView::Processing { name } => "Processing config "@ + name + "."@,
            NoticeView::Mirrored { name, result } => mirrored_text(name, result),
            NoticeView::GitOutput { text } => "Git output:\n"@ + text,
            NoticeView::GitNotRun { reason } => "Failed to run Git: "@ + reason,
            NoticeView::ConfigurationError { name, reason } => "An error occured with configuration "@
                + name + ": "@ + reason,
            NoticeView::WorkspaceError { reason } => "Failed to create workspace directory: "@
                + reason + "."@,
        }
    }

    /// Whether the notice goes to the error stream.
    pub open spec fn is_error(self) -> bool {
        match self {
            NoticeView::Processing { .. } => false,
            NoticeView::Mirrored { .. } => false,
            NoticeView::GitOutput { .. } => true,
            NoticeView::GitNotRun { .. } => true,
            NoticeView::ConfigurationError { .. } => true,
            NoticeView::WorkspaceError { .. } => true,
        }
    }

    /// Whether the notice reports a failure: a mirror that did not end in
    /// success, a configuration given up, or a workspace that is not there.
    pub open spec fn is_failure(self) -> bool {
        match self {
            NoticeView::Mirrored { result, .. } => result != MirrorResult::Success,
            NoticeView::ConfigurationError { .. } => true,
            NoticeView::WorkspaceError { .. } => true,
            _ => false,
        }
    }
}

/// `head` and `tail` in one string.
fn paired(head: &str, tail: &str) -> (text: String)
    ensures
        text@ == head@ + tail@,
{
    let mut text = String::from_str(head);
    text.append(tail);
    text
}

/// `head`, `middle` and `tail` in one string.
fn framed(head: &str, middle: &str, tail: &str) -> (text: String)
    ensures
        text@ == head@ + middle@ + tail@,
{
    let mut text = String::from_str(head);
    text.append(middle);
    text.append(tail);
    text
}

impl Notice {
    /// The text to print for the notice, without the end of the line.
    pub fn text(&self) -> (text: String)
        ensures
            text@ == self@.text(),
    {
        match self {
            Notice::Processing { name } => framed("Processing config ", name.as_str(), "."),
            Notice::Mirrored { name, result } => match result {
                MirrorResult::Success => paired(name.as_str(), " mirrored successfully."),
                MirrorResult::CloneFailed => framed("Failed to clone ", name.as_str(), "."),
                MirrorResult::FetchFailed => framed(
                    "Failed to fetch changes for ",
                    name.as_str(),
                    ".",
                ),
                MirrorResult::RemotesError => framed(
                    "Failed to process remotes for ",
                    name.as_str(),
                    ".",
                ),
                MirrorResult::PushFailed => framed("Failed to push ", name.as_str(), "."),
            },
            Notice::GitOutput { text } => paired("Git output:\n", text.as_str()),
            Notice::GitNotRun { reason } => paired("Failed to run Git: ", reason.as_str()),
            Notice::ConfigurationError { name, reason } => {
                let mut text = framed("An error occured with configuration ", name.as_str(), ": ");
                text.append(reason.as_str());
                text
            },
            Notice::WorkspaceError { reason } => framed(
                "Failed to create workspace directory: ",
                reason.as_str(),
                ".",
            ),
        }
    }

    /// Whether the notice goes to the error stream, not to standard output.
    pub fn is_error(&self) -> (error: bool)
        ensures
            error == self@.is_error(),
    {
        match self {
            Notice::Processing { .. } => false,
            Notice::Mirrored { .. } => false,
            _ => true,
        }
    }
}

} // verus!

//! Git command lines, and the reading of what a run of git gave back.

use vstd::prelude::*;
use vstd::utf8::{decode_utf8, valid_utf8};
use crate::exchange::{ToolRun, ToolRunView};
use crate::notice::{notice_views, Notice, NoticeView};
use crate::outcome::MirrorResult;

verus! {

/// The name of the remote that stands for a mirror's destination.
pub const MIRROR_REMOTE_NAME: &'static str = "mirror";

/// What a git command gave: whether it succeeded, and its output where that
/// could be read as text (standard output on success, standard error on
/// failure).
pub type GitCmdReturn = (bool, Option<String>);

/// The text that `bytes` encode in UTF-8, if they encode any.
pub open spec fn decoded(bytes: Seq<u8>) -> Option<Seq<char>> {
    if valid_utf8(bytes) {
        Some(decode_utf8(bytes))
    } else {
        None
    }
}

/// What a run of git amounts to: success is exit status 0, and the text is
/// standard output on success and standard error on failure. A run that never
/// started is a failure without text.
pub open spec fn command_return(run: ToolRunView) -> (bool, Option<Seq<char>>) {
    match run {
        ToolRunView::Exited { success, stdout, stderr } => (
            success,
            decoded(
                if success {
                    stdout
                } else {
                    stderr
                },
            ),
        ),
        ToolRunView::NotStarted { .. } => (false, None),
    }
}

/// What is said of a run of git at once: that git did not start, if so.
pub open spec fn start_notices(run: ToolRunView) -> Seq<NoticeView> {
    match run {
        ToolRunView::Exited { .. } => seq![],
        ToolRunView::NotStarted { reason } => seq![NoticeView::GitNotRun { reason }],
    }
}

/// The stage's failure, if the command failed.
pub open spec fn failure_of(cmd_return: (bool, Option<Seq<char>>), on_error: MirrorResult) -> Option<
    MirrorResult,
> {
    if cmd_return.0 {
        None
    } else {
        Some(on_error)
    }
}

/// What is said of a command's return: git's output, if the command failed and
/// left any.
pub open spec fn failure_notices(cmd_return: (bool, Option<Seq<char>>)) -> Seq<NoticeView> {
    match cmd_return {
        (false, Some(text)) => seq![NoticeView::GitOutput { text }],
        _ => seq![],
    }
}

/// The words of `text`: its pieces between whitespace, in order. This is the
/// name of what `str::split_whitespace` yields.
pub uninterp spec fn whitespace_words(text: Seq<char>) -> Seq<Seq<char>>;

/// The remote names that a listing gave, if the listing succeeded and its
/// output is text.
pub open spec fn remotes_of(cmd_return: (bool, Option<Seq<char>>)) -> Option<Seq<Seq<char>>> {
    match cmd_return {
        (true, Some(text)) => Some(whitespace_words(text)),
        _ => None,
    }
}

/// The argument list that runs `args` in the directory `path`.
pub open spec fn args_in(args: Seq<Seq<char>>, path: Seq<char>) -> Seq<Seq<char>> {
    seq!["-C"@, path] + args
}

/// The arguments of a mirror clone of `url` into `name`, run in `path`.
pub open spec fn clone_args(url: Seq<char>, path: Seq<char>, name: Seq<char>) -> Seq<Seq<char>> {
    args_in(seq!["clone"@, "--mirror"@, url, name], path)
}

/// The arguments of a fetch in the repository at `path`.
pub open spec fn fetch_args(path: Seq<char>) -> Seq<Seq<char>> {
    args_in(seq!["fetch"@], path)
}

/// The arguments that list the remotes of the repository at `path`.
pub open spec fn remote_args(path: Seq<char>) -> Seq<Seq<char>> {
    args_in(seq!["remote"@], path)
}

/// The arguments that add the mirror remote, with `url`, to the repository at
/// `path`.
pub open spec fn add_mirror_remote_args(path: Seq<char>, url: Seq<char>) -> Seq<Seq<char>> {
    args_in(seq!["remote"@, "add"@, MIRROR_REMOTE_NAME@, url], path)
}

/// The arguments of a mirror push from the repository at `path`.
pub open spec fn push_args(path: Seq<char>) -> Seq<Seq<char>> {
    args_in(seq!["push"@, "--mirror"@, MIRROR_REMOTE_NAME@], path)
}

/// Reads `bytes` as UTF-8 with `String::from_utf8`, which gives the text that
/// the bytes encode, and an error, here `None`, when they encode none.
#[verifier::external_body]
fn text_of(bytes: Vec<u8>) -> (text: Option<String>)
    ensures
        text.deep_view() == decoded(bytes@),
{
    String::from_utf8(bytes).ok()
}

/// Splits `text` with `str::split_whitespace`. The contract gives the words
/// it yields a name and says nothing more of them.
#[verifier::external_body]
fn words_of(text: &str) -> (words: Vec<String>)
    ensures
        words.deep_view() == whitespace_words(text@),
{
    text.split_whitespace().map(String::from).collect()
}

/// Reads a run of git: whether it succeeded, and its output as text. That git
/// did not start is said at once, and counts as a failure without output.
pub fn run_git_command(run: ToolRun, notices: &mut Vec<Notice>) -> (cmd_return: GitCmdReturn)
    ensures
        cmd_return.deep_view() == command_return(run@),
        notice_views(final(notices)@) == notice_views(old(notices)@) + start_notices(run@),
{
    match run {
        ToolRun::Exited { success, stdout, stderr } => {
            let text = text_of(
                if success {
                    stdout
                } else {
                    stderr
                },
            );
            assert(notice_views(notices@) =~= notice_views(notices@) + start_notices(run@));
            (success, text)
        },
        ToolRun::NotStarted { reason } => {
            let ghost before = notices@;
            notices.push(Notice::GitNotRun { reason });
            assert(notice_views(notices@) =~= notice_views(before) + start_notices(run@));
            (false, None)
        },
    }
}

/// Check a command's return: `Some(on_error)` if the command failed, after
/// saying what git printed, and `None` if it succeeded.
pub fn check_git_return(
    cmd_return: &GitCmdReturn,
    on_error: MirrorResult,
    notices: &mut Vec<Notice>,
) -> (failure: Option<MirrorResult>)
    ensures
        failure == failure_of(cmd_return.deep_view(), on_error),
        notice_views(final(notices)@) == notice_views(old(notices)@) + failure_notices(
            cmd_return.deep_view(),
        ),
{
    let ghost before = notices@;
    if cmd_return.0 {
        assert(notice_views(before) =~= notice_views(before) + failure_notices(
            cmd_return.deep_view(),
        ));
        None
    } else {
        match &cmd_return.1 {
            Some(output) => {
                notices.push(Notice::GitOutput { text: output.clone() });
                assert(notice_views(notices@) =~= notice_views(before) + failure_notices(
                    cmd_return.deep_view(),
                ));
            },
            None => {
                assert(notice_views(before) =~= notice_views(before) + failure_notices(
                    cmd_return.deep_view(),
                ));
            },
        }
        Some(on_error)
    }
}

/// The remote names in the return of a listing of remotes: the words of its
/// output, or `None` if the listing failed or its output is no text.
pub fn get_remotes(cmd_return: &GitCmdReturn) -> (remotes: Option<Vec<String>>)
    ensures
        remotes.deep_view() == remotes_of(cmd_return.deep_view()),
{
    if !cmd_return.0 {
        return None;
    }
    match &cmd_return.1 {
        Some(stdout) => Some(words_of(stdout.as_str())),
        None => None,
    }
}

/// Whether the mirror remote is among `remotes`.
pub fn has_mirror_remote(remotes: &Vec<String>) -> (found: bool)
    ensures
        found == remotes.deep_view().contains(MIRROR_REMOTE_NAME@),
{
    let wanted = String::from_str(MIRROR_REMOTE_NAME);
    let mut i: usize = 0;
    while i < remotes.len()
        invariant
            i <= remotes.len(),
            wanted@ == MIRROR_REMOTE_NAME@,
            forall|j: int| 0 <= j < i ==> remotes.deep_view()[j] != MIRROR_REMOTE_NAME@,
        decreases remotes.len() - i,
    {
        if remotes[i] == wanted {
            assert(remotes.deep_view()[i as int] == MIRROR_REMOTE_NAME@);
            return true;
        }
        i += 1;
    }
    false
}

/// Puts the option that forces git's working directory to `path` in front of
/// `args`, so that no command depends on the directory of the process.
pub fn run_git_command_in(args: Vec<String>, path: &str) -> (full_args: Vec<String>)
    ensures
        full_args.deep_view() == args_in(args.deep_view(), path@),
{
    let mut full_args: Vec<String> = vec![String::from_str("-C"), String::from_str(path)];
    let mut rest = args;
    full_args.append(&mut rest);
    assert(full_args.deep_view() =~= args_in(args.deep_view(), path@));
    full_args
}

/// The command line of a mirror clone of `url` into the directory `name`
/// under `path`.
pub fn clone(url: &str, path: &str, name: &str) -> (args: Vec<String>)
    ensures
        args.deep_view() == clone_args(url@, path@, name@),
{
    let args: Vec<String> = vec![
        String::from_str("clone"),
        String::from_str("--mirror"),
        String::from_str(url),
        String::from_str(name),
    ];
    assert(args.deep_view() =~= seq!["clone"@, "--mirror"@, url@, name@]);
    run_git_command_in(args, path)
}

/// The command line that updates the repository at `path`.
pub fn fetch(path: &str) -> (args: Vec<String>)
    ensures
        args.deep_view() == fetch_args(path@),
{
    let args: Vec<String> = vec![String::from_str("fetch")];
    assert(args.deep_view() =~= seq!["fetch"@]);
    run_git_command_in(args, path)
}

/// The command line that lists the remotes of the repository at `path`.
pub fn list_remotes(path: &str) -> (args: Vec<String>)
    ensures
        args.deep_view() == remote_args(path@),
{
    let args: Vec<String> = vec![String::from_str("remote")];
    assert(args.deep_view() =~= seq!["remote"@]);
    run_git_command_in(args, path)
}

/// The command line that sets the mirror remote to `url` in the repository at
/// `path`.
pub fn add_mirror_remote(path: &str, url: &str) -> (args: Vec<String>)
    ensures
        args.deep_view() == add_mirror_remote_args(path@, url@),
{
    let args: Vec<String> = vec![
        String::from_str("remote"),
        String::from_str("add"),
        String::from_str(MIRROR_REMOTE_NAME),
        String::from_str(url),
    ];
    assert(args.deep_view() =~= seq!["remote"@, "add"@, MIRROR_REMOTE_NAME@, url@]);
    run_git_command_in(args, path)
}

/// The command line of a mirror push from the repository at `path`.
pub fn push(path: &str) -> (args: Vec<String>)
    ensures
        args.deep_view() == push_args(path@),
{
    let args: Vec<String> = vec![
        String::from_str("push"),
        String::from_str("--mirror"),
        String::from_str(MIRROR_REMOTE_NAME),
    ];
    assert(args.deep_view() =~= seq!["push"@, "--mirror"@, MIRROR_REMOTE_NAME@]);
    run_git_command_in(args, path)
}

} // verus!

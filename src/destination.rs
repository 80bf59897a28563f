//! Choosing the output directory from the positional paths.
//!
//! The last path is taken as the destination when more than one path is given and the last one
//! is not a regular file; otherwise the working directory is. The decisions are made here; the
//! filesystem is asked by the caller. Resolution is a short exchange: the resolver names a
//! [`Request`], the caller performs it and hands back the [`Reply`], until the request is
//! [`Request::Finish`] with the outcome.

use vstd::prelude::*;
use vstd::string::StringExecFns;
use crate::platform::{Platform, ends_with, expanded_on, expand_tilde};

verus! {

/// What the resolver needs done next.
#[derive(Debug)]
pub enum Request {
    /// Tell whether the path names an existing regular file.
    CheckIsFile(String),
    /// Tell whether the path names an existing directory.
    CheckIsDir(String),
    /// Create this one directory (its parent is not created).
    CreateDir(String),
    /// Tell the process's current working directory.
    GetWorkingDir,
    /// Resolution is over: the destination directory, or a message saying why there is none.
    Finish(Result<String, String>),
}

/// The caller's answer to a [`Request`].
#[derive(Debug)]
pub enum Reply {
    IsFile(bool),
    IsDir(bool),
    /// The outcome of creating the directory, with the filesystem's description of a failure.
    Created(Result<(), String>),
    /// The working directory, or `None` when it cannot be determined.
    WorkingDir(Option<String>),
}

/// A [`Request`] with its texts seen as sequences of characters.
pub enum RequestView {
    CheckIsFile(Seq<char>),
    CheckIsDir(Seq<char>),
    CreateDir(Seq<char>),
    GetWorkingDir,
    Finish(Result<Seq<char>, Seq<char>>),
}

/// A [`Reply`] with its texts seen as sequences of characters.
pub enum ReplyView {
    IsFile(bool),
    IsDir(bool),
    Created(Result<(), Seq<char>>),
    WorkingDir(Option<Seq<char>>),
}

impl View for Request {
    type V = RequestView;

    open spec fn view(&self) -> RequestView {
        match self {
            Request::CheckIsFile(p) => RequestView::CheckIsFile(p@),
            Request::CheckIsDir(p) => RequestView::CheckIsDir(p@),
            Request::CreateDir(p) => RequestView::CreateDir(p@),
            Request::GetWorkingDir => RequestView::GetWorkingDir,
            Request::Finish(Ok(p)) => RequestView::Finish(Ok(p@)),
            Request::Finish(Err(m)) => RequestView::Finish(Err(m@)),
        }
    }
}

impl View for Reply {
    type V = ReplyView;

    open spec fn view(&self) -> ReplyView {
        match self {
            Reply::IsFile(b) => ReplyView::IsFile(*b),
            Reply::IsDir(b) => ReplyView::IsDir(*b),
            Reply::Created(Ok(())) => ReplyView::Created(Ok(())),
            Reply::Created(Err(e)) => ReplyView::Created(Err(e@)),
            Reply::WorkingDir(Some(d)) => ReplyView::WorkingDir(Some(d@)),
            Reply::WorkingDir(None) => ReplyView::WorkingDir(None),
        }
    }
}

/// The paths of a list, as sequences of characters.
pub open spec fn texts(paths: Seq<String>) -> Seq<Seq<char>> {
    paths.map_values(|p: String| p@)
}

/// `reply` is the kind of answer that `pending` asks for.
pub open spec fn answers(pending: RequestView, reply: ReplyView) -> bool {
    match (pending, reply) {
        (RequestView::CheckIsFile(_), ReplyView::IsFile(_)) => true,
        (RequestView::CheckIsDir(_), ReplyView::IsDir(_)) => true,
        (RequestView::CreateDir(_), ReplyView::Created(_)) => true,
        (RequestView::GetWorkingDir, ReplyView::WorkingDir(_)) => true,
        _ => false,
    }
}

/// The message given when the working directory cannot be determined.
pub open spec fn no_working_dir_message() -> Seq<char> {
    "xmodits needs a current working directory. (>_<)"@
}

/// The message given when the destination `path` could not be created, for the reason `cause`.
pub open spec fn create_failed_message(path: Seq<char>, cause: Seq<char>) -> Seq<char> {
    "Error: Could not create destination folder \""@ + path + "\": "@ + cause
}

/// The first request for the positional `paths`: with at most one path there is no explicit
/// destination; otherwise the last path is looked at.
pub open spec fn first_request_of(paths: Seq<Seq<char>>) -> RequestView {
    if paths.len() <= 1 {
        RequestView::GetWorkingDir
    } else {
        RequestView::CheckIsFile(paths.last())
    }
}

/// One step of resolution on `platform`: with `pending` answered by `reply` while the positional
/// paths were `paths`, the next request may be `next` with the paths left as `rest`.
pub open spec fn step(
    platform: Platform,
    pending: RequestView,
    paths: Seq<Seq<char>>,
    reply: ReplyView,
    next: RequestView,
    rest: Seq<Seq<char>>,
) -> bool {
    match (pending, reply) {
        (RequestView::CheckIsFile(_), ReplyView::IsFile(is_file)) => {
            if is_file || paths.len() <= 1 {
                rest == paths && next == RequestView::GetWorkingDir
            } else {
                &&& rest == paths.drop_last()
                &&& next is CheckIsDir
                &&& expanded_on(platform, paths.last(), next->CheckIsDir_0)
            }
        },
        (RequestView::CheckIsDir(dir), ReplyView::IsDir(is_dir)) => {
            &&& rest == paths
            &&& next == if is_dir {
                RequestView::Finish(Ok(dir))
            } else {
                RequestView::CreateDir(dir)
            }
        },
        (RequestView::CreateDir(dir), ReplyView::Created(created)) => {
            &&& rest == paths
            &&& next == match created {
                Ok(()) => RequestView::Finish(Ok(dir)),
                Err(cause) => RequestView::Finish(Err(create_failed_message(dir, cause))),
            }
        },
        (RequestView::GetWorkingDir, ReplyView::WorkingDir(cwd)) => {
            &&& rest == paths
            &&& next == match cwd {
                Some(dir) => RequestView::Finish(Ok(dir)),
                None => RequestView::Finish(Err(no_working_dir_message())),
            }
        },
        _ => false,
    }
}

/// The message for a directory that could not be created.
pub fn create_failed(path: &String, cause: &String) -> (r: String)
    ensures
        r@ == create_failed_message(path@, cause@),
{
    let mut m = String::from_str("Error: Could not create destination folder \"");
    m.append(path.as_str());
    m.append("\": ");
    m.append(cause.as_str());
    m
}

/// Starts resolving the destination for the positional `paths`.
pub fn first_request(paths: &Vec<String>) -> (r: Request)
    ensures
        r@ == first_request_of(texts(paths@)),
{
    if paths.len() <= 1 {
        Request::GetWorkingDir
    } else {
        Request::CheckIsFile(paths[paths.len() - 1].clone())
    }
}

/// Takes the `reply` to the `pending` request and names the next one. When the last path is
/// taken as the destination it is removed from `paths`; nothing else changes them.
pub fn next_request(pending: &Request, paths: &mut Vec<String>, reply: Reply, platform: Platform) -> (r: Request)
    requires
        answers(pending@, reply@),
    ensures
        step(platform, pending@, texts(old(paths)@), reply@, r@, texts(final(paths)@)),
        final(paths)@ == if pending@ is CheckIsFile && r@ is CheckIsDir {
            old(paths)@.drop_last()
        } else {
            old(paths)@
        },
{
    match (pending, reply) {
        (Request::CheckIsFile(_), Reply::IsFile(is_file)) => {
            if is_file || paths.len() <= 1 {
                Request::GetWorkingDir
            } else {
                let ghost before = paths@;
                let last = paths.pop().unwrap();
                assert(texts(paths@) =~= texts(before).drop_last());
                Request::CheckIsDir(expand_tilde(last, platform))
            }
        },
        (Request::CheckIsDir(dir), Reply::IsDir(is_dir)) => {
            if is_dir {
                Request::Finish(Ok(dir.clone()))
            } else {
                Request::CreateDir(dir.clone())
            }
        },
        (Request::CreateDir(dir), Reply::Created(created)) => {
            match created {
                Ok(()) => Request::Finish(Ok(dir.clone())),
                Err(cause) => Request::Finish(Err(create_failed(dir, &cause))),
            }
        },
        (Request::GetWorkingDir, Reply::WorkingDir(cwd)) => {
            match cwd {
                Some(dir) => Request::Finish(Ok(dir)),
                None => Request::Finish(Err(String::from_str("xmodits needs a current working directory. (>_<)"))),
            }
        },
        // a reply of another kind than the request asked for is ruled out by `answers`
        _ => Request::GetWorkingDir,
    }
}

/// A trailing path that is not a regular file, after at least one other path, is the
/// destination: it is looked at first, then taken off the list, whose other paths keep their
/// order; the destination is that path as the host expands it (the path itself where the host
/// does not expand), and it is then checked for being a directory. An existing directory is the
/// outcome at once; a missing one is created next.
pub proof fn lemma_trailing_path_is_destination(
    platform: Platform,
    paths: Seq<Seq<char>>,
    probed: RequestView,
    rest: Seq<Seq<char>>,
    is_dir: bool,
    next: RequestView,
    rest2: Seq<Seq<char>>,
)
    requires
        paths.len() > 1,
        step(platform, first_request_of(paths), paths, ReplyView::IsFile(false), probed, rest),
        step(platform, probed, rest, ReplyView::IsDir(is_dir), next, rest2),
    ensures
        first_request_of(paths) == RequestView::CheckIsFile(paths.last()),
        rest == paths.subrange(0, paths.len() - 1),
        rest2 == rest,
        probed is CheckIsDir,
        expanded_on(platform, paths.last(), probed->CheckIsDir_0),
        platform == Platform::Other ==> probed == RequestView::CheckIsDir(paths.last()),
        is_dir ==> next == RequestView::Finish(Ok(probed->CheckIsDir_0)),
        !is_dir ==> next == RequestView::CreateDir(probed->CheckIsDir_0),
{
}

/// With no path, one path, or a trailing regular file, the destination is the working
/// directory and the list of paths is left as it was; the only failure is a working directory
/// that cannot be determined.
pub proof fn lemma_working_dir_is_destination(
    platform: Platform,
    paths: Seq<Seq<char>>,
    asked: RequestView,
    rest: Seq<Seq<char>>,
    cwd: Option<Seq<char>>,
    outcome: RequestView,
    rest2: Seq<Seq<char>>,
)
    requires
        paths.len() <= 1 ==> asked == first_request_of(paths) && rest == paths,
        paths.len() > 1 ==> step(platform, first_request_of(paths), paths, ReplyView::IsFile(true), asked, rest),
        step(platform, asked, rest, ReplyView::WorkingDir(cwd), outcome, rest2),
    ensures
        asked == RequestView::GetWorkingDir,
        rest2 == paths,
        outcome == match cwd {
            Some(dir) => RequestView::Finish(Ok(dir)),
            None => RequestView::Finish(Err(no_working_dir_message())),
        },
{
}

/// A missing destination leads to exactly one creation request, for that path, and a creation
/// that succeeds gives that path as the outcome. Resolving again once it exists asks for no
/// creation and gives the same outcome.
pub proof fn lemma_missing_destination_created_once(
    platform: Platform,
    dir: Seq<char>,
    paths: Seq<Seq<char>>,
    create: RequestView,
    rest: Seq<Seq<char>>,
    outcome: RequestView,
    rest2: Seq<Seq<char>>,
    again: RequestView,
    rest3: Seq<Seq<char>>,
)
    requires
        step(platform, RequestView::CheckIsDir(dir), paths, ReplyView::IsDir(false), create, rest),
        step(platform, create, rest, ReplyView::Created(Ok(())), outcome, rest2),
        step(platform, RequestView::CheckIsDir(dir), paths, ReplyView::IsDir(true), again, rest3),
    ensures
        create == RequestView::CreateDir(dir),
        outcome == RequestView::Finish(Ok(dir)),
        outcome !is CreateDir,
        again == outcome,
        rest2 == paths && rest3 == paths,
{
}

/// A destination that cannot be created ends resolution with a failure whose message names that
/// exact path and the filesystem's reason; no destination comes out.
pub proof fn lemma_create_failure_names_path(
    platform: Platform,
    dir: Seq<char>,
    cause: Seq<char>,
    paths: Seq<Seq<char>>,
    outcome: RequestView,
    rest: Seq<Seq<char>>,
)
    requires
        step(platform, RequestView::CreateDir(dir), paths, ReplyView::Created(Err(cause)), outcome, rest),
    ensures
        outcome is Finish,
        outcome->Finish_0 is Err,
        ({
            let m = outcome->Finish_0->Err_0;
            let start = "Error: Could not create destination folder \""@.len();
            &&& m.subrange(start as int, (start + dir.len()) as int) == dir
            &&& ends_with(m, cause)
        }),
        rest == paths,
{
    let m = create_failed_message(dir, cause);
    let head = "Error: Could not create destination folder \""@;
    assert(m == head + dir + "\": "@ + cause);
    assert(m.subrange(head.len() as int, (head.len() + dir.len()) as int) =~= dir);
    assert(m.subrange(m.len() - cause.len(), m.len() as int) =~= cause);
}

} // verus!

//! Where the two systems are reached, and the request that carries an
//! action to the destination.

use vstd::prelude::*;
use crate::decimal::{decimal, push_decimal};
use crate::record::{SyncAction, SyncActionView};

verus! {

/// Where the destination is reached.
pub const DESTINATION_URL: &'static str = "https://api.github.com";

/// The path under which the tracker lists bugs.
pub const BUGS_PATH: &'static str = "rest/bug";

/// What stands before the repository in a destination path.
pub const REPOS_PREFIX: &'static str = "repos/";

/// What stands behind the repository in a destination path.
pub const ISSUES_SUFFIX: &'static str = "/issues";

/// The path of the issues of a repository.
pub open spec fn issues_path_of(repopath: Seq<char>) -> Seq<char> {
    REPOS_PREFIX@ + repopath + ISSUES_SUFFIX@
}

/// The path of one issue of a repository.
pub open spec fn issue_path_of(repopath: Seq<char>, number: nat) -> Seq<char> {
    issues_path_of(repopath) + seq!['/'] + decimal(number)
}

/// How a request changes the destination.
#[derive(Debug, Clone, Copy, PartialEq, Eq, Structural)]
pub enum Method {
    /// Creates what the path names a collection of.
    Post,
    /// Amends what the path names.
    Patch,
}

/// A request to the destination. What it carries is the action itself.
#[derive(Debug, Clone, PartialEq, Eq)]
pub struct Request {
    pub method: Method,
    pub path: String,
}

/// What a request is.
pub struct RequestView {
    pub method: Method,
    pub path: Seq<char>,
}

impl DeepView for Request {
    type V = RequestView;

    open spec fn deep_view(&self) -> RequestView {
        RequestView { method: self.method, path: self.path@ }
    }
}

impl View for Request {
    type V = RequestView;

    open spec fn view(&self) -> RequestView {
        self.deep_view()
    }
}

/// The request that carries `action`: creating goes to the issues of the
/// repository, amending to the issue that the action names.
pub open spec fn request_of(action: SyncActionView, repopath: Seq<char>) -> RequestView {
    match action {
        SyncActionView::Create { .. } => RequestView {
            method: Method::Post,
            path: issues_path_of(repopath),
        },
        SyncActionView::Update { target_number, .. } => RequestView {
            method: Method::Patch,
            path: issue_path_of(repopath, target_number),
        },
    }
}

/// What is sent for `action`: its request, or nothing at all in a preview.
pub open spec fn planned_request(
    action: SyncActionView,
    repopath: Seq<char>,
    preview: bool,
) -> Option<RequestView> {
    if preview {
        None
    } else {
        Some(request_of(action, repopath))
    }
}

/// The path of the issues of a repository. The repository path is taken
/// as it is.
pub fn issues_path(repopath: &str) -> (path: String)
    ensures
        path@ == issues_path_of(repopath@),
{
    let mut path = String::from_str(REPOS_PREFIX);
    path.append(repopath);
    path.append(ISSUES_SUFFIX);
    path
}

/// The path of the issue `number` of a repository.
pub fn issue_path(repopath: &str, number: u32) -> (path: String)
    ensures
        path@ == issue_path_of(repopath@, number as nat),
{
    let mut path = issues_path(repopath);
    path.push('/');
    push_decimal(&mut path, number);
    path
}

/// What is to be sent for `action`. In a preview nothing is sent, whatever
/// the action; otherwise exactly one request is.
pub fn request_for(action: &SyncAction, repopath: &str, preview: bool) -> (request: Option<Request>)
    ensures
        request.deep_view() == planned_request(action.deep_view(), repopath@, preview),
        preview ==> request is None,
        !preview ==> request is Some,
{
    if preview {
        return None;
    }
    match action {
        SyncAction::Create { .. } => Some(Request { method: Method::Post, path: issues_path(repopath) }),
        SyncAction::Update { target_number, .. } => Some(
            Request { method: Method::Patch, path: issue_path(repopath, *target_number) },
        ),
    }
}

} // verus!

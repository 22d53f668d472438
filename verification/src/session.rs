//! Carries requests out on a repository on disk.

use vstd::prelude::*;
use crate::engine::{
    attach_head, checkout_commit, checkout_head, clone_repository, commit_merge, describe,
    detach_head, fetch, merge_analysis, merge_commits, open_repository, parse_commit_id,
    reference_target, resolve_reference, set_reference,
};
use crate::object_id::ObjectId;
use crate::request::{answers, Reply, ReplyView, Request, RequestView};

verus! {

/// One conversation with the repository engine. It holds the repository once
/// a request to open or to clone has succeeded.
pub struct Session {
    repository: Option<git2::Repository>,
}

/// Whether `text` holds the character NUL.
fn contains_nul(text: &str) -> (found: bool)
    ensures
        found == text@.contains('\0'),
{
    let length: usize = text.unicode_len();
    let mut i: usize = 0;
    while i < length
        invariant
            i <= length,
            length == text@.len(),
            forall|j: int| 0 <= j < i ==> text@[j] != '\0',
        decreases length - i,
    {
        if text.get_char(i) == '\0' {
            return true;
        }
        i += 1;
    }
    false
}

/// The reply that reports the failure `error`.
fn failure(error: git2::Error) -> (reply: Reply)
    ensures
        reply is Failed,
{
    Reply::Failed(describe(&error))
}

/// The reply to a request that has nothing to report when it succeeds:
/// done where the engine succeeded, a failure where it did not.
fn completion(outcome: Result<(), git2::Error>) -> (reply: Reply)
    ensures
        outcome is Ok <==> reply is Done,
        outcome is Err <==> reply is Failed,
{
    match outcome {
        Ok(()) => Reply::Done,
        Err(error) => failure(error),
    }
}

/// The reply to a request for a commit.
fn commit_found(outcome: Result<ObjectId, git2::Error>) -> (reply: Reply)
    ensures
        outcome is Ok <==> reply is Commit,
        outcome is Err <==> reply is Failed,
        outcome matches Ok(commit) ==> reply@ == ReplyView::Commit(commit@),
        reply@ matches ReplyView::Commit(commit) ==> commit.len() == 20,
{
    match outcome {
        Ok(commit) => {
            proof {
                commit.lemma_length();
            }
            Reply::Commit(commit)
        },
        Err(error) => failure(error),
    }
}

/// Whether `request` can be carried out with no repository open: it opens
/// one, clones one, or reads a hash.
pub open spec fn needs_none(request: RequestView) -> bool {
    request is Open || request is CloneRemote || request is ParseCommitId
}

/// What a request that needs a repository is told where none is open.
pub open spec fn no_repository() -> Seq<char> {
    "no repository is open"@
}

/// The reply to a request that needs a repository where none is open.
fn unopened() -> (reply: Reply)
    ensures
        reply@ == ReplyView::Failed(no_repository()),
{
    Reply::Failed("no repository is open".to_owned())
}

impl Session {
    /// Whether a repository is open in this conversation.
    pub closed spec fn open(&self) -> bool {
        self.repository is Some
    }

    /// A conversation in which no repository is open yet.
    pub fn new() -> (session: Session)
        ensures
            !session.open(),
    {
        Session { repository: None }
    }

    /// Whether a repository is open in this conversation.
    pub fn is_open(&self) -> (open: bool)
        ensures
            open == self.open(),
    {
        self.repository.is_some()
    }

    /// Carries `request` out and reports what came of it. A request to open
    /// or to clone that succeeds leaves its repository open, in place of the
    /// one that was open before, if any. A request that needs a repository
    /// fails where none is open, and so does a request to clone a branch
    /// whose name holds the character NUL.
    pub fn perform(&mut self, request: &Request) -> (reply: Reply)
        ensures
            answers(request@, reply@),
            final(self).open() <==> old(self).open() || (needs_none(request@) && reply is Done),
            !old(self).open() && !needs_none(request@) ==> reply@ == ReplyView::Failed(
                no_repository(),
            ),
            request matches Request::CloneRemote { branch, .. } && branch@.contains('\0')
                ==> reply is Failed,
    {
        match request {
            Request::Open { path } => match open_repository(path.as_str()) {
                Ok(repository) => {
                    self.repository = Some(repository);
                    Reply::Done
                },
                Err(error) => failure(error),
            },
            Request::CloneRemote { url, path, branch } => {
                if contains_nul(branch.as_str()) {
                    Reply::Failed("the branch name holds the character NUL".to_owned())
                } else {
                    match clone_repository(url.as_str(), path.as_str(), branch.as_str()) {
                        Ok(repository) => {
                            self.repository = Some(repository);
                            Reply::Done
                        },
                        Err(error) => failure(error),
                    }
                }
            },
            Request::ParseCommitId { text } => commit_found(parse_commit_id(text.as_str())),
            Request::Fetch { remote, branch } => match &self.repository {
                Some(repository) => completion(fetch(repository, remote.as_str(), branch.as_str())),
                None => unopened(),
            },
            Request::ReferenceTarget { reference } => match &self.repository {
                Some(repository) => commit_found(reference_target(repository, reference.as_str())),
                None => unopened(),
            },
            Request::Analyse { commit } => match &self.repository {
                Some(repository) => match merge_analysis(repository, commit) {
                    Ok(advice) => Reply::Analysis(advice),
                    Err(error) => failure(error),
                },
                None => unopened(),
            },
            Request::CheckoutCommit { commit } => match &self.repository {
                Some(repository) => completion(checkout_commit(repository, commit)),
                None => unopened(),
            },
            Request::MoveBranch { reference, commit } => match &self.repository {
                Some(repository) => completion(
                    set_reference(repository, reference.as_str(), commit, true, "update"),
                ),
                None => unopened(),
            },
            Request::Merge { ours, theirs } => match &self.repository {
                Some(repository) => match merge_commits(repository, ours, theirs) {
                    Ok(tree) => {
                        proof {
                            tree.lemma_length();
                        }
                        Reply::Tree(tree)
                    },
                    Err(error) => failure(error),
                },
                None => unopened(),
            },
            Request::RecordMerge { tree, ours, theirs } => match &self.repository {
                Some(repository) => commit_found(
                    commit_merge(repository, tree, ours, theirs, "merge the fetched commit"),
                ),
                None => unopened(),
            },
            Request::DetachHead { commit } => match &self.repository {
                Some(repository) => completion(detach_head(repository, commit)),
                None => unopened(),
            },
            Request::ResolveReference { revision } => match &self.repository {
                Some(repository) => match resolve_reference(repository, revision.as_str()) {
                    Ok(Some(name)) => Reply::Reference { name },
                    Ok(None) => Reply::NoReference,
                    Err(error) => failure(error),
                },
                None => unopened(),
            },
            Request::AttachHead { reference } => match &self.repository {
                Some(repository) => completion(attach_head(repository, reference.as_str())),
                None => unopened(),
            },
            Request::CheckoutHead => match &self.repository {
                Some(repository) => completion(checkout_head(repository)),
                None => unopened(),
            },
        }
    }
}

} // verus!

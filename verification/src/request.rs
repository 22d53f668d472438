//! What an operation asks of the repository engine, and what the engine
//! answers. Both are plain values, so that the decisions of an operation can
//! be stated and checked without a repository at hand.

use vstd::prelude::*;
use crate::object_id::{hash_bytes, well_formed_hash, ObjectId};

verus! {

/// How the fetched commit relates to the commit that HEAD stands at.
#[derive(Clone, Copy, Debug, PartialEq, Eq, Structural)]
pub struct MergeAdvice {
    /// HEAD already holds everything that the fetched commit holds.
    pub up_to_date: bool,
    /// The fetched commit descends from HEAD, so that the branch can move
    /// forward to it without a merge.
    pub fast_forward: bool,
    /// HEAD and the fetched commit have each gone their own way from a
    /// common ancestor, so that the two are to be merged.
    pub normal: bool,
}

/// One request to the repository engine.
#[derive(Clone, Debug, PartialEq, Eq)]
pub enum Request {
    /// Open the repository in the directory `path`.
    Open { path: String },
    /// Clone the repository at `url` into `path` and check out `branch`.
    CloneRemote { url: String, path: String, branch: String },
    /// Fetch `branch` from the remote named `remote`.
    Fetch { remote: String, branch: String },
    /// Find the commit that the reference named `reference` leads to.
    ReferenceTarget { reference: String },
    /// Compare `commit` with HEAD.
    Analyse { commit: ObjectId },
    /// Bring the index and the working tree to the state of `commit`,
    /// overwriting what they hold.
    CheckoutCommit { commit: ObjectId },
    /// Let the reference named `reference` point at `commit`, whether or not
    /// it exists already.
    MoveBranch { reference: String, commit: ObjectId },
    /// Merge the commit `theirs` into the commit `ours` and write the
    /// outcome as a tree. Nothing else changes.
    Merge { ours: ObjectId, theirs: ObjectId },
    /// Record `tree` as a new commit with `ours` and `theirs` as its parents.
    /// No reference moves.
    RecordMerge { tree: ObjectId, ours: ObjectId, theirs: ObjectId },
    /// Read `text` as a commit identifier.
    ParseCommitId { text: String },
    /// Let HEAD point at `commit` itself.
    DetachHead { commit: ObjectId },
    /// Find what `revision` denotes, and the reference that leads there.
    ResolveReference { revision: String },
    /// Let HEAD point at the reference named `reference`.
    AttachHead { reference: String },
    /// Bring the index and the working tree to the state of HEAD.
    CheckoutHead,
}

/// The mathematical value of a [`Request`].
pub enum RequestView {
    Open { path: Seq<char> },
    CloneRemote { url: Seq<char>, path: Seq<char>, branch: Seq<char> },
    Fetch { remote: Seq<char>, branch: Seq<char> },
    ReferenceTarget { reference: Seq<char> },
    Analyse { commit: Seq<u8> },
    CheckoutCommit { commit: Seq<u8> },
    MoveBranch { reference: Seq<char>, commit: Seq<u8> },
    Merge { ours: Seq<u8>, theirs: Seq<u8> },
    RecordMerge { tree: Seq<u8>, ours: Seq<u8>, theirs: Seq<u8> },
    ParseCommitId { text: Seq<char> },
    DetachHead { commit: Seq<u8> },
    ResolveReference { revision: Seq<char> },
    AttachHead { reference: Seq<char> },
    CheckoutHead,
}

impl View for Request {
    type V = RequestView;

    open spec fn view(&self) -> RequestView {
        match *self {
            Request::Open { path } => RequestView::Open { path: path@ },
            Request::CloneRemote { url, path, branch } => RequestView::CloneRemote {
                url: url@,
                path: path@,
                branch: branch@,
            },
            Request::Fetch { remote, branch } => RequestView::Fetch {
                remote: remote@,
                branch: branch@,
            },
            Request::ReferenceTarget { reference } => RequestView::ReferenceTarget {
                reference: reference@,
            },
            Request::Analyse { commit } => RequestView::Analyse { commit: commit@ },
            Request::CheckoutCommit { commit } => RequestView::CheckoutCommit { commit: commit@ },
            Request::MoveBranch { reference, commit } => RequestView::MoveBranch {
                reference: reference@,
                commit: commit@,
            },
            Request::Merge { ours, theirs } => RequestView::Merge { ours: ours@, theirs: theirs@ },
            Request::RecordMerge { tree, ours, theirs } => RequestView::RecordMerge {
                tree: tree@,
                ours: ours@,
                theirs: theirs@,
            },
            Request::ParseCommitId { text } => RequestView::ParseCommitId { text: text@ },
            Request::DetachHead { commit } => RequestView::DetachHead { commit: commit@ },
            Request::ResolveReference { revision } => RequestView::ResolveReference {
                revision: revision@,
            },
            Request::AttachHead { reference } => RequestView::AttachHead { reference: reference@ },
            Request::CheckoutHead => RequestView::CheckoutHead,
        }
    }
}

/// One answer of the repository engine.
#[derive(Clone, Debug, PartialEq, Eq)]
pub enum Reply {
    /// The request was carried out; there is nothing to report.
    Done,
    /// The request failed, for the reason given.
    Failed(String),
    /// The commit that was asked for.
    Commit(ObjectId),
    /// The tree that was asked for.
    Tree(ObjectId),
    /// The comparison that was asked for.
    Analysis(MergeAdvice),
    /// The revision is known, but no reference leads to it.
    NoReference,
    /// The reference that leads to the revision; `name` is its full name, if
    /// the name can be written as text.
    Reference { name: Option<String> },
}

/// The mathematical value of a [`Reply`].
pub enum ReplyView {
    Done,
    Failed(Seq<char>),
    Commit(Seq<u8>),
    Tree(Seq<u8>),
    Analysis(MergeAdvice),
    NoReference,
    Reference { name: Option<Seq<char>> },
}

impl View for Reply {
    type V = ReplyView;

    open spec fn view(&self) -> ReplyView {
        match *self {
            Reply::Done => ReplyView::Done,
            Reply::Failed(cause) => ReplyView::Failed(cause@),
            Reply::Commit(commit) => ReplyView::Commit(commit@),
            Reply::Tree(tree) => ReplyView::Tree(tree@),
            Reply::Analysis(advice) => ReplyView::Analysis(advice),
            Reply::NoReference => ReplyView::NoReference,
            Reply::Reference { name } => ReplyView::Reference {
                name: match name {
                    Some(name) => Some(name@),
                    None => None,
                },
            },
        }
    }
}

/// Whether `reply` is an answer that an engine gives to `request`: it has the
/// shape that the request calls for, and a hash is read as a commit
/// identifier exactly when it is well formed.
pub open spec fn answers(request: RequestView, reply: ReplyView) -> bool {
    match request {
        RequestView::Merge { .. } => {
            &&& reply is Tree || reply is Failed
            &&& reply matches ReplyView::Tree(tree) ==> tree.len() == 20
        },
        RequestView::ReferenceTarget { .. }
        | RequestView::RecordMerge { .. }
        | RequestView::ParseCommitId { .. } => {
            &&& reply is Commit || reply is Failed
            &&& reply matches ReplyView::Commit(commit) ==> commit.len() == 20
            &&& request matches RequestView::ParseCommitId { text } ==> {
                &&& reply is Commit <==> well_formed_hash(text)
                &&& reply matches ReplyView::Commit(commit) ==> commit == hash_bytes(text)
            }
        },
        RequestView::Analyse { .. } => reply is Analysis || reply is Failed,
        RequestView::ResolveReference { .. } => {
            reply is Reference || reply is NoReference || reply is Failed
        },
        _ => reply is Done || reply is Failed,
    }
}

} // verus!

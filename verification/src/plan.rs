//! The decisions of the four operations, as a function from what has been
//! answered so far to what is asked next. Every operation first asks for the
//! local repository to be opened, has the remote cloned where that fails, and
//! then goes its own way.

use vstd::prelude::*;
use crate::error::{DownloadError, ErrorKind, ErrorView};
use crate::git_config::{ConfigView, GitConfig};
use crate::object_id::ObjectId;
use crate::request::{MergeAdvice, Reply, ReplyView, Request, RequestView};

verus! {

/// What a caller wants done with the local mirror.
#[derive(Clone, Debug, PartialEq, Eq)]
pub enum Operation {
    /// Make sure that the local repository exists.
    Download,
    /// Bring the tracked branch up to date with the remote.
    Update,
    /// Move to the commit that `hash` names.
    SetVersion { hash: String },
    /// Move to the tip of the main line.
    SetVersionToLatest,
}

/// The mathematical value of an [`Operation`].
pub enum OperationView {
    Download,
    Update,
    SetVersion { hash: Seq<char> },
    SetVersionToLatest,
}

impl View for Operation {
    type V = OperationView;

    open spec fn view(&self) -> OperationView {
        match *self {
            Operation::Download => OperationView::Download,
            Operation::Update => OperationView::Update,
            Operation::SetVersion { hash } => OperationView::SetVersion { hash: hash@ },
            Operation::SetVersionToLatest => OperationView::SetVersionToLatest,
        }
    }
}

/// Which answer an operation is waiting for.
#[derive(Clone, Copy, Debug, PartialEq, Eq)]
pub enum Phase {
    /// Asked to open the local repository.
    Opening,
    /// Asked to clone the remote.
    Cloning,
    /// Asked to fetch the tracked branch.
    Fetching,
    /// Asked which commit was fetched.
    LocatingFetched,
    /// Asked how `commit`, the fetched one, relates to HEAD.
    Analysing { commit: ObjectId },
    /// Asked which commit HEAD stands at, to merge the commit `fetched` into
    /// it.
    LocatingHead { fetched: ObjectId },
    /// Asked to merge the commit `theirs`, the fetched one, into the commit
    /// `ours`, the one of HEAD.
    Merging { ours: ObjectId, theirs: ObjectId },
    /// Asked to record the merge as a commit.
    Recording,
    /// Asked to check out `commit`, to which the tracked branch moves.
    CheckingOutCommit { commit: ObjectId },
    /// Asked to move the tracked branch.
    MovingBranch,
    /// Asked to attach HEAD to the tracked branch.
    AttachingBranch,
    /// Asked to read the hash.
    Parsing,
    /// Asked to detach HEAD at the commit.
    Detaching,
    /// Asked to check out HEAD, detached at the commit.
    CheckingOutVersion,
    /// Asked for the reference of the main line.
    Resolving,
    /// Asked to attach HEAD to the main line.
    Attaching,
    /// Asked to check out HEAD, attached to the main line.
    CheckingOutLatest,
}

/// The mathematical value of a [`Phase`].
pub enum PhaseView {
    Opening,
    Cloning,
    Fetching,
    LocatingFetched,
    Analysing { commit: Seq<u8> },
    LocatingHead { fetched: Seq<u8> },
    Merging { ours: Seq<u8>, theirs: Seq<u8> },
    Recording,
    CheckingOutCommit { commit: Seq<u8> },
    MovingBranch,
    AttachingBranch,
    Parsing,
    Detaching,
    CheckingOutVersion,
    Resolving,
    Attaching,
    CheckingOutLatest,
}

impl View for Phase {
    type V = PhaseView;

    open spec fn view(&self) -> PhaseView {
        match *self {
            Phase::Opening => PhaseView::Opening,
            Phase::Cloning => PhaseView::Cloning,
            Phase::Fetching => PhaseView::Fetching,
            Phase::LocatingFetched => PhaseView::LocatingFetched,
            Phase::Analysing { commit } => PhaseView::Analysing { commit: commit@ },
            Phase::LocatingHead { fetched } => PhaseView::LocatingHead { fetched: fetched@ },
            Phase::Merging { ours, theirs } => PhaseView::Merging { ours: ours@, theirs: theirs@ },
            Phase::Recording => PhaseView::Recording,
            Phase::CheckingOutCommit { commit } => PhaseView::CheckingOutCommit { commit: commit@ },
            Phase::MovingBranch => PhaseView::MovingBranch,
            Phase::AttachingBranch => PhaseView::AttachingBranch,
            Phase::Parsing => PhaseView::Parsing,
            Phase::Detaching => PhaseView::Detaching,
            Phase::CheckingOutVersion => PhaseView::CheckingOutVersion,
            Phase::Resolving => PhaseView::Resolving,
            Phase::Attaching => PhaseView::Attaching,
            Phase::CheckingOutLatest => PhaseView::CheckingOutLatest,
        }
    }
}

/// Where an operation stands: it asks something of the engine, or it has
/// ended.
#[derive(Debug, PartialEq, Eq)]
pub enum Progress {
    /// `request` is to be carried out; its answer goes to [`step`] together
    /// with `phase`.
    Ask { phase: Phase, request: Request },
    /// The operation has ended with this result.
    Done(Result<(), DownloadError>),
}

/// The mathematical value of a [`Progress`].
pub enum ProgressView {
    Ask { phase: PhaseView, request: RequestView },
    Done(Result<(), ErrorView>),
}

/// The mathematical value of an operation's result.
pub open spec fn result_view(result: Result<(), DownloadError>) -> Result<(), ErrorView> {
    match result {
        Ok(()) => Ok(()),
        Err(error) => Err(error@),
    }
}

impl View for Progress {
    type V = ProgressView;

    open spec fn view(&self) -> ProgressView {
        match *self {
            Progress::Ask { phase, request } => ProgressView::Ask {
                phase: phase@,
                request: request@,
            },
            Progress::Done(result) => ProgressView::Done(result_view(result)),
        }
    }
}

/// The revision that stands for the main line.
pub open spec fn main_branch() -> Seq<char> {
    "main"@
}

/// The reference that says where the repository stands.
pub open spec fn head() -> Seq<char> {
    "HEAD"@
}

/// The pseudo-reference that a fetch leaves behind.
pub open spec fn fetch_head() -> Seq<char> {
    "FETCH_HEAD"@
}

/// The full name of the local branch `branch`.
pub open spec fn branch_reference(branch: Seq<char>) -> Seq<char> {
    "refs/heads/"@ + branch
}

/// The cause that a reply gives for a failure. A reply that does not answer
/// the request counts as a failure too.
pub open spec fn cause_of(reply: ReplyView) -> Seq<char> {
    match reply {
        ReplyView::Failed(cause) => cause,
        _ => "unexpected reply"@,
    }
}

/// The end of an operation in a failure of the given kind.
pub open spec fn failed(kind: ErrorKind, message: Seq<char>) -> ProgressView {
    ProgressView::Done(Err(ErrorView { kind, message }))
}

/// The failure of cloning, for the given cause.
pub open spec fn clone_failed(cause: Seq<char>) -> ProgressView {
    failed(ErrorKind::CloneFailed, "failed to clone repository: "@ + cause)
}

/// The failure of a step of an update, for the given cause.
pub open spec fn update_failed(cause: Seq<char>) -> ProgressView {
    failed(ErrorKind::FailedToUpdateDefinitions, "failed to update definitions: "@ + cause)
}

/// The failure of a step in setting a version, with the given message.
pub open spec fn version_failed(message: Seq<char>) -> ProgressView {
    failed(ErrorKind::VersionSetFailure, message)
}

/// The first request of every operation: open the local repository.
pub open spec fn spec_start(config: ConfigView) -> ProgressView {
    ProgressView::Ask {
        phase: PhaseView::Opening,
        request: RequestView::Open { path: config.repository_local_dir },
    }
}

/// What follows once the local repository is at hand.
pub open spec fn spec_resolved(config: ConfigView, operation: OperationView) -> ProgressView {
    match operation {
        OperationView::Download => ProgressView::Done(Ok(())),
        OperationView::Update => ProgressView::Ask {
            phase: PhaseView::Fetching,
            request: RequestView::Fetch {
                remote: config.remote_name,
                branch: config.remote_branch,
            },
        },
        OperationView::SetVersion { hash } => ProgressView::Ask {
            phase: PhaseView::Parsing,
            request: RequestView::ParseCommitId { text: hash },
        },
        OperationView::SetVersionToLatest => ProgressView::Ask {
            phase: PhaseView::Resolving,
            request: RequestView::ResolveReference { revision: main_branch() },
        },
    }
}

/// The request to check out `commit`, the one that the tracked branch is to
/// move to.
pub open spec fn spec_advance(commit: Seq<u8>) -> ProgressView {
    ProgressView::Ask {
        phase: PhaseView::CheckingOutCommit { commit },
        request: RequestView::CheckoutCommit { commit },
    }
}

/// What follows the comparison of the fetched commit with HEAD: nothing
/// where HEAD holds it already, a move forward where HEAD is an ancestor of
/// it, else a merge.
pub open spec fn spec_analysed(commit: Seq<u8>, advice: MergeAdvice) -> ProgressView {
    if advice.up_to_date {
        ProgressView::Done(Ok(()))
    } else if advice.fast_forward {
        spec_advance(commit)
    } else if advice.normal {
        ProgressView::Ask {
            phase: PhaseView::LocatingHead { fetched: commit },
            request: RequestView::ReferenceTarget { reference: head() },
        }
    } else {
        update_failed("the fetched commit cannot be merged"@)
    }
}

/// What follows when `reply` answers the request that was made in `phase`.
pub open spec fn spec_step(
    config: ConfigView,
    operation: OperationView,
    phase: PhaseView,
    reply: ReplyView,
) -> ProgressView {
    match phase {
        PhaseView::Opening => match reply {
            ReplyView::Done => spec_resolved(config, operation),
            _ => ProgressView::Ask {
                phase: PhaseView::Cloning,
                request: RequestView::CloneRemote {
                    url: config.repository_url,
                    path: config.repository_local_dir,
                    branch: config.remote_branch,
                },
            },
        },
        PhaseView::Cloning => match reply {
            ReplyView::Done => spec_resolved(config, operation),
            _ => clone_failed(cause_of(reply)),
        },
        PhaseView::Fetching => match reply {
            ReplyView::Done => ProgressView::Ask {
                phase: PhaseView::LocatingFetched,
                request: RequestView::ReferenceTarget { reference: fetch_head() },
            },
            _ => update_failed(cause_of(reply)),
        },
        PhaseView::LocatingFetched => match reply {
            ReplyView::Commit(commit) => ProgressView::Ask {
                phase: PhaseView::Analysing { commit },
                request: RequestView::Analyse { commit },
            },
            _ => update_failed(cause_of(reply)),
        },
        PhaseView::Analysing { commit } => match reply {
            ReplyView::Analysis(advice) => spec_analysed(commit, advice),
            _ => update_failed(cause_of(reply)),
        },
        PhaseView::LocatingHead { fetched } => match reply {
            ReplyView::Commit(ours) => ProgressView::Ask {
                phase: PhaseView::Merging { ours, theirs: fetched },
                request: RequestView::Merge { ours, theirs: fetched },
            },
            _ => update_failed(cause_of(reply)),
        },
        PhaseView::Merging { ours, theirs } => match reply {
            ReplyView::Tree(tree) => ProgressView::Ask {
                phase: PhaseView::Recording,
                request: RequestView::RecordMerge { tree, ours, theirs },
            },
            _ => update_failed(cause_of(reply)),
        },
        PhaseView::Recording => match reply {
            ReplyView::Commit(merged) => spec_advance(merged),
            _ => update_failed(cause_of(reply)),
        },
        PhaseView::CheckingOutCommit { commit } => match reply {
            ReplyView::Done => ProgressView::Ask {
                phase: PhaseView::MovingBranch,
                request: RequestView::MoveBranch {
                    reference: branch_reference(config.remote_branch),
                    commit,
                },
            },
            _ => update_failed(cause_of(reply)),
        },
        PhaseView::MovingBranch => match reply {
            ReplyView::Done => ProgressView::Ask {
                phase: PhaseView::AttachingBranch,
                request: RequestView::AttachHead {
                    reference: branch_reference(config.remote_branch),
                },
            },
            _ => update_failed(cause_of(reply)),
        },
        PhaseView::AttachingBranch => match reply {
            ReplyView::Done => ProgressView::Done(Ok(())),
            _ => update_failed(cause_of(reply)),
        },
        PhaseView::Parsing => match reply {
            ReplyView::Commit(commit) => ProgressView::Ask {
                phase: PhaseView::Detaching,
                request: RequestView::DetachHead { commit },
            },
            _ => version_failed("failed to set version: "@ + cause_of(reply)),
        },
        PhaseView::Detaching => match reply {
            ReplyView::Done => ProgressView::Ask {
                phase: PhaseView::CheckingOutVersion,
                request: RequestView::CheckoutHead,
            },
            _ => version_failed("failed to set version: "@ + cause_of(reply)),
        },
        PhaseView::CheckingOutVersion => match reply {
            ReplyView::Done => ProgressView::Done(Ok(())),
            _ => version_failed("failed to set version: "@ + cause_of(reply)),
        },
        PhaseView::Resolving => match reply {
            ReplyView::Reference { name: Some(name) } => ProgressView::Ask {
                phase: PhaseView::Attaching,
                request: RequestView::AttachHead { reference: name },
            },
            ReplyView::Reference { name: None } => version_failed(
                "found no name for main branch reference"@,
            ),
            ReplyView::NoReference => version_failed(
                "found no reference for main branch"@,
            ),
            _ => version_failed("failed to set version: "@ + cause_of(reply)),
        },
        PhaseView::Attaching => match reply {
            ReplyView::Done => ProgressView::Ask {
                phase: PhaseView::CheckingOutLatest,
                request: RequestView::CheckoutHead,
            },
            _ => version_failed("failed to set head: "@ + cause_of(reply)),
        },
        PhaseView::CheckingOutLatest => match reply {
            ReplyView::Done => ProgressView::Done(Ok(())),
            _ => version_failed("failed to checkout head: "@ + cause_of(reply)),
        },
    }
}

/// An upper bound on the number of requests that are still to come.
pub open spec fn steps_left(progress: ProgressView) -> nat {
    match progress {
        ProgressView::Done(_) => 0,
        ProgressView::Ask { phase, .. } => match phase {
            PhaseView::Opening => 11,
            PhaseView::Cloning => 10,
            PhaseView::Fetching => 9,
            PhaseView::LocatingFetched => 8,
            PhaseView::Analysing { .. } => 7,
            PhaseView::LocatingHead { .. } => 6,
            PhaseView::Merging { .. } => 5,
            PhaseView::Recording => 4,
            PhaseView::CheckingOutCommit { .. } => 3,
            PhaseView::MovingBranch => 2,
            PhaseView::AttachingBranch => 1,
            PhaseView::Parsing => 3,
            PhaseView::Detaching => 2,
            PhaseView::CheckingOutVersion => 1,
            PhaseView::Resolving => 3,
            PhaseView::Attaching => 2,
            PhaseView::CheckingOutLatest => 1,
        },
    }
}

/// The cause that `reply` gives for a failure.
fn cause(reply: &Reply) -> (text: String)
    ensures
        text@ == cause_of(reply@),
{
    match reply {
        Reply::Failed(cause) => cause.clone(),
        _ => "unexpected reply".to_owned(),
    }
}

/// Ends the operation in the failure of cloning.
fn fail_clone(reply: &Reply) -> (progress: Progress)
    ensures
        progress@ == clone_failed(cause_of(reply@)),
{
    let cause = cause(reply);
    Progress::Done(
        Err(
            DownloadError::wrap(
                ErrorKind::CloneFailed,
                "failed to clone repository: ",
                cause.as_str(),
            ),
        ),
    )
}

/// Ends the operation in the failure of an update, for the given cause.
fn fail_update(cause: &str) -> (progress: Progress)
    ensures
        progress@ == update_failed(cause@),
{
    Progress::Done(
        Err(
            DownloadError::wrap(
                ErrorKind::FailedToUpdateDefinitions,
                "failed to update definitions: ",
                cause,
            ),
        ),
    )
}

/// Ends the operation in the failure of the step that `step` describes.
fn fail_version(step: &str, reply: &Reply) -> (progress: Progress)
    ensures
        progress@ == version_failed(step@ + cause_of(reply@)),
{
    let cause = cause(reply);
    Progress::Done(Err(DownloadError::wrap(ErrorKind::VersionSetFailure, step, cause.as_str())))
}

/// The full name of the local branch `branch`.
fn branch_reference_name(branch: &str) -> (name: String)
    ensures
        name@ == branch_reference(branch@),
{
    "refs/heads/".to_owned().concat(branch)
}

/// The first request of every operation on the mirror that `config`
/// describes: open the local repository.
pub fn start(config: &GitConfig) -> (progress: Progress)
    ensures
        progress@ == spec_start(config@),
{
    Progress::Ask {
        phase: Phase::Opening,
        request: Request::Open { path: config.repository_local_dir.clone() },
    }
}

/// What `operation` does once the local repository is at hand.
fn resolved(config: &GitConfig, operation: &Operation) -> (progress: Progress)
    ensures
        progress@ == spec_resolved(config@, operation@),
{
    match operation {
        Operation::Download => Progress::Done(Ok(())),
        Operation::Update => Progress::Ask {
            phase: Phase::Fetching,
            request: Request::Fetch {
                remote: config.remote_name.clone(),
                branch: config.remote_branch.clone(),
            },
        },
        Operation::SetVersion { hash } => Progress::Ask {
            phase: Phase::Parsing,
            request: Request::ParseCommitId { text: hash.clone() },
        },
        Operation::SetVersionToLatest => Progress::Ask {
            phase: Phase::Resolving,
            request: Request::ResolveReference { revision: "main".to_owned() },
        },
    }
}

/// The request to check out `commit`, the one that the tracked branch is to
/// move to.
fn advance(commit: ObjectId) -> (progress: Progress)
    ensures
        progress@ == spec_advance(commit@),
{
    Progress::Ask {
        phase: Phase::CheckingOutCommit { commit },
        request: Request::CheckoutCommit { commit },
    }
}

/// What an update does once the fetched commit is compared with HEAD.
fn analysed(commit: ObjectId, advice: MergeAdvice) -> (progress: Progress)
    ensures
        progress@ == spec_analysed(commit@, advice),
{
    if advice.up_to_date {
        Progress::Done(Ok(()))
    } else if advice.fast_forward {
        advance(commit)
    } else if advice.normal {
        Progress::Ask {
            phase: Phase::LocatingHead { fetched: commit },
            request: Request::ReferenceTarget { reference: "HEAD".to_owned() },
        }
    } else {
        fail_update("the fetched commit cannot be merged")
    }
}

/// What `operation` does next, when `reply` answers the request that it made
/// in `phase`: the next request, or the result that it ends with.
pub fn step(config: &GitConfig, operation: &Operation, phase: Phase, reply: &Reply) -> (progress:
    Progress)
    ensures
        progress@ == spec_step(config@, operation@, phase@, reply@),
{
    match phase {
        Phase::Opening => match reply {
            Reply::Done => resolved(config, operation),
            _ => Progress::Ask {
                phase: Phase::Cloning,
                request: Request::CloneRemote {
                    url: config.repository_url.clone(),
                    path: config.repository_local_dir.clone(),
                    branch: config.remote_branch.clone(),
                },
            },
        },
        Phase::Cloning => match reply {
            Reply::Done => resolved(config, operation),
            other => fail_clone(other),
        },
        Phase::Fetching => match reply {
            Reply::Done => Progress::Ask {
                phase: Phase::LocatingFetched,
                request: Request::ReferenceTarget { reference: "FETCH_HEAD".to_owned() },
            },
            other => fail_update(cause(other).as_str()),
        },
        Phase::LocatingFetched => match reply {
            Reply::Commit(commit) => Progress::Ask {
                phase: Phase::Analysing { commit: *commit },
                request: Request::Analyse { commit: *commit },
            },
            other => fail_update(cause(other).as_str()),
        },
        Phase::Analysing { commit } => match reply {
            Reply::Analysis(advice) => analysed(commit, *advice),
            other => fail_update(cause(other).as_str()),
        },
        Phase::LocatingHead { fetched } => match reply {
            Reply::Commit(ours) => Progress::Ask {
                phase: Phase::Merging { ours: *ours, theirs: fetched },
                request: Request::Merge { ours: *ours, theirs: fetched },
            },
            other => fail_update(cause(other).as_str()),
        },
        Phase::Merging { ours, theirs } => match reply {
            Reply::Tree(tree) => Progress::Ask {
                phase: Phase::Recording,
                request: Request::RecordMerge { tree: *tree, ours, theirs },
            },
            other => fail_update(cause(other).as_str()),
        },
        Phase::Recording => match reply {
            Reply::Commit(merged) => advance(*merged),
            other => fail_update(cause(other).as_str()),
        },
        Phase::CheckingOutCommit { commit } => match reply {
            Reply::Done => Progress::Ask {
                phase: Phase::MovingBranch,
                request: Request::MoveBranch {
                    reference: branch_reference_name(config.remote_branch.as_str()),
                    commit,
                },
            },
            other => fail_update(cause(other).as_str()),
        },
        Phase::MovingBranch => match reply {
            Reply::Done => Progress::Ask {
                phase: Phase::AttachingBranch,
                request: Request::AttachHead {
                    reference: branch_reference_name(config.remote_branch.as_str()),
                },
            },
            other => fail_update(cause(other).as_str()),
        },
        Phase::AttachingBranch => match reply {
            Reply::Done => Progress::Done(Ok(())),
            other => fail_update(cause(other).as_str()),
        },
        Phase::Parsing => match reply {
            Reply::Commit(commit) => Progress::Ask {
                phase: Phase::Detaching,
                request: Request::DetachHead { commit: *commit },
            },
            other => fail_version("failed to set version: ", other),
        },
        Phase::Detaching => match reply {
            Reply::Done => Progress::Ask {
                phase: Phase::CheckingOutVersion,
                request: Request::CheckoutHead,
            },
            other => fail_version("failed to set version: ", other),
        },
        Phase::CheckingOutVersion => match reply {
            Reply::Done => Progress::Done(Ok(())),
            other => fail_version("failed to set version: ", other),
        },
        Phase::Resolving => match reply {
            Reply::Reference { name: Some(name) } => Progress::Ask {
                phase: Phase::Attaching,
                request: Request::AttachHead { reference: name.clone() },
            },
            Reply::Reference { name: None } => Progress::Done(
                Err(
                    DownloadError::new(
                        ErrorKind::VersionSetFailure,
                        "found no name for main branch reference",
                    ),
                ),
            ),
            Reply::NoReference => Progress::Done(
                Err(
                    DownloadError::new(
                        ErrorKind::VersionSetFailure,
                        "found no reference for main branch",
                    ),
                ),
            ),
            other => fail_version("failed to set version: ", other),
        },
        Phase::Attaching => match reply {
            Reply::Done => Progress::Ask {
                phase: Phase::CheckingOutLatest,
                request: Request::CheckoutHead,
            },
            other => fail_version("failed to set head: ", other),
        },
        Phase::CheckingOutLatest => match reply {
            Reply::Done => Progress::Done(Ok(())),
            other => fail_version("failed to checkout head: ", other),
        },
    }
}

/// Every answer brings an operation nearer to its end.
pub proof fn lemma_step_shortens(
    config: ConfigView,
    operation: OperationView,
    phase: PhaseView,
    request: RequestView,
    reply: ReplyView,
)
    ensures
        steps_left(spec_step(config, operation, phase, reply)) < steps_left(
            ProgressView::Ask { phase, request },
        ),
{
}

} // verus!

//! What holds of every run of an operation.

use vstd::prelude::*;
use crate::error::{ErrorKind, ErrorView};
use crate::exchange::{asked, can_end, conforming, run};
use crate::git_config::ConfigView;
use crate::model::{faithful, local_after, Head, Local};
use crate::object_id::{hash_bytes, well_formed_hash};
use crate::plan::{
    branch_reference, fetch_head, main_branch, spec_start, OperationView, ProgressView,
};
use crate::request::{MergeAdvice, ReplyView, RequestView};

verus! {

/// Detaching: where setting the version succeeds, the hash was well formed
/// and HEAD is detached at the very commit that the hash denotes.
pub proof fn law_set_version_detaches(
    config: ConfigView,
    hash: Seq<char>,
    local: Local,
    replies: Seq<ReplyView>,
)
    requires
        faithful(config, (OperationView::SetVersion { hash }), spec_start(config), local, replies),
        run(config, (OperationView::SetVersion { hash }), spec_start(config), replies)
            == ProgressView::Done(Ok(())),
    ensures
        well_formed_hash(hash),
        local_after(config, (OperationView::SetVersion { hash }), spec_start(config), local, replies)
            == (Local::Present { head: Head::Detached { commit: hash_bytes(hash) } }),
{
    reveal_with_fuel(faithful, 6);
    reveal_with_fuel(run, 6);
    reveal_with_fuel(local_after, 6);
}

/// Presence: a download into a directory that holds no repository clones
/// once; a second download then opens what the first one left, asks for
/// nothing else, succeeds and changes nothing.
pub proof fn law_download_is_idempotent(
    config: ConfigView,
    first: Seq<ReplyView>,
    second: Seq<ReplyView>,
)
    requires
        faithful(config, OperationView::Download, spec_start(config), Local::Absent, first),
        run(config, OperationView::Download, spec_start(config), first) == ProgressView::Done(
            Ok(()),
        ),
        faithful(
            config,
            OperationView::Download,
            spec_start(config),
            local_after(config, OperationView::Download, spec_start(config), Local::Absent, first),
            second,
        ),
        run(config, OperationView::Download, spec_start(config), second) is Done,
    ensures
        asked(config, OperationView::Download, spec_start(config), first) == seq![
            RequestView::Open { path: config.repository_local_dir },
            RequestView::CloneRemote {
                url: config.repository_url,
                path: config.repository_local_dir,
                branch: config.remote_branch,
            },
        ],
        asked(config, OperationView::Download, spec_start(config), second) == seq![
            RequestView::Open { path: config.repository_local_dir },
        ],
        run(config, OperationView::Download, spec_start(config), second) == ProgressView::Done(
            Ok(()),
        ),
        local_after(
            config,
            OperationView::Download,
            spec_start(config),
            local_after(config, OperationView::Download, spec_start(config), Local::Absent, first),
            second,
        ) == local_after(config, OperationView::Download, spec_start(config), Local::Absent, first),
{
    reveal_with_fuel(faithful, 4);
    reveal_with_fuel(run, 4);
    reveal_with_fuel(local_after, 4);
    reveal_with_fuel(asked, 4);
    let op = OperationView::Download;
    assert(asked(config, op, spec_start(config), first) =~= seq![
        RequestView::Open { path: config.repository_local_dir },
        RequestView::CloneRemote {
            url: config.repository_url,
            path: config.repository_local_dir,
            branch: config.remote_branch,
        },
    ]);
    assert(asked(config, op, spec_start(config), second) =~= seq![
        RequestView::Open { path: config.repository_local_dir },
    ]);
}

/// Opening comes before cloning: whatever the operation, a clone is asked for
/// only as the second request, and only when the request to open has failed.
pub proof fn law_clone_follows_failed_open(
    config: ConfigView,
    operation: OperationView,
    replies: Seq<ReplyView>,
    i: int,
)
    requires
        0 <= i < asked(config, operation, spec_start(config), replies).len(),
        asked(config, operation, spec_start(config), replies)[i] is CloneRemote,
    ensures
        i == 1,
        !(replies[0] is Done),
{
    reveal_with_fuel(asked, 14);
}

/// Opening comes before cloning: where the local directory holds a
/// repository, no operation asks for a clone, whatever the remote would
/// answer.
pub proof fn law_present_repository_is_not_cloned(
    config: ConfigView,
    operation: OperationView,
    local: Local,
    replies: Seq<ReplyView>,
    i: int,
)
    requires
        local is Present,
        faithful(config, operation, spec_start(config), local, replies),
        0 <= i < asked(config, operation, spec_start(config), replies).len(),
    ensures
        !(asked(config, operation, spec_start(config), replies)[i] is CloneRemote),
{
    if asked(config, operation, spec_start(config), replies)[i] is CloneRemote {
        law_clone_follows_failed_open(config, operation, replies, i);
        reveal_with_fuel(faithful, 2);
        reveal_with_fuel(asked, 2);
    }
}

/// Rejection of a malformed hash: where the local directory holds a
/// repository and the hash is not well formed, setting the version ends in a
/// `VersionSetFailure` and HEAD stays where it was.
pub proof fn law_malformed_hash_is_rejected(
    config: ConfigView,
    hash: Seq<char>,
    local: Local,
    replies: Seq<ReplyView>,
)
    requires
        !well_formed_hash(hash),
        local is Present,
        faithful(config, (OperationView::SetVersion { hash }), spec_start(config), local, replies),
        run(config, (OperationView::SetVersion { hash }), spec_start(config), replies) is Done,
    ensures
        run(config, (OperationView::SetVersion { hash }), spec_start(config), replies) matches
            ProgressView::Done(Err(error)) && error.kind == ErrorKind::VersionSetFailure,
        local_after(config, (OperationView::SetVersion { hash }), spec_start(config), local, replies)
            == local,
{
    reveal_with_fuel(faithful, 6);
    reveal_with_fuel(run, 6);
    reveal_with_fuel(local_after, 6);
}

/// Rejection of a malformed hash: whatever the local directory holds, setting
/// the version to a hash that is not well formed does not succeed, and asks
/// neither to move HEAD nor to check anything out.
pub proof fn law_malformed_hash_moves_nothing(
    config: ConfigView,
    hash: Seq<char>,
    replies: Seq<ReplyView>,
    i: int,
)
    requires
        !well_formed_hash(hash),
        conforming(config, (OperationView::SetVersion { hash }), spec_start(config), replies),
        0 <= i < asked(config, (OperationView::SetVersion { hash }), spec_start(config), replies).len(),
    ensures
        run(config, (OperationView::SetVersion { hash }), spec_start(config), replies)
            != ProgressView::Done(Ok(())),
        ({
            let request = asked(
                config,
                (OperationView::SetVersion { hash }),
                spec_start(config),
                replies,
            )[i];
            request is Open || request is CloneRemote || request is ParseCommitId
        }),
{
    reveal_with_fuel(conforming, 6);
    reveal_with_fuel(run, 6);
    reveal_with_fuel(asked, 6);
}

/// The main line: where moving to the latest version succeeds, HEAD is
/// attached to the reference that the engine named for the main line.
pub proof fn law_latest_attaches(config: ConfigView, local: Local, replies: Seq<ReplyView>)
    requires
        faithful(config, OperationView::SetVersionToLatest, spec_start(config), local, replies),
        run(config, OperationView::SetVersionToLatest, spec_start(config), replies)
            == ProgressView::Done(Ok(())),
    ensures
        local_after(config, OperationView::SetVersionToLatest, spec_start(config), local, replies)
            matches Local::Present { head: Head::Attached { reference } } && exists|i: int|
            0 <= i < replies.len() && #[trigger] asked(
                config,
                OperationView::SetVersionToLatest,
                spec_start(config),
                replies,
            )[i] == (RequestView::ResolveReference { revision: main_branch() }) && replies[i] == (
            ReplyView::Reference { name: Some(reference) }),
{
    reveal_with_fuel(faithful, 6);
    reveal_with_fuel(run, 6);
    reveal_with_fuel(local_after, 6);
    reveal_with_fuel(asked, 6);
    let op = OperationView::SetVersionToLatest;
    let i: int = if replies[0] is Done {
        1
    } else {
        2
    };
    assert(asked(config, op, spec_start(config), replies)[i] == (RequestView::ResolveReference {
        revision: main_branch(),
    }));
}

/// The main line is missing: where the local directory holds a repository
/// and the engine finds no reference for the main line, moving to the latest
/// version ends in a `VersionSetFailure` and HEAD stays where it was.
pub proof fn law_missing_main_line(config: ConfigView, local: Local, replies: Seq<ReplyView>)
    requires
        local is Present,
        faithful(config, OperationView::SetVersionToLatest, spec_start(config), local, replies),
        run(config, OperationView::SetVersionToLatest, spec_start(config), replies) is Done,
        forall|i: int|
            0 <= i < replies.len() && #[trigger] asked(
                config,
                OperationView::SetVersionToLatest,
                spec_start(config),
                replies,
            )[i] is ResolveReference ==> !(replies[i] is Reference),
    ensures
        run(config, OperationView::SetVersionToLatest, spec_start(config), replies) matches
            ProgressView::Done(Err(error)) && error.kind == ErrorKind::VersionSetFailure,
        local_after(config, OperationView::SetVersionToLatest, spec_start(config), local, replies)
            == local,
{
    reveal_with_fuel(faithful, 6);
    reveal_with_fuel(run, 6);
    reveal_with_fuel(local_after, 6);
    reveal_with_fuel(asked, 6);
    let op = OperationView::SetVersionToLatest;
    assert(asked(config, op, spec_start(config), replies)[1] is ResolveReference);
}

/// An update keeps HEAD on a branch: it never asks to detach HEAD, and where
/// it succeeds on a repository whose HEAD was not detached, HEAD is attached
/// afterwards.
pub proof fn law_update_keeps_head_attached(
    config: ConfigView,
    local: Local,
    replies: Seq<ReplyView>,
    i: int,
)
    requires
        faithful(config, OperationView::Update, spec_start(config), local, replies),
        0 <= i < asked(config, OperationView::Update, spec_start(config), replies).len(),
    ensures
        !(asked(config, OperationView::Update, spec_start(config), replies)[i] is DetachHead),
        !(local matches Local::Present { head: Head::Detached { .. } }) && run(
            config,
            OperationView::Update,
            spec_start(config),
            replies,
        ) == ProgressView::Done(Ok(())) ==> local_after(
            config,
            OperationView::Update,
            spec_start(config),
            local,
            replies,
        ) matches Local::Present { head: Head::Attached { .. } },
{
    reveal_with_fuel(faithful, 14);
    reveal_with_fuel(run, 14);
    reveal_with_fuel(local_after, 14);
    reveal_with_fuel(asked, 14);
}

/// Whether `message` is `step` followed by some cause.
pub open spec fn reports(message: Seq<char>, step: Seq<char>) -> bool {
    step.is_prefix_of(message)
}

/// A step followed by a cause reports the step.
pub proof fn lemma_reports(step: Seq<char>, cause: Seq<char>)
    ensures
        reports(step + cause, step),
{
    assert((step + cause).subrange(0, step.len() as int) =~= step);
}

/// What a failure of `operation` can be: a failure to clone, or a failure of
/// the operation's own kind; in either case the message names the step that
/// failed.
pub open spec fn failure_of(operation: OperationView, error: ErrorView) -> bool {
    ||| error.kind == ErrorKind::CloneFailed && reports(
        error.message,
        "failed to clone repository: "@,
    )
    ||| operation is Update && error.kind == ErrorKind::FailedToUpdateDefinitions && reports(
        error.message,
        "failed to update definitions: "@,
    )
    ||| operation is SetVersion && error.kind == ErrorKind::VersionSetFailure && reports(
        error.message,
        "failed to set version: "@,
    )
    ||| operation is SetVersionToLatest && error.kind == ErrorKind::VersionSetFailure && {
        ||| reports(error.message, "failed to set version: "@)
        ||| error.message == "found no reference for main branch"@
        ||| error.message == "found no name for main branch reference"@
        ||| reports(error.message, "failed to set head: "@)
        ||| reports(error.message, "failed to checkout head: "@)
    }
}

/// The kinds of failure: a download fails only in cloning, an update only in
/// cloning or in updating, and setting a version only in cloning or in
/// setting the version; the message begins with the step that failed.
pub proof fn law_failures_are_typed(
    config: ConfigView,
    operation: OperationView,
    error: ErrorView,
)
    requires
        can_end(config, operation, Err(error)),
    ensures
        failure_of(operation, error),
{
    let replies = choose|replies: Seq<ReplyView>|
        {
            &&& #[trigger] conforming(config, operation, spec_start(config), replies)
            &&& run(config, operation, spec_start(config), replies) == ProgressView::Done(
                Err(error),
            )
        };
    reveal_with_fuel(run, 14);
    assert forall|step: Seq<char>, cause: Seq<char>| #[trigger] reports(step + cause, step) by {
        lemma_reports(step, cause);
    }
}

/// Rejection of a malformed hash: setting the version to a hash that is not
/// well formed fails.
pub proof fn law_malformed_hash_fails(
    config: ConfigView,
    hash: Seq<char>,
    result: Result<(), ErrorView>,
)
    requires
        !well_formed_hash(hash),
        can_end(config, (OperationView::SetVersion { hash }), result),
    ensures
        result is Err,
{
    let operation = OperationView::SetVersion { hash };
    let replies = choose|replies: Seq<ReplyView>|
        {
            &&& #[trigger] conforming(config, operation, spec_start(config), replies)
            &&& run(config, operation, spec_start(config), replies) == ProgressView::Done(result)
        };
    reveal_with_fuel(conforming, 6);
    reveal_with_fuel(run, 6);
}

/// The repository comes first: whatever the operation, a request other than
/// to open or to clone is made only once one of these two has succeeded.
pub proof fn law_repository_comes_first(
    config: ConfigView,
    operation: OperationView,
    replies: Seq<ReplyView>,
    i: int,
)
    requires
        0 <= i < asked(config, operation, spec_start(config), replies).len(),
        !(asked(config, operation, spec_start(config), replies)[i] is Open),
        !(asked(config, operation, spec_start(config), replies)[i] is CloneRemote),
    ensures
        asked(config, operation, spec_start(config), replies)[0] is Open,
        replies[0] is Done || (i >= 2 && replies[1] is Done && asked(
            config,
            operation,
            spec_start(config),
            replies,
        )[1] is CloneRemote),
{
    reveal_with_fuel(asked, 14);
}

/// Presence is all that a download asks for: it succeeds exactly when the
/// repository opens or, failing that, the clone succeeds.
pub proof fn law_download_succeeds_when_present_or_cloned(
    config: ConfigView,
    replies: Seq<ReplyView>,
)
    requires
        conforming(config, OperationView::Download, spec_start(config), replies),
        run(config, OperationView::Download, spec_start(config), replies) is Done,
    ensures
        run(config, OperationView::Download, spec_start(config), replies) == ProgressView::Done(
            Ok(()),
        ) <==> replies[0] is Done || (replies.len() == 2 && replies[1] is Done),
{
    reveal_with_fuel(conforming, 4);
    reveal_with_fuel(run, 4);
}

/// No failure is passed over: where an operation succeeds, every request
/// after the one to open succeeded.
pub proof fn law_success_needs_every_step(
    config: ConfigView,
    operation: OperationView,
    replies: Seq<ReplyView>,
    i: int,
)
    requires
        conforming(config, operation, spec_start(config), replies),
        run(config, operation, spec_start(config), replies) == ProgressView::Done(Ok(())),
        1 <= i < replies.len(),
    ensures
        !(replies[i] is Failed),
{
    reveal_with_fuel(conforming, 14);
    reveal_with_fuel(run, 14);
}

/// An update goes to what was fetched: where the repository opens and the
/// engine finds that the fetched commit lies ahead of HEAD, a successful
/// update has checked that commit out, moved the tracked branch to it and
/// attached HEAD to the tracked branch, and asked for nothing else.
pub proof fn law_update_advances_to_fetched(
    config: ConfigView,
    replies: Seq<ReplyView>,
    fetched: Seq<u8>,
    advice: MergeAdvice,
)
    requires
        conforming(config, OperationView::Update, spec_start(config), replies),
        run(config, OperationView::Update, spec_start(config), replies) == ProgressView::Done(
            Ok(()),
        ),
        replies.len() > 3,
        replies[0] is Done,
        replies[2] == ReplyView::Commit(fetched),
        replies[3] == ReplyView::Analysis(advice),
        !advice.up_to_date,
        advice.fast_forward,
    ensures
        asked(config, OperationView::Update, spec_start(config), replies) == seq![
            RequestView::Open { path: config.repository_local_dir },
            RequestView::Fetch { remote: config.remote_name, branch: config.remote_branch },
            RequestView::ReferenceTarget { reference: fetch_head() },
            RequestView::Analyse { commit: fetched },
            RequestView::CheckoutCommit { commit: fetched },
            RequestView::MoveBranch {
                reference: branch_reference(config.remote_branch),
                commit: fetched,
            },
            RequestView::AttachHead { reference: branch_reference(config.remote_branch) },
        ],
{
    reveal_with_fuel(conforming, 14);
    reveal_with_fuel(run, 14);
    reveal_with_fuel(asked, 14);
    assert(asked(config, OperationView::Update, spec_start(config), replies) =~= seq![
        RequestView::Open { path: config.repository_local_dir },
        RequestView::Fetch { remote: config.remote_name, branch: config.remote_branch },
        RequestView::ReferenceTarget { reference: fetch_head() },
        RequestView::Analyse { commit: fetched },
        RequestView::CheckoutCommit { commit: fetched },
        RequestView::MoveBranch {
            reference: branch_reference(config.remote_branch),
            commit: fetched,
        },
        RequestView::AttachHead { reference: branch_reference(config.remote_branch) },
    ]);
}

} // verus!

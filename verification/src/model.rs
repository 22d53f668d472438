//! The local repository as far as the operations are concerned: whether it is
//! there, and where its HEAD points. This is the yardstick that the laws of
//! the operations are stated against; it describes an engine that keeps to
//! its interface, and claims nothing of any engine in particular.

use vstd::prelude::*;
use crate::git_config::ConfigView;
use crate::plan::{branch_reference, spec_step, OperationView, ProgressView};
use crate::request::{answers, ReplyView, RequestView};

verus! {

/// Where HEAD points.
pub enum Head {
    /// At the reference of this name, and through it at a commit.
    Attached { reference: Seq<char> },
    /// At this commit itself.
    Detached { commit: Seq<u8> },
}

/// What the local directory holds.
pub enum Local {
    /// No repository that can be opened.
    Absent,
    /// A repository whose HEAD points where `head` says.
    Present { head: Head },
}

/// The local repository after the engine has answered `request` with
/// `reply`: a clone that succeeds leaves a repository with HEAD attached to
/// the branch that was asked for, and a request to detach or attach HEAD
/// that succeeds moves HEAD. Nothing else changes what is modelled here.
pub open spec fn effect(local: Local, request: RequestView, reply: ReplyView) -> Local {
    if reply is Done {
        match request {
            RequestView::CloneRemote { branch, .. } => Local::Present {
                head: Head::Attached { reference: branch_reference(branch) },
            },
            RequestView::DetachHead { commit } => Local::Present { head: Head::Detached { commit } },
            RequestView::AttachHead { reference } => Local::Present {
                head: Head::Attached { reference },
            },
            _ => local,
        }
    } else {
        local
    }
}

/// Whether an engine that keeps to its interface can answer `request` with
/// `reply` when the local directory holds `local`: the reply answers the
/// request, and the repository is opened exactly when it is there.
pub open spec fn honours(local: Local, request: RequestView, reply: ReplyView) -> bool {
    &&& answers(request, reply)
    &&& request is Open ==> (reply is Done <==> local is Present)
}

/// Whether `replies` can be what such an engine gives, beginning at
/// `progress` with the local directory holding `local`.
pub open spec fn faithful(
    config: ConfigView,
    operation: OperationView,
    progress: ProgressView,
    local: Local,
    replies: Seq<ReplyView>,
) -> bool
    decreases replies.len(),
{
    if replies.len() == 0 {
        true
    } else {
        match progress {
            ProgressView::Done(_) => false,
            ProgressView::Ask { phase, request } => {
                &&& honours(local, request, replies.first())
                &&& faithful(
                    config,
                    operation,
                    spec_step(config, operation, phase, replies.first()),
                    effect(local, request, replies.first()),
                    replies.drop_first(),
                )
            },
        }
    }
}

/// What the local directory holds after `replies`, beginning at `progress`
/// with the local directory holding `local`.
pub open spec fn local_after(
    config: ConfigView,
    operation: OperationView,
    progress: ProgressView,
    local: Local,
    replies: Seq<ReplyView>,
) -> Local
    decreases replies.len(),
{
    if replies.len() == 0 {
        local
    } else {
        match progress {
            ProgressView::Done(_) => local,
            ProgressView::Ask { phase, request } => local_after(
                config,
                operation,
                spec_step(config, operation, phase, replies.first()),
                effect(local, request, replies.first()),
                replies.drop_first(),
            ),
        }
    }
}

} // verus!

//! Whole runs of an operation: the answers that the engine gives one after
//! another, the requests that they answer, and where the operation stands in
//! the end.

use vstd::prelude::*;
use crate::error::{DownloadError, ErrorView};
use crate::git_config::ConfigView;
use crate::plan::{result_view, spec_start, spec_step, OperationView, ProgressView};
use crate::request::{answers, Reply, ReplyView, Request, RequestView};

verus! {

/// Where `operation` stands after the engine has given `replies` one after
/// another, beginning at `progress`. Replies that come after the end are not
/// looked at.
pub open spec fn run(
    config: ConfigView,
    operation: OperationView,
    progress: ProgressView,
    replies: Seq<ReplyView>,
) -> ProgressView
    decreases replies.len(),
{
    if replies.len() == 0 {
        progress
    } else {
        match progress {
            ProgressView::Done(_) => progress,
            ProgressView::Ask { phase, .. } => run(
                config,
                operation,
                spec_step(config, operation, phase, replies.first()),
                replies.drop_first(),
            ),
        }
    }
}

/// The requests that `replies` are given to, in order, beginning at
/// `progress`.
pub open spec fn asked(
    config: ConfigView,
    operation: OperationView,
    progress: ProgressView,
    replies: Seq<ReplyView>,
) -> Seq<RequestView>
    decreases replies.len(),
{
    if replies.len() == 0 {
        Seq::empty()
    } else {
        match progress {
            ProgressView::Done(_) => Seq::empty(),
            ProgressView::Ask { phase, request } => seq![request] + asked(
                config,
                operation,
                spec_step(config, operation, phase, replies.first()),
                replies.drop_first(),
            ),
        }
    }
}

/// Whether `replies` can be what an engine gives, beginning at `progress`:
/// each reply answers the request that it is given to, and none comes after
/// the end.
pub open spec fn conforming(
    config: ConfigView,
    operation: OperationView,
    progress: ProgressView,
    replies: Seq<ReplyView>,
) -> bool
    decreases replies.len(),
{
    if replies.len() == 0 {
        true
    } else {
        match progress {
            ProgressView::Done(_) => false,
            ProgressView::Ask { phase, request } => {
                &&& answers(request, replies.first())
                &&& conforming(
                    config,
                    operation,
                    spec_step(config, operation, phase, replies.first()),
                    replies.drop_first(),
                )
            },
        }
    }
}

/// Whether `operation`, standing at `progress`, can end with `result`: some
/// replies that an engine can give lead there.
pub open spec fn can_end_from(
    config: ConfigView,
    operation: OperationView,
    progress: ProgressView,
    result: Result<(), ErrorView>,
) -> bool {
    exists|replies: Seq<ReplyView>|
        {
            &&& #[trigger] conforming(config, operation, progress, replies)
            &&& run(config, operation, progress, replies) == ProgressView::Done(result)
        }
}

/// Whether `operation` can end with `result`.
pub open spec fn can_end(
    config: ConfigView,
    operation: OperationView,
    result: Result<(), ErrorView>,
) -> bool {
    can_end_from(config, operation, spec_start(config), result)
}

/// One request together with the answer that the engine gave to it.
#[derive(Clone, Debug, PartialEq, Eq)]
pub struct Exchange {
    /// What was asked.
    pub request: Request,
    /// What was answered.
    pub reply: Reply,
}

/// What an operation did: its result, and everything that it asked of the
/// engine and was answered, in order.
#[derive(Debug, PartialEq, Eq)]
pub struct Report {
    /// How the operation ended.
    pub result: Result<(), DownloadError>,
    /// The requests and their answers.
    pub exchanges: Vec<Exchange>,
}

/// The requests in `exchanges`.
pub open spec fn requests_of(exchanges: Seq<Exchange>) -> Seq<RequestView> {
    Seq::new(exchanges.len(), |i: int| exchanges[i].request@)
}

/// The replies in `exchanges`.
pub open spec fn replies_of(exchanges: Seq<Exchange>) -> Seq<ReplyView> {
    Seq::new(exchanges.len(), |i: int| exchanges[i].reply@)
}

/// Whether `exchanges` and `result` are a whole run of `operation` from
/// `progress`: the requests are the ones that the operation asks, one after
/// another, each reply answers its request, and the operation ends with
/// `result` on the last reply.
pub open spec fn follows(
    config: ConfigView,
    operation: OperationView,
    progress: ProgressView,
    exchanges: Seq<Exchange>,
    result: Result<(), ErrorView>,
) -> bool {
    &&& conforming(config, operation, progress, replies_of(exchanges))
    &&& asked(config, operation, progress, replies_of(exchanges)) == requests_of(exchanges)
    &&& run(config, operation, progress, replies_of(exchanges)) == ProgressView::Done(result)
}

/// Whether `report` records a whole run of `operation`.
pub open spec fn recorded(config: ConfigView, operation: OperationView, report: Report) -> bool {
    follows(config, operation, spec_start(config), report.exchanges@, result_view(report.result))
}

/// An operation that has ended has a run without requests.
pub proof fn lemma_ended(
    config: ConfigView,
    operation: OperationView,
    result: Result<(), ErrorView>,
)
    ensures
        follows(config, operation, ProgressView::Done(result), Seq::empty(), result),
{
    let none = Seq::<Exchange>::empty();
    assert(replies_of(none) =~= Seq::empty());
    assert(requests_of(none) =~= Seq::empty());
}

/// A run that begins with a request is the exchange on that request,
/// followed by a run from where its reply leads.
pub proof fn lemma_answered(
    config: ConfigView,
    operation: OperationView,
    progress: ProgressView,
    exchange: Exchange,
    rest: Seq<Exchange>,
    result: Result<(), ErrorView>,
)
    requires
        progress matches ProgressView::Ask { phase, request } && request == exchange.request@
            && answers(request, exchange.reply@) && follows(
            config,
            operation,
            spec_step(config, operation, phase, exchange.reply@),
            rest,
            result,
        ),
    ensures
        follows(config, operation, progress, rest.insert(0, exchange), result),
{
    let all = rest.insert(0, exchange);
    assert(replies_of(all).first() == exchange.reply@);
    assert(replies_of(all).drop_first() =~= replies_of(rest));
    assert(requests_of(all) =~= seq![exchange.request@] + requests_of(rest));
}

/// What a whole run ends with is something that the operation can end with.
pub proof fn lemma_run_can_end(
    config: ConfigView,
    operation: OperationView,
    progress: ProgressView,
    exchanges: Seq<Exchange>,
    result: Result<(), ErrorView>,
)
    requires
        follows(config, operation, progress, exchanges, result),
    ensures
        can_end_from(config, operation, progress, result),
{
}

} // verus!

//! The mirror itself: its four operations, carried out on the repository in
//! the configured directory.

use vstd::prelude::*;
use crate::error::{DownloadError, ErrorKind};
use crate::exchange::{
    can_end, follows, lemma_answered, lemma_ended, lemma_run_can_end, recorded, Exchange, Report,
};
use crate::git_config::{ConfigView, GitConfig};
use crate::laws::{failure_of, law_failures_are_typed, law_malformed_hash_fails};
use crate::object_id::well_formed_hash;
use crate::plan::{
    lemma_step_shortens, result_view, spec_start, start, step, steps_left, Operation,
    OperationView, Progress,
};
use crate::session::Session;

verus! {

/// A local mirror of one remote repository.
pub struct Downloader {
    config: GitConfig,
}

impl View for Downloader {
    type V = ConfigView;

    closed spec fn view(&self) -> ConfigView {
        self.config@
    }
}

impl Downloader {
    /// The mirror that `git_config` describes. Nothing is read or written
    /// yet.
    pub fn new(git_config: GitConfig) -> (downloader: Downloader)
        ensures
            downloader@ == git_config@,
    {
        Downloader { config: git_config }
    }

    /// Carries `operation` on from `progress` to its end.
    fn finish(&self, session: &mut Session, operation: &Operation, progress: Progress) -> (report:
        Report)
        ensures
            follows(self@, operation@, progress@, report.exchanges@, result_view(report.result)),
        decreases steps_left(progress@),
    {
        match progress {
            Progress::Done(result) => {
                proof {
                    lemma_ended(self@, operation@, result_view(result));
                }
                Report { result, exchanges: Vec::new() }
            },
            Progress::Ask { phase, request } => {
                let reply = session.perform(&request);
                let next = step(&self.config, operation, phase, &reply);
                proof {
                    lemma_step_shortens(self@, operation@, phase@, request@, reply@);
                }
                let mut report = self.finish(session, operation, next);
                let exchange = Exchange { request, reply };
                proof {
                    lemma_answered(
                        self@,
                        operation@,
                        progress@,
                        exchange,
                        report.exchanges@,
                        result_view(report.result),
                    );
                }
                report.exchanges.insert(0, exchange);
                report
            },
        }
    }

    /// Carries `operation` out on the local repository, from its first
    /// request to its end, and reports the result together with everything
    /// that was asked of the engine and answered.
    pub fn carry_out(&self, operation: &Operation) -> (report: Report)
        ensures
            recorded(self@, operation@, report),
    {
        let mut session = Session::new();
        self.finish(&mut session, operation, start(&self.config))
    }

    /// The result of `operation`, carried out on the local repository.
    fn result_of(&self, operation: &Operation) -> (result: Result<(), DownloadError>)
        ensures
            can_end(self@, operation@, result_view(result)),
    {
        let report = self.carry_out(operation);
        proof {
            lemma_run_can_end(
                self@,
                operation@,
                spec_start(self@),
                report.exchanges@,
                result_view(report.result),
            );
        }
        report.result
    }

    /// Makes sure that the local repository exists: opens it, and clones the
    /// remote where it cannot be opened. Nothing is fetched into a
    /// repository that is there already. The result is one that the
    /// engine's answers lead to; a failure is a failure to clone.
    pub fn download(&self) -> (result: Result<(), DownloadError>)
        ensures
            can_end(self@, OperationView::Download, result_view(result)),
            result matches Err(error) ==> failure_of(OperationView::Download, error@),
            result matches Err(error) ==> error@.kind == ErrorKind::CloneFailed,
    {
        let result = self.result_of(&Operation::Download);
        proof {
            if let Err(error) = result_view(result) {
                law_failures_are_typed(self@, OperationView::Download, error);
            }
        }
        result
    }

    /// Makes sure that the local repository exists, fetches the tracked
    /// branch from the remote and moves the local branch forward to what was
    /// fetched. The result is one that the engine's answers lead to; a
    /// failure is a failure to clone or a failure to update.
    pub fn update(&self) -> (result: Result<(), DownloadError>)
        ensures
            can_end(self@, OperationView::Update, result_view(result)),
            result matches Err(error) ==> failure_of(OperationView::Update, error@),
    {
        let result = self.result_of(&Operation::Update);
        proof {
            if let Err(error) = result_view(result) {
                law_failures_are_typed(self@, OperationView::Update, error);
            }
        }
        result
    }

    /// Makes sure that the local repository exists and moves it to the
    /// commit that `hash` names, with HEAD detached. A hash that is not well
    /// formed is refused before HEAD is touched. The result is one that the
    /// engine's answers lead to; a failure is a failure to clone or a
    /// failure to set the version.
    pub fn set_version(&self, hash: String) -> (result: Result<(), DownloadError>)
        ensures
            can_end(self@, (OperationView::SetVersion { hash: hash@ }), result_view(result)),
            !well_formed_hash(hash@) ==> result is Err,
            result matches Err(error) ==> failure_of(
                (OperationView::SetVersion { hash: hash@ }),
                error@,
            ),
    {
        let operation = Operation::SetVersion { hash };
        let result = self.result_of(&operation);
        proof {
            if !well_formed_hash(hash@) {
                law_malformed_hash_fails(self@, hash@, result_view(result));
            }
            if let Err(error) = result_view(result) {
                law_failures_are_typed(self@, operation@, error);
            }
        }
        result
    }

    /// Makes sure that the local repository exists and moves it to the tip
    /// of the main line, with HEAD attached to it. The result is one that
    /// the engine's answers lead to; a failure is a failure to clone or a
    /// failure to set the version.
    pub fn set_version_to_latest(&self) -> (result: Result<(), DownloadError>)
        ensures
            can_end(self@, OperationView::SetVersionToLatest, result_view(result)),
            result matches Err(error) ==> failure_of(OperationView::SetVersionToLatest, error@),
    {
        let result = self.result_of(&Operation::SetVersionToLatest);
        proof {
            if let Err(error) = result_view(result) {
                law_failures_are_typed(self@, OperationView::SetVersionToLatest, error);
            }
        }
        result
    }
}

} // verus!

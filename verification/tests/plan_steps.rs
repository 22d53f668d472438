use git_downloader::object_id::ObjectId;
use git_downloader::error::{DownloadError, ErrorKind};
use git_downloader::git_config::GitConfig;
use git_downloader::plan::{start, step, Operation, Phase, Progress};
use git_downloader::request::{MergeAdvice, Reply, Request};

fn example() -> GitConfig {
    GitConfig {
        repository_url: "https://example/repo.git".to_string(),
        repository_local_dir: "/tmp/r1".to_string(),
        remote_name: "origin".to_string(),
        remote_branch: "main".to_string(),
    }
}

fn tracking(branch: &str) -> GitConfig {
    let mut config = example();
    config.remote_branch = branch.to_string();
    config
}

fn failed(cause: &str) -> Reply {
    Reply::Failed(cause.to_string())
}

fn commit(byte: u8) -> ObjectId {
    ObjectId::from_bytes([byte; 20])
}

fn open_request() -> Request {
    Request::Open { path: "/tmp/r1".to_string() }
}

fn clone_request() -> Request {
    Request::CloneRemote {
        url: "https://example/repo.git".to_string(),
        path: "/tmp/r1".to_string(),
        branch: "main".to_string(),
    }
}

fn failure(kind: ErrorKind, message: &str) -> Progress {
    Progress::Done(Err(DownloadError::new(kind, message)))
}

/// Feeds `replies` to `operation` one after another, and gives back the
/// requests that they answered and where the operation stands in the end.
fn replay(config: &GitConfig, operation: &Operation, replies: Vec<Reply>) -> (Vec<Request>, Progress) {
    let mut requests = Vec::new();
    let mut progress = start(config);
    for reply in replies {
        match progress {
            Progress::Ask { phase, request } => {
                requests.push(request);
                progress = step(config, operation, phase, &reply);
            }
            Progress::Done(_) => panic!("a reply was left over"),
        }
    }
    (requests, progress)
}

fn set_version(hash: &str) -> Operation {
    Operation::SetVersion { hash: hash.to_string() }
}

#[test]
fn every_operation_starts_by_opening_the_local_directory() {
    assert_eq!(start(&example()), Progress::Ask { phase: Phase::Opening, request: open_request() });
}

#[test]
fn download_of_a_present_repository_asks_for_nothing_else() {
    let (requests, end) = replay(&example(), &Operation::Download, vec![Reply::Done]);
    assert_eq!(requests, vec![open_request()]);
    assert_eq!(end, Progress::Done(Ok(())));
}

#[test]
fn download_clones_where_opening_fails() {
    let (requests, end) =
        replay(&example(), &Operation::Download, vec![failed("not a repository"), Reply::Done]);
    assert_eq!(requests, vec![open_request(), clone_request()]);
    assert_eq!(end, Progress::Done(Ok(())));
}

#[test]
fn download_twice_clones_once() {
    let replies = vec![failed("not a repository"), Reply::Done];
    let (first, first_end) = replay(&example(), &Operation::Download, replies);
    let (second, second_end) = replay(&example(), &Operation::Download, vec![Reply::Done]);
    let clones = first.iter().chain(second.iter()).filter(|request| **request == clone_request());
    assert_eq!(clones.count(), 1);
    assert_eq!(second, vec![open_request()]);
    assert_eq!(first_end, Progress::Done(Ok(())));
    assert_eq!(second_end, Progress::Done(Ok(())));
}

#[test]
fn a_failed_clone_is_a_clone_failure() {
    let replies = vec![failed("not a repository"), failed("unreachable")];
    for operation in [
        Operation::Download,
        Operation::Update,
        set_version("a1b2c3"),
        Operation::SetVersionToLatest,
    ] {
        let (requests, end) = replay(&example(), &operation, replies.clone());
        assert_eq!(requests, vec![open_request(), clone_request()]);
        assert_eq!(
            end,
            failure(ErrorKind::CloneFailed, "failed to clone repository: unreachable")
        );
    }
}

#[test]
fn no_operation_clones_a_repository_that_opens() {
    let update = vec![
        Reply::Done,
        Reply::Done,
        Reply::Commit(commit(7)),
        Reply::Analysis(MergeAdvice { up_to_date: false, fast_forward: true, normal: false }),
        Reply::Done,
        Reply::Done,
        Reply::Done,
    ];
    let version = vec![Reply::Done, Reply::Commit(commit(7)), Reply::Done, Reply::Done];
    let latest = vec![
        Reply::Done,
        Reply::Reference { name: Some("refs/heads/main".to_string()) },
        Reply::Done,
        Reply::Done,
    ];
    for (operation, replies) in [
        (Operation::Download, vec![Reply::Done]),
        (Operation::Update, update),
        (set_version("0707"), version),
        (Operation::SetVersionToLatest, latest),
    ] {
        let (requests, end) = replay(&example(), &operation, replies);
        assert!(requests.iter().all(|request| !matches!(request, Request::CloneRemote { .. })));
        assert_eq!(end, Progress::Done(Ok(())));
    }
}

#[test]
fn update_moves_the_tracked_branch_forward() {
    let replies = vec![
        Reply::Done,
        Reply::Done,
        Reply::Commit(commit(9)),
        Reply::Analysis(MergeAdvice { up_to_date: false, fast_forward: true, normal: false }),
        Reply::Done,
        Reply::Done,
        Reply::Done,
    ];
    let (requests, end) = replay(&tracking("release"), &Operation::Update, replies);
    assert_eq!(
        requests,
        vec![
            open_request(),
            Request::Fetch { remote: "origin".to_string(), branch: "release".to_string() },
            Request::ReferenceTarget { reference: "FETCH_HEAD".to_string() },
            Request::Analyse { commit: commit(9) },
            Request::CheckoutCommit { commit: commit(9) },
            Request::MoveBranch { reference: "refs/heads/release".to_string(), commit: commit(9) },
            Request::AttachHead { reference: "refs/heads/release".to_string() },
        ]
    );
    assert_eq!(end, Progress::Done(Ok(())));
}

#[test]
fn update_after_a_fresh_clone_still_fetches() {
    let replies = vec![failed("not a repository"), Reply::Done];
    let (requests, end) = replay(&example(), &Operation::Update, replies);
    assert_eq!(requests, vec![open_request(), clone_request()]);
    assert_eq!(
        end,
        Progress::Ask {
            phase: Phase::Fetching,
            request: Request::Fetch { remote: "origin".to_string(), branch: "main".to_string() },
        }
    );
}

#[test]
fn update_of_an_up_to_date_repository_changes_nothing() {
    let replies = vec![
        Reply::Done,
        Reply::Done,
        Reply::Commit(commit(9)),
        Reply::Analysis(MergeAdvice { up_to_date: true, fast_forward: false, normal: false }),
    ];
    let (requests, end) = replay(&example(), &Operation::Update, replies);
    assert_eq!(requests.len(), 4);
    assert_eq!(requests[3], Request::Analyse { commit: commit(9) });
    assert_eq!(end, Progress::Done(Ok(())));
}

#[test]
fn update_prefers_up_to_date_over_fast_forward() {
    let advice = MergeAdvice { up_to_date: true, fast_forward: true, normal: true };
    let end = step(
        &example(),
        &Operation::Update,
        Phase::Analysing { commit: commit(9) },
        &Reply::Analysis(advice),
    );
    assert_eq!(end, Progress::Done(Ok(())));
}

#[test]
fn an_update_of_a_diverged_branch_asks_for_a_merge() {
    let replies = vec![
        Reply::Done,
        Reply::Done,
        Reply::Commit(commit(9)),
        Reply::Analysis(MergeAdvice { up_to_date: false, fast_forward: false, normal: true }),
        Reply::Commit(commit(4)),
        Reply::Tree(commit(3)),
        Reply::Commit(commit(5)),
        Reply::Done,
        Reply::Done,
        Reply::Done,
    ];
    let (requests, end) = replay(&example(), &Operation::Update, replies);
    assert_eq!(
        requests[3..],
        [
            Request::Analyse { commit: commit(9) },
            Request::ReferenceTarget { reference: "HEAD".to_string() },
            Request::Merge { ours: commit(4), theirs: commit(9) },
            Request::RecordMerge { tree: commit(3), ours: commit(4), theirs: commit(9) },
            Request::CheckoutCommit { commit: commit(5) },
            Request::MoveBranch { reference: "refs/heads/main".to_string(), commit: commit(5) },
            Request::AttachHead { reference: "refs/heads/main".to_string() },
        ]
    );
    assert_eq!(end, Progress::Done(Ok(())));
}

#[test]
fn update_prefers_fast_forward_over_a_merge() {
    let advice = MergeAdvice { up_to_date: false, fast_forward: true, normal: true };
    let end = step(
        &example(),
        &Operation::Update,
        Phase::Analysing { commit: commit(9) },
        &Reply::Analysis(advice),
    );
    assert_eq!(
        end,
        Progress::Ask {
            phase: Phase::CheckingOutCommit { commit: commit(9) },
            request: Request::CheckoutCommit { commit: commit(9) },
        }
    );
}

#[test]
fn update_fails_where_nothing_can_be_merged() {
    let replies = vec![
        Reply::Done,
        Reply::Done,
        Reply::Commit(commit(9)),
        Reply::Analysis(MergeAdvice { up_to_date: false, fast_forward: false, normal: false }),
    ];
    let (_, end) = replay(&example(), &Operation::Update, replies);
    assert_eq!(
        end,
        failure(
            ErrorKind::FailedToUpdateDefinitions,
            "failed to update definitions: the fetched commit cannot be merged",
        )
    );
}

#[test]
fn every_failed_step_of_a_merge_is_an_update_failure() {
    let steps = vec![
        Reply::Done,
        Reply::Done,
        Reply::Commit(commit(9)),
        Reply::Analysis(MergeAdvice { up_to_date: false, fast_forward: false, normal: true }),
        Reply::Commit(commit(4)),
        Reply::Tree(commit(3)),
        Reply::Commit(commit(5)),
        Reply::Done,
        Reply::Done,
        Reply::Done,
    ];
    for failing in 4..steps.len() {
        let mut replies: Vec<Reply> = steps[..failing].to_vec();
        replies.push(failed("conflict"));
        let (requests, end) = replay(&example(), &Operation::Update, replies);
        assert_eq!(requests.len(), failing + 1);
        assert_eq!(
            end,
            failure(
                ErrorKind::FailedToUpdateDefinitions,
                "failed to update definitions: conflict"
            )
        );
    }
}

#[test]
fn every_failed_step_of_an_update_is_an_update_failure() {
    let steps = vec![
        Reply::Done,
        Reply::Done,
        Reply::Commit(commit(9)),
        Reply::Analysis(MergeAdvice { up_to_date: false, fast_forward: true, normal: false }),
        Reply::Done,
        Reply::Done,
        Reply::Done,
    ];
    for failing in 1..steps.len() {
        let mut replies: Vec<Reply> = steps[..failing].to_vec();
        replies.push(failed("broken"));
        let (requests, end) = replay(&example(), &Operation::Update, replies);
        assert_eq!(requests.len(), failing + 1);
        assert_eq!(
            end,
            failure(
                ErrorKind::FailedToUpdateDefinitions,
                "failed to update definitions: broken"
            )
        );
    }
}

#[test]
fn set_version_detaches_head_at_the_commit_and_checks_it_out() {
    let replies = vec![Reply::Done, Reply::Commit(commit(0xa1)), Reply::Done, Reply::Done];
    let (requests, end) = replay(&example(), &set_version("a1a1"), replies);
    assert_eq!(
        requests,
        vec![
            open_request(),
            Request::ParseCommitId { text: "a1a1".to_string() },
            Request::DetachHead { commit: commit(0xa1) },
            Request::CheckoutHead,
        ]
    );
    assert_eq!(end, Progress::Done(Ok(())));
}

#[test]
fn set_version_stops_at_a_hash_that_cannot_be_read() {
    let replies = vec![Reply::Done, failed("unable to parse OID")];
    let (requests, end) = replay(&example(), &set_version("not-a-hash"), replies);
    assert_eq!(
        requests,
        vec![open_request(), Request::ParseCommitId { text: "not-a-hash".to_string() }]
    );
    assert_eq!(
        end,
        failure(ErrorKind::VersionSetFailure, "failed to set version: unable to parse OID")
    );
}

#[test]
fn set_version_reports_a_failure_to_detach() {
    let replies = vec![Reply::Done, Reply::Commit(commit(1)), failed("object not found")];
    let (requests, end) = replay(&example(), &set_version("0101"), replies);
    assert_eq!(requests.len(), 3);
    assert_eq!(
        end,
        failure(ErrorKind::VersionSetFailure, "failed to set version: object not found")
    );
}

#[test]
fn set_version_reports_a_failure_to_check_out() {
    let replies = vec![Reply::Done, Reply::Commit(commit(1)), Reply::Done, failed("conflict")];
    let (requests, end) = replay(&example(), &set_version("0101"), replies);
    assert_eq!(requests.len(), 4);
    assert_eq!(end, failure(ErrorKind::VersionSetFailure, "failed to set version: conflict"));
}

#[test]
fn set_version_to_latest_attaches_head_to_the_main_line() {
    let replies = vec![
        Reply::Done,
        Reply::Reference { name: Some("refs/heads/main".to_string()) },
        Reply::Done,
        Reply::Done,
    ];
    let (requests, end) = replay(&tracking("release"), &Operation::SetVersionToLatest, replies);
    assert_eq!(
        requests,
        vec![
            open_request(),
            Request::ResolveReference { revision: "main".to_string() },
            Request::AttachHead { reference: "refs/heads/main".to_string() },
            Request::CheckoutHead,
        ]
    );
    assert_eq!(end, Progress::Done(Ok(())));
}

#[test]
fn set_version_to_latest_without_a_reference_moves_nothing() {
    let (requests, end) =
        replay(&example(), &Operation::SetVersionToLatest, vec![Reply::Done, Reply::NoReference]);
    assert_eq!(requests.len(), 2);
    assert_eq!(
        end,
        failure(ErrorKind::VersionSetFailure, "found no reference for main branch")
    );
}

#[test]
fn set_version_to_latest_without_a_revision_moves_nothing() {
    let replies = vec![Reply::Done, failed("revspec 'main' not found")];
    let (requests, end) = replay(&example(), &Operation::SetVersionToLatest, replies);
    assert_eq!(requests.len(), 2);
    assert_eq!(
        end,
        failure(ErrorKind::VersionSetFailure, "failed to set version: revspec 'main' not found")
    );
}

#[test]
fn set_version_to_latest_needs_a_name_for_the_reference() {
    let replies = vec![Reply::Done, Reply::Reference { name: None }];
    let (requests, end) = replay(&example(), &Operation::SetVersionToLatest, replies);
    assert_eq!(requests.len(), 2);
    assert_eq!(
        end,
        failure(ErrorKind::VersionSetFailure, "found no name for main branch reference")
    );
}

#[test]
fn set_version_to_latest_reports_a_failure_to_attach() {
    let replies = vec![
        Reply::Done,
        Reply::Reference { name: Some("refs/heads/main".to_string()) },
        failed("locked"),
    ];
    let (_, end) = replay(&example(), &Operation::SetVersionToLatest, replies);
    assert_eq!(end, failure(ErrorKind::VersionSetFailure, "failed to set head: locked"));
}

#[test]
fn set_version_to_latest_reports_a_failure_to_check_out() {
    let replies = vec![
        Reply::Done,
        Reply::Reference { name: Some("refs/heads/main".to_string()) },
        Reply::Done,
        failed("conflict"),
    ];
    let (_, end) = replay(&example(), &Operation::SetVersionToLatest, replies);
    assert_eq!(end, failure(ErrorKind::VersionSetFailure, "failed to checkout head: conflict"));
}

#[test]
fn a_reply_that_does_not_answer_the_request_counts_as_a_failure() {
    let end = step(&example(), &Operation::Update, Phase::Fetching, &Reply::NoReference);
    assert_eq!(
        end,
        failure(
            ErrorKind::FailedToUpdateDefinitions,
            "failed to update definitions: unexpected reply"
        )
    );
    let end = step(&example(), &set_version("01"), Phase::Parsing, &Reply::Done);
    assert_eq!(
        end,
        failure(ErrorKind::VersionSetFailure, "failed to set version: unexpected reply")
    );
    let end = step(&example(), &Operation::Download, Phase::Opening, &Reply::NoReference);
    assert_eq!(end, Progress::Ask { phase: Phase::Cloning, request: clone_request() });
}

#[test]
fn end_to_end_by_the_book() {
    let config = example();
    let cloned = vec![failed("could not find repository at '/tmp/r1'"), Reply::Done];
    let (requests, end) = replay(&config, &Operation::Download, cloned);
    assert_eq!(requests, vec![open_request(), clone_request()]);
    assert_eq!(end, Progress::Done(Ok(())));

    let ancestor = commit(0xa1);
    let pinned = vec![Reply::Done, Reply::Commit(ancestor), Reply::Done, Reply::Done];
    let hash = "a1".repeat(20);
    let (requests, end) = replay(&config, &set_version(&hash), pinned);
    assert_eq!(requests[2], Request::DetachHead { commit: ancestor });
    assert_eq!(requests[3], Request::CheckoutHead);
    assert_eq!(end, Progress::Done(Ok(())));

    let latest = vec![
        Reply::Done,
        Reply::Reference { name: Some("refs/heads/main".to_string()) },
        Reply::Done,
        Reply::Done,
    ];
    let (requests, end) = replay(&config, &Operation::SetVersionToLatest, latest);
    assert_eq!(requests[2], Request::AttachHead { reference: "refs/heads/main".to_string() });
    assert_eq!(requests[3], Request::CheckoutHead);
    assert_eq!(end, Progress::Done(Ok(())));
}

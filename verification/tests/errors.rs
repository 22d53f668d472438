use git_downloader::error::{DownloadError, ErrorKind};

#[test]
fn an_error_keeps_its_kind_and_message() {
    let error = DownloadError::new(ErrorKind::CloneFailed, "no route");
    assert_eq!(error.kind(), ErrorKind::CloneFailed);
    assert_eq!(error.message(), "no route");
    assert_eq!(error.to_string(), "no route");
}

#[test]
fn a_wrapped_cause_follows_the_step() {
    let error = DownloadError::wrap(ErrorKind::VersionSetFailure, "failed to set head: ", "locked");
    assert_eq!(error.kind(), ErrorKind::VersionSetFailure);
    assert_eq!(error.message(), "failed to set head: locked");
    assert_eq!(error, DownloadError::new(ErrorKind::VersionSetFailure, "failed to set head: locked"));
}

#[test]
fn errors_of_different_kinds_differ() {
    let update = DownloadError::new(ErrorKind::FailedToUpdateDefinitions, "x");
    let version = DownloadError::new(ErrorKind::VersionSetFailure, "x");
    assert_ne!(update, version);
    assert_ne!(update.kind(), ErrorKind::CloneFailed);
}

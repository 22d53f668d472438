use git_downloader::object_id::ObjectId;
use git_downloader::request::{Reply, Request};
use git_downloader::session::Session;

fn parse(text: &str) -> Reply {
    Session::new().perform(&Request::ParseCommitId { text: text.to_string() })
}

fn padded(bytes: &[u8]) -> ObjectId {
    let mut all = [0u8; 20];
    all[..bytes.len()].copy_from_slice(bytes);
    ObjectId::from_bytes(all)
}

#[test]
fn a_full_hash_is_read_two_digits_to_a_byte() {
    let reply = parse("0123456789abcdefABCDEF000102030405060708");
    let bytes = [
        0x01, 0x23, 0x45, 0x67, 0x89, 0xab, 0xcd, 0xef, 0xab, 0xcd, 0xef, 0x00, 0x01, 0x02, 0x03,
        0x04, 0x05, 0x06, 0x07, 0x08,
    ];
    assert_eq!(reply, Reply::Commit(ObjectId::from_bytes(bytes)));
}

#[test]
fn a_short_hash_is_read_with_zeros_after_it() {
    assert_eq!(parse("a1b2c3"), Reply::Commit(padded(&[0xa1, 0xb2, 0xc3])));
    assert_eq!(parse("abc"), Reply::Commit(padded(&[0xab, 0xc0])));
    assert_eq!(parse("F"), Reply::Commit(padded(&[0xf0])));
}

#[test]
fn an_identifier_gives_its_bytes_back() {
    let bytes = [7u8; 20];
    assert_eq!(ObjectId::from_bytes(bytes).bytes(), bytes);
}

#[test]
fn a_hash_with_other_characters_is_not_read() {
    assert!(matches!(parse("not-a-hash"), Reply::Failed(_)));
    assert!(matches!(parse("a1b2c3g"), Reply::Failed(_)));
    assert!(matches!(parse(" a1"), Reply::Failed(_)));
    assert!(matches!(parse("a\u{e9}"), Reply::Failed(_)));
    assert_eq!(
        parse("xyz"),
        Reply::Failed(
            "unable to parse OID - contains invalid characters; class=Invalid (3)".to_string()
        )
    );
}

#[test]
fn an_empty_hash_is_not_read() {
    assert_eq!(
        parse(""),
        Reply::Failed("unable to parse OID - too short; class=Invalid (3)".to_string())
    );
}

#[test]
fn a_hash_of_more_than_forty_digits_is_not_read() {
    assert!(matches!(parse(&"a".repeat(40)), Reply::Commit(_)));
    assert_eq!(
        parse(&"a".repeat(41)),
        Reply::Failed("unable to parse OID - too long; class=Invalid (3)".to_string())
    );
}

#[test]
fn a_new_session_has_no_repository() {
    let mut session = Session::new();
    assert!(!session.is_open());
    session.perform(&Request::ParseCommitId { text: "a1".to_string() });
    assert!(!session.is_open());
}

#[test]
fn a_request_that_needs_a_repository_fails_without_one() {
    let unopened = Reply::Failed("no repository is open".to_string());
    let commit = ObjectId::from_bytes([1; 20]);
    let requests = vec![
        Request::Fetch { remote: "origin".to_string(), branch: "main".to_string() },
        Request::ReferenceTarget { reference: "FETCH_HEAD".to_string() },
        Request::Analyse { commit },
        Request::CheckoutCommit { commit },
        Request::MoveBranch { reference: "refs/heads/main".to_string(), commit },
        Request::Merge { ours: commit, theirs: commit },
        Request::RecordMerge { tree: commit, ours: commit, theirs: commit },
        Request::DetachHead { commit },
        Request::ResolveReference { revision: "main".to_string() },
        Request::AttachHead { reference: "refs/heads/main".to_string() },
        Request::CheckoutHead,
    ];
    for request in requests {
        let mut session = Session::new();
        assert_eq!(session.perform(&request), unopened);
        assert!(!session.is_open());
    }
}

#[test]
fn opening_a_directory_without_a_repository_fails() {
    let root = tempfile::tempdir().unwrap();
    let mut session = Session::new();
    let path = root.path().to_str().unwrap().to_string();
    assert!(matches!(session.perform(&Request::Open { path }), Reply::Failed(_)));
    assert!(!session.is_open());
}

#[test]
fn a_branch_name_with_nul_is_not_cloned() {
    let root = tempfile::tempdir().unwrap();
    let mut session = Session::new();
    let request = Request::CloneRemote {
        url: root.path().join("upstream").to_str().unwrap().to_string(),
        path: root.path().join("local").to_str().unwrap().to_string(),
        branch: "ma\0in".to_string(),
    };
    assert_eq!(
        session.perform(&request),
        Reply::Failed("the branch name holds the character NUL".to_string())
    );
    assert!(!session.is_open());
}

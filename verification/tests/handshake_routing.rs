use pty_bridge::HandshakeDecision;
use pty_bridge::LookupResult;
use pty_bridge::ProjectRecord;
use pty_bridge::RejectStatus;
use pty_bridge::classify_handshake;
use pty_bridge::project_ref_of_path;

#[test]
fn the_trailing_segment_is_the_project_ref() {
    assert_eq!(project_ref_of_path(b"/term/abc123"), b"abc123".to_vec());
    assert_eq!(project_ref_of_path(b"/a/b/c"), b"c".to_vec());
}

#[test]
fn a_path_without_separator_is_its_own_segment() {
    assert_eq!(project_ref_of_path(b"abc"), b"abc".to_vec());
}

#[test]
fn a_trailing_separator_leaves_an_empty_segment() {
    assert_eq!(project_ref_of_path(b"/term/"), Vec::<u8>::new());
    assert_eq!(project_ref_of_path(b""), Vec::<u8>::new());
}

#[test]
fn a_resolved_project_is_accepted_with_its_own_path() {
    let record = ProjectRecord { path: String::from("/home/user/project") };
    match classify_handshake(LookupResult::Found(record)) {
        HandshakeDecision::Accept(rec) => assert_eq!(rec.path, "/home/user/project"),
        HandshakeDecision::Reject(_) => panic!("a resolved project must be accepted"),
    }
}

#[test]
fn an_unknown_project_is_rejected_as_not_found() {
    match classify_handshake(LookupResult::Missing) {
        HandshakeDecision::Reject(status) => assert_eq!(status, RejectStatus::NotFound),
        HandshakeDecision::Accept(_) => panic!("an unknown project must be rejected"),
    }
}

#[test]
fn a_failing_lookup_is_rejected_as_internal_error() {
    match classify_handshake(LookupResult::Failed) {
        HandshakeDecision::Reject(status) => assert_eq!(status, RejectStatus::InternalError),
        HandshakeDecision::Accept(_) => panic!("a failing lookup must be rejected"),
    }
}

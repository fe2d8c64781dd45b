//! The four-step workflow driven with synthetic HTTP responses.

use actual_backup::errors::BackupError;
use actual_backup::http::HttpResponse;
use actual_backup::session::BackupSession;

fn fresh_session() -> BackupSession {
    BackupSession::new(
        "http://localhost:5006".to_string(),
        "X".to_string(),
        "hunter2".to_string(),
    )
}

fn response(status: u16, body: &[u8]) -> Option<HttpResponse> {
    Some(HttpResponse { status, body: body.to_vec() })
}

#[test]
fn connectivity_succeeds_for_any_status() {
    let session = fresh_session();
    assert_eq!(session.check_connectivity(Some(200)), Ok(()));
    assert_eq!(session.check_connectivity(Some(404)), Ok(()));
    assert_eq!(session.check_connectivity(Some(500)), Ok(()));
}

#[test]
fn connectivity_fails_when_unreachable() {
    let session = fresh_session();
    assert_eq!(
        session.check_connectivity(None),
        Err(BackupError::Connectivity)
    );
    // Nothing later may run: the session is still unauthenticated.
    assert!(session.token.is_empty());
    assert!(session.file_id.is_empty());
}

#[test]
fn authenticate_extracts_token() {
    let mut session = fresh_session();
    let r = session.authenticate(response(200, br#"{"data":{"token":"abc123"}}"#));
    assert_eq!(r, Ok(()));
    assert_eq!(session.token, "abc123");
}

#[test]
fn authenticate_rejects_missing_token() {
    let mut session = fresh_session();
    let r = session.authenticate(response(200, br#"{"data":{}}"#));
    assert_eq!(r, Err(BackupError::Authentication));
    assert!(session.token.is_empty());

    let r = session.authenticate(response(200, br#"{"token":"abc123"}"#));
    assert_eq!(r, Err(BackupError::Authentication));
    assert!(session.token.is_empty());

    let r = session.authenticate(response(200, br#"{"data":{"token":17}}"#));
    assert_eq!(r, Err(BackupError::Authentication));
    assert!(session.token.is_empty());
}

#[test]
fn authenticate_rejects_non_json_body() {
    let mut session = fresh_session();
    let r = session.authenticate(response(200, b"not json at all"));
    assert_eq!(r, Err(BackupError::Authentication));
    assert!(session.token.is_empty());
}

#[test]
fn authenticate_rejects_error_status() {
    let mut session = fresh_session();
    // Even a body that carries a token is rejected on a 401.
    let r = session.authenticate(response(401, br#"{"data":{"token":"abc123"}}"#));
    assert_eq!(r, Err(BackupError::Authentication));
    assert!(session.token.is_empty());
}

#[test]
fn authenticate_rejects_transport_failure() {
    let mut session = fresh_session();
    let r = session.authenticate(None);
    assert_eq!(r, Err(BackupError::Authentication));
    assert!(session.token.is_empty());
}

const LISTING: &[u8] =
    br#"{"data":[{"groupId":"X","fileId":"f1"},{"groupId":"Y","fileId":"f2"},{"groupId":"X","fileId":"f3"}]}"#;

fn authenticated_session() -> BackupSession {
    let mut session = fresh_session();
    session
        .authenticate(response(200, br#"{"data":{"token":"abc123"}}"#))
        .unwrap();
    session
}

#[test]
fn resolve_selects_first_match() {
    let mut session = authenticated_session();
    let r = session.resolve_file_id(response(200, LISTING));
    assert_eq!(r, Ok("f1".to_string()));
    assert_eq!(session.file_id, "f1");
}

#[test]
fn resolve_fails_without_match() {
    let mut session = BackupSession::new(
        "http://localhost:5006".to_string(),
        "Z".to_string(),
        "hunter2".to_string(),
    );
    session
        .authenticate(response(200, br#"{"data":{"token":"abc123"}}"#))
        .unwrap();
    let r = session.resolve_file_id(response(200, LISTING));
    assert_eq!(r, Err(BackupError::FileResolution));
    assert!(session.file_id.is_empty());
}

#[test]
fn resolve_rejects_malformed_listing() {
    let mut session = authenticated_session();
    let r = session.resolve_file_id(response(200, br#"{"data":"not an array"}"#));
    assert_eq!(r, Err(BackupError::FileResolution));

    let r = session.resolve_file_id(response(200, br#"{"data":[{"groupId":"X"}]}"#));
    assert_eq!(r, Err(BackupError::FileResolution));

    let r = session.resolve_file_id(response(200, b"nonsense"));
    assert_eq!(r, Err(BackupError::FileResolution));
    assert!(session.file_id.is_empty());
}

#[test]
fn resolve_rejects_error_status() {
    let mut session = authenticated_session();
    let r = session.resolve_file_id(response(500, LISTING));
    assert_eq!(r, Err(BackupError::FileResolution));
    assert!(session.file_id.is_empty());
}

#[test]
fn end_to_end_success() {
    let mut session = fresh_session();
    assert_eq!(session.check_connectivity(Some(200)), Ok(()));
    assert_eq!(
        session.authenticate(response(200, br#"{"data":{"token":"tok-1"}}"#)),
        Ok(())
    );
    let id = session.resolve_file_id(response(200, LISTING)).unwrap();
    assert_eq!(id, "f1");
    let archive = vec![0x50u8, 0x4b, 0x03, 0x04, 0x2a];
    let (filename, bytes) = session.download_file(response(200, &archive)).unwrap();
    assert!(filename.starts_with("actualbudget_backup_"));
    assert!(filename.ends_with(".zip"));
    assert_eq!(bytes, archive);
}

#[test]
fn wrong_password_halts_before_listing() {
    let mut session = fresh_session();
    assert_eq!(session.check_connectivity(Some(200)), Ok(()));
    let r = session.authenticate(response(401, br#"{"status":"error"}"#));
    assert_eq!(r, Err(BackupError::Authentication));
    // The session never became authenticated, so the listing step's
    // precondition (a non-empty token) cannot be met.
    assert!(session.token.is_empty());
    assert!(session.file_id.is_empty());
}

#[test]
fn error_messages_name_the_step() {
    assert_eq!(BackupError::Connectivity.message(), "cannot reach server");
    assert_eq!(
        BackupError::Authentication.message(),
        "authentication failed"
    );
    assert_eq!(
        BackupError::FileResolution.message(),
        "could not resolve budget file id"
    );
    assert_eq!(BackupError::Download.message(), "download failed");
}

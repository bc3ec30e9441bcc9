use gofile::error::Error;
use gofile::upload::{
    file_extension, mime_for_extension, mime_for_name, resolve_download_auth, resolve_upload_auth,
    AuthPlan, UploadProgressTracker,
};

#[test]
fn progress_sums_to_the_declared_length() {
    let mut t = UploadProgressTracker::new(10);
    assert_eq!(t.progress(), 0);
    assert!(!t.is_complete());
    t.record_read(4);
    assert_eq!(t.progress(), 4);
    assert_eq!(t.remaining(), 6);
    t.record_read(0);
    t.record_read(6);
    assert_eq!(t.progress(), 10);
    assert!(t.is_complete());
    assert_eq!(t.remaining(), 0);
}

#[test]
fn zero_length_upload_is_complete_at_once() {
    let t = UploadProgressTracker::new(0);
    assert!(t.is_complete());
}

#[test]
fn extension_after_the_last_dot() {
    assert_eq!(file_extension("a.txt").unwrap(), "txt");
    assert_eq!(file_extension("archive.tar.gz").unwrap(), "gz");
    assert_eq!(file_extension("trailing.").unwrap(), "");
}

#[test]
fn names_without_an_extension() {
    assert!(file_extension("noext").is_none());
    assert!(file_extension(".config").is_none());
    assert!(file_extension("").is_none());
}

#[test]
fn mime_from_known_extensions() {
    assert_eq!(mime_for_extension("txt"), "text/plain");
    assert_eq!(mime_for_extension("jpg"), "image/jpeg");
    assert_eq!(mime_for_name("photo.jpg"), "image/jpeg");
}

#[test]
fn mime_falls_back_to_octet_stream() {
    assert_eq!(mime_for_extension(""), "application/octet-stream");
    assert_eq!(mime_for_extension("zzzzzq"), "application/octet-stream");
    assert_eq!(mime_for_name("noext"), "application/octet-stream");
}

#[test]
fn forced_guest_wins() {
    let plan = resolve_upload_auth(Some("tok".to_string()), true).unwrap();
    assert!(matches!(plan, AuthPlan::LoginAsGuest));
}

#[test]
fn configured_token_is_used() {
    let plan = resolve_upload_auth(Some("tok".to_string()), false).unwrap();
    match plan {
        AuthPlan::UseToken(t) => assert_eq!(t, "tok"),
        AuthPlan::LoginAsGuest => panic!("expected the configured token"),
    }
}

#[test]
fn uploads_without_any_credential_fail() {
    assert_eq!(resolve_upload_auth(None, false).unwrap_err(), Error::MissingCredential);
}

#[test]
fn downloads_fall_back_to_guest_login() {
    assert!(matches!(resolve_download_auth(None), AuthPlan::LoginAsGuest));
    match resolve_download_auth(Some("tok".to_string())) {
        AuthPlan::UseToken(t) => assert_eq!(t, "tok"),
        AuthPlan::LoginAsGuest => panic!("expected the configured token"),
    }
}

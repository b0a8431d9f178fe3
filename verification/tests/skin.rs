use oscbot::http::Reply;
use oscbot::skin::{
    after_archive_check, SkinFailure, SkinMaterializer, SkinOp, SkinOutcome, SkinReference,
    SkinStage,
};

fn empty_archive() -> Vec<u8> {
    let mut bytes = vec![0x50, 0x4b, 0x05, 0x06];
    bytes.extend_from_slice(&[0u8; 18]);
    bytes
}

fn skin() -> Option<SkinReference> {
    Some(SkinReference { user: 42, url: "https://skins.example/42.osk".to_string() })
}

fn at_fetch() -> SkinMaterializer {
    let mut m = SkinMaterializer::new("/danser", skin());
    m.on_directory_checked(false);
    m.on_stale_removed();
    assert_eq!(m.pending(), Some(SkinOp::Fetch));
    m
}

#[test]
fn no_skin_is_a_no_op() {
    let m = SkinMaterializer::new("/danser", None);
    assert_eq!(m.outcome(), Some(SkinOutcome::NoSkin));
    assert_eq!(m.pending(), None);
    assert_eq!(m.directory, None);
}

#[test]
fn skin_directory_is_named_after_the_user() {
    let m = SkinMaterializer::new("/danser", skin());
    assert_eq!(m.directory, Some("/danser/Skins/42".to_string()));
    assert_eq!(m.pending(), Some(SkinOp::CheckDirectory));
}

#[test]
fn cached_skin_needs_no_request() {
    let mut m = SkinMaterializer::new("/danser", skin());
    m.on_directory_checked(true);
    assert_eq!(m.outcome(), Some(SkinOutcome::Ready));
    assert_eq!(m.pending(), None);
}

#[test]
fn missing_directory_leads_to_removal_then_fetch() {
    let mut m = SkinMaterializer::new("/danser", skin());
    m.on_directory_checked(false);
    assert_eq!(m.pending(), Some(SkinOp::RemoveStale));
    m.on_stale_removed();
    assert_eq!(m.pending(), Some(SkinOp::Fetch));
}

#[test]
fn http_error_fails_the_download() {
    let mut m = at_fetch();
    m.on_fetched(Reply::Response { status: 404, body: empty_archive() });
    assert_eq!(m.outcome(), Some(SkinOutcome::Failed(SkinFailure::Download)));
    assert_eq!(m.archive, None);
}

#[test]
fn transport_error_fails_the_download() {
    let mut m = at_fetch();
    m.on_fetched(Reply::Transport { detail: "timeout".to_string() });
    assert_eq!(m.outcome(), Some(SkinOutcome::Failed(SkinFailure::Download)));
}

#[test]
fn body_that_is_no_archive_fails() {
    let mut m = at_fetch();
    m.on_fetched(Reply::Response { status: 200, body: b"<html>not a zip</html>".to_vec() });
    assert_eq!(m.outcome(), Some(SkinOutcome::Failed(SkinFailure::Archive)));
    assert_eq!(m.archive, None);
}

#[test]
fn empty_body_is_no_archive() {
    let mut m = at_fetch();
    m.on_fetched(Reply::Response { status: 200, body: Vec::new() });
    assert_eq!(m.outcome(), Some(SkinOutcome::Failed(SkinFailure::Archive)));
}

#[test]
fn archive_is_kept_and_extracted() {
    let mut m = at_fetch();
    m.on_fetched(Reply::Response { status: 200, body: empty_archive() });
    assert_eq!(m.pending(), Some(SkinOp::Extract));
    assert_eq!(m.archive, Some(empty_archive()));
    m.on_extracted();
    assert_eq!(m.outcome(), Some(SkinOutcome::Ready));
}

#[test]
fn observations_out_of_turn_change_nothing() {
    let mut m = SkinMaterializer::new("/danser", skin());
    m.on_fetched(Reply::Response { status: 200, body: empty_archive() });
    m.on_extracted();
    m.on_stale_removed();
    assert_eq!(m.stage, SkinStage::Awaiting(SkinOp::CheckDirectory));
    assert_eq!(m.archive, None);
    let mut done = SkinMaterializer::new("/danser", None);
    done.on_directory_checked(true);
    assert_eq!(done.outcome(), Some(SkinOutcome::NoSkin));
}

#[test]
fn archive_check_decides_between_extract_and_failure() {
    assert_eq!(after_archive_check(true), SkinStage::Awaiting(SkinOp::Extract));
    assert_eq!(
        after_archive_check(false),
        SkinStage::Finished(SkinOutcome::Failed(SkinFailure::Archive))
    );
}

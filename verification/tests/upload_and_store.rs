use org_portal::store::{
    extended_expiry, is_member_active, role_deleted, role_exists, DbError, EARLIEST_INSTANT,
    LATEST_INSTANT, SECONDS_PER_DAY,
};
use org_portal::upload::{file_extension, finish_upload, plan_upload, UploadedFile, MAX_FILE_SIZE};

fn file(size: usize, name: &str) -> UploadedFile {
    UploadedFile { size, file_name: Some(name.to_string()) }
}

#[test]
fn extension_is_text_after_last_dot() {
    assert_eq!(file_extension("logo.png"), "png");
    assert_eq!(file_extension("archive.tar.gz"), "gz");
    assert_eq!(file_extension("README"), "README");
    assert_eq!(file_extension("trailing."), "");
    assert_eq!(file_extension(".hidden"), "hidden");
    assert_eq!(file_extension(""), "");
    assert_eq!(file_extension("café.jpég"), "jpég");
}

#[test]
fn empty_upload_is_refused() {
    let e = plan_upload(&file(0, "a.png"), "logo", "orgs").err().unwrap();
    assert_eq!(e.message, "The uploaded file cannot be of size zero bytes.");
    assert_eq!(e.to_string(), "The uploaded file cannot be of size zero bytes.");
}

#[test]
fn oversized_upload_is_refused() {
    let e = plan_upload(&file(MAX_FILE_SIZE as usize + 1, "a.png"), "logo", "orgs").err().unwrap();
    assert_eq!(
        e.message,
        "The uploaded file is too large. Maximum size should be 10485760 bytes."
    );
}

#[test]
fn accepted_upload_is_renamed_under_its_directory() {
    let p = plan_upload(&file(10485760, "photo.final.JPG"), "org-12", "logos").ok().unwrap();
    assert_eq!(p.file_name, "org-12.JPG");
    assert_eq!(p.relative_path, "logos/org-12.JPG");
    let p = plan_upload(&file(1, "noext"), "x", "d").ok().unwrap();
    assert_eq!(p.relative_path, "d/x.noext");
    assert_eq!(finish_upload(p, true).ok().unwrap(), "d/x.noext");
    let p = plan_upload(&file(1, "a.b"), "x", "d").ok().unwrap();
    let e = finish_upload(p, false).err().unwrap();
    assert_eq!(e.message, "Could not update the logo, Error occurred while uploading!");
}

#[test]
fn lookups_treat_missing_rows_as_no() {
    assert!(matches!(role_exists::<u8>(Ok(3)), Ok(true)));
    let missing = DbError { not_found: true, message: "Record not found".to_string() };
    assert!(matches!(role_exists::<u8>(Err(missing)), Ok(false)));
    let broken = DbError { not_found: false, message: "timeout".to_string() };
    match is_member_active::<u8>(Err(broken)) {
        Err(e) => assert_eq!(e.message, "timeout"),
        _ => panic!("the error must come back"),
    }
    assert!(matches!(is_member_active::<()>(Ok(())), Ok(true)));
}

#[test]
fn role_deleted_means_exactly_one_row() {
    assert!(matches!(role_deleted(Ok(1)), Ok(true)));
    assert!(matches!(role_deleted(Ok(0)), Ok(false)));
    assert!(matches!(role_deleted(Ok(2)), Ok(false)));
    let broken = DbError { not_found: false, message: "boom".to_string() };
    assert!(matches!(role_deleted(Err(broken)), Err(_)));
}

#[test]
fn expiry_extends_from_current_or_now() {
    let now = 1_700_000_000;
    assert_eq!(extended_expiry(Some(1_800_000_000), now, 30), 1_800_000_000 + 30 * 86400);
    assert_eq!(extended_expiry(None, now, 7), now + 7 * SECONDS_PER_DAY);
    assert_eq!(extended_expiry(None, now, -1), now - 86400);
    assert_eq!(extended_expiry(Some(LATEST_INSTANT - 86400), 0, 1), LATEST_INSTANT);
    assert_eq!(extended_expiry(Some(EARLIEST_INSTANT + 86400), 0, -1), EARLIEST_INSTANT);
}

#[test]
fn stored_file_keeps_the_upload_extension() {
    for original in ["report.pdf", "a.b.c", "plain", "x."] {
        let p = plan_upload(&file(100, original), "org.v2", "docs").ok().unwrap();
        assert_eq!(file_extension(&p.file_name), file_extension(original));
    }
}

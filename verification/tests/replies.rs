use org_portal::members::{member_edited_reply, member_removed_reply, staff_status_edited_reply};
use org_portal::projects::project_created_reply;
use org_portal::reply::{HttpStatus, Record};
use org_portal::sections::{section_created_reply, section_deleted_reply, section_updated_reply};
use org_portal::store::DbError;

fn not_found() -> DbError {
    DbError { not_found: true, message: "Record not found".to_string() }
}

fn broken() -> DbError {
    DbError { not_found: false, message: "connection reset".to_string() }
}

#[test]
fn status_codes() {
    let all = [
        (HttpStatus::Success, 200),
        (HttpStatus::BadRequest, 400),
        (HttpStatus::Unauthorized, 401),
        (HttpStatus::NotFound, 404),
        (HttpStatus::Conflict, 409),
        (HttpStatus::ExpectationFailed, 417),
        (HttpStatus::InternalServerError, 500),
    ];
    for (s, c) in all {
        assert_eq!(s.code(), c);
    }
}

#[test]
fn section_created() {
    let r = section_created_reply(Ok(()));
    assert_eq!(r.status.code(), 200);
    assert!(r.success);
    assert_eq!(r.message, "Section added successfully");
    assert_eq!(r.record, Record::Section);
    let r = section_created_reply(Err(broken()));
    assert_eq!(r.status.code(), 500);
    assert!(!r.success);
    assert_eq!(r.message, "Failed to add section: connection reset");
    assert_eq!(r.record, Record::Nothing);
}

#[test]
fn section_deleted() {
    let r = section_deleted_reply(Ok(true), "physics");
    assert_eq!(r.status.code(), 200);
    assert_eq!(r.message, "Section: physics is deleted successfully!");
    let r = section_deleted_reply(Ok(false), "physics");
    assert_eq!(r.status.code(), 404);
    assert!(!r.success);
    assert_eq!(r.message, "Section: physics does not exists!");
    let r = section_deleted_reply(Err(not_found()), "physics");
    assert_eq!(r.status.code(), 500);
    assert_eq!(r.message, "An internal error occurred while deleting the section!");
}

#[test]
fn section_updated() {
    let r = section_updated_reply(Ok(()), "Chemistry");
    assert_eq!(r.status.code(), 200);
    assert_eq!(r.record, Record::Section);
    assert_eq!(r.message, "Section - (Chemistry) - is updated successfully!");
    let r = section_updated_reply(Err(not_found()), "Chemistry");
    assert_eq!(r.status.code(), 404);
    assert_eq!(r.message, "Section - (Chemistry) - does not exists!");
    let r = section_updated_reply(Err(broken()), "Chemistry");
    assert_eq!(r.status.code(), 500);
    assert_eq!(r.message, "An internal error occurred while updating the section!");
}

#[test]
fn member_edited() {
    let r = member_edited_reply(Ok(()));
    assert_eq!(r.status.code(), 200);
    assert_eq!(r.record, Record::Belong);
    assert_eq!(r.message, "User Details was changed successfully!");
    let r = member_edited_reply(Err(not_found()));
    assert_eq!(r.status.code(), 404);
    assert_eq!(r.message, "Member not found!");
    let r = member_edited_reply(Err(broken()));
    assert_eq!(r.status.code(), 500);
    assert_eq!(
        r.message,
        "Could change the user information: An error occurred during the process!"
    );
}

#[test]
fn staff_status_edited() {
    let r = staff_status_edited_reply(Ok(()));
    assert_eq!(r.status.code(), 200);
    assert_eq!(r.record, Record::Belong);
    assert_eq!(r.message, "Member Staff status was changed successfully!");
    let r = staff_status_edited_reply(Err(not_found()));
    assert_eq!(r.status.code(), 404);
    assert_eq!(r.message, "Member not found!");
    let r = staff_status_edited_reply(Err(broken()));
    assert_eq!(r.status.code(), 500);
    assert_eq!(
        r.message,
        "Could not edit member staff status: An error occurred during the process!"
    );
}

#[test]
fn member_removed() {
    let r = member_removed_reply(Ok(true));
    assert_eq!(r.status.code(), 200);
    assert!(r.success);
    assert_eq!(r.message, "User is no longer active member in this org!");
    let r = member_removed_reply(Ok(false));
    assert_eq!(r.status.code(), 500);
    assert_eq!(r.message, "Could not remove member: An error occurred during the process!");
    let r = member_removed_reply(Err(not_found()));
    assert_eq!(r.status.code(), 404);
    assert_eq!(r.message, "Member not found!");
    let r = member_removed_reply(Err(broken()));
    assert_eq!(r.status.code(), 500);
    assert_eq!(r.message, "Could not remove member: An error occurred during the process!");
}

#[test]
fn project_created() {
    let r = project_created_reply(Ok("Solar Car".to_string()));
    assert_eq!(r.status.code(), 200);
    assert_eq!(r.record, Record::Project);
    assert_eq!(r.message, "Project - Solar Car - was added successfully!");
    let r = project_created_reply(Err("organisation not found".to_string()));
    assert_eq!(r.status.code(), 404);
    assert!(!r.success);
    assert_eq!(r.message, "organisation not found");
}

#[test]
fn every_reply_reports_success_exactly_for_200() {
    let replies = vec![
        section_created_reply(Ok(())),
        section_created_reply(Err(broken())),
        section_deleted_reply(Ok(false), "x"),
        member_removed_reply(Ok(false)),
        project_created_reply(Ok("p".to_string())),
    ];
    for r in replies {
        assert_eq!(r.success, r.status == HttpStatus::Success);
    }
}

use vstd::prelude::*;

use crate::gate::{Check, Gatekeeper};
use crate::reply::{
    failure, failure_view, join3, success, success_view, HttpStatus, Record, Reply, ReplyView,
};
use crate::store::DbError;

verus! {

/// Requests that create a section go through the claims, the payload's
/// validation and the check that the name is not taken yet.
pub fn create_section_gate() -> (g: Gatekeeper)
    ensures
        g.fresh(),
        g.checks() == seq![Check::Claims, Check::Validation, Check::Uniqueness],
{
    let mut checks: Vec<Check> = Vec::new();
    checks.push(Check::Claims);
    checks.push(Check::Validation);
    checks.push(Check::Uniqueness);
    Gatekeeper::new(checks)
}

/// Requests that delete a section go through the claims and the payload's validation.
pub fn delete_section_gate() -> (g: Gatekeeper)
    ensures
        g.fresh(),
        g.checks() == seq![Check::Claims, Check::Validation],
{
    let mut checks: Vec<Check> = Vec::new();
    checks.push(Check::Claims);
    checks.push(Check::Validation);
    Gatekeeper::new(checks)
}

/// Requests that update a section go through the claims and the check of
/// the section's id (see `validate_section_id`).
pub fn update_section_gate() -> (g: Gatekeeper)
    ensures
        g.fresh(),
        g.checks() == seq![Check::Claims, Check::Validation],
{
    let mut checks: Vec<Check> = Vec::new();
    checks.push(Check::Claims);
    checks.push(Check::Validation);
    Gatekeeper::new(checks)
}

pub open spec fn msg_zero_id() -> Seq<char> {
    "Section validation error: zero(0) was encountered for value(id)"@
}

/// The validation of a section sent for update: its id must be positive.
pub fn validate_section_id(id: i32) -> (r: Result<(), String>)
    ensures
        r is Ok <==> id > 0,
        r matches Err(m) ==> m@ == msg_zero_id(),
{
    if id <= 0 {
        Err(String::from_str("Section validation error: zero(0) was encountered for value(id)"))
    } else {
        Ok(())
    }
}

/// The reply once the new section's insertion has been attempted.
pub open spec fn section_created_view(inserted: Result<(), DbError>) -> ReplyView {
    match inserted {
        Ok(_) => success_view("Section added successfully"@, Record::Section),
        Err(e) => failure_view(
            HttpStatus::InternalServerError,
            "Failed to add section: "@ + e.message@,
        ),
    }
}

pub fn section_created_reply(inserted: Result<(), DbError>) -> (r: Reply)
    ensures
        r@ == section_created_view(inserted),
        r@.consistent(),
        inserted is Ok ==> r.status == HttpStatus::Success && r.record == Record::Section
            && r.message@ == "Section added successfully"@,
        inserted matches Err(e) ==> r.status == HttpStatus::InternalServerError && !r.success
            && r.message@ == "Failed to add section: "@ + e.message@,
{
    match inserted {
        Ok(_) => success(String::from_str("Section added successfully"), Record::Section),
        Err(e) => failure(
            HttpStatus::InternalServerError,
            String::from_str("Failed to add section: ").concat(e.message.as_str()),
        ),
    }
}

/// The reply once the deletion of the section named `identity` has been
/// attempted: whether a section was deleted, or the error.
pub open spec fn section_deleted_view(deleted: Result<bool, DbError>, identity: Seq<char>) -> ReplyView {
    match deleted {
        Ok(true) => success_view(
            "Section: "@ + identity + " is deleted successfully!"@,
            Record::Nothing,
        ),
        Ok(false) => failure_view(
            HttpStatus::NotFound,
            "Section: "@ + identity + " does not exists!"@,
        ),
        Err(_) => failure_view(
            HttpStatus::InternalServerError,
            "An internal error occurred while deleting the section!"@,
        ),
    }
}

pub fn section_deleted_reply(deleted: Result<bool, DbError>, identity: &str) -> (r: Reply)
    ensures
        r@ == section_deleted_view(deleted, identity@),
        r@.consistent(),
        deleted == Ok::<bool, DbError>(true) ==> r.status == HttpStatus::Success && r.success
            && r.message@ == "Section: "@ + identity@ + " is deleted successfully!"@,
        deleted == Ok::<bool, DbError>(false) ==> r.status == HttpStatus::NotFound && !r.success
            && r.message@ == "Section: "@ + identity@ + " does not exists!"@,
        deleted is Err ==> r.status == HttpStatus::InternalServerError && !r.success
            && r.message@ == "An internal error occurred while deleting the section!"@,
{
    match deleted {
        Ok(true) => success(
            join3("Section: ", identity, " is deleted successfully!"),
            Record::Nothing,
        ),
        Ok(false) => failure(
            HttpStatus::NotFound,
            join3("Section: ", identity, " does not exists!"),
        ),
        Err(_) => failure(
            HttpStatus::InternalServerError,
            String::from_str("An internal error occurred while deleting the section!"),
        ),
    }
}

/// The reply once the update of the section named `name` has been attempted.
pub open spec fn section_updated_view(updated: Result<(), DbError>, name: Seq<char>) -> ReplyView {
    match updated {
        Ok(_) => success_view(
            "Section - ("@ + name + ") - is updated successfully!"@,
            Record::Section,
        ),
        Err(e) => if e.not_found {
            failure_view(HttpStatus::NotFound, "Section - ("@ + name + ") - does not exists!"@)
        } else {
            failure_view(
                HttpStatus::InternalServerError,
                "An internal error occurred while updating the section!"@,
            )
        },
    }
}

pub fn section_updated_reply(updated: Result<(), DbError>, name: &str) -> (r: Reply)
    ensures
        r@ == section_updated_view(updated, name@),
        r@.consistent(),
        updated is Ok ==> r.status == HttpStatus::Success && r.record == Record::Section
            && r.message@ == "Section - ("@ + name@ + ") - is updated successfully!"@,
        updated matches Err(e) && e.not_found ==> r.status == HttpStatus::NotFound && !r.success
            && r.message@ == "Section - ("@ + name@ + ") - does not exists!"@,
        updated matches Err(e) && !e.not_found ==> r.status == HttpStatus::InternalServerError
            && !r.success && r.message@ == "An internal error occurred while updating the section!"@,
{
    match updated {
        Ok(_) => success(
            join3("Section - (", name, ") - is updated successfully!"),
            Record::Section,
        ),
        Err(e) => if e.not_found {
            failure(HttpStatus::NotFound, join3("Section - (", name, ") - does not exists!"))
        } else {
            failure(
                HttpStatus::InternalServerError,
                String::from_str("An internal error occurred while updating the section!"),
            )
        },
    }
}

/// A failed insertion is answered with 500 and a message that starts with
/// "Failed to add section: " and ends with the database's own message; a
/// successful one with 200 and the new section.
pub proof fn section_creation_answers(inserted: Result<(), DbError>)
    ensures
        inserted is Ok ==> section_created_view(inserted).status == HttpStatus::Success
            && section_created_view(inserted).record == Record::Section,
        inserted matches Err(e) ==> {
            let r = section_created_view(inserted);
            &&& r.status == HttpStatus::InternalServerError
            &&& !r.success
            &&& r.message.subrange(0, 23) == "Failed to add section: "@
            &&& r.message.subrange(23, r.message.len() as int) == e.message@
        },
{
    reveal_strlit("Failed to add section: ");
    if let Err(e) = inserted {
        let r = section_created_view(inserted);
        assert(r.message.subrange(0, 23) =~= "Failed to add section: "@);
        assert(r.message.subrange(23, r.message.len() as int) =~= e.message@);
    }
}

/// Deleting a section is answered with 200 when a section was deleted,
/// 404 (naming the section) when none was, and 500 with the internal-error
/// message on every database error, whatever kind of error it is.
pub proof fn section_deletion_answers(deleted: Result<bool, DbError>, identity: Seq<char>)
    ensures
        section_deleted_view(deleted, identity).consistent(),
        section_deleted_view(deleted, identity).status == HttpStatus::Success <==> deleted
            == Ok::<bool, DbError>(true),
        section_deleted_view(deleted, identity).status == HttpStatus::NotFound <==> deleted
            == Ok::<bool, DbError>(false),
        deleted is Err ==> section_deleted_view(deleted, identity).status
            == HttpStatus::InternalServerError && section_deleted_view(deleted, identity).message
            == "An internal error occurred while deleting the section!"@,
        deleted is Ok ==> section_deleted_view(deleted, identity).message.subrange(0, 9)
            == "Section: "@ && section_deleted_view(deleted, identity).message.subrange(
            9,
            9 + identity.len() as int,
        ) == identity,
{
    reveal_strlit("Section: ");
    let r = section_deleted_view(deleted, identity);
    if deleted is Ok {
        assert(r.message.subrange(0, 9) =~= "Section: "@);
        assert(r.message.subrange(9, 9 + identity.len() as int) =~= identity);
    }
}

/// Updating a section is answered with 200 and the section on success,
/// 404 (naming the section) only when no row matched, and 500 with the
/// internal-error message on every other error, whatever its message says.
pub proof fn section_update_answers(updated: Result<(), DbError>, name: Seq<char>)
    ensures
        section_updated_view(updated, name).consistent(),
        section_updated_view(updated, name).status == HttpStatus::Success <==> updated is Ok,
        section_updated_view(updated, name).status == HttpStatus::NotFound <==> (updated matches Err(
            e,
        ) && e.not_found),
        updated matches Err(e) && !e.not_found ==> section_updated_view(updated, name).status
            == HttpStatus::InternalServerError && section_updated_view(updated, name).message
            == "An internal error occurred while updating the section!"@,
        updated is Ok ==> section_updated_view(updated, name).record == Record::Section,
{
}

/// Two update errors that are not missing rows get the same answer,
/// whatever their messages.
pub proof fn section_update_ignores_error_messages(a: DbError, b: DbError, name: Seq<char>)
    requires
        !a.not_found,
        !b.not_found,
    ensures
        section_updated_view(Err(a), name) == section_updated_view(Err(b), name),
{
}

} // verus!

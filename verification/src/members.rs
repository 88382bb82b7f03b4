use vstd::prelude::*;

use crate::gate::{is_member_authority, permission, Check, Gatekeeper};
use crate::reply::{failure, failure_view, success, success_view, HttpStatus, Record, Reply, ReplyView};
use crate::store::DbError;

verus! {

/// Requests that edit a member's details go through the claims, the
/// payload's validation, and the permission to delete members in the
/// member's section.
pub fn edit_member_gate() -> (g: Gatekeeper)
    ensures
        g.fresh(),
        g.checks().len() == 3,
        g.checks()[0] == Check::Claims,
        g.checks()[1] == Check::Validation,
        is_member_authority(g.checks()[2], "members"@, "delete"@),
{
    let mut checks: Vec<Check> = Vec::new();
    checks.push(Check::Claims);
    checks.push(Check::Validation);
    checks.push(Check::MemberAuthority(permission("members", "delete")));
    Gatekeeper::new(checks)
}

/// Requests that change a member's staff status go through the claims and
/// the permission to update staff in the member's section.
pub fn edit_staff_status_gate() -> (g: Gatekeeper)
    ensures
        g.fresh(),
        g.checks().len() == 2,
        g.checks()[0] == Check::Claims,
        is_member_authority(g.checks()[1], "staff"@, "update"@),
{
    let mut checks: Vec<Check> = Vec::new();
    checks.push(Check::Claims);
    checks.push(Check::MemberAuthority(permission("staff", "update")));
    Gatekeeper::new(checks)
}

/// Requests that remove a member go through the claims and the permission
/// to delete staff in the member's section.
pub fn remove_member_gate() -> (g: Gatekeeper)
    ensures
        g.fresh(),
        g.checks().len() == 2,
        g.checks()[0] == Check::Claims,
        is_member_authority(g.checks()[1], "staff"@, "delete"@),
{
    let mut checks: Vec<Check> = Vec::new();
    checks.push(Check::Claims);
    checks.push(Check::MemberAuthority(permission("staff", "delete")));
    Gatekeeper::new(checks)
}

pub open spec fn msg_member_not_found() -> Seq<char> {
    "Member not found!"@
}

/// The reply once the update of an active member's details has been attempted.
pub open spec fn member_edited_view(edited: Result<(), DbError>) -> ReplyView {
    match edited {
        Ok(_) => success_view("User Details was changed successfully!"@, Record::Belong),
        Err(e) => if e.not_found {
            failure_view(HttpStatus::NotFound, msg_member_not_found())
        } else {
            failure_view(
                HttpStatus::InternalServerError,
                "Could change the user information: An error occurred during the process!"@,
            )
        },
    }
}

pub fn member_edited_reply(edited: Result<(), DbError>) -> (r: Reply)
    ensures
        r@ == member_edited_view(edited),
        r@.consistent(),
        edited is Ok ==> r.status == HttpStatus::Success && r.record == Record::Belong
            && r.message@ == "User Details was changed successfully!"@,
        edited matches Err(e) && e.not_found ==> r.status == HttpStatus::NotFound && r.message@
            == "Member not found!"@,
        edited matches Err(e) && !e.not_found ==> r.status == HttpStatus::InternalServerError
            && r.message@
            == "Could change the user information: An error occurred during the process!"@,
{
    match edited {
        Ok(_) => success(String::from_str("User Details was changed successfully!"), Record::Belong),
        Err(e) => if e.not_found {
            failure(HttpStatus::NotFound, String::from_str("Member not found!"))
        } else {
            failure(
                HttpStatus::InternalServerError,
                String::from_str(
                    "Could change the user information: An error occurred during the process!",
                ),
            )
        },
    }
}

/// The reply once the update of an active member's staff status has been attempted.
pub open spec fn staff_status_edited_view(edited: Result<(), DbError>) -> ReplyView {
    match edited {
        Ok(_) => success_view("Member Staff status was changed successfully!"@, Record::Belong),
        Err(e) => if e.not_found {
            failure_view(HttpStatus::NotFound, msg_member_not_found())
        } else {
            failure_view(
                HttpStatus::InternalServerError,
                "Could not edit member staff status: An error occurred during the process!"@,
            )
        },
    }
}

pub fn staff_status_edited_reply(edited: Result<(), DbError>) -> (r: Reply)
    ensures
        r@ == staff_status_edited_view(edited),
        r@.consistent(),
        edited is Ok ==> r.status == HttpStatus::Success && r.record == Record::Belong
            && r.message@ == "Member Staff status was changed successfully!"@,
        edited matches Err(e) && e.not_found ==> r.status == HttpStatus::NotFound && r.message@
            == "Member not found!"@,
        edited matches Err(e) && !e.not_found ==> r.status == HttpStatus::InternalServerError
            && r.message@
            == "Could not edit member staff status: An error occurred during the process!"@,
{
    match edited {
        Ok(_) => success(
            String::from_str("Member Staff status was changed successfully!"),
            Record::Belong,
        ),
        Err(e) => if e.not_found {
            failure(HttpStatus::NotFound, String::from_str("Member not found!"))
        } else {
            failure(
                HttpStatus::InternalServerError,
                String::from_str(
                    "Could not edit member staff status: An error occurred during the process!",
                ),
            )
        },
    }
}

pub open spec fn msg_removal_failed() -> Seq<char> {
    "Could not remove member: An error occurred during the process!"@
}

/// The reply once a member's removal has been attempted: whether the
/// member was made inactive, or the error.
pub open spec fn member_removed_view(removed: Result<bool, DbError>) -> ReplyView {
    match removed {
        Ok(true) => success_view(
            "User is no longer active member in this org!"@,
            Record::Nothing,
        ),
        Ok(false) => failure_view(HttpStatus::InternalServerError, msg_removal_failed()),
        Err(e) => if e.not_found {
            failure_view(HttpStatus::NotFound, msg_member_not_found())
        } else {
            failure_view(HttpStatus::InternalServerError, msg_removal_failed())
        },
    }
}

pub fn member_removed_reply(removed: Result<bool, DbError>) -> (r: Reply)
    ensures
        r@ == member_removed_view(removed),
        r@.consistent(),
        removed == Ok::<bool, DbError>(true) ==> r.status == HttpStatus::Success && r.message@
            == "User is no longer active member in this org!"@,
        removed == Ok::<bool, DbError>(false) ==> r.status == HttpStatus::InternalServerError
            && r.message@ == "Could not remove member: An error occurred during the process!"@,
        removed matches Err(e) && e.not_found ==> r.status == HttpStatus::NotFound && r.message@
            == "Member not found!"@,
        removed matches Err(e) && !e.not_found ==> r.status == HttpStatus::InternalServerError
            && r.message@ == "Could not remove member: An error occurred during the process!"@,
{
    match removed {
        Ok(true) => success(
            String::from_str("User is no longer active member in this org!"),
            Record::Nothing,
        ),
        Ok(false) => failure(
            HttpStatus::InternalServerError,
            String::from_str("Could not remove member: An error occurred during the process!"),
        ),
        Err(e) => if e.not_found {
            failure(HttpStatus::NotFound, String::from_str("Member not found!"))
        } else {
            failure(
                HttpStatus::InternalServerError,
                String::from_str("Could not remove member: An error occurred during the process!"),
            )
        },
    }
}

/// Editing a member's details or staff status is answered with 200 and the
/// membership on success, 404 "Member not found!" exactly when no active
/// membership matched, and 500 on every other error, whatever its message.
pub proof fn member_edits_answer(edited: Result<(), DbError>, a: DbError, b: DbError)
    requires
        !a.not_found,
        !b.not_found,
    ensures
        member_edited_view(edited).consistent(),
        staff_status_edited_view(edited).consistent(),
        member_edited_view(edited).status == HttpStatus::Success <==> edited is Ok,
        staff_status_edited_view(edited).status == HttpStatus::Success <==> edited is Ok,
        member_edited_view(edited).status == HttpStatus::NotFound <==> (edited matches Err(e)
            && e.not_found),
        staff_status_edited_view(edited).status == HttpStatus::NotFound <==> (edited matches Err(
            e,
        ) && e.not_found),
        edited is Ok ==> member_edited_view(edited).record == Record::Belong
            && staff_status_edited_view(edited).record == Record::Belong,
        (edited matches Err(e) && e.not_found) ==> member_edited_view(edited).message
            == "Member not found!"@ && staff_status_edited_view(edited).message
            == "Member not found!"@,
        member_edited_view(Err(a)).status == HttpStatus::InternalServerError,
        staff_status_edited_view(Err(a)).status == HttpStatus::InternalServerError,
        member_edited_view(Err(a)) == member_edited_view(Err(b)),
        staff_status_edited_view(Err(a)) == staff_status_edited_view(Err(b)),
{
}

/// Removing a member is answered with 200 only when the membership became
/// inactive, 404 exactly when it was not found, and otherwise 500 with the
/// same message whether the removal changed nothing or failed.
pub proof fn member_removal_answers(removed: Result<bool, DbError>, a: DbError)
    requires
        !a.not_found,
    ensures
        member_removed_view(removed).consistent(),
        member_removed_view(removed).status == HttpStatus::Success <==> removed == Ok::<
            bool,
            DbError,
        >(true),
        member_removed_view(removed).status == HttpStatus::NotFound <==> (removed matches Err(e)
            && e.not_found),
        member_removed_view(Err(a)) == member_removed_view(Ok(false)),
        member_removed_view(Ok(false)).status == HttpStatus::InternalServerError,
        member_removed_view(Ok(false)).message
            == "Could not remove member: An error occurred during the process!"@,
{
}

} // verus!

use vstd::prelude::*;

use crate::gate::{is_org_authority, permission, Check, Gatekeeper};
use crate::reply::{failure, failure_view, join3, success, success_view, HttpStatus, Record, Reply, ReplyView};

verus! {

/// Requests that create a user's project go through the claims and the
/// payload's validation.
pub fn create_project_gate() -> (g: Gatekeeper)
    ensures
        g.fresh(),
        g.checks() == seq![Check::Claims, Check::Validation],
{
    let mut checks: Vec<Check> = Vec::new();
    checks.push(Check::Claims);
    checks.push(Check::Validation);
    Gatekeeper::new(checks)
}

/// Requests that create an organisation's project go through the claims,
/// the permission to create projects in the organisation (whose section
/// must be found), and then the payload's validation.
pub fn create_org_project_gate() -> (g: Gatekeeper)
    ensures
        g.fresh(),
        g.checks().len() == 3,
        g.checks()[0] == Check::Claims,
        is_org_authority(g.checks()[1], "projects"@, "create"@),
        g.checks()[2] == Check::Validation,
{
    let mut checks: Vec<Check> = Vec::new();
    checks.push(Check::Claims);
    checks.push(Check::OrgAuthority(permission("projects", "create")));
    checks.push(Check::Validation);
    Gatekeeper::new(checks)
}

/// The reply once the project's creation has been attempted: the created
/// project's name, or the error's message.
pub open spec fn project_created_view(created: Result<String, String>) -> ReplyView {
    match created {
        Ok(name) => success_view(
            "Project - "@ + name@ + " - was added successfully!"@,
            Record::Project,
        ),
        Err(m) => failure_view(HttpStatus::NotFound, m@),
    }
}

pub fn project_created_reply(created: Result<String, String>) -> (r: Reply)
    ensures
        r@ == project_created_view(created),
        r@.consistent(),
        created matches Ok(n) ==> r.status == HttpStatus::Success && r.record == Record::Project
            && r.message@ == "Project - "@ + n@ + " - was added successfully!"@,
        created matches Err(m) ==> r.status == HttpStatus::NotFound && !r.success && r.message@
            == m@ && r.record == Record::Nothing,
{
    match created {
        Ok(name) => success(
            join3("Project - ", name.as_str(), " - was added successfully!"),
            Record::Project,
        ),
        Err(m) => failure(HttpStatus::NotFound, m),
    }
}

/// Every failed project creation is answered with 404 and the error's own
/// message, whatever that message says; a created project with 200, its
/// name in the message, and the project itself.
pub proof fn project_creation_answers(created: Result<String, String>)
    ensures
        project_created_view(created).consistent(),
        project_created_view(created).status == HttpStatus::Success <==> created is Ok,
        created matches Err(m) ==> project_created_view(created).status == HttpStatus::NotFound
            && project_created_view(created).message == m@,
        created matches Ok(n) ==> project_created_view(created).record == Record::Project
            && project_created_view(created).message.subrange(10, 10 + n@.len() as int) == n@,
{
    reveal_strlit("Project - ");
    if let Ok(n) = created {
        assert(project_created_view(created).message.subrange(10, 10 + n@.len() as int) =~= n@);
    }
}

/// Two failed creations get the same status, whatever their messages.
pub proof fn project_failures_share_status(a: String, b: String)
    ensures
        project_created_view(Err(a)).status == project_created_view(Err(b)).status,
{
}

} // verus!

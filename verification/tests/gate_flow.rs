use org_portal::store::DbError;
use org_portal::gate::{lets_through, refuse, Action, AuthorityCheck, Check, Event, OrgAccess};
use org_portal::members::{edit_member_gate, edit_staff_status_gate, remove_member_gate};
use org_portal::projects::{create_org_project_gate, create_project_gate};
use org_portal::reply::{HttpStatus, Record, Reply};
use org_portal::sections::{create_section_gate, delete_section_gate, update_section_gate, validate_section_id};

fn expect_run(action: Action) -> Check {
    match action {
        Action::Run(check) => check,
        Action::Respond(r) => panic!("unexpected reply: {}", r.message),
        Action::Proceed => panic!("unexpected proceed"),
    }
}

fn expect_reply(action: Action) -> Reply {
    match action {
        Action::Respond(r) => r,
        _ => panic!("expected a reply"),
    }
}

#[test]
fn create_section_runs_checks_in_order_then_proceeds() {
    let mut g = create_section_gate();
    assert!(matches!(expect_run(g.start()), Check::Claims));
    assert!(matches!(expect_run(g.record(Event::Claims(true))), Check::Validation));
    assert!(matches!(expect_run(g.record(Event::Validated(Ok(())))), Check::Uniqueness));
    assert!(matches!(g.record(Event::Exists(false)), Action::Proceed));
}

#[test]
fn missing_claims_is_a_bad_request() {
    let mut g = create_section_gate();
    let _ = g.start();
    let r = expect_reply(g.record(Event::Claims(false)));
    assert_eq!(r.status, HttpStatus::BadRequest);
    assert_eq!(r.status.code(), 400);
    assert!(!r.success);
    assert_eq!(r.message, "Authorization failure!");
    assert_eq!(r.record, Record::Nothing);
}

#[test]
fn existing_section_is_a_conflict() {
    let mut g = create_section_gate();
    let _ = g.start();
    let _ = g.record(Event::Claims(true));
    let _ = g.record(Event::Validated(Ok(())));
    let r = expect_reply(g.record(Event::Exists(true)));
    assert_eq!(r.status.code(), 409);
    assert_eq!(r.message, "Similar section already exists");
    assert!(!r.success);
}

#[test]
fn validation_error_message_is_passed_on() {
    let mut g = delete_section_gate();
    let _ = g.start();
    let _ = g.record(Event::Claims(true));
    let r = expect_reply(g.record(Event::Validated(Err("identity must not be empty".to_string()))));
    assert_eq!(r.status, HttpStatus::ExpectationFailed);
    assert_eq!(r.status.code(), 417);
    assert_eq!(r.message, "identity must not be empty");
}

#[test]
fn update_section_rejects_non_positive_ids() {
    assert_eq!(
        validate_section_id(0),
        Err("Section validation error: zero(0) was encountered for value(id)".to_string())
    );
    assert!(validate_section_id(-4).is_err());
    assert_eq!(validate_section_id(7), Ok(()));
    let mut g = update_section_gate();
    let _ = g.start();
    let _ = g.record(Event::Claims(true));
    let r = expect_reply(g.record(Event::Validated(validate_section_id(0))));
    assert_eq!(r.status.code(), 417);
    assert_eq!(r.message, "Section validation error: zero(0) was encountered for value(id)");
}

#[test]
fn edit_member_asks_for_members_delete_permission() {
    let mut g = edit_member_gate();
    let _ = g.start();
    let _ = g.record(Event::Claims(true));
    match expect_run(g.record(Event::Validated(Ok(())))) {
        Check::MemberAuthority(p) => {
            assert_eq!(p.title, "members");
            assert_eq!(p.name, "delete");
        }
        _ => panic!("expected the authority check"),
    }
    assert!(matches!(g.record(Event::Authority(AuthorityCheck::Granted)), Action::Proceed));
}

#[test]
fn staff_checks_ask_for_their_permissions() {
    let mut g = edit_staff_status_gate();
    let _ = g.start();
    match expect_run(g.record(Event::Claims(true))) {
        Check::MemberAuthority(p) => {
            assert_eq!(p.title, "staff");
            assert_eq!(p.name, "update");
        }
        _ => panic!("expected the authority check"),
    }
    let mut g = remove_member_gate();
    let _ = g.start();
    match expect_run(g.record(Event::Claims(true))) {
        Check::MemberAuthority(p) => {
            assert_eq!(p.title, "staff");
            assert_eq!(p.name, "delete");
        }
        _ => panic!("expected the authority check"),
    }
}

#[test]
fn denied_authority_is_unauthorized() {
    let mut g = remove_member_gate();
    let _ = g.start();
    let _ = g.record(Event::Claims(true));
    let r = expect_reply(g.record(Event::Authority(AuthorityCheck::Denied)));
    assert_eq!(r.status.code(), 401);
    assert_eq!(r.message, "You're not authorized to perform this action!");
}

#[test]
fn failed_authority_lookup_is_unauthorized() {
    let mut g = edit_staff_status_gate();
    let _ = g.start();
    let _ = g.record(Event::Claims(true));
    let r = expect_reply(g.record(Event::Authority(AuthorityCheck::Failed)));
    assert_eq!(r.status, HttpStatus::Unauthorized);
    assert_eq!(
        r.message,
        "Could not verify your authority: An error occurred during the process!"
    );
}

#[test]
fn org_project_checks_authority_before_validation() {
    let mut g = create_org_project_gate();
    let _ = g.start();
    match expect_run(g.record(Event::Claims(true))) {
        Check::OrgAuthority(p) => {
            assert_eq!(p.title, "projects");
            assert_eq!(p.name, "create");
        }
        _ => panic!("expected the organisation check"),
    }
    assert!(matches!(expect_run(g.record(Event::Access(OrgAccess::Granted))), Check::Validation));
    assert!(matches!(g.record(Event::Validated(Ok(()))), Action::Proceed));
}

#[test]
fn org_access_refusals() {
    let cases = [
        (OrgAccess::SectionMissing, 417, "The section you are trying to access was not found!"),
        (OrgAccess::Denied, 401, "You're not authorized to perform this action!"),
        (
            OrgAccess::Failed,
            401,
            "Could not verify your authority: An error occurred during the process!",
        ),
    ];
    for (access, code, message) in cases {
        let mut g = create_org_project_gate();
        let _ = g.start();
        let _ = g.record(Event::Claims(true));
        let r = expect_reply(g.record(Event::Access(access)));
        assert_eq!(r.status.code(), code);
        assert_eq!(r.message, message);
        assert!(!r.success);
    }
}

#[test]
fn create_project_checks() {
    let mut g = create_project_gate();
    assert!(matches!(expect_run(g.start()), Check::Claims));
    assert!(matches!(expect_run(g.record(Event::Claims(true))), Check::Validation));
    assert!(matches!(g.record(Event::Validated(Ok(()))), Action::Proceed));
}

#[test]
fn passing_outcomes() {
    assert!(lets_through(&Event::Claims(true)));
    assert!(!lets_through(&Event::Claims(false)));
    assert!(lets_through(&Event::Exists(false)));
    assert!(!lets_through(&Event::Exists(true)));
    assert!(!lets_through(&Event::Validated(Err(String::new()))));
    assert!(!lets_through(&Event::Access(OrgAccess::SectionMissing)));
    let r = refuse(Event::Authority(AuthorityCheck::Denied));
    assert_eq!(r.status.code(), 401);
}

#[test]
fn lookups_become_check_outcomes() {
    let failed = || DbError { not_found: false, message: "down".to_string() };
    assert_eq!(AuthorityCheck::from_lookup(Ok(true)), AuthorityCheck::Granted);
    assert_eq!(AuthorityCheck::from_lookup(Ok(false)), AuthorityCheck::Denied);
    assert_eq!(AuthorityCheck::from_lookup(Err(failed())), AuthorityCheck::Failed);
    assert_eq!(OrgAccess::from_lookup(Ok((true, true))), OrgAccess::Granted);
    assert_eq!(OrgAccess::from_lookup(Ok((true, false))), OrgAccess::SectionMissing);
    assert_eq!(OrgAccess::from_lookup(Ok((false, true))), OrgAccess::Denied);
    assert_eq!(OrgAccess::from_lookup(Ok((false, false))), OrgAccess::Denied);
    assert_eq!(OrgAccess::from_lookup(Err(failed())), OrgAccess::Failed);
}

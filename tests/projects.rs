use console::credentials::issue_token_at;
use console::error::{SBError, StoreFault};
use console::identity::GuardError;
use console::ids::ObjectKey;
use console::projects::{
    begin_project_guard_at, finish_get_project, finish_project_guard,
    parse_project_id, Project,
};

const SECRET: &str = "tenant secret";
const TENANT_A: &str = "650000000000000000000001";
const TENANT_B: &str = "650000000000000000000002";

fn header_for(sub: &str) -> String {
    format!("Bearer {}", issue_token_at(sub, SECRET, 100).unwrap())
}

fn project(id: &str, members: &[&str]) -> Project {
    Project {
        id: ObjectKey::parse(id),
        name: "widgets".to_string(),
        users: members.iter().map(|m| m.to_string()).collect(),
    }
}

#[test]
fn a_member_is_let_through_with_the_tenant_asked_for() {
    let h = header_for("alice");
    let pending = begin_project_guard_at(Some(&h), Some(TENANT_A), SECRET, 200).unwrap();
    assert_eq!(pending.sub, "alice");
    let u = finish_project_guard(pending, Ok(Some(project(TENANT_A, &["bob", "alice"])))).unwrap();
    assert_eq!(u.sub, "alice");
    assert_eq!(u.project.id.unwrap().to_hex(), TENANT_A);
}

#[test]
fn a_non_member_is_unauthorized() {
    let h = header_for("mallory");
    let pending = begin_project_guard_at(Some(&h), Some(TENANT_A), SECRET, 200).unwrap();
    let e = finish_project_guard(pending, Ok(Some(project(TENANT_A, &["alice"])))).unwrap_err();
    assert_eq!(e, GuardError::NoTenantAccess);
    assert_eq!(e.status_code(), 401);
}

#[test]
fn no_tenant_found_is_unauthorized() {
    let h = header_for("alice");
    let pending = begin_project_guard_at(Some(&h), Some(TENANT_A), SECRET, 200).unwrap();
    assert_eq!(finish_project_guard(pending, Ok(None)).unwrap_err(), GuardError::NoTenantAccess);
}

#[test]
fn an_empty_tenant_admits_nobody() {
    let h = header_for("alice");
    let pending = begin_project_guard_at(Some(&h), Some(TENANT_A), SECRET, 200).unwrap();
    assert_eq!(finish_project_guard(pending, Ok(Some(project(TENANT_A, &[])))).unwrap_err(), GuardError::NoTenantAccess);
}

#[test]
fn a_tenant_other_than_the_one_asked_for_is_unauthorized() {
    let h = header_for("alice");
    let pending = begin_project_guard_at(Some(&h), Some(TENANT_A), SECRET, 200).unwrap();
    let e = finish_project_guard(pending, Ok(Some(project(TENANT_B, &["alice"])))).unwrap_err();
    assert_eq!(e, GuardError::NoTenantAccess);
}

#[test]
fn a_failed_lookup_is_internal() {
    let h = header_for("alice");
    let pending = begin_project_guard_at(Some(&h), Some(TENANT_A), SECRET, 200).unwrap();
    let e = finish_project_guard(pending, Err(StoreFault::Unavailable)).unwrap_err();
    assert_eq!(e, GuardError::StorageUnavailable);
    assert_eq!(e.status_code(), 500);
}

#[test]
fn the_identity_is_checked_before_the_tenant_id() {
    assert_eq!(begin_project_guard_at(None, None, SECRET, 0).unwrap_err(), GuardError::MissingHeader);
    assert_eq!(begin_project_guard_at(Some("Bearer"), Some("x"), SECRET, 0).unwrap_err(), GuardError::MalformedHeader);
    let h = header_for("alice");
    assert_eq!(begin_project_guard_at(Some(&h), None, SECRET, 200).unwrap_err(), GuardError::MissingTenantId);
    assert_eq!(GuardError::MissingTenantId.status_code(), 500);
    assert_eq!(begin_project_guard_at(Some(&h), Some("zzz"), SECRET, 200).unwrap_err(), GuardError::InvalidTenantId);
    assert_eq!(begin_project_guard_at(None, Some(TENANT_A), SECRET, 0).unwrap_err(), GuardError::MissingHeader);
}

#[test]
fn a_new_project_has_its_creator_as_sole_member() {
    let p = Project::owned_by("widgets", "alice");
    assert!(p.id.is_none());
    assert_eq!(p.name, "widgets");
    assert_eq!(p.users, vec!["alice".to_string()]);
    assert!(p.has_member("alice"));
    assert!(!p.has_member("bob"));
}

#[test]
fn a_project_is_shown_only_to_members() {
    let shown = finish_get_project(Ok(Some(project(TENANT_A, &["alice"]))), "alice").unwrap();
    assert_eq!(shown.unwrap().name, "widgets");
    assert!(finish_get_project(Ok(Some(project(TENANT_A, &["alice"]))), "bob").unwrap().is_none());
    match finish_get_project(Ok(None), "alice") {
        Err(SBError::ServiceError { message, .. }) => assert_eq!(message, "No project found"),
        _ => panic!("expected a client-class failure"),
    }
    assert!(!finish_get_project(Err(StoreFault::Unavailable), "alice").unwrap_err().is_client_error());
    assert!(parse_project_id("bad").unwrap_err().is_client_error());
}

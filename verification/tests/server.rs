use authz::catalog::Catalog;
use authz::policy::{OsoState, Rule};
use authz::server::{get_expense, get_repo, Status};

fn role_gateway() -> OsoState {
    OsoState::new(vec![Rule::ActorHasRoleOnRepository { action: "read".to_string() }])
}

fn suffix_gateway() -> OsoState {
    OsoState::new(vec![Rule::ActorHasSuffix {
        action: "GET".to_string(),
        suffix: "@example.com".to_string(),
    }])
}

fn submitter_gateway() -> OsoState {
    OsoState::new(vec![Rule::ActorIsSubmitter { action: "GET".to_string() }])
}

#[test]
fn test_basic() {
    let catalog = Catalog::seed();
    let oso = role_gateway();

    let resp = get_repo(&oso, &catalog, "oso");
    assert_eq!(resp, Err(Status::Forbidden));

    let resp = get_repo(&oso, &catalog, "gmail");
    assert!(matches!(resp, Ok(Some(_))));
}

#[test]
fn repo_body_is_rendered_exactly() {
    let catalog = Catalog::seed();
    let oso = role_gateway();
    let resp = get_repo(&oso, &catalog, "gmail");
    assert_eq!(
        resp,
        Ok(Some("<h1>A Repo</h1><p>Welcome to repo gmail</p>".to_string()))
    );
}

#[test]
fn absent_repo_name_is_not_found() {
    let catalog = Catalog::seed();
    let oso = role_gateway();
    assert_eq!(get_repo(&oso, &catalog, "linux"), Err(Status::NotFound));
}

#[test]
fn absent_expense_id_is_not_found_regardless_of_identity_and_rules() {
    let catalog = Catalog::seed();
    let permissive = suffix_gateway();
    let empty = OsoState::new(Vec::new());

    assert_eq!(
        get_expense(&permissive, &catalog, Some("alice@example.com"), 99),
        Err(Status::NotFound)
    );
    assert_eq!(
        get_expense(&permissive, &catalog, None, 99),
        Err(Status::NotFound)
    );
    assert_eq!(get_expense(&empty, &catalog, None, 99), Err(Status::NotFound));
}

#[test]
fn missing_identity_header_is_forbidden() {
    let catalog = Catalog::seed();
    let permissive = suffix_gateway();
    assert_eq!(
        get_expense(&permissive, &catalog, None, 1),
        Err(Status::Forbidden)
    );
}

#[test]
fn no_rules_loaded_denies_every_request() {
    let catalog = Catalog::seed();
    let empty = OsoState::new(Vec::new());
    assert_eq!(
        get_expense(&empty, &catalog, Some("alice@example.com"), 1),
        Err(Status::Forbidden)
    );
    assert_eq!(get_repo(&empty, &catalog, "gmail"), Err(Status::Forbidden));
}

#[test]
fn suffix_rule_grants_matching_actor() {
    let catalog = Catalog::seed();
    let oso = suffix_gateway();
    assert_eq!(
        get_expense(&oso, &catalog, Some("alice@example.com"), 1),
        Ok("Expense(amount=500, description=coffee, submitted_by=alice@example.com)\n".to_string())
    );
    assert_eq!(get_expense(&oso, &catalog, None, 1), Err(Status::Forbidden));
}

#[test]
fn suffix_rule_denies_other_domains() {
    let catalog = Catalog::seed();
    let oso = suffix_gateway();
    assert_eq!(
        get_expense(&oso, &catalog, Some("mallory@evil.test"), 1),
        Err(Status::Forbidden)
    );
}

#[test]
fn empty_suffix_grants_every_named_actor() {
    let catalog = Catalog::seed();
    let oso = OsoState::new(vec![Rule::ActorHasSuffix {
        action: "GET".to_string(),
        suffix: "".to_string(),
    }]);
    assert!(get_expense(&oso, &catalog, Some("anyone"), 2).is_ok());
}

#[test]
fn submitter_rule_grants_own_expense_only() {
    let catalog = Catalog::seed();
    let oso = submitter_gateway();
    assert_eq!(
        get_expense(&oso, &catalog, Some("alice@example.com"), 1),
        Ok("Expense(amount=500, description=coffee, submitted_by=alice@example.com)\n".to_string())
    );
    assert_eq!(
        get_expense(&oso, &catalog, Some("alice@example.com"), 3),
        Err(Status::Forbidden)
    );
}

#[test]
fn submitter_rule_requires_matching_action() {
    let catalog = Catalog::seed();
    let oso = OsoState::new(vec![Rule::ActorIsSubmitter { action: "DELETE".to_string() }]);
    assert_eq!(
        get_expense(&oso, &catalog, Some("alice@example.com"), 1),
        Err(Status::Forbidden)
    );
}

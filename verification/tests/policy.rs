use authz::catalog::Catalog;
use authz::identity::resolve_identity;
use authz::models::{Actor, Repository, Resource, Role, User};
use authz::policy::{OsoState, Rule};
use authz::text::{ends_with, str_eq, u64_to_dec};

fn maintainer_of(repo_name: &str) -> User {
    User::new(vec![Role::new("maintainer", Repository::new(repo_name, true))])
}

#[test]
fn default_deny_decide_returns_false() {
    let oso = OsoState::new(Vec::new());
    let actor = Actor::Named("alice@example.com".to_string());
    let resource = Resource::Repo(Repository::new("gmail", false));
    assert!(!oso.decide(&actor, "read", &resource));
    assert!(!oso.is_allowed(User::get_current_user(), "read", Repository::new("gmail", false)));
}

#[test]
fn decide_is_deterministic_across_repeated_calls() {
    let oso = OsoState::new(vec![Rule::ActorHasRoleOnRepository { action: "read".to_string() }]);
    let actor = Actor::Principal(maintainer_of("react"));
    let resource = Resource::Repo(Repository::new("react", true));
    let first = oso.decide(&actor, "read", &resource);
    let second = oso.decide(&actor, "read", &resource);
    let third = oso.decide(&actor, "read", &resource);
    assert_eq!(first, second);
    assert_eq!(second, third);
    assert!(first);
}

#[test]
fn role_on_other_repository_does_not_grant() {
    let oso = OsoState::new(vec![Rule::ActorHasRoleOnRepository { action: "read".to_string() }]);
    let actor = Actor::Principal(maintainer_of("react"));
    let resource = Resource::Repo(Repository::new("gmail", false));
    assert!(!oso.decide(&actor, "read", &resource));
}

#[test]
fn catalog_lookups_are_idempotent() {
    let catalog = Catalog::seed();
    let first = Repository::by_name(&catalog, "react");
    let second = Repository::by_name(&catalog, "react");
    assert_eq!(first, second);
    assert_eq!(first, Some(Repository::new("react", true)));

    let e1 = catalog.lookup_expense(3);
    let e2 = catalog.lookup_expense(3);
    assert_eq!(e1, e2);
    assert!(e1.is_some());

    assert_eq!(Repository::by_name(&catalog, "missing"), None);
    assert_eq!(catalog.lookup_expense(0), None);
}

#[test]
fn identity_resolution_fails_closed() {
    assert!(resolve_identity(None).is_none());
    let actor = resolve_identity(Some("alice@example.com"));
    assert!(matches!(actor, Some(Actor::Named(name)) if name == "alice@example.com"));
}

#[test]
fn suffix_matching_is_exact() {
    assert!(ends_with("alice@example.com", "@example.com"));
    assert!(ends_with("@example.com", "@example.com"));
    assert!(ends_with("anything", ""));
    assert!(!ends_with("alice@example.org", "@example.com"));
    assert!(!ends_with("com", "@example.com"));
}

#[test]
fn string_equality_is_exact() {
    assert!(str_eq("read", "read"));
    assert!(!str_eq("read", "reads"));
    assert!(!str_eq("read", "GET"));
    assert!(str_eq("", ""));
}

#[test]
fn decimal_rendering_is_exact() {
    assert_eq!(u64_to_dec(0), "0");
    assert_eq!(u64_to_dec(7), "7");
    assert_eq!(u64_to_dec(50000), "50000");
    assert_eq!(u64_to_dec(18446744073709551615), "18446744073709551615");
}

//! The policy gateway: holds the rule set loaded at startup and answers
//! `decide(actor, action, resource)` with a default-deny posture — a request
//! is allowed exactly when some loaded rule grants it.

use vstd::prelude::*;

use crate::models::{
    Actor, ActorView, Expense, ExpenseView, Repository, RepositoryView, Resource, ResourceView,
    User, UserView,
};
use crate::text::{ends_with, is_suffix_of, str_eq};

verus! {

/// One authorization rule. Each rule names the action it can grant.
pub enum Rule {
    /// Grants the action when the actor is a named identity whose name ends
    /// with the given suffix (e.g. grants to anyone at one mail domain).
    ActorHasSuffix { action: String, suffix: String },
    /// Grants the action on an expense whose submitter equals the named
    /// actor.
    ActorIsSubmitter { action: String },
    /// Grants the action on a repository the actor principal holds some role
    /// on.
    ActorHasRoleOnRepository { action: String },
}

/// Mathematical image of a `Rule`.
pub enum RuleView {
    ActorHasSuffix { action: Seq<char>, suffix: Seq<char> },
    ActorIsSubmitter { action: Seq<char> },
    ActorHasRoleOnRepository { action: Seq<char> },
}

impl View for Rule {
    type V = RuleView;

    open spec fn view(&self) -> RuleView {
        match self {
            Rule::ActorHasSuffix { action, suffix } => RuleView::ActorHasSuffix {
                action: action@,
                suffix: suffix@,
            },
            Rule::ActorIsSubmitter { action } => RuleView::ActorIsSubmitter { action: action@ },
            Rule::ActorHasRoleOnRepository { action } => RuleView::ActorHasRoleOnRepository {
                action: action@,
            },
        }
    }
}

/// True when the principal holds some role on the repository.
pub open spec fn holds_role_on(user: UserView, repo: RepositoryView) -> bool {
    exists|k: int| 0 <= k < user.roles.len() && user.roles[k].repository.name == repo.name
}

/// What one rule grants.
pub open spec fn rule_grants(
    rule: RuleView,
    actor: ActorView,
    action: Seq<char>,
    resource: ResourceView,
) -> bool {
    match rule {
        RuleView::ActorHasSuffix { action: granted, suffix } => {
            &&& granted == action
            &&& match actor {
                ActorView::Named(name) => is_suffix_of(name, suffix),
                _ => false,
            }
        },
        RuleView::ActorIsSubmitter { action: granted } => {
            &&& granted == action
            &&& match (actor, resource) {
                (ActorView::Named(name), ResourceView::Expense(e)) => e.submitted_by == name,
                _ => false,
            }
        },
        RuleView::ActorHasRoleOnRepository { action: granted } => {
            &&& granted == action
            &&& match (actor, resource) {
                (ActorView::Principal(user), ResourceView::Repo(repo)) => holds_role_on(
                    user,
                    repo,
                ),
                _ => false,
            }
        },
    }
}

/// The decision over a whole rule set: allowed exactly when some rule grants
/// the request; with no rules, everything is denied.
pub open spec fn ruleset_allows(
    rules: Seq<RuleView>,
    actor: ActorView,
    action: Seq<char>,
    resource: ResourceView,
) -> bool {
    exists|i: int| 0 <= i < rules.len() && rule_grants(rules[i], actor, action, resource)
}

/// The policy gateway state: the rule set the evaluator was loaded with at
/// startup. Shared read-only across requests; never reloaded.
pub struct OsoState {
    rules: Vec<Rule>,
}

impl View for OsoState {
    type V = Seq<RuleView>;

    closed spec fn view(&self) -> Seq<RuleView> {
        self.rules@.map_values(|r: Rule| r@)
    }
}

fn user_holds_role_on(user: &User, repo: &Repository) -> (r: bool)
    ensures
        r == holds_role_on(user@, repo@),
{
    let n = user.roles.len();
    let mut i: usize = 0;
    while i < n
        invariant
            n == user.roles.len(),
            0 <= i <= n,
            user@.roles.len() == n,
            forall|j: int| 0 <= j < i ==> user@.roles[j].repository.name != repo@.name,
        decreases n - i,
    {
        if str_eq(user.roles[i].repository.name.as_str(), repo.name.as_str()) {
            assert(user@.roles[i as int].repository.name == repo@.name);
            return true;
        }
        i += 1;
    }
    false
}

fn grants(rule: &Rule, actor: &Actor, action: &str, resource: &Resource) -> (r: bool)
    ensures
        r == rule_grants(rule@, actor@, action@, resource@),
{
    match rule {
        Rule::ActorHasSuffix { action: granted, suffix } => {
            if !str_eq(granted.as_str(), action) {
                return false;
            }
            match actor {
                Actor::Named(name) => ends_with(name.as_str(), suffix.as_str()),
                _ => false,
            }
        },
        Rule::ActorIsSubmitter { action: granted } => {
            if !str_eq(granted.as_str(), action) {
                return false;
            }
            match (actor, resource) {
                (Actor::Named(name), Resource::Expense(e)) => str_eq(
                    e.submitted_by.as_str(),
                    name.as_str(),
                ),
                _ => false,
            }
        },
        Rule::ActorHasRoleOnRepository { action: granted } => {
            if !str_eq(granted.as_str(), action) {
                return false;
            }
            match (actor, resource) {
                (Actor::Principal(user), Resource::Repo(repo)) => user_holds_role_on(user, repo),
                _ => false,
            }
        },
    }
}

impl OsoState {
    /// Load the gateway with a fixed rule set.
    pub fn new(rules: Vec<Rule>) -> (r: Self)
        ensures
            r@ == rules@.map_values(|ru: Rule| ru@),
    {
        OsoState { rules }
    }

    /// The gateway decision. Deterministic: the result is a function of the
    /// loaded rule set and the (actor, action, resource) triple alone, and
    /// the gateway itself is only read.
    pub fn decide(&self, actor: &Actor, action: &str, resource: &Resource) -> (r: bool)
        ensures
            r == ruleset_allows(self@, actor@, action@, resource@),
    {
        let n = self.rules.len();
        let mut i: usize = 0;
        while i < n
            invariant
                n == self.rules.len(),
                0 <= i <= n,
                self@.len() == n,
                forall|j: int| 0 <= j < i ==> !rule_grants(self@[j], actor@, action@, resource@),
            decreases n - i,
        {
            if grants(&self.rules[i], actor, action, resource) {
                assert(rule_grants(self@[i as int], actor@, action@, resource@));
                return true;
            }
            i += 1;
        }
        false
    }

    /// The repository-endpoint decision: is this principal allowed to perform
    /// the action on this repository?
    pub fn is_allowed(&self, actor: User, action: &str, resource: Repository) -> (r: bool)
        ensures
            r == ruleset_allows(
                self@,
                ActorView::Principal(actor@),
                action@,
                ResourceView::Repo(resource@),
            ),
    {
        let a = Actor::Principal(actor);
        let res = Resource::Repo(resource);
        self.decide(&a, action, &res)
    }
}

/// Default deny: with no rules loaded, every decision is a denial.
pub proof fn lemma_default_deny(actor: ActorView, action: Seq<char>, resource: ResourceView)
    ensures
        !ruleset_allows(Seq::<RuleView>::empty(), actor, action, resource),
{
}

/// Determinism of the decision: equal rule sets decide equal requests
/// equally.
pub proof fn lemma_decide_deterministic(
    rules1: Seq<RuleView>,
    rules2: Seq<RuleView>,
    actor: ActorView,
    action: Seq<char>,
    resource: ResourceView,
)
    requires
        rules1 == rules2,
    ensures
        ruleset_allows(rules1, actor, action, resource) == ruleset_allows(
            rules2,
            actor,
            action,
            resource,
        ),
{
}

/// A suffix rule in the rule set grants its action to every named actor whose
/// name carries the suffix, on any resource.
pub proof fn lemma_suffix_rule_grants(
    rules: Seq<RuleView>,
    name: Seq<char>,
    action: Seq<char>,
    suffix: Seq<char>,
    resource: ResourceView,
    i: int,
)
    requires
        0 <= i < rules.len(),
        rules[i] == (RuleView::ActorHasSuffix { action, suffix }),
        is_suffix_of(name, suffix),
    ensures
        ruleset_allows(rules, ActorView::Named(name), action, resource),
{
    assert(rule_grants(rules[i], ActorView::Named(name), action, resource));
}

/// A submitter rule in the rule set grants its action to the named actor who
/// submitted the expense.
pub proof fn lemma_submitter_rule_grants(
    rules: Seq<RuleView>,
    name: Seq<char>,
    action: Seq<char>,
    expense: ExpenseView,
    i: int,
)
    requires
        0 <= i < rules.len(),
        rules[i] == (RuleView::ActorIsSubmitter { action }),
        expense.submitted_by == name,
    ensures
        ruleset_allows(rules, ActorView::Named(name), action, ResourceView::Expense(expense)),
{
    assert(rule_grants(rules[i], ActorView::Named(name), action, ResourceView::Expense(expense)));
}

} // verus!

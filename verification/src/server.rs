//! The request handlers: resolve an identity, look up the resource, ask the
//! policy gateway, and map the outcome to a response — the resource body on
//! allow, `Forbidden` on a missing identity or a denial, `NotFound` on a
//! missing key.

use vstd::prelude::*;

use crate::catalog::{find_expense, find_repo, Catalog, CatalogView};
use crate::identity::resolve_identity;
use crate::models::{current_user, ActorView, ExpenseView, Repository, Resource, ResourceView, User};
use crate::policy::{lemma_default_deny, ruleset_allows, OsoState, RuleView};
use crate::text::{dec_str, u64_to_dec};

verus! {

/// HTTP-style failure statuses of the mediation core. A missing identity and
/// a policy denial both map to `Forbidden`; a missing catalog key maps to
/// `NotFound` and is checked before authorization.
#[derive(Clone, Copy, Debug, PartialEq, Eq, Structural)]
pub enum Status {
    NotFound,
    Forbidden,
}

/// Body of a successful repository response.
pub open spec fn repo_body(name: Seq<char>) -> Seq<char> {
    "<h1>A Repo</h1><p>Welcome to repo "@ + name + "</p>"@
}

/// Body of a successful expense response.
pub open spec fn expense_body(e: ExpenseView) -> Seq<char> {
    "Expense(amount="@ + dec_str(e.amount as nat) + ", description="@ + e.description
        + ", submitted_by="@ + e.submitted_by + ")\n"@
}

/// View of the optional `user` header value.
pub open spec fn header_view(header: Option<&str>) -> Option<Seq<char>> {
    match header {
        Some(name) => Some(name@),
        None => None,
    }
}

/// The specified response of the repository endpoint, whose identity is the
/// fixed current user: the repository body if some rule grants "read",
/// `NotFound` on an unknown name, `Forbidden` on a denial.
pub open spec fn repo_response(
    rules: Seq<RuleView>,
    cat: CatalogView,
    name: Seq<char>,
) -> Result<Seq<char>, Status> {
    match find_repo(cat.repos, name) {
        Option::None => Result::Err(Status::NotFound),
        Option::Some(repo) => if ruleset_allows(
            rules,
            ActorView::Principal(current_user()),
            "read"@,
            ResourceView::Repo(repo),
        ) {
            Result::Ok(repo_body(repo.name))
        } else {
            Result::Err(Status::Forbidden)
        },
    }
}

/// The specified response of the expense endpoint, whose identity comes from
/// the `user` header: `NotFound` on an unknown id, `Forbidden` on a missing
/// header or a denial, the expense body if some rule grants "GET".
pub open spec fn expense_response(
    rules: Seq<RuleView>,
    cat: CatalogView,
    header: Option<Seq<char>>,
    id: u64,
) -> Result<Seq<char>, Status> {
    match find_expense(cat.expenses, id) {
        Option::None => Result::Err(Status::NotFound),
        Option::Some(e) => match header {
            Option::None => Result::Err(Status::Forbidden),
            Option::Some(name) => if ruleset_allows(
                rules,
                ActorView::Named(name),
                "GET"@,
                ResourceView::Expense(e),
            ) {
                Result::Ok(expense_body(e))
            } else {
                Result::Err(Status::Forbidden)
            },
        },
    }
}

/// Serve one repository request: the body wrapped in `Ok(Some(..))` when the
/// fixed current user may read the named repository.
pub fn get_repo(oso: &OsoState, catalog: &Catalog, name: &str) -> (r: Result<
    Option<String>,
    Status,
>)
    ensures
        match r {
            Result::Ok(body) => body is Some && repo_response(oso@, catalog@, name@)
                == Result::<Seq<char>, Status>::Ok(body->0@),
            Result::Err(status) => repo_response(oso@, catalog@, name@)
                == Result::<Seq<char>, Status>::Err(status),
        },
{
    let repo = match Repository::by_name(catalog, name) {
        Option::Some(repo) => repo,
        Option::None => {
            return Result::Err(Status::NotFound);
        },
    };
    if oso.is_allowed(User::get_current_user(), "read", repo.clone()) {
        let body = String::from_str("<h1>A Repo</h1><p>Welcome to repo ").concat(
            repo.name.as_str(),
        ).concat("</p>");
        proof {
            assert(body@ =~= repo_body(repo@.name));
        }
        Result::Ok(Option::Some(body))
    } else {
        Result::Err(Status::Forbidden)
    }
}

/// Serve one expense request: the rendered record when the header-named actor
/// may "GET" it.
pub fn get_expense(oso: &OsoState, catalog: &Catalog, header: Option<&str>, id: u64) -> (r: Result<
    String,
    Status,
>)
    ensures
        match r {
            Result::Ok(body) => expense_response(oso@, catalog@, header_view(header), id)
                == Result::<Seq<char>, Status>::Ok(body@),
            Result::Err(status) => expense_response(oso@, catalog@, header_view(header), id)
                == Result::<Seq<char>, Status>::Err(status),
        },
{
    let e = match catalog.lookup_expense(id) {
        Option::Some(e) => e,
        Option::None => {
            return Result::Err(Status::NotFound);
        },
    };
    let actor = match resolve_identity(header) {
        Option::Some(actor) => actor,
        Option::None => {
            return Result::Err(Status::Forbidden);
        },
    };
    let resource = Resource::Expense(e.clone());
    if oso.decide(&actor, "GET", &resource) {
        let mut body = String::from_str("Expense(amount=");
        body.append(u64_to_dec(e.amount).as_str());
        body.append(", description=");
        body.append(e.description.as_str());
        body.append(", submitted_by=");
        body.append(e.submitted_by.as_str());
        body.append(")\n");
        proof {
            assert(body@ =~= expense_body(e@));
        }
        Result::Ok(body)
    } else {
        Result::Err(Status::Forbidden)
    }
}

/// An expense id absent from the catalog is answered `NotFound`, whatever the
/// identity and whatever rules are loaded.
pub proof fn lemma_expense_absent_not_found(
    rules: Seq<RuleView>,
    cat: CatalogView,
    header: Option<Seq<char>>,
    id: u64,
)
    requires
        find_expense(cat.expenses, id) is None,
    ensures
        expense_response(rules, cat, header, id) == Result::<Seq<char>, Status>::Err(
            Status::NotFound,
        ),
{
}

/// A repository name absent from the catalog is answered `NotFound`, whatever
/// rules are loaded.
pub proof fn lemma_repo_absent_not_found(rules: Seq<RuleView>, cat: CatalogView, name: Seq<char>)
    requires
        find_repo(cat.repos, name) is None,
    ensures
        repo_response(rules, cat, name) == Result::<Seq<char>, Status>::Err(Status::NotFound),
{
}

/// A request without the identity header never reaches the gateway: the
/// response is the same under any two rule sets, and is `Forbidden` whenever
/// the record exists.
pub proof fn lemma_missing_identity_forbidden(
    rules1: Seq<RuleView>,
    rules2: Seq<RuleView>,
    cat: CatalogView,
    id: u64,
)
    ensures
        expense_response(rules1, cat, None, id) == expense_response(rules2, cat, None, id),
        find_expense(cat.expenses, id) is Some ==> expense_response(rules1, cat, None, id)
            == Result::<Seq<char>, Status>::Err(Status::Forbidden),
{
}

/// With no rules loaded the expense endpoint denies every authenticated
/// request for an existing record (default deny seen from the handler).
pub proof fn lemma_no_rules_expense_forbidden(cat: CatalogView, name: Seq<char>, id: u64)
    requires
        find_expense(cat.expenses, id) is Some,
    ensures
        expense_response(Seq::<RuleView>::empty(), cat, Some(name), id) == Result::<
            Seq<char>,
            Status,
        >::Err(Status::Forbidden),
{
    let e = find_expense(cat.expenses, id)->0;
    lemma_default_deny(ActorView::Named(name), "GET"@, ResourceView::Expense(e));
}

} // verus!

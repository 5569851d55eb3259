//! The data model: resource records (repositories and expense reports), role
//! assignments, users, and the actor/resource vocabulary the policy gateway
//! decides over.

use vstd::prelude::*;

use crate::catalog::{find_repo, Catalog};

verus! {

/// A source-control repository record, identified by its name.
#[derive(Debug, PartialEq, Eq)]
pub struct Repository {
    pub name: String,
    pub is_public: bool,
}

/// Mathematical image of a `Repository`.
#[verifier::ext_equal]
pub struct RepositoryView {
    pub name: Seq<char>,
    pub is_public: bool,
}

impl View for Repository {
    type V = RepositoryView;

    open spec fn view(&self) -> RepositoryView {
        RepositoryView { name: self.name@, is_public: self.is_public }
    }
}

impl Repository {
    pub fn new(name: &str, is_public: bool) -> (r: Self)
        ensures
            r@ == (RepositoryView { name: name@, is_public }),
    {
        Repository { name: name.to_owned(), is_public }
    }

    /// Look up a repository by name in the given catalog.
    pub fn by_name(catalog: &Catalog, name: &str) -> (r: Option<Self>)
        ensures
            match r {
                Some(rep) => find_repo(catalog@.repos, name@) == Some(rep@),
                None => find_repo(catalog@.repos, name@) is None,
            },
    {
        catalog.lookup_repo(name)
    }
}

impl Clone for Repository {
    fn clone(&self) -> (r: Self)
        ensures
            r@ == self@,
    {
        Repository { name: self.name.clone(), is_public: self.is_public }
    }
}

/// An expense report record, identified by a numeric id; the amount is in
/// cents.
#[derive(Debug, PartialEq, Eq)]
pub struct Expense {
    pub id: u64,
    pub amount: u64,
    pub description: String,
    pub submitted_by: String,
}

/// Mathematical image of an `Expense`.
#[verifier::ext_equal]
pub struct ExpenseView {
    pub id: u64,
    pub amount: u64,
    pub description: Seq<char>,
    pub submitted_by: Seq<char>,
}

impl View for Expense {
    type V = ExpenseView;

    open spec fn view(&self) -> ExpenseView {
        ExpenseView {
            id: self.id,
            amount: self.amount,
            description: self.description@,
            submitted_by: self.submitted_by@,
        }
    }
}

impl Expense {
    pub fn new(id: u64, amount: u64, description: &str, submitted_by: &str) -> (r: Self)
        ensures
            r@ == (ExpenseView {
                id,
                amount,
                description: description@,
                submitted_by: submitted_by@,
            }),
    {
        Expense {
            id,
            amount,
            description: description.to_owned(),
            submitted_by: submitted_by.to_owned(),
        }
    }
}

impl Clone for Expense {
    fn clone(&self) -> (r: Self)
        ensures
            r@ == self@,
    {
        Expense {
            id: self.id,
            amount: self.amount,
            description: self.description.clone(),
            submitted_by: self.submitted_by.clone(),
        }
    }
}

/// A named role held on one repository, e.g. "maintainer" of "react".
pub struct Role {
    pub name: String,
    pub repository: Repository,
}

/// Mathematical image of a `Role`.
#[verifier::ext_equal]
pub struct RoleView {
    pub name: Seq<char>,
    pub repository: RepositoryView,
}

impl View for Role {
    type V = RoleView;

    open spec fn view(&self) -> RoleView {
        RoleView { name: self.name@, repository: self.repository@ }
    }
}

impl Role {
    pub fn new(name: &str, repository: Repository) -> (r: Self)
        ensures
            r@ == (RoleView { name: name@, repository: repository@ }),
    {
        Role { name: name.to_owned(), repository }
    }
}

/// A user principal: a bundle of role assignments.
pub struct User {
    pub roles: Vec<Role>,
}

/// Mathematical image of a `User`.
#[verifier::ext_equal]
pub struct UserView {
    pub roles: Seq<RoleView>,
}

impl View for User {
    type V = UserView;

    open spec fn view(&self) -> UserView {
        UserView { roles: self.roles@.map_values(|r: Role| r@) }
    }
}

/// The statically seeded "current user": holder of the "admin" role on the
/// "gmail" repository.
pub open spec fn current_user() -> UserView {
    UserView {
        roles: seq![
            RoleView {
                name: "admin"@,
                repository: RepositoryView { name: "gmail"@, is_public: false },
            },
        ],
    }
}

impl User {
    pub fn new(roles: Vec<Role>) -> (r: Self)
        ensures
            r@ == (UserView { roles: roles@.map_values(|ro: Role| ro@) }),
    {
        User { roles }
    }

    /// The fixed identity used by endpoints that do not resolve a caller from
    /// the request: the seeded current user.
    pub fn get_current_user() -> (r: Self)
        ensures
            r@ == current_user(),
    {
        let mut roles: Vec<Role> = Vec::new();
        roles.push(Role::new("admin", Repository::new("gmail", false)));
        let u = User::new(roles);
        proof {
            assert(u@.roles =~= current_user().roles);
            assert(u@ =~= current_user());
        }
        u
    }
}

/// The requesting identity a decision is made about: either a bare name taken
/// from the request, or a seeded principal with roles.
pub enum Actor {
    Named(String),
    Principal(User),
}

/// Mathematical image of an `Actor`.
pub enum ActorView {
    Named(Seq<char>),
    Principal(UserView),
}

impl View for Actor {
    type V = ActorView;

    open spec fn view(&self) -> ActorView {
        match self {
            Actor::Named(name) => ActorView::Named(name@),
            Actor::Principal(user) => ActorView::Principal(user@),
        }
    }
}

/// The protected entity a decision is made about.
pub enum Resource {
    Repo(Repository),
    Expense(Expense),
}

/// Mathematical image of a `Resource`.
pub enum ResourceView {
    Repo(RepositoryView),
    Expense(ExpenseView),
}

impl View for Resource {
    type V = ResourceView;

    open spec fn view(&self) -> ResourceView {
        match self {
            Resource::Repo(repository) => ResourceView::Repo(repository@),
            Resource::Expense(expense) => ResourceView::Expense(expense@),
        }
    }
}

} // verus!

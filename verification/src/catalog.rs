//! The resource catalog: an in-memory directory of repositories and expense
//! reports, seeded once at startup and read-only afterwards. Lookups by a
//! missing key yield an explicit `None`, never a default.

use vstd::prelude::*;

use crate::models::{current_user, Expense, ExpenseView, Repository, RepositoryView, UserView};
use crate::text::str_eq;

verus! {

/// First match for a repository name, scanning left to right.
pub open spec fn find_repo(repos: Seq<RepositoryView>, name: Seq<char>) -> Option<RepositoryView>
    decreases repos.len(),
{
    if repos.len() == 0 {
        None
    } else if repos[0].name == name {
        Some(repos[0])
    } else {
        find_repo(repos.drop_first(), name)
    }
}

/// First match for an expense id, scanning left to right.
pub open spec fn find_expense(expenses: Seq<ExpenseView>, id: u64) -> Option<ExpenseView>
    decreases expenses.len(),
{
    if expenses.len() == 0 {
        None
    } else if expenses[0].id == id {
        Some(expenses[0])
    } else {
        find_expense(expenses.drop_first(), id)
    }
}

/// No two catalog entries share a repository name.
pub open spec fn unique_repo_names(repos: Seq<RepositoryView>) -> bool {
    forall|i: int, j: int| 0 <= i < j < repos.len() ==> repos[i].name != repos[j].name
}

/// No two catalog entries share an expense id.
pub open spec fn unique_expense_ids(expenses: Seq<ExpenseView>) -> bool {
    forall|i: int, j: int| 0 <= i < j < expenses.len() ==> expenses[i].id != expenses[j].id
}

/// Mathematical image of a `Catalog`.
#[verifier::ext_equal]
pub struct CatalogView {
    pub repos: Seq<RepositoryView>,
    pub expenses: Seq<ExpenseView>,
}

/// The immutable resource directory. Built once by `seed`; only read after.
pub struct Catalog {
    repos: Vec<Repository>,
    expenses: Vec<Expense>,
}

impl View for Catalog {
    type V = CatalogView;

    closed spec fn view(&self) -> CatalogView {
        CatalogView {
            repos: self.repos@.map_values(|r: Repository| r@),
            expenses: self.expenses@.map_values(|e: Expense| e@),
        }
    }
}

/// The fixed repository seed list.
pub open spec fn seed_repos() -> Seq<RepositoryView> {
    seq![
        RepositoryView { name: "gmail"@, is_public: false },
        RepositoryView { name: "react"@, is_public: true },
        RepositoryView { name: "oso"@, is_public: false },
    ]
}

/// The fixed expense seed list.
pub open spec fn seed_expenses() -> Seq<ExpenseView> {
    seq![
        ExpenseView { id: 1, amount: 500, description: "coffee"@, submitted_by: "alice@example.com"@ },
        ExpenseView { id: 2, amount: 5000, description: "software"@, submitted_by: "alice@example.com"@ },
        ExpenseView { id: 3, amount: 50000, description: "flight"@, submitted_by: "bhavik@example.com"@ },
    ]
}

impl Catalog {
    /// Build the catalog from the fixed seed lists.
    pub fn seed() -> (r: Self)
        ensures
            r@.repos == seed_repos(),
            r@.expenses == seed_expenses(),
    {
        let mut repos: Vec<Repository> = Vec::new();
        repos.push(Repository::new("gmail", false));
        repos.push(Repository::new("react", true));
        repos.push(Repository::new("oso", false));
        let mut expenses: Vec<Expense> = Vec::new();
        expenses.push(Expense::new(1, 500, "coffee", "alice@example.com"));
        expenses.push(Expense::new(2, 5000, "software", "alice@example.com"));
        expenses.push(Expense::new(3, 50000, "flight", "bhavik@example.com"));
        let r = Catalog { repos, expenses };
        proof {
            assert(r@.repos =~= seed_repos());
            assert(r@.expenses =~= seed_expenses());
        }
        r
    }

    /// Look up a repository by name; `None` exactly when no entry has it.
    pub fn lookup_repo(&self, name: &str) -> (r: Option<Repository>)
        ensures
            match r {
                Some(rep) => find_repo(self@.repos, name@) == Some(rep@),
                None => find_repo(self@.repos, name@) is None,
            },
    {
        let n = self.repos.len();
        proof {
            assert(self@.repos.skip(0) =~= self@.repos);
        }
        let mut i: usize = 0;
        while i < n
            invariant
                n == self.repos.len(),
                0 <= i <= n,
                self@.repos.len() == n,
                find_repo(self@.repos, name@) == find_repo(self@.repos.skip(i as int), name@),
            decreases n - i,
        {
            proof {
                assert(self@.repos.skip(i as int)[0] == self@.repos[i as int]);
                assert(self@.repos.skip(i as int).drop_first() =~= self@.repos.skip(i + 1));
            }
            if str_eq(self.repos[i].name.as_str(), name) {
                return Some(self.repos[i].clone());
            }
            i += 1;
        }
        proof {
            assert(self@.repos.skip(n as int).len() == 0);
        }
        None
    }

    /// Look up an expense report by id; `None` exactly when no entry has it.
    pub fn lookup_expense(&self, id: u64) -> (r: Option<Expense>)
        ensures
            match r {
                Some(e) => find_expense(self@.expenses, id) == Some(e@),
                None => find_expense(self@.expenses, id) is None,
            },
    {
        let n = self.expenses.len();
        proof {
            assert(self@.expenses.skip(0) =~= self@.expenses);
        }
        let mut i: usize = 0;
        while i < n
            invariant
                n == self.expenses.len(),
                0 <= i <= n,
                self@.expenses.len() == n,
                find_expense(self@.expenses, id) == find_expense(self@.expenses.skip(i as int), id),
            decreases n - i,
        {
            proof {
                assert(self@.expenses.skip(i as int)[0] == self@.expenses[i as int]);
                assert(self@.expenses.skip(i as int).drop_first() =~= self@.expenses.skip(i + 1));
            }
            if self.expenses[i].id == id {
                return Some(self.expenses[i].clone());
            }
            i += 1;
        }
        proof {
            assert(self@.expenses.skip(n as int).len() == 0);
        }
        None
    }
}

/// The seed lists satisfy the catalog key-uniqueness invariant.
pub proof fn lemma_seed_catalog_well_formed()
    ensures
        unique_repo_names(seed_repos()),
        unique_expense_ids(seed_expenses()),
{
    reveal_strlit("gmail");
    reveal_strlit("react");
    reveal_strlit("oso");
    assert("gmail"@[0] == 'g' && "react"@[0] == 'r');
    assert("gmail"@.len() == 5 && "oso"@.len() == 3);
    assert("react"@.len() == 5 && "oso"@.len() == 3);
    assert(forall|i: int, j: int|
        0 <= i < j < seed_repos().len() ==> seed_repos()[i].name != seed_repos()[j].name);
}

/// Every role of the user references a repository present in the catalog.
pub open spec fn roles_in_catalog(user: UserView, repos: Seq<RepositoryView>) -> bool {
    forall|k: int|
        0 <= k < user.roles.len() ==> exists|i: int|
            0 <= i < repos.len() && repos[i].name == (#[trigger] user.roles[k]).repository.name
}

/// The seed data satisfies the role-to-resource invariant: the seeded current
/// user's roles all reference seeded repositories.
pub proof fn lemma_seed_roles_in_catalog()
    ensures
        roles_in_catalog(current_user(), seed_repos()),
{
    assert forall|k: int| 0 <= k < current_user().roles.len() implies exists|i: int|
        0 <= i < seed_repos().len() && seed_repos()[i].name == (#[trigger] current_user().roles[k]).repository.name by {
        assert(seed_repos()[0].name == current_user().roles[0].repository.name);
    }
}

/// With unique expense ids, any entry carrying the looked-up id is exactly
/// the one a lookup returns: lookups of the same key on the same catalog
/// always return the same record.
pub proof fn lemma_expense_lookup_unique(expenses: Seq<ExpenseView>, id: u64, i: int)
    requires
        unique_expense_ids(expenses),
        0 <= i < expenses.len(),
        expenses[i].id == id,
    ensures
        find_expense(expenses, id) == Some(expenses[i]),
    decreases expenses.len(),
{
    if i == 0 {
    } else {
        assert(expenses[0].id != id);
        assert(unique_expense_ids(expenses.drop_first())) by {
            assert(forall|p: int, q: int|
                0 <= p < q < expenses.drop_first().len() ==> {
                    &&& expenses.drop_first()[p] == expenses[p + 1]
                    &&& expenses.drop_first()[q] == expenses[q + 1]
                });
        }
        assert(expenses.drop_first()[i - 1] == expenses[i]);
        lemma_expense_lookup_unique(expenses.drop_first(), id, i - 1);
    }
}

/// With unique repository names, any entry carrying the looked-up name is
/// exactly the one a lookup returns.
pub proof fn lemma_repo_lookup_unique(repos: Seq<RepositoryView>, name: Seq<char>, i: int)
    requires
        unique_repo_names(repos),
        0 <= i < repos.len(),
        repos[i].name == name,
    ensures
        find_repo(repos, name) == Some(repos[i]),
    decreases repos.len(),
{
    if i == 0 {
    } else {
        assert(repos[0].name != name);
        assert(unique_repo_names(repos.drop_first())) by {
            assert(forall|p: int, q: int|
                0 <= p < q < repos.drop_first().len() ==> {
                    &&& repos.drop_first()[p] == repos[p + 1]
                    &&& repos.drop_first()[q] == repos[q + 1]
                });
        }
        assert(repos.drop_first()[i - 1] == repos[i]);
        lemma_repo_lookup_unique(repos.drop_first(), name, i - 1);
    }
}

} // verus!

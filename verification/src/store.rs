//! The reactive store: the two fetched collections and the selected tab.
//!
//! A refresh replaces each collection wholesale and independently: the two
//! fetches run concurrently and neither blocks nor rolls back the other, so
//! the resulting store is the same whichever lands first. A successful
//! create appends locally; a delete never mutates the store locally — on
//! success the caller refetches, on failure the collections stand exactly
//! as they were.

use vstd::prelude::*;

use crate::client::HttpOutcome;
use crate::errors::AppError;
use crate::models::{Category, Expense};

verus! {

/// The three UI tabs. Any tab is reachable from any other by explicit
/// selection; the process starts on the session tab.
#[derive(PartialEq, Eq, Structural, Clone, Copy, Debug)]
pub enum TabOpt {
    Session,
    NewExpense,
    AllExpenses,
}

impl Default for TabOpt {
    /// The initial tab is the session tab.
    fn default() -> (r: TabOpt)
        ensures
            r == TabOpt::Session,
    {
        TabOpt::Session
    }
}

/// The mathematical state of a store: what the UI sees.
pub ghost struct StoreView {
    pub categories: Seq<Category>,
    pub expenses: Seq<Expense>,
    pub active_tab: TabOpt,
}

/// The store after its categories were replaced wholesale.
pub open spec fn with_categories(m: StoreView, categories: Seq<Category>) -> StoreView {
    StoreView { categories, ..m }
}

/// The store after its expenses were replaced wholesale.
pub open spec fn with_expenses(m: StoreView, expenses: Seq<Expense>) -> StoreView {
    StoreView { expenses, ..m }
}

/// The reactive store the UI renders from. It exclusively owns the two
/// collections; the remote API is the source of truth they mirror.
pub struct Store {
    pub categories: Vec<Category>,
    pub expenses: Vec<Expense>,
    pub active_tab: TabOpt,
}

impl Store {
    /// The store's mathematical state.
    pub open spec fn model(&self) -> StoreView {
        StoreView {
            categories: self.categories@,
            expenses: self.expenses@,
            active_tab: self.active_tab,
        }
    }

    /// A fresh store: both collections empty, session tab selected.
    pub fn new() -> (r: Store)
        ensures
            r.model().categories == Seq::<Category>::empty(),
            r.model().expenses == Seq::<Expense>::empty(),
            r.model().active_tab == TabOpt::Session,
    {
        Store { categories: Vec::new(), expenses: Vec::new(), active_tab: TabOpt::Session }
    }

    /// Replaces the category collection wholesale; expenses and tab stand.
    pub fn set_categories(&mut self, categories: Vec<Category>)
        ensures
            final(self).model() == with_categories(old(self).model(), categories@),
    {
        self.categories = categories;
    }

    /// Replaces the expense collection wholesale; categories and tab stand.
    pub fn set_expenses(&mut self, expenses: Vec<Expense>)
        ensures
            final(self).model() == with_expenses(old(self).model(), expenses@),
    {
        self.expenses = expenses;
    }

    /// Appends one expense locally, without a network round trip; used
    /// after a confirmed create instead of a full refetch.
    pub fn add_expense_locally(&mut self, expense: Expense)
        ensures
            final(self).model() == with_expenses(
                old(self).model(),
                old(self).model().expenses.push(expense),
            ),
    {
        self.expenses.push(expense);
    }

    /// Selects a tab: a pure state transition with no other effect.
    pub fn select_tab(&mut self, tab: TabOpt)
        ensures
            final(self).model() == (StoreView { active_tab: tab, ..old(self).model() }),
    {
        self.active_tab = tab;
    }

    /// Settles an expense-creation call. A confirmed create grows the
    /// expense collection by exactly the returned expense; on any failure
    /// nothing commits locally and the raw failure text comes back as
    /// `HardError`.
    pub fn apply_create_outcome(&mut self, outcome: HttpOutcome<Expense>) -> (r: Result<
        (),
        AppError,
    >)
        ensures
            outcome matches HttpOutcome::Accepted(env) ==> {
                &&& final(self).model() == with_expenses(
                    old(self).model(),
                    old(self).model().expenses.push(env.data),
                )
                &&& r is Ok
            },
            outcome matches HttpOutcome::Failed(m) ==> {
                &&& *final(self) == *old(self)
                &&& r matches Err(e) && e == AppError::HardError(m)
            },
            outcome matches HttpOutcome::Rejected(m) ==> {
                &&& *final(self) == *old(self)
                &&& r matches Err(e) && e == AppError::HardError(m)
            },
    {
        match outcome {
            HttpOutcome::Accepted(env) => {
                self.add_expense_locally(env.data());
                Ok(())
            },
            HttpOutcome::Failed(m) => Err(AppError::HardError(m)),
            HttpOutcome::Rejected(m) => Err(AppError::HardError(m)),
        }
    }

    /// Settles an expense-deletion call. Deletion never mutates the store
    /// locally: on success the caller refetches everything, and on any
    /// failure the collections stand exactly as they were, with the
    /// response body text wrapped in `HardError`.
    pub fn apply_delete_outcome(&mut self, outcome: HttpOutcome<bool>) -> (r: Result<(), AppError>)
        ensures
            *final(self) == *old(self),
            outcome matches HttpOutcome::Accepted(env) ==> r is Ok,
            outcome matches HttpOutcome::Failed(m) ==> r matches Err(e) && e == AppError::HardError(
                m,
            ),
            outcome matches HttpOutcome::Rejected(m) ==> r matches Err(e) && e
                == AppError::HardError(m),
    {
        match outcome {
            HttpOutcome::Accepted(env) => {
                let _confirmed = env.data();
                Ok(())
            },
            HttpOutcome::Failed(m) => Err(AppError::HardError(m)),
            HttpOutcome::Rejected(m) => Err(AppError::HardError(m)),
        }
    }

    /// Finds the fetched category a form selection refers to, by
    /// identifier: the first match, if any.
    pub fn find_category(&self, id: &String) -> (r: Option<&Category>)
        ensures
            r is Some <==> exists|i: int|
                0 <= i < self.categories@.len() && self.categories@[i].id@ == id@,
            r matches Some(c) ==> exists|i: int|
                {
                    &&& 0 <= i < self.categories@.len()
                    &&& self.categories@[i] == *c
                    &&& c.id@ == id@
                    &&& forall|j: int| 0 <= j < i ==> self.categories@[j].id@ != id@
                },
    {
        let n = self.categories.len();
        let mut i: usize = 0;
        while i < n
            invariant
                n == self.categories@.len(),
                i <= n,
                forall|j: int| 0 <= j < i ==> self.categories@[j].id@ != id@,
            decreases n - i,
        {
            if self.categories[i].id == *id {
                return Some(&self.categories[i]);
            }
            i = i + 1;
        }
        None
    }
}

/// Refreshing the store replaces both collections as a unit: with the
/// backend handing back `categories` and `expenses`, the store ends with
/// exactly those collections — lengths included — and the same selected
/// tab, whichever of the two independent fetches lands first.
pub proof fn lemma_refresh_all(m: StoreView, categories: Seq<Category>, expenses: Seq<Expense>)
    ensures
        with_expenses(with_categories(m, categories), expenses) == with_categories(
            with_expenses(m, expenses),
            categories,
        ),
        with_expenses(with_categories(m, categories), expenses).categories == categories,
        with_expenses(with_categories(m, categories), expenses).expenses == expenses,
        with_expenses(with_categories(m, categories), expenses).active_tab == m.active_tab,
{
}

} // verus!

//! The data model: categories, expenses, login bodies and the response
//! envelope.
//!
//! Identifiers travel as plain strings in the canonical hyphenated UUID
//! form; the all-zero identifier is the sentinel for "no category chosen".
//! Amounts are integers in currency minor units.

use vstd::prelude::*;

verus! {

/// The reserved "unset" category identifier: an expense draft still carries
/// it until the user picks a real category, and submission rejects it.
pub open spec fn unset_id_seq() -> Seq<char> {
    "00000000-0000-0000-0000-000000000000"@
}

/// The sentinel identifier as an executable string.
pub fn unset_id() -> (r: String)
    ensures
        r@ == unset_id_seq(),
{
    String::from_str("00000000-0000-0000-0000-000000000000")
}

/// A fresh random identifier in canonical hyphenated form.
///
/// Relies on `uuid::Uuid::new_v4`, which masks the version nibble of a
/// random value to 4, and on `uuid::Uuid`'s `Display`, which always prints
/// the 36-character lowercase hyphenated form whose fifteenth character is
/// that version nibble.
#[verifier::external_body]
pub(crate) fn fresh_id() -> (r: String)
    ensures
        r@.len() == 36,
        r@[14] == '4',
{
    uuid::Uuid::new_v4().to_string()
}

/// A spending category, created server-side and fetched read-only.
#[derive(Debug, Clone)]
pub struct Category {
    pub id: String,
    pub name: String,
    pub description: Option<String>,
}

impl Default for Category {
    /// An unfetched category: the sentinel identifier, empty name.
    fn default() -> (r: Category)
        ensures
            r.id@ == unset_id_seq(),
            r.name@ == Seq::<char>::empty(),
            r.description is None,
    {
        Category { id: unset_id(), name: String::new(), description: None }
    }
}

impl Category {
    /// A new client-side category with a fresh random identifier and empty
    /// name. Its identifier is never the unset sentinel.
    pub fn new() -> (r: Category)
        ensures
            r.id@.len() == 36,
            r.id@ != unset_id_seq(),
            r.name@ == Seq::<char>::empty(),
            r.description is None,
    {
        let mut category = Category::default();
        category.id = fresh_id();
        proof {
            reveal_strlit("00000000-0000-0000-0000-000000000000");
            assert(unset_id_seq()[14] == '0');
        }
        category
    }

    /// Replaces the name, keeping identifier and description.
    pub fn name(self, name: String) -> (r: Category)
        ensures
            r.id == self.id,
            r.name == name,
            r.description == self.description,
    {
        Category { name, ..self }
    }
}

/// One recorded expense. `category_id` must reference a fetched category
/// before submission; `category_name` is a denormalized copy of its name.
#[derive(Debug, Clone)]
pub struct Expense {
    pub id: String,
    pub category_id: String,
    pub category_name: String,
    pub description: Option<String>,
    pub amount: i32,
    pub date: Option<String>,
}

impl Default for Expense {
    /// An empty draft: unset category, zero amount, no date.
    fn default() -> (r: Expense)
        ensures
            r.id@ == unset_id_seq(),
            r.category_id@ == unset_id_seq(),
            r.category_name@ == Seq::<char>::empty(),
            r.description is None,
            r.amount == 0,
            r.date is None,
    {
        Expense {
            id: unset_id(),
            category_id: unset_id(),
            category_name: String::new(),
            description: None,
            amount: 0,
            date: None,
        }
    }
}

impl Expense {
    /// An empty draft: unset category, zero amount, no date.
    pub fn new() -> (r: Expense)
        ensures
            r.id@ == unset_id_seq(),
            r.category_id@ == unset_id_seq(),
            r.category_name@ == Seq::<char>::empty(),
            r.description is None,
            r.amount == 0,
            r.date is None,
    {
        Expense::default()
    }

    /// Sets the amount, in currency minor units.
    pub fn amount(&mut self, amount: i32)
        ensures
            *final(self) == (Expense { amount, ..*old(self) }),
    {
        self.amount = amount;
    }

    /// Sets or clears the free-text description.
    pub fn description(&mut self, description: Option<String>)
        ensures
            *final(self) == (Expense { description, ..*old(self) }),
    {
        self.description = description;
    }

    /// Points the draft at a category, copying its name.
    pub fn category(&mut self, category_id: String, category_name: String)
        ensures
            *final(self) == (Expense { category_id, category_name, ..*old(self) }),
    {
        self.category_id = category_id;
        self.category_name = category_name;
    }

    /// Sets the date (an ISO `YYYY-MM-DD` string).
    pub fn date(&mut self, date: String)
        ensures
            *final(self) == (Expense { date: Some(date), ..*old(self) }),
    {
        self.date = Some(date);
    }

    /// Defaults the date to the host clock's current date: a fresh draft
    /// starts with today filled in. The date is set and non-empty; every
    /// other field stands.
    pub fn date_today(&mut self)
        ensures
            final(self).date matches Some(d) && d@.len() >= 10,
            final(self).id == old(self).id,
            final(self).category_id == old(self).category_id,
            final(self).category_name == old(self).category_name,
            final(self).description == old(self).description,
            final(self).amount == old(self).amount,
    {
        self.date = Some(crate::host::today_string());
    }
}

/// Login form contents, sent verbatim to the login endpoint.
#[derive(Debug, Clone)]
pub struct LoginBody {
    pub email: String,
    pub password: String,
}

impl Default for LoginBody {
    /// An empty login form.
    fn default() -> (r: LoginBody)
        ensures
            r.email@ == Seq::<char>::empty(),
            r.password@ == Seq::<char>::empty(),
    {
        LoginBody { email: String::new(), password: String::new() }
    }
}

impl LoginBody {
    /// An empty login form.
    pub fn new() -> (r: LoginBody)
        ensures
            r.email@ == Seq::<char>::empty(),
            r.password@ == Seq::<char>::empty(),
    {
        LoginBody::default()
    }

    /// Replaces the email field.
    pub fn email(&mut self, email: String)
        ensures
            *final(self) == (LoginBody { email, ..*old(self) }),
    {
        self.email = email;
    }

    /// Replaces the password field.
    pub fn password(&mut self, password: String)
        ensures
            *final(self) == (LoginBody { password, ..*old(self) }),
    {
        self.password = password;
    }
}

/// Argument record for the host's `set_token` command.
#[derive(Debug, Clone)]
pub struct SetTokenArgs {
    pub new_token: String,
}

/// The payload of a successful login: the bearer token to persist.
#[derive(Debug, Clone)]
pub struct LoginResponse {
    pub token: String,
}

/// The `{data, errors, success}` wrapper every API response body follows.
/// `success` and `errors` are advisory: the client decides on the HTTP
/// status, not on this flag.
#[derive(Debug, Clone)]
pub struct ApiResponse<T> {
    pub data: T,
    pub errors: Option<Vec<String>>,
    pub success: bool,
}

impl<T> ApiResponse<T> {
    /// Wraps a payload in an envelope.
    pub fn new(data: T, errors: Option<Vec<String>>, success: bool) -> (r: ApiResponse<T>)
        ensures
            r == (ApiResponse { data, errors, success }),
    {
        ApiResponse { data, errors, success }
    }

    /// Unwraps the payload, discarding the advisory fields.
    pub fn data(self) -> (r: T)
        ensures
            r == self.data,
    {
        self.data
    }
}

} // verus!

//! The authenticated client: request planning and response settlement.
//!
//! The client never performs I/O itself. It plans a request — method, URL,
//! headers, body — as plain data, and settles the outcome the transport
//! hands back: an HTTP-ok envelope is unwrapped, everything else folds into
//! `HardError` carrying the raw failure text. Invalid forms are rejected
//! before any request is planned, so no network call is ever issued for
//! them.

use vstd::prelude::*;

use crate::codec::{expense_body, expense_body_spec, login_body, login_body_spec, opt_view};
use crate::errors::AppError;
use crate::host::TokenStore;
use crate::models::{ApiResponse, Expense, LoginBody, LoginResponse, unset_id, unset_id_seq};

verus! {

use vstd::utf8::encode_utf8;

/// The fixed base URL of the remote API.
pub open spec fn api_url_seq() -> Seq<char> {
    "https://arrebolit.com/apiFinance/api"@
}

/// The base URL as an executable string.
pub fn api_url() -> (r: String)
    ensures
        r@ == api_url_seq(),
{
    String::from_str("https://arrebolit.com/apiFinance/api")
}

/// An HTTP method the client uses.
#[derive(PartialEq, Eq, Structural, Clone, Copy, Debug)]
pub enum Method {
    Get,
    Post,
    Delete,
}

/// The two headers every outgoing call carries.
pub struct Headers {
    pub authorization: String,
    pub content_type: String,
}

/// A fully planned outgoing call: everything the transport needs, as plain
/// data.
pub struct HttpRequest {
    pub method: Method,
    pub url: String,
    pub headers: Headers,
    pub body: Option<Vec<u8>>,
}

/// The token that goes on the wire: the bridge's answer, or the literal
/// fallback when the bridge call failed to resolve.
pub open spec fn effective_token(bridge_token: Option<String>) -> Seq<char> {
    match bridge_token {
        Some(t) => t@,
        None => "no-token"@,
    }
}

/// The authorization header value for a token.
pub open spec fn bearer_seq(token: Seq<char>) -> Seq<char> {
    "Bearer "@ + token
}

/// What well-formed headers hold for a given bridge answer.
pub open spec fn headers_for(h: Headers, bridge_token: Option<String>) -> bool {
    &&& h.authorization@ == bearer_seq(effective_token(bridge_token))
    &&& h.content_type@ == "application/json"@
}

/// Builds the standard headers: `Authorization: Bearer <token>` (with the
/// `no-token` fallback when the bridge gave nothing) and a JSON content
/// type.
pub fn get_headers(bridge_token: Option<String>) -> (r: Headers)
    ensures
        headers_for(r, bridge_token),
{
    let token = match bridge_token {
        Some(t) => t,
        None => String::from_str("no-token"),
    };
    Headers {
        authorization: String::from_str("Bearer ").concat(token.as_str()),
        content_type: String::from_str("application/json"),
    }
}

/// The URL a whole-section fetch hits.
pub open spec fn fetch_all_url_seq(section: Seq<char>) -> Seq<char> {
    api_url_seq() + "/"@ + section + "?all_listed=true"@
}

/// The login endpoint.
pub open spec fn login_url_seq() -> Seq<char> {
    api_url_seq() + "/login"@
}

/// The expense-creation endpoint.
pub open spec fn expenses_url_seq() -> Seq<char> {
    api_url_seq() + "/expenses"@
}

/// The expense-deletion endpoint for one expense id.
pub open spec fn delete_url_seq(id: Seq<char>) -> Seq<char> {
    api_url_seq() + "/expenses/"@ + id
}

/// Plans `GET {base}/{section}?all_listed=true` with the standard headers
/// and no body.
pub fn plan_fetch_all(section: &str, bridge_token: Option<String>) -> (r: HttpRequest)
    ensures
        r.method == Method::Get,
        r.url@ == fetch_all_url_seq(section@),
        headers_for(r.headers, bridge_token),
        r.body is None,
{
    HttpRequest {
        method: Method::Get,
        url: api_url().concat("/").concat(section).concat("?all_listed=true"),
        headers: get_headers(bridge_token),
        body: None,
    }
}

/// A login form may be submitted only when both fields are non-empty.
pub open spec fn login_valid(credentials: LoginBody) -> bool {
    credentials.email@.len() > 0 && credentials.password@.len() > 0
}

/// The submission-time check of a login form.
pub fn check_login(credentials: &LoginBody) -> (r: bool)
    ensures
        r == login_valid(*credentials),
{
    !credentials.email.as_str().is_empty() && !credentials.password.as_str().is_empty()
}

/// Plans `POST {base}/login`, or nothing: an empty email or password issues
/// no call at all. A planned body is the structured JSON encoding of the
/// two fields, never raw interpolation.
pub fn submit_login(credentials: &LoginBody, bridge_token: Option<String>) -> (r: Option<
    HttpRequest,
>)
    ensures
        r is Some <==> login_valid(*credentials),
        r matches Some(req) ==> {
            &&& req.method == Method::Post
            &&& req.url@ == login_url_seq()
            &&& headers_for(req.headers, bridge_token)
            &&& req.body matches Some(b) && b@ == login_body_spec(
                encode_utf8(credentials.email@),
                encode_utf8(credentials.password@),
            )
        },
{
    if !check_login(credentials) {
        return None;
    }
    Some(
        HttpRequest {
            method: Method::Post,
            url: api_url().concat("/login"),
            headers: get_headers(bridge_token),
            body: Some(login_body(credentials)),
        },
    )
}

/// An expense draft may be submitted only with an amount strictly greater
/// than one, a non-empty date, and a category actually chosen (not the
/// unset sentinel).
pub open spec fn expense_valid(expense: Expense) -> bool {
    &&& expense.amount > 1
    &&& (expense.date matches Some(d) && d@.len() > 0)
    &&& expense.category_id@ != unset_id_seq()
}

/// The submission-time check of an expense draft.
pub fn check_expense(expense: &Expense) -> (r: bool)
    ensures
        r == expense_valid(*expense),
{
    if expense.amount <= 1 {
        return false;
    }
    match &expense.date {
        Some(d) => {
            if d.as_str().is_empty() {
                return false;
            }
        },
        None => {
            return false;
        },
    }
    !(expense.category_id == unset_id())
}

/// An expense draft with amount one (or less) is invalid, so submitting it
/// issues no network call: the valid amounts start strictly above one.
pub proof fn lemma_amount_boundary(expense: Expense)
    requires
        expense.amount <= 1,
    ensures
        !expense_valid(expense),
{
}

/// Plans `POST {base}/expenses`, or nothing: an invalid draft issues no
/// call at all. The planned body carries the category id byte for byte
/// (escaped per the JSON grammar), the date, the decimal amount, and the
/// description.
pub fn submit_expense(expense: &Expense, bridge_token: Option<String>) -> (r: Option<HttpRequest>)
    ensures
        r is Some <==> expense_valid(*expense),
        r matches Some(req) ==> {
            &&& req.method == Method::Post
            &&& req.url@ == expenses_url_seq()
            &&& headers_for(req.headers, bridge_token)
            &&& req.body matches Some(b) && b@ == expense_body_spec(
                encode_utf8(expense.category_id@),
                encode_utf8(opt_view(expense.date)),
                expense.amount as int,
                encode_utf8(opt_view(expense.description)),
            )
        },
{
    if !check_expense(expense) {
        return None;
    }
    Some(
        HttpRequest {
            method: Method::Post,
            url: api_url().concat("/expenses"),
            headers: get_headers(bridge_token),
            body: Some(expense_body(expense)),
        },
    )
}

/// Plans `DELETE {base}/expenses/{id}` with the standard headers and no
/// body.
pub fn plan_delete_expense(id: &String, bridge_token: Option<String>) -> (r: HttpRequest)
    ensures
        r.method == Method::Delete,
        r.url@ == delete_url_seq(id@),
        headers_for(r.headers, bridge_token),
        r.body is None,
{
    HttpRequest {
        method: Method::Delete,
        url: api_url().concat("/expenses/").concat(id.as_str()),
        headers: get_headers(bridge_token),
        body: None,
    }
}

/// What the transport and parser handed back for one call.
pub enum HttpOutcome<T> {
    /// The request never produced a usable envelope: a transport or parse
    /// failure, with its description.
    Failed(String),
    /// The server answered with a non-ok HTTP status; carries the response
    /// body text.
    Rejected(String),
    /// The server answered HTTP-ok and the body parsed as an envelope.
    Accepted(ApiResponse<T>),
}

/// Settles a whole-section fetch: an accepted envelope yields its payload,
/// anything else folds into `HardError` with the raw failure text.
pub fn settle_fetch<T>(outcome: HttpOutcome<T>) -> (r: Result<T, AppError>)
    ensures
        outcome matches HttpOutcome::Accepted(env) ==> r matches Ok(d) && d == env.data,
        outcome matches HttpOutcome::Failed(m) ==> r matches Err(e) && e == AppError::HardError(m),
        outcome matches HttpOutcome::Rejected(m) ==> r matches Err(e) && e == AppError::HardError(
            m,
        ),
{
    match outcome {
        HttpOutcome::Accepted(env) => Ok(env.data()),
        HttpOutcome::Failed(m) => Err(AppError::HardError(m)),
        HttpOutcome::Rejected(m) => Err(AppError::HardError(m)),
    }
}

/// Settles a login call. On an accepted envelope the token is written to
/// the store — exactly once, before the response is handed back — and the
/// payload is returned. On any failure the store is untouched and the raw
/// failure text comes back as `HardError`.
pub fn settle_login(store: &mut TokenStore, outcome: HttpOutcome<LoginResponse>) -> (r: Result<
    LoginResponse,
    AppError,
>)
    ensures
        outcome matches HttpOutcome::Accepted(env) ==> {
            &&& final(store).token_view() == env.data.token@
            &&& r matches Ok(d) && d == env.data
        },
        outcome matches HttpOutcome::Failed(m) ==> {
            &&& *final(store) == *old(store)
            &&& r matches Err(e) && e == AppError::HardError(m)
        },
        outcome matches HttpOutcome::Rejected(m) ==> {
            &&& *final(store) == *old(store)
            &&& r matches Err(e) && e == AppError::HardError(m)
        },
{
    match outcome {
        HttpOutcome::Accepted(env) => {
            let data = env.data();
            store.set(data.token.clone());
            Ok(data)
        },
        HttpOutcome::Failed(m) => Err(AppError::HardError(m)),
        HttpOutcome::Rejected(m) => Err(AppError::HardError(m)),
    }
}

} // verus!

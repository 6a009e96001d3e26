//! Host-side state: the process-wide bearer-token store and the host clock.
//!
//! The host process owns exactly one secret string. `set` overwrites it
//! unconditionally (last writer wins) and returns a fixed acknowledgement;
//! `get` returns the current value and never fails. No shape of token is
//! rejected, so a caller cannot tell "logged out" from a garbage token by
//! reading the store alone.

use vstd::prelude::*;

verus! {

/// The single process-wide token cell. Starts empty at process start; only
/// a successful login overwrites it.
pub struct TokenStore {
    token: String,
}

/// The token a store holds after `set(new_token)` ran on it: the old value
/// is discarded entirely.
pub open spec fn store_after_set(new_token: Seq<char>) -> Seq<char> {
    new_token
}

/// The fixed acknowledgement string `set` answers with.
pub open spec fn set_ack() -> Seq<char> {
    "Successfully updated!"@
}

impl TokenStore {
    /// What the store holds, as a sequence of characters.
    pub closed spec fn token_view(&self) -> Seq<char> {
        self.token@
    }

    /// A fresh store holds the empty token.
    pub fn new() -> (r: TokenStore)
        ensures
            r.token_view() == Seq::<char>::empty(),
    {
        TokenStore { token: String::new() }
    }

    /// Returns the current token; never fails, whatever the store holds.
    pub fn get(&self) -> (r: String)
        ensures
            r@ == self.token_view(),
    {
        self.token.clone()
    }

    /// Overwrites the token unconditionally and returns the fixed
    /// acknowledgement. Accepts any string: empty and malformed values are
    /// stored as they came.
    pub fn set(&mut self, new_token: String) -> (r: String)
        ensures
            final(self).token_view() == store_after_set(new_token@),
            r@ == set_ack(),
    {
        self.token = new_token;
        String::from_str("Successfully updated!")
    }
}

/// A token written by `set` is exactly what an immediately following `get`
/// (no interleaving call) reads back.
pub proof fn lemma_set_then_get(new_token: Seq<char>)
    ensures
        store_after_set(new_token) == new_token,
{
}

/// The host clock's date, formatted as `YYYY-MM-DD`, so the UI need not
/// trust client-clock skew for default expense dates.
///
/// Relies on `time::OffsetDateTime::now_utc` and on `time::format_description`
/// with a year-month-day description: the year is zero-padded to at least
/// four digits and months and days to two, so the formatted date is at least
/// ten characters. The value depends on the clock, so nothing more is
/// promised of it.
#[verifier::external_body]
pub(crate) fn today_string() -> (r: String)
    ensures
        r@.len() >= 10,
{
    let now_odt = time::OffsetDateTime::now_utc();
    let format = time::format_description::parse("[year]-[month]-[day]").unwrap();
    now_odt.date().format(&format).unwrap()
}

} // verus!

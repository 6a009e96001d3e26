//! The error taxonomy of the client.
//!
//! `Invalid` covers local validation failures; `HardError` covers every
//! transport, HTTP-status or server-reported failure and carries the raw
//! response body or transport error text. Callers cannot branch further:
//! the wire gives them no finer code.

use vstd::prelude::*;

verus! {

#[derive(Debug, Clone)]
pub enum AppError {
    /// A local validation failure, with the reason.
    Invalid(String),
    /// A transport, HTTP-status or server-reported failure, with the raw
    /// failure description.
    HardError(String),
}

impl AppError {
    /// The raw text the error carries, for the UI layer to surface.
    pub fn message(&self) -> (r: &String)
        ensures
            *self matches AppError::Invalid(m) ==> r@ == m@,
            *self matches AppError::HardError(m) ==> r@ == m@,
    {
        match self {
            AppError::Invalid(m) => m,
            AppError::HardError(m) => m,
        }
    }
}

} // verus!

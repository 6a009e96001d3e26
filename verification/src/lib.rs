//! Verified core of a small personal-finance client: the host-side token
//! store, form validation, request planning, JSON body encoding, and the
//! reactive data store that mirrors the remote API.

use vstd::prelude::*;

pub mod client;
pub mod codec;
pub mod errors;
pub mod host;
pub mod models;
pub mod store;

pub use errors::AppError;
pub use host::TokenStore;

verus! {

} // verus!

//! Client-side core of the Veil Mail API: JSON response interpretation, the
//! error taxonomy built from failed responses, and webhook signature checks.
use vstd::prelude::*;

pub mod client;
pub mod error;
pub mod http;
pub mod json;
pub mod webhook;

verus! {
} // verus!

//! Dispatch and serialization engine for publication metadata exports.
//!
//! Given a canonical metadata aggregate and a requested (format family,
//! dialect) pair, the library selects the matching encoder, checks the
//! aggregate against that dialect's mandatory-field contract, and renders
//! deterministic output together with its content type.

use vstd::prelude::*;

pub mod coordinator;
pub mod dialect;
pub mod encode;
pub mod encode_markup;
pub mod encode_record;
pub mod encode_tabular;
pub mod error;
pub mod license;
pub mod model;
pub mod order;
pub mod render;
pub mod resolver;
pub mod text;
pub mod validate;
pub mod vocab;

verus! {

/// Ceiling on upstream fetch attempts: a transient failure is retried
/// until this many attempts have been made, then surfaced as terminal.
pub const MAX_FETCH_ATTEMPTS: u8 = 5;

pub fn max_fetch_attempts() -> (r: u8)
    ensures
        r == MAX_FETCH_ATTEMPTS,
{
    MAX_FETCH_ATTEMPTS
}

} // verus!

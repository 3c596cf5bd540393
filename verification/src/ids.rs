//! Fresh identifiers for traces and spans.

use vstd::prelude::*;
use opentelemetry_sdk::trace::{IdGenerator, RandomIdGenerator};

verus! {

/// Calls `RandomIdGenerator::new_trace_id` of opentelemetry_sdk. Trusted, and
/// nothing is claimed of the number: it is random, and may even be zero.
#[verifier::external_body]
pub(crate) fn fresh_trace_id() -> (id: u128) {
    u128::from_be_bytes(RandomIdGenerator::default().new_trace_id().to_bytes())
}

/// Calls `RandomIdGenerator::new_span_id` of opentelemetry_sdk. Trusted, and
/// nothing is claimed of the number: it is random, and may even be zero.
#[verifier::external_body]
pub(crate) fn fresh_span_id() -> (id: u64) {
    u64::from_be_bytes(RandomIdGenerator::default().new_span_id().to_bytes())
}

} // verus!

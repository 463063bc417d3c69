use vstd::prelude::*;
use opentelemetry_sdk::trace::{IdGenerator, RandomIdGenerator};

verus! {

/// Relies on opentelemetry_sdk's `RandomIdGenerator::new_trace_id`: a random
/// trace id. Nothing is promised of its value.
#[verifier::external_body]
pub(crate) fn random_trace_id() -> (r: u128) {
    u128::from_be_bytes(RandomIdGenerator::default().new_trace_id().to_bytes())
}

/// Relies on opentelemetry_sdk's `RandomIdGenerator::new_span_id`: a random
/// span id. Nothing is promised of its value.
#[verifier::external_body]
pub(crate) fn random_span_id() -> (r: u64) {
    u64::from_be_bytes(RandomIdGenerator::default().new_span_id().to_bytes())
}

} // verus!

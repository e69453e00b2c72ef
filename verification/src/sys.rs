//! Trusted bindings to the process environment: the secure random source
//! and the wall clock. Nothing is assumed of the values they produce beyond
//! the buffer length, so every caller is verified for every outcome.

use vstd::prelude::*;

verus! {

/// Relies on `getrandom::getrandom`: fills the buffer from the operating
/// system's cryptographically secure random source. A failure of that
/// source is fatal — the library has no weaker fallback.
#[verifier::external_body]
pub fn secure_random_bytes(n: usize) -> (r: Vec<u8>)
    ensures
        r@.len() == n,
{
    let mut buf = vec![0u8; n];
    getrandom::getrandom(&mut buf).expect("secure random source failed");
    buf
}

/// Relies on `std::time::SystemTime::now`: the wall clock, read once and
/// converted to whole seconds since the Unix epoch. A clock before the
/// epoch is fatal. Nothing is assumed of the value.
#[verifier::external_body]
pub fn unix_time_now() -> (r: u64) {
    std::time::SystemTime::now().duration_since(std::time::UNIX_EPOCH).expect(
        "time went backwards",
    ).as_secs()
}

} // verus!

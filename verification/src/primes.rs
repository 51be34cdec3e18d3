//! The two odd 64-bit primes that parameterize the generator's mixing step.
use vstd::prelude::*;

verus! {

/// Added to the state on every draw.
pub const STEP_PRIME: u64 = 0xa076_1d64_78bd_642f;

/// XORed into the second factor of the wide multiplication.
pub const MIX_PRIME: u64 = 0xe703_7ed1_a0b4_28db;

} // verus!

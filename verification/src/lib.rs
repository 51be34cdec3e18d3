//! A small, fast, non-cryptographic random number library for simulations,
//! games and procedural generation.
//!
//! [`WyRand`] is a stateful generator over a single 64-bit word.
//! [`Permutation`] is a stateless byte table that folds integer coordinates
//! into one byte. The `seed` module acquires 64-bit seeds.
use vstd::prelude::*;
use std::ops::Range;

pub mod convert;
pub mod perm;
pub mod primes;
pub mod ranged;
pub mod seed;
pub mod vector;
pub mod wyrand;

pub use perm::Permutation;
pub use wyrand::WyRand;

use convert::FromRng;
use ranged::RangeRng;
use seed::{drawn, from_local, SeedCache};
use wyrand::hash_of;

verus! {

/// A value of `T` made from the next seed of `cache`.
pub fn next<T: FromRng>(cache: &mut SeedCache) -> (r: T)
    ensures
        drawn(old(cache)@, final(cache)@, hash_of(final(cache)@->0)),
        r == T::of_hash(hash_of(final(cache)@->0)),
{
    T::from_rng(from_local(cache))
}

/// A value of `T` in `range`, made from the next seed of `cache`.
pub fn next_in_range<T: RangeRng>(cache: &mut SeedCache, range: Range<T>) -> (r: T)
    requires
        T::valid_range(range.start, range.end),
    ensures
        drawn(old(cache)@, final(cache)@, hash_of(final(cache)@->0)),
        r == T::reduced(hash_of(final(cache)@->0), range.start, range.end),
        r.within(range.start, range.end),
{
    T::from_range(from_local(cache), range)
}

/// A generator seeded with the next seed of `cache`.
pub fn rng(cache: &mut SeedCache) -> (rng: WyRand)
    ensures
        drawn(old(cache)@, final(cache)@, rng@),
{
    WyRand::with_local_seed(cache)
}

} // verus!

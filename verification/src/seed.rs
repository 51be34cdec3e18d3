//! Acquiring seeds: from the operating system, with the clock to fall back
//! on, and from a cache that asks the system only once.
use vstd::prelude::*;
use crate::wyrand::{advance, fold_halves, folded, hash_of, WyRand};

verus! {

/// The error of `getrandom`, carried through to the caller unread.
#[verifier::external_type_specification]
#[verifier::external_body]
pub struct ExEntropyError(getrandom::Error);

/// Calls `getrandom::u64`, which asks the operating system for 64 random
/// bits. Nothing is claimed of the outcome: it may be any number, or an error.
#[verifier::external_body]
fn os_entropy() -> (r: Result<u64, getrandom::Error>) {
    getrandom::u64()
}

/// The point in time of `web_time`, carried from the clock to the
/// subtraction unread.
#[verifier::external_type_specification]
#[verifier::external_body]
pub struct ExSystemTime(web_time::SystemTime);

/// Calls `web_time::SystemTime::now`, which reads the system clock. Nothing
/// is claimed of the time it gives.
#[verifier::external_body]
fn clock_now() -> (now: web_time::SystemTime) {
    web_time::SystemTime::now()
}

/// Calls `SystemTime::duration_since` with the Unix epoch: the time that has
/// passed since the epoch, or `None` where `now` lies before it. Nothing is
/// claimed of the duration.
#[verifier::external_body]
fn since_epoch(now: &web_time::SystemTime) -> (elapsed: Option<web_time::Duration>) {
    now.duration_since(web_time::UNIX_EPOCH).ok()
}

/// Calls `Duration::as_nanos`: the duration in nanoseconds. Nothing is
/// claimed of the number.
#[verifier::external_body]
fn nanos_of(elapsed: &web_time::Duration) -> (nanos: u128) {
    elapsed.as_nanos()
}

/// The nanoseconds since the Unix epoch on the system clock, or `None` where
/// the clock stands before the epoch.
fn clock_nanos() -> (nanos: Option<u128>) {
    let now: web_time::SystemTime = clock_now();
    match since_epoch(&now) {
        Some(elapsed) => Some(nanos_of(&elapsed)),
        None => None,
    }
}

/// The seed that a reading of the clock gives: the nanoseconds since the
/// epoch, high and low halves XORed; zero where there is no reading.
pub open spec fn clock_seed(nanos: Option<u128>) -> u64 {
    match nanos {
        Some(n) => folded(n as int),
        None => 0,
    }
}

/// Derives a seed from a reading of the clock.
pub fn seed_of_clock(nanos: Option<u128>) -> (seed: u64)
    ensures
        seed == clock_seed(nanos),
{
    match nanos {
        Some(n) => fold_halves(n),
        None => 0,
    }
}

/// A seed from the operating system's entropy, and with it the error of the
/// entropy source where that failed and the clock stood in. It never fails.
pub fn acquire() -> (r: (u64, Option<getrandom::Error>)) {
    let entropy: Result<u64, getrandom::Error> = os_entropy();
    // The clock is read only where the entropy source has failed.
    let reading: Option<u128> = if entropy.is_err() { clock_nanos() } else { None };
    settle(entropy, reading)
}

/// A seed from the operating system's entropy, or from the clock where the
/// entropy source fails.
pub fn from_system() -> (seed: u64) {
    acquire().0
}

/// What the two sources come to. Where the entropy source gave a number, that
/// number is the seed and no failure is reported. Where it failed, the seed
/// is that of the clock reading, and the failure is reported beside it.
pub open spec fn settled(
    entropy: Result<u64, getrandom::Error>,
    reading: Option<u128>,
) -> (u64, Option<getrandom::Error>) {
    match entropy {
        Ok(seed) => (seed, None),
        Err(failure) => (clock_seed(reading), Some(failure)),
    }
}

/// Decides the seed from the outcome of the entropy source and a reading of
/// the clock, which counts only where the entropy source failed.
pub fn settle(
    entropy: Result<u64, getrandom::Error>,
    reading: Option<u128>,
) -> (r: (u64, Option<getrandom::Error>))
    ensures
        r == settled(entropy, reading),
{
    match entropy {
        Ok(seed) => (seed, None),
        Err(failure) => (seed_of_clock(reading), Some(failure)),
    }
}

/// A generator that is seeded from the system when it is first used, and
/// supplies every later seed without asking the system again.
pub struct SeedCache {
    generator: Option<WyRand>,
}

impl View for SeedCache {
    type V = Option<u64>;

    /// The state of the cached generator, if there is one.
    closed spec fn view(&self) -> Option<u64> {
        match self.generator {
            Some(rng) => Some(rng@),
            None => None,
        }
    }
}

/// What one draw does to a cache: afterwards it holds a generator, the seed
/// drawn is the hash of that generator's state, and a generator that was
/// there before has advanced by one step.
pub open spec fn drawn(before: Option<u64>, after: Option<u64>, seed: u64) -> bool {
    &&& after is Some
    &&& seed == hash_of(after->0)
    &&& before is Some ==> after->0 == advance(before->0)
}

impl SeedCache {
    /// A cache without a generator.
    pub fn new() -> (cache: Self)
        ensures
            cache@ is None,
    {
        Self { generator: None }
    }

    /// A cache whose generator starts in `seed`.
    pub fn with_seed(seed: u64) -> (cache: Self)
        ensures
            cache@ == Some(seed),
    {
        Self { generator: Some(WyRand::with_seed(seed)) }
    }

    /// Whether the cache holds a generator.
    pub fn is_seeded(&self) -> (b: bool)
        ensures
            b == (self@ is Some),
    {
        self.generator.is_some()
    }
}

/// The next seed of the cache. A cache without a generator is given one
/// first, seeded from the system.
pub fn from_local(cache: &mut SeedCache) -> (seed: u64)
    ensures
        drawn(old(cache)@, final(cache)@, seed),
{
    let mut rng: WyRand = match cache.generator {
        Some(cached) => cached,
        None => WyRand::with_seed(from_system()),
    };
    let seed: u64 = rng.next();
    cache.generator = Some(rng);
    seed
}

} // verus!

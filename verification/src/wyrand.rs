//! The generator core: one 64-bit state word, advanced by a constant and
//! hashed with a 128-bit multiplication.
use vstd::prelude::*;
use std::ops::Range;
use crate::convert::FromRng;
use crate::primes::{MIX_PRIME, STEP_PRIME};
use crate::ranged::{reduce, RangeRng};
use crate::seed::{drawn, from_local, from_system, SeedCache};

verus! {

/// The state that follows `state`: the sum with `STEP_PRIME`, modulo 2^64.
pub open spec fn advance(state: u64) -> u64 {
    ((state + STEP_PRIME) % 0x1_0000_0000_0000_0000) as u64
}

/// The 128-bit product of a state and that state XORed with `MIX_PRIME`.
pub open spec fn wide_product(state: u64) -> int {
    state * (state ^ MIX_PRIME)
}

/// The high and the low 64 bits of a 128-bit value, XORed together.
pub open spec fn folded(wide: int) -> u64 {
    ((wide / 0x1_0000_0000_0000_0000) as u64) ^ ((wide % 0x1_0000_0000_0000_0000) as u64)
}

/// The hash of a state: its wide product, folded.
pub open spec fn hash_of(state: u64) -> u64 {
    folded(wide_product(state))
}

/// Folds a 128-bit value into 64 bits.
pub fn fold_halves(wide: u128) -> (r: u64)
    ensures
        r == folded(wide as int),
{
    let r: u64 = ((wide >> 64) ^ wide) as u64;
    assert(r == ((wide / 0x1_0000_0000_0000_0000) as u64) ^ ((wide
        % 0x1_0000_0000_0000_0000) as u64)) by (bit_vector)
        requires
            r == ((wide >> 64) ^ wide) as u64,
    ;
    r
}

/// What one draw of a `T` does: the state advances, and the value is the
/// hash of the new state, converted.
pub open spec fn draws<T: FromRng>(before: u64, after: u64, value: T) -> bool {
    &&& after == advance(before)
    &&& value == T::of_hash(hash_of(after))
}

/// The state after `n` draws that began in `state`.
pub open spec fn advance_by(state: u64, n: nat) -> u64
    decreases n,
{
    if n == 0 {
        state
    } else {
        advance(advance_by(state, (n - 1) as nat))
    }
}

/// The first `n` values of `T` that a generator seeded with `seed` draws.
pub open spec fn stream<T: FromRng>(seed: u64, n: nat) -> Seq<T> {
    Seq::new(n, |i: int| T::of_hash(hash_of(advance_by(seed, (i + 1) as nat))))
}

/// The seed fixes the stream: whatever a generator that has made `n` draws
/// since it was seeded with `seed` draws next is the next value of the stream
/// of `seed`, so two generators with one seed draw the same values.
pub proof fn lemma_seed_fixes_stream<T: FromRng>(seed: u64, n: nat, after: u64, value: T)
    requires
        draws(advance_by(seed, n), after, value),
    ensures
        after == advance_by(seed, n + 1),
        value == stream::<T>(seed, n + 1)[n as int],
{
}

/// The sequence `s` with the elements at `i` and `j` exchanged.
pub open spec fn swapped<T>(s: Seq<T>, i: int, j: int) -> Seq<T> {
    s.update(i, s[j]).update(j, s[i])
}

/// The index that the `n`-th draw after `state` picks among `len` elements.
pub open spec fn pick(state: u64, n: nat, len: nat) -> int {
    reduce(hash_of(advance_by(state, n)), 0, len as int)
}

/// The sequence `s` after the first `n` steps of the shuffle that a generator
/// in `state` performs: step `k` exchanges the element at `k` with the one
/// at the index that the draw picks.
pub open spec fn shuffle_steps<T>(state: u64, s: Seq<T>, n: nat) -> Seq<T>
    decreases n,
{
    if n == 0 {
        s
    } else {
        swapped(shuffle_steps(state, s, (n - 1) as nat), n - 1, pick(state, n, s.len()))
    }
}

/// The sequence `s` as a generator in `state` shuffles it.
pub open spec fn shuffled<T>(state: u64, s: Seq<T>) -> Seq<T> {
    shuffle_steps(state, s, s.len())
}

/// Exchanging two elements keeps the length and the elements, each as often
/// as before.
pub proof fn lemma_swapped_rearranges<T>(s: Seq<T>, i: int, j: int)
    requires
        0 <= i < s.len(),
        0 <= j < s.len(),
    ensures
        swapped(s, i, j).len() == s.len(),
        swapped(s, i, j).to_multiset() == s.to_multiset(),
{
    let mid: Seq<T> = s.update(i, s[j]);
    vstd::seq_lib::to_multiset_update(s, i, s[j]);
    vstd::seq_lib::to_multiset_update(mid, j, s[i]);
    s.to_multiset_ensures();
    assert(s.contains(s[i]) && s.contains(s[j]));
    assert(swapped(s, i, j).to_multiset() =~= s.to_multiset());
}

/// Every step of a shuffle keeps the length and the elements, each as often
/// as before.
pub proof fn lemma_shuffle_steps_rearrange<T>(state: u64, s: Seq<T>, n: nat)
    requires
        n <= s.len(),
    ensures
        shuffle_steps(state, s, n).len() == s.len(),
        shuffle_steps(state, s, n).to_multiset() == s.to_multiset(),
    decreases n,
{
    if n > 0 {
        lemma_shuffle_steps_rearrange(state, s, (n - 1) as nat);
        lemma_swapped_rearranges(
            shuffle_steps(state, s, (n - 1) as nat),
            n - 1,
            pick(state, n, s.len()),
        );
    }
}

/// A shuffle is a rearrangement: the shuffled sequence holds the elements of
/// the sequence it began with, each as often as before.
pub proof fn lemma_shuffled_rearranges<T>(state: u64, s: Seq<T>)
    ensures
        shuffled(state, s).len() == s.len(),
        shuffled(state, s).to_multiset() == s.to_multiset(),
{
    lemma_shuffle_steps_rearrange(state, s, s.len());
}

/// A sequence of at most one element is its own shuffle.
pub proof fn lemma_shuffled_short<T>(state: u64, s: Seq<T>)
    requires
        s.len() <= 1,
    ensures
        shuffled(state, s) == s,
{
    if s.len() == 1 {
        assert(shuffle_steps(state, s, 0) == s);
        assert(pick(state, 1, 1) == 0);
        assert(swapped(s, 0, 0) =~= s);
    }
}

/// `<[T]>::swap` exchanges the elements at `a` and `b` and leaves the others
/// in place; it panics on an index out of bounds, which `requires` excludes.
pub assume_specification<E>[ <[E]>::swap ](slice: &mut [E], a: usize, b: usize)
    requires
        a < old(slice)@.len(),
        b < old(slice)@.len(),
    ensures
        final(slice)@ == old(slice)@.update(a as int, old(slice)@[b as int]).update(
            b as int,
            old(slice)@[a as int],
        ),
;

/// A small, highly efficient generator in the style of WyRand.
#[derive(Copy, Clone)]
pub struct WyRand {
    state: u64,
}

impl View for WyRand {
    type V = u64;

    closed spec fn view(&self) -> u64 {
        self.state
    }
}

impl WyRand {
    /// A generator seeded with the next seed of `cache`.
    pub fn new(cache: &mut SeedCache) -> (rng: Self)
        ensures
            drawn(old(cache)@, final(cache)@, rng@),
    {
        Self::with_local_seed(cache)
    }

    /// A generator seeded with the next seed of `cache`, which asks the
    /// system for entropy only when it is first used.
    pub fn with_local_seed(cache: &mut SeedCache) -> (rng: Self)
        ensures
            drawn(old(cache)@, final(cache)@, rng@),
    {
        Self::with_seed(from_local(cache))
    }

    /// A generator seeded from the system. Every call asks the system anew.
    pub fn with_system_seed() -> (rng: Self) {
        Self::with_seed(from_system())
    }

    /// A generator whose state is `seed`.
    pub fn with_seed(seed: u64) -> (rng: Self)
        ensures
            rng@ == seed,
    {
        Self { state: seed }
    }

    /// Advances the state and returns the hash of the new state.
    pub fn next_hash(&mut self) -> (hash: u64)
        ensures
            final(self)@ == advance(old(self)@),
            hash == hash_of(advance(old(self)@)),
    {
        self.state = self.state.wrapping_add(STEP_PRIME);
        let a: u64 = self.state;
        let b: u64 = self.state ^ MIX_PRIME;
        assert((a as u128) * (b as u128) <= u128::MAX) by (nonlinear_arith)
            requires
                a <= u64::MAX,
                b <= u64::MAX,
        ;
        fold_halves((a as u128) * (b as u128))
    }

    /// Draws a value of `T`: advances the state and converts the hash of the
    /// new state.
    pub fn next<T: FromRng>(&mut self) -> (r: T)
        ensures
            final(self)@ == advance(old(self)@),
            r == T::of_hash(hash_of(advance(old(self)@))),
            draws(old(self)@, final(self)@, r),
    {
        T::from_rng(self.next_hash())
    }

    /// Draws a value of `T` in `range`: advances the state and reduces the
    /// hash of the new state into the range.
    pub fn next_in_range<T: RangeRng>(&mut self, range: Range<T>) -> (r: T)
        requires
            T::valid_range(range.start, range.end),
        ensures
            final(self)@ == advance(old(self)@),
            r == T::reduced(hash_of(advance(old(self)@)), range.start, range.end),
            r.within(range.start, range.end),
    {
        T::from_range(self.next_hash(), range)
    }

    /// Shuffles a slice in place, with one draw for each element.
    pub fn shuffle<T>(&mut self, slice: &mut [T])
        ensures
            final(self)@ == advance_by(old(self)@, old(slice)@.len()),
            final(slice)@ == shuffled(old(self)@, old(slice)@),
            final(slice)@.len() == old(slice)@.len(),
            final(slice)@.to_multiset() == old(slice)@.to_multiset(),
            old(slice)@.len() <= 1 ==> final(slice)@ == old(slice)@,
    {
        let len: usize = slice.len();
        let mut i: usize = 0;
        while i < len
            invariant
                i <= len,
                len == old(slice)@.len(),
                slice@.len() == len,
                self@ == advance_by(old(self)@, i as nat),
                slice@ == shuffle_steps(old(self)@, old(slice)@, i as nat),
            decreases len - i,
        {
            let j: usize = self.next_in_range(0..len);
            slice.swap(i, j);
            i += 1;
        }
        proof {
            lemma_shuffled_rearranges(old(self)@, old(slice)@);
            if len <= 1 {
                lemma_shuffled_short(old(self)@, old(slice)@);
            }
        }
    }
}

} // verus!

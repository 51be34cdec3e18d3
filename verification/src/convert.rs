//! Turning a raw 64-bit hash into a value of a numeric type.
use vstd::prelude::*;

verus! {

/// The integer in `-modulus/2 .. modulus/2` that is congruent to `w` modulo
/// `modulus`, for `w` in `0 .. modulus`: the two's-complement reading of `w`.
pub open spec fn signed_of(w: int, modulus: int) -> int {
    if 2 * w < modulus {
        w
    } else {
        w - modulus
    }
}

/// The number of values of `usize`: 2^32 or 2^64.
pub open spec fn word_modulus() -> int {
    usize::MAX + 1
}

/// A type whose values can be made from a raw hash.
pub trait FromRng: Sized {
    /// The value that the hash `v` stands for.
    spec fn of_hash(v: u64) -> Self;

    /// Converts a hash.
    fn from_rng(v: u64) -> (r: Self)
        ensures
            r == Self::of_hash(v),
    ;
}

/// Shifts and masks of a hash, as quotients and remainders.
proof fn lemma_hash_windows(v: u64)
    by (bit_vector)
    ensures
        (v >> 32) == v / 0x1_0000_0000,
        (v >> 32) < 0x1_0000_0000,
        (v & 0xFFFF) == v % 0x1_0000,
        (v & 0xFF) == v % 0x100,
{
}

/// A cast to a signed type of 64, 32, 16 or 8 bits reads a value that fits
/// the width in two's complement.
pub proof fn lemma_signed_casts(v: u64)
    by (bit_vector)
    ensures
        v < 0x8000_0000_0000_0000 ==> (v as i64) == v,
        v >= 0x8000_0000_0000_0000 ==> (v as i64) == v - 0x1_0000_0000_0000_0000,
        v < 0x8000_0000 ==> (v as i32) == v,
        0x8000_0000 <= v < 0x1_0000_0000 ==> (v as i32) == v - 0x1_0000_0000,
        v < 0x8000 ==> (v as i16) == v,
        0x8000 <= v < 0x1_0000 ==> (v as i16) == v - 0x1_0000,
        v < 0x80 ==> (v as i8) == v,
        0x80 <= v < 0x100 ==> (v as i8) == v - 0x100,
{
}

impl FromRng for u64 {
    open spec fn of_hash(v: u64) -> u64 {
        v
    }

    fn from_rng(v: u64) -> (r: u64) {
        v
    }
}

impl FromRng for i64 {
    open spec fn of_hash(v: u64) -> i64 {
        signed_of(v as int, 0x1_0000_0000_0000_0000) as i64
    }

    fn from_rng(v: u64) -> (r: i64) {
        proof {
            lemma_signed_casts(v);
        }
        #[verifier::truncate]
        (v as i64)
    }
}

impl FromRng for u32 {
    open spec fn of_hash(v: u64) -> u32 {
        (v / 0x1_0000_0000) as u32
    }

    fn from_rng(v: u64) -> (r: u32) {
        proof {
            lemma_hash_windows(v);
        }
        (v >> 32) as u32
    }
}

impl FromRng for i32 {
    open spec fn of_hash(v: u64) -> i32 {
        signed_of(v as int / 0x1_0000_0000, 0x1_0000_0000) as i32
    }

    fn from_rng(v: u64) -> (r: i32) {
        proof {
            lemma_hash_windows(v);
            lemma_signed_casts(v >> 32);
        }
        #[verifier::truncate]
        ((v >> 32) as i32)
    }
}

impl FromRng for u16 {
    open spec fn of_hash(v: u64) -> u16 {
        (v % 0x1_0000) as u16
    }

    fn from_rng(v: u64) -> (r: u16) {
        proof {
            lemma_hash_windows(v);
        }
        (v & 0xFFFF) as u16
    }
}

impl FromRng for i16 {
    open spec fn of_hash(v: u64) -> i16 {
        signed_of(v as int % 0x1_0000, 0x1_0000) as i16
    }

    fn from_rng(v: u64) -> (r: i16) {
        proof {
            lemma_hash_windows(v);
            lemma_signed_casts(v & 0xFFFF);
        }
        #[verifier::truncate]
        ((v & 0xFFFF) as i16)
    }
}

impl FromRng for u8 {
    open spec fn of_hash(v: u64) -> u8 {
        (v % 0x100) as u8
    }

    fn from_rng(v: u64) -> (r: u8) {
        proof {
            lemma_hash_windows(v);
        }
        (v & 0xFF) as u8
    }
}

impl FromRng for i8 {
    open spec fn of_hash(v: u64) -> i8 {
        signed_of(v as int % 0x100, 0x100) as i8
    }

    fn from_rng(v: u64) -> (r: i8) {
        proof {
            lemma_hash_windows(v);
            lemma_signed_casts(v & 0xFF);
        }
        #[verifier::truncate]
        ((v & 0xFF) as i8)
    }
}

/// The casts of a hash to the word types, over the word that a cast of the
/// largest hash gives; no word is larger than that one.
proof fn lemma_word_casts_bits(v: u64, top: usize)
    by (bit_vector)
    ensures
        top <= (0xFFFF_FFFF_FFFF_FFFFu64 as usize),
        (v as usize) == (v as int) % ((0xFFFF_FFFF_FFFF_FFFFu64 as usize) as int + 1),
        2 * (v as usize) < (0xFFFF_FFFF_FFFF_FFFFu64 as usize) as int + 1 ==> (v as isize) == (
        v as usize),
        2 * (v as usize) >= (0xFFFF_FFFF_FFFF_FFFFu64 as usize) as int + 1 ==> (v as isize) == (
        v as usize) - ((0xFFFF_FFFF_FFFF_FFFFu64 as usize) as int + 1),
{
}

/// A cast to `usize` keeps the remainder by the number of words, and a cast
/// to `isize` reads that remainder in two's complement.
proof fn lemma_word_casts(v: u64)
    ensures
        (v as usize) == (v as int) % word_modulus(),
        (v as isize) == signed_of((v as int) % word_modulus(), word_modulus()),
{
    lemma_word_casts_bits(v, usize::MAX);
}

/// A hash that fits the word is the word it stands for.
pub proof fn lemma_word_of_small_hash(v: u64)
    requires
        v <= usize::MAX,
    ensures
        usize::of_hash(v) == v,
{
    vstd::arithmetic::div_mod::lemma_small_mod(v as nat, word_modulus() as nat);
}

impl FromRng for usize {
    open spec fn of_hash(v: u64) -> usize {
        (v as int % word_modulus()) as usize
    }

    fn from_rng(v: u64) -> (r: usize) {
        proof {
            lemma_word_casts(v);
        }
        #[verifier::truncate]
        (v as usize)
    }
}

impl FromRng for isize {
    open spec fn of_hash(v: u64) -> isize {
        signed_of(v as int % word_modulus(), word_modulus()) as isize
    }

    fn from_rng(v: u64) -> (r: isize) {
        proof {
            lemma_word_casts(v);
        }
        #[verifier::truncate]
        (v as isize)
    }
}

} // verus!

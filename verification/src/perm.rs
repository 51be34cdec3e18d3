//! The permutation table: a stateless byte table that folds integer
//! coordinates into one byte.
use vstd::prelude::*;
use crate::seed::{drawn, from_local, from_system, SeedCache};
use crate::wyrand::{hash_of, lemma_shuffled_rearranges, shuffled, WyRand};

verus! {

/// One step of mixing: the entry of `table` at the low byte of `coordinate`
/// plus `carried`, the result of the step before (0 at the start).
///
/// In a table of 512 bytes the index is at most 510, so no step wraps.
pub open spec fn fold(table: Seq<u8>, coordinate: int, carried: u8) -> u8 {
    table[coordinate % 256 + carried]
}

/// The byte that an 8-bit scalar mixes to: one step on the scalar.
pub open spec fn mix_byte(table: Seq<u8>, x: int) -> u8 {
    fold(table, x, 0)
}

/// The byte that a 16-bit scalar mixes to: a step on its low byte, then one
/// on its high byte.
pub open spec fn mix_half(table: Seq<u8>, x: int) -> u8 {
    fold(table, x / 0x100, fold(table, x, 0))
}

/// The byte that a scalar of 32 bits or more mixes to: its three lowest
/// bytes folded as a coordinate of three dimensions, the lowest byte last.
pub open spec fn mix_word(table: Seq<u8>, x: int) -> u8 {
    fold(table, x, fold(table, x / 0x100, fold(table, x / 0x1_0000, 0)))
}

/// A step depends on its coordinate through the low byte alone.
pub proof fn lemma_fold_low_byte(table: Seq<u8>, a: int, b: int, carried: u8)
    requires
        a % 256 == b % 256,
    ensures
        fold(table, a, carried) == fold(table, b, carried),
{
}

/// A value that can be mixed through a permutation table.
pub trait PermMix: Sized {
    /// The byte that the value mixes to in `table`.
    spec fn mixed(self, table: Seq<u8>) -> u8;

    /// Mixes the value through the 512 bytes of a table.
    fn perm_mix(self, perm: &[u8; 512]) -> (r: u8)
        ensures
            r == self.mixed(perm@),
    ;
}

/// The three lowest bytes of a 32-bit scalar, as quotients and remainders.
pub proof fn lemma_bytes_of_u32(u: u32)
    by (bit_vector)
    ensures
        (u & 0xFF) == u % 256,
        ((u >> 8) & 0xFF) == (u / 256) % 256,
        ((u >> 16) & 0xFF) == (u / 65536) % 256,
{
}

/// A cast of a signed 32-bit scalar to the unsigned type adds 2^32 to a
/// negative one, and the low byte is the same either way.
pub proof fn lemma_i32_as_u32(x: i32)
    by (bit_vector)
    ensures
        x >= 0 ==> (x as u32) == x,
        x < 0 ==> (x as u32) == x + 0x1_0000_0000,
        0 <= (x & 255) < 256,
        (x & 255) == (x as u32) & 255,
{
}

/// A cast of a 64-bit scalar to 32 bits keeps its remainder by 2^32.
proof fn lemma_long_as_u32(x: i64, y: u64)
    by (bit_vector)
    ensures
        x >= 0 ==> (x as u64) == x,
        x < 0 ==> (x as u64) == x + 0x1_0000_0000_0000_0000,
        (x as u32) == (x as u64) % 0x1_0000_0000,
        (y as u32) == y % 0x1_0000_0000,
{
}

/// A cast of a signed word to 32 bits keeps its remainder by 2^32.
proof fn lemma_isize_as_u32(x: isize)
    by (bit_vector)
    ensures
        x >= 0 ==> (x as u64) == x,
        x < 0 ==> (x as u64) == x + 0x1_0000_0000_0000_0000,
        (x as u32) == (x as u64) % 0x1_0000_0000,
{
}

/// A cast of a word to 32 bits keeps its remainder by 2^32.
proof fn lemma_usize_as_u32(y: usize)
    by (bit_vector)
    ensures
        (y as u32) == (y as u64) % 0x1_0000_0000,
{
}

/// Adding a multiple of `256 * scale` to an integer leaves the byte above
/// `scale` as it is.
proof fn lemma_byte_above(x: int, u: int, k: int, scale: int)
    requires
        scale > 0,
        x == k * (256 * scale) + u,
    ensures
        (x / scale) % 256 == (u / scale) % 256,
{
    let a: int = u / scale;
    let r: int = u % scale;
    assert(u == scale * a + r && 0 <= r < scale) by {
        vstd::arithmetic::div_mod::lemma_fundamental_div_mod(u, scale);
        vstd::arithmetic::div_mod::lemma_mod_bound(u, scale);
    }
    assert(x == (k * 256 + a) * scale + r) by (nonlinear_arith)
        requires
            x == k * (256 * scale) + u,
            u == scale * a + r,
    ;
    assert(x / scale == k * 256 + a) by {
        vstd::arithmetic::div_mod::lemma_fundamental_div_mod_converse(x, scale, k * 256 + a, r);
    }
    assert((256 * k + a) % 256 == a % 256) by {
        vstd::arithmetic::div_mod::lemma_mod_multiples_vanish(k, a, 256);
    }
}

/// A scalar mixes as its remainder by 2^32 does: only the three lowest
/// bytes count.
pub proof fn lemma_mix_word_low(table: Seq<u8>, x: int, u: int)
    requires
        u == x % 0x1_0000_0000,
    ensures
        mix_word(table, x) == mix_word(table, u),
{
    let k: int = x / 0x1_0000_0000;
    assert(x == k * 0x1_0000_0000 + u) by {
        vstd::arithmetic::div_mod::lemma_fundamental_div_mod(x, 0x1_0000_0000);
    }
    lemma_byte_above(x, u, k * 0x100_0000, 1);
    lemma_byte_above(x, u, k * 0x1_0000, 0x100);
    lemma_byte_above(x, u, k * 0x100, 0x1_0000);
}

/// A 16-bit scalar mixes as its remainder by 2^16 does.
pub proof fn lemma_mix_half_low(table: Seq<u8>, x: int, u: int)
    requires
        u == x % 0x1_0000,
    ensures
        mix_half(table, x) == mix_half(table, u),
{
    let k: int = x / 0x1_0000;
    assert(x == k * 0x1_0000 + u) by {
        vstd::arithmetic::div_mod::lemma_fundamental_div_mod(x, 0x1_0000);
    }
    lemma_byte_above(x, u, k * 0x100, 1);
    lemma_byte_above(x, u, k, 0x100);
}

/// The two bytes of a 16-bit scalar, and the casts of the signed 16-bit and
/// 8-bit scalars to their unsigned types.
proof fn lemma_bytes_of_short(u: u16, x: i16, y: i8)
    by (bit_vector)
    ensures
        (u & 0xFF) == u % 256,
        (u >> 8) == u / 256,
        (u >> 8) < 256,
        x >= 0 ==> (x as u16) == x,
        x < 0 ==> (x as u16) == x + 0x1_0000,
        y >= 0 ==> (y as u8) == y,
        y < 0 ==> (y as u8) == y + 0x100,
{
}

impl PermMix for u32 {
    open spec fn mixed(self, table: Seq<u8>) -> u8 {
        mix_word(table, self as int)
    }

    fn perm_mix(self, perm: &[u8; 512]) -> (r: u8) {
        proof {
            lemma_bytes_of_u32(self);
        }
        let a: usize = (self & 0xFF) as usize;
        let b: usize = ((self >> 8) & 0xFF) as usize;
        let c: usize = ((self >> 16) & 0xFF) as usize;
        perm[a + perm[b + perm[c] as usize] as usize]
    }
}

impl PermMix for i32 {
    open spec fn mixed(self, table: Seq<u8>) -> u8 {
        mix_word(table, self as int)
    }

    fn perm_mix(self, perm: &[u8; 512]) -> (r: u8) {
        proof {
            lemma_i32_as_u32(self);
            lemma_mix_word_low(perm@, self as int, (self as u32) as int);
        }
        (#[verifier::truncate]
        (self as u32)).perm_mix(perm)
    }
}

impl PermMix for u64 {
    open spec fn mixed(self, table: Seq<u8>) -> u8 {
        mix_word(table, self as int)
    }

    fn perm_mix(self, perm: &[u8; 512]) -> (r: u8) {
        proof {
            lemma_long_as_u32(0, self);
            lemma_mix_word_low(perm@, self as int, (self as u32) as int);
        }
        (#[verifier::truncate]
        (self as u32)).perm_mix(perm)
    }
}

impl PermMix for i64 {
    open spec fn mixed(self, table: Seq<u8>) -> u8 {
        mix_word(table, self as int)
    }

    fn perm_mix(self, perm: &[u8; 512]) -> (r: u8) {
        proof {
            lemma_long_as_u32(self, 0);
            lemma_mix_word_low(perm@, self as int, (self as u32) as int);
        }
        (#[verifier::truncate]
        (self as u32)).perm_mix(perm)
    }
}

impl PermMix for usize {
    open spec fn mixed(self, table: Seq<u8>) -> u8 {
        mix_word(table, self as int)
    }

    fn perm_mix(self, perm: &[u8; 512]) -> (r: u8) {
        proof {
            lemma_usize_as_u32(self);
            lemma_mix_word_low(perm@, self as int, (self as u32) as int);
        }
        (#[verifier::truncate]
        (self as u32)).perm_mix(perm)
    }
}

impl PermMix for isize {
    open spec fn mixed(self, table: Seq<u8>) -> u8 {
        mix_word(table, self as int)
    }

    fn perm_mix(self, perm: &[u8; 512]) -> (r: u8) {
        proof {
            lemma_isize_as_u32(self);
            lemma_mix_word_low(perm@, self as int, (self as u32) as int);
        }
        (#[verifier::truncate]
        (self as u32)).perm_mix(perm)
    }
}

impl PermMix for u16 {
    open spec fn mixed(self, table: Seq<u8>) -> u8 {
        mix_half(table, self as int)
    }

    fn perm_mix(self, perm: &[u8; 512]) -> (r: u8) {
        proof {
            lemma_bytes_of_short(self, 0, 0);
        }
        let a: usize = (self & 0xFF) as usize;
        let b: usize = (self >> 8) as usize;
        perm[b + perm[a] as usize]
    }
}

impl PermMix for i16 {
    open spec fn mixed(self, table: Seq<u8>) -> u8 {
        mix_half(table, self as int)
    }

    fn perm_mix(self, perm: &[u8; 512]) -> (r: u8) {
        proof {
            lemma_bytes_of_short(0, self, 0);
            lemma_mix_half_low(perm@, self as int, (self as u16) as int);
        }
        (#[verifier::truncate]
        (self as u16)).perm_mix(perm)
    }
}

impl PermMix for u8 {
    open spec fn mixed(self, table: Seq<u8>) -> u8 {
        mix_byte(table, self as int)
    }

    fn perm_mix(self, perm: &[u8; 512]) -> (r: u8) {
        perm[self as usize]
    }
}

impl PermMix for i8 {
    open spec fn mixed(self, table: Seq<u8>) -> u8 {
        mix_byte(table, self as int)
    }

    fn perm_mix(self, perm: &[u8; 512]) -> (r: u8) {
        proof {
            lemma_bytes_of_short(0, 0, self);
        }
        (#[verifier::truncate]
        (self as u8)).perm_mix(perm)
    }
}

/// The bytes `0, 1, .., 255` in order.
pub open spec fn identity_bytes() -> Seq<u8> {
    Seq::new(256, |i: int| i as u8)
}

/// Whether `s` is a permutation of the bytes `0 .. 256`: it has 256 entries
/// and every byte occurs in it exactly once.
pub open spec fn is_permutation(s: Seq<u8>) -> bool {
    &&& s.len() == 256
    &&& forall|v: u8| #[trigger] s.to_multiset().count(v) == 1
}

/// Whether `t` is a table of 512 bytes whose upper half repeats the lower.
pub open spec fn is_mirrored(t: Seq<u8>) -> bool {
    &&& t.len() == 512
    &&& forall|i: int| 0 <= i < 256 ==> t[i] == #[trigger] t[i + 256]
}

/// The table made of `s` twice over.
pub open spec fn mirror(s: Seq<u8>) -> Seq<u8> {
    s + s
}

/// The table that the seed `seed` gives: the identity, shuffled by a
/// generator that starts in `seed`, and mirrored.
pub open spec fn seeded_table(seed: u64) -> Seq<u8> {
    mirror(shuffled(seed, identity_bytes()))
}

/// The bytes in order are a permutation.
pub proof fn lemma_identity_is_permutation()
    ensures
        is_permutation(identity_bytes()),
{
    let s: Seq<u8> = identity_bytes();
    assert(s.no_duplicates());
    s.lemma_multiset_has_no_duplicates();
    s.to_multiset_ensures();
    assert forall|v: u8| #[trigger] s.to_multiset().count(v) == 1 by {
        assert(s[v as int] == v);
        assert(s.contains(v));
    }
}

/// Doubling 256 bytes gives a mirrored table whose lower half they are.
pub proof fn lemma_mirror_is_mirrored(s: Seq<u8>)
    requires
        s.len() == 256,
    ensures
        is_mirrored(mirror(s)),
        mirror(s).subrange(0, 256) == s,
{
    assert(mirror(s).subrange(0, 256) =~= s);
}

/// Whatever the seed, its table is mirrored and its lower half is a
/// permutation of the bytes.
pub proof fn lemma_seeded_table_is_valid(seed: u64)
    ensures
        is_mirrored(seeded_table(seed)),
        is_permutation(seeded_table(seed).subrange(0, 256)),
{
    lemma_identity_is_permutation();
    lemma_shuffled_rearranges(seed, identity_bytes());
    lemma_mirror_is_mirrored(shuffled(seed, identity_bytes()));
}

/// A permutation table of 512 bytes. Its upper 256 bytes repeat the lower
/// 256, so that the sum of a coordinate byte and a table byte is an index
/// into it without wrapping.
#[derive(Clone)]
pub struct Permutation([u8; 512]);

impl View for Permutation {
    type V = Seq<u8>;

    closed spec fn view(&self) -> Seq<u8> {
        self.0@
    }
}

impl Permutation {
    /// The lower 256 bytes of the table.
    pub open spec fn unpadded(self) -> Seq<u8> {
        self@.subrange(0, 256)
    }

    /// A table always has 512 bytes.
    pub proof fn lemma_len(self)
        ensures
            self@.len() == 512,
    {
    }

    /// The table of the next seed of `cache`.
    pub fn new(cache: &mut SeedCache) -> (perm: Self)
        ensures
            drawn(old(cache)@, final(cache)@, hash_of(final(cache)@->0)),
            perm@ == seeded_table(hash_of(final(cache)@->0)),
            is_mirrored(perm@),
            is_permutation(perm.unpadded()),
    {
        Self::with_local_seed(cache)
    }

    /// The table of the next seed of `cache`, which asks the system for
    /// entropy only when it is first used.
    pub fn with_local_seed(cache: &mut SeedCache) -> (perm: Self)
        ensures
            drawn(old(cache)@, final(cache)@, hash_of(final(cache)@->0)),
            perm@ == seeded_table(hash_of(final(cache)@->0)),
            is_mirrored(perm@),
            is_permutation(perm.unpadded()),
    {
        Self::with_seed(from_local(cache))
    }

    /// The table of a seed from the system. Whatever that seed is, the table
    /// is mirrored and its lower half is a permutation.
    pub fn with_system_seed() -> (perm: Self)
        ensures
            exists|seed: u64| perm@ == seeded_table(seed),
            is_mirrored(perm@),
            is_permutation(perm.unpadded()),
    {
        Self::with_seed(from_system())
    }

    /// The table of `seed`: the identity permutation, shuffled by a generator
    /// seeded with `seed`, and mirrored into the upper half.
    pub fn with_seed(seed: u64) -> (perm: Self)
        ensures
            perm@ == seeded_table(seed),
            is_mirrored(perm@),
            is_permutation(perm.unpadded()),
    {
        let mut lower: [u8; 256] = [0u8; 256];
        let mut i: usize = 0;
        while i < 256
            invariant
                i <= 256,
                forall|k: int| 0 <= k < i ==> lower@[k] == k as u8,
            decreases 256 - i,
        {
            lower[i] = i as u8;
            i += 1;
        }
        assert(lower@ =~= identity_bytes());
        let mut rng: WyRand = WyRand::with_seed(seed);
        rng.shuffle(&mut lower);
        proof {
            lemma_seeded_table_is_valid(seed);
        }
        Self::from_bytes(lower)
    }

    /// The table whose two halves are both `bytes`. Whether `bytes` is a
    /// permutation is not examined.
    pub fn from_bytes(bytes: [u8; 256]) -> (perm: Self)
        ensures
            perm@ == mirror(bytes@),
            perm.unpadded() == bytes@,
            is_mirrored(perm@),
    {
        let mut table: [u8; 512] = [0u8; 512];
        let mut i: usize = 0;
        while i < 256
            invariant
                i <= 256,
                forall|k: int| 0 <= k < i ==> table@[k] == bytes@[k],
                forall|k: int| 0 <= k < i ==> table@[k + 256] == bytes@[k],
            decreases 256 - i,
        {
            table[i] = bytes[i];
            table[i + 256] = bytes[i];
            i += 1;
        }
        proof {
            assert forall|k: int| 0 <= k < 512 implies table@[k] == mirror(bytes@)[k] by {
                if k >= 256 {
                    assert(table@[(k - 256) + 256] == bytes@[k - 256]);
                }
            }
            assert(table@ =~= mirror(bytes@));
            lemma_mirror_is_mirrored(bytes@);
        }
        Self(table)
    }

    /// The table that is `bytes`, taken as it is.
    pub fn from_bytes_padded(bytes: [u8; 512]) -> (perm: Self)
        ensures
            perm@ == bytes@,
            is_mirrored(perm@) == is_mirrored(bytes@),
    {
        Self(bytes)
    }

    /// Mixes `v` through the table. The table is read, never written: the
    /// same value gives the same byte every time.
    pub fn mix<M: PermMix>(&self, v: M) -> (r: u8)
        ensures
            r == v.mixed(self@),
    {
        v.perm_mix(&self.0)
    }

    /// The lower 256 bytes of the table.
    pub fn as_bytes(&self) -> (bytes: &[u8])
        ensures
            bytes@ == self.unpadded(),
            bytes@.len() == 256,
    {
        vstd::slice::slice_subrange(self.0.as_slice(), 0, 256)
    }

    /// All 512 bytes of the table.
    pub fn as_bytes_padded(&self) -> (bytes: &[u8; 512])
        ensures
            bytes@ == self@,
    {
        &self.0
    }
}

} // verus!

//! Vectors of two, three and four 32-bit integers: values made from the
//! windows of a hash, and coordinates to mix through a permutation table.
use vstd::prelude::*;
use std::ops::Range;
use crate::convert::{lemma_signed_casts, signed_of, FromRng};
use crate::perm::{fold, lemma_bytes_of_u32, lemma_i32_as_u32, PermMix};
use crate::ranged::{reduce, RangeRng};

verus! {

/// The window of the hash `v` that starts at the bit of value `unit` and is
/// `span` values wide: the quotient of `v` by `unit`, modulo `span`.
pub open spec fn window(v: u64, unit: int, span: int) -> int {
    (v as int / unit) % span
}

/// A window of the hash `v`, reduced into `start .. end`.
pub open spec fn reduce_window(v: u64, unit: int, span: int, start: int, end: int) -> int {
    reduce(window(v, unit, span) as u64, start, end)
}

/// The two halves of a hash, as quotient and remainder.
proof fn lemma_windows_of_32(v: u64)
    by (bit_vector)
    ensures
        (v & 0xFFFF_FFFF) == v % 0x1_0000_0000,
        (v >> 32) == v / 0x1_0000_0000,
        (v >> 32) < 0x1_0000_0000,
{
}

/// The three lowest windows of 21 bits of a hash.
proof fn lemma_windows_of_21(v: u64)
    by (bit_vector)
    ensures
        (v & 0x1F_FFFF) == v % 0x20_0000,
        ((v >> 21) & 0x1F_FFFF) == (v / 0x20_0000) % 0x20_0000,
        ((v >> 42) & 0x1F_FFFF) == (v / 0x400_0000_0000) % 0x20_0000,
{
}

/// The four windows of 16 bits of a hash.
proof fn lemma_windows_of_16(v: u64)
    by (bit_vector)
    ensures
        (v & 0xFFFF) == v % 0x1_0000,
        ((v >> 16) & 0xFFFF) == (v / 0x1_0000) % 0x1_0000,
        ((v >> 32) & 0xFFFF) == (v / 0x1_0000_0000) % 0x1_0000,
        ((v >> 48) & 0xFFFF) == (v / 0x1_0000_0000_0000) % 0x1_0000,
{
}

/// The low byte of a signed coordinate, as an index.
fn low_byte_signed(c: i32) -> (b: usize)
    ensures
        b == c as int % 256,
{
    proof {
        lemma_i32_as_u32(c);
        lemma_bytes_of_u32(c as u32);
    }
    (c & 255) as usize
}

/// The low byte of an unsigned coordinate, as an index.
fn low_byte_unsigned(c: u32) -> (b: usize)
    ensures
        b == c as int % 256,
{
    proof {
        lemma_bytes_of_u32(c);
    }
    (c & 255) as usize
}

/// A vector of two signed 32-bit integers.
#[derive(Clone, Copy, Debug, PartialEq, Eq)]
pub struct IVec2 {
    pub x: i32,
    pub y: i32,
}

impl FromRng for IVec2 {
    /// The hash split into two 32-bit halves, one for each component.
    open spec fn of_hash(v: u64) -> IVec2 {
        IVec2 {
            x: signed_of(window(v, 1, 0x1_0000_0000), 0x1_0000_0000) as i32,
            y: signed_of(window(v, 0x1_0000_0000, 0x1_0000_0000), 0x1_0000_0000) as i32,
        }
    }

    fn from_rng(v: u64) -> (r: IVec2) {
        proof {
            lemma_windows_of_32(v);
            lemma_signed_casts(v & 0xFFFF_FFFF);
            lemma_signed_casts(v >> 32);
        }
        IVec2 {
            x: #[verifier::truncate]
            ((v & 0xFFFF_FFFF) as i32),
            y: #[verifier::truncate]
            ((v >> 32) as i32),
        }
    }
}

impl RangeRng for IVec2 {
    /// Every component has a range of its own to draw from.
    open spec fn valid_range(start: IVec2, end: IVec2) -> bool {
        &&& i32::valid_range(start.x, end.x)
        &&& i32::valid_range(start.y, end.y)
    }

    /// Each component is its window of the hash, reduced into the range of
    /// that component.
    open spec fn reduced(v: u64, start: IVec2, end: IVec2) -> IVec2 {
        IVec2 {
            x: reduce_window(
                v,
                1,
                0x1_0000_0000,
                start.x as int,
                end.x as int,
            ) as i32,
            y: reduce_window(
                v,
                0x1_0000_0000,
                0x1_0000_0000,
                start.y as int,
                end.y as int,
            ) as i32,
        }
    }

    open spec fn within(self, start: IVec2, end: IVec2) -> bool {
        &&& start.x <= self.x < end.x
        &&& start.y <= self.y < end.y
    }

    fn admits(range: &Range<IVec2>) -> (ok: bool) {
        i32::admits(&(range.start.x..range.end.x))
            && i32::admits(&(range.start.y..range.end.y))
    }

    fn from_range(v: u64, range: Range<IVec2>) -> (r: IVec2) {
        proof {
            lemma_windows_of_32(v);
        }
        IVec2 {
            x: i32::from_range(v & 0xFFFF_FFFF, range.start.x..range.end.x),
            y: i32::from_range(v >> 32, range.start.y..range.end.y),
        }
    }
}

impl PermMix for IVec2 {
    /// The components folded from the last to the first.
    open spec fn mixed(self, table: Seq<u8>) -> u8 {
        fold(table, self.x as int, fold(table, self.y as int, 0))
    }

    fn perm_mix(self, perm: &[u8; 512]) -> (r: u8) {
        let at_y: u8 = perm[low_byte_signed(self.y)];
        let at_x: u8 = perm[low_byte_signed(self.x) + at_y as usize];
        at_x
    }
}

/// A vector of two unsigned 32-bit integers.
#[derive(Clone, Copy, Debug, PartialEq, Eq)]
pub struct UVec2 {
    pub x: u32,
    pub y: u32,
}

impl FromRng for UVec2 {
    /// The hash split into two 32-bit halves, one for each component.
    open spec fn of_hash(v: u64) -> UVec2 {
        UVec2 {
            x: window(v, 1, 0x1_0000_0000) as u32,
            y: window(v, 0x1_0000_0000, 0x1_0000_0000) as u32,
        }
    }

    fn from_rng(v: u64) -> (r: UVec2) {
        proof {
            lemma_windows_of_32(v);
        }
        UVec2 {
            x: (v & 0xFFFF_FFFF) as u32,
            y: (v >> 32) as u32,
        }
    }
}

impl RangeRng for UVec2 {
    /// Every component has a range of its own to draw from.
    open spec fn valid_range(start: UVec2, end: UVec2) -> bool {
        &&& u32::valid_range(start.x, end.x)
        &&& u32::valid_range(start.y, end.y)
    }

    /// Each component is its window of the hash, reduced into the range of
    /// that component.
    open spec fn reduced(v: u64, start: UVec2, end: UVec2) -> UVec2 {
        UVec2 {
            x: reduce_window(
                v,
                1,
                0x1_0000_0000,
                start.x as int,
                end.x as int,
            ) as u32,
            y: reduce_window(
                v,
                0x1_0000_0000,
                0x1_0000_0000,
                start.y as int,
                end.y as int,
            ) as u32,
        }
    }

    open spec fn within(self, start: UVec2, end: UVec2) -> bool {
        &&& start.x <= self.x < end.x
        &&& start.y <= self.y < end.y
    }

    fn admits(range: &Range<UVec2>) -> (ok: bool) {
        u32::admits(&(range.start.x..range.end.x))
            && u32::admits(&(range.start.y..range.end.y))
    }

    fn from_range(v: u64, range: Range<UVec2>) -> (r: UVec2) {
        proof {
            lemma_windows_of_32(v);
        }
        UVec2 {
            x: u32::from_range(v & 0xFFFF_FFFF, range.start.x..range.end.x),
            y: u32::from_range(v >> 32, range.start.y..range.end.y),
        }
    }
}

impl PermMix for UVec2 {
    /// The components folded from the last to the first.
    open spec fn mixed(self, table: Seq<u8>) -> u8 {
        fold(table, self.x as int, fold(table, self.y as int, 0))
    }

    fn perm_mix(self, perm: &[u8; 512]) -> (r: u8) {
        let at_y: u8 = perm[low_byte_unsigned(self.y)];
        let at_x: u8 = perm[low_byte_unsigned(self.x) + at_y as usize];
        at_x
    }
}

/// A vector of three signed 32-bit integers.
#[derive(Clone, Copy, Debug, PartialEq, Eq)]
pub struct IVec3 {
    pub x: i32,
    pub y: i32,
    pub z: i32,
}

impl FromRng for IVec3 {
    /// The hash split into three windows of 21 bits, one for each component.
    open spec fn of_hash(v: u64) -> IVec3 {
        IVec3 {
            x: window(v, 1, 0x20_0000) as i32,
            y: window(v, 0x20_0000, 0x20_0000) as i32,
            z: window(v, 0x400_0000_0000, 0x20_0000) as i32,
        }
    }

    fn from_rng(v: u64) -> (r: IVec3) {
        proof {
            lemma_windows_of_21(v);
        }
        IVec3 {
            x: (v & 0x1F_FFFF) as i32,
            y: ((v >> 21) & 0x1F_FFFF) as i32,
            z: ((v >> 42) & 0x1F_FFFF) as i32,
        }
    }
}

impl RangeRng for IVec3 {
    /// Every component has a range of its own to draw from.
    open spec fn valid_range(start: IVec3, end: IVec3) -> bool {
        &&& i32::valid_range(start.x, end.x)
        &&& i32::valid_range(start.y, end.y)
        &&& i32::valid_range(start.z, end.z)
    }

    /// Each component is its window of the hash, reduced into the range of
    /// that component.
    open spec fn reduced(v: u64, start: IVec3, end: IVec3) -> IVec3 {
        IVec3 {
            x: reduce_window(
                v,
                1,
                0x20_0000,
                start.x as int,
                end.x as int,
            ) as i32,
            y: reduce_window(
                v,
                0x20_0000,
                0x20_0000,
                start.y as int,
                end.y as int,
            ) as i32,
            z: reduce_window(
                v,
                0x400_0000_0000,
                0x20_0000,
                start.z as int,
                end.z as int,
            ) as i32,
        }
    }

    open spec fn within(self, start: IVec3, end: IVec3) -> bool {
        &&& start.x <= self.x < end.x
        &&& start.y <= self.y < end.y
        &&& start.z <= self.z < end.z
    }

    fn admits(range: &Range<IVec3>) -> (ok: bool) {
        i32::admits(&(range.start.x..range.end.x))
            && i32::admits(&(range.start.y..range.end.y))
            && i32::admits(&(range.start.z..range.end.z))
    }

    fn from_range(v: u64, range: Range<IVec3>) -> (r: IVec3) {
        proof {
            lemma_windows_of_21(v);
        }
        IVec3 {
            x: i32::from_range(v & 0x1F_FFFF, range.start.x..range.end.x),
            y: i32::from_range((v >> 21) & 0x1F_FFFF, range.start.y..range.end.y),
            z: i32::from_range((v >> 42) & 0x1F_FFFF, range.start.z..range.end.z),
        }
    }
}

impl PermMix for IVec3 {
    /// The components folded from the last to the first.
    open spec fn mixed(self, table: Seq<u8>) -> u8 {
        fold(
            table,
            self.x as int,
            fold(
                table,
                self.y as int,
                fold(table, self.z as int, 0),
            ),
        )
    }

    fn perm_mix(self, perm: &[u8; 512]) -> (r: u8) {
        let at_z: u8 = perm[low_byte_signed(self.z)];
        let at_y: u8 = perm[low_byte_signed(self.y) + at_z as usize];
        let at_x: u8 = perm[low_byte_signed(self.x) + at_y as usize];
        at_x
    }
}

/// A vector of three unsigned 32-bit integers.
#[derive(Clone, Copy, Debug, PartialEq, Eq)]
pub struct UVec3 {
    pub x: u32,
    pub y: u32,
    pub z: u32,
}

impl FromRng for UVec3 {
    /// The hash split into three windows of 21 bits, one for each component.
    open spec fn of_hash(v: u64) -> UVec3 {
        UVec3 {
            x: window(v, 1, 0x20_0000) as u32,
            y: window(v, 0x20_0000, 0x20_0000) as u32,
            z: window(v, 0x400_0000_0000, 0x20_0000) as u32,
        }
    }

    fn from_rng(v: u64) -> (r: UVec3) {
        proof {
            lemma_windows_of_21(v);
        }
        UVec3 {
            x: (v & 0x1F_FFFF) as u32,
            y: ((v >> 21) & 0x1F_FFFF) as u32,
            z: ((v >> 42) & 0x1F_FFFF) as u32,
        }
    }
}

impl RangeRng for UVec3 {
    /// Every component has a range of its own to draw from.
    open spec fn valid_range(start: UVec3, end: UVec3) -> bool {
        &&& u32::valid_range(start.x, end.x)
        &&& u32::valid_range(start.y, end.y)
        &&& u32::valid_range(start.z, end.z)
    }

    /// Each component is its window of the hash, reduced into the range of
    /// that component.
    open spec fn reduced(v: u64, start: UVec3, end: UVec3) -> UVec3 {
        UVec3 {
            x: reduce_window(
                v,
                1,
                0x20_0000,
                start.x as int,
                end.x as int,
            ) as u32,
            y: reduce_window(
                v,
                0x20_0000,
                0x20_0000,
                start.y as int,
                end.y as int,
            ) as u32,
            z: reduce_window(
                v,
                0x400_0000_0000,
                0x20_0000,
                start.z as int,
                end.z as int,
            ) as u32,
        }
    }

    open spec fn within(self, start: UVec3, end: UVec3) -> bool {
        &&& start.x <= self.x < end.x
        &&& start.y <= self.y < end.y
        &&& start.z <= self.z < end.z
    }

    fn admits(range: &Range<UVec3>) -> (ok: bool) {
        u32::admits(&(range.start.x..range.end.x))
            && u32::admits(&(range.start.y..range.end.y))
            && u32::admits(&(range.start.z..range.end.z))
    }

    fn from_range(v: u64, range: Range<UVec3>) -> (r: UVec3) {
        proof {
            lemma_windows_of_21(v);
        }
        UVec3 {
            x: u32::from_range(v & 0x1F_FFFF, range.start.x..range.end.x),
            y: u32::from_range((v >> 21) & 0x1F_FFFF, range.start.y..range.end.y),
            z: u32::from_range((v >> 42) & 0x1F_FFFF, range.start.z..range.end.z),
        }
    }
}

impl PermMix for UVec3 {
    /// The components folded from the last to the first.
    open spec fn mixed(self, table: Seq<u8>) -> u8 {
        fold(
            table,
            self.x as int,
            fold(
                table,
                self.y as int,
                fold(table, self.z as int, 0),
            ),
        )
    }

    fn perm_mix(self, perm: &[u8; 512]) -> (r: u8) {
        let at_z: u8 = perm[low_byte_unsigned(self.z)];
        let at_y: u8 = perm[low_byte_unsigned(self.y) + at_z as usize];
        let at_x: u8 = perm[low_byte_unsigned(self.x) + at_y as usize];
        at_x
    }
}

/// A vector of four signed 32-bit integers.
#[derive(Clone, Copy, Debug, PartialEq, Eq)]
pub struct IVec4 {
    pub x: i32,
    pub y: i32,
    pub z: i32,
    pub w: i32,
}

impl FromRng for IVec4 {
    /// The hash split into four windows of 16 bits, one for each component.
    open spec fn of_hash(v: u64) -> IVec4 {
        IVec4 {
            x: window(v, 1, 0x1_0000) as i32,
            y: window(v, 0x1_0000, 0x1_0000) as i32,
            z: window(v, 0x1_0000_0000, 0x1_0000) as i32,
            w: window(v, 0x1_0000_0000_0000, 0x1_0000) as i32,
        }
    }

    fn from_rng(v: u64) -> (r: IVec4) {
        proof {
            lemma_windows_of_16(v);
        }
        IVec4 {
            x: (v & 0xFFFF) as i32,
            y: ((v >> 16) & 0xFFFF) as i32,
            z: ((v >> 32) & 0xFFFF) as i32,
            w: ((v >> 48) & 0xFFFF) as i32,
        }
    }
}

impl RangeRng for IVec4 {
    /// Every component has a range of its own to draw from.
    open spec fn valid_range(start: IVec4, end: IVec4) -> bool {
        &&& i32::valid_range(start.x, end.x)
        &&& i32::valid_range(start.y, end.y)
        &&& i32::valid_range(start.z, end.z)
        &&& i32::valid_range(start.w, end.w)
    }

    /// Each component is its window of the hash, reduced into the range of
    /// that component.
    open spec fn reduced(v: u64, start: IVec4, end: IVec4) -> IVec4 {
        IVec4 {
            x: reduce_window(
                v,
                1,
                0x1_0000,
                start.x as int,
                end.x as int,
            ) as i32,
            y: reduce_window(
                v,
                0x1_0000,
                0x1_0000,
                start.y as int,
                end.y as int,
            ) as i32,
            z: reduce_window(
                v,
                0x1_0000_0000,
                0x1_0000,
                start.z as int,
                end.z as int,
            ) as i32,
            w: reduce_window(
                v,
                0x1_0000_0000_0000,
                0x1_0000,
                start.w as int,
                end.w as int,
            ) as i32,
        }
    }

    open spec fn within(self, start: IVec4, end: IVec4) -> bool {
        &&& start.x <= self.x < end.x
        &&& start.y <= self.y < end.y
        &&& start.z <= self.z < end.z
        &&& start.w <= self.w < end.w
    }

    fn admits(range: &Range<IVec4>) -> (ok: bool) {
        i32::admits(&(range.start.x..range.end.x))
            && i32::admits(&(range.start.y..range.end.y))
            && i32::admits(&(range.start.z..range.end.z))
            && i32::admits(&(range.start.w..range.end.w))
    }

    fn from_range(v: u64, range: Range<IVec4>) -> (r: IVec4) {
        proof {
            lemma_windows_of_16(v);
        }
        IVec4 {
            x: i32::from_range(v & 0xFFFF, range.start.x..range.end.x),
            y: i32::from_range((v >> 16) & 0xFFFF, range.start.y..range.end.y),
            z: i32::from_range((v >> 32) & 0xFFFF, range.start.z..range.end.z),
            w: i32::from_range((v >> 48) & 0xFFFF, range.start.w..range.end.w),
        }
    }
}

impl PermMix for IVec4 {
    /// The components folded from the last to the first.
    open spec fn mixed(self, table: Seq<u8>) -> u8 {
        fold(
            table,
            self.x as int,
            fold(
                table,
                self.y as int,
                fold(
                    table,
                    self.z as int,
                    fold(table, self.w as int, 0),
                ),
            ),
        )
    }

    fn perm_mix(self, perm: &[u8; 512]) -> (r: u8) {
        let at_w: u8 = perm[low_byte_signed(self.w)];
        let at_z: u8 = perm[low_byte_signed(self.z) + at_w as usize];
        let at_y: u8 = perm[low_byte_signed(self.y) + at_z as usize];
        let at_x: u8 = perm[low_byte_signed(self.x) + at_y as usize];
        at_x
    }
}

/// A vector of four unsigned 32-bit integers.
#[derive(Clone, Copy, Debug, PartialEq, Eq)]
pub struct UVec4 {
    pub x: u32,
    pub y: u32,
    pub z: u32,
    pub w: u32,
}

impl FromRng for UVec4 {
    /// The hash split into four windows of 16 bits, one for each component.
    open spec fn of_hash(v: u64) -> UVec4 {
        UVec4 {
            x: window(v, 1, 0x1_0000) as u32,
            y: window(v, 0x1_0000, 0x1_0000) as u32,
            z: window(v, 0x1_0000_0000, 0x1_0000) as u32,
            w: window(v, 0x1_0000_0000_0000, 0x1_0000) as u32,
        }
    }

    fn from_rng(v: u64) -> (r: UVec4) {
        proof {
            lemma_windows_of_16(v);
        }
        UVec4 {
            x: (v & 0xFFFF) as u32,
            y: ((v >> 16) & 0xFFFF) as u32,
            z: ((v >> 32) & 0xFFFF) as u32,
            w: ((v >> 48) & 0xFFFF) as u32,
        }
    }
}

impl RangeRng for UVec4 {
    /// Every component has a range of its own to draw from.
    open spec fn valid_range(start: UVec4, end: UVec4) -> bool {
        &&& u32::valid_range(start.x, end.x)
        &&& u32::valid_range(start.y, end.y)
        &&& u32::valid_range(start.z, end.z)
        &&& u32::valid_range(start.w, end.w)
    }

    /// Each component is its window of the hash, reduced into the range of
    /// that component.
    open spec fn reduced(v: u64, start: UVec4, end: UVec4) -> UVec4 {
        UVec4 {
            x: reduce_window(
                v,
                1,
                0x1_0000,
                start.x as int,
                end.x as int,
            ) as u32,
            y: reduce_window(
                v,
                0x1_0000,
                0x1_0000,
                start.y as int,
                end.y as int,
            ) as u32,
            z: reduce_window(
                v,
                0x1_0000_0000,
                0x1_0000,
                start.z as int,
                end.z as int,
            ) as u32,
            w: reduce_window(
                v,
                0x1_0000_0000_0000,
                0x1_0000,
                start.w as int,
                end.w as int,
            ) as u32,
        }
    }

    open spec fn within(self, start: UVec4, end: UVec4) -> bool {
        &&& start.x <= self.x < end.x
        &&& start.y <= self.y < end.y
        &&& start.z <= self.z < end.z
        &&& start.w <= self.w < end.w
    }

    fn admits(range: &Range<UVec4>) -> (ok: bool) {
        u32::admits(&(range.start.x..range.end.x))
            && u32::admits(&(range.start.y..range.end.y))
            && u32::admits(&(range.start.z..range.end.z))
            && u32::admits(&(range.start.w..range.end.w))
    }

    fn from_range(v: u64, range: Range<UVec4>) -> (r: UVec4) {
        proof {
            lemma_windows_of_16(v);
        }
        UVec4 {
            x: u32::from_range(v & 0xFFFF, range.start.x..range.end.x),
            y: u32::from_range((v >> 16) & 0xFFFF, range.start.y..range.end.y),
            z: u32::from_range((v >> 32) & 0xFFFF, range.start.z..range.end.z),
            w: u32::from_range((v >> 48) & 0xFFFF, range.start.w..range.end.w),
        }
    }
}

impl PermMix for UVec4 {
    /// The components folded from the last to the first.
    open spec fn mixed(self, table: Seq<u8>) -> u8 {
        fold(
            table,
            self.x as int,
            fold(
                table,
                self.y as int,
                fold(
                    table,
                    self.z as int,
                    fold(table, self.w as int, 0),
                ),
            ),
        )
    }

    fn perm_mix(self, perm: &[u8; 512]) -> (r: u8) {
        let at_w: u8 = perm[low_byte_unsigned(self.w)];
        let at_z: u8 = perm[low_byte_unsigned(self.z) + at_w as usize];
        let at_y: u8 = perm[low_byte_unsigned(self.y) + at_z as usize];
        let at_x: u8 = perm[low_byte_unsigned(self.x) + at_y as usize];
        at_x
    }
}

} // verus!

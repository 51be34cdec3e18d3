//! Reducing a raw 64-bit hash into a half-open range.
use vstd::prelude::*;
use std::ops::Range;

verus! {

/// The hash `v` reduced into `start .. end`: the start plus the remainder of
/// `v` by the width of the range.
///
/// Low values come out very slightly more often than high ones whenever the
/// width does not divide 2^64.
pub open spec fn reduce(v: u64, start: int, end: int) -> int {
    start + (v as int) % (end - start)
}

/// A reduced hash lies in the range it was reduced into.
pub proof fn lemma_reduce_within(v: u64, start: int, end: int)
    requires
        start < end,
    ensures
        start <= reduce(v, start, end) < end,
{
}

/// A type whose values can be drawn from a half-open range.
pub trait RangeRng: Sized {
    /// Whether `start .. end` is a range to draw from: it is not empty, and
    /// its width can be computed in the type's own arithmetic.
    spec fn valid_range(start: Self, end: Self) -> bool;

    /// The value in `start .. end` that the hash `v` stands for.
    spec fn reduced(v: u64, start: Self, end: Self) -> Self;

    /// Whether the value lies in `start .. end`.
    spec fn within(self, start: Self, end: Self) -> bool;

    /// Tests whether `range` is a range to draw from.
    fn admits(range: &Range<Self>) -> (ok: bool)
        ensures
            ok == Self::valid_range(range.start, range.end),
    ;

    /// Converts a hash into a value of the range.
    fn from_range(v: u64, range: Range<Self>) -> (r: Self)
        requires
            Self::valid_range(range.start, range.end),
        ensures
            r == Self::reduced(v, range.start, range.end),
            r.within(range.start, range.end),
    ;
}

impl RangeRng for u64 {
    open spec fn valid_range(start: u64, end: u64) -> bool {
        start < end
    }

    open spec fn reduced(v: u64, start: u64, end: u64) -> u64 {
        reduce(v, start as int, end as int) as u64
    }

    open spec fn within(self, start: u64, end: u64) -> bool {
        start <= self < end
    }

    fn admits(range: &Range<u64>) -> (ok: bool) {
        range.start < range.end
    }

    fn from_range(v: u64, range: Range<u64>) -> (r: u64) {
        range.start + (v % (range.end - range.start))
    }
}

impl RangeRng for usize {
    open spec fn valid_range(start: usize, end: usize) -> bool {
        start < end
    }

    open spec fn reduced(v: u64, start: usize, end: usize) -> usize {
        reduce(v, start as int, end as int) as usize
    }

    open spec fn within(self, start: usize, end: usize) -> bool {
        start <= self < end
    }

    fn admits(range: &Range<usize>) -> (ok: bool) {
        range.start < range.end
    }

    fn from_range(v: u64, range: Range<usize>) -> (r: usize) {
        range.start + (v % (range.end as u64 - range.start as u64)) as usize
    }
}

impl RangeRng for u32 {
    open spec fn valid_range(start: u32, end: u32) -> bool {
        start < end
    }

    open spec fn reduced(v: u64, start: u32, end: u32) -> u32 {
        reduce(v, start as int, end as int) as u32
    }

    open spec fn within(self, start: u32, end: u32) -> bool {
        start <= self < end
    }

    fn admits(range: &Range<u32>) -> (ok: bool) {
        range.start < range.end
    }

    fn from_range(v: u64, range: Range<u32>) -> (r: u32) {
        range.start + (v % (range.end as u64 - range.start as u64)) as u32
    }
}

impl RangeRng for u16 {
    open spec fn valid_range(start: u16, end: u16) -> bool {
        start < end
    }

    open spec fn reduced(v: u64, start: u16, end: u16) -> u16 {
        reduce(v, start as int, end as int) as u16
    }

    open spec fn within(self, start: u16, end: u16) -> bool {
        start <= self < end
    }

    fn admits(range: &Range<u16>) -> (ok: bool) {
        range.start < range.end
    }

    fn from_range(v: u64, range: Range<u16>) -> (r: u16) {
        range.start + (v % (range.end as u64 - range.start as u64)) as u16
    }
}

impl RangeRng for u8 {
    open spec fn valid_range(start: u8, end: u8) -> bool {
        start < end
    }

    open spec fn reduced(v: u64, start: u8, end: u8) -> u8 {
        reduce(v, start as int, end as int) as u8
    }

    open spec fn within(self, start: u8, end: u8) -> bool {
        start <= self < end
    }

    fn admits(range: &Range<u8>) -> (ok: bool) {
        range.start < range.end
    }

    fn from_range(v: u64, range: Range<u8>) -> (r: u8) {
        range.start + (v % (range.end as u64 - range.start as u64)) as u8
    }
}

impl RangeRng for i64 {
    open spec fn valid_range(start: i64, end: i64) -> bool {
        start < end && end - start <= i64::MAX
    }

    open spec fn reduced(v: u64, start: i64, end: i64) -> i64 {
        reduce(v, start as int, end as int) as i64
    }

    open spec fn within(self, start: i64, end: i64) -> bool {
        start <= self < end
    }

    fn admits(range: &Range<i64>) -> (ok: bool) {
        range.start < range.end && range.end as i128 - range.start as i128 <= i64::MAX as i128
    }

    fn from_range(v: u64, range: Range<i64>) -> (r: i64) {
        range.start + (v % (range.end - range.start) as u64) as i64
    }
}

impl RangeRng for isize {
    open spec fn valid_range(start: isize, end: isize) -> bool {
        start < end && end - start <= isize::MAX
    }

    open spec fn reduced(v: u64, start: isize, end: isize) -> isize {
        reduce(v, start as int, end as int) as isize
    }

    open spec fn within(self, start: isize, end: isize) -> bool {
        start <= self < end
    }

    fn admits(range: &Range<isize>) -> (ok: bool) {
        range.start < range.end && range.end as i128 - range.start as i128 <= isize::MAX as i128
    }

    fn from_range(v: u64, range: Range<isize>) -> (r: isize) {
        range.start + (v % (range.end - range.start) as u64) as isize
    }
}

impl RangeRng for i32 {
    open spec fn valid_range(start: i32, end: i32) -> bool {
        start < end && end - start <= i32::MAX
    }

    open spec fn reduced(v: u64, start: i32, end: i32) -> i32 {
        reduce(v, start as int, end as int) as i32
    }

    open spec fn within(self, start: i32, end: i32) -> bool {
        start <= self < end
    }

    fn admits(range: &Range<i32>) -> (ok: bool) {
        range.start < range.end && range.end as i128 - range.start as i128 <= i32::MAX as i128
    }

    fn from_range(v: u64, range: Range<i32>) -> (r: i32) {
        range.start + (v % (range.end - range.start) as u64) as i32
    }
}

impl RangeRng for i16 {
    open spec fn valid_range(start: i16, end: i16) -> bool {
        start < end && end - start <= i16::MAX
    }

    open spec fn reduced(v: u64, start: i16, end: i16) -> i16 {
        reduce(v, start as int, end as int) as i16
    }

    open spec fn within(self, start: i16, end: i16) -> bool {
        start <= self < end
    }

    fn admits(range: &Range<i16>) -> (ok: bool) {
        range.start < range.end && range.end as i128 - range.start as i128 <= i16::MAX as i128
    }

    fn from_range(v: u64, range: Range<i16>) -> (r: i16) {
        range.start + (v % (range.end - range.start) as u64) as i16
    }
}

impl RangeRng for i8 {
    open spec fn valid_range(start: i8, end: i8) -> bool {
        start < end && end - start <= i8::MAX
    }

    open spec fn reduced(v: u64, start: i8, end: i8) -> i8 {
        reduce(v, start as int, end as int) as i8
    }

    open spec fn within(self, start: i8, end: i8) -> bool {
        start <= self < end
    }

    fn admits(range: &Range<i8>) -> (ok: bool) {
        range.start < range.end && range.end as i128 - range.start as i128 <= i8::MAX as i128
    }

    fn from_range(v: u64, range: Range<i8>) -> (r: i8) {
        range.start + (v % (range.end - range.start) as u64) as i8
    }
}

} // verus!

//! Conversion of Unix seconds to the Windows file-time model: 100-nanosecond
//! intervals since 1601-01-01, held as two 32-bit words.

use vstd::prelude::*;

verus! {

/// Intervals of 100 ns between 1601-01-01 and 1970-01-01.
pub const EPOCH_OFFSET_INTERVALS: u64 = 116_444_736_000_000_000;

/// Intervals of 100 ns in one second.
pub const INTERVALS_PER_SECOND: u64 = 10_000_000;

/// A file time as the operating system takes it: the low and the high word
/// of a 64-bit count of 100 ns intervals.
#[derive(Clone, Copy, Debug, PartialEq, Eq, Structural)]
pub struct FileTime {
    pub low: u32,
    pub high: u32,
}

/// The interval count that stands for `seconds` after the Unix epoch.
pub open spec fn intervals_of(seconds: nat) -> nat {
    seconds * 10_000_000 + 116_444_736_000_000_000
}

/// The interval count that the two words of `ft` make up.
pub open spec fn value_of(ft: FileTime) -> nat {
    ft.high as nat * 0x1_0000_0000 + ft.low as nat
}

/// The two words of the interval count `v`.
pub open spec fn words_of(v: nat) -> FileTime {
    FileTime { low: (v % 0x1_0000_0000) as u32, high: (v / 0x1_0000_0000) as u32 }
}

/// The whole seconds after the Unix epoch at an interval count, when it is
/// not before that epoch.
pub open spec fn seconds_of(v: nat) -> Option<nat> {
    if v >= 116_444_736_000_000_000 {
        Some(((v - 116_444_736_000_000_000) as nat / 10_000_000) as nat)
    } else {
        None
    }
}

/// The interval count for `seconds`, or `None` when it does not fit in 64 bits.
pub fn unix_to_intervals(seconds: u64) -> (r: Option<u64>)
    ensures
        r is Some <==> intervals_of(seconds as nat) <= u64::MAX,
        r matches Some(v) ==> v == intervals_of(seconds as nat),
{
    match seconds.checked_mul(INTERVALS_PER_SECOND) {
        Some(scaled) => scaled.checked_add(EPOCH_OFFSET_INTERVALS),
        None => {
            assert(seconds * 10_000_000 > u64::MAX);
            None
        },
    }
}

/// Splits an interval count into its low and its high word.
pub fn split_intervals(v: u64) -> (r: FileTime)
    ensures
        r == words_of(v as nat),
        value_of(r) == v,
{
    let low = (v & 0xFFFF_FFFF) as u32;
    let high = (v >> 32) as u32;
    assert(v & 0xFFFF_FFFF == v % 0x1_0000_0000) by (bit_vector);
    assert(v >> 32 == v / 0x1_0000_0000) by (bit_vector);
    assert(v as nat == (v as nat / 0x1_0000_0000) * 0x1_0000_0000 + v as nat % 0x1_0000_0000)
        by (nonlinear_arith);
    FileTime { low, high }
}

/// The interval count that the two words of `ft` make up.
pub fn join_words(ft: FileTime) -> (r: u64)
    ensures
        r == value_of(ft),
{
    let v = (ft.high as u64) * 0x1_0000_0000 + ft.low as u64;
    v
}

/// The file time for `seconds` after the Unix epoch, or `None` when its
/// interval count does not fit in 64 bits.
pub fn unix_to_filetime(seconds: u64) -> (r: Option<FileTime>)
    ensures
        r is Some <==> intervals_of(seconds as nat) <= u64::MAX,
        r matches Some(ft) ==> ft == words_of(intervals_of(seconds as nat)),
{
    match unix_to_intervals(seconds) {
        Some(v) => Some(split_intervals(v)),
        None => None,
    }
}

/// The whole seconds after the Unix epoch that `ft` stands for (sub-second
/// intervals dropped), or `None` when it lies before that epoch.
pub fn filetime_to_unix(ft: FileTime) -> (r: Option<u64>)
    ensures
        r is Some <==> seconds_of(value_of(ft)) is Some,
        r matches Some(s) ==> seconds_of(value_of(ft)) == Some(s as nat),
{
    let v = join_words(ft);
    if v >= EPOCH_OFFSET_INTERVALS {
        Some((v - EPOCH_OFFSET_INTERVALS) / INTERVALS_PER_SECOND)
    } else {
        None
    }
}

/// The two words of an interval count give the count back.
pub proof fn lemma_words_value(v: nat)
    requires
        v <= u64::MAX,
    ensures
        value_of(words_of(v)) == v,
{
    assert(v == (v / 0x1_0000_0000) * 0x1_0000_0000 + v % 0x1_0000_0000) by (nonlinear_arith);
    assert(v / 0x1_0000_0000 < 0x1_0000_0000) by (nonlinear_arith)
        requires
            v <= u64::MAX,
    ;
}

/// Converting seconds to a file time and back gives the same seconds, for
/// every count of seconds whose file time fits in 64 bits.
pub proof fn law_filetime_round_trip(seconds: nat)
    requires
        intervals_of(seconds) <= u64::MAX,
    ensures
        value_of(words_of(intervals_of(seconds))) == intervals_of(seconds),
        seconds_of(value_of(words_of(intervals_of(seconds)))) == Some(seconds),
{
    lemma_words_value(intervals_of(seconds));
    assert((seconds * 10_000_000) as nat / 10_000_000 == seconds) by (nonlinear_arith);
}

} // verus!

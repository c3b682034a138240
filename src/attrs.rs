//! The records handed to the extended-attribute-list call that sets a file's
//! creation time by path, and the path as that call takes it.

use vstd::prelude::*;
use vstd::string::StringSliceAdditionalSpecFns;

verus! {

/// Number of attribute bitmaps in a selector record.
pub const ATTR_BIT_MAP_COUNT: u16 = 5;

/// The common attribute bit that selects the creation time.
pub const ATTR_CMN_CRTIME: u32 = 0x0000_0200;

/// Attribute-selector record, field for field as the system call reads it.
#[derive(Clone, Copy, Debug, PartialEq, Eq, Structural)]
pub struct AttrList {
    pub bitmap_count: u16,
    pub reserved: u16,
    pub common: u32,
    pub volume: u32,
    pub directory: u32,
    pub file: u32,
    pub fork: u32,
}

/// Attribute-value record for the creation time alone: the time as whole
/// seconds and nanoseconds, with nothing before it, 16 bytes in all.
#[derive(Clone, Copy, Debug, PartialEq, Eq, Structural)]
pub struct AttrValue {
    pub tv_sec: i64,
    pub tv_nsec: i64,
}

/// The selector that names the creation time and nothing else.
pub open spec fn creation_time_selector_spec() -> AttrList {
    AttrList {
        bitmap_count: 5,
        reserved: 0,
        common: 0x0000_0200,
        volume: 0,
        directory: 0,
        file: 0,
        fork: 0,
    }
}

/// Builds the selector that names the creation time and nothing else.
pub fn creation_time_selector() -> (r: AttrList)
    ensures
        r == creation_time_selector_spec(),
{
    AttrList {
        bitmap_count: ATTR_BIT_MAP_COUNT,
        reserved: 0,
        common: ATTR_CMN_CRTIME,
        volume: 0,
        directory: 0,
        file: 0,
        fork: 0,
    }
}

/// Builds the value record for a creation time of `seconds` after the Unix
/// epoch, with no sub-second part; `None` when `seconds` exceeds what the
/// record's signed seconds field holds.
pub fn creation_time_value(seconds: u64) -> (r: Option<AttrValue>)
    ensures
        r is Some <==> seconds <= i64::MAX,
        r matches Some(v) ==> v == (AttrValue { tv_sec: seconds as i64, tv_nsec: 0 }),
{
    if seconds <= i64::MAX as u64 {
        Some(AttrValue { tv_sec: seconds as i64, tv_nsec: 0 })
    } else {
        None
    }
}

/// The path as a system call takes it: its UTF-8 bytes, then a zero byte.
pub open spec fn c_path_bytes(path: &str) -> Seq<u8> {
    path.spec_bytes().push(0u8)
}

/// The path's bytes followed by a terminating zero byte, or `None` when the
/// path itself holds a zero byte, which would cut it short at the call.
pub fn c_path(path: &str) -> (r: Option<Vec<u8>>)
    ensures
        r is Some <==> !path.spec_bytes().contains(0u8),
        r matches Some(v) ==> v@ == c_path_bytes(path),
{
    let bytes = path.as_bytes();
    let mut out: Vec<u8> = Vec::new();
    let mut i: usize = 0;
    while i < bytes.len()
        invariant
            bytes@ == path.spec_bytes(),
            i <= bytes@.len(),
            out@ == bytes@.subrange(0, i as int),
            forall|j: int| 0 <= j < i ==> bytes@[j] != 0u8,
        decreases bytes@.len() - i,
    {
        if bytes[i] == 0 {
            assert(bytes@[i as int] == 0u8);
            return None;
        }
        out.push(bytes[i]);
        i = i + 1;
        assert(out@ =~= bytes@.subrange(0, i as int));
    }
    assert(out@ =~= bytes@);
    assert(!bytes@.contains(0u8)) by {
        if bytes@.contains(0u8) {
            let j = choose|j: int| 0 <= j < bytes@.len() && bytes@[j] == 0u8;
            assert(bytes@[j] != 0u8);
        }
    }
    out.push(0u8);
    Some(out)
}

} // verus!

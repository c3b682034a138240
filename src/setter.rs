//! The decisions around setting a creation time: checking the inputs, what
//! each platform is asked to do, and how its outcome is reported.

use vstd::prelude::*;
use vstd::utf8::{decode_utf8_encode_utf8, encode_utf8};
use crate::attrs::{c_path, creation_time_selector, creation_time_selector_spec, creation_time_value, AttrList, AttrValue};
use crate::error::{decimal_of, law_failure_text_names_path, os_message, BtimeError};
use crate::filetime::{intervals_of, unix_to_filetime, words_of, FileTime};
use crate::path::{decode_path, decoded_path, lemma_text_len_is_first_terminator, text_bytes};

verus! {

/// The facility the target system offers for setting a creation time.
#[derive(Clone, Copy, Debug, PartialEq, Eq, Structural)]
pub enum Platform {
    /// A file-time call on a handle opened for attribute writes.
    Windows,
    /// The extended-attribute-list call, by path.
    Mac,
    /// No facility: the creation time cannot be changed, and that is no error.
    Other,
}

/// The system call to make, with every argument it takes.
#[derive(Debug)]
pub enum Request {
    /// Open `path` for attribute writes and set its creation time alone to `time`.
    SetFileTime { path: String, time: FileTime },
    /// Set the attributes that `selector` names to `value` on the file at
    /// `c_path`, a zero-terminated byte string.
    SetAttrList { c_path: Vec<u8>, selector: AttrList, value: AttrValue },
    /// Nothing to do.
    Nothing,
}

/// What the platform is asked to do for `path` and `seconds`, as a
/// contract: `Ok` with the request, or `Err` on exactly the inputs the
/// platform cannot take.
pub open spec fn plan_ensures(platform: Platform, path: Seq<char>, seconds: u64, r: Result<Request, BtimeError>) -> bool {
    match platform {
        Platform::Windows => {
            &&& (r is Ok <==> intervals_of(seconds as nat) <= u64::MAX)
            &&& (r matches Ok(q) ==> q matches Request::SetFileTime { path: p, time }
                && p@ == path && time == words_of(intervals_of(seconds as nat)))
            &&& (r matches Err(e) ==> e matches BtimeError::TimeOutOfRange { path: p } && p@ == path)
        },
        Platform::Mac => {
            &&& (r is Ok <==> !encode_utf8(path).contains(0u8) && seconds <= i64::MAX)
            &&& (r matches Ok(q) ==> q matches Request::SetAttrList { c_path: b, selector, value }
                && b@ == encode_utf8(path).push(0u8) && selector == creation_time_selector_spec()
                && value == (AttrValue { tv_sec: seconds as i64, tv_nsec: 0 }))
            &&& (r matches Err(e) ==> if encode_utf8(path).contains(0u8) {
                e matches BtimeError::InvalidPath { path: p } && p@ == path
            } else {
                e matches BtimeError::TimeOutOfRange { path: p } && p@ == path
            })
        },
        Platform::Other => r matches Ok(Request::Nothing),
    }
}

/// Decides the system call that sets the creation time of `path` to
/// `seconds` after the Unix epoch on `platform`.
pub fn plan(platform: Platform, path: &str, seconds: u64) -> (r: Result<Request, BtimeError>)
    ensures
        plan_ensures(platform, path@, seconds, r),
{
    match platform {
        Platform::Windows => match unix_to_filetime(seconds) {
            Some(time) => Ok(Request::SetFileTime { path: path.to_owned(), time }),
            None => Err(BtimeError::TimeOutOfRange { path: path.to_owned() }),
        },
        Platform::Mac => {
            let bytes = match c_path(path) {
                Some(b) => b,
                None => return Err(BtimeError::InvalidPath { path: path.to_owned() }),
            };
            match creation_time_value(seconds) {
                Some(value) => Ok(
                    Request::SetAttrList { c_path: bytes, selector: creation_time_selector(), value },
                ),
                None => Err(BtimeError::TimeOutOfRange { path: path.to_owned() }),
            }
        },
        Platform::Other => Ok(Request::Nothing),
    }
}

/// The request part of what `btime` returns.
pub open spec fn request_part(r: Result<(String, Request), BtimeError>) -> Result<Request, BtimeError> {
    match r {
        Ok((_, q)) => Ok(q),
        Err(e) => Err(e),
    }
}

/// What `btime` returns when both inputs are present: `InvalidEncoding`
/// when the buffer does not decode, else the decoded path and what `plan`
/// decides for it.
pub open spec fn btime_ensures(platform: Platform, b: Seq<u8>, s: u64, r: Result<(String, Request), BtimeError>) -> bool {
    match decoded_path(b) {
        None => r matches Err(BtimeError::InvalidEncoding),
        Some(t) => plan_ensures(platform, t, s, request_part(r))
            && (r matches Ok((p, _)) ==> p@ == t),
    }
}

/// Checks the inputs and decides the system call: the path buffer (its
/// bytes up to the first zero byte, as UTF-8) and the seconds after the
/// Unix epoch, either of which may be missing. On success, the decoded path
/// and the request.
pub fn btime(platform: Platform, path_buf: Option<&[u8]>, seconds: Option<u64>) -> (r: Result<(String, Request), BtimeError>)
    ensures
        (path_buf is None || seconds is None) ==> r matches Err(BtimeError::Usage),
        path_buf matches Some(b) ==> seconds matches Some(s) ==> btime_ensures(platform, b@, s, r),
{
    let (buf, s) = match (path_buf, seconds) {
        (Some(buf), Some(s)) => (buf, s),
        _ => return Err(BtimeError::Usage),
    };
    let path = match decode_path(buf) {
        Some(p) => p,
        None => return Err(BtimeError::InvalidEncoding),
    };
    match plan(platform, path.as_str(), s) {
        Ok(q) => Ok((path, q)),
        Err(e) => Err(e),
    }
}

/// What `finish` reports for `outcome` on `path`: success for success, else
/// `Os` with the native error number (-1 when there is none) and the path.
pub open spec fn finish_ensures(path: Seq<char>, outcome: Result<(), Option<i32>>, r: Result<(), BtimeError>) -> bool {
    &&& (outcome is Ok <==> r is Ok)
    &&& (outcome matches Err(c) ==> r matches Err(BtimeError::Os { code, path: p })
        && p@ == path && code == match c {
            Some(n) => n,
            None => -1i32,
        })
}

/// Reports the outcome of the system call made on `path`: success, or the
/// native error number (-1 when the platform gave none) with the path.
pub fn finish(path: &str, outcome: Result<(), Option<i32>>) -> (r: Result<(), BtimeError>)
    ensures
        finish_ensures(path@, outcome, r),
{
    match outcome {
        Ok(()) => Ok(()),
        Err(c) => {
            let code = match c {
                Some(n) => n,
                None => crate::error::NO_ERROR_CODE,
            };
            Err(BtimeError::Os { code, path: path.to_owned() })
        },
    }
}

/// Whether `platform` can hold a creation time of `seconds`.
pub open spec fn time_in_range(platform: Platform, seconds: u64) -> bool {
    match platform {
        Platform::Windows => intervals_of(seconds as nat) <= u64::MAX,
        Platform::Mac => seconds <= i64::MAX,
        Platform::Other => true,
    }
}

/// The decoded text of a buffer holds no zero byte once encoded again.
pub proof fn lemma_decoded_path_has_no_zero(b: Seq<u8>)
    requires
        decoded_path(b) is Some,
    ensures
        encode_utf8(decoded_path(b)->0) == text_bytes(b),
        !text_bytes(b).contains(0u8),
{
    decode_utf8_encode_utf8(text_bytes(b));
    lemma_text_len_is_first_terminator(b);
    if text_bytes(b).contains(0u8) {
        let j = choose|j: int| 0 <= j < text_bytes(b).len() && text_bytes(b)[j] == 0u8;
        assert(text_bytes(b)[j] == b[j]);
    }
}

/// A failed call is reported with its native error number and the path as
/// it was decoded. When the buffer decodes to some text and the seconds fit
/// the platform, `btime` asks for a call on exactly that text; and when that
/// call fails with native number `c`, `finish` reports `Os` with `c`, whose
/// message is `(c) utimes(<text>)`, holding the text verbatim.
pub proof fn law_failure_names_path(
    platform: Platform,
    b: Seq<u8>,
    s: u64,
    r: Result<(String, Request), BtimeError>,
    c: i32,
    f: Result<(), BtimeError>,
)
    requires
        platform != Platform::Other,
        decoded_path(b) is Some,
        time_in_range(platform, s),
        btime_ensures(platform, b, s, r),
        r matches Ok((p, _)) ==> finish_ensures(p@, Err(Some(c)), f),
    ensures
        r matches Ok((p, _)) && p@ == decoded_path(b)->0,
        f matches Err(e) && e.code_spec() == c
            && e.message_spec() == os_message(c as int, decoded_path(b)->0),
        os_message(c as int, decoded_path(b)->0).subrange(
            10 + decimal_of(c as int).len() as int,
            10 + decimal_of(c as int).len() + decoded_path(b)->0.len() as int,
        ) == decoded_path(b)->0,
{
    lemma_decoded_path_has_no_zero(b);
    law_failure_text_names_path(c as int, decoded_path(b)->0);
}
} // verus!

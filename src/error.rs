//! Errors reported to the caller, and the text of each.

use vstd::prelude::*;

verus! {

/// Why the creation time was not set.
#[derive(Debug)]
pub enum BtimeError {
    /// Fewer than the two inputs, path buffer and seconds, were supplied.
    Usage,
    /// The path bytes before the terminator are not UTF-8.
    InvalidEncoding,
    /// The path holds a zero byte, which would cut it short at the system call.
    InvalidPath { path: String },
    /// The seconds do not fit the platform's time representation.
    TimeOutOfRange { path: String },
    /// The system call failed with the given native error number.
    Os { code: i32, path: String },
}

/// Text of the usage error.
pub open spec fn usage_message() -> Seq<char> {
    "bad arguments, expected: (buffer path, seconds btime)"@
}

/// Text of the encoding error.
pub open spec fn encoding_message() -> Seq<char> {
    "Invalid UTF-8 in path"@
}

/// The decimal digit for `d`.
pub open spec fn digit_char(d: nat) -> char {
    seq!['0', '1', '2', '3', '4', '5', '6', '7', '8', '9'][d as int]
}

/// Decimal digits of `n`, most significant first, without leading zeros.
pub open spec fn digits_of(n: nat) -> Seq<char>
    decreases n,
{
    if n < 10 {
        seq![digit_char(n)]
    } else {
        digits_of(n / 10) + seq![digit_char(n % 10)]
    }
}

/// Decimal text of `i`, with a leading minus sign when it is negative.
pub open spec fn decimal_of(i: int) -> Seq<char> {
    if i < 0 {
        seq!['-'] + digits_of((-i) as nat)
    } else {
        digits_of(i as nat)
    }
}

/// The text between the error number and the path.
pub open spec fn call_label() -> Seq<char> {
    seq![')', ' ', 'u', 't', 'i', 'm', 'e', 's', '(']
}

/// Text of a failure on `path` with native error number `code`:
/// `(<code>) utimes(<path>)`.
pub open spec fn os_message(code: int, path: Seq<char>) -> Seq<char> {
    seq!['('] + decimal_of(code) + call_label() + path + seq![')']
}

/// Error number reported when the platform gave none.
pub const NO_ERROR_CODE: i32 = -1;

impl BtimeError {
    /// The native error number the error carries, or -1 where it has none.
    pub open spec fn code_spec(&self) -> int {
        match self {
            BtimeError::Os { code, .. } => *code as int,
            _ => -1,
        }
    }

    /// The text of the error.
    pub open spec fn message_spec(&self) -> Seq<char> {
        match self {
            BtimeError::Usage => usage_message(),
            BtimeError::InvalidEncoding => encoding_message(),
            BtimeError::InvalidPath { path } => os_message(-1, path@),
            BtimeError::TimeOutOfRange { path } => os_message(-1, path@),
            BtimeError::Os { code, path } => os_message(*code as int, path@),
        }
    }

    /// The native error number the error carries, or -1 where it has none.
    pub fn code(&self) -> (r: i32)
        ensures
            r == self.code_spec(),
    {
        match self {
            BtimeError::Os { code, .. } => *code,
            _ => NO_ERROR_CODE,
        }
    }

    /// The text of the error.
    pub fn message(&self) -> (r: String)
        ensures
            r@ == self.message_spec(),
    {
        match self {
            BtimeError::Usage => String::from_str("bad arguments, expected: (buffer path, seconds btime)"),
            BtimeError::InvalidEncoding => String::from_str("Invalid UTF-8 in path"),
            BtimeError::InvalidPath { path } => failure_text(NO_ERROR_CODE, path.as_str()),
            BtimeError::TimeOutOfRange { path } => failure_text(NO_ERROR_CODE, path.as_str()),
            BtimeError::Os { code, path } => failure_text(*code, path.as_str()),
        }
    }
}

/// A one-character text holding the decimal digit `d`.
fn digit_text(d: u32) -> (r: &'static str)
    requires
        d < 10,
    ensures
        r@ == seq![digit_char(d as nat)],
{
    proof {
        reveal_strlit("0");
        reveal_strlit("1");
        reveal_strlit("2");
        reveal_strlit("3");
        reveal_strlit("4");
        reveal_strlit("5");
        reveal_strlit("6");
        reveal_strlit("7");
        reveal_strlit("8");
        reveal_strlit("9");
    }
    let r = match d {
        0 => "0",
        1 => "1",
        2 => "2",
        3 => "3",
        4 => "4",
        5 => "5",
        6 => "6",
        7 => "7",
        8 => "8",
        _ => "9",
    };
    assert(r@ =~= seq![digit_char(d as nat)]);
    r
}

/// Appends the decimal digits of `n` to `s`.
fn append_digits(s: &mut String, n: u32)
    ensures
        final(s)@ == old(s)@ + digits_of(n as nat),
    decreases n,
{
    if n >= 10 {
        append_digits(s, n / 10);
    }
    s.append(digit_text(n % 10));
    assert(final(s)@ =~= old(s)@ + digits_of(n as nat));
}

/// Decimal text of `i`.
pub fn decimal_text(i: i32) -> (r: String)
    ensures
        r@ == decimal_of(i as int),
{
    let mut s = String::new();
    if i < 0 {
        proof {
            reveal_strlit("-");
        }
        s.append("-");
        let magnitude = (0i64 - i as i64) as u32;
        append_digits(&mut s, magnitude);
        assert(s@ =~= decimal_of(i as int));
    } else {
        append_digits(&mut s, i as u32);
        assert(s@ =~= decimal_of(i as int));
    }
    s
}

/// The text `(<code>) utimes(<path>)`.
pub fn failure_text(code: i32, path: &str) -> (r: String)
    ensures
        r@ == os_message(code as int, path@),
{
    proof {
        reveal_strlit("(");
        reveal_strlit(") utimes(");
        reveal_strlit(")");
    }
    let mut s = String::new();
    s.append("(");
    let digits = decimal_text(code);
    s.append(digits.as_str());
    s.append(") utimes(");
    s.append(path);
    s.append(")");
    assert(s@ =~= os_message(code as int, path@));
    s
}

/// The text of a failure shows the error number, then the path, both
/// verbatim: it starts with `(`, the decimal error number and `) utimes(`,
/// and the path follows.
pub proof fn law_failure_text_names_path(code: int, path: Seq<char>)
    ensures
        os_message(code, path).subrange(1, 1 + decimal_of(code).len() as int) == decimal_of(code),
        os_message(code, path).subrange(
            10 + decimal_of(code).len() as int,
            10 + decimal_of(code).len() + path.len() as int,
        ) == path,
{
    let d = decimal_of(code);
    let m = os_message(code, path);
    let n = d.len() as int;
    assert(m.subrange(1, 1 + n) =~= d);
    assert(m.subrange(10 + n, 10 + n + path.len() as int) =~= path);
}

} // verus!

//! Decoding of the raw path buffer handed over by the host.

use vstd::prelude::*;
use vstd::utf8::*;

verus! {

/// Number of bytes before the first zero byte of `b` (all of `b` when it holds none).
pub open spec fn text_len(b: Seq<u8>) -> nat
    decreases b.len(),
{
    if b.len() == 0 || b[0] == 0 {
        0
    } else {
        1 + text_len(b.subrange(1, b.len() as int))
    }
}

/// The bytes of the buffer that carry the path: those before the first terminator.
pub open spec fn text_bytes(b: Seq<u8>) -> Seq<u8> {
    b.subrange(0, text_len(b) as int)
}

/// What the buffer decodes to: the text before the first terminator, when it is UTF-8.
pub open spec fn decoded_path(b: Seq<u8>) -> Option<Seq<char>> {
    if valid_utf8(text_bytes(b)) {
        Some(decode_utf8(text_bytes(b)))
    } else {
        None
    }
}

/// `n` is the position of the first zero byte of `b`, or its length.
pub open spec fn is_first_terminator(b: Seq<u8>, n: int) -> bool {
    &&& 0 <= n <= b.len()
    &&& forall|j: int| 0 <= j < n ==> b[j] != 0
    &&& (n == b.len() || b[n] == 0)
}

pub proof fn lemma_text_len_at_first_terminator(b: Seq<u8>, n: int)
    requires
        is_first_terminator(b, n),
    ensures
        text_len(b) == n,
    decreases n,
{
    if n > 0 {
        let tail = b.subrange(1, b.len() as int);
        assert(b[0] != 0);
        assert(is_first_terminator(tail, n - 1)) by {
            assert forall|j: int| 0 <= j < n - 1 implies tail[j] != 0 by {
                assert(tail[j] == b[j + 1]);
            }
        }
        lemma_text_len_at_first_terminator(tail, n - 1);
    }
}

/// The text length is the position of the first terminator.
pub proof fn lemma_text_len_is_first_terminator(b: Seq<u8>)
    ensures
        is_first_terminator(b, text_len(b) as int),
    decreases b.len(),
{
    if b.len() != 0 && b[0] != 0 {
        let tail = b.subrange(1, b.len() as int);
        lemma_text_len_is_first_terminator(tail);
        assert forall|j: int| 0 <= j < text_len(b) implies b[j] != 0 by {
            if j > 0 {
                assert(b[j] == tail[j - 1]);
            }
        }
    }
}

/// Decoding ignores what follows the terminator: a buffer holding the
/// UTF-8 encoding of `t`, then a zero byte, then any bytes at all, decodes
/// to `t`.
pub proof fn law_text_before_terminator(t: Seq<char>, rest: Seq<u8>)
    requires
        !encode_utf8(t).contains(0u8),
    ensures
        decoded_path(encode_utf8(t) + seq![0u8] + rest) == Some(t),
{
    let e = encode_utf8(t);
    let b = e + seq![0u8] + rest;
    assert forall|j: int| 0 <= j < e.len() implies b[j] != 0 by {
        assert(b[j] == e[j]);
    }
    assert(b[e.len() as int] == 0);
    lemma_text_len_at_first_terminator(b, e.len() as int);
    assert(text_bytes(b) =~= e);
    encode_utf8_valid_utf8(t);
    encode_utf8_decode_utf8(t);
}

/// A buffer with no terminator at all decodes as a whole.
pub proof fn law_unterminated_text(t: Seq<char>)
    requires
        !encode_utf8(t).contains(0u8),
    ensures
        decoded_path(encode_utf8(t)) == Some(t),
{
    let e = encode_utf8(t);
    assert forall|j: int| 0 <= j < e.len() implies e[j] != 0 by {
        if e[j] == 0 {
            assert(e.contains(0u8));
        }
    }
    lemma_text_len_at_first_terminator(e, e.len() as int);
    assert(text_bytes(e) =~= e);
    encode_utf8_valid_utf8(t);
    encode_utf8_decode_utf8(t);
}

/// Position of the first zero byte of `b`, or its length when it holds none.
pub fn terminator_index(b: &[u8]) -> (r: usize)
    ensures
        r == text_len(b@),
        is_first_terminator(b@, r as int),
{
    let mut i: usize = 0;
    while i < b.len() && b[i] != 0
        invariant
            i <= b@.len(),
            forall|j: int| 0 <= j < i ==> b@[j] != 0,
        decreases b@.len() - i,
    {
        i = i + 1;
    }
    proof {
        lemma_text_len_at_first_terminator(b@, i as int);
    }
    i
}

/// Relies on `std::str::from_utf8`: it accepts exactly the well-formed UTF-8
/// byte sequences, and the text it returns is made of those bytes.
#[verifier::external_body]
fn text_from_utf8(b: &[u8]) -> (r: Option<String>)
    ensures
        r is Some <==> valid_utf8(b@),
        r matches Some(s) ==> s@ == decode_utf8(b@),
{
    match std::str::from_utf8(b) {
        Ok(s) => Some(s.to_owned()),
        Err(_) => None,
    }
}

/// Decodes a path buffer: the bytes before the first zero byte (all of them
/// when there is none) as UTF-8. `None` when those bytes are not UTF-8.
pub fn decode_path(buf: &[u8]) -> (r: Option<String>)
    ensures
        r is Some <==> decoded_path(buf@) is Some,
        r matches Some(s) ==> decoded_path(buf@) == Some(s@),
{
    let n = terminator_index(buf);
    let text = &buf[0..n];
    assert(text@ == text_bytes(buf@));
    text_from_utf8(text)
}

} // verus!

//! Text marshalling: caller bytes in the shape of a C string become validated text.
//! Bytes that are not valid UTF-8 degrade to the empty text rather than an error.

use vstd::prelude::*;
use vstd::utf8::*;

verus! {

/// Number of bytes before the first NUL byte, or all of them when there is none.
pub open spec fn c_str_len(b: Seq<u8>) -> nat
    decreases b.len(),
{
    if b.len() == 0 || b[0] == 0 {
        0
    } else {
        1 + c_str_len(b.drop_first())
    }
}

/// The bytes of the C string held at the start of `b`, without its terminator.
pub open spec fn c_str_bytes(b: Seq<u8>) -> Seq<u8> {
    b.take(c_str_len(b) as int)
}

/// The text handed on for the bytes `b`: their C string decoded as UTF-8,
/// or the empty text when that C string is not valid UTF-8.
pub open spec fn marshalled(b: Seq<u8>) -> Seq<char> {
    let t = c_str_bytes(b);
    if valid_utf8(t) {
        decode_utf8(t)
    } else {
        Seq::empty()
    }
}

proof fn lemma_c_str_len(b: Seq<u8>, n: int)
    requires
        0 <= n <= b.len(),
        forall|j: int| 0 <= j < n ==> b[j] != 0,
        n == b.len() || b[n] == 0,
    ensures
        c_str_len(b) == n,
    decreases n,
{
    if n > 0 {
        lemma_c_str_len(b.drop_first(), n - 1);
    }
}

/// Relies on std::str::from_utf8: it succeeds exactly on valid UTF-8, and the
/// text it gives holds those bytes.
#[verifier::external_body]
fn utf8_text(b: &[u8]) -> (r: Option<String>)
    ensures
        r is Some <==> valid_utf8(b@),
        r matches Some(s) ==> s@ == decode_utf8(b@),
{
    std::str::from_utf8(b).ok().map(|s| s.to_string())
}

/// Copies the C string at the start of `b`: the bytes before the first NUL.
pub fn c_str_prefix(b: &[u8]) -> (r: Vec<u8>)
    ensures
        r@ == c_str_bytes(b@),
{
    let mut r: Vec<u8> = Vec::new();
    let mut i: usize = 0;
    while i < b.len() && b[i] != 0
        invariant
            0 <= i <= b.len(),
            r@ == b@.take(i as int),
            forall|j: int| 0 <= j < i ==> b@[j] != 0,
        decreases b.len() - i,
    {
        r.push(b[i]);
        i += 1;
        assert(r@ =~= b@.take(i as int));
    }
    proof {
        lemma_c_str_len(b@, i as int);
    }
    r
}

/// Turns caller bytes into text: the C string at their start, decoded as UTF-8,
/// or the empty text when it is not valid UTF-8.
pub fn text_from_c_bytes(b: &[u8]) -> (r: String)
    ensures
        r@ == marshalled(b@),
{
    let bytes = c_str_prefix(b);
    match utf8_text(bytes.as_slice()) {
        Some(s) => s,
        None => String::new(),
    }
}

} // verus!

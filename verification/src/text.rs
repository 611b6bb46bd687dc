use vstd::prelude::*;
use vstd::string::StringSliceAdditionalSpecFns;
use vstd::utf8::{valid_utf8, decode_utf8, decode_utf8_encode_utf8};

verus! {

/// `n` is where the C string held in `buf` ends: no NUL byte comes before
/// it, and it is either the first NUL byte or the end of the buffer.
pub open spec fn is_c_text_end(buf: Seq<u8>, n: int) -> bool {
    &&& 0 <= n <= buf.len()
    &&& forall|j: int| 0 <= j < n ==> buf[j] != 0
    &&& (n == buf.len() || buf[n] == 0)
}

/// Where the C string held in `buf` ends.
pub open spec fn c_text_len(buf: Seq<u8>) -> int {
    choose|n: int| is_c_text_end(buf, n)
}

/// The bytes of the C string held in `buf`: those before the first NUL byte,
/// or all of them where there is none.
pub open spec fn c_text_bytes(buf: Seq<u8>) -> Seq<u8> {
    buf.subrange(0, c_text_len(buf))
}

/// The end of a C string is unique, so `c_text_len` names it.
pub proof fn lemma_c_text_len(buf: Seq<u8>, n: int)
    requires
        is_c_text_end(buf, n),
    ensures
        c_text_len(buf) == n,
{
    let m = c_text_len(buf);
    assert(is_c_text_end(buf, m));
    if m < n {
        assert(buf[m] != 0);
    } else if n < m {
        assert(buf[n] != 0);
    }
}

/// The C string in a buffer is exactly the bytes before its first NUL byte,
/// or the whole buffer where it has none.
pub proof fn lemma_c_text_bytes_before_first_nul(buf: Seq<u8>, n: int)
    requires
        0 <= n <= buf.len(),
        forall|j: int| 0 <= j < n ==> buf[j] != 0,
        n == buf.len() || buf[n] == 0,
    ensures
        c_text_bytes(buf) == buf.subrange(0, n),
        c_text_bytes(buf).len() == n,
        forall|j: int| 0 <= j < n ==> #[trigger] c_text_bytes(buf)[j] == buf[j],
{
    lemma_c_text_len(buf, n);
}

/// Decodes `bytes` as UTF-8, by `std::str::from_utf8`.
///
/// Trusted: std documents that `from_utf8` succeeds exactly when the bytes
/// are valid UTF-8 and then returns a string slice made of those very bytes.
#[verifier::external_body]
fn utf8_str(bytes: &[u8]) -> (res: Option<&str>)
    ensures
        res is Some <==> valid_utf8(bytes@),
        res is Some ==> res->0.spec_bytes() == bytes@,
{
    match std::str::from_utf8(bytes) {
        Ok(s) => Some(s),
        Err(_) => None,
    }
}

/// The text of the C string held in `buf`, or `None` where its bytes are not
/// valid UTF-8.
pub fn c_text(buf: &[u8]) -> (res: Option<String>)
    ensures
        res is Some <==> valid_utf8(c_text_bytes(buf@)),
        res is Some ==> res->0@ == decode_utf8(c_text_bytes(buf@)),
{
    let mut n: usize = 0;
    while n < buf.len() && buf[n] != 0
        invariant
            n <= buf@.len(),
            forall|j: int| 0 <= j < n ==> buf@[j] != 0,
        decreases buf@.len() - n,
    {
        n = n + 1;
    }
    proof {
        lemma_c_text_len(buf@, n as int);
    }
    let prefix = &buf[0..n];
    match utf8_str(prefix) {
        Some(s) => {
            proof {
                decode_utf8_encode_utf8(prefix@);
                vstd::utf8::encode_utf8_decode_utf8(s@);
            }
            Some(s.to_owned())
        },
        None => None,
    }
}

/// The text of the C string held in `buf`, or `fallback` where its bytes are
/// not valid UTF-8.
pub open spec fn c_text_or(buf: Seq<u8>, fallback: Seq<char>) -> Seq<char> {
    if valid_utf8(c_text_bytes(buf)) {
        decode_utf8(c_text_bytes(buf))
    } else {
        fallback
    }
}

/// Decodes the C string held in `buf`, falling back to `fallback`.
pub fn c_text_with_fallback(buf: &[u8], fallback: &str) -> (res: String)
    ensures
        res@ == c_text_or(buf@, fallback@),
{
    match c_text(buf) {
        Some(s) => s,
        None => fallback.to_owned(),
    }
}

} // verus!

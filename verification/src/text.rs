//! Primitive converters between nul-terminated C string buffers and owned
//! text.
//!
//! A C string buffer is a byte sequence whose payload ends at the first nul
//! byte. Decoding reads the payload and repairs invalid UTF-8 losslessly by
//! substitution; encoding refuses text whose UTF-8 encoding holds an embedded
//! nul, since the buffer format cannot carry it, and appends the terminator.

use vstd::prelude::*;
use vstd::slice::{slice_index_get, slice_to_vec};
use vstd::slice::slice_subrange;
use vstd::utf8::{decode_utf8, encode_utf8, valid_utf8};
use vstd::utf8::{encode_utf8_decode_utf8, encode_utf8_valid_utf8};

verus! {

/// What `String::from_utf8_lossy` returns for a byte sequence: a function of
/// the bytes alone.
pub uninterp spec fn lossy_decode(b: Seq<u8>) -> Seq<char>;

/// Relies on `String::from_utf8_lossy`: the result depends on the bytes
/// alone, invalid sequences are repaired by substitution, and bytes that are
/// valid UTF-8 decode to exactly the characters that encoded them.
#[verifier::external_body]
fn from_utf8_lossy(b: &[u8]) -> (r: String)
    ensures
        r@ == lossy_decode(b@),
        valid_utf8(b@) ==> r@ == decode_utf8(b@),
{
    String::from_utf8_lossy(b).into_owned()
}

/// Index of the first nul byte in `b`, or `b.len()` when none occurs.
pub open spec fn first_nul(b: Seq<u8>) -> int
    decreases b.len(),
{
    if b.len() == 0 {
        0
    } else if b[0] == 0 {
        0
    } else {
        1 + first_nul(b.drop_first())
    }
}

/// The payload of a C string buffer: the bytes before its first nul.
pub open spec fn payload_of(b: Seq<u8>) -> Seq<u8> {
    b.take(first_nul(b))
}

/// The text a C string buffer carries: its payload decoded as UTF-8, with
/// invalid sequences repaired by substitution.
pub open spec fn buffer_text(b: Seq<u8>) -> Seq<char> {
    if valid_utf8(payload_of(b)) {
        decode_utf8(payload_of(b))
    } else {
        lossy_decode(payload_of(b))
    }
}

/// Whether the byte sequence holds a nul byte anywhere.
pub open spec fn has_nul(b: Seq<u8>) -> bool {
    exists|i: int| 0 <= i < b.len() && b[i] == 0
}

/// The nul-terminated buffer that carries the text `s` across the boundary,
/// or nothing when the UTF-8 encoding of `s` holds an embedded nul byte.
pub open spec fn c_buffer_of(s: Seq<char>) -> Option<Seq<u8>> {
    if has_nul(encode_utf8(s)) {
        None
    } else {
        Some(encode_utf8(s).push(0))
    }
}

/// The text of an optional C string input, or the given default when the
/// input is absent.
pub open spec fn text_or_default(b: Option<Vec<u8>>, d: Seq<char>) -> Seq<char> {
    match b {
        Some(v) => buffer_text(v@),
        None => d,
    }
}

/// The text of an optional C string input.
pub open spec fn opt_text(b: Option<Vec<u8>>) -> Option<Seq<char>> {
    match b {
        Some(v) => Some(buffer_text(v@)),
        None => None,
    }
}

/// Holds when the optional string `v` carries exactly the optional text `t`.
pub open spec fn opt_string_is(v: Option<String>, t: Option<Seq<char>>) -> bool {
    match v {
        None => t is None,
        Some(s) => t matches Some(x) && s@ == x,
    }
}

/// The first nul of a buffer stands exactly where a scan from the front stops:
/// at the first index holding a zero byte, or at the end.
proof fn lemma_first_nul_at(b: Seq<u8>, i: int)
    requires
        0 <= i <= b.len(),
        forall|j: int| 0 <= j < i ==> b[j] != 0,
        i < b.len() ==> b[i] == 0,
    ensures
        first_nul(b) == i,
    decreases b.len(),
{
    if b.len() == 0 {
    } else if i == 0 {
    } else {
        let t = b.drop_first();
        assert forall|j: int| 0 <= j < i - 1 implies t[j] != 0 by {
            assert(t[j] == b[j + 1]);
        }
        assert(i - 1 < t.len() ==> t[i - 1] == b[i]);
        lemma_first_nul_at(t, i - 1);
    }
}

/// Round trip: for any text whose UTF-8 encoding holds no nul byte, encoding
/// it into a C string buffer and decoding that buffer yields the text
/// exactly.
pub proof fn lemma_text_round_trip(s: Seq<char>)
    requires
        c_buffer_of(s) is Some,
    ensures
        buffer_text(c_buffer_of(s)->Some_0) == s,
{
    let p = encode_utf8(s);
    let b = p.push(0);
    assert forall|j: int| 0 <= j < p.len() implies b[j] != 0 by {
        assert(b[j] == p[j]);
        assert(!(exists|i: int| 0 <= i < p.len() && p[i] == 0));
    }
    lemma_first_nul_at(b, p.len() as int);
    assert(payload_of(b) =~= p);
    encode_utf8_valid_utf8(s);
    encode_utf8_decode_utf8(s);
}

/// Decodes the text carried by a C string buffer: the bytes before the first
/// nul (the whole buffer when it holds none), decoded as UTF-8 with invalid
/// sequences repaired by substitution. Never fails, whatever the bytes hold.
pub fn c_bytes_to_string(b: &[u8]) -> (r: String)
    ensures
        r@ == buffer_text(b@),
{
    let n = b.len();
    let mut i: usize = 0;
    while i < n && *slice_index_get(b, i) != 0
        invariant
            n == b@.len(),
            0 <= i <= n,
            forall|j: int| 0 <= j < i ==> b@[j] != 0,
        decreases n - i,
    {
        i = i + 1;
    }
    proof {
        lemma_first_nul_at(b@, i as int);
    }
    let payload = slice_subrange(b, 0, i);
    assert(payload@ == payload_of(b@));
    from_utf8_lossy(payload)
}

/// Encodes text into a fresh nul-terminated C string buffer. Returns nothing
/// exactly when the UTF-8 encoding of the text holds an embedded nul byte; a
/// returned buffer decodes back to the original text.
pub fn string_to_c_bytes(s: &str) -> (r: Option<Vec<u8>>)
    ensures
        r is Some <==> c_buffer_of(s@) is Some,
        r matches Some(v) ==> Some(v@) == c_buffer_of(s@),
        r matches Some(v) ==> buffer_text(v@) == s@,
{
    let bytes = s.as_bytes();
    let n = bytes.len();
    let mut i: usize = 0;
    while i < n
        invariant
            n == bytes@.len(),
            0 <= i <= n,
            bytes@ == encode_utf8(s@),
            forall|j: int| 0 <= j < i ==> bytes@[j] != 0,
        decreases n - i,
    {
        if *slice_index_get(bytes, i) == 0 {
            assert(has_nul(encode_utf8(s@)));
            return None;
        }
        i = i + 1;
    }
    assert(!has_nul(encode_utf8(s@)));
    let mut v = slice_to_vec(bytes);
    v.push(0);
    proof {
        lemma_text_round_trip(s@);
    }
    Some(v)
}

} // verus!

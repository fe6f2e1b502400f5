//! Byte strings: comparison, search, and the step from bytes to text.
use vstd::prelude::*;
use vstd::slice::slice_subrange;
use vstd::string::*;
use vstd::utf8::*;

verus! {

/// The byte that separates the parts of a request line or status line.
pub const SPACE: u8 = 0x20;

/// The byte every request target begins with.
pub const SLASH: u8 = 0x2f;

/// The head of `received`: all of it, or its first `limit` bytes where
/// it is longer.
pub open spec fn head(received: Seq<u8>, limit: int) -> Seq<u8> {
    if received.len() <= limit {
        received
    } else {
        received.subrange(0, limit)
    }
}

/// Whether `pattern` stands in `bytes` at offset `from`.
pub open spec fn has_at(bytes: Seq<u8>, from: int, pattern: Seq<u8>) -> bool {
    &&& 0 <= from
    &&& from + pattern.len() <= bytes.len()
    &&& bytes.subrange(from, from + pattern.len()) == pattern
}

/// The least index at or after `from` at which `byte` stands in `bytes`,
/// or the length of `bytes` where it stands nowhere from there on.
pub open spec fn first_index(bytes: Seq<u8>, from: int, byte: u8) -> int
    decreases bytes.len() - from,
{
    if from < 0 || from >= bytes.len() {
        bytes.len() as int
    } else if bytes[from] == byte {
        from
    } else {
        first_index(bytes, from + 1, byte)
    }
}

/// `first_index` is the one index that holds `byte` (or is the end) with
/// no `byte` between `from` and it.
pub proof fn lemma_first_index(bytes: Seq<u8>, from: int, byte: u8, index: int)
    requires
        0 <= from <= index <= bytes.len(),
        index < bytes.len() ==> bytes[index] == byte,
        forall|k: int| from <= k < index ==> bytes[k] != byte,
    ensures
        first_index(bytes, from, byte) == index,
    decreases index - from,
{
    if from < index {
        lemma_first_index(bytes, from + 1, byte, index);
    }
}

/// What `first_index` finds: nothing before it, and `byte` at it unless it is the end.
pub proof fn lemma_first_index_found(bytes: Seq<u8>, from: int, byte: u8)
    requires
        0 <= from <= bytes.len(),
    ensures
        from <= first_index(bytes, from, byte) <= bytes.len(),
        first_index(bytes, from, byte) < bytes.len() ==> bytes[first_index(bytes, from, byte)]
            == byte,
        forall|k: int| from <= k < first_index(bytes, from, byte) ==> bytes[k] != byte,
    decreases bytes.len() - from,
{
    if from < bytes.len() && bytes[from] != byte {
        lemma_first_index_found(bytes, from + 1, byte);
    }
}

/// UTF-8 encodes a concatenation part by part.
pub proof fn lemma_encode_concat(a: Seq<char>, b: Seq<char>)
    ensures
        encode_utf8(a + b) == encode_utf8(a) + encode_utf8(b),
    decreases a.len(),
{
    if a.len() == 0 {
        assert(a + b =~= b);
        assert(encode_utf8(a) + encode_utf8(b) =~= encode_utf8(b));
    } else {
        lemma_encode_concat(a.drop_first(), b);
        assert((a + b).drop_first() =~= a.drop_first() + b);
        assert(encode_utf8(a + b) =~= encode_utf8(a) + encode_utf8(b));
    }
}

/// The UTF-8 encoding of ASCII text holds its characters, one byte each.
pub proof fn lemma_ascii_bytes(chars: Seq<char>)
    requires
        is_ascii_chars(chars),
    ensures
        encode_utf8(chars) =~= Seq::new(chars.len(), |i: int| chars[i] as u8),
{
    is_ascii_chars_encode_utf8(chars);
}

/// The head of `received`: all of it, or its first `limit` bytes where
/// it is longer.
pub fn take_head(received: &[u8], limit: usize) -> (r: &[u8])
    ensures
        r@ == head(received@, limit as int),
{
    if received.len() <= limit {
        received
    } else {
        slice_subrange(received, 0, limit)
    }
}

/// Whether two byte strings are the same.
pub fn bytes_equal(a: &[u8], b: &[u8]) -> (r: bool)
    ensures
        r == (a@ == b@),
{
    if a.len() != b.len() {
        return false;
    }
    let mut i: usize = 0;
    while i < a.len()
        invariant
            a.len() == b.len(),
            i <= a.len(),
            forall|k: int| 0 <= k < i ==> a@[k] == b@[k],
        decreases a.len() - i,
    {
        if a[i] != b[i] {
            assert(a@[i as int] != b@[i as int]);
            return false;
        }
        i += 1;
    }
    assert(a@ =~= b@);
    true
}

/// Whether `pattern` stands in `bytes` at offset `from`.
pub fn starts_at(bytes: &[u8], from: usize, pattern: &[u8]) -> (r: bool)
    ensures
        r == has_at(bytes@, from as int, pattern@),
{
    if from > bytes.len() || pattern.len() > bytes.len() - from {
        return false;
    }
    bytes_equal(slice_subrange(bytes, from, from + pattern.len()), pattern)
}

/// The first index at or after `from` at which `byte` stands, if any.
pub fn position(bytes: &[u8], from: usize, byte: u8) -> (r: Option<usize>)
    ensures
        (match r {
            Some(index) => index == first_index(bytes@, from as int, byte) && from <= index
                < bytes.len(),
            None => first_index(bytes@, from as int, byte) == bytes.len(),
        }),
{
    if from > bytes.len() {
        return None;
    }
    let mut i: usize = from;
    while i < bytes.len()
        invariant
            from <= i <= bytes.len(),
            forall|k: int| from <= k < i ==> bytes@[k] != byte,
        decreases bytes.len() - i,
    {
        if bytes[i] == byte {
            proof {
                lemma_first_index(bytes@, from as int, byte, i as int);
            }
            return Some(i);
        }
        i += 1;
    }
    proof {
        lemma_first_index(bytes@, from as int, byte, i as int);
    }
    None
}

/// The fault that `core::str::from_utf8` reports for bytes that are not
/// UTF-8. Nothing is claimed of what it holds.
#[verifier::external_type_specification]
#[verifier::external_body]
pub struct ExUtf8Error(core::str::Utf8Error);

/// Reads `bytes` as UTF-8 text, by `core::str::from_utf8`: the text comes
/// back exactly when the bytes are well-formed UTF-8, and it is then made
/// of those same bytes.
#[verifier::external_body]
pub(crate) fn from_utf8(bytes: &[u8]) -> (r: Result<&str, core::str::Utf8Error>)
    ensures
        r is Ok <==> valid_utf8(bytes@),
        r matches Ok(text) ==> text.spec_bytes() == bytes@,
{
    core::str::from_utf8(bytes)
}

} // verus!

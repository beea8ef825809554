//! Null-terminated text as it crosses the boundary: UTF-8 bytes with no NUL
//! among them, followed by a single NUL terminator.
use vstd::prelude::*;
use vstd::utf8::*;

verus! {

/// `s` is a null-terminated text: a well-formed UTF-8 body without NUL bytes,
/// then exactly one terminating NUL.
pub open spec fn is_c_text(s: Seq<u8>) -> bool {
    &&& s.len() > 0
    &&& s.last() == 0
    &&& forall|i: int| 0 <= i < s.len() - 1 ==> s[i] != 0
    &&& valid_utf8(s.drop_last())
}

/// The acknowledgment that a successful text call carries:
/// "Processed string" followed by NUL.
pub open spec fn acknowledgment() -> Seq<u8> {
    seq![80u8, 114, 111, 99, 101, 115, 115, 101, 100, 32, 115, 116, 114, 105, 110, 103, 0]
}

/// The library's version, "1.0.0" followed by NUL.
pub open spec fn version_text() -> Seq<u8> {
    seq![49u8, 46, 48, 46, 48, 0]
}

/// A NUL-terminated byte sequence whose body is printable ASCII is a
/// null-terminated text.
proof fn lemma_ascii_is_c_text(s: Seq<u8>)
    requires
        s.len() > 0,
        s.last() == 0,
        forall|i: int| 0 <= i < s.len() - 1 ==> 0x20 <= #[trigger] s[i] < 0x7f,
    ensures
        is_c_text(s),
{
    let body = s.drop_last();
    assert(forall|i: int| 0 <= i < body.len() ==> #[trigger] body[i] == s[i]);
    assert(body.subrange(0, 0) =~= Seq::<u8>::empty());
    partial_valid_utf8_extend_ascii_block(body, 0, body.len() as int);
    assert(body.subrange(0, body.len() as int) =~= body);
}

/// The acknowledgment text is a well-formed null-terminated text.
pub proof fn lemma_acknowledgment_is_c_text()
    ensures
        is_c_text(acknowledgment()),
{
    lemma_ascii_is_c_text(acknowledgment());
}

/// The version text is a well-formed, non-empty null-terminated text.
pub proof fn lemma_version_is_c_text()
    ensures
        is_c_text(version_text()),
        version_text().len() > 1,
{
    lemma_ascii_is_c_text(version_text());
}

/// The acknowledgment text as bytes, terminator included.
pub fn acknowledgment_bytes() -> (r: Vec<u8>)
    ensures
        r@ == acknowledgment(),
{
    let r: Vec<u8> = vec![80u8, 114, 111, 99, 101, 115, 115, 101, 100, 32, 115, 116, 114, 105, 110, 103, 0];
    assert(r@ =~= acknowledgment());
    r
}

/// Relies on `std::str::from_utf8`: it returns `Ok` exactly when the bytes
/// are well-formed UTF-8.
#[verifier::external_body]
pub(crate) fn is_utf8(bytes: &[u8]) -> (r: bool)
    ensures
        r == valid_utf8(bytes@),
{
    std::str::from_utf8(bytes).is_ok()
}

} // verus!

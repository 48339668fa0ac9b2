//! Framing of the JSON envelopes that the service answers with.
//!
//! Numbers and strings are encoded by `serde_json`; this module puts the
//! encoded values between the braces, keys and commas of an object.
use vstd::prelude::*;
use vstd::string::StringSliceAdditionalSpecFns;

verus! {

/// One member of an object: the quoted key, a colon and the encoded value.
pub open spec fn member_text(key: Seq<u8>, value: Seq<u8>) -> Seq<u8> {
    seq![0x22u8] + key + seq![0x22u8, 0x3au8] + value
}

/// The text of an object with one member.
pub open spec fn object_text(key: Seq<u8>, value: Seq<u8>) -> Seq<u8> {
    seq![0x7bu8] + member_text(key, value) + seq![0x7du8]
}

/// The text of an object with two members, in the order given.
pub open spec fn object_text2(
    key1: Seq<u8>,
    value1: Seq<u8>,
    key2: Seq<u8>,
    value2: Seq<u8>,
) -> Seq<u8> {
    seq![0x7bu8] + member_text(key1, value1) + seq![0x2cu8] + member_text(key2, value2)
        + seq![0x7du8]
}

/// The JSON literal `null`.
pub open spec fn null_text() -> Seq<u8> {
    seq![0x6eu8, 0x75u8, 0x6cu8, 0x6cu8]
}

/// Appends a copy of `bytes` to `out`.
pub fn append_bytes(out: &mut Vec<u8>, bytes: &[u8])
    ensures
        final(out)@ == old(out)@ + bytes@,
{
    let mut i: usize = 0;
    while i < bytes.len()
        invariant
            i <= bytes@.len(),
            out@ == old(out)@ + bytes@.take(i as int),
        decreases bytes@.len() - i,
    {
        out.push(bytes[i]);
        i += 1;
        assert(bytes@.take(i as int) == bytes@.take(i - 1).push(bytes@[i - 1]));
    }
    assert(bytes@.take(i as int) == bytes@);
}

/// Appends one member to `out`. The key is written between quotes as it
/// stands, so it has to be free of characters that JSON escapes.
fn append_member(out: &mut Vec<u8>, key: &str, value: &[u8])
    ensures
        final(out)@ == old(out)@ + member_text(key.spec_bytes(), value@),
{
    out.push(0x22u8);
    append_bytes(out, key.as_bytes());
    out.push(0x22u8);
    out.push(0x3au8);
    append_bytes(out, value);
    assert(out@ == old(out)@ + member_text(key.spec_bytes(), value@));
}

/// Writes the object `{"key":value}`, where `value` is JSON text already and
/// the key is written between quotes as it stands.
pub fn write_object(key: &str, value: &[u8]) -> (text: Vec<u8>)
    ensures
        text@ == object_text(key.spec_bytes(), value@),
{
    let mut out: Vec<u8> = Vec::new();
    out.push(0x7bu8);
    append_member(&mut out, key, value);
    out.push(0x7du8);
    assert(out@ == object_text(key.spec_bytes(), value@));
    out
}

/// Writes the object `{"key1":value1,"key2":value2}`, where both values are
/// JSON text already and the keys are written between quotes as they stand.
pub fn write_object2(key1: &str, value1: &[u8], key2: &str, value2: &[u8]) -> (text: Vec<u8>)
    ensures
        text@ == object_text2(key1.spec_bytes(), value1@, key2.spec_bytes(), value2@),
{
    let mut out: Vec<u8> = Vec::new();
    out.push(0x7bu8);
    append_member(&mut out, key1, value1);
    out.push(0x2cu8);
    append_member(&mut out, key2, value2);
    out.push(0x7du8);
    assert(out@ == object_text2(key1.spec_bytes(), value1@, key2.spec_bytes(), value2@));
    out
}

/// Writes the JSON literal `null`.
pub fn write_null() -> (text: Vec<u8>)
    ensures
        text@ == null_text(),
{
    let mut out: Vec<u8> = Vec::new();
    out.push(0x6eu8);
    out.push(0x75u8);
    out.push(0x6cu8);
    out.push(0x6cu8);
    assert(out@ == null_text());
    out
}

} // verus!

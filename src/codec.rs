use vstd::prelude::*;

verus! {

/// bincode's error kind, carried opaquely out of bincode::serialize and
/// bincode::deserialize; nothing is assumed of its contents.
#[verifier::external_type_specification]
#[verifier::external_body]
pub struct ExBincodeErrorKind(bincode::ErrorKind);

/// The four little-endian bytes of `v`.
pub open spec fn le_bytes_u32(v: u32) -> Seq<u8> {
    seq![
        (v % 0x100) as u8,
        ((v / 0x100) % 0x100) as u8,
        ((v / 0x1_0000) % 0x100) as u8,
        (v / 0x100_0000) as u8,
    ]
}

/// The value of four little-endian bytes.
pub open spec fn le_value_u32(b0: u8, b1: u8, b2: u8, b3: u8) -> u32 {
    (b0 + 0x100 * b1 + 0x1_0000 * b2 + 0x100_0000 * b3) as u32
}

/// What a blob decodes to: the value of its first four bytes, if it has four.
/// Bytes after the fourth are ignored.
pub open spec fn decode_u32_spec(b: Seq<u8>) -> Option<u32> {
    if b.len() >= 4 {
        Some(le_value_u32(b[0], b[1], b[2], b[3]))
    } else {
        None
    }
}

/// Decoding the encoding of a value gives the value back.
pub proof fn lemma_decode_encode_u32(v: u32)
    ensures
        decode_u32_spec(le_bytes_u32(v)) == Some(v),
{
    assert((v % 0x100) + 0x100 * ((v / 0x100) % 0x100) + 0x1_0000 * ((v / 0x1_0000) % 0x100)
        + 0x100_0000 * (v / 0x100_0000) == v) by (bit_vector);
}

/// Relies on bincode::serialize (fixed-width little-endian integers under
/// the crate's default functions, no size limit, written into a `Vec`): a
/// `u32` always serializes, to its four bytes.
#[verifier::external_body]
pub(crate) fn bincode_encode_u32(v: u32) -> (r: Result<Vec<u8>, bincode::Error>)
    ensures
        r is Ok,
        r is Ok ==> r->Ok_0@ == le_bytes_u32(v),
{
    bincode::serialize(&v)
}

/// Relies on bincode::deserialize (fixed-width little-endian integers,
/// trailing bytes allowed): a `u32` is read from the first four bytes, and
/// a shorter input is an unexpected end of input.
#[verifier::external_body]
pub(crate) fn bincode_decode_u32(b: &[u8]) -> (r: Result<u32, bincode::Error>)
    ensures
        r is Ok <==> decode_u32_spec(b@) is Some,
        r is Ok ==> Some(r->Ok_0) == decode_u32_spec(b@),
{
    bincode::deserialize::<u32>(b)
}

} // verus!

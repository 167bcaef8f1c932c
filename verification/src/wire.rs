use byteorder::ReadBytesExt;
use byteorder::WriteBytesExt;
use vstd::prelude::*;

verus! {

/// `std::io::Error`, the error of the two calls below. It is carried
/// through as it comes; nothing is claimed of what it holds.
#[verifier::external_type_specification]
#[verifier::external_body]
pub struct ExIoError(std::io::Error);

/// Takes one byte off the front of a slice, by `byteorder`'s
/// `ReadBytesExt::read_u8`, which fills a one-byte buffer with
/// `Read::read_exact`. A slice reads by copying from its front and then
/// stands for what is left unread. So a slice that holds a byte gives its
/// first one and loses it; an empty one gives the error of a reader at its
/// end, and stays empty.
#[verifier::external_body]
pub(crate) fn read_u8(reader: &mut &[u8]) -> (r: Result<u8, std::io::Error>)
    ensures
        r is Ok <==> old(reader)@.len() > 0,
        r matches Ok(byte) ==> byte == old(reader)@[0] && final(reader)@ == old(reader)@.skip(1),
        r is Err ==> final(reader)@.len() == 0,
{
    reader.read_u8()
}

/// Appends one byte to a vector, by `byteorder`'s
/// `WriteBytesExt::write_u8`, which hands the byte to `Write::write_all`. A
/// vector takes a write by appending it and grows as it needs to, so the call
/// returns `Ok` with the byte at the vector's end.
#[verifier::external_body]
pub(crate) fn write_u8(writer: &mut Vec<u8>, n: u8) -> (r: Result<(), std::io::Error>)
    ensures
        r is Ok,
        final(writer)@ == old(writer)@.push(n),
{
    writer.write_u8(n)
}

} // verus!

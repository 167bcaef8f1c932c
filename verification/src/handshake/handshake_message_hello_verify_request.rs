use vstd::prelude::*;

use crate::errors::Error;
use crate::handshake::HandshakeType;
use crate::protocol_version::ProtocolVersion;
use crate::wire::read_u8;
use crate::wire::write_u8;

verus! {

/// The message by which a server answers a first `ClientHello` without
/// keeping state: the client has to send its hello again, with the cookie.
///
/// ```text
/// struct {
///   ProtocolVersion server_version;
///   opaque cookie<0..2^8-1>;
/// } HelloVerifyRequest;
/// ```
///
/// <https://tools.ietf.org/html/rfc6347#section-4.2.1>
#[derive(Clone, Debug, PartialEq, Eq)]
pub struct HandshakeMessageHelloVerifyRequest {
    pub version: ProtocolVersion,
    pub cookie: Vec<u8>,
}

/// How the length byte of a message is held against the cookie that follows
/// it.
#[derive(Clone, Copy, Debug, PartialEq, Eq, Structural)]
pub enum ValidationMode {
    /// The length byte is a lower bound: whatever follows the header is the
    /// cookie, so long as it is no shorter than declared. Deployed peers read
    /// this way.
    Lenient,
    /// The length byte is exact: a message with bytes past the declared
    /// cookie is refused too.
    Strict,
}

/// A `HelloVerifyRequest` as a mathematical value.
pub struct HelloVerifyRequest {
    pub version: ProtocolVersion,
    pub cookie: Seq<u8>,
}

impl View for HandshakeMessageHelloVerifyRequest {
    type V = HelloVerifyRequest;

    open spec fn view(&self) -> HelloVerifyRequest {
        HelloVerifyRequest { version: self.version, cookie: self.cookie@ }
    }
}

impl HelloVerifyRequest {
    /// Whether one byte can count the cookie, as the wire format asks.
    pub open spec fn well_formed(self) -> bool {
        self.cookie.len() <= 255
    }

    /// The bytes of the message: the version, one byte that counts the
    /// cookie, the cookie.
    pub open spec fn wire_bytes(self) -> Seq<u8>
        recommends
            self.well_formed(),
    {
        seq![self.version.major, self.version.minor, self.cookie.len() as u8] + self.cookie
    }

    /// What marshalling answers: the bytes of the message, unless the cookie
    /// is longer than one byte can count.
    pub open spec fn marshalled(self) -> Result<Seq<u8>, Error> {
        if self.well_formed() {
            Ok(self.wire_bytes())
        } else {
            Err(Error::CookieTooLong)
        }
    }

    /// What unmarshalling answers on the bytes of one message. The cookie is
    /// all that follows the three header bytes. A cookie shorter than the
    /// header counts is an error; a longer one is taken whole by the lenient
    /// rule and is an error by the strict one.
    pub open spec fn unmarshalled_with(bytes: Seq<u8>, mode: ValidationMode) -> Result<
        HelloVerifyRequest,
        Error,
    > {
        if bytes.len() < 3 {
            Err(Error::Io)
        } else if bytes.len() - 3 < bytes[2] {
            Err(Error::BufferTooSmall)
        } else if mode == ValidationMode::Strict && bytes.len() - 3 > bytes[2] {
            Err(Error::TrailingBytes)
        } else {
            Ok(
                HelloVerifyRequest {
                    version: ProtocolVersion { major: bytes[0], minor: bytes[1] },
                    cookie: bytes.skip(3),
                },
            )
        }
    }

    /// What unmarshalling answers by the lenient rule.
    pub open spec fn unmarshalled(bytes: Seq<u8>) -> Result<HelloVerifyRequest, Error> {
        Self::unmarshalled_with(bytes, ValidationMode::Lenient)
    }
}

impl HandshakeMessageHelloVerifyRequest {
    /// The kind of this message.
    pub fn handshake_type() -> (t: HandshakeType)
        ensures
            t == HandshakeType::HelloVerifyRequest,
    {
        HandshakeType::HelloVerifyRequest
    }

    /// Appends the bytes of the message to `writer`. A cookie of more than
    /// 255 bytes is refused, and nothing is written then.
    pub fn marshal(&self, writer: &mut Vec<u8>) -> (r: Result<(), Error>)
        ensures
            self@.marshalled() matches Ok(bytes) ==> r is Ok && final(writer)@ == old(writer)@
                + bytes,
            self@.marshalled() matches Err(e) ==> r == Err::<(), Error>(e) && final(writer)@ == old(
                writer,
            )@,
    {
        if self.cookie.len() > 255 {
            return Err(Error::CookieTooLong);
        }
        if let Err(e) = write_u8(writer, self.version.major) {
            return Err(Error::from(e));
        }
        if let Err(e) = write_u8(writer, self.version.minor) {
            return Err(Error::from(e));
        }
        if let Err(e) = write_u8(writer, self.cookie.len() as u8) {
            return Err(Error::from(e));
        }
        write_all(writer, self.cookie.as_slice());
        Ok(())
    }

    /// Reads a message from `reader`, which holds the bytes of one message
    /// and no more, and leaves it empty. The length byte is a lower bound
    /// on the cookie: see `ValidationMode::Lenient`.
    pub fn unmarshal(reader: &mut &[u8]) -> (r: Result<Self, Error>)
        ensures
            HelloVerifyRequest::unmarshalled(old(reader)@) matches Ok(message) ==> (r matches Ok(m)
                && m@ == message),
            HelloVerifyRequest::unmarshalled(old(reader)@) matches Err(e) ==> r == Err::<
                Self,
                Error,
            >(e),
            final(reader)@.len() == 0,
    {
        Self::unmarshal_with(reader, ValidationMode::Lenient)
    }

    /// Reads a message from `reader` as `unmarshal` does, holding the
    /// length byte against the cookie by the rule that `mode` names.
    pub fn unmarshal_with(reader: &mut &[u8], mode: ValidationMode) -> (r: Result<Self, Error>)
        ensures
            HelloVerifyRequest::unmarshalled_with(old(reader)@, mode) matches Ok(message) ==> (r
                matches Ok(m) && m@ == message),
            HelloVerifyRequest::unmarshalled_with(old(reader)@, mode) matches Err(e) ==> r == Err::<
                Self,
                Error,
            >(e),
            final(reader)@.len() == 0,
    {
        let major = match read_u8(reader) {
            Ok(byte) => byte,
            Err(e) => {
                return Err(Error::from(e));
            },
        };
        let minor = match read_u8(reader) {
            Ok(byte) => byte,
            Err(e) => {
                return Err(Error::from(e));
            },
        };
        let cookie_length = match read_u8(reader) {
            Ok(byte) => byte,
            Err(e) => {
                return Err(Error::from(e));
            },
        };
        let mut cookie: Vec<u8> = Vec::new();
        read_to_end(reader, &mut cookie);
        assert(cookie@ == old(reader)@.skip(3));

        if cookie.len() < cookie_length as usize {
            return Err(Error::BufferTooSmall);
        }
        if mode == ValidationMode::Strict && cookie.len() > cookie_length as usize {
            return Err(Error::TrailingBytes);
        }
        Ok(HandshakeMessageHelloVerifyRequest { version: ProtocolVersion { major, minor }, cookie })
    }
}

/// Appends all of `buf` to `writer`.
fn write_all(writer: &mut Vec<u8>, buf: &[u8])
    ensures
        final(writer)@ == old(writer)@ + buf@,
{
    let mut i: usize = 0;
    while i < buf.len()
        invariant
            i <= buf.len(),
            writer@ == old(writer)@ + buf@.take(i as int),
        decreases buf.len() - i,
    {
        writer.push(buf[i]);
        i += 1;
    }
    assert(buf@.take(i as int) == buf@);
}

/// Moves all that `reader` still holds to the end of `buf`.
fn read_to_end(reader: &mut &[u8], buf: &mut Vec<u8>)
    ensures
        final(buf)@ == old(buf)@ + old(reader)@,
        final(reader)@.len() == 0,
{
    let rest: &[u8] = *reader;
    write_all(buf, rest);
    *reader = vstd::slice::slice_subrange(rest, rest.len(), rest.len());
}

/// A message whose cookie fits its length byte comes back unchanged from
/// the bytes it was written to, by either rule of reading.
pub proof fn lemma_marshal_unmarshal_round_trip(message: HelloVerifyRequest, mode: ValidationMode)
    requires
        message.well_formed(),
    ensures
        message.marshalled() == Ok::<Seq<u8>, Error>(message.wire_bytes()),
        HelloVerifyRequest::unmarshalled(message.wire_bytes()) == Ok::<HelloVerifyRequest, Error>(
            message,
        ),
        HelloVerifyRequest::unmarshalled_with(message.wire_bytes(), mode) == Ok::<
            HelloVerifyRequest,
            Error,
        >(message),
{
    let bytes = message.wire_bytes();
    assert(bytes.skip(3) == message.cookie);
}

/// What is read holds every byte that follows the header, and no fewer
/// than the header counts; by the strict rule, no more either.
pub proof fn lemma_unmarshalled_cookie(bytes: Seq<u8>, mode: ValidationMode)
    requires
        HelloVerifyRequest::unmarshalled_with(bytes, mode) is Ok,
    ensures
        HelloVerifyRequest::unmarshalled_with(bytes, mode).unwrap().cookie == bytes.skip(3),
        HelloVerifyRequest::unmarshalled_with(bytes, mode).unwrap().cookie.len() >= bytes[2],
        mode == ValidationMode::Strict ==> HelloVerifyRequest::unmarshalled_with(
            bytes,
            mode,
        ).unwrap().cookie.len() == bytes[2],
{
}

/// What the strict rule accepts, the lenient rule accepts too, and reads
/// alike.
pub proof fn lemma_strict_implies_lenient(bytes: Seq<u8>)
    requires
        HelloVerifyRequest::unmarshalled_with(bytes, ValidationMode::Strict) is Ok,
    ensures
        HelloVerifyRequest::unmarshalled(bytes) == HelloVerifyRequest::unmarshalled_with(
            bytes,
            ValidationMode::Strict,
        ),
{
}

/// The strict rule accepts the bytes of well-formed messages and no others:
/// what it reads, written again, gives the bytes that were read.
pub proof fn lemma_unmarshal_marshal_round_trip(bytes: Seq<u8>)
    requires
        HelloVerifyRequest::unmarshalled_with(bytes, ValidationMode::Strict) is Ok,
    ensures
        HelloVerifyRequest::unmarshalled_with(
            bytes,
            ValidationMode::Strict,
        ).unwrap().marshalled() == Ok::<Seq<u8>, Error>(bytes),
{
    let message = HelloVerifyRequest::unmarshalled_with(bytes, ValidationMode::Strict).unwrap();
    assert(message.wire_bytes() == bytes);
}

} // verus!

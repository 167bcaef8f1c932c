use vstd::prelude::*;

verus! {

/// The version of the protocol that a message speaks, as the two bytes that
/// stand for it on the wire. DTLS 1.2 is `{ major: 254, minor: 253 }`.
#[derive(Clone, Copy, Debug, PartialEq, Eq, Structural)]
pub struct ProtocolVersion {
    pub major: u8,
    pub minor: u8,
}

} // verus!

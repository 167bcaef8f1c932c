use vstd::prelude::*;

pub mod handshake_message_hello_verify_request;

verus! {

/// The kinds of handshake message.
#[derive(Clone, Copy, Debug, PartialEq, Eq, Structural)]
pub enum HandshakeType {
    HelloRequest,
    ClientHello,
    ServerHello,
    HelloVerifyRequest,
    Certificate,
    ServerKeyExchange,
    CertificateRequest,
    ServerHelloDone,
    CertificateVerify,
    ClientKeyExchange,
    Finished,
}

} // verus!

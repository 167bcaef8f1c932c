//! Cipher-suite negotiation and handshake framing for DTLS.
//!
//! The crate holds the registry of cipher-suite identifiers with their wire
//! codes, the selection of the suites a session may use, and the byte layout
//! of the `HelloVerifyRequest` handshake message. Each function states in
//! its contract what it returns, and Verus proves the contracts; the two
//! calls into `byteorder` in module `wire` are taken on trust.

pub mod cipher_suite;
pub mod client_certificate_type;
pub mod errors;
pub mod handshake;
pub mod protocol_version;
mod wire;


use vstd::prelude::*;

verus! {

/// The ways in which suite selection, handshake framing and record
/// protection fail.
#[derive(Clone, Copy, Debug, PartialEq, Eq, Structural)]
pub enum Error {
    /// An identifier was asked for that no cipher suite of this library
    /// implements.
    InvalidCipherSuite,
    /// The exclusion flags left no cipher suite to offer.
    NoAvailableCipherSuites,
    /// A cookie does not fit the one-byte length field of its message.
    CookieTooLong,
    /// A message carries fewer cookie bytes than its length field declares.
    BufferTooSmall,
    /// A message carries more cookie bytes than its length field declares,
    /// and was read by the strict rule.
    TrailingBytes,
    /// The bytes under a message could not be read or written; of a reader,
    /// that it ended before the message did.
    Io,
    /// Key material could not be derived from the master secret.
    DerivationFailure,
    /// A protected record did not authenticate.
    AuthenticationFailure,
}

impl Error {
    /// The message of each error, as a sequence of characters.
    pub open spec fn message(self) -> Seq<char> {
        match self {
            Error::InvalidCipherSuite => "unsupported cipher suite"@,
            Error::NoAvailableCipherSuites => "no available cipher suites"@,
            Error::CookieTooLong => "cookie too long"@,
            Error::BufferTooSmall => "buffer too small"@,
            Error::TrailingBytes => "trailing bytes after cookie"@,
            Error::Io => "input or output failed"@,
            Error::DerivationFailure => "key derivation failed"@,
            Error::AuthenticationFailure => "record authentication failed"@,
        }
    }

    /// Renders the error as its message.
    pub fn to_string(&self) -> (s: String)
        ensures
            s@ == self.message(),
    {
        match self {
            Error::InvalidCipherSuite => "unsupported cipher suite".to_owned(),
            Error::NoAvailableCipherSuites => "no available cipher suites".to_owned(),
            Error::CookieTooLong => "cookie too long".to_owned(),
            Error::BufferTooSmall => "buffer too small".to_owned(),
            Error::TrailingBytes => "trailing bytes after cookie".to_owned(),
            Error::Io => "input or output failed".to_owned(),
            Error::DerivationFailure => "key derivation failed".to_owned(),
            Error::AuthenticationFailure => "record authentication failed".to_owned(),
        }
    }
}

impl From<std::io::Error> for Error {
    /// Every failure of a reader or writer is the one error `Io`.
    fn from(_e: std::io::Error) -> (r: Self) {
        Error::Io
    }
}

impl vstd::std_specs::convert::FromSpecImpl<std::io::Error> for Error {
    open spec fn obeys_from_spec() -> bool {
        true
    }

    open spec fn from_spec(e: std::io::Error) -> Self {
        Error::Io
    }
}

} // verus!

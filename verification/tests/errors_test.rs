use dtls::errors::Error;

#[test]
fn test_error_to_string() {
    assert_eq!(Error::InvalidCipherSuite.to_string(), "unsupported cipher suite");
    assert_eq!(Error::NoAvailableCipherSuites.to_string(), "no available cipher suites");
    assert_eq!(Error::CookieTooLong.to_string(), "cookie too long");
    assert_eq!(Error::BufferTooSmall.to_string(), "buffer too small");
    assert_eq!(Error::TrailingBytes.to_string(), "trailing bytes after cookie");
    assert_eq!(Error::Io.to_string(), "input or output failed");
    assert_eq!(Error::DerivationFailure.to_string(), "key derivation failed");
    assert_eq!(Error::AuthenticationFailure.to_string(), "record authentication failed");
}

#[test]
fn test_error_from_io_error() {
    let eof = std::io::Error::new(std::io::ErrorKind::UnexpectedEof, "early end");
    assert_eq!(Error::from(eof), Error::Io);
    let full = std::io::Error::new(std::io::ErrorKind::WriteZero, "no room");
    assert_eq!(Error::from(full), Error::Io);
}

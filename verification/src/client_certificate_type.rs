use vstd::prelude::*;

verus! {

/// The kind of signature that a client's certificate must be able to make.
#[derive(Clone, Copy, Debug, PartialEq, Eq, Structural)]
pub enum ClientCertificateType {
    RSASign,
    ECDSASign,
}

} // verus!

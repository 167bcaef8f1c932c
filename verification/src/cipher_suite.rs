use vstd::prelude::*;

use crate::client_certificate_type::ClientCertificateType;
use crate::errors::Error;

verus! {

/// The identifiers of the cipher suites that DTLS peers may name, each bound
/// to the 16-bit code that the IANA registry assigns to it. `Unsupported`
/// stands for every code outside this set.
#[allow(non_camel_case_types)]
#[derive(Clone, Copy, Debug, PartialEq, Eq, Structural)]
pub enum CipherSuiteID {
    // AES-128-CCM
    TLS_ECDHE_ECDSA_WITH_AES_128_CCM,
    TLS_ECDHE_ECDSA_WITH_AES_128_CCM_8,
    // AES-128-GCM-SHA256
    TLS_ECDHE_ECDSA_WITH_AES_128_GCM_SHA256,
    TLS_ECDHE_RSA_WITH_AES_128_GCM_SHA256,
    // AES-256-CBC-SHA
    TLS_ECDHE_ECDSA_WITH_AES_256_CBC_SHA,
    TLS_ECDHE_RSA_WITH_AES_256_CBC_SHA,
    // PSK
    TLS_PSK_WITH_AES_128_CCM,
    TLS_PSK_WITH_AES_128_CCM_8,
    TLS_PSK_WITH_AES_128_GCM_SHA256,
    Unsupported,
}

impl CipherSuiteID {
    /// The 16-bit code that stands for the identifier on the wire.
    /// `Unsupported` has none.
    pub open spec fn wire_code(self) -> Option<u16> {
        match self {
            CipherSuiteID::TLS_ECDHE_ECDSA_WITH_AES_128_CCM => Some(0xc0ac),
            CipherSuiteID::TLS_ECDHE_ECDSA_WITH_AES_128_CCM_8 => Some(0xc0ae),
            CipherSuiteID::TLS_ECDHE_ECDSA_WITH_AES_128_GCM_SHA256 => Some(0xc02b),
            CipherSuiteID::TLS_ECDHE_RSA_WITH_AES_128_GCM_SHA256 => Some(0xc02f),
            CipherSuiteID::TLS_ECDHE_ECDSA_WITH_AES_256_CBC_SHA => Some(0xc00a),
            CipherSuiteID::TLS_ECDHE_RSA_WITH_AES_256_CBC_SHA => Some(0xc014),
            CipherSuiteID::TLS_PSK_WITH_AES_128_CCM => Some(0xc0a4),
            CipherSuiteID::TLS_PSK_WITH_AES_128_CCM_8 => Some(0xc0a8),
            CipherSuiteID::TLS_PSK_WITH_AES_128_GCM_SHA256 => Some(0x00a8),
            CipherSuiteID::Unsupported => None,
        }
    }

    /// The identifier that a wire code names: the known identifier whose
    /// `wire_code` it is, and `Unsupported` where there is none.
    pub open spec fn of_code(code: u16) -> CipherSuiteID {
        if CipherSuiteID::TLS_ECDHE_ECDSA_WITH_AES_128_CCM.wire_code() == Some(code) {
            CipherSuiteID::TLS_ECDHE_ECDSA_WITH_AES_128_CCM
        } else if CipherSuiteID::TLS_ECDHE_ECDSA_WITH_AES_128_CCM_8.wire_code() == Some(code) {
            CipherSuiteID::TLS_ECDHE_ECDSA_WITH_AES_128_CCM_8
        } else if CipherSuiteID::TLS_ECDHE_ECDSA_WITH_AES_128_GCM_SHA256.wire_code() == Some(code) {
            CipherSuiteID::TLS_ECDHE_ECDSA_WITH_AES_128_GCM_SHA256
        } else if CipherSuiteID::TLS_ECDHE_RSA_WITH_AES_128_GCM_SHA256.wire_code() == Some(code) {
            CipherSuiteID::TLS_ECDHE_RSA_WITH_AES_128_GCM_SHA256
        } else if CipherSuiteID::TLS_ECDHE_ECDSA_WITH_AES_256_CBC_SHA.wire_code() == Some(code) {
            CipherSuiteID::TLS_ECDHE_ECDSA_WITH_AES_256_CBC_SHA
        } else if CipherSuiteID::TLS_ECDHE_RSA_WITH_AES_256_CBC_SHA.wire_code() == Some(code) {
            CipherSuiteID::TLS_ECDHE_RSA_WITH_AES_256_CBC_SHA
        } else if CipherSuiteID::TLS_PSK_WITH_AES_128_CCM.wire_code() == Some(code) {
            CipherSuiteID::TLS_PSK_WITH_AES_128_CCM
        } else if CipherSuiteID::TLS_PSK_WITH_AES_128_CCM_8.wire_code() == Some(code) {
            CipherSuiteID::TLS_PSK_WITH_AES_128_CCM_8
        } else if CipherSuiteID::TLS_PSK_WITH_AES_128_GCM_SHA256.wire_code() == Some(code) {
            CipherSuiteID::TLS_PSK_WITH_AES_128_GCM_SHA256
        } else {
            CipherSuiteID::Unsupported
        }
    }

    /// The wire code of the identifier, or `None` for `Unsupported`.
    pub fn to_code(&self) -> (code: Option<u16>)
        ensures
            code == self.wire_code(),
    {
        match self {
            CipherSuiteID::TLS_ECDHE_ECDSA_WITH_AES_128_CCM => Some(0xc0ac),
            CipherSuiteID::TLS_ECDHE_ECDSA_WITH_AES_128_CCM_8 => Some(0xc0ae),
            CipherSuiteID::TLS_ECDHE_ECDSA_WITH_AES_128_GCM_SHA256 => Some(0xc02b),
            CipherSuiteID::TLS_ECDHE_RSA_WITH_AES_128_GCM_SHA256 => Some(0xc02f),
            CipherSuiteID::TLS_ECDHE_ECDSA_WITH_AES_256_CBC_SHA => Some(0xc00a),
            CipherSuiteID::TLS_ECDHE_RSA_WITH_AES_256_CBC_SHA => Some(0xc014),
            CipherSuiteID::TLS_PSK_WITH_AES_128_CCM => Some(0xc0a4),
            CipherSuiteID::TLS_PSK_WITH_AES_128_CCM_8 => Some(0xc0a8),
            CipherSuiteID::TLS_PSK_WITH_AES_128_GCM_SHA256 => Some(0x00a8),
            CipherSuiteID::Unsupported => None,
        }
    }

    /// The registered name of a known identifier, and one fixed text for
    /// `Unsupported`.
    pub open spec fn name(self) -> Seq<char> {
        match self {
            CipherSuiteID::TLS_ECDHE_ECDSA_WITH_AES_128_CCM => "TLS_ECDHE_ECDSA_WITH_AES_128_CCM"@,
            CipherSuiteID::TLS_ECDHE_ECDSA_WITH_AES_128_CCM_8 => {
                "TLS_ECDHE_ECDSA_WITH_AES_128_CCM_8"@
            },
            CipherSuiteID::TLS_ECDHE_ECDSA_WITH_AES_128_GCM_SHA256 => {
                "TLS_ECDHE_ECDSA_WITH_AES_128_GCM_SHA256"@
            },
            CipherSuiteID::TLS_ECDHE_RSA_WITH_AES_128_GCM_SHA256 => {
                "TLS_ECDHE_RSA_WITH_AES_128_GCM_SHA256"@
            },
            CipherSuiteID::TLS_ECDHE_ECDSA_WITH_AES_256_CBC_SHA => {
                "TLS_ECDHE_ECDSA_WITH_AES_256_CBC_SHA"@
            },
            CipherSuiteID::TLS_ECDHE_RSA_WITH_AES_256_CBC_SHA => {
                "TLS_ECDHE_RSA_WITH_AES_256_CBC_SHA"@
            },
            CipherSuiteID::TLS_PSK_WITH_AES_128_CCM => "TLS_PSK_WITH_AES_128_CCM"@,
            CipherSuiteID::TLS_PSK_WITH_AES_128_CCM_8 => "TLS_PSK_WITH_AES_128_CCM_8"@,
            CipherSuiteID::TLS_PSK_WITH_AES_128_GCM_SHA256 => "TLS_PSK_WITH_AES_128_GCM_SHA256"@,
            CipherSuiteID::Unsupported => "Unsupported CipherSuiteID"@,
        }
    }

    /// Renders the identifier as its name.
    pub fn to_string(&self) -> (s: String)
        ensures
            s@ == self.name(),
    {
        match self {
            CipherSuiteID::TLS_ECDHE_ECDSA_WITH_AES_128_CCM => {
                "TLS_ECDHE_ECDSA_WITH_AES_128_CCM".to_owned()
            },
            CipherSuiteID::TLS_ECDHE_ECDSA_WITH_AES_128_CCM_8 => {
                "TLS_ECDHE_ECDSA_WITH_AES_128_CCM_8".to_owned()
            },
            CipherSuiteID::TLS_ECDHE_ECDSA_WITH_AES_128_GCM_SHA256 => {
                "TLS_ECDHE_ECDSA_WITH_AES_128_GCM_SHA256".to_owned()
            },
            CipherSuiteID::TLS_ECDHE_RSA_WITH_AES_128_GCM_SHA256 => {
                "TLS_ECDHE_RSA_WITH_AES_128_GCM_SHA256".to_owned()
            },
            CipherSuiteID::TLS_ECDHE_ECDSA_WITH_AES_256_CBC_SHA => {
                "TLS_ECDHE_ECDSA_WITH_AES_256_CBC_SHA".to_owned()
            },
            CipherSuiteID::TLS_ECDHE_RSA_WITH_AES_256_CBC_SHA => {
                "TLS_ECDHE_RSA_WITH_AES_256_CBC_SHA".to_owned()
            },
            CipherSuiteID::TLS_PSK_WITH_AES_128_CCM => "TLS_PSK_WITH_AES_128_CCM".to_owned(),
            CipherSuiteID::TLS_PSK_WITH_AES_128_CCM_8 => "TLS_PSK_WITH_AES_128_CCM_8".to_owned(),
            CipherSuiteID::TLS_PSK_WITH_AES_128_GCM_SHA256 => {
                "TLS_PSK_WITH_AES_128_GCM_SHA256".to_owned()
            },
            CipherSuiteID::Unsupported => "Unsupported CipherSuiteID".to_owned(),
        }
    }
}

impl From<u16> for CipherSuiteID {
    /// Looks a wire code up. Every code has an answer: a code that the
    /// registry above does not hold gives `Unsupported`.
    fn from(val: u16) -> (id: Self) {
        match val {
            // AES-128-CCM
            0xc0ac => CipherSuiteID::TLS_ECDHE_ECDSA_WITH_AES_128_CCM,
            0xc0ae => CipherSuiteID::TLS_ECDHE_ECDSA_WITH_AES_128_CCM_8,
            // AES-128-GCM-SHA256
            0xc02b => CipherSuiteID::TLS_ECDHE_ECDSA_WITH_AES_128_GCM_SHA256,
            0xc02f => CipherSuiteID::TLS_ECDHE_RSA_WITH_AES_128_GCM_SHA256,
            // AES-256-CBC-SHA
            0xc00a => CipherSuiteID::TLS_ECDHE_ECDSA_WITH_AES_256_CBC_SHA,
            0xc014 => CipherSuiteID::TLS_ECDHE_RSA_WITH_AES_256_CBC_SHA,
            // PSK
            0xc0a4 => CipherSuiteID::TLS_PSK_WITH_AES_128_CCM,
            0xc0a8 => CipherSuiteID::TLS_PSK_WITH_AES_128_CCM_8,
            0x00a8 => CipherSuiteID::TLS_PSK_WITH_AES_128_GCM_SHA256,
            _ => CipherSuiteID::Unsupported,
        }
    }
}

impl vstd::std_specs::convert::FromSpecImpl<u16> for CipherSuiteID {
    open spec fn obeys_from_spec() -> bool {
        true
    }

    open spec fn from_spec(v: u16) -> Self {
        CipherSuiteID::of_code(v)
    }
}

/// No two identifiers share a wire code.
pub proof fn lemma_distinct_wire_codes()
    ensures
        forall|a: CipherSuiteID, b: CipherSuiteID|
            a.wire_code() is Some && #[trigger] a.wire_code() == #[trigger] b.wire_code()
                ==> a == b,
{
}

/// Looking up the code of a known identifier gives that identifier back, so
/// an identifier survives the trip over the wire.
pub proof fn lemma_code_round_trip(id: CipherSuiteID)
    requires
        id != CipherSuiteID::Unsupported,
    ensures
        id.wire_code() is Some,
        CipherSuiteID::of_code(id.wire_code().unwrap()) == id,
        CipherSuiteID::of_code(id.wire_code().unwrap()).wire_code() == id.wire_code(),
{
    lemma_distinct_wire_codes();
}

/// The lookup is total: each code names either `Unsupported` or the known
/// identifier that has this very code.
pub proof fn lemma_lookup_total(code: u16)
    ensures
        CipherSuiteID::of_code(code) == CipherSuiteID::Unsupported || CipherSuiteID::of_code(
            code,
        ).wire_code() == Some(code),
        CipherSuiteID::of_code(code) != CipherSuiteID::Unsupported <==> (exists|id: CipherSuiteID|
            #[trigger] id.wire_code() == Some(code)),
{
}

/// The hash algorithm from which a cipher suite derives its keys.
#[derive(Clone, Copy, Debug, PartialEq, Eq, Structural)]
pub enum CipherSuiteHash {
    SHA256,
}

impl CipherSuiteHash {
    /// The length of a digest, in bytes.
    pub open spec fn digest_size(self) -> nat {
        match self {
            CipherSuiteHash::SHA256 => 32,
        }
    }

    /// The length in bytes of the digests that the algorithm produces.
    pub fn size(&self) -> (n: usize)
        ensures
            n == self.digest_size(),
    {
        match *self {
            CipherSuiteHash::SHA256 => 32,
        }
    }
}

/// The cipher suites that this library implements, as a closed sum. A value
/// says which suite a session runs and answers for everything about the suite
/// that never changes; the keys of a session are not part of it.
#[allow(non_camel_case_types)]
#[derive(Clone, Copy, Debug, PartialEq, Eq, Structural)]
pub enum CipherSuite {
    /// AES-128 in Galois/counter mode: one pass encrypts and authenticates.
    TLS_ECDHE_ECDSA_WITH_AES_128_GCM_SHA256,
    /// AES-256 in CBC mode over the plaintext and its SHA-1 MAC.
    TLS_ECDHE_ECDSA_WITH_AES_256_CBC_SHA,
}

impl CipherSuite {
    /// The identifier under which peers name the suite.
    pub open spec fn spec_id(&self) -> CipherSuiteID {
        match self {
            CipherSuite::TLS_ECDHE_ECDSA_WITH_AES_128_GCM_SHA256 => {
                CipherSuiteID::TLS_ECDHE_ECDSA_WITH_AES_128_GCM_SHA256
            },
            CipherSuite::TLS_ECDHE_ECDSA_WITH_AES_256_CBC_SHA => {
                CipherSuiteID::TLS_ECDHE_ECDSA_WITH_AES_256_CBC_SHA
            },
        }
    }

    /// Whether the suite authenticates by a pre-shared key in place of
    /// certificates.
    pub open spec fn spec_is_psk(&self) -> bool {
        match self {
            CipherSuite::TLS_ECDHE_ECDSA_WITH_AES_128_GCM_SHA256 => false,
            CipherSuite::TLS_ECDHE_ECDSA_WITH_AES_256_CBC_SHA => false,
        }
    }

    /// The name of the suite, which is the name of its identifier.
    pub fn to_string(&self) -> (s: String)
        ensures
            s@ == self.id().name(),
    {
        self.id().to_string()
    }

    /// The identifier of the suite.
    #[verifier::when_used_as_spec(spec_id)]
    pub fn id(&self) -> (id: CipherSuiteID)
        ensures
            id == self.spec_id(),
    {
        match self {
            CipherSuite::TLS_ECDHE_ECDSA_WITH_AES_128_GCM_SHA256 => {
                CipherSuiteID::TLS_ECDHE_ECDSA_WITH_AES_128_GCM_SHA256
            },
            CipherSuite::TLS_ECDHE_ECDSA_WITH_AES_256_CBC_SHA => {
                CipherSuiteID::TLS_ECDHE_ECDSA_WITH_AES_256_CBC_SHA
            },
        }
    }

    /// The signature that the certificate of a client must support when the
    /// suite is in use.
    pub fn certificate_type(&self) -> (t: ClientCertificateType)
        ensures
            t == ClientCertificateType::ECDSASign,
    {
        match self {
            CipherSuite::TLS_ECDHE_ECDSA_WITH_AES_128_GCM_SHA256 => {
                ClientCertificateType::ECDSASign
            },
            CipherSuite::TLS_ECDHE_ECDSA_WITH_AES_256_CBC_SHA => ClientCertificateType::ECDSASign,
        }
    }

    /// The hash algorithm of the suite's key derivation.
    pub fn hash_func(&self) -> (h: CipherSuiteHash)
        ensures
            h == CipherSuiteHash::SHA256,
    {
        match self {
            CipherSuite::TLS_ECDHE_ECDSA_WITH_AES_128_GCM_SHA256 => CipherSuiteHash::SHA256,
            CipherSuite::TLS_ECDHE_ECDSA_WITH_AES_256_CBC_SHA => CipherSuiteHash::SHA256,
        }
    }

    /// Whether the suite is a pre-shared-key suite.
    #[verifier::when_used_as_spec(spec_is_psk)]
    pub fn is_psk(&self) -> (psk: bool)
        ensures
            psk == self.spec_is_psk(),
    {
        match self {
            CipherSuite::TLS_ECDHE_ECDSA_WITH_AES_128_GCM_SHA256 => false,
            CipherSuite::TLS_ECDHE_ECDSA_WITH_AES_256_CBC_SHA => false,
        }
    }
}

/// The suite that implements an identifier, if there is one.
pub open spec fn implementation(id: CipherSuiteID) -> Option<CipherSuite> {
    match id {
        CipherSuiteID::TLS_ECDHE_ECDSA_WITH_AES_128_GCM_SHA256 => Some(
            CipherSuite::TLS_ECDHE_ECDSA_WITH_AES_128_GCM_SHA256,
        ),
        CipherSuiteID::TLS_ECDHE_ECDSA_WITH_AES_256_CBC_SHA => Some(
            CipherSuite::TLS_ECDHE_ECDSA_WITH_AES_256_CBC_SHA,
        ),
        _ => None,
    }
}

/// Resolves an identifier to the suite that implements it. An identifier
/// without an implementation is an error, `Unsupported` among them.
pub fn cipher_suite_for_id(id: CipherSuiteID) -> (r: Result<CipherSuite, Error>)
    ensures
        implementation(id) matches Some(suite) ==> r == Ok::<CipherSuite, Error>(suite),
        implementation(id) is None ==> r == Err::<CipherSuite, Error>(Error::InvalidCipherSuite),
        r matches Ok(suite) ==> suite.id() == id,
{
    match id {
        CipherSuiteID::TLS_ECDHE_ECDSA_WITH_AES_128_GCM_SHA256 => Ok(
            CipherSuite::TLS_ECDHE_ECDSA_WITH_AES_128_GCM_SHA256,
        ),
        CipherSuiteID::TLS_ECDHE_ECDSA_WITH_AES_256_CBC_SHA => Ok(
            CipherSuite::TLS_ECDHE_ECDSA_WITH_AES_256_CBC_SHA,
        ),
        _ => Err(Error::InvalidCipherSuite),
    }
}

/// The suites a session offers when the caller names none, in order of
/// preference.
pub open spec fn default_order() -> Seq<CipherSuite> {
    seq![
        CipherSuite::TLS_ECDHE_ECDSA_WITH_AES_128_GCM_SHA256,
        CipherSuite::TLS_ECDHE_ECDSA_WITH_AES_256_CBC_SHA,
    ]
}

/// Every suite of the library, once.
pub open spec fn all_suites() -> Seq<CipherSuite> {
    seq![
        CipherSuite::TLS_ECDHE_ECDSA_WITH_AES_128_GCM_SHA256,
        CipherSuite::TLS_ECDHE_ECDSA_WITH_AES_256_CBC_SHA,
    ]
}

/// Whether every identifier of the list has an implementation.
pub open spec fn all_implemented(ids: Seq<CipherSuiteID>) -> bool {
    forall|i: int| 0 <= i < ids.len() ==> implementation(#[trigger] ids[i]) is Some
}

/// The suites that implement the identifiers of a list, place by place.
pub open spec fn resolved(ids: Seq<CipherSuiteID>) -> Seq<CipherSuite> {
    Seq::new(ids.len(), |i: int| implementation(ids[i]).unwrap())
}

/// Whether the two flags rule a suite out.
pub open spec fn excluded(suite: CipherSuite, exclude_psk: bool, exclude_non_psk: bool) -> bool {
    (exclude_psk && suite.is_psk()) || (exclude_non_psk && !suite.is_psk())
}

/// Whether the two flags let every suite of a list stay.
pub open spec fn none_excluded(suites: Seq<CipherSuite>, exclude_psk: bool, exclude_non_psk: bool)
    -> bool {
    forall|i: int|
        0 <= i < suites.len() ==> !excluded(#[trigger] suites[i], exclude_psk, exclude_non_psk)
}

/// Whether the two flags rule every suite of a list out.
pub open spec fn all_excluded(suites: Seq<CipherSuite>, exclude_psk: bool, exclude_non_psk: bool)
    -> bool {
    forall|i: int|
        0 <= i < suites.len() ==> excluded(#[trigger] suites[i], exclude_psk, exclude_non_psk)
}

/// The test that a suite passes when the two flags let it stay.
pub open spec fn retains(exclude_psk: bool, exclude_non_psk: bool) -> spec_fn(CipherSuite) -> bool {
    |suite: CipherSuite| !excluded(suite, exclude_psk, exclude_non_psk)
}

/// The suites from which a session chooses: those of the caller's list where
/// it names any, the default order where it is empty.
pub open spec fn candidates(ids: Seq<CipherSuiteID>) -> Seq<CipherSuite> {
    if ids.len() != 0 {
        resolved(ids)
    } else {
        default_order()
    }
}

/// What selection answers: an unimplemented identifier in the list fails
/// the whole call; else the candidates that the flags keep are the
/// result, in their order, and it is an error if none is left.
pub open spec fn selection(ids: Seq<CipherSuiteID>, exclude_psk: bool, exclude_non_psk: bool)
    -> Result<Seq<CipherSuite>, Error> {
    let retained = candidates(ids).filter(retains(exclude_psk, exclude_non_psk));
    if !all_implemented(ids) {
        Err(Error::InvalidCipherSuite)
    } else if retained.len() == 0 {
        Err(Error::NoAvailableCipherSuites)
    } else {
        Ok(retained)
    }
}

/// The suites offered by default, most preferred first.
pub fn default_cipher_suites() -> (suites: Vec<CipherSuite>)
    ensures
        suites@ == default_order(),
{
    vec![
        CipherSuite::TLS_ECDHE_ECDSA_WITH_AES_128_GCM_SHA256,
        CipherSuite::TLS_ECDHE_ECDSA_WITH_AES_256_CBC_SHA,
    ]
}

/// All suites that the library implements.
pub fn all_cipher_suites() -> (suites: Vec<CipherSuite>)
    ensures
        suites@ == all_suites(),
{
    vec![
        CipherSuite::TLS_ECDHE_ECDSA_WITH_AES_128_GCM_SHA256,
        CipherSuite::TLS_ECDHE_ECDSA_WITH_AES_256_CBC_SHA,
    ]
}

/// Resolves each identifier of a list. One identifier without an
/// implementation fails the call; nothing is returned for the others then.
pub fn cipher_suites_for_ids(ids: &[CipherSuiteID]) -> (r: Result<Vec<CipherSuite>, Error>)
    ensures
        all_implemented(ids@) ==> (r matches Ok(suites) && suites@ == resolved(ids@)),
        !all_implemented(ids@) ==> r == Err::<Vec<CipherSuite>, Error>(Error::InvalidCipherSuite),
{
    let mut cipher_suites: Vec<CipherSuite> = Vec::new();
    let mut i: usize = 0;
    while i < ids.len()
        invariant
            i <= ids.len(),
            all_implemented(ids@.take(i as int)),
            cipher_suites@ == resolved(ids@.take(i as int)),
        decreases ids.len() - i,
    {
        match cipher_suite_for_id(ids[i]) {
            Ok(suite) => {
                cipher_suites.push(suite);
            },
            Err(e) => {
                return Err(e);
            },
        }
        i += 1;
    }
    assert(ids@.take(i as int) == ids@);
    Ok(cipher_suites)
}

/// Chooses the cipher suites of a session. A caller that names identifiers
/// gets their suites, in its own order; one that names none gets the default
/// order. Either list then loses the suites that the flags exclude: the
/// pre-shared-key suites with `exclude_psk`, all others with
/// `exclude_non_psk`.
pub fn parse_cipher_suites(
    user_selected_suites: &[CipherSuiteID],
    exclude_psk: bool,
    exclude_non_psk: bool,
) -> (r: Result<Vec<CipherSuite>, Error>)
    ensures
        selection(user_selected_suites@, exclude_psk, exclude_non_psk) matches Ok(suites) ==> (r
            matches Ok(v) && v@ == suites),
        selection(user_selected_suites@, exclude_psk, exclude_non_psk) matches Err(e) ==> r
            == Err::<Vec<CipherSuite>, Error>(e),
        r matches Ok(v) ==> (forall|i: int|
            0 <= i < v@.len() ==> (exclude_psk ==> !(#[trigger] v@[i]).is_psk()) && (exclude_non_psk
                ==> v@[i].is_psk())),
        all_implemented(user_selected_suites@) && none_excluded(
            candidates(user_selected_suites@),
            exclude_psk,
            exclude_non_psk,
        ) ==> (r matches Ok(v) && v@ == candidates(user_selected_suites@)),
        all_implemented(user_selected_suites@) && all_excluded(
            candidates(user_selected_suites@),
            exclude_psk,
            exclude_non_psk,
        ) ==> r == Err::<Vec<CipherSuite>, Error>(Error::NoAvailableCipherSuites),
{
    let cipher_suites = if user_selected_suites.len() != 0 {
        match cipher_suites_for_ids(user_selected_suites) {
            Ok(suites) => suites,
            Err(e) => {
                return Err(e);
            },
        }
    } else {
        default_cipher_suites()
    };

    let ghost keep = retains(exclude_psk, exclude_non_psk);
    let mut filtered_cipher_suites: Vec<CipherSuite> = Vec::new();
    let mut i: usize = 0;
    while i < cipher_suites.len()
        invariant
            i <= cipher_suites.len(),
            keep == retains(exclude_psk, exclude_non_psk),
            filtered_cipher_suites@ == cipher_suites@.take(i as int).filter(keep),
        decreases cipher_suites.len() - i,
    {
        let c = cipher_suites[i];
        proof {
            reveal(Seq::filter);
            assert(cipher_suites@.take(i + 1).drop_last() == cipher_suites@.take(i as int));
        }
        if !((exclude_psk && c.is_psk()) || (exclude_non_psk && !c.is_psk())) {
            filtered_cipher_suites.push(c);
        }
        i += 1;
    }
    proof {
        assert(cipher_suites@.take(i as int) == cipher_suites@);
        assert forall|k: int| 0 <= k < filtered_cipher_suites@.len() implies keep(
            #[trigger] filtered_cipher_suites@[k],
        ) by {
            cipher_suites@.lemma_filter_pred(keep, k);
        }
        if none_excluded(cipher_suites@, exclude_psk, exclude_non_psk) {
            lemma_filter_keeps_all(cipher_suites@, keep);
        }
        if all_excluded(cipher_suites@, exclude_psk, exclude_non_psk) {
            lemma_filter_drops_all(cipher_suites@, keep);
        }
    }

    if filtered_cipher_suites.len() == 0 {
        Err(Error::NoAvailableCipherSuites)
    } else {
        Ok(filtered_cipher_suites)
    }
}

/// A test that every item passes filters nothing out.
proof fn lemma_filter_keeps_all(s: Seq<CipherSuite>, pred: spec_fn(CipherSuite) -> bool)
    requires
        forall|i: int| 0 <= i < s.len() ==> pred(#[trigger] s[i]),
    ensures
        s.filter(pred) == s,
    decreases s.len(),
{
    reveal(Seq::filter);
    if s.len() > 0 {
        lemma_filter_keeps_all(s.drop_last(), pred);
        assert(s.drop_last().push(s.last()) == s);
    }
}

/// A test that no item passes filters everything out.
proof fn lemma_filter_drops_all(s: Seq<CipherSuite>, pred: spec_fn(CipherSuite) -> bool)
    requires
        forall|i: int| 0 <= i < s.len() ==> !pred(#[trigger] s[i]),
    ensures
        s.filter(pred).len() == 0,
    decreases s.len(),
{
    reveal(Seq::filter);
    if s.len() > 0 {
        lemma_filter_drops_all(s.drop_last(), pred);
    }
}

/// Whether `sub` is made of items of `full` at the places `at`, which go
/// upwards: `sub` then holds items of `full` in the order they have there.
pub open spec fn embeds(sub: Seq<CipherSuite>, full: Seq<CipherSuite>, at: Seq<int>) -> bool {
    &&& at.len() == sub.len()
    &&& forall|k: int|
        0 <= k < at.len() ==> 0 <= #[trigger] at[k] < full.len() && full[at[k]] == sub[k]
    &&& forall|j: int, k: int| 0 <= j < k < at.len() ==> #[trigger] at[j] < #[trigger] at[k]
}

/// Filtering keeps the items that stay in the order they had.
proof fn lemma_filter_embeds(s: Seq<CipherSuite>, pred: spec_fn(CipherSuite) -> bool) -> (at: Seq<
    int,
>)
    ensures
        embeds(s.filter(pred), s, at),
    decreases s.len(),
{
    reveal(Seq::filter);
    if s.len() == 0 {
        Seq::empty()
    } else {
        let before = lemma_filter_embeds(s.drop_last(), pred);
        if pred(s.last()) {
            before.push(s.len() - 1)
        } else {
            before
        }
    }
}

/// Each suite is the implementation of its own identifier, and of no other.
pub proof fn lemma_suite_implements_its_id(suite: CipherSuite, id: CipherSuiteID)
    ensures
        implementation(suite.id()) == Some(suite),
        implementation(id) == Some(suite) ==> id == suite.id(),
        suite.id() != CipherSuiteID::Unsupported,
{
}

/// The full list holds every suite, and the default order is made of its
/// members.
pub proof fn lemma_all_suites_complete(suite: CipherSuite)
    ensures
        all_suites().contains(suite),
        forall|i: int|
            0 <= i < default_order().len() ==> all_suites().contains(#[trigger] default_order()[i]),
{
    assert(all_suites()[0] == CipherSuite::TLS_ECDHE_ECDSA_WITH_AES_128_GCM_SHA256);
    assert(all_suites()[1] == CipherSuite::TLS_ECDHE_ECDSA_WITH_AES_256_CBC_SHA);
    assert(default_order()[0] == all_suites()[0]);
    assert(default_order()[1] == all_suites()[1]);
}

/// Selection keeps the caller's preference: where every identifier of a list
/// has an implementation and the flags exclude none of them, the answer is
/// the list's suites, as many as the list is long and in its order.
pub proof fn lemma_selection_keeps_preference(
    ids: Seq<CipherSuiteID>,
    exclude_psk: bool,
    exclude_non_psk: bool,
)
    requires
        ids.len() > 0,
        all_implemented(ids),
        none_excluded(resolved(ids), exclude_psk, exclude_non_psk),
    ensures
        selection(ids, exclude_psk, exclude_non_psk) == Ok::<Seq<CipherSuite>, Error>(
            resolved(ids),
        ),
        resolved(ids).len() == ids.len(),
        forall|i: int| 0 <= i < ids.len() ==> (#[trigger] resolved(ids)[i]).id() == ids[i],
{
    lemma_filter_keeps_all(resolved(ids), retains(exclude_psk, exclude_non_psk));
}

/// Selection never reorders: the suites of an answer stand among the
/// candidates at places that go upwards.
pub proof fn lemma_selection_preserves_order(
    ids: Seq<CipherSuiteID>,
    exclude_psk: bool,
    exclude_non_psk: bool,
)
    requires
        selection(ids, exclude_psk, exclude_non_psk) is Ok,
    ensures
        exists|at: Seq<int>| #[trigger]
            embeds(selection(ids, exclude_psk, exclude_non_psk).unwrap(), candidates(ids), at),
{
    let at = lemma_filter_embeds(candidates(ids), retains(exclude_psk, exclude_non_psk));
    assert(embeds(selection(ids, exclude_psk, exclude_non_psk).unwrap(), candidates(ids), at));
}

/// The flags are exclusive: an answer holds no pre-shared-key suite where
/// those are excluded, and nothing but such suites where the others are.
pub proof fn lemma_selection_respects_flags(
    ids: Seq<CipherSuiteID>,
    exclude_psk: bool,
    exclude_non_psk: bool,
)
    requires
        selection(ids, exclude_psk, exclude_non_psk) is Ok,
    ensures
        forall|i: int|
            0 <= i < selection(ids, exclude_psk, exclude_non_psk).unwrap().len() ==> {
                let suite = #[trigger] selection(ids, exclude_psk, exclude_non_psk).unwrap()[i];
                &&& exclude_psk ==> !suite.is_psk()
                &&& exclude_non_psk ==> suite.is_psk()
            },
{
    let keep = retains(exclude_psk, exclude_non_psk);
    assert forall|i: int| 0 <= i < candidates(ids).filter(keep).len() implies keep(
        #[trigger] candidates(ids).filter(keep)[i],
    ) by {
        candidates(ids).lemma_filter_pred(keep, i);
    }
}

/// Selection loses nothing it should keep: a candidate that the flags do
/// not exclude is in the answer.
pub proof fn lemma_selection_keeps_every_retained(
    ids: Seq<CipherSuiteID>,
    exclude_psk: bool,
    exclude_non_psk: bool,
    i: int,
)
    requires
        all_implemented(ids),
        0 <= i < candidates(ids).len(),
        !excluded(candidates(ids)[i], exclude_psk, exclude_non_psk),
    ensures
        selection(ids, exclude_psk, exclude_non_psk) is Ok,
        selection(ids, exclude_psk, exclude_non_psk).unwrap().contains(candidates(ids)[i]),
{
    let keep = retains(exclude_psk, exclude_non_psk);
    candidates(ids).lemma_filter_contains(keep, i);
}

/// With both flags set nothing can stay: whatever list resolves, the empty
/// one included, selection fails for want of a suite.
pub proof fn lemma_both_flags_leave_nothing(ids: Seq<CipherSuiteID>)
    requires
        all_implemented(ids),
    ensures
        selection(ids, true, true) == Err::<Seq<CipherSuite>, Error>(
            Error::NoAvailableCipherSuites,
        ),
{
    lemma_filter_drops_all(candidates(ids), retains(true, true));
}

/// A caller that names no suite and excludes none gets the default order,
/// which is not empty.
pub proof fn lemma_default_selection()
    ensures
        selection(Seq::empty(), false, false) == Ok::<Seq<CipherSuite>, Error>(default_order()),
        default_order().len() == 2,
{
    lemma_filter_keeps_all(default_order(), retains(false, false));
}

} // verus!

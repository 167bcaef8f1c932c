use dtls::cipher_suite::all_cipher_suites;
use dtls::cipher_suite::cipher_suite_for_id;
use dtls::cipher_suite::cipher_suites_for_ids;
use dtls::cipher_suite::default_cipher_suites;
use dtls::cipher_suite::parse_cipher_suites;
use dtls::cipher_suite::CipherSuite;
use dtls::cipher_suite::CipherSuiteHash;
use dtls::cipher_suite::CipherSuiteID;
use dtls::client_certificate_type::ClientCertificateType;
use dtls::errors::Error;

const GCM: CipherSuiteID = CipherSuiteID::TLS_ECDHE_ECDSA_WITH_AES_128_GCM_SHA256;
const CBC: CipherSuiteID = CipherSuiteID::TLS_ECDHE_ECDSA_WITH_AES_256_CBC_SHA;

fn registry() -> Vec<(CipherSuiteID, u16, &'static str)> {
    vec![
        (
            CipherSuiteID::TLS_ECDHE_ECDSA_WITH_AES_128_CCM,
            0xc0ac,
            "TLS_ECDHE_ECDSA_WITH_AES_128_CCM",
        ),
        (
            CipherSuiteID::TLS_ECDHE_ECDSA_WITH_AES_128_CCM_8,
            0xc0ae,
            "TLS_ECDHE_ECDSA_WITH_AES_128_CCM_8",
        ),
        (
            CipherSuiteID::TLS_ECDHE_ECDSA_WITH_AES_128_GCM_SHA256,
            0xc02b,
            "TLS_ECDHE_ECDSA_WITH_AES_128_GCM_SHA256",
        ),
        (
            CipherSuiteID::TLS_ECDHE_RSA_WITH_AES_128_GCM_SHA256,
            0xc02f,
            "TLS_ECDHE_RSA_WITH_AES_128_GCM_SHA256",
        ),
        (
            CipherSuiteID::TLS_ECDHE_ECDSA_WITH_AES_256_CBC_SHA,
            0xc00a,
            "TLS_ECDHE_ECDSA_WITH_AES_256_CBC_SHA",
        ),
        (
            CipherSuiteID::TLS_ECDHE_RSA_WITH_AES_256_CBC_SHA,
            0xc014,
            "TLS_ECDHE_RSA_WITH_AES_256_CBC_SHA",
        ),
        (CipherSuiteID::TLS_PSK_WITH_AES_128_CCM, 0xc0a4, "TLS_PSK_WITH_AES_128_CCM"),
        (CipherSuiteID::TLS_PSK_WITH_AES_128_CCM_8, 0xc0a8, "TLS_PSK_WITH_AES_128_CCM_8"),
        (CipherSuiteID::TLS_PSK_WITH_AES_128_GCM_SHA256, 0x00a8, "TLS_PSK_WITH_AES_128_GCM_SHA256"),
    ]
}

#[test]
fn test_id_from_each_registered_code() {
    for (id, code, _) in registry() {
        assert_eq!(CipherSuiteID::from(code), id);
    }
}

#[test]
fn test_id_to_code_of_each_identifier() {
    for (id, code, _) in registry() {
        assert_eq!(id.to_code(), Some(code));
    }
    assert_eq!(CipherSuiteID::Unsupported.to_code(), None);
}

#[test]
fn test_id_from_unknown_code_is_unsupported() {
    assert_eq!(CipherSuiteID::from(0x0000), CipherSuiteID::Unsupported);
    assert_eq!(CipherSuiteID::from(0x00a9), CipherSuiteID::Unsupported);
    assert_eq!(CipherSuiteID::from(0xc02c), CipherSuiteID::Unsupported);
    assert_eq!(CipherSuiteID::from(0xffff), CipherSuiteID::Unsupported);
}

#[test]
fn test_id_lookup_is_total() {
    let mut known = 0;
    for code in 0..=u16::MAX {
        let id = CipherSuiteID::from(code);
        if id != CipherSuiteID::Unsupported {
            assert_eq!(id.to_code(), Some(code));
            known += 1;
        }
    }
    assert_eq!(known, 9);
}

#[test]
fn test_id_code_round_trip() {
    for (id, _, _) in registry() {
        let code = id.to_code().unwrap();
        assert_eq!(CipherSuiteID::from(code), id);
        assert_eq!(CipherSuiteID::from(code).to_code(), id.to_code());
    }
}

#[test]
fn test_id_codes_are_distinct() {
    let all = registry();
    for (i, a) in all.iter().enumerate() {
        for (j, b) in all.iter().enumerate() {
            assert_eq!(a.1 == b.1, i == j);
        }
    }
}

#[test]
fn test_id_to_string() {
    for (id, _, name) in registry() {
        assert_eq!(id.to_string(), name);
    }
    assert_eq!(CipherSuiteID::Unsupported.to_string(), "Unsupported CipherSuiteID");
}

#[test]
fn test_hash_size() {
    assert_eq!(CipherSuiteHash::SHA256.size(), 32);
}

#[test]
fn test_cipher_suite_for_id_implemented() {
    assert_eq!(cipher_suite_for_id(GCM), Ok(CipherSuite::TLS_ECDHE_ECDSA_WITH_AES_128_GCM_SHA256));
    assert_eq!(cipher_suite_for_id(CBC), Ok(CipherSuite::TLS_ECDHE_ECDSA_WITH_AES_256_CBC_SHA));
}

#[test]
fn test_cipher_suite_for_id_not_implemented() {
    for (id, _, _) in registry() {
        if id != GCM && id != CBC {
            assert_eq!(cipher_suite_for_id(id), Err(Error::InvalidCipherSuite));
        }
    }
    assert_eq!(cipher_suite_for_id(CipherSuiteID::Unsupported), Err(Error::InvalidCipherSuite));
}

#[test]
fn test_cipher_suite_attributes() {
    let gcm = CipherSuite::TLS_ECDHE_ECDSA_WITH_AES_128_GCM_SHA256;
    assert_eq!(gcm.id(), GCM);
    assert_eq!(gcm.to_string(), "TLS_ECDHE_ECDSA_WITH_AES_128_GCM_SHA256");
    assert_eq!(gcm.certificate_type(), ClientCertificateType::ECDSASign);
    assert_eq!(gcm.hash_func(), CipherSuiteHash::SHA256);
    assert!(!gcm.is_psk());

    let cbc = CipherSuite::TLS_ECDHE_ECDSA_WITH_AES_256_CBC_SHA;
    assert_eq!(cbc.id(), CBC);
    assert_eq!(cbc.to_string(), "TLS_ECDHE_ECDSA_WITH_AES_256_CBC_SHA");
    assert_eq!(cbc.certificate_type(), ClientCertificateType::ECDSASign);
    assert_eq!(cbc.hash_func(), CipherSuiteHash::SHA256);
    assert!(!cbc.is_psk());
}

#[test]
fn test_cipher_suite_resolves_from_its_own_id() {
    for suite in all_cipher_suites() {
        assert_eq!(cipher_suite_for_id(suite.id()), Ok(suite));
    }
}

#[test]
fn test_default_cipher_suites_order() {
    assert_eq!(
        default_cipher_suites(),
        vec![
            CipherSuite::TLS_ECDHE_ECDSA_WITH_AES_128_GCM_SHA256,
            CipherSuite::TLS_ECDHE_ECDSA_WITH_AES_256_CBC_SHA,
        ]
    );
}

#[test]
fn test_all_cipher_suites() {
    let all = all_cipher_suites();
    assert_eq!(all.len(), 2);
    assert!(all.contains(&CipherSuite::TLS_ECDHE_ECDSA_WITH_AES_128_GCM_SHA256));
    assert!(all.contains(&CipherSuite::TLS_ECDHE_ECDSA_WITH_AES_256_CBC_SHA));
    for suite in default_cipher_suites() {
        assert!(all.contains(&suite));
    }
}

#[test]
fn test_cipher_suites_for_ids_keeps_order() {
    assert_eq!(
        cipher_suites_for_ids(&[CBC, GCM]),
        Ok(vec![
            CipherSuite::TLS_ECDHE_ECDSA_WITH_AES_256_CBC_SHA,
            CipherSuite::TLS_ECDHE_ECDSA_WITH_AES_128_GCM_SHA256,
        ])
    );
    assert_eq!(cipher_suites_for_ids(&[]), Ok(vec![]));
}

#[test]
fn test_cipher_suites_for_ids_fails_as_a_whole() {
    assert_eq!(
        cipher_suites_for_ids(&[GCM, CipherSuiteID::TLS_PSK_WITH_AES_128_CCM, CBC]),
        Err(Error::InvalidCipherSuite)
    );
    assert_eq!(
        cipher_suites_for_ids(&[CipherSuiteID::Unsupported]),
        Err(Error::InvalidCipherSuite)
    );
}

#[test]
fn test_parse_cipher_suites_preserves_preference() {
    assert_eq!(
        parse_cipher_suites(&[GCM, CBC], false, false),
        Ok(vec![
            CipherSuite::TLS_ECDHE_ECDSA_WITH_AES_128_GCM_SHA256,
            CipherSuite::TLS_ECDHE_ECDSA_WITH_AES_256_CBC_SHA,
        ])
    );
    assert_eq!(
        parse_cipher_suites(&[CBC, GCM], false, false),
        Ok(vec![
            CipherSuite::TLS_ECDHE_ECDSA_WITH_AES_256_CBC_SHA,
            CipherSuite::TLS_ECDHE_ECDSA_WITH_AES_128_GCM_SHA256,
        ])
    );
}

#[test]
fn test_parse_cipher_suites_single_and_repeated() {
    assert_eq!(
        parse_cipher_suites(&[CBC], false, false),
        Ok(vec![CipherSuite::TLS_ECDHE_ECDSA_WITH_AES_256_CBC_SHA])
    );
    assert_eq!(
        parse_cipher_suites(&[CBC, CBC, GCM], false, false),
        Ok(vec![
            CipherSuite::TLS_ECDHE_ECDSA_WITH_AES_256_CBC_SHA,
            CipherSuite::TLS_ECDHE_ECDSA_WITH_AES_256_CBC_SHA,
            CipherSuite::TLS_ECDHE_ECDSA_WITH_AES_128_GCM_SHA256,
        ])
    );
}

#[test]
fn test_parse_cipher_suites_default() {
    let suites = parse_cipher_suites(&[], false, false).unwrap();
    assert!(!suites.is_empty());
    assert_eq!(suites, default_cipher_suites());
    assert_eq!(
        suites,
        vec![
            CipherSuite::TLS_ECDHE_ECDSA_WITH_AES_128_GCM_SHA256,
            CipherSuite::TLS_ECDHE_ECDSA_WITH_AES_256_CBC_SHA,
        ]
    );
}

#[test]
fn test_parse_cipher_suites_exclude_psk() {
    let suites = parse_cipher_suites(&[], true, false).unwrap();
    assert_eq!(suites, default_cipher_suites());
    assert!(suites.iter().all(|s| !s.is_psk()));

    let suites = parse_cipher_suites(&[CBC, GCM], true, false).unwrap();
    assert_eq!(suites.len(), 2);
    assert!(suites.iter().all(|s| !s.is_psk()));
}

#[test]
fn test_parse_cipher_suites_exclude_non_psk() {
    assert_eq!(parse_cipher_suites(&[], false, true), Err(Error::NoAvailableCipherSuites));
    assert_eq!(parse_cipher_suites(&[GCM, CBC], false, true), Err(Error::NoAvailableCipherSuites));
}

#[test]
fn test_parse_cipher_suites_both_flags() {
    assert_eq!(parse_cipher_suites(&[], true, true), Err(Error::NoAvailableCipherSuites));
    assert_eq!(parse_cipher_suites(&[GCM], true, true), Err(Error::NoAvailableCipherSuites));
    assert_eq!(parse_cipher_suites(&[CBC, GCM], true, true), Err(Error::NoAvailableCipherSuites));
}

#[test]
fn test_parse_cipher_suites_unsupported_id() {
    assert_eq!(
        parse_cipher_suites(
            &[GCM, CipherSuiteID::TLS_ECDHE_RSA_WITH_AES_128_GCM_SHA256],
            false,
            false
        ),
        Err(Error::InvalidCipherSuite)
    );
    assert_eq!(
        parse_cipher_suites(&[CipherSuiteID::Unsupported], false, false),
        Err(Error::InvalidCipherSuite)
    );
}

#[test]
fn test_parse_cipher_suites_resolves_before_filtering() {
    assert_eq!(
        parse_cipher_suites(&[CipherSuiteID::TLS_PSK_WITH_AES_128_CCM, GCM], true, false),
        Err(Error::InvalidCipherSuite)
    );
    assert_eq!(
        parse_cipher_suites(&[GCM, CipherSuiteID::TLS_PSK_WITH_AES_128_GCM_SHA256], true, true),
        Err(Error::InvalidCipherSuite)
    );
}

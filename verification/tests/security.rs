use dobby::security::{SignatureAlgorithm, TransportSecurity};
use dobby::NoCertificateVerification;
use rustls::SignatureScheme;

#[test]
fn the_verifier_names_eleven_algorithms_in_order() {
    assert_eq!(
        NoCertificateVerification.supported_verify_schemes(),
        vec![
            SignatureAlgorithm::EcdsaNistp256Sha256,
            SignatureAlgorithm::EcdsaNistp384Sha384,
            SignatureAlgorithm::EcdsaNistp521Sha512,
            SignatureAlgorithm::RsaPssSha256,
            SignatureAlgorithm::RsaPssSha384,
            SignatureAlgorithm::RsaPssSha512,
            SignatureAlgorithm::RsaPkcs1Sha256,
            SignatureAlgorithm::RsaPkcs1Sha384,
            SignatureAlgorithm::RsaPkcs1Sha512,
            SignatureAlgorithm::Ed25519,
            SignatureAlgorithm::Ed448,
        ]
    );
}

#[test]
fn algorithm_codes_are_those_of_the_tls_library() {
    let schemes: Vec<SignatureScheme> = NoCertificateVerification
        .supported_verify_schemes()
        .into_iter()
        .map(|algorithm| SignatureScheme::from(algorithm.code()))
        .collect();
    assert_eq!(
        schemes,
        vec![
            SignatureScheme::ECDSA_NISTP256_SHA256,
            SignatureScheme::ECDSA_NISTP384_SHA384,
            SignatureScheme::ECDSA_NISTP521_SHA512,
            SignatureScheme::RSA_PSS_SHA256,
            SignatureScheme::RSA_PSS_SHA384,
            SignatureScheme::RSA_PSS_SHA512,
            SignatureScheme::RSA_PKCS1_SHA256,
            SignatureScheme::RSA_PKCS1_SHA384,
            SignatureScheme::RSA_PKCS1_SHA512,
            SignatureScheme::ED25519,
            SignatureScheme::ED448,
        ]
    );
}

#[test]
fn the_verifier_accepts_everything() {
    let verifier = NoCertificateVerification;
    assert!(verifier.verify_server_cert(b"not a certificate", &vec![], "broker.example", b"", 0));
    assert!(verifier.verify_server_cert(b"", &vec![vec![1, 2, 3]], "", b"ocsp", u64::MAX));
    assert!(verifier.verify_tls12_signature(b"message", b"cert", 0x0403, b"signature"));
    assert!(verifier.verify_tls13_signature(b"", b"", 0, b""));
}

#[test]
fn only_the_explicit_mode_is_insecure() {
    assert!(TransportSecurity::TrustEverything.is_insecure());
    assert_eq!(TransportSecurity::TrustEverything.bypass(), Some(NoCertificateVerification));
    let store = TransportSecurity::TrustStore(b"-----BEGIN CERTIFICATE-----".to_vec());
    assert!(!store.is_insecure());
    assert_eq!(store.bypass(), None);
}

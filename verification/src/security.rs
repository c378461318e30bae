//! Transport security as the operator chooses it: a trust store to check the broker's
//! certificate against, or, when asked for explicitly, no check at all.

use vstd::prelude::*;

verus! {

/// A signature algorithm of TLS that the trust-everything verifier says it supports.
#[derive(Clone, Copy, Debug, PartialEq, Eq, Structural)]
pub enum SignatureAlgorithm {
    EcdsaNistp256Sha256,
    EcdsaNistp384Sha384,
    EcdsaNistp521Sha512,
    RsaPssSha256,
    RsaPssSha384,
    RsaPssSha512,
    RsaPkcs1Sha256,
    RsaPkcs1Sha384,
    RsaPkcs1Sha512,
    Ed25519,
    Ed448,
}

/// The number that stands for `algorithm` in the TLS protocol.
pub open spec fn code_of(algorithm: SignatureAlgorithm) -> u16 {
    match algorithm {
        SignatureAlgorithm::EcdsaNistp256Sha256 => 0x0403,
        SignatureAlgorithm::EcdsaNistp384Sha384 => 0x0503,
        SignatureAlgorithm::EcdsaNistp521Sha512 => 0x0603,
        SignatureAlgorithm::RsaPssSha256 => 0x0804,
        SignatureAlgorithm::RsaPssSha384 => 0x0805,
        SignatureAlgorithm::RsaPssSha512 => 0x0806,
        SignatureAlgorithm::RsaPkcs1Sha256 => 0x0401,
        SignatureAlgorithm::RsaPkcs1Sha384 => 0x0501,
        SignatureAlgorithm::RsaPkcs1Sha512 => 0x0601,
        SignatureAlgorithm::Ed25519 => 0x0807,
        SignatureAlgorithm::Ed448 => 0x0808,
    }
}

/// The algorithms that the trust-everything verifier supports, in the order in which
/// it names them.
pub open spec fn supported_algorithms() -> Seq<SignatureAlgorithm> {
    seq![
        SignatureAlgorithm::EcdsaNistp256Sha256,
        SignatureAlgorithm::EcdsaNistp384Sha384,
        SignatureAlgorithm::EcdsaNistp521Sha512,
        SignatureAlgorithm::RsaPssSha256,
        SignatureAlgorithm::RsaPssSha384,
        SignatureAlgorithm::RsaPssSha512,
        SignatureAlgorithm::RsaPkcs1Sha256,
        SignatureAlgorithm::RsaPkcs1Sha384,
        SignatureAlgorithm::RsaPkcs1Sha512,
        SignatureAlgorithm::Ed25519,
        SignatureAlgorithm::Ed448,
    ]
}

impl SignatureAlgorithm {
    /// The number that stands for this algorithm in the TLS protocol.
    pub fn code(self) -> (code: u16)
        ensures
            code == code_of(self),
    {
        match self {
            SignatureAlgorithm::EcdsaNistp256Sha256 => 0x0403,
            SignatureAlgorithm::EcdsaNistp384Sha384 => 0x0503,
            SignatureAlgorithm::EcdsaNistp521Sha512 => 0x0603,
            SignatureAlgorithm::RsaPssSha256 => 0x0804,
            SignatureAlgorithm::RsaPssSha384 => 0x0805,
            SignatureAlgorithm::RsaPssSha512 => 0x0806,
            SignatureAlgorithm::RsaPkcs1Sha256 => 0x0401,
            SignatureAlgorithm::RsaPkcs1Sha384 => 0x0501,
            SignatureAlgorithm::RsaPkcs1Sha512 => 0x0601,
            SignatureAlgorithm::Ed25519 => 0x0807,
            SignatureAlgorithm::Ed448 => 0x0808,
        }
    }
}

/// Two algorithms with the same number are the same algorithm, and every algorithm
/// stands in the supported list exactly once.
pub proof fn lemma_supported_algorithms_are_distinct()
    ensures
        forall|a: SignatureAlgorithm, b: SignatureAlgorithm| code_of(a) == code_of(b) ==> a == b,
        supported_algorithms().no_duplicates(),
        forall|a: SignatureAlgorithm| supported_algorithms().contains(a),
{
    let all = supported_algorithms();
    assert forall|a: SignatureAlgorithm| all.contains(a) by {
        match a {
            SignatureAlgorithm::EcdsaNistp256Sha256 => assert(all[0] == a),
            SignatureAlgorithm::EcdsaNistp384Sha384 => assert(all[1] == a),
            SignatureAlgorithm::EcdsaNistp521Sha512 => assert(all[2] == a),
            SignatureAlgorithm::RsaPssSha256 => assert(all[3] == a),
            SignatureAlgorithm::RsaPssSha384 => assert(all[4] == a),
            SignatureAlgorithm::RsaPssSha512 => assert(all[5] == a),
            SignatureAlgorithm::RsaPkcs1Sha256 => assert(all[6] == a),
            SignatureAlgorithm::RsaPkcs1Sha384 => assert(all[7] == a),
            SignatureAlgorithm::RsaPkcs1Sha512 => assert(all[8] == a),
            SignatureAlgorithm::Ed25519 => assert(all[9] == a),
            SignatureAlgorithm::Ed448 => assert(all[10] == a),
        }
    }
}

/// The verifier that checks nothing: it accepts every certificate and every
/// signature. It is for the insecure mode that the operator asks for explicitly.
#[derive(Clone, Copy, Debug, PartialEq, Eq, Structural)]
pub struct NoCertificateVerification;

impl NoCertificateVerification {
    /// Whether the server's certificate is accepted: always, whatever the certificate,
    /// the chain, the server's name, the OCSP response and the time.
    pub fn verify_server_cert(
        &self,
        end_entity: &[u8],
        intermediates: &Vec<Vec<u8>>,
        server_name: &str,
        ocsp_response: &[u8],
        now_s: u64,
    ) -> (accepted: bool)
        ensures
            accepted,
    {
        true
    }

    /// Whether a TLS 1.2 handshake signature is accepted: always.
    pub fn verify_tls12_signature(
        &self,
        message: &[u8],
        cert: &[u8],
        scheme: u16,
        signature: &[u8],
    ) -> (accepted: bool)
        ensures
            accepted,
    {
        true
    }

    /// Whether a TLS 1.3 handshake signature is accepted: always.
    pub fn verify_tls13_signature(
        &self,
        message: &[u8],
        cert: &[u8],
        scheme: u16,
        signature: &[u8],
    ) -> (accepted: bool)
        ensures
            accepted,
    {
        true
    }

    /// The signature algorithms that the verifier says it supports.
    pub fn supported_verify_schemes(&self) -> (schemes: Vec<SignatureAlgorithm>)
        ensures
            schemes@ == supported_algorithms(),
    {
        let mut schemes: Vec<SignatureAlgorithm> = Vec::new();
        schemes.push(SignatureAlgorithm::EcdsaNistp256Sha256);
        schemes.push(SignatureAlgorithm::EcdsaNistp384Sha384);
        schemes.push(SignatureAlgorithm::EcdsaNistp521Sha512);
        schemes.push(SignatureAlgorithm::RsaPssSha256);
        schemes.push(SignatureAlgorithm::RsaPssSha384);
        schemes.push(SignatureAlgorithm::RsaPssSha512);
        schemes.push(SignatureAlgorithm::RsaPkcs1Sha256);
        schemes.push(SignatureAlgorithm::RsaPkcs1Sha384);
        schemes.push(SignatureAlgorithm::RsaPkcs1Sha512);
        schemes.push(SignatureAlgorithm::Ed25519);
        schemes.push(SignatureAlgorithm::Ed448);
        assert(schemes@ =~= supported_algorithms());
        schemes
    }
}

/// How the connection to the broker is secured.
#[derive(Debug, PartialEq, Eq)]
pub enum TransportSecurity {
    /// The broker's certificate is checked against this bundle of certificate
    /// authorities.
    TrustStore(Vec<u8>),
    /// Nothing is checked. Insecure; only on the operator's explicit request.
    TrustEverything,
}

/// A [`TransportSecurity`] as plain values.
pub enum TransportSecurityModel {
    TrustStore(Seq<u8>),
    TrustEverything,
}

impl View for TransportSecurity {
    type V = TransportSecurityModel;

    open spec fn view(&self) -> TransportSecurityModel {
        match *self {
            TransportSecurity::TrustStore(bundle) => TransportSecurityModel::TrustStore(bundle@),
            TransportSecurity::TrustEverything => TransportSecurityModel::TrustEverything,
        }
    }
}

impl TransportSecurity {
    /// Whether the broker's certificate goes unchecked.
    pub fn is_insecure(&self) -> (insecure: bool)
        ensures
            insecure == (self@ is TrustEverything),
    {
        match self {
            TransportSecurity::TrustStore(_) => false,
            TransportSecurity::TrustEverything => true,
        }
    }

    /// The verifier to install in place of the certificate check: the one that
    /// checks nothing in the insecure mode, none with a trust store.
    pub fn bypass(&self) -> (bypass: Option<NoCertificateVerification>)
        ensures
            bypass is Some <==> self@ is TrustEverything,
    {
        match self {
            TransportSecurity::TrustStore(_) => None,
            TransportSecurity::TrustEverything => Some(NoCertificateVerification),
        }
    }
}

} // verus!

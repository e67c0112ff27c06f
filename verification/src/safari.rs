//! The Safari family: the TLS lists that its builds share.

use vstd::prelude::*;
use crate::tls::{tls_error, Alpn, TlsConfig, TlsProfile, TlsProfileView, TlsToggles};
use crate::wire::{CertCompressionAlgorithm, CipherSuite, Curve, SignatureScheme, TlsVersion};

pub mod safari17_2_1;

verus! {

/// Safari's cipher suites, in the order in which it offers them.
pub open spec fn cipher_list_view() -> Seq<CipherSuite> {
    seq![
        CipherSuite::Aes128GcmSha256,
        CipherSuite::Aes256GcmSha384,
        CipherSuite::Chacha20Poly1305Sha256,
        CipherSuite::EcdheEcdsaAes256GcmSha384,
        CipherSuite::EcdheEcdsaAes128GcmSha256,
        CipherSuite::EcdheEcdsaChacha20Poly1305,
        CipherSuite::EcdheRsaAes256GcmSha384,
        CipherSuite::EcdheRsaAes128GcmSha256,
        CipherSuite::EcdheRsaChacha20Poly1305,
        CipherSuite::EcdheEcdsaAes256CbcSha384,
        CipherSuite::EcdheEcdsaAes128CbcSha256,
        CipherSuite::EcdheEcdsaAes256CbcSha,
        CipherSuite::EcdheEcdsaAes128CbcSha,
        CipherSuite::EcdheRsaAes256CbcSha384,
        CipherSuite::EcdheRsaAes128CbcSha256,
        CipherSuite::EcdheRsaAes256CbcSha,
        CipherSuite::EcdheRsaAes128CbcSha,
        CipherSuite::RsaAes256GcmSha384,
        CipherSuite::RsaAes128GcmSha256,
        CipherSuite::RsaAes256CbcSha256,
        CipherSuite::RsaAes128CbcSha256,
        CipherSuite::RsaAes256CbcSha,
        CipherSuite::RsaAes128CbcSha,
        CipherSuite::EcdheEcdsa3desEdeCbcSha,
        CipherSuite::EcdheRsa3desEdeCbcSha,
        CipherSuite::Rsa3desEdeCbcSha,
    ]
}

/// Safari's signature schemes, in the order in which it offers them.
pub open spec fn sigalgs_list_view() -> Seq<SignatureScheme> {
    seq![
        SignatureScheme::EcdsaSecp256r1Sha256,
        SignatureScheme::RsaPssRsaeSha256,
        SignatureScheme::RsaPkcs1Sha256,
        SignatureScheme::EcdsaSecp384r1Sha384,
        SignatureScheme::EcdsaSha1,
        SignatureScheme::RsaPssRsaeSha384,
        SignatureScheme::RsaPssRsaeSha384,
        SignatureScheme::RsaPkcs1Sha384,
        SignatureScheme::RsaPssRsaeSha512,
        SignatureScheme::RsaPkcs1Sha512,
        SignatureScheme::RsaPkcs1Sha1,
    ]
}

/// Safari's curves.
pub open spec fn curves_view() -> Seq<Curve> {
    seq![Curve::X25519, Curve::Secp256r1, Curve::Secp384r1, Curve::Secp521r1]
}

/// Safari's TLS profile with the given cipher suites: TLS 1.0 to 1.3, GREASE,
/// OCSP stapling and signed certificate timestamps on, no session ticket,
/// certificates compressed with zlib, `h2` offered before `http/1.1`.
pub open spec fn tls_view(ciphers: Seq<CipherSuite>) -> TlsProfileView {
    TlsProfileView {
        min_version: TlsVersion::Tls10,
        max_version: TlsVersion::Tls13,
        curves: curves_view(),
        sigalgs: sigalgs_list_view(),
        ciphers,
        alpn: Alpn::H2ThenHttp11,
        toggles: TlsToggles {
            sni: true,
            grease: true,
            ech_grease: false,
            pre_shared_key: false,
            application_settings: false,
            ocsp_stapling: true,
            signed_cert_timestamps: true,
            session_ticket: false,
            permute_extensions: false,
        },
        cert_compression_algs: seq![CertCompressionAlgorithm::Zlib],
    }
}

/// Safari's cipher suites, in the order in which it offers them.
pub fn cipher_list() -> (list: Vec<CipherSuite>)
    ensures
        list@ == cipher_list_view(),
{
    let mut list: Vec<CipherSuite> = Vec::new();
    list.push(CipherSuite::Aes128GcmSha256);
    list.push(CipherSuite::Aes256GcmSha384);
    list.push(CipherSuite::Chacha20Poly1305Sha256);
    list.push(CipherSuite::EcdheEcdsaAes256GcmSha384);
    list.push(CipherSuite::EcdheEcdsaAes128GcmSha256);
    list.push(CipherSuite::EcdheEcdsaChacha20Poly1305);
    list.push(CipherSuite::EcdheRsaAes256GcmSha384);
    list.push(CipherSuite::EcdheRsaAes128GcmSha256);
    list.push(CipherSuite::EcdheRsaChacha20Poly1305);
    list.push(CipherSuite::EcdheEcdsaAes256CbcSha384);
    list.push(CipherSuite::EcdheEcdsaAes128CbcSha256);
    list.push(CipherSuite::EcdheEcdsaAes256CbcSha);
    list.push(CipherSuite::EcdheEcdsaAes128CbcSha);
    assert(list@ =~= cipher_list_view().take(13));
    more_ciphers(list)
}

fn more_ciphers(list: Vec<CipherSuite>) -> (out: Vec<CipherSuite>)
    requires
        list@ == cipher_list_view().take(13),
    ensures
        out@ == cipher_list_view(),
{
    let mut list = list;
    list.push(CipherSuite::EcdheRsaAes256CbcSha384);
    list.push(CipherSuite::EcdheRsaAes128CbcSha256);
    list.push(CipherSuite::EcdheRsaAes256CbcSha);
    list.push(CipherSuite::EcdheRsaAes128CbcSha);
    list.push(CipherSuite::RsaAes256GcmSha384);
    list.push(CipherSuite::RsaAes128GcmSha256);
    list.push(CipherSuite::RsaAes256CbcSha256);
    list.push(CipherSuite::RsaAes128CbcSha256);
    list.push(CipherSuite::RsaAes256CbcSha);
    list.push(CipherSuite::RsaAes128CbcSha);
    list.push(CipherSuite::EcdheEcdsa3desEdeCbcSha);
    list.push(CipherSuite::EcdheRsa3desEdeCbcSha);
    list.push(CipherSuite::Rsa3desEdeCbcSha);
    assert(list@ =~= cipher_list_view());
    list
}

fn sigalgs_list() -> (list: Vec<SignatureScheme>)
    ensures
        list@ == sigalgs_list_view(),
{
    let mut list: Vec<SignatureScheme> = Vec::new();
    list.push(SignatureScheme::EcdsaSecp256r1Sha256);
    list.push(SignatureScheme::RsaPssRsaeSha256);
    list.push(SignatureScheme::RsaPkcs1Sha256);
    list.push(SignatureScheme::EcdsaSecp384r1Sha384);
    list.push(SignatureScheme::EcdsaSha1);
    list.push(SignatureScheme::RsaPssRsaeSha384);
    list.push(SignatureScheme::RsaPssRsaeSha384);
    list.push(SignatureScheme::RsaPkcs1Sha384);
    list.push(SignatureScheme::RsaPssRsaeSha512);
    list.push(SignatureScheme::RsaPkcs1Sha512);
    list.push(SignatureScheme::RsaPkcs1Sha1);
    assert(list@ =~= sigalgs_list_view());
    list
}

fn curves() -> (list: Vec<Curve>)
    ensures
        list@ == curves_view(),
{
    let mut list: Vec<Curve> = Vec::new();
    list.push(Curve::X25519);
    list.push(Curve::Secp256r1);
    list.push(Curve::Secp384r1);
    list.push(Curve::Secp521r1);
    assert(list@ =~= curves_view());
    list
}

/// Safari's TLS profile with the given cipher suites.
pub fn tls_with_ciphers(ciphers: Vec<CipherSuite>) -> (profile: TlsProfile)
    ensures
        profile@ == tls_view(ciphers@),
{
    let mut compression: Vec<CertCompressionAlgorithm> = Vec::new();
    compression.push(CertCompressionAlgorithm::Zlib);
    assert(compression@ =~= seq![CertCompressionAlgorithm::Zlib]);
    TlsProfile::new(
        TlsConfig {
            min_version: TlsVersion::Tls10,
            max_version: TlsVersion::Tls13,
            curves: curves(),
            sigalgs: sigalgs_list(),
            ciphers,
            alpn: Alpn::H2ThenHttp11,
            toggles: TlsToggles {
                sni: true,
                grease: true,
                ech_grease: false,
                pre_shared_key: false,
                application_settings: false,
                ocsp_stapling: true,
                signed_cert_timestamps: true,
                session_ticket: false,
                permute_extensions: false,
            },
            cert_compression_algs: compression,
        },
    )
}

/// Safari's TLS profile keeps the rules of a TLS profile.
pub proof fn lemma_tls_consistent()
    ensures
        tls_error(tls_view(cipher_list_view())) is None,
{
    assert(curves_view().len() == 4);
    assert(cipher_list_view().len() == 26);
}

} // verus!

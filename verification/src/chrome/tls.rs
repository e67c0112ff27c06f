//! The TLS settings that the Chrome templates share.

use vstd::prelude::*;
use crate::error::ConfigError;
use crate::tls::{tls_error, Alpn, TlsConfig, TlsProfile, TlsProfileView, TlsToggles};
use crate::wire::{CertCompressionAlgorithm, CipherSuite, Curve, SignatureScheme, TlsVersion};

verus! {

/// Chrome's cipher suites, in the order in which it offers them.
pub open spec fn cipher_list_view() -> Seq<CipherSuite> {
    seq![
        CipherSuite::Aes128GcmSha256,
        CipherSuite::Aes256GcmSha384,
        CipherSuite::Chacha20Poly1305Sha256,
        CipherSuite::EcdheEcdsaAes128GcmSha256,
        CipherSuite::EcdheRsaAes128GcmSha256,
        CipherSuite::EcdheEcdsaAes256GcmSha384,
        CipherSuite::EcdheRsaAes256GcmSha384,
        CipherSuite::EcdheEcdsaChacha20Poly1305,
        CipherSuite::EcdheRsaChacha20Poly1305,
        CipherSuite::EcdheRsaAes128CbcSha,
        CipherSuite::EcdheRsaAes256CbcSha,
        CipherSuite::RsaAes128GcmSha256,
        CipherSuite::RsaAes256GcmSha384,
        CipherSuite::RsaAes128CbcSha,
        CipherSuite::RsaAes256CbcSha,
    ]
}

/// Chrome's signature schemes, in the order in which it offers them.
pub open spec fn sigalgs_list_view() -> Seq<SignatureScheme> {
    seq![
        SignatureScheme::EcdsaSecp256r1Sha256,
        SignatureScheme::RsaPssRsaeSha256,
        SignatureScheme::RsaPkcs1Sha256,
        SignatureScheme::EcdsaSecp384r1Sha384,
        SignatureScheme::RsaPssRsaeSha384,
        SignatureScheme::RsaPkcs1Sha384,
        SignatureScheme::RsaPssRsaeSha512,
        SignatureScheme::RsaPkcs1Sha512,
    ]
}

/// The curves of the Chrome builds that offer a post-quantum key exchange.
pub open spec fn new_curves_view() -> Seq<Curve> {
    seq![Curve::X25519Kyber768Draft00, Curve::X25519, Curve::Secp256r1, Curve::Secp384r1]
}

/// The curves of the Chrome builds before those.
pub open spec fn default_curves_view() -> Seq<Curve> {
    seq![Curve::X25519, Curve::Secp256r1, Curve::Secp384r1]
}

/// Chrome's cipher suites, in the order in which it offers them.
pub fn cipher_list() -> (list: Vec<CipherSuite>)
    ensures
        list@ == cipher_list_view(),
{
    let mut list: Vec<CipherSuite> = Vec::new();
    list.push(CipherSuite::Aes128GcmSha256);
    list.push(CipherSuite::Aes256GcmSha384);
    list.push(CipherSuite::Chacha20Poly1305Sha256);
    list.push(CipherSuite::EcdheEcdsaAes128GcmSha256);
    list.push(CipherSuite::EcdheRsaAes128GcmSha256);
    list.push(CipherSuite::EcdheEcdsaAes256GcmSha384);
    list.push(CipherSuite::EcdheRsaAes256GcmSha384);
    list.push(CipherSuite::EcdheEcdsaChacha20Poly1305);
    list.push(CipherSuite::EcdheRsaChacha20Poly1305);
    list.push(CipherSuite::EcdheRsaAes128CbcSha);
    list.push(CipherSuite::EcdheRsaAes256CbcSha);
    list.push(CipherSuite::RsaAes128GcmSha256);
    list.push(CipherSuite::RsaAes256GcmSha384);
    list.push(CipherSuite::RsaAes128CbcSha);
    list.push(CipherSuite::RsaAes256CbcSha);
    assert(list@ =~= cipher_list_view());
    list
}

/// Chrome's signature schemes, in the order in which it offers them.
pub fn sigalgs_list() -> (list: Vec<SignatureScheme>)
    ensures
        list@ == sigalgs_list_view(),
{
    let mut list: Vec<SignatureScheme> = Vec::new();
    list.push(SignatureScheme::EcdsaSecp256r1Sha256);
    list.push(SignatureScheme::RsaPssRsaeSha256);
    list.push(SignatureScheme::RsaPkcs1Sha256);
    list.push(SignatureScheme::EcdsaSecp384r1Sha384);
    list.push(SignatureScheme::RsaPssRsaeSha384);
    list.push(SignatureScheme::RsaPkcs1Sha384);
    list.push(SignatureScheme::RsaPssRsaeSha512);
    list.push(SignatureScheme::RsaPkcs1Sha512);
    assert(list@ =~= sigalgs_list_view());
    list
}

/// The curves of the Chrome builds that offer a post-quantum key exchange.
pub fn new_curves() -> (list: Vec<Curve>)
    ensures
        list@ == new_curves_view(),
{
    let mut list: Vec<Curve> = Vec::new();
    list.push(Curve::X25519Kyber768Draft00);
    list.push(Curve::X25519);
    list.push(Curve::Secp256r1);
    list.push(Curve::Secp384r1);
    assert(list@ =~= new_curves_view());
    list
}

fn default_curves() -> (list: Vec<Curve>)
    ensures
        list@ == default_curves_view(),
{
    let mut list: Vec<Curve> = Vec::new();
    list.push(Curve::X25519);
    list.push(Curve::Secp256r1);
    list.push(Curve::Secp384r1);
    assert(list@ =~= default_curves_view());
    list
}

/// What a Chrome template may choose; the rest of the TLS profile is the
/// same for every Chrome build.
#[derive(Debug)]
pub struct ChromeTlsSettings {
    /// The curves; Chrome's older three where `None`.
    pub curves: Option<Vec<Curve>>,
    /// The signature schemes.
    pub sigalgs_list: Vec<SignatureScheme>,
    /// The cipher suites.
    pub cipher_list: Vec<CipherSuite>,
    /// Advertise application settings.
    pub application_settings: bool,
    /// Send an ECH extension with dummy contents.
    pub enable_ech_grease: bool,
    /// Let the engine shuffle the extensions.
    pub permute_extensions: bool,
    /// Offer a pre-shared key where a session is cached.
    pub pre_shared_key: bool,
}

impl ChromeTlsSettings {
    /// The TLS profile that these settings describe: TLS 1.2 to 1.3, GREASE,
    /// OCSP stapling and signed certificate timestamps on, certificates
    /// compressed with Brotli, `h2` offered before `http/1.1`.
    pub open spec fn profile(&self) -> TlsProfileView {
        TlsProfileView {
            min_version: TlsVersion::Tls12,
            max_version: TlsVersion::Tls13,
            curves: match self.curves {
                Some(curves) => curves@,
                None => default_curves_view(),
            },
            sigalgs: self.sigalgs_list@,
            ciphers: self.cipher_list@,
            alpn: Alpn::H2ThenHttp11,
            toggles: TlsToggles {
                sni: true,
                grease: true,
                ech_grease: self.enable_ech_grease,
                pre_shared_key: self.pre_shared_key,
                application_settings: self.application_settings,
                ocsp_stapling: true,
                signed_cert_timestamps: true,
                session_ticket: true,
                permute_extensions: self.permute_extensions,
            },
            cert_compression_algs: seq![CertCompressionAlgorithm::Brotli],
        }
    }

    /// The settings that every Chrome template starts from: Chrome's cipher
    /// suites and signature schemes, its older curves, application settings
    /// on, and ECH GREASE, permutation and the pre-shared key off.
    pub fn new() -> (settings: ChromeTlsSettings)
        ensures
            settings.curves is None,
            settings.sigalgs_list@ == sigalgs_list_view(),
            settings.cipher_list@ == cipher_list_view(),
            settings.application_settings,
            !settings.enable_ech_grease,
            !settings.permute_extensions,
            !settings.pre_shared_key,
    {
        ChromeTlsSettings {
            curves: None,
            sigalgs_list: sigalgs_list(),
            cipher_list: cipher_list(),
            application_settings: true,
            enable_ech_grease: false,
            permute_extensions: false,
            pre_shared_key: false,
        }
    }

    /// These settings with the given curves.
    pub fn curves(self, curves: Vec<Curve>) -> (settings: ChromeTlsSettings)
        ensures
            settings == (ChromeTlsSettings { curves: Some(curves), ..self }),
    {
        ChromeTlsSettings { curves: Some(curves), ..self }
    }

    /// These settings with the given signature schemes.
    pub fn sigalgs_list(self, sigalgs_list: Vec<SignatureScheme>) -> (settings: ChromeTlsSettings)
        ensures
            settings == (ChromeTlsSettings { sigalgs_list, ..self }),
    {
        ChromeTlsSettings { sigalgs_list, ..self }
    }

    /// These settings with the given cipher suites.
    pub fn cipher_list(self, cipher_list: Vec<CipherSuite>) -> (settings: ChromeTlsSettings)
        ensures
            settings == (ChromeTlsSettings { cipher_list, ..self }),
    {
        ChromeTlsSettings { cipher_list, ..self }
    }

    /// These settings with application settings on or off.
    pub fn application_settings(self, on: bool) -> (settings: ChromeTlsSettings)
        ensures
            settings == (ChromeTlsSettings { application_settings: on, ..self }),
    {
        ChromeTlsSettings { application_settings: on, ..self }
    }

    /// These settings with ECH GREASE on or off.
    pub fn enable_ech_grease(self, on: bool) -> (settings: ChromeTlsSettings)
        ensures
            settings == (ChromeTlsSettings { enable_ech_grease: on, ..self }),
    {
        ChromeTlsSettings { enable_ech_grease: on, ..self }
    }

    /// These settings with the permutation of extensions on or off.
    pub fn permute_extensions(self, on: bool) -> (settings: ChromeTlsSettings)
        ensures
            settings == (ChromeTlsSettings { permute_extensions: on, ..self }),
    {
        ChromeTlsSettings { permute_extensions: on, ..self }
    }

    /// These settings with the pre-shared key on or off.
    pub fn pre_shared_key(self, on: bool) -> (settings: ChromeTlsSettings)
        ensures
            settings == (ChromeTlsSettings { pre_shared_key: on, ..self }),
    {
        ChromeTlsSettings { pre_shared_key: on, ..self }
    }

    /// The TLS profile that these settings describe, where it keeps the
    /// rules of a TLS profile; the first rule it breaks otherwise.
    pub fn try_into(self) -> (result: Result<TlsProfile, ConfigError>)
        ensures
            match result {
                Ok(profile) => profile@ == self.profile() && tls_error(profile@) is None,
                Err(e) => tls_error(self.profile()) == Some(e),
            },
    {
        let curves = match self.curves {
            Some(curves) => curves,
            None => default_curves(),
        };
        let mut compression: Vec<CertCompressionAlgorithm> = Vec::new();
        compression.push(CertCompressionAlgorithm::Brotli);
        assert(compression@ =~= seq![CertCompressionAlgorithm::Brotli]);
        let profile = TlsProfile::new(
            TlsConfig {
                min_version: TlsVersion::Tls12,
                max_version: TlsVersion::Tls13,
                curves,
                sigalgs: self.sigalgs_list,
                ciphers: self.cipher_list,
                alpn: Alpn::H2ThenHttp11,
                toggles: TlsToggles {
                    sni: true,
                    grease: true,
                    ech_grease: self.enable_ech_grease,
                    pre_shared_key: self.pre_shared_key,
                    application_settings: self.application_settings,
                    ocsp_stapling: true,
                    signed_cert_timestamps: true,
                    session_ticket: true,
                    permute_extensions: self.permute_extensions,
                },
                cert_compression_algs: compression,
            },
        );
        match profile.validate() {
            Ok(_) => Ok(profile),
            Err(e) => Err(e),
        }
    }
}

} // verus!

//! The wire vocabulary: the protocol elements a profile speaks of, each with
//! the code it has on the wire.

use vstd::prelude::*;
use crate::error::ConfigError;
use crate::text::{free_of, str_eq};

verus! {

/// A TLS protocol version.
#[derive(Clone, Copy, Debug, PartialEq, Eq, Structural)]
pub enum TlsVersion {
    Tls10,
    Tls11,
    Tls12,
    Tls13,
}

impl TlsVersion {
    /// The version's code in a ClientHello.
    pub open spec fn wire(self) -> u16 {
        match self {
            TlsVersion::Tls10 => 0x0301,
            TlsVersion::Tls11 => 0x0302,
            TlsVersion::Tls12 => 0x0303,
            TlsVersion::Tls13 => 0x0304,
        }
    }

    /// The version's code in a ClientHello.
    pub fn wire_id(self) -> (id: u16)
        ensures
            id == self.wire(),
    {
        match self {
            TlsVersion::Tls10 => 0x0301,
            TlsVersion::Tls11 => 0x0302,
            TlsVersion::Tls12 => 0x0303,
            TlsVersion::Tls13 => 0x0304,
        }
    }

    /// The value with the given code, where there is one.
    pub fn from_wire_id(id: u16) -> (found: Option<TlsVersion>)
        ensures
            match found {
                Some(v) => v.wire() == id,
                None => forall|v: TlsVersion| #[trigger] v.wire() != id,
            },
    {
        if id == 0x0301 {
            Some(TlsVersion::Tls10)
        } else if id == 0x0302 {
            Some(TlsVersion::Tls11)
        } else if id == 0x0303 {
            Some(TlsVersion::Tls12)
        } else if id == 0x0304 {
            Some(TlsVersion::Tls13)
        } else {
            None
        }
    }

    /// No two values share a code.
    pub proof fn lemma_wire_distinct(a: TlsVersion, b: TlsVersion)
        requires
            a.wire() == b.wire(),
        ensures
            a == b,
    {
    }
}

impl TlsVersion {
    /// Whether this version is `other` or an earlier one.
    pub open spec fn at_most(self, other: TlsVersion) -> bool {
        self.wire() <= other.wire()
    }

    /// Whether this version is `other` or an earlier one.
    pub fn is_at_most(self, other: TlsVersion) -> (yes: bool)
        ensures
            yes == self.at_most(other),
    {
        self.wire_id() <= other.wire_id()
    }
}

/// A named group for key exchange.
#[derive(Clone, Copy, Debug, PartialEq, Eq, Structural)]
pub enum Curve {
    Secp224r1,
    Secp256r1,
    Secp384r1,
    Secp521r1,
    X25519,
    X25519Kyber768Draft00,
}

impl Curve {
    /// The group's code in `supported_groups`.
    pub open spec fn wire(self) -> u16 {
        match self {
            Curve::Secp224r1 => 21,
            Curve::Secp256r1 => 23,
            Curve::Secp384r1 => 24,
            Curve::Secp521r1 => 25,
            Curve::X25519 => 29,
            Curve::X25519Kyber768Draft00 => 0x6399,
        }
    }

    /// The group's code in `supported_groups`.
    pub fn wire_id(self) -> (id: u16)
        ensures
            id == self.wire(),
    {
        match self {
            Curve::Secp224r1 => 21,
            Curve::Secp256r1 => 23,
            Curve::Secp384r1 => 24,
            Curve::Secp521r1 => 25,
            Curve::X25519 => 29,
            Curve::X25519Kyber768Draft00 => 0x6399,
        }
    }

    /// The value with the given code, where there is one.
    pub fn from_wire_id(id: u16) -> (found: Option<Curve>)
        ensures
            match found {
                Some(v) => v.wire() == id,
                None => forall|v: Curve| #[trigger] v.wire() != id,
            },
    {
        if id == 21 {
            Some(Curve::Secp224r1)
        } else if id == 23 {
            Some(Curve::Secp256r1)
        } else if id == 24 {
            Some(Curve::Secp384r1)
        } else if id == 25 {
            Some(Curve::Secp521r1)
        } else if id == 29 {
            Some(Curve::X25519)
        } else if id == 0x6399 {
            Some(Curve::X25519Kyber768Draft00)
        } else {
            None
        }
    }

    /// No two values share a code.
    pub proof fn lemma_wire_distinct(a: Curve, b: Curve)
        requires
            a.wire() == b.wire(),
        ensures
            a == b,
    {
    }

    /// The group's name as a TLS engine spells it.
    pub open spec fn spec_name(self) -> Seq<char> {
        match self {
            Curve::Secp224r1 => "P-224"@,
            Curve::Secp256r1 => "P-256"@,
            Curve::Secp384r1 => "P-384"@,
            Curve::Secp521r1 => "P-521"@,
            Curve::X25519 => "X25519"@,
            Curve::X25519Kyber768Draft00 => "X25519Kyber768Draft00"@,
        }
    }

    /// The group's name as a TLS engine spells it.
    pub fn name(self) -> (text: &'static str)
        ensures
            text@ == self.spec_name(),
    {
        match self {
            Curve::Secp224r1 => "P-224",
            Curve::Secp256r1 => "P-256",
            Curve::Secp384r1 => "P-384",
            Curve::Secp521r1 => "P-521",
            Curve::X25519 => "X25519",
            Curve::X25519Kyber768Draft00 => "X25519Kyber768Draft00",
        }
    }

    /// The value of the given name; `UnknownCurve` where the name is none.
    pub fn from_name(text: &str) -> (found: Result<Curve, ConfigError>)
        ensures
            match found {
                Ok(v) => v.spec_name() == text@,
                Err(e) => e == ConfigError::UnknownCurve && forall|v: Curve|
                    #[trigger] v.spec_name() != text@,
            },
    {
        if str_eq(text, "P-224") {
            Ok(Curve::Secp224r1)
        } else if str_eq(text, "P-256") {
            Ok(Curve::Secp256r1)
        } else if str_eq(text, "P-384") {
            Ok(Curve::Secp384r1)
        } else if str_eq(text, "P-521") {
            Ok(Curve::Secp521r1)
        } else if str_eq(text, "X25519") {
            Ok(Curve::X25519)
        } else if str_eq(text, "X25519Kyber768Draft00") {
            Ok(Curve::X25519Kyber768Draft00)
        } else {
            Err(ConfigError::UnknownCurve)
        }
    }

    /// No two values share a name.
    pub proof fn lemma_name_distinct(a: Curve, b: Curve)
        requires
            a.spec_name() == b.spec_name(),
        ensures
            a == b,
    {
        reveal_strlit("P-224");
        reveal_strlit("P-256");
        reveal_strlit("P-384");
        reveal_strlit("P-521");
        reveal_strlit("X25519");
        reveal_strlit("X25519Kyber768Draft00");
        let x = a.spec_name();
        let y = b.spec_name();
        assert(x.len() == y.len());
        assert(x[2] == y[2]);
        assert(x[3] == y[3]);
    }
}

/// A signature scheme.
#[derive(Clone, Copy, Debug, PartialEq, Eq, Structural)]
pub enum SignatureScheme {
    EcdsaSecp256r1Sha256,
    RsaPssRsaeSha256,
    RsaPkcs1Sha256,
    EcdsaSecp384r1Sha384,
    RsaPssRsaeSha384,
    RsaPkcs1Sha384,
    RsaPssRsaeSha512,
    RsaPkcs1Sha512,
    EcdsaSecp521r1Sha512,
    EcdsaSha1,
    RsaPkcs1Sha1,
    Ed25519,
}

impl SignatureScheme {
    /// The scheme's code in `signature_algorithms`.
    pub open spec fn wire(self) -> u16 {
        match self {
            SignatureScheme::EcdsaSecp256r1Sha256 => 0x0403,
            SignatureScheme::RsaPssRsaeSha256 => 0x0804,
            SignatureScheme::RsaPkcs1Sha256 => 0x0401,
            SignatureScheme::EcdsaSecp384r1Sha384 => 0x0503,
            SignatureScheme::RsaPssRsaeSha384 => 0x0805,
            SignatureScheme::RsaPkcs1Sha384 => 0x0501,
            SignatureScheme::RsaPssRsaeSha512 => 0x0806,
            SignatureScheme::RsaPkcs1Sha512 => 0x0601,
            SignatureScheme::EcdsaSecp521r1Sha512 => 0x0603,
            SignatureScheme::EcdsaSha1 => 0x0203,
            SignatureScheme::RsaPkcs1Sha1 => 0x0201,
            SignatureScheme::Ed25519 => 0x0807,
        }
    }

    /// The scheme's code in `signature_algorithms`.
    pub fn wire_id(self) -> (id: u16)
        ensures
            id == self.wire(),
    {
        match self {
            SignatureScheme::EcdsaSecp256r1Sha256 => 0x0403,
            SignatureScheme::RsaPssRsaeSha256 => 0x0804,
            SignatureScheme::RsaPkcs1Sha256 => 0x0401,
            SignatureScheme::EcdsaSecp384r1Sha384 => 0x0503,
            SignatureScheme::RsaPssRsaeSha384 => 0x0805,
            SignatureScheme::RsaPkcs1Sha384 => 0x0501,
            SignatureScheme::RsaPssRsaeSha512 => 0x0806,
            SignatureScheme::RsaPkcs1Sha512 => 0x0601,
            SignatureScheme::EcdsaSecp521r1Sha512 => 0x0603,
            SignatureScheme::EcdsaSha1 => 0x0203,
            SignatureScheme::RsaPkcs1Sha1 => 0x0201,
            SignatureScheme::Ed25519 => 0x0807,
        }
    }

    /// The value with the given code, where there is one.
    pub fn from_wire_id(id: u16) -> (found: Option<SignatureScheme>)
        ensures
            match found {
                Some(v) => v.wire() == id,
                None => forall|v: SignatureScheme| #[trigger] v.wire() != id,
            },
    {
        if id == 0x0403 {
            Some(SignatureScheme::EcdsaSecp256r1Sha256)
        } else if id == 0x0804 {
            Some(SignatureScheme::RsaPssRsaeSha256)
        } else if id == 0x0401 {
            Some(SignatureScheme::RsaPkcs1Sha256)
        } else if id == 0x0503 {
            Some(SignatureScheme::EcdsaSecp384r1Sha384)
        } else if id == 0x0805 {
            Some(SignatureScheme::RsaPssRsaeSha384)
        } else if id == 0x0501 {
            Some(SignatureScheme::RsaPkcs1Sha384)
        } else if id == 0x0806 {
            Some(SignatureScheme::RsaPssRsaeSha512)
        } else if id == 0x0601 {
            Some(SignatureScheme::RsaPkcs1Sha512)
        } else if id == 0x0603 {
            Some(SignatureScheme::EcdsaSecp521r1Sha512)
        } else if id == 0x0203 {
            Some(SignatureScheme::EcdsaSha1)
        } else if id == 0x0201 {
            Some(SignatureScheme::RsaPkcs1Sha1)
        } else if id == 0x0807 {
            Some(SignatureScheme::Ed25519)
        } else {
            None
        }
    }

    /// No two values share a code.
    pub proof fn lemma_wire_distinct(a: SignatureScheme, b: SignatureScheme)
        requires
            a.wire() == b.wire(),
        ensures
            a == b,
    {
    }

    /// The scheme's name as a TLS engine spells it.
    pub open spec fn spec_name(self) -> Seq<char> {
        match self {
            SignatureScheme::EcdsaSecp256r1Sha256 => "ecdsa_secp256r1_sha256"@,
            SignatureScheme::RsaPssRsaeSha256 => "rsa_pss_rsae_sha256"@,
            SignatureScheme::RsaPkcs1Sha256 => "rsa_pkcs1_sha256"@,
            SignatureScheme::EcdsaSecp384r1Sha384 => "ecdsa_secp384r1_sha384"@,
            SignatureScheme::RsaPssRsaeSha384 => "rsa_pss_rsae_sha384"@,
            SignatureScheme::RsaPkcs1Sha384 => "rsa_pkcs1_sha384"@,
            SignatureScheme::RsaPssRsaeSha512 => "rsa_pss_rsae_sha512"@,
            SignatureScheme::RsaPkcs1Sha512 => "rsa_pkcs1_sha512"@,
            SignatureScheme::EcdsaSecp521r1Sha512 => "ecdsa_secp521r1_sha512"@,
            SignatureScheme::EcdsaSha1 => "ecdsa_sha1"@,
            SignatureScheme::RsaPkcs1Sha1 => "rsa_pkcs1_sha1"@,
            SignatureScheme::Ed25519 => "ed25519"@,
        }
    }

    /// The scheme's name as a TLS engine spells it.
    pub fn name(self) -> (text: &'static str)
        ensures
            text@ == self.spec_name(),
    {
        match self {
            SignatureScheme::EcdsaSecp256r1Sha256 => "ecdsa_secp256r1_sha256",
            SignatureScheme::RsaPssRsaeSha256 => "rsa_pss_rsae_sha256",
            SignatureScheme::RsaPkcs1Sha256 => "rsa_pkcs1_sha256",
            SignatureScheme::EcdsaSecp384r1Sha384 => "ecdsa_secp384r1_sha384",
            SignatureScheme::RsaPssRsaeSha384 => "rsa_pss_rsae_sha384",
            SignatureScheme::RsaPkcs1Sha384 => "rsa_pkcs1_sha384",
            SignatureScheme::RsaPssRsaeSha512 => "rsa_pss_rsae_sha512",
            SignatureScheme::RsaPkcs1Sha512 => "rsa_pkcs1_sha512",
            SignatureScheme::EcdsaSecp521r1Sha512 => "ecdsa_secp521r1_sha512",
            SignatureScheme::EcdsaSha1 => "ecdsa_sha1",
            SignatureScheme::RsaPkcs1Sha1 => "rsa_pkcs1_sha1",
            SignatureScheme::Ed25519 => "ed25519",
        }
    }

    /// The value of the given name; `UnknownSignatureScheme` where the name is none.
    pub fn from_name(text: &str) -> (found: Result<SignatureScheme, ConfigError>)
        ensures
            match found {
                Ok(v) => v.spec_name() == text@,
                Err(e) => e == ConfigError::UnknownSignatureScheme && forall|v: SignatureScheme|
                    #[trigger] v.spec_name() != text@,
            },
    {
        if str_eq(text, "ecdsa_secp256r1_sha256") {
            Ok(SignatureScheme::EcdsaSecp256r1Sha256)
        } else if str_eq(text, "rsa_pss_rsae_sha256") {
            Ok(SignatureScheme::RsaPssRsaeSha256)
        } else if str_eq(text, "rsa_pkcs1_sha256") {
            Ok(SignatureScheme::RsaPkcs1Sha256)
        } else if str_eq(text, "ecdsa_secp384r1_sha384") {
            Ok(SignatureScheme::EcdsaSecp384r1Sha384)
        } else if str_eq(text, "rsa_pss_rsae_sha384") {
            Ok(SignatureScheme::RsaPssRsaeSha384)
        } else if str_eq(text, "rsa_pkcs1_sha384") {
            Ok(SignatureScheme::RsaPkcs1Sha384)
        } else if str_eq(text, "rsa_pss_rsae_sha512") {
            Ok(SignatureScheme::RsaPssRsaeSha512)
        } else if str_eq(text, "rsa_pkcs1_sha512") {
            Ok(SignatureScheme::RsaPkcs1Sha512)
        } else if str_eq(text, "ecdsa_secp521r1_sha512") {
            Ok(SignatureScheme::EcdsaSecp521r1Sha512)
        } else if str_eq(text, "ecdsa_sha1") {
            Ok(SignatureScheme::EcdsaSha1)
        } else if str_eq(text, "rsa_pkcs1_sha1") {
            Ok(SignatureScheme::RsaPkcs1Sha1)
        } else if str_eq(text, "ed25519") {
            Ok(SignatureScheme::Ed25519)
        } else {
            Err(ConfigError::UnknownSignatureScheme)
        }
    }

    /// No two values share a name.
    pub proof fn lemma_name_distinct(a: SignatureScheme, b: SignatureScheme)
        requires
            a.spec_name() == b.spec_name(),
        ensures
            a == b,
    {
        reveal_strlit("ecdsa_secp256r1_sha256");
        reveal_strlit("rsa_pss_rsae_sha256");
        reveal_strlit("rsa_pkcs1_sha256");
        reveal_strlit("ecdsa_secp384r1_sha384");
        reveal_strlit("rsa_pss_rsae_sha384");
        reveal_strlit("rsa_pkcs1_sha384");
        reveal_strlit("rsa_pss_rsae_sha512");
        reveal_strlit("rsa_pkcs1_sha512");
        reveal_strlit("ecdsa_secp521r1_sha512");
        reveal_strlit("ecdsa_sha1");
        reveal_strlit("rsa_pkcs1_sha1");
        reveal_strlit("ed25519");
        let x = a.spec_name();
        let y = b.spec_name();
        assert(x.len() == y.len());
        assert(x[10] == y[10]);
        assert(x[13] == y[13]);
        assert(x[16] == y[16]);
    }

    /// No name holds a colon, so that names joined by colons can be told
    /// apart again.
    pub proof fn lemma_name_has_no_colon(v: SignatureScheme)
        ensures
            free_of(v.spec_name(), ':'),
    {
        Self::lemma_no_colon_1();
        Self::lemma_no_colon_2();
    }

    proof fn lemma_no_colon_1()
        ensures
            free_of(SignatureScheme::EcdsaSecp256r1Sha256.spec_name(), ':'),
            free_of(SignatureScheme::RsaPssRsaeSha256.spec_name(), ':'),
            free_of(SignatureScheme::RsaPkcs1Sha256.spec_name(), ':'),
            free_of(SignatureScheme::EcdsaSecp384r1Sha384.spec_name(), ':'),
            free_of(SignatureScheme::RsaPssRsaeSha384.spec_name(), ':'),
            free_of(SignatureScheme::RsaPkcs1Sha384.spec_name(), ':'),
            free_of(SignatureScheme::RsaPssRsaeSha512.spec_name(), ':'),
    {
        reveal_strlit("ecdsa_secp256r1_sha256");
        reveal_strlit("rsa_pss_rsae_sha256");
        reveal_strlit("rsa_pkcs1_sha256");
        reveal_strlit("ecdsa_secp384r1_sha384");
        reveal_strlit("rsa_pss_rsae_sha384");
        reveal_strlit("rsa_pkcs1_sha384");
        reveal_strlit("rsa_pss_rsae_sha512");
    }

    proof fn lemma_no_colon_2()
        ensures
            free_of(SignatureScheme::RsaPkcs1Sha512.spec_name(), ':'),
            free_of(SignatureScheme::EcdsaSecp521r1Sha512.spec_name(), ':'),
            free_of(SignatureScheme::EcdsaSha1.spec_name(), ':'),
            free_of(SignatureScheme::RsaPkcs1Sha1.spec_name(), ':'),
            free_of(SignatureScheme::Ed25519.spec_name(), ':'),
    {
        reveal_strlit("rsa_pkcs1_sha512");
        reveal_strlit("ecdsa_secp521r1_sha512");
        reveal_strlit("ecdsa_sha1");
        reveal_strlit("rsa_pkcs1_sha1");
        reveal_strlit("ed25519");
    }
}

/// A cipher suite.
#[derive(Clone, Copy, Debug, PartialEq, Eq, Structural)]
pub enum CipherSuite {
    Aes128GcmSha256,
    Aes256GcmSha384,
    Chacha20Poly1305Sha256,
    EcdheEcdsaAes128GcmSha256,
    EcdheRsaAes128GcmSha256,
    EcdheEcdsaAes256GcmSha384,
    EcdheRsaAes256GcmSha384,
    EcdheEcdsaChacha20Poly1305,
    EcdheRsaChacha20Poly1305,
    EcdheRsaAes128CbcSha,
    EcdheRsaAes256CbcSha,
    RsaAes128GcmSha256,
    RsaAes256GcmSha384,
    RsaAes128CbcSha,
    RsaAes256CbcSha,
    EcdheEcdsaAes256CbcSha384,
    EcdheEcdsaAes128CbcSha256,
    EcdheEcdsaAes256CbcSha,
    EcdheEcdsaAes128CbcSha,
    EcdheRsaAes256CbcSha384,
    EcdheRsaAes128CbcSha256,
    RsaAes256CbcSha256,
    RsaAes128CbcSha256,
    EcdheEcdsa3desEdeCbcSha,
    EcdheRsa3desEdeCbcSha,
    Rsa3desEdeCbcSha,
}

impl CipherSuite {
    /// The suite's code in `cipher_suites`.
    pub open spec fn wire(self) -> u16 {
        match self {
            CipherSuite::Aes128GcmSha256 => 0x1301,
            CipherSuite::Aes256GcmSha384 => 0x1302,
            CipherSuite::Chacha20Poly1305Sha256 => 0x1303,
            CipherSuite::EcdheEcdsaAes128GcmSha256 => 0xc02b,
            CipherSuite::EcdheRsaAes128GcmSha256 => 0xc02f,
            CipherSuite::EcdheEcdsaAes256GcmSha384 => 0xc02c,
            CipherSuite::EcdheRsaAes256GcmSha384 => 0xc030,
            CipherSuite::EcdheEcdsaChacha20Poly1305 => 0xcca9,
            CipherSuite::EcdheRsaChacha20Poly1305 => 0xcca8,
            CipherSuite::EcdheRsaAes128CbcSha => 0xc013,
            CipherSuite::EcdheRsaAes256CbcSha => 0xc014,
            CipherSuite::RsaAes128GcmSha256 => 0x009c,
            CipherSuite::RsaAes256GcmSha384 => 0x009d,
            CipherSuite::RsaAes128CbcSha => 0x002f,
            CipherSuite::RsaAes256CbcSha => 0x0035,
            CipherSuite::EcdheEcdsaAes256CbcSha384 => 0xc024,
            CipherSuite::EcdheEcdsaAes128CbcSha256 => 0xc023,
            CipherSuite::EcdheEcdsaAes256CbcSha => 0xc00a,
            CipherSuite::EcdheEcdsaAes128CbcSha => 0xc009,
            CipherSuite::EcdheRsaAes256CbcSha384 => 0xc028,
            CipherSuite::EcdheRsaAes128CbcSha256 => 0xc027,
            CipherSuite::RsaAes256CbcSha256 => 0x003d,
            CipherSuite::RsaAes128CbcSha256 => 0x003c,
            CipherSuite::EcdheEcdsa3desEdeCbcSha => 0xc008,
            CipherSuite::EcdheRsa3desEdeCbcSha => 0xc012,
            CipherSuite::Rsa3desEdeCbcSha => 0x000a,
        }
    }

    /// The suite's code in `cipher_suites`.
    pub fn wire_id(self) -> (id: u16)
        ensures
            id == self.wire(),
    {
        match self {
            CipherSuite::Aes128GcmSha256 => 0x1301,
            CipherSuite::Aes256GcmSha384 => 0x1302,
            CipherSuite::Chacha20Poly1305Sha256 => 0x1303,
            CipherSuite::EcdheEcdsaAes128GcmSha256 => 0xc02b,
            CipherSuite::EcdheRsaAes128GcmSha256 => 0xc02f,
            CipherSuite::EcdheEcdsaAes256GcmSha384 => 0xc02c,
            CipherSuite::EcdheRsaAes256GcmSha384 => 0xc030,
            CipherSuite::EcdheEcdsaChacha20Poly1305 => 0xcca9,
            CipherSuite::EcdheRsaChacha20Poly1305 => 0xcca8,
            CipherSuite::EcdheRsaAes128CbcSha => 0xc013,
            CipherSuite::EcdheRsaAes256CbcSha => 0xc014,
            CipherSuite::RsaAes128GcmSha256 => 0x009c,
            CipherSuite::RsaAes256GcmSha384 => 0x009d,
            CipherSuite::RsaAes128CbcSha => 0x002f,
            CipherSuite::RsaAes256CbcSha => 0x0035,
            CipherSuite::EcdheEcdsaAes256CbcSha384 => 0xc024,
            CipherSuite::EcdheEcdsaAes128CbcSha256 => 0xc023,
            CipherSuite::EcdheEcdsaAes256CbcSha => 0xc00a,
            CipherSuite::EcdheEcdsaAes128CbcSha => 0xc009,
            CipherSuite::EcdheRsaAes256CbcSha384 => 0xc028,
            CipherSuite::EcdheRsaAes128CbcSha256 => 0xc027,
            CipherSuite::RsaAes256CbcSha256 => 0x003d,
            CipherSuite::RsaAes128CbcSha256 => 0x003c,
            CipherSuite::EcdheEcdsa3desEdeCbcSha => 0xc008,
            CipherSuite::EcdheRsa3desEdeCbcSha => 0xc012,
            CipherSuite::Rsa3desEdeCbcSha => 0x000a,
        }
    }

    /// The value with the given code, where there is one.
    pub fn from_wire_id(id: u16) -> (found: Option<CipherSuite>)
        ensures
            match found {
                Some(v) => v.wire() == id,
                None => forall|v: CipherSuite| #[trigger] v.wire() != id,
            },
    {
        if id == 0x1301 {
            Some(CipherSuite::Aes128GcmSha256)
        } else if id == 0x1302 {
            Some(CipherSuite::Aes256GcmSha384)
        } else if id == 0x1303 {
            Some(CipherSuite::Chacha20Poly1305Sha256)
        } else if id == 0xc02b {
            Some(CipherSuite::EcdheEcdsaAes128GcmSha256)
        } else if id == 0xc02f {
            Some(CipherSuite::EcdheRsaAes128GcmSha256)
        } else if id == 0xc02c {
            Some(CipherSuite::EcdheEcdsaAes256GcmSha384)
        } else if id == 0xc030 {
            Some(CipherSuite::EcdheRsaAes256GcmSha384)
        } else if id == 0xcca9 {
            Some(CipherSuite::EcdheEcdsaChacha20Poly1305)
        } else if id == 0xcca8 {
            Some(CipherSuite::EcdheRsaChacha20Poly1305)
        } else if id == 0xc013 {
            Some(CipherSuite::EcdheRsaAes128CbcSha)
        } else if id == 0xc014 {
            Some(CipherSuite::EcdheRsaAes256CbcSha)
        } else if id == 0x009c {
            Some(CipherSuite::RsaAes128GcmSha256)
        } else if id == 0x009d {
            Some(CipherSuite::RsaAes256GcmSha384)
        } else if id == 0x002f {
            Some(CipherSuite::RsaAes128CbcSha)
        } else if id == 0x0035 {
            Some(CipherSuite::RsaAes256CbcSha)
        } else if id == 0xc024 {
            Some(CipherSuite::EcdheEcdsaAes256CbcSha384)
        } else if id == 0xc023 {
            Some(CipherSuite::EcdheEcdsaAes128CbcSha256)
        } else if id == 0xc00a {
            Some(CipherSuite::EcdheEcdsaAes256CbcSha)
        } else if id == 0xc009 {
            Some(CipherSuite::EcdheEcdsaAes128CbcSha)
        } else if id == 0xc028 {
            Some(CipherSuite::EcdheRsaAes256CbcSha384)
        } else if id == 0xc027 {
            Some(CipherSuite::EcdheRsaAes128CbcSha256)
        } else if id == 0x003d {
            Some(CipherSuite::RsaAes256CbcSha256)
        } else if id == 0x003c {
            Some(CipherSuite::RsaAes128CbcSha256)
        } else if id == 0xc008 {
            Some(CipherSuite::EcdheEcdsa3desEdeCbcSha)
        } else if id == 0xc012 {
            Some(CipherSuite::EcdheRsa3desEdeCbcSha)
        } else if id == 0x000a {
            Some(CipherSuite::Rsa3desEdeCbcSha)
        } else {
            None
        }
    }

    /// No two values share a code.
    pub proof fn lemma_wire_distinct(a: CipherSuite, b: CipherSuite)
        requires
            a.wire() == b.wire(),
        ensures
            a == b,
    {
    }

    /// The suite's name as a TLS engine spells it.
    pub open spec fn spec_name(self) -> Seq<char> {
        match self {
            CipherSuite::Aes128GcmSha256 => "TLS_AES_128_GCM_SHA256"@,
            CipherSuite::Aes256GcmSha384 => "TLS_AES_256_GCM_SHA384"@,
            CipherSuite::Chacha20Poly1305Sha256 => "TLS_CHACHA20_POLY1305_SHA256"@,
            CipherSuite::EcdheEcdsaAes128GcmSha256 => "TLS_ECDHE_ECDSA_WITH_AES_128_GCM_SHA256"@,
            CipherSuite::EcdheRsaAes128GcmSha256 => "TLS_ECDHE_RSA_WITH_AES_128_GCM_SHA256"@,
            CipherSuite::EcdheEcdsaAes256GcmSha384 => "TLS_ECDHE_ECDSA_WITH_AES_256_GCM_SHA384"@,
            CipherSuite::EcdheRsaAes256GcmSha384 => "TLS_ECDHE_RSA_WITH_AES_256_GCM_SHA384"@,
            CipherSuite::EcdheEcdsaChacha20Poly1305 => "TLS_ECDHE_ECDSA_WITH_CHACHA20_POLY1305_SHA256"@,
            CipherSuite::EcdheRsaChacha20Poly1305 => "TLS_ECDHE_RSA_WITH_CHACHA20_POLY1305_SHA256"@,
            CipherSuite::EcdheRsaAes128CbcSha => "TLS_ECDHE_RSA_WITH_AES_128_CBC_SHA"@,
            CipherSuite::EcdheRsaAes256CbcSha => "TLS_ECDHE_RSA_WITH_AES_256_CBC_SHA"@,
            CipherSuite::RsaAes128GcmSha256 => "TLS_RSA_WITH_AES_128_GCM_SHA256"@,
            CipherSuite::RsaAes256GcmSha384 => "TLS_RSA_WITH_AES_256_GCM_SHA384"@,
            CipherSuite::RsaAes128CbcSha => "TLS_RSA_WITH_AES_128_CBC_SHA"@,
            CipherSuite::RsaAes256CbcSha => "TLS_RSA_WITH_AES_256_CBC_SHA"@,
            CipherSuite::EcdheEcdsaAes256CbcSha384 => "TLS_ECDHE_ECDSA_WITH_AES_256_CBC_SHA384"@,
            CipherSuite::EcdheEcdsaAes128CbcSha256 => "TLS_ECDHE_ECDSA_WITH_AES_128_CBC_SHA256"@,
            CipherSuite::EcdheEcdsaAes256CbcSha => "TLS_ECDHE_ECDSA_WITH_AES_256_CBC_SHA"@,
            CipherSuite::EcdheEcdsaAes128CbcSha => "TLS_ECDHE_ECDSA_WITH_AES_128_CBC_SHA"@,
            CipherSuite::EcdheRsaAes256CbcSha384 => "TLS_ECDHE_RSA_WITH_AES_256_CBC_SHA384"@,
            CipherSuite::EcdheRsaAes128CbcSha256 => "TLS_ECDHE_RSA_WITH_AES_128_CBC_SHA256"@,
            CipherSuite::RsaAes256CbcSha256 => "TLS_RSA_WITH_AES_256_CBC_SHA256"@,
            CipherSuite::RsaAes128CbcSha256 => "TLS_RSA_WITH_AES_128_CBC_SHA256"@,
            CipherSuite::EcdheEcdsa3desEdeCbcSha => "TLS_ECDHE_ECDSA_WITH_3DES_EDE_CBC_SHA"@,
            CipherSuite::EcdheRsa3desEdeCbcSha => "TLS_ECDHE_RSA_WITH_3DES_EDE_CBC_SHA"@,
            CipherSuite::Rsa3desEdeCbcSha => "TLS_RSA_WITH_3DES_EDE_CBC_SHA"@,
        }
    }

    /// The suite's name as a TLS engine spells it.
    pub fn name(self) -> (text: &'static str)
        ensures
            text@ == self.spec_name(),
    {
        match self {
            CipherSuite::Aes128GcmSha256 => "TLS_AES_128_GCM_SHA256",
            CipherSuite::Aes256GcmSha384 => "TLS_AES_256_GCM_SHA384",
            CipherSuite::Chacha20Poly1305Sha256 => "TLS_CHACHA20_POLY1305_SHA256",
            CipherSuite::EcdheEcdsaAes128GcmSha256 => "TLS_ECDHE_ECDSA_WITH_AES_128_GCM_SHA256",
            CipherSuite::EcdheRsaAes128GcmSha256 => "TLS_ECDHE_RSA_WITH_AES_128_GCM_SHA256",
            CipherSuite::EcdheEcdsaAes256GcmSha384 => "TLS_ECDHE_ECDSA_WITH_AES_256_GCM_SHA384",
            CipherSuite::EcdheRsaAes256GcmSha384 => "TLS_ECDHE_RSA_WITH_AES_256_GCM_SHA384",
            CipherSuite::EcdheEcdsaChacha20Poly1305 => "TLS_ECDHE_ECDSA_WITH_CHACHA20_POLY1305_SHA256",
            CipherSuite::EcdheRsaChacha20Poly1305 => "TLS_ECDHE_RSA_WITH_CHACHA20_POLY1305_SHA256",
            CipherSuite::EcdheRsaAes128CbcSha => "TLS_ECDHE_RSA_WITH_AES_128_CBC_SHA",
            CipherSuite::EcdheRsaAes256CbcSha => "TLS_ECDHE_RSA_WITH_AES_256_CBC_SHA",
            CipherSuite::RsaAes128GcmSha256 => "TLS_RSA_WITH_AES_128_GCM_SHA256",
            CipherSuite::RsaAes256GcmSha384 => "TLS_RSA_WITH_AES_256_GCM_SHA384",
            CipherSuite::RsaAes128CbcSha => "TLS_RSA_WITH_AES_128_CBC_SHA",
            CipherSuite::RsaAes256CbcSha => "TLS_RSA_WITH_AES_256_CBC_SHA",
            CipherSuite::EcdheEcdsaAes256CbcSha384 => "TLS_ECDHE_ECDSA_WITH_AES_256_CBC_SHA384",
            CipherSuite::EcdheEcdsaAes128CbcSha256 => "TLS_ECDHE_ECDSA_WITH_AES_128_CBC_SHA256",
            CipherSuite::EcdheEcdsaAes256CbcSha => "TLS_ECDHE_ECDSA_WITH_AES_256_CBC_SHA",
            CipherSuite::EcdheEcdsaAes128CbcSha => "TLS_ECDHE_ECDSA_WITH_AES_128_CBC_SHA",
            CipherSuite::EcdheRsaAes256CbcSha384 => "TLS_ECDHE_RSA_WITH_AES_256_CBC_SHA384",
            CipherSuite::EcdheRsaAes128CbcSha256 => "TLS_ECDHE_RSA_WITH_AES_128_CBC_SHA256",
            CipherSuite::RsaAes256CbcSha256 => "TLS_RSA_WITH_AES_256_CBC_SHA256",
            CipherSuite::RsaAes128CbcSha256 => "TLS_RSA_WITH_AES_128_CBC_SHA256",
            CipherSuite::EcdheEcdsa3desEdeCbcSha => "TLS_ECDHE_ECDSA_WITH_3DES_EDE_CBC_SHA",
            CipherSuite::EcdheRsa3desEdeCbcSha => "TLS_ECDHE_RSA_WITH_3DES_EDE_CBC_SHA",
            CipherSuite::Rsa3desEdeCbcSha => "TLS_RSA_WITH_3DES_EDE_CBC_SHA",
        }
    }

    /// The value of the given name; `UnknownCipher` where the name is none.
    pub fn from_name(text: &str) -> (found: Result<CipherSuite, ConfigError>)
        ensures
            match found {
                Ok(v) => v.spec_name() == text@,
                Err(e) => e == ConfigError::UnknownCipher && forall|v: CipherSuite|
                    #[trigger] v.spec_name() != text@,
            },
    {
        if str_eq(text, "TLS_AES_128_GCM_SHA256") {
            Ok(CipherSuite::Aes128GcmSha256)
        } else if str_eq(text, "TLS_AES_256_GCM_SHA384") {
            Ok(CipherSuite::Aes256GcmSha384)
        } else if str_eq(text, "TLS_CHACHA20_POLY1305_SHA256") {
            Ok(CipherSuite::Chacha20Poly1305Sha256)
        } else if str_eq(text, "TLS_ECDHE_ECDSA_WITH_AES_128_GCM_SHA256") {
            Ok(CipherSuite::EcdheEcdsaAes128GcmSha256)
        } else if str_eq(text, "TLS_ECDHE_RSA_WITH_AES_128_GCM_SHA256") {
            Ok(CipherSuite::EcdheRsaAes128GcmSha256)
        } else if str_eq(text, "TLS_ECDHE_ECDSA_WITH_AES_256_GCM_SHA384") {
            Ok(CipherSuite::EcdheEcdsaAes256GcmSha384)
        } else if str_eq(text, "TLS_ECDHE_RSA_WITH_AES_256_GCM_SHA384") {
            Ok(CipherSuite::EcdheRsaAes256GcmSha384)
        } else if str_eq(text, "TLS_ECDHE_ECDSA_WITH_CHACHA20_POLY1305_SHA256") {
            Ok(CipherSuite::EcdheEcdsaChacha20Poly1305)
        } else if str_eq(text, "TLS_ECDHE_RSA_WITH_CHACHA20_POLY1305_SHA256") {
            Ok(CipherSuite::EcdheRsaChacha20Poly1305)
        } else if str_eq(text, "TLS_ECDHE_RSA_WITH_AES_128_CBC_SHA") {
            Ok(CipherSuite::EcdheRsaAes128CbcSha)
        } else if str_eq(text, "TLS_ECDHE_RSA_WITH_AES_256_CBC_SHA") {
            Ok(CipherSuite::EcdheRsaAes256CbcSha)
        } else if str_eq(text, "TLS_RSA_WITH_AES_128_GCM_SHA256") {
            Ok(CipherSuite::RsaAes128GcmSha256)
        } else if str_eq(text, "TLS_RSA_WITH_AES_256_GCM_SHA384") {
            Ok(CipherSuite::RsaAes256GcmSha384)
        } else if str_eq(text, "TLS_RSA_WITH_AES_128_CBC_SHA") {
            Ok(CipherSuite::RsaAes128CbcSha)
        } else if str_eq(text, "TLS_RSA_WITH_AES_256_CBC_SHA") {
            Ok(CipherSuite::RsaAes256CbcSha)
        } else if str_eq(text, "TLS_ECDHE_ECDSA_WITH_AES_256_CBC_SHA384") {
            Ok(CipherSuite::EcdheEcdsaAes256CbcSha384)
        } else if str_eq(text, "TLS_ECDHE_ECDSA_WITH_AES_128_CBC_SHA256") {
            Ok(CipherSuite::EcdheEcdsaAes128CbcSha256)
        } else if str_eq(text, "TLS_ECDHE_ECDSA_WITH_AES_256_CBC_SHA") {
            Ok(CipherSuite::EcdheEcdsaAes256CbcSha)
        } else if str_eq(text, "TLS_ECDHE_ECDSA_WITH_AES_128_CBC_SHA") {
            Ok(CipherSuite::EcdheEcdsaAes128CbcSha)
        } else if str_eq(text, "TLS_ECDHE_RSA_WITH_AES_256_CBC_SHA384") {
            Ok(CipherSuite::EcdheRsaAes256CbcSha384)
        } else if str_eq(text, "TLS_ECDHE_RSA_WITH_AES_128_CBC_SHA256") {
            Ok(CipherSuite::EcdheRsaAes128CbcSha256)
        } else if str_eq(text, "TLS_RSA_WITH_AES_256_CBC_SHA256") {
            Ok(CipherSuite::RsaAes256CbcSha256)
        } else if str_eq(text, "TLS_RSA_WITH_AES_128_CBC_SHA256") {
            Ok(CipherSuite::RsaAes128CbcSha256)
        } else if str_eq(text, "TLS_ECDHE_ECDSA_WITH_3DES_EDE_CBC_SHA") {
            Ok(CipherSuite::EcdheEcdsa3desEdeCbcSha)
        } else if str_eq(text, "TLS_ECDHE_RSA_WITH_3DES_EDE_CBC_SHA") {
            Ok(CipherSuite::EcdheRsa3desEdeCbcSha)
        } else if str_eq(text, "TLS_RSA_WITH_3DES_EDE_CBC_SHA") {
            Ok(CipherSuite::Rsa3desEdeCbcSha)
        } else {
            Err(ConfigError::UnknownCipher)
        }
    }

    /// No two values share a name.
    pub proof fn lemma_name_distinct(a: CipherSuite, b: CipherSuite)
        requires
            a.spec_name() == b.spec_name(),
        ensures
            a == b,
    {
        reveal_strlit("TLS_AES_128_GCM_SHA256");
        reveal_strlit("TLS_AES_256_GCM_SHA384");
        reveal_strlit("TLS_CHACHA20_POLY1305_SHA256");
        reveal_strlit("TLS_ECDHE_ECDSA_WITH_AES_128_GCM_SHA256");
        reveal_strlit("TLS_ECDHE_RSA_WITH_AES_128_GCM_SHA256");
        reveal_strlit("TLS_ECDHE_ECDSA_WITH_AES_256_GCM_SHA384");
        reveal_strlit("TLS_ECDHE_RSA_WITH_AES_256_GCM_SHA384");
        reveal_strlit("TLS_ECDHE_ECDSA_WITH_CHACHA20_POLY1305_SHA256");
        reveal_strlit("TLS_ECDHE_RSA_WITH_CHACHA20_POLY1305_SHA256");
        reveal_strlit("TLS_ECDHE_RSA_WITH_AES_128_CBC_SHA");
        reveal_strlit("TLS_ECDHE_RSA_WITH_AES_256_CBC_SHA");
        reveal_strlit("TLS_RSA_WITH_AES_128_GCM_SHA256");
        reveal_strlit("TLS_RSA_WITH_AES_256_GCM_SHA384");
        reveal_strlit("TLS_RSA_WITH_AES_128_CBC_SHA");
        reveal_strlit("TLS_RSA_WITH_AES_256_CBC_SHA");
        reveal_strlit("TLS_ECDHE_ECDSA_WITH_AES_256_CBC_SHA384");
        reveal_strlit("TLS_ECDHE_ECDSA_WITH_AES_128_CBC_SHA256");
        reveal_strlit("TLS_ECDHE_ECDSA_WITH_AES_256_CBC_SHA");
        reveal_strlit("TLS_ECDHE_ECDSA_WITH_AES_128_CBC_SHA");
        reveal_strlit("TLS_ECDHE_RSA_WITH_AES_256_CBC_SHA384");
        reveal_strlit("TLS_ECDHE_RSA_WITH_AES_128_CBC_SHA256");
        reveal_strlit("TLS_RSA_WITH_AES_256_CBC_SHA256");
        reveal_strlit("TLS_RSA_WITH_AES_128_CBC_SHA256");
        reveal_strlit("TLS_ECDHE_ECDSA_WITH_3DES_EDE_CBC_SHA");
        reveal_strlit("TLS_ECDHE_RSA_WITH_3DES_EDE_CBC_SHA");
        reveal_strlit("TLS_RSA_WITH_3DES_EDE_CBC_SHA");
        let x = a.spec_name();
        let y = b.spec_name();
        assert(x.len() == y.len());
        assert(x[19] == y[19]);
        assert(x[21] == y[21]);
        assert(x[25] == y[25]);
        assert(x[29] == y[29]);
    }

    /// No name holds a colon, so that names joined by colons can be told
    /// apart again.
    pub proof fn lemma_name_has_no_colon(v: CipherSuite)
        ensures
            free_of(v.spec_name(), ':'),
    {
        Self::lemma_no_colon_1();
        Self::lemma_no_colon_2();
        Self::lemma_no_colon_3();
        Self::lemma_no_colon_4();
    }

    proof fn lemma_no_colon_1()
        ensures
            free_of(CipherSuite::Aes128GcmSha256.spec_name(), ':'),
            free_of(CipherSuite::Aes256GcmSha384.spec_name(), ':'),
            free_of(CipherSuite::Chacha20Poly1305Sha256.spec_name(), ':'),
            free_of(CipherSuite::EcdheEcdsaAes128GcmSha256.spec_name(), ':'),
            free_of(CipherSuite::EcdheRsaAes128GcmSha256.spec_name(), ':'),
            free_of(CipherSuite::EcdheEcdsaAes256GcmSha384.spec_name(), ':'),
            free_of(CipherSuite::EcdheRsaAes256GcmSha384.spec_name(), ':'),
    {
        reveal_strlit("TLS_AES_128_GCM_SHA256");
        reveal_strlit("TLS_AES_256_GCM_SHA384");
        reveal_strlit("TLS_CHACHA20_POLY1305_SHA256");
        reveal_strlit("TLS_ECDHE_ECDSA_WITH_AES_128_GCM_SHA256");
        reveal_strlit("TLS_ECDHE_RSA_WITH_AES_128_GCM_SHA256");
        reveal_strlit("TLS_ECDHE_ECDSA_WITH_AES_256_GCM_SHA384");
        reveal_strlit("TLS_ECDHE_RSA_WITH_AES_256_GCM_SHA384");
    }

    proof fn lemma_no_colon_2()
        ensures
            free_of(CipherSuite::EcdheEcdsaChacha20Poly1305.spec_name(), ':'),
            free_of(CipherSuite::EcdheRsaChacha20Poly1305.spec_name(), ':'),
            free_of(CipherSuite::EcdheRsaAes128CbcSha.spec_name(), ':'),
            free_of(CipherSuite::EcdheRsaAes256CbcSha.spec_name(), ':'),
            free_of(CipherSuite::RsaAes128GcmSha256.spec_name(), ':'),
            free_of(CipherSuite::RsaAes256GcmSha384.spec_name(), ':'),
            free_of(CipherSuite::RsaAes128CbcSha.spec_name(), ':'),
    {
        reveal_strlit("TLS_ECDHE_ECDSA_WITH_CHACHA20_POLY1305_SHA256");
        reveal_strlit("TLS_ECDHE_RSA_WITH_CHACHA20_POLY1305_SHA256");
        reveal_strlit("TLS_ECDHE_RSA_WITH_AES_128_CBC_SHA");
        reveal_strlit("TLS_ECDHE_RSA_WITH_AES_256_CBC_SHA");
        reveal_strlit("TLS_RSA_WITH_AES_128_GCM_SHA256");
        reveal_strlit("TLS_RSA_WITH_AES_256_GCM_SHA384");
        reveal_strlit("TLS_RSA_WITH_AES_128_CBC_SHA");
    }

    proof fn lemma_no_colon_3()
        ensures
            free_of(CipherSuite::RsaAes256CbcSha.spec_name(), ':'),
            free_of(CipherSuite::EcdheEcdsaAes256CbcSha384.spec_name(), ':'),
            free_of(CipherSuite::EcdheEcdsaAes128CbcSha256.spec_name(), ':'),
            free_of(CipherSuite::EcdheEcdsaAes256CbcSha.spec_name(), ':'),
            free_of(CipherSuite::EcdheEcdsaAes128CbcSha.spec_name(), ':'),
            free_of(CipherSuite::EcdheRsaAes256CbcSha384.spec_name(), ':'),
            free_of(CipherSuite::EcdheRsaAes128CbcSha256.spec_name(), ':'),
    {
        reveal_strlit("TLS_RSA_WITH_AES_256_CBC_SHA");
        reveal_strlit("TLS_ECDHE_ECDSA_WITH_AES_256_CBC_SHA384");
        reveal_strlit("TLS_ECDHE_ECDSA_WITH_AES_128_CBC_SHA256");
        reveal_strlit("TLS_ECDHE_ECDSA_WITH_AES_256_CBC_SHA");
        reveal_strlit("TLS_ECDHE_ECDSA_WITH_AES_128_CBC_SHA");
        reveal_strlit("TLS_ECDHE_RSA_WITH_AES_256_CBC_SHA384");
        reveal_strlit("TLS_ECDHE_RSA_WITH_AES_128_CBC_SHA256");
    }

    proof fn lemma_no_colon_4()
        ensures
            free_of(CipherSuite::RsaAes256CbcSha256.spec_name(), ':'),
            free_of(CipherSuite::RsaAes128CbcSha256.spec_name(), ':'),
            free_of(CipherSuite::EcdheEcdsa3desEdeCbcSha.spec_name(), ':'),
            free_of(CipherSuite::EcdheRsa3desEdeCbcSha.spec_name(), ':'),
            free_of(CipherSuite::Rsa3desEdeCbcSha.spec_name(), ':'),
    {
        reveal_strlit("TLS_RSA_WITH_AES_256_CBC_SHA256");
        reveal_strlit("TLS_RSA_WITH_AES_128_CBC_SHA256");
        reveal_strlit("TLS_ECDHE_ECDSA_WITH_3DES_EDE_CBC_SHA");
        reveal_strlit("TLS_ECDHE_RSA_WITH_3DES_EDE_CBC_SHA");
        reveal_strlit("TLS_RSA_WITH_3DES_EDE_CBC_SHA");
    }
}

/// An algorithm for compressing certificates.
#[derive(Clone, Copy, Debug, PartialEq, Eq, Structural)]
pub enum CertCompressionAlgorithm {
    Zlib,
    Brotli,
    Zstd,
}

impl CertCompressionAlgorithm {
    /// The algorithm's code in `compress_certificate`.
    pub open spec fn wire(self) -> u16 {
        match self {
            CertCompressionAlgorithm::Zlib => 1,
            CertCompressionAlgorithm::Brotli => 2,
            CertCompressionAlgorithm::Zstd => 3,
        }
    }

    /// The algorithm's code in `compress_certificate`.
    pub fn wire_id(self) -> (id: u16)
        ensures
            id == self.wire(),
    {
        match self {
            CertCompressionAlgorithm::Zlib => 1,
            CertCompressionAlgorithm::Brotli => 2,
            CertCompressionAlgorithm::Zstd => 3,
        }
    }

    /// The value with the given code, where there is one.
    pub fn from_wire_id(id: u16) -> (found: Option<CertCompressionAlgorithm>)
        ensures
            match found {
                Some(v) => v.wire() == id,
                None => forall|v: CertCompressionAlgorithm| #[trigger] v.wire() != id,
            },
    {
        if id == 1 {
            Some(CertCompressionAlgorithm::Zlib)
        } else if id == 2 {
            Some(CertCompressionAlgorithm::Brotli)
        } else if id == 3 {
            Some(CertCompressionAlgorithm::Zstd)
        } else {
            None
        }
    }

    /// No two values share a code.
    pub proof fn lemma_wire_distinct(a: CertCompressionAlgorithm, b: CertCompressionAlgorithm)
        requires
            a.wire() == b.wire(),
        ensures
            a == b,
    {
    }
}

/// A ClientHello extension that a profile can place. GREASE extensions have
/// no fixed code and are placed apart.
#[derive(Clone, Copy, Debug, PartialEq, Eq, Structural)]
pub enum ExtensionId {
    ServerName,
    StatusRequest,
    SupportedGroups,
    EcPointFormats,
    SignatureAlgorithms,
    ApplicationLayerProtocolNegotiation,
    SignedCertificateTimestamp,
    Padding,
    ExtendedMasterSecret,
    CompressCertificate,
    SessionTicket,
    PreSharedKey,
    SupportedVersions,
    PskKeyExchangeModes,
    KeyShare,
    ApplicationSettings,
    EncryptedClientHello,
    RenegotiationInfo,
}

impl ExtensionId {
    /// The extension's type code.
    pub open spec fn wire(self) -> u16 {
        match self {
            ExtensionId::ServerName => 0,
            ExtensionId::StatusRequest => 5,
            ExtensionId::SupportedGroups => 10,
            ExtensionId::EcPointFormats => 11,
            ExtensionId::SignatureAlgorithms => 13,
            ExtensionId::ApplicationLayerProtocolNegotiation => 16,
            ExtensionId::SignedCertificateTimestamp => 18,
            ExtensionId::Padding => 21,
            ExtensionId::ExtendedMasterSecret => 23,
            ExtensionId::CompressCertificate => 27,
            ExtensionId::SessionTicket => 35,
            ExtensionId::PreSharedKey => 41,
            ExtensionId::SupportedVersions => 43,
            ExtensionId::PskKeyExchangeModes => 45,
            ExtensionId::KeyShare => 51,
            ExtensionId::ApplicationSettings => 17513,
            ExtensionId::EncryptedClientHello => 65037,
            ExtensionId::RenegotiationInfo => 65281,
        }
    }

    /// The extension's type code.
    pub fn wire_id(self) -> (id: u16)
        ensures
            id == self.wire(),
    {
        match self {
            ExtensionId::ServerName => 0,
            ExtensionId::StatusRequest => 5,
            ExtensionId::SupportedGroups => 10,
            ExtensionId::EcPointFormats => 11,
            ExtensionId::SignatureAlgorithms => 13,
            ExtensionId::ApplicationLayerProtocolNegotiation => 16,
            ExtensionId::SignedCertificateTimestamp => 18,
            ExtensionId::Padding => 21,
            ExtensionId::ExtendedMasterSecret => 23,
            ExtensionId::CompressCertificate => 27,
            ExtensionId::SessionTicket => 35,
            ExtensionId::PreSharedKey => 41,
            ExtensionId::SupportedVersions => 43,
            ExtensionId::PskKeyExchangeModes => 45,
            ExtensionId::KeyShare => 51,
            ExtensionId::ApplicationSettings => 17513,
            ExtensionId::EncryptedClientHello => 65037,
            ExtensionId::RenegotiationInfo => 65281,
        }
    }

    /// The value with the given code, where there is one.
    pub fn from_wire_id(id: u16) -> (found: Option<ExtensionId>)
        ensures
            match found {
                Some(v) => v.wire() == id,
                None => forall|v: ExtensionId| #[trigger] v.wire() != id,
            },
    {
        if id == 0 {
            Some(ExtensionId::ServerName)
        } else if id == 5 {
            Some(ExtensionId::StatusRequest)
        } else if id == 10 {
            Some(ExtensionId::SupportedGroups)
        } else if id == 11 {
            Some(ExtensionId::EcPointFormats)
        } else if id == 13 {
            Some(ExtensionId::SignatureAlgorithms)
        } else if id == 16 {
            Some(ExtensionId::ApplicationLayerProtocolNegotiation)
        } else if id == 18 {
            Some(ExtensionId::SignedCertificateTimestamp)
        } else if id == 21 {
            Some(ExtensionId::Padding)
        } else if id == 23 {
            Some(ExtensionId::ExtendedMasterSecret)
        } else if id == 27 {
            Some(ExtensionId::CompressCertificate)
        } else if id == 35 {
            Some(ExtensionId::SessionTicket)
        } else if id == 41 {
            Some(ExtensionId::PreSharedKey)
        } else if id == 43 {
            Some(ExtensionId::SupportedVersions)
        } else if id == 45 {
            Some(ExtensionId::PskKeyExchangeModes)
        } else if id == 51 {
            Some(ExtensionId::KeyShare)
        } else if id == 17513 {
            Some(ExtensionId::ApplicationSettings)
        } else if id == 65037 {
            Some(ExtensionId::EncryptedClientHello)
        } else if id == 65281 {
            Some(ExtensionId::RenegotiationInfo)
        } else {
            None
        }
    }

    /// No two values share a code.
    pub proof fn lemma_wire_distinct(a: ExtensionId, b: ExtensionId)
        requires
            a.wire() == b.wire(),
        ensures
            a == b,
    {
    }
}

/// An HTTP/2 setting.
#[derive(Clone, Copy, Debug, PartialEq, Eq, Structural)]
pub enum SettingId {
    HeaderTableSize,
    EnablePush,
    MaxConcurrentStreams,
    InitialWindowSize,
    MaxFrameSize,
    MaxHeaderListSize,
    EnableConnectProtocol,
}

impl SettingId {
    /// The setting's identifier in a SETTINGS frame.
    pub open spec fn wire(self) -> u16 {
        match self {
            SettingId::HeaderTableSize => 1,
            SettingId::EnablePush => 2,
            SettingId::MaxConcurrentStreams => 3,
            SettingId::InitialWindowSize => 4,
            SettingId::MaxFrameSize => 5,
            SettingId::MaxHeaderListSize => 6,
            SettingId::EnableConnectProtocol => 8,
        }
    }

    /// The setting's identifier in a SETTINGS frame.
    pub fn wire_id(self) -> (id: u16)
        ensures
            id == self.wire(),
    {
        match self {
            SettingId::HeaderTableSize => 1,
            SettingId::EnablePush => 2,
            SettingId::MaxConcurrentStreams => 3,
            SettingId::InitialWindowSize => 4,
            SettingId::MaxFrameSize => 5,
            SettingId::MaxHeaderListSize => 6,
            SettingId::EnableConnectProtocol => 8,
        }
    }

    /// The value with the given code, where there is one.
    pub fn from_wire_id(id: u16) -> (found: Option<SettingId>)
        ensures
            match found {
                Some(v) => v.wire() == id,
                None => forall|v: SettingId| #[trigger] v.wire() != id,
            },
    {
        if id == 1 {
            Some(SettingId::HeaderTableSize)
        } else if id == 2 {
            Some(SettingId::EnablePush)
        } else if id == 3 {
            Some(SettingId::MaxConcurrentStreams)
        } else if id == 4 {
            Some(SettingId::InitialWindowSize)
        } else if id == 5 {
            Some(SettingId::MaxFrameSize)
        } else if id == 6 {
            Some(SettingId::MaxHeaderListSize)
        } else if id == 8 {
            Some(SettingId::EnableConnectProtocol)
        } else {
            None
        }
    }

    /// No two values share a code.
    pub proof fn lemma_wire_distinct(a: SettingId, b: SettingId)
        requires
            a.wire() == b.wire(),
        ensures
            a == b,
    {
    }
}

/// An HTTP/2 pseudo-header of a request.
#[derive(Clone, Copy, Debug, PartialEq, Eq, Structural)]
pub enum PseudoHeader {
    Method,
    Scheme,
    Authority,
    Path,
}

impl PseudoHeader {
    /// The pseudo-header's name on the wire.
    pub open spec fn spec_name(self) -> Seq<char> {
        match self {
            PseudoHeader::Method => ":method"@,
            PseudoHeader::Scheme => ":scheme"@,
            PseudoHeader::Authority => ":authority"@,
            PseudoHeader::Path => ":path"@,
        }
    }

    /// The pseudo-header's name on the wire.
    pub fn name(self) -> (text: &'static str)
        ensures
            text@ == self.spec_name(),
    {
        match self {
            PseudoHeader::Method => ":method",
            PseudoHeader::Scheme => ":scheme",
            PseudoHeader::Authority => ":authority",
            PseudoHeader::Path => ":path",
        }
    }
}

} // verus!

use impersonate::connector::{build_connector_factory, EngineDirective};
use impersonate::error::ConfigError;
use impersonate::hello::{
    alpn_protocols, certificate_compression, cipher_suites, extension_ids, extensions,
    grease_value, signature_algorithms, supported_groups, Extension,
};
use impersonate::permute::{emit_extensions, is_permutable, permute_extensions};
use impersonate::tls::{apply_overrides, Alpn, TlsConfig, TlsOverrides, TlsProfile, TlsToggles};
use impersonate::wire::{
    CertCompressionAlgorithm, CipherSuite, Curve, ExtensionId, SignatureScheme, TlsVersion,
};

fn toggles() -> TlsToggles {
    TlsToggles {
        sni: true,
        grease: false,
        ech_grease: false,
        pre_shared_key: false,
        application_settings: false,
        ocsp_stapling: false,
        signed_cert_timestamps: false,
        session_ticket: true,
        permute_extensions: false,
    }
}

fn config() -> TlsConfig {
    TlsConfig {
        min_version: TlsVersion::Tls12,
        max_version: TlsVersion::Tls13,
        curves: vec![Curve::X25519, Curve::Secp256r1],
        sigalgs: vec![SignatureScheme::EcdsaSecp256r1Sha256, SignatureScheme::RsaPssRsaeSha256],
        ciphers: vec![CipherSuite::Aes128GcmSha256, CipherSuite::Aes256GcmSha384],
        alpn: Alpn::H2ThenHttp11,
        toggles: toggles(),
        cert_compression_algs: Vec::new(),
    }
}

fn known(id: ExtensionId) -> Extension {
    Extension::Known(id)
}

fn sorted(mut block: Vec<Extension>) -> Vec<u16> {
    let mut codes = extension_ids(&block, 0);
    block.clear();
    codes.sort();
    codes
}

#[test]
fn consistent_profile_passes() {
    assert_eq!(TlsProfile::new(config()).validate(), Ok(()));
    assert!(build_connector_factory(&TlsProfile::new(config())).is_ok());
}

#[test]
fn min_version_above_max_is_refused() {
    let profile = TlsProfile::new(TlsConfig {
        min_version: TlsVersion::Tls13,
        max_version: TlsVersion::Tls12,
        ..config()
    });
    assert_eq!(profile.validate(), Err(ConfigError::VersionRange));
    assert_eq!(build_connector_factory(&profile).err(), Some(ConfigError::VersionRange));
}

#[test]
fn equal_versions_are_a_range() {
    let profile = TlsProfile::new(TlsConfig {
        min_version: TlsVersion::Tls10,
        max_version: TlsVersion::Tls10,
        ..config()
    });
    assert_eq!(profile.validate(), Ok(()));
}

#[test]
fn empty_curves_are_refused() {
    let profile = TlsProfile::new(TlsConfig { curves: Vec::new(), ..config() });
    assert_eq!(profile.validate(), Err(ConfigError::EmptyCurves));
}

#[test]
fn repeated_curve_is_refused() {
    let profile = TlsProfile::new(TlsConfig {
        curves: vec![Curve::X25519, Curve::Secp384r1, Curve::X25519],
        ..config()
    });
    assert_eq!(profile.validate(), Err(ConfigError::DuplicateCurve));
}

#[test]
fn empty_cipher_list_is_refused() {
    let profile = TlsProfile::new(TlsConfig { ciphers: Vec::new(), ..config() });
    assert_eq!(build_connector_factory(&profile).err(), Some(ConfigError::EmptyCiphers));
}

#[test]
fn ech_grease_needs_tls13() {
    let profile = TlsProfile::new(TlsConfig {
        max_version: TlsVersion::Tls12,
        toggles: TlsToggles { ech_grease: true, ..toggles() },
        ..config()
    });
    assert_eq!(profile.validate(), Err(ConfigError::EchGreaseWithoutTls13));
}

#[test]
fn pre_shared_key_needs_tls13() {
    let profile = TlsProfile::new(TlsConfig {
        max_version: TlsVersion::Tls12,
        toggles: TlsToggles { pre_shared_key: true, ..toggles() },
        ..config()
    });
    assert_eq!(profile.validate(), Err(ConfigError::PreSharedKeyWithoutTls13));
}

#[test]
fn repeated_compression_algorithm_is_refused() {
    let profile = TlsProfile::new(TlsConfig {
        cert_compression_algs: vec![
            CertCompressionAlgorithm::Brotli,
            CertCompressionAlgorithm::Zlib,
            CertCompressionAlgorithm::Brotli,
        ],
        ..config()
    });
    assert_eq!(profile.validate(), Err(ConfigError::DuplicateCertCompression));
}

#[test]
fn first_broken_rule_is_reported() {
    let profile = TlsProfile::new(TlsConfig {
        min_version: TlsVersion::Tls13,
        max_version: TlsVersion::Tls12,
        curves: Vec::new(),
        ciphers: Vec::new(),
        ..config()
    });
    assert_eq!(profile.validate(), Err(ConfigError::VersionRange));
}

#[test]
fn overrides_replace_named_fields_only() {
    let base = TlsProfile::new(config());
    let overrides = TlsOverrides {
        curves: Some(vec![Curve::Secp521r1]),
        min_version: Some(TlsVersion::Tls10),
        permute_extensions: Some(true),
        pre_shared_key: Some(true),
        sni: Some(false),
        ..TlsOverrides::none()
    };
    let changed = apply_overrides(&base, &overrides);
    assert_eq!(changed.curves(), vec![Curve::Secp521r1]);
    assert_eq!(changed.min_version(), TlsVersion::Tls10);
    assert_eq!(changed.max_version(), TlsVersion::Tls13);
    assert_eq!(changed.ciphers(), base.ciphers());
    assert_eq!(changed.sigalgs(), base.sigalgs());
    assert_eq!(changed.alpn(), Alpn::H2ThenHttp11);
    assert_eq!(
        changed.toggles(),
        TlsToggles { permute_extensions: true, pre_shared_key: true, sni: false, ..toggles() }
    );
    // The profile that was overridden is as it was.
    assert_eq!(base.curves(), vec![Curve::X25519, Curve::Secp256r1]);
    assert_eq!(base.toggles(), toggles());
}

#[test]
fn no_overrides_change_nothing() {
    let base = TlsProfile::new(config());
    let same = apply_overrides(&base, &TlsOverrides::none());
    assert_eq!(same.curves(), base.curves());
    assert_eq!(same.toggles(), base.toggles());
    assert_eq!(same.min_version(), base.min_version());
    assert_eq!(same.max_version(), base.max_version());
    assert_eq!(same.cert_compression_algs(), base.cert_compression_algs());
}

#[test]
fn overrides_are_validated_when_the_factory_is_built() {
    let base = TlsProfile::new(config());
    let overrides = TlsOverrides { max_version: Some(TlsVersion::Tls11), ..TlsOverrides::none() };
    let changed = apply_overrides(&base, &overrides);
    assert_eq!(build_connector_factory(&changed).err(), Some(ConfigError::VersionRange));
}

#[test]
fn names_resolve_to_identifiers() {
    assert_eq!(
        CipherSuite::from_name("TLS_ECDHE_RSA_WITH_AES_128_GCM_SHA256"),
        Ok(CipherSuite::EcdheRsaAes128GcmSha256)
    );
    assert_eq!(CipherSuite::EcdheRsaAes128GcmSha256.wire_id(), 0xc02f);
    assert_eq!(SignatureScheme::from_name("rsa_pkcs1_sha512"), Ok(SignatureScheme::RsaPkcs1Sha512));
    assert_eq!(SignatureScheme::RsaPkcs1Sha512.wire_id(), 0x0601);
    assert_eq!(Curve::from_name("X25519Kyber768Draft00"), Ok(Curve::X25519Kyber768Draft00));
    assert_eq!(Curve::X25519Kyber768Draft00.wire_id(), 0x6399);
    assert_eq!(Curve::from_name("P-256"), Ok(Curve::Secp256r1));
}

#[test]
fn unknown_names_are_config_errors() {
    assert_eq!(CipherSuite::from_name("TLS_NULL_WITH_NULL_NULL"), Err(ConfigError::UnknownCipher));
    assert_eq!(CipherSuite::from_name("tls_aes_128_gcm_sha256"), Err(ConfigError::UnknownCipher));
    assert_eq!(CipherSuite::from_name(""), Err(ConfigError::UnknownCipher));
    assert_eq!(SignatureScheme::from_name("rsa_md5"), Err(ConfigError::UnknownSignatureScheme));
    assert_eq!(Curve::from_name("P-192"), Err(ConfigError::UnknownCurve));
}

#[test]
fn every_name_reads_back() {
    for id in 0..=u16::MAX {
        if let Some(cipher) = CipherSuite::from_wire_id(id) {
            assert_eq!(cipher.wire_id(), id);
            assert_eq!(CipherSuite::from_name(cipher.name()), Ok(cipher));
        }
        if let Some(scheme) = SignatureScheme::from_wire_id(id) {
            assert_eq!(scheme.wire_id(), id);
            assert_eq!(SignatureScheme::from_name(scheme.name()), Ok(scheme));
        }
        if let Some(curve) = Curve::from_wire_id(id) {
            assert_eq!(curve.wire_id(), id);
            assert_eq!(Curve::from_name(curve.name()), Ok(curve));
        }
    }
}

#[test]
fn wire_codes_are_the_registered_ones() {
    assert_eq!(TlsVersion::Tls10.wire_id(), 0x0301);
    assert_eq!(TlsVersion::Tls13.wire_id(), 0x0304);
    assert_eq!(TlsVersion::from_wire_id(0x0303), Some(TlsVersion::Tls12));
    assert_eq!(TlsVersion::from_wire_id(0x0300), None);
    assert!(TlsVersion::Tls10.is_at_most(TlsVersion::Tls10));
    assert!(TlsVersion::Tls11.is_at_most(TlsVersion::Tls13));
    assert!(!TlsVersion::Tls13.is_at_most(TlsVersion::Tls12));
    assert_eq!(Curve::Secp224r1.wire_id(), 21);
    assert_eq!(Curve::Secp521r1.wire_id(), 25);
    assert_eq!(Curve::X25519.wire_id(), 29);
    assert_eq!(CertCompressionAlgorithm::Zlib.wire_id(), 1);
    assert_eq!(CertCompressionAlgorithm::Brotli.wire_id(), 2);
    assert_eq!(CertCompressionAlgorithm::Zstd.wire_id(), 3);
    assert_eq!(ExtensionId::ApplicationSettings.wire_id(), 17513);
    assert_eq!(ExtensionId::EncryptedClientHello.wire_id(), 65037);
    assert_eq!(ExtensionId::PreSharedKey.wire_id(), 41);
    assert_eq!(ExtensionId::from_wire_id(21), Some(ExtensionId::Padding));
    assert_eq!(ExtensionId::from_wire_id(1), None);
}

#[test]
fn lists_are_emitted_in_declared_order() {
    let profile = TlsProfile::new(TlsConfig {
        curves: vec![Curve::Secp384r1, Curve::X25519, Curve::Secp256r1],
        sigalgs: vec![SignatureScheme::RsaPkcs1Sha1, SignatureScheme::Ed25519],
        ciphers: vec![CipherSuite::RsaAes256CbcSha, CipherSuite::Aes128GcmSha256],
        cert_compression_algs: vec![CertCompressionAlgorithm::Zstd, CertCompressionAlgorithm::Zlib],
        ..config()
    });
    assert_eq!(supported_groups(&profile, 3), vec![24, 29, 23]);
    assert_eq!(signature_algorithms(&profile), vec![0x0201, 0x0807]);
    assert_eq!(cipher_suites(&profile, 3), vec![0x0035, 0x1301]);
    assert_eq!(certificate_compression(&profile), vec![3, 1]);
}

#[test]
fn grease_goes_in_front_of_ciphers_and_curves() {
    let profile =
        TlsProfile::new(TlsConfig { toggles: TlsToggles { grease: true, ..toggles() }, ..config() });
    assert_eq!(cipher_suites(&profile, 0), vec![0x0a0a, 0x1301, 0x1302]);
    assert_eq!(supported_groups(&profile, 15), vec![0xfafa, 29, 23]);
    assert_eq!(signature_algorithms(&profile), vec![0x0403, 0x0804]);
}

#[test]
fn grease_values_are_the_sixteen_reserved_ones() {
    assert_eq!(grease_value(0), 0x0a0a);
    assert_eq!(grease_value(1), 0x1a1a);
    assert_eq!(grease_value(15), 0xfafa);
    assert_eq!(grease_value(16), 0x0a0a);
    assert_eq!(grease_value(255), 0xfafa);
    for number in 0..=255u8 {
        let code = grease_value(number);
        assert_eq!(code & 0x0f0f, 0x0a0a);
        assert_eq!(code >> 8, code & 0xff);
    }
}

#[test]
fn alpn_wire_form_has_length_prefixes() {
    assert_eq!(alpn_protocols(Alpn::Disabled), Vec::<u8>::new());
    assert_eq!(alpn_protocols(Alpn::H2), b"\x02h2".to_vec());
    assert_eq!(alpn_protocols(Alpn::Http11), b"\x08http/1.1".to_vec());
    assert_eq!(alpn_protocols(Alpn::H2ThenHttp11), b"\x02h2\x08http/1.1".to_vec());
    assert_eq!(alpn_protocols(Alpn::Http11ThenH2), b"\x08http/1.1\x02h2".to_vec());
    assert!(Alpn::Http11ThenH2.offers_h2());
    assert!(!Alpn::Http11.offers_h2());
    assert!(!Alpn::Disabled.offers_h2());
}

#[test]
fn directives_follow_the_profile() {
    let profile = TlsProfile::new(TlsConfig {
        toggles: TlsToggles { session_ticket: false, sni: false, ..toggles() },
        alpn: Alpn::Disabled,
        sigalgs: Vec::new(),
        cert_compression_algs: vec![CertCompressionAlgorithm::Zlib, CertCompressionAlgorithm::Zstd],
        ..config()
    });
    let factory = build_connector_factory(&profile).unwrap();
    let calls = factory.directives();
    assert_eq!(calls.len(), 10);
    assert!(matches!(calls[0], EngineDirective::SetGreaseEnabled(false)));
    assert!(matches!(&calls[1], EngineDirective::SetCurves(c) if *c == vec![Curve::X25519, Curve::Secp256r1]));
    assert!(matches!(&calls[2], EngineDirective::SetCipherList(s) if s == "TLS_AES_128_GCM_SHA256:TLS_AES_256_GCM_SHA384"));
    assert!(matches!(calls[3], EngineDirective::SetMinProtoVersion(TlsVersion::Tls12)));
    assert!(matches!(calls[4], EngineDirective::SetMaxProtoVersion(TlsVersion::Tls13)));
    assert!(matches!(calls[5], EngineDirective::SetPermuteExtensions(false)));
    assert!(matches!(calls[6], EngineDirective::AddCertCompression(CertCompressionAlgorithm::Zlib)));
    assert!(matches!(calls[7], EngineDirective::AddCertCompression(CertCompressionAlgorithm::Zstd)));
    assert!(matches!(calls[8], EngineDirective::DisableSessionTickets));
    assert!(matches!(calls[9], EngineDirective::DisableServerName));
}

#[test]
fn one_cipher_is_joined_without_a_colon() {
    let profile =
        TlsProfile::new(TlsConfig { ciphers: vec![CipherSuite::Aes128GcmSha256], ..config() });
    let calls = build_connector_factory(&profile).unwrap().directives();
    assert!(calls
        .iter()
        .any(|c| matches!(c, EngineDirective::SetCipherList(s) if s == "TLS_AES_128_GCM_SHA256")));
    assert!(calls.iter().any(|c| matches!(c,
        EngineDirective::SetSigalgsList(s) if s == "ecdsa_secp256r1_sha256:rsa_pss_rsae_sha256")));
    assert!(calls
        .iter()
        .any(|c| matches!(c, EngineDirective::SetAlpnProtos(w) if w == b"\x02h2\x08http/1.1")));
}

#[test]
fn preconfigured_tls_offers_its_two_curves_and_no_ticket() {
    let profile = TlsProfile::new(TlsConfig {
        min_version: TlsVersion::Tls10,
        max_version: TlsVersion::Tls13,
        curves: vec![Curve::Secp224r1, Curve::Secp521r1],
        alpn: Alpn::H2ThenHttp11,
        toggles: TlsToggles {
            sni: true,
            application_settings: true,
            pre_shared_key: true,
            ech_grease: true,
            permute_extensions: true,
            session_ticket: false,
            ..toggles()
        },
        ..config()
    });
    assert_eq!(supported_groups(&profile, 0), vec![21, 25]);
    let factory = build_connector_factory(&profile).unwrap();
    let calls = factory.directives();
    assert!(calls.iter().any(
        |c| matches!(c, EngineDirective::SetCurves(c) if *c == vec![Curve::Secp224r1, Curve::Secp521r1])
    ));
    assert!(calls.iter().any(|c| matches!(c, EngineDirective::DisableSessionTickets)));
    assert!(calls.iter().any(|c| matches!(c, EngineDirective::SetMinProtoVersion(TlsVersion::Tls10))));
    assert!(calls.iter().any(|c| matches!(c, EngineDirective::SetMaxProtoVersion(TlsVersion::Tls13))));
    for picks in [vec![], vec![7, 1, 3, 9, 4, 4, 2, 8, 6, 0, 5, 1, 2, 3], vec![u32::MAX; 20]] {
        let sent = emit_extensions(&profile, true, false, &picks);
        assert!(!sent.contains(&known(ExtensionId::SessionTicket)));
        assert!(sent.contains(&known(ExtensionId::SupportedGroups)));
    }
}

#[test]
fn extension_block_has_its_fixed_order() {
    let profile = TlsProfile::new(TlsConfig {
        toggles: TlsToggles {
            grease: true,
            ocsp_stapling: true,
            signed_cert_timestamps: true,
            application_settings: true,
            ech_grease: true,
            pre_shared_key: true,
            ..toggles()
        },
        cert_compression_algs: vec![CertCompressionAlgorithm::Brotli],
        ..config()
    });
    let block = extensions(&profile, true, true);
    assert_eq!(
        extension_ids(&block, 2),
        vec![0x2a2a, 0, 23, 65281, 10, 11, 35, 16, 5, 13, 18, 51, 45, 43, 27, 17513, 65037, 21, 41]
    );
    // Without a cached session no pre-shared key is offered; without padding none is sent.
    let block = extensions(&profile, false, false);
    assert_eq!(
        extension_ids(&block, 2),
        vec![0x2a2a, 0, 23, 65281, 10, 11, 35, 16, 5, 13, 18, 51, 45, 43, 27, 17513, 65037]
    );
}

#[test]
fn plain_profile_sends_the_plain_extensions() {
    let profile = TlsProfile::new(TlsConfig {
        max_version: TlsVersion::Tls12,
        alpn: Alpn::Disabled,
        sigalgs: Vec::new(),
        toggles: TlsToggles { sni: false, session_ticket: false, ..toggles() },
        ..config()
    });
    let block = extensions(&profile, true, false);
    assert_eq!(extension_ids(&block, 0), vec![23, 65281, 10, 11]);
}

#[test]
fn shuffle_keeps_the_extensions_and_the_fixed_places() {
    let profile = TlsProfile::new(TlsConfig {
        toggles: TlsToggles { grease: true, pre_shared_key: true, ..toggles() },
        ..config()
    });
    let block = extensions(&profile, true, true);
    let n = block.len();
    for seed in 0..50u32 {
        let picks: Vec<u32> =
            (0..n as u32).map(|k| k.wrapping_mul(2654435761).wrapping_add(seed * 97)).collect();
        let out = permute_extensions(block.clone(), &picks);
        assert_eq!(out.len(), n);
        assert_eq!(sorted(out.clone()), sorted(block.clone()));
        assert_eq!(out[0], Extension::Grease);
        assert_eq!(out[n - 2], known(ExtensionId::Padding));
        assert_eq!(out[n - 1], known(ExtensionId::PreSharedKey));
        for i in 0..n {
            assert_eq!(is_permutable(out[i]), is_permutable(block[i]));
        }
    }
}

#[test]
fn shuffle_follows_the_numbers_drawn() {
    let block = vec![
        Extension::Grease,
        known(ExtensionId::ServerName),
        known(ExtensionId::SupportedGroups),
        known(ExtensionId::Padding),
        known(ExtensionId::KeyShare),
        known(ExtensionId::PreSharedKey),
    ];
    // The movable places are 1, 2 and 4. The third changes places with the
    // first (5 % 3 = 2 is itself; 3 % 3 = 0), then the second with itself or
    // the first (picks[1] % 2).
    let out = permute_extensions(block.clone(), &vec![9, 1, 3]);
    assert_eq!(
        out,
        vec![
            Extension::Grease,
            known(ExtensionId::KeyShare),
            known(ExtensionId::SupportedGroups),
            known(ExtensionId::Padding),
            known(ExtensionId::ServerName),
            known(ExtensionId::PreSharedKey),
        ]
    );
    let out = permute_extensions(block.clone(), &vec![9, 0, 5]);
    assert_eq!(
        out,
        vec![
            Extension::Grease,
            known(ExtensionId::SupportedGroups),
            known(ExtensionId::ServerName),
            known(ExtensionId::Padding),
            known(ExtensionId::KeyShare),
            known(ExtensionId::PreSharedKey),
        ]
    );
}

#[test]
fn shuffle_without_numbers_changes_nothing() {
    let profile = TlsProfile::new(config());
    let block = extensions(&profile, false, false);
    assert_eq!(permute_extensions(block.clone(), &Vec::new()), block);
    assert_eq!(permute_extensions(Vec::new(), &vec![1, 2, 3]), Vec::new());
    let single = vec![known(ExtensionId::KeyShare)];
    assert_eq!(permute_extensions(single.clone(), &vec![5]), single);
}

#[test]
fn same_numbers_give_the_same_shuffle() {
    let profile = TlsProfile::new(TlsConfig {
        toggles: TlsToggles { permute_extensions: true, ..toggles() },
        ..config()
    });
    let picks = vec![11, 7, 5, 3, 2, 13, 17, 19, 23, 29];
    let first = emit_extensions(&profile, false, false, &picks);
    let second = emit_extensions(&profile, false, false, &picks);
    assert_eq!(first, second);
    assert_ne!(first, extensions(&profile, false, false));
}

#[test]
fn profile_that_forbids_permutation_is_never_shuffled() {
    let profile = TlsProfile::new(config());
    let picks = vec![11, 7, 5, 3, 2, 13, 17, 19, 23, 29];
    assert_eq!(emit_extensions(&profile, false, false, &picks), extensions(&profile, false, false));
}

#[test]
fn only_grease_padding_and_pre_shared_key_are_fixed() {
    assert!(!is_permutable(Extension::Grease));
    assert!(!is_permutable(known(ExtensionId::Padding)));
    assert!(!is_permutable(known(ExtensionId::PreSharedKey)));
    assert!(is_permutable(known(ExtensionId::ServerName)));
    assert!(is_permutable(known(ExtensionId::KeyShare)));
    assert!(is_permutable(known(ExtensionId::EncryptedClientHello)));
}

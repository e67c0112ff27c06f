use http::header::{HeaderMap, HeaderValue};
use impersonate::chrome;
use impersonate::chrome::tls::ChromeTlsSettings;
use impersonate::connector::EngineDirective;
use impersonate::error::{BuilderError, ConfigError};
use impersonate::header_map::{header_map_of, insert_defaults, InsertError, InsertOutcome};
use impersonate::headers::{Header, HeaderProfile};
use impersonate::hello::{cipher_suites, extensions, supported_groups, Extension};
use impersonate::http2::{Priority, Setting};
use impersonate::http2_frames::read_prelude;
use impersonate::http2_settings::Http2Settings;
use impersonate::permute::emit_extensions;
use impersonate::profile::{build_profile, ImpersonateProfile, ProfileOverrides};
use impersonate::registry::{resolve, Impersonate};
use impersonate::safari;
use impersonate::tls::{Alpn, TlsConfig, TlsOverrides, TlsProfile, TlsToggles};
use impersonate::wire::{
    CipherSuite, Curve, ExtensionId, PseudoHeader, SettingId, SignatureScheme, TlsVersion,
};

fn names_of(headers: &[Header]) -> Vec<String> {
    headers.iter().map(|h| String::from_utf8(h.name.clone()).unwrap()).collect()
}

fn value_of(headers: &[Header], name: &str) -> Option<String> {
    headers
        .iter()
        .find(|h| h.name.eq_ignore_ascii_case(name.as_bytes()))
        .map(|h| String::from_utf8(h.value.clone()).unwrap())
}

fn names(list: &[&str]) -> Vec<Vec<u8>> {
    list.iter().map(|n| n.as_bytes().to_vec()).collect()
}

#[test]
fn chrome130_without_overrides() {
    let profile = resolve(Impersonate::Chrome130);
    let tls = profile.tls();

    let ciphers: Vec<&str> = tls.ciphers().iter().map(|c| c.name()).collect();
    assert_eq!(ciphers.len(), 15);
    assert_eq!(
        ciphers,
        vec![
            "TLS_AES_128_GCM_SHA256",
            "TLS_AES_256_GCM_SHA384",
            "TLS_CHACHA20_POLY1305_SHA256",
            "TLS_ECDHE_ECDSA_WITH_AES_128_GCM_SHA256",
            "TLS_ECDHE_RSA_WITH_AES_128_GCM_SHA256",
            "TLS_ECDHE_ECDSA_WITH_AES_256_GCM_SHA384",
            "TLS_ECDHE_RSA_WITH_AES_256_GCM_SHA384",
            "TLS_ECDHE_ECDSA_WITH_CHACHA20_POLY1305_SHA256",
            "TLS_ECDHE_RSA_WITH_CHACHA20_POLY1305_SHA256",
            "TLS_ECDHE_RSA_WITH_AES_128_CBC_SHA",
            "TLS_ECDHE_RSA_WITH_AES_256_CBC_SHA",
            "TLS_RSA_WITH_AES_128_GCM_SHA256",
            "TLS_RSA_WITH_AES_256_GCM_SHA384",
            "TLS_RSA_WITH_AES_128_CBC_SHA",
            "TLS_RSA_WITH_AES_256_CBC_SHA",
        ]
    );
    assert_eq!(
        cipher_suites(tls, 4),
        vec![
            0x4a4a, 4865, 4866, 4867, 49195, 49199, 49196, 49200, 52393, 52392, 49171, 49172, 156,
            157, 47, 53
        ]
    );

    assert_eq!(tls.curves()[0], Curve::X25519Kyber768Draft00);
    assert_eq!(supported_groups(tls, 4), vec![0x4a4a, 0x6399, 29, 23, 24]);

    let http2 = profile.http2().unwrap();
    let ids: Vec<SettingId> = http2.settings().iter().map(|s| s.id).collect();
    assert_eq!(
        ids,
        vec![
            SettingId::HeaderTableSize,
            SettingId::EnablePush,
            SettingId::InitialWindowSize,
            SettingId::MaxHeaderListSize,
        ]
    );
    // The populated settings are a part of the full order, in that order.
    let full = [
        SettingId::HeaderTableSize,
        SettingId::EnablePush,
        SettingId::MaxConcurrentStreams,
        SettingId::InitialWindowSize,
        SettingId::MaxFrameSize,
        SettingId::MaxHeaderListSize,
        SettingId::EnableConnectProtocol,
    ];
    let mut at = 0;
    for id in &ids {
        at += full[at..].iter().position(|f| f == id).unwrap() + 1;
    }

    let user_agent = value_of(&profile.headers().defaults(), "user-agent").unwrap();
    assert!(user_agent.contains("Chrome/130.0.0.0"));
}

#[test]
fn chrome130_tls_template() {
    let profile = resolve(Impersonate::Chrome130);
    let tls = profile.tls();
    assert_eq!(tls.min_version(), TlsVersion::Tls12);
    assert_eq!(tls.max_version(), TlsVersion::Tls13);
    assert_eq!(
        tls.curves(),
        vec![Curve::X25519Kyber768Draft00, Curve::X25519, Curve::Secp256r1, Curve::Secp384r1]
    );
    let sigalgs: Vec<&str> = tls.sigalgs().iter().map(|s| s.name()).collect();
    assert_eq!(
        sigalgs,
        vec![
            "ecdsa_secp256r1_sha256",
            "rsa_pss_rsae_sha256",
            "rsa_pkcs1_sha256",
            "ecdsa_secp384r1_sha384",
            "rsa_pss_rsae_sha384",
            "rsa_pkcs1_sha384",
            "rsa_pss_rsae_sha512",
            "rsa_pkcs1_sha512",
        ]
    );
    assert_eq!(tls.alpn(), Alpn::H2ThenHttp11);
    assert_eq!(
        tls.toggles(),
        TlsToggles {
            sni: true,
            grease: true,
            ech_grease: true,
            pre_shared_key: true,
            application_settings: true,
            ocsp_stapling: true,
            signed_cert_timestamps: true,
            session_ticket: true,
            permute_extensions: true,
        }
    );
}

#[test]
fn chrome130_engine_calls() {
    let calls = resolve(Impersonate::Chrome130).connector_factory().directives();
    assert_eq!(calls.len(), 14);
    assert!(matches!(calls[0], EngineDirective::SetGreaseEnabled(true)));
    assert!(matches!(calls[1], EngineDirective::EnableOcspStapling));
    assert!(matches!(&calls[2], EngineDirective::SetCurves(c) if c.len() == 4));
    assert!(matches!(&calls[3], EngineDirective::SetSigalgsList(s) if s ==
        "ecdsa_secp256r1_sha256:rsa_pss_rsae_sha256:rsa_pkcs1_sha256:ecdsa_secp384r1_sha384:rsa_pss_rsae_sha384:rsa_pkcs1_sha384:rsa_pss_rsae_sha512:rsa_pkcs1_sha512"));
    assert!(matches!(&calls[4], EngineDirective::SetCipherList(s) if s ==
        "TLS_AES_128_GCM_SHA256:TLS_AES_256_GCM_SHA384:TLS_CHACHA20_POLY1305_SHA256:TLS_ECDHE_ECDSA_WITH_AES_128_GCM_SHA256:TLS_ECDHE_RSA_WITH_AES_128_GCM_SHA256:TLS_ECDHE_ECDSA_WITH_AES_256_GCM_SHA384:TLS_ECDHE_RSA_WITH_AES_256_GCM_SHA384:TLS_ECDHE_ECDSA_WITH_CHACHA20_POLY1305_SHA256:TLS_ECDHE_RSA_WITH_CHACHA20_POLY1305_SHA256:TLS_ECDHE_RSA_WITH_AES_128_CBC_SHA:TLS_ECDHE_RSA_WITH_AES_256_CBC_SHA:TLS_RSA_WITH_AES_128_GCM_SHA256:TLS_RSA_WITH_AES_256_GCM_SHA384:TLS_RSA_WITH_AES_128_CBC_SHA:TLS_RSA_WITH_AES_256_CBC_SHA"));
    assert!(matches!(calls[5], EngineDirective::EnableSignedCertTimestamps));
    assert!(matches!(calls[6], EngineDirective::SetMinProtoVersion(TlsVersion::Tls12)));
    assert!(matches!(calls[7], EngineDirective::SetMaxProtoVersion(TlsVersion::Tls13)));
    assert!(matches!(calls[8], EngineDirective::SetPermuteExtensions(true)));
    assert!(matches!(
        calls[9],
        EngineDirective::AddCertCompression(impersonate::wire::CertCompressionAlgorithm::Brotli)
    ));
    assert!(matches!(&calls[10], EngineDirective::SetAlpnProtos(w) if w == b"\x02h2\x08http/1.1"));
    assert!(matches!(&calls[11], EngineDirective::AddApplicationSettings(p) if p == b"h2"));
    assert!(matches!(calls[12], EngineDirective::EnableEchGrease));
    assert!(matches!(calls[13], EngineDirective::OfferPreSharedKey));
}

#[test]
fn chrome130_http2_template() {
    let profile = resolve(Impersonate::Chrome130);
    let http2 = profile.http2().unwrap();
    assert_eq!(
        http2.settings(),
        vec![
            Setting { id: SettingId::HeaderTableSize, value: 65536 },
            Setting { id: SettingId::EnablePush, value: 0 },
            Setting { id: SettingId::InitialWindowSize, value: 6291456 },
            Setting { id: SettingId::MaxHeaderListSize, value: 262144 },
        ]
    );
    assert_eq!(http2.initial_stream_window_size(), Some(6291456));
    assert_eq!(http2.initial_connection_window_size(), Some(15728640));
    assert_eq!(
        http2.pseudo_header_order(),
        vec![PseudoHeader::Method, PseudoHeader::Authority, PseudoHeader::Scheme, PseudoHeader::Path]
    );
    assert_eq!(
        http2.headers_priority(),
        Some(Priority { stream_dependency: 0, weight: 255, exclusive: true })
    );
    assert!(!http2.enable_push());

    let bytes = profile.http2_prelude().unwrap();
    assert_eq!(bytes.len(), 24 + 9 + 4 * 6 + 13);
    let read = read_prelude(&bytes).unwrap();
    assert_eq!(read.settings, http2.settings());
    assert_eq!(read.window_increment, Some(15663105));
}

#[test]
fn chrome130_default_headers() {
    let defaults = resolve(Impersonate::Chrome130).headers().defaults();
    assert_eq!(
        names_of(&defaults),
        vec![
            "sec-ch-ua",
            "sec-ch-ua-mobile",
            "sec-ch-ua-platform",
            "dnt",
            "upgrade-insecure-requests",
            "user-agent",
            "sec-purpose",
            "purpose",
            "accept",
            "sec-fetch-site",
            "sec-fetch-mode",
            "sec-fetch-user",
            "sec-fetch-dest",
            "accept-encoding",
            "accept-language",
            "priority",
        ]
    );
    assert_eq!(
        value_of(&defaults, "sec-ch-ua").unwrap(),
        "\"Chromium\";v=\"130\", \"Google Chrome\";v=\"130\", \"Not?A_Brand\";v=\"99\""
    );
    assert_eq!(value_of(&defaults, "accept-encoding").unwrap(), "gzip, deflate, br, zstd");
    assert_eq!(value_of(&defaults, "priority").unwrap(), "u=0, i");
    assert!(resolve(Impersonate::Chrome130).headers().order().is_empty());
}

#[test]
fn chrome130_with_explicit_headers_order() {
    let base = resolve(Impersonate::Chrome130);
    let overrides = ProfileOverrides {
        headers_order: Some(names(&[
            "user-agent",
            "accept-language",
            "accept-encoding",
            "host",
            "cookie",
            "priority",
        ])),
        tls: TlsOverrides::none(),
    };
    let profile = build_profile(&base, overrides).unwrap();
    let caller =
        vec![Header::new("host", "tls.peet.ws"), Header::new("cookie", "value1=1; value2=2")];
    let out = profile.request_headers(&caller);
    assert_eq!(
        names_of(&out),
        vec![
            "user-agent",
            "accept-language",
            "accept-encoding",
            "host",
            "cookie",
            "priority",
            "sec-ch-ua",
            "sec-ch-ua-mobile",
            "sec-ch-ua-platform",
            "dnt",
            "upgrade-insecure-requests",
            "sec-purpose",
            "purpose",
            "accept",
            "sec-fetch-site",
            "sec-fetch-mode",
            "sec-fetch-user",
            "sec-fetch-dest",
        ]
    );
    assert_eq!(value_of(&out, "host").unwrap(), "tls.peet.ws");
    assert_eq!(value_of(&out, "cookie").unwrap(), "value1=1; value2=2");
    assert_eq!(value_of(&out, "priority").unwrap(), "u=0, i");
}

#[test]
fn safari17_2_1_without_overrides() {
    let profile = resolve(Impersonate::Safari17_2_1);
    let http2 = profile.http2().unwrap();
    assert_eq!(http2.initial_stream_window_size(), Some(4194304));
    assert_eq!(http2.initial_connection_window_size(), Some(10551295));
    assert_eq!(http2.setting(SettingId::MaxConcurrentStreams), Some(100));
    assert!(!http2.enable_push());
    assert_eq!(http2.setting(SettingId::EnablePush), Some(0));
    assert_eq!(http2.setting(SettingId::InitialWindowSize), Some(4194304));
    assert_eq!(http2.setting(SettingId::MaxHeaderListSize), None);
    assert_eq!(http2.setting(SettingId::HeaderTableSize), None);
    let read = read_prelude(&profile.http2_prelude().unwrap()).unwrap();
    assert_eq!(read.window_increment, Some(10551295 - 65535));
}

#[test]
fn safari17_2_1_templates() {
    let profile = resolve(Impersonate::Safari17_2_1);
    let tls = profile.tls();
    assert_eq!(tls.ciphers().len(), 26);
    assert_eq!(tls.ciphers()[0], CipherSuite::Aes128GcmSha256);
    assert_eq!(tls.ciphers()[25], CipherSuite::Rsa3desEdeCbcSha);
    assert_eq!(tls.sigalgs()[4], SignatureScheme::EcdsaSha1);
    assert_eq!(tls.min_version(), TlsVersion::Tls10);
    assert!(!tls.toggles().session_ticket);
    assert!(!extensions(tls, false, false).contains(&Extension::Known(ExtensionId::SessionTicket)));
    let defaults = profile.headers().defaults();
    assert_eq!(
        names_of(&defaults),
        vec![
            "accept",
            "sec-fetch-site",
            "accept-encoding",
            "sec-fetch-mode",
            "user-agent",
            "accept-language",
            "sec-fetch-dest",
        ]
    );
    assert_eq!(
        value_of(&defaults, "user-agent").unwrap(),
        "Mozilla/5.0 (Macintosh; Intel Mac OS X 10_15_7) AppleWebKit/605.1.15 (KHTML, like Gecko) Version/16.0 Safari/605.1.15"
    );
}

#[test]
fn resolving_twice_gives_the_same_profile() {
    for identity in [Impersonate::Chrome130, Impersonate::Safari17_2_1] {
        let first = resolve(identity);
        let second = resolve(identity);
        assert_eq!(first.tls().ciphers(), second.tls().ciphers());
        assert_eq!(first.tls().curves(), second.tls().curves());
        assert_eq!(first.tls().sigalgs(), second.tls().sigalgs());
        assert_eq!(extensions(first.tls(), true, true), extensions(second.tls(), true, true));
        assert_eq!(first.http2().unwrap().settings(), second.http2().unwrap().settings());
        assert_eq!(
            first.http2().unwrap().pseudo_header_order(),
            second.http2().unwrap().pseudo_header_order()
        );
        assert_eq!(first.http2_prelude(), second.http2_prelude());
        let a = first.headers().defaults();
        let b = second.headers().defaults();
        assert_eq!(a.len(), b.len());
        for (x, y) in a.iter().zip(b.iter()) {
            assert_eq!(x.name, y.name);
            assert_eq!(x.value, y.value);
        }
    }
}

#[test]
fn two_connections_of_one_profile() {
    // Permutation off: both connections send the same block.
    let fixed = build_profile(
        &resolve(Impersonate::Chrome130),
        ProfileOverrides {
            headers_order: None,
            tls: TlsOverrides { permute_extensions: Some(false), ..TlsOverrides::none() },
        },
    )
    .unwrap();
    let one = emit_extensions(fixed.tls(), true, false, &vec![3, 1, 4, 1, 5, 9, 2, 6, 5, 3, 5, 8, 9, 7]);
    let two = emit_extensions(fixed.tls(), true, false, &vec![2, 7, 1, 8, 2, 8, 1, 8, 2, 8, 4, 5, 9, 0]);
    assert_eq!(one, two);
    assert_eq!(cipher_suites(fixed.tls(), 0)[1..], cipher_suites(fixed.tls(), 9)[1..]);

    // Permutation on: the same extensions, the pre-shared key last.
    let shuffled = resolve(Impersonate::Chrome130);
    let one = emit_extensions(shuffled.tls(), true, false, &vec![3, 1, 4, 1, 5, 9, 2, 6, 5, 3, 5, 8, 9, 7, 9, 3]);
    let two = emit_extensions(shuffled.tls(), true, false, &vec![2, 7, 1, 8, 2, 8, 1, 8, 2, 8, 4, 5, 9, 0, 4, 5]);
    assert_ne!(one, two);
    let count = |block: &Vec<Extension>, e: Extension| block.iter().filter(|x| **x == e).count();
    for e in one.iter().chain(two.iter()) {
        assert_eq!(count(&one, *e), count(&two, *e));
    }
    assert_eq!(one.len(), two.len());
    assert_eq!(one.last(), Some(&Extension::Known(ExtensionId::PreSharedKey)));
    assert_eq!(two.last(), Some(&Extension::Known(ExtensionId::PreSharedKey)));
    assert_eq!(one[0], Extension::Grease);
    assert_eq!(two[0], Extension::Grease);
    assert_eq!(
        shuffled.connector_factory().directives().len(),
        shuffled.connector_factory().directives().len()
    );
}

#[test]
fn preconfigured_profile_is_used_as_given() {
    let tls = TlsProfile::new(TlsConfig {
        min_version: TlsVersion::Tls10,
        max_version: TlsVersion::Tls13,
        curves: vec![Curve::Secp224r1, Curve::Secp521r1],
        sigalgs: Vec::new(),
        ciphers: vec![CipherSuite::Aes128GcmSha256],
        alpn: Alpn::H2ThenHttp11,
        toggles: TlsToggles {
            sni: true,
            grease: false,
            ech_grease: true,
            pre_shared_key: true,
            application_settings: true,
            ocsp_stapling: false,
            signed_cert_timestamps: false,
            session_ticket: false,
            permute_extensions: true,
        },
        cert_compression_algs: Vec::new(),
    });
    let http2 = Http2Settings {
        initial_stream_window_size: Some(6291456),
        initial_connection_window_size: Some(15728640),
        max_concurrent_streams: Some(1000),
        max_header_list_size: Some(262144),
        header_table_size: Some(65536),
        enable_push: Some(false),
        headers_priority: Some(Priority { stream_dependency: 0, weight: 255, exclusive: true }),
        headers_pseudo_order: Some(vec![
            PseudoHeader::Method,
            PseudoHeader::Scheme,
            PseudoHeader::Authority,
            PseudoHeader::Path,
        ]),
        settings_order: Some(vec![
            SettingId::HeaderTableSize,
            SettingId::EnablePush,
            SettingId::MaxConcurrentStreams,
            SettingId::InitialWindowSize,
            SettingId::MaxFrameSize,
            SettingId::MaxHeaderListSize,
            SettingId::EnableConnectProtocol,
        ]),
        ..Http2Settings::new()
    }
    .into_profile();
    let headers = HeaderProfile::new(vec![Header::new("user-agent", "client")], Vec::new());
    let base = ImpersonateProfile::compose(tls, Some(http2), headers).unwrap();
    let profile = build_profile(
        &base,
        ProfileOverrides { headers_order: None, tls: TlsOverrides::none() },
    )
    .unwrap();

    assert_eq!(supported_groups(profile.tls(), 0), vec![21, 25]);
    let sent = emit_extensions(profile.tls(), true, false, &vec![5, 4, 3, 2, 1, 0, 9, 8, 7, 6, 5, 4]);
    assert!(!sent.contains(&Extension::Known(ExtensionId::SessionTicket)));
    assert_eq!(sent.last(), Some(&Extension::Known(ExtensionId::PreSharedKey)));
    assert_eq!(
        profile.http2().unwrap().settings(),
        vec![
            Setting { id: SettingId::HeaderTableSize, value: 65536 },
            Setting { id: SettingId::EnablePush, value: 0 },
            Setting { id: SettingId::MaxConcurrentStreams, value: 1000 },
            Setting { id: SettingId::InitialWindowSize, value: 6291456 },
            Setting { id: SettingId::MaxHeaderListSize, value: 262144 },
        ]
    );
    let block = profile
        .request_block(b"GET", b"https", b"tls.peet.ws", b"/api/all", &Vec::new())
        .unwrap();
    assert_eq!(names_of(&block), vec![":method", ":scheme", ":authority", ":path", "user-agent"]);
    assert_eq!(value_of(&block, ":authority").unwrap(), "tls.peet.ws");
    assert_eq!(value_of(&block, "user-agent").unwrap(), "client");
}

#[test]
fn identities_have_stable_names() {
    assert_eq!(Impersonate::Chrome130.name(), "chrome_130");
    assert_eq!(Impersonate::Safari17_2_1.name(), "safari_17.2.1");
    assert_eq!(Impersonate::from_name("chrome_130"), Ok(Impersonate::Chrome130));
    assert_eq!(Impersonate::from_name("safari_17.2.1"), Ok(Impersonate::Safari17_2_1));
}

#[test]
fn unknown_identity_is_a_builder_error() {
    assert_eq!(Impersonate::from_name("chrome_999"), Err(BuilderError));
    assert_eq!(Impersonate::from_name("Chrome_130"), Err(BuilderError));
    assert_eq!(Impersonate::from_name(""), Err(BuilderError));
}

#[test]
fn profile_that_offers_h2_needs_an_http2_part() {
    let tls = || resolve(Impersonate::Chrome130).tls().duplicate();
    let headers = || HeaderProfile::new(Vec::new(), Vec::new());
    let missing = ImpersonateProfile::compose(tls(), None, headers());
    assert_eq!(missing.err(), Some(ConfigError::MissingHttp2));
    let http11 = TlsProfile::new(TlsConfig {
        min_version: TlsVersion::Tls12,
        max_version: TlsVersion::Tls13,
        curves: vec![Curve::X25519],
        sigalgs: Vec::new(),
        ciphers: vec![CipherSuite::Aes128GcmSha256],
        alpn: Alpn::Http11,
        toggles: resolve(Impersonate::Safari17_2_1).tls().toggles(),
        cert_compression_algs: Vec::new(),
    });
    let plain = ImpersonateProfile::compose(http11, None, headers()).unwrap();
    assert!(plain.http2().is_none());
    assert!(plain.http2_prelude().is_none());
}

#[test]
fn composing_reports_the_first_broken_rule() {
    let headers = || HeaderProfile::new(Vec::new(), Vec::new());
    let bad_http2 = Http2Settings { max_frame_size: Some(1), ..Http2Settings::new() }.into_profile();
    let good_tls = resolve(Impersonate::Chrome130).tls().duplicate();
    let made = ImpersonateProfile::compose(good_tls, Some(bad_http2), headers());
    assert_eq!(made.err(), Some(ConfigError::SettingOutOfRange));

    let bad_tls = ChromeTlsSettings::new().curves(Vec::new());
    assert_eq!(bad_tls.try_into().err(), Some(ConfigError::EmptyCurves));
}

#[test]
fn overrides_that_break_a_rule_give_no_profile() {
    let base = resolve(Impersonate::Chrome130);
    let overrides = ProfileOverrides {
        headers_order: None,
        tls: TlsOverrides { max_version: Some(TlsVersion::Tls12), ..TlsOverrides::none() },
    };
    // Chrome 130 sends ECH GREASE, which needs TLS 1.3.
    assert_eq!(build_profile(&base, overrides).err(), Some(ConfigError::EchGreaseWithoutTls13));
    let overrides = ProfileOverrides {
        headers_order: None,
        tls: TlsOverrides {
            max_version: Some(TlsVersion::Tls12),
            ech_grease: Some(false),
            pre_shared_key: Some(false),
            ..TlsOverrides::none()
        },
    };
    let changed = build_profile(&base, overrides).unwrap();
    assert_eq!(changed.tls().max_version(), TlsVersion::Tls12);
    assert_eq!(base.tls().max_version(), TlsVersion::Tls13);
    assert!(base.tls().toggles().ech_grease);
}

#[test]
fn chrome_tls_settings_defaults() {
    let profile = ChromeTlsSettings::new().try_into().unwrap();
    assert_eq!(profile.curves(), vec![Curve::X25519, Curve::Secp256r1, Curve::Secp384r1]);
    assert_eq!(profile.ciphers(), chrome::tls::cipher_list());
    assert_eq!(profile.sigalgs(), chrome::tls::sigalgs_list());
    let t = profile.toggles();
    assert!(t.application_settings && t.grease && t.ocsp_stapling && t.signed_cert_timestamps);
    assert!(!t.ech_grease && !t.permute_extensions && !t.pre_shared_key);
    let custom = ChromeTlsSettings::new()
        .curves(chrome::tls::new_curves())
        .cipher_list(vec![CipherSuite::Aes128GcmSha256])
        .sigalgs_list(vec![SignatureScheme::Ed25519])
        .application_settings(false)
        .enable_ech_grease(true)
        .permute_extensions(true)
        .pre_shared_key(true)
        .try_into()
        .unwrap();
    assert_eq!(custom.curves()[0], Curve::X25519Kyber768Draft00);
    assert_eq!(custom.ciphers(), vec![CipherSuite::Aes128GcmSha256]);
    assert_eq!(custom.sigalgs(), vec![SignatureScheme::Ed25519]);
    let t = custom.toggles();
    assert!(!t.application_settings && t.ech_grease && t.permute_extensions && t.pre_shared_key);
    assert_eq!(
        ChromeTlsSettings::new().cipher_list(Vec::new()).try_into().err(),
        Some(ConfigError::EmptyCiphers)
    );
}

#[test]
fn header_initializer_fills_an_empty_map_in_template_order() {
    let mut map = HeaderMap::new();
    assert_eq!(chrome::v130::header_initializer(&mut map), Ok(()));
    assert_eq!(map.len(), 16);
    assert_eq!(map.keys_len(), 16);
    let keys: Vec<&str> = map.keys().map(|k| k.as_str()).collect();
    assert_eq!(
        keys,
        vec![
            "sec-ch-ua",
            "sec-ch-ua-mobile",
            "sec-ch-ua-platform",
            "dnt",
            "upgrade-insecure-requests",
            "user-agent",
            "sec-purpose",
            "purpose",
            "accept",
            "sec-fetch-site",
            "sec-fetch-mode",
            "sec-fetch-user",
            "sec-fetch-dest",
            "accept-encoding",
            "accept-language",
            "priority",
        ]
    );
    for header in chrome::v130::default_headers() {
        let name = std::str::from_utf8(&header.name).unwrap();
        assert_eq!(map.get_all(name).iter().count(), 1);
        assert_eq!(map.get(name).unwrap(), &header.value[..]);
    }
    assert_eq!(map, chrome::v130::default_header_map());
}

#[test]
fn header_initializer_keeps_what_the_caller_supplied() {
    let mut map = HeaderMap::new();
    map.insert("x-first", HeaderValue::from_static("1"));
    map.insert("User-Agent".parse::<http::header::HeaderName>().unwrap(), HeaderValue::from_static("custom"));
    map.insert("x-second", HeaderValue::from_static("2"));
    map.append("accept", HeaderValue::from_static("one"));
    map.append("accept", HeaderValue::from_static("two"));
    assert_eq!(chrome::v130::header_initializer(&mut map), Ok(()));
    // The caller's headers keep their values and their places.
    assert_eq!(map.get("user-agent").unwrap(), "custom");
    assert_eq!(map.get_all("user-agent").iter().count(), 1);
    let accept: Vec<&HeaderValue> = map.get_all("accept").iter().collect();
    assert_eq!(accept, vec!["one", "two"]);
    let keys: Vec<&str> = map.keys().map(|k| k.as_str()).collect();
    assert_eq!(&keys[..4], &["x-first", "user-agent", "x-second", "accept"]);
    // The fourteen defaults that were absent follow in template order.
    assert_eq!(map.keys_len(), 4 + 14);
    assert_eq!(map.len(), 5 + 14);
    assert_eq!(
        &keys[4..],
        &[
            "sec-ch-ua",
            "sec-ch-ua-mobile",
            "sec-ch-ua-platform",
            "dnt",
            "upgrade-insecure-requests",
            "sec-purpose",
            "purpose",
            "sec-fetch-site",
            "sec-fetch-mode",
            "sec-fetch-user",
            "sec-fetch-dest",
            "accept-encoding",
            "accept-language",
            "priority",
        ]
    );
}

#[test]
fn a_second_call_changes_nothing() {
    let mut map = HeaderMap::new();
    map.insert("x-kept", HeaderValue::from_static("yes"));
    assert_eq!(chrome::v130::header_initializer(&mut map), Ok(()));
    let once = map.clone();
    assert_eq!(chrome::v130::header_initializer(&mut map), Ok(()));
    assert_eq!(map, once);
    assert_eq!(map.len(), 17);
    let before: Vec<&str> = once.keys().map(|k| k.as_str()).collect();
    let after: Vec<&str> = map.keys().map(|k| k.as_str()).collect();
    assert_eq!(before, after);

    let mut map = safari::safari17_2_1::default_header_map();
    let once = map.clone();
    assert_eq!(safari::safari17_2_1::init_headers(&mut map), Ok(()));
    assert_eq!(map, once);
    assert_eq!(map.len(), 7);
}

#[test]
fn safari_settings_fill_a_header_map() {
    let mut map = HeaderMap::new();
    let profile = safari::safari17_2_1::get_settings(&mut map).unwrap();
    assert_eq!(map.len(), 7);
    let keys: Vec<&str> = map.keys().map(|k| k.as_str()).collect();
    assert_eq!(
        keys,
        vec![
            "accept",
            "sec-fetch-site",
            "accept-encoding",
            "sec-fetch-mode",
            "user-agent",
            "accept-language",
            "sec-fetch-dest",
        ]
    );
    assert_eq!(map.get("accept-encoding").unwrap(), "gzip, deflate, br");
    assert_eq!(map.get("accept-language").unwrap(), "en-US,en;q=0.9");
    assert_eq!(map.get("sec-fetch-dest").unwrap(), "document");
    assert_eq!(profile.http2().unwrap().initial_stream_window_size(), Some(4194304));
    assert_eq!(map, safari::safari17_2_1::default_header_map());

    let mut again = HeaderMap::new();
    again.insert("x-one", HeaderValue::from_static("1"));
    again.insert("accept", HeaderValue::from_static("mine"));
    again.insert("x-two", HeaderValue::from_static("2"));
    assert_eq!(safari::safari17_2_1::init_headers(&mut again), Ok(()));
    assert_eq!(again.get("accept").unwrap(), "mine");
    assert_eq!(again.len(), 3 + 6);
    let keys: Vec<&str> = again.keys().map(|k| k.as_str()).collect();
    assert_eq!(
        keys,
        vec![
            "x-one",
            "accept",
            "x-two",
            "sec-fetch-site",
            "accept-encoding",
            "sec-fetch-mode",
            "user-agent",
            "accept-language",
            "sec-fetch-dest",
        ]
    );
}

#[test]
fn a_map_with_room_takes_every_default() {
    let mut map = HeaderMap::new();
    let filler: Vec<Header> = (0..6538).map(|k| Header::new(&format!("x-{}", k), "v")).collect();
    assert_eq!(insert_defaults(&mut map, &filler), Ok(()));
    assert_eq!(map.len(), 6538);
    assert_eq!(chrome::v130::header_initializer(&mut map), Ok(()));
    assert_eq!(map.len(), 6554);
    assert_eq!(map.keys().last().unwrap(), "priority");
}

#[test]
fn a_full_map_takes_no_more_headers() {
    let headers: Vec<Header> =
        (0..24_577).map(|k| Header::new(&format!("x-{}", k), "v")).collect();
    let mut map = HeaderMap::new();
    assert_eq!(
        insert_defaults(&mut map, &headers),
        Err(InsertError { index: 24_576, outcome: InsertOutcome::Full })
    );
    assert_eq!(map.len(), 24_576);
    assert!(map.contains_key("x-24575"));
    assert!(!map.contains_key("x-24576"));
    // A name that the map has is left as it is, full or not.
    assert_eq!(insert_defaults(&mut map, &vec![Header::new("X-0", "again")]), Ok(()));
    assert_eq!(map.get("x-0").unwrap(), "v");
    assert_eq!(map.len(), 24_576);
    assert_eq!(
        chrome::v130::header_initializer(&mut map),
        Err(InsertError { index: 0, outcome: InsertOutcome::Full })
    );
    assert_eq!(map.len(), 24_576);
}

#[test]
fn insertion_stops_at_the_first_header_that_is_refused() {
    let mut map = HeaderMap::new();
    let headers = vec![
        Header::new("Good-Name", "1"),
        Header::new("bad name", "2"),
        Header::new("never", "3"),
    ];
    assert_eq!(
        insert_defaults(&mut map, &headers),
        Err(InsertError { index: 1, outcome: InsertOutcome::InvalidName })
    );
    assert_eq!(map.len(), 1);
    assert_eq!(map.get("good-name").unwrap(), "1");

    let mut map = HeaderMap::new();
    let headers = vec![Header::new("a", "line\nbreak")];
    assert_eq!(
        insert_defaults(&mut map, &headers),
        Err(InsertError { index: 0, outcome: InsertOutcome::InvalidValue })
    );
    assert!(map.is_empty());

    let mut map = HeaderMap::new();
    assert_eq!(
        insert_defaults(&mut map, &vec![Header::new("", "empty name")]),
        Err(InsertError { index: 0, outcome: InsertOutcome::InvalidName })
    );
    assert_eq!(insert_defaults(&mut map, &vec![Header::new("tab", "a\tb")]), Ok(()));
    assert_eq!(insert_defaults(&mut map, &Vec::new()), Ok(()));
}

#[test]
fn header_map_of_keeps_the_first_header_of_each_name() {
    let headers = vec![
        Header::new("B", "1"),
        Header::new("a", "2"),
        Header::new("b", "3"),
        Header::new("c", "4"),
    ];
    let map = header_map_of(&headers).unwrap();
    let fields: Vec<(&str, &HeaderValue)> = map.iter().map(|(k, v)| (k.as_str(), v)).collect();
    assert_eq!(fields.len(), 3);
    assert_eq!(fields[0].0, "b");
    assert_eq!(fields[0].1, "1");
    assert_eq!(fields[1].0, "a");
    assert_eq!(fields[2].0, "c");
    assert!(header_map_of(&Vec::new()).unwrap().is_empty());
    assert_eq!(
        header_map_of(&vec![Header::new("a b", "")]).err(),
        Some(InsertError { index: 0, outcome: InsertOutcome::InvalidName })
    );
}

#[test]
fn values_at_the_ends_of_their_ranges_are_carried_unchanged() {
    for window in [0u32, 2_147_483_647] {
        for frame in [16_384u32, 16_777_215] {
            for identity in [Impersonate::Chrome130, Impersonate::Safari17_2_1] {
                let base = resolve(identity);
                let http2 = Http2Settings {
                    initial_stream_window_size: Some(window),
                    max_frame_size: Some(frame),
                    enable_push: Some(false),
                    ..Http2Settings::new()
                }
                .into_profile();
                let profile = ImpersonateProfile::compose(
                    base.tls().duplicate(),
                    Some(http2),
                    base.headers().duplicate(),
                )
                .unwrap();
                let http2 = profile.http2().unwrap();
                assert_eq!(http2.setting(SettingId::InitialWindowSize), Some(window));
                assert_eq!(http2.setting(SettingId::MaxFrameSize), Some(frame));
                assert_eq!(http2.initial_stream_window_size(), Some(window));
                let read = read_prelude(&profile.http2_prelude().unwrap()).unwrap();
                assert_eq!(
                    read.settings,
                    vec![
                        Setting { id: SettingId::EnablePush, value: 0 },
                        Setting { id: SettingId::InitialWindowSize, value: window },
                        Setting { id: SettingId::MaxFrameSize, value: frame },
                    ]
                );
            }
        }
    }
}

#[test]
fn engine_lists_split_back_into_the_names() {
    for identity in [Impersonate::Chrome130, Impersonate::Safari17_2_1] {
        let profile = resolve(identity);
        let ciphers: Vec<&str> = profile.tls().ciphers().iter().map(|c| c.name()).collect();
        let schemes: Vec<&str> = profile.tls().sigalgs().iter().map(|s| s.name()).collect();
        for call in profile.connector_factory().directives() {
            match call {
                EngineDirective::SetCipherList(text) => {
                    assert_eq!(text.split(':').collect::<Vec<_>>(), ciphers);
                    for name in text.split(':') {
                        assert!(CipherSuite::from_name(name).is_ok());
                    }
                }
                EngineDirective::SetSigalgsList(text) => {
                    assert_eq!(text.split(':').collect::<Vec<_>>(), schemes);
                    for name in text.split(':') {
                        assert!(SignatureScheme::from_name(name).is_ok());
                    }
                }
                _ => {}
            }
        }
    }
}

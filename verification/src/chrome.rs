//! The Chrome family: the TLS and HTTP/2 templates that its builds share.

use vstd::prelude::*;
use crate::chrome::tls::{
    cipher_list_view, new_curves, new_curves_view, sigalgs_list_view, ChromeTlsSettings,
};
use crate::error::ConfigError;
use crate::http2::{Http2Profile, Http2ProfileView, Priority, Setting};
use crate::http2_settings::{standard_order, standard_settings_order, Http2Settings};
use crate::tls::{tls_error, Alpn, TlsProfile, TlsProfileView, TlsToggles};
use crate::wire::{CertCompressionAlgorithm, PseudoHeader, SettingId, TlsVersion};

pub mod tls;
pub mod v130;

verus! {

/// The sixth TLS template: the new curves, with the permutation of
/// extensions, the pre-shared key and ECH GREASE on.
pub open spec fn tls_template_6_view() -> TlsProfileView {
    TlsProfileView {
        min_version: TlsVersion::Tls12,
        max_version: TlsVersion::Tls13,
        curves: new_curves_view(),
        sigalgs: sigalgs_list_view(),
        ciphers: cipher_list_view(),
        alpn: Alpn::H2ThenHttp11,
        toggles: TlsToggles {
            sni: true,
            grease: true,
            ech_grease: true,
            pre_shared_key: true,
            application_settings: true,
            ocsp_stapling: true,
            signed_cert_timestamps: true,
            session_ticket: true,
            permute_extensions: true,
        },
        cert_compression_algs: seq![CertCompressionAlgorithm::Brotli],
    }
}

/// The sixth TLS template keeps the rules of a TLS profile.
pub proof fn lemma_tls_template_6_consistent()
    ensures
        tls_error(tls_template_6_view()) is None,
{
    let curves = new_curves_view();
    assert(curves.len() == 4);
    assert(cipher_list_view().len() == 15);
}

/// The sixth TLS template.
pub fn tls_template_6() -> (result: Result<TlsProfile, ConfigError>)
    ensures
        result is Ok,
        result->Ok_0@ == tls_template_6_view(),
{
    proof {
        lemma_tls_template_6_consistent();
    }
    let settings = ChromeTlsSettings::new().curves(new_curves()).permute_extensions(
        true,
    ).pre_shared_key(true).enable_ech_grease(true);
    assert(settings.profile() == tls_template_6_view());
    settings.try_into()
}

/// Chrome's order of pseudo-headers.
pub open spec fn pseudo_order_view() -> Seq<PseudoHeader> {
    seq![PseudoHeader::Method, PseudoHeader::Authority, PseudoHeader::Scheme, PseudoHeader::Path]
}

/// The third HTTP/2 template: what Chrome sends since it stopped sending
/// `MAX_CONCURRENT_STREAMS`.
pub open spec fn http2_template_3_view() -> Http2ProfileView {
    Http2ProfileView {
        settings: seq![
            Setting { id: SettingId::HeaderTableSize, value: 65536 },
            Setting { id: SettingId::EnablePush, value: 0 },
            Setting { id: SettingId::InitialWindowSize, value: 6291456 },
            Setting { id: SettingId::MaxHeaderListSize, value: 262144 },
        ],
        initial_stream_window_size: Some(6291456u32),
        initial_connection_window_size: Some(15728640u32),
        pseudo_header_order: pseudo_order_view(),
        headers_priority: Some(Priority { stream_dependency: 0, weight: 255, exclusive: true }),
        enable_push: false,
    }
}

/// The third HTTP/2 template.
pub fn http2_template_3() -> (profile: Http2Profile)
    ensures
        profile@ == http2_template_3_view(),
{
    let mut pseudo: Vec<PseudoHeader> = Vec::new();
    pseudo.push(PseudoHeader::Method);
    pseudo.push(PseudoHeader::Authority);
    pseudo.push(PseudoHeader::Scheme);
    pseudo.push(PseudoHeader::Path);
    assert(pseudo@ =~= pseudo_order_view());
    let settings = Http2Settings {
        initial_stream_window_size: Some(6291456),
        initial_connection_window_size: Some(15728640),
        max_concurrent_streams: None,
        max_header_list_size: Some(262144),
        header_table_size: Some(65536),
        enable_push: Some(false),
        max_frame_size: None,
        enable_connect_protocol: None,
        headers_priority: Some(Priority { stream_dependency: 0, weight: 255, exclusive: true }),
        headers_pseudo_order: Some(pseudo),
        settings_order: Some(standard_order()),
    };
    proof {
        let o7 = standard_settings_order();
        let o6 = o7.drop_last();
        let o5 = o6.drop_last();
        let o4 = o5.drop_last();
        let o3 = o4.drop_last();
        let o2 = o3.drop_last();
        let o1 = o2.drop_last();
        let o0 = o1.drop_last();
        assert(settings.ordered(o0) =~= Seq::empty());
        assert(settings.ordered(o1) =~= seq![
            Setting { id: SettingId::HeaderTableSize, value: 65536 },
        ]);
        assert(settings.ordered(o2) =~= seq![
            Setting { id: SettingId::HeaderTableSize, value: 65536 },
            Setting { id: SettingId::EnablePush, value: 0 },
        ]);
        assert(settings.ordered(o3) =~= settings.ordered(o2));
        assert(settings.ordered(o4) =~= seq![
            Setting { id: SettingId::HeaderTableSize, value: 65536 },
            Setting { id: SettingId::EnablePush, value: 0 },
            Setting { id: SettingId::InitialWindowSize, value: 6291456 },
        ]);
        assert(settings.ordered(o5) =~= settings.ordered(o4));
        assert(settings.ordered(o6) =~= http2_template_3_view().settings);
        assert(settings.ordered(o7) =~= settings.ordered(o6));
    }
    settings.into_profile()
}

} // verus!

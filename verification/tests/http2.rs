use impersonate::error::ConfigError;
use impersonate::headers::Header;
use impersonate::http2::{apply_http2, setting_in_range, Http2Profile, Priority, Setting};
use impersonate::http2_frames::{header_block, priority_payload, read_prelude, request_flags};
use impersonate::http2_settings::{pseudo_order, standard_order, Http2Settings};
use impersonate::wire::{PseudoHeader, SettingId};

const PREFACE: &[u8] = b"PRI * HTTP/2.0\r\n\r\nSM\r\n\r\n";

fn profile_with(settings: Vec<Setting>) -> Http2Profile {
    Http2Profile::new(settings, None, None, pseudo_order(), None, true)
}

fn setting(id: SettingId, value: u32) -> Setting {
    Setting { id, value }
}

#[test]
fn prelude_is_preface_settings_and_window_update() {
    let profile = Http2Profile::new(
        vec![setting(SettingId::HeaderTableSize, 65536), setting(SettingId::EnablePush, 0)],
        None,
        Some(65536),
        pseudo_order(),
        None,
        false,
    );
    let bytes = apply_http2(&profile).unwrap();
    let mut expected = PREFACE.to_vec();
    expected.extend_from_slice(&[0, 0, 12, 4, 0, 0, 0, 0, 0]);
    expected.extend_from_slice(&[0, 1, 0, 1, 0, 0]);
    expected.extend_from_slice(&[0, 2, 0, 0, 0, 0]);
    expected.extend_from_slice(&[0, 0, 4, 8, 0, 0, 0, 0, 0, 0, 0, 0, 1]);
    assert_eq!(bytes, expected);
}

#[test]
fn no_window_update_at_or_below_the_default_window() {
    for window in [None, Some(0), Some(65535)] {
        let profile = Http2Profile::new(Vec::new(), None, window, pseudo_order(), None, true);
        let bytes = apply_http2(&profile).unwrap();
        let mut expected = PREFACE.to_vec();
        expected.extend_from_slice(&[0, 0, 0, 4, 0, 0, 0, 0, 0]);
        assert_eq!(bytes, expected);
    }
}

#[test]
fn window_update_carries_the_delta() {
    let profile =
        Http2Profile::new(Vec::new(), None, Some(15728640), pseudo_order(), None, true);
    let bytes = apply_http2(&profile).unwrap();
    // 15728640 - 65535 = 15663105 = 0x00ef0001
    assert_eq!(&bytes[33..], &[0, 0, 4, 8, 0, 0, 0, 0, 0, 0x00, 0xef, 0x00, 0x01]);
}

#[test]
fn initial_window_size_two_to_the_31_is_a_config_error() {
    let profile = profile_with(vec![setting(SettingId::InitialWindowSize, 1 << 31)]);
    assert_eq!(apply_http2(&profile), Err(ConfigError::SettingOutOfRange));
    assert_eq!(profile.validate(), Err(ConfigError::SettingOutOfRange));
}

#[test]
fn settings_at_the_bounds_are_accepted() {
    let profile = profile_with(vec![
        setting(SettingId::InitialWindowSize, 0x7fff_ffff),
        setting(SettingId::MaxFrameSize, 16_384),
        setting(SettingId::HeaderTableSize, u32::MAX),
        setting(SettingId::MaxConcurrentStreams, 0),
        setting(SettingId::MaxHeaderListSize, u32::MAX),
        setting(SettingId::EnablePush, 1),
        setting(SettingId::EnableConnectProtocol, 1),
    ]);
    assert!(apply_http2(&profile).is_ok());
    assert!(apply_http2(&profile_with(vec![setting(SettingId::MaxFrameSize, 16_777_215)])).is_ok());
    assert!(apply_http2(&profile_with(vec![setting(SettingId::InitialWindowSize, 0)])).is_ok());
}

#[test]
fn settings_past_the_bounds_are_refused() {
    for bad in [
        setting(SettingId::InitialWindowSize, 0x8000_0000),
        setting(SettingId::MaxFrameSize, 16_383),
        setting(SettingId::MaxFrameSize, 16_777_216),
        setting(SettingId::EnableConnectProtocol, 2),
    ] {
        assert!(!setting_in_range(bad));
        assert_eq!(apply_http2(&profile_with(vec![bad])), Err(ConfigError::SettingOutOfRange));
    }
    let push = Http2Profile::new(
        vec![setting(SettingId::EnablePush, 2)],
        None,
        None,
        pseudo_order(),
        None,
        true,
    );
    assert_eq!(apply_http2(&push), Err(ConfigError::SettingOutOfRange));
}

#[test]
fn window_sizes_past_the_bound_are_refused() {
    let stream =
        Http2Profile::new(Vec::new(), Some(0x8000_0000), None, pseudo_order(), None, true);
    assert_eq!(stream.validate(), Err(ConfigError::SettingOutOfRange));
    let connection =
        Http2Profile::new(Vec::new(), None, Some(0x8000_0000), pseudo_order(), None, true);
    assert_eq!(connection.validate(), Err(ConfigError::SettingOutOfRange));
    let at_bound =
        Http2Profile::new(Vec::new(), Some(0x7fff_ffff), Some(0x7fff_ffff), pseudo_order(), None, true);
    assert_eq!(at_bound.validate(), Ok(()));
}

#[test]
fn setting_sent_twice_is_refused() {
    let profile = profile_with(vec![
        setting(SettingId::HeaderTableSize, 1),
        setting(SettingId::MaxFrameSize, 1),
        setting(SettingId::HeaderTableSize, 2),
    ]);
    // The repetition is found before the frame size that is out of range.
    assert_eq!(apply_http2(&profile), Err(ConfigError::DuplicateSetting));
}

#[test]
fn enable_push_must_agree_with_the_setting() {
    let disagree = Http2Profile::new(
        vec![setting(SettingId::EnablePush, 0)],
        None,
        None,
        pseudo_order(),
        None,
        true,
    );
    assert_eq!(disagree.validate(), Err(ConfigError::EnablePushMismatch));
    let agree = Http2Profile::new(
        vec![setting(SettingId::EnablePush, 1)],
        None,
        None,
        pseudo_order(),
        None,
        true,
    );
    assert_eq!(agree.validate(), Ok(()));
}

#[test]
fn pseudo_header_order_must_hold_each_once() {
    let short = Http2Profile::new(
        Vec::new(),
        None,
        None,
        vec![PseudoHeader::Method, PseudoHeader::Path],
        None,
        true,
    );
    assert_eq!(short.validate(), Err(ConfigError::PseudoHeaderOrder));
    let repeated = Http2Profile::new(
        Vec::new(),
        None,
        None,
        vec![PseudoHeader::Method, PseudoHeader::Path, PseudoHeader::Scheme, PseudoHeader::Path],
        None,
        true,
    );
    assert_eq!(repeated.validate(), Err(ConfigError::PseudoHeaderOrder));
}

#[test]
fn priority_needs_a_31_bit_stream() {
    let priority = Priority { stream_dependency: 0x8000_0000, weight: 0, exclusive: false };
    let profile = Http2Profile::new(Vec::new(), None, None, pseudo_order(), Some(priority), true);
    assert_eq!(profile.validate(), Err(ConfigError::PriorityOutOfRange));
    assert_eq!(priority_payload(priority), Err(ConfigError::PriorityOutOfRange));
}

#[test]
fn priority_payload_sets_the_exclusive_bit() {
    let exclusive = Priority { stream_dependency: 0, weight: 255, exclusive: true };
    assert_eq!(priority_payload(exclusive), Ok(vec![0x80, 0, 0, 0, 255]));
    let plain = Priority { stream_dependency: 0x0102_0304, weight: 16, exclusive: false };
    assert_eq!(priority_payload(plain), Ok(vec![1, 2, 3, 4, 16]));
    let top = Priority { stream_dependency: 0x7fff_ffff, weight: 0, exclusive: true };
    assert_eq!(priority_payload(top), Ok(vec![0xff, 0xff, 0xff, 0xff, 0]));
}

#[test]
fn headers_frame_has_priority_flag_when_profile_has_priority() {
    let priority = Priority { stream_dependency: 0, weight: 255, exclusive: true };
    let with = Http2Profile::new(Vec::new(), None, None, pseudo_order(), Some(priority), true);
    let without = profile_with(Vec::new());
    assert_eq!(request_flags(&with, true, true), 0x25);
    assert_eq!(request_flags(&with, false, true), 0x24);
    assert_eq!(request_flags(&without, true, true), 0x05);
    assert_eq!(request_flags(&without, false, false), 0x00);
}

#[test]
fn only_populated_settings_are_sent_in_the_order_asked_for() {
    let settings = Http2Settings {
        header_table_size: Some(4096),
        max_frame_size: Some(16_384),
        initial_stream_window_size: Some(65_535),
        settings_order: Some(vec![
            SettingId::MaxFrameSize,
            SettingId::EnablePush,
            SettingId::InitialWindowSize,
        ]),
        ..Http2Settings::new()
    };
    let profile = settings.into_profile();
    assert_eq!(
        profile.settings(),
        vec![setting(SettingId::MaxFrameSize, 16_384), setting(SettingId::InitialWindowSize, 65_535)]
    );
    assert_eq!(profile.setting(SettingId::HeaderTableSize), None);
    assert_eq!(profile.setting(SettingId::MaxFrameSize), Some(16_384));
    assert!(profile.enable_push());
    assert_eq!(profile.pseudo_header_order(), pseudo_order());
}

#[test]
fn empty_settings_send_nothing() {
    let profile = Http2Settings::new().into_profile();
    assert!(profile.settings().is_empty());
    assert_eq!(profile.initial_stream_window_size(), None);
    assert_eq!(profile.initial_connection_window_size(), None);
    assert_eq!(profile.headers_priority(), None);
    assert_eq!(profile.validate(), Ok(()));
}

#[test]
fn flags_become_zero_and_one() {
    let settings = Http2Settings {
        enable_push: Some(false),
        enable_connect_protocol: Some(true),
        ..Http2Settings::new()
    };
    assert_eq!(settings.value(SettingId::EnablePush), Some(0));
    assert_eq!(settings.value(SettingId::EnableConnectProtocol), Some(1));
    assert_eq!(settings.value(SettingId::MaxFrameSize), None);
    let profile = settings.into_profile();
    assert_eq!(
        profile.settings(),
        vec![setting(SettingId::EnablePush, 0), setting(SettingId::EnableConnectProtocol, 1)]
    );
    assert!(!profile.enable_push());
}

#[test]
fn standard_order_is_by_identifier() {
    let ids: Vec<u16> = standard_order().into_iter().map(|id| id.wire_id()).collect();
    assert_eq!(ids, vec![1, 2, 3, 4, 5, 6, 8]);
}

#[test]
fn prelude_reads_back() {
    let settings = vec![
        setting(SettingId::HeaderTableSize, 65536),
        setting(SettingId::EnablePush, 0),
        setting(SettingId::InitialWindowSize, 6291456),
        setting(SettingId::EnableConnectProtocol, 1),
    ];
    let profile =
        Http2Profile::new(settings.clone(), None, Some(15728640), pseudo_order(), None, false);
    let bytes = apply_http2(&profile).unwrap();
    let read = read_prelude(&bytes).unwrap();
    assert_eq!(read.settings, settings);
    assert_eq!(read.window_increment, Some(15663105));

    let quiet = profile_with(Vec::new());
    let read = read_prelude(&apply_http2(&quiet).unwrap()).unwrap();
    assert!(read.settings.is_empty());
    assert_eq!(read.window_increment, None);
}

#[test]
fn reading_refuses_what_is_no_prelude() {
    let good = apply_http2(&profile_with(vec![setting(SettingId::MaxFrameSize, 16_384)])).unwrap();
    assert!(read_prelude(&good).is_some());
    assert!(read_prelude(&[]).is_none());
    assert!(read_prelude(&good[..good.len() - 1]).is_none());
    let mut trailing = good.clone();
    trailing.push(0);
    assert!(read_prelude(&trailing).is_none());
    let mut preface = good.clone();
    preface[0] = b'G';
    assert!(read_prelude(&preface).is_none());
    let mut kind = good.clone();
    kind[27] = 0;
    assert!(read_prelude(&kind).is_none());
    let mut stream = good.clone();
    stream[32] = 1;
    assert!(read_prelude(&stream).is_none());
    let mut unknown = good.clone();
    unknown[34] = 7;
    assert!(read_prelude(&unknown).is_none());
    let mut ragged = good.clone();
    ragged[26] = 5;
    assert!(read_prelude(&ragged).is_none());
}

#[test]
fn header_block_puts_pseudo_headers_first_in_profile_order() {
    let profile = Http2Profile::new(
        Vec::new(),
        None,
        None,
        vec![PseudoHeader::Method, PseudoHeader::Authority, PseudoHeader::Scheme, PseudoHeader::Path],
        None,
        true,
    );
    let regular = vec![Header::new("user-agent", "ua"), Header::new("accept", "*/*")];
    let block = header_block(&profile, b"GET", b"https", b"example.org", b"/index", &regular);
    let got: Vec<(&[u8], &[u8])> =
        block.iter().map(|h| (h.name.as_slice(), h.value.as_slice())).collect();
    let want: Vec<(&[u8], &[u8])> = vec![
        (b":method", b"GET"),
        (b":authority", b"example.org"),
        (b":scheme", b"https"),
        (b":path", b"/index"),
        (b"user-agent", b"ua"),
        (b"accept", b"*/*"),
    ];
    assert_eq!(got, want);
}

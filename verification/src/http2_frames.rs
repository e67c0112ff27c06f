//! Reading back what opens a connection, and the head of each request: the
//! pseudo-headers in the profile's order and the priority fields.

use vstd::prelude::*;
use vstd::string::*;
use crate::error::ConfigError;
use crate::headers::{copy_headers, fields_of, Fields, Header};
use crate::bytes::{
    be16, be24, be32, from_be16, from_be24, from_be32, lemma_be16_round_trip,
    lemma_be24_round_trip, lemma_be32_round_trip, put_be32, read_be16, read_be32,
};
use crate::http2::{
    connection_prelude, frame_header, http2_error, lemma_distinct_ids_are_few, preface,
    setting_bytes, settings_frame, settings_payload, window_increment, window_update_frame,
    Http2Profile, Http2ProfileView, Priority, Setting, MAX_STREAM_ID,
};
use crate::wire::{PseudoHeader, SettingId};

verus! {

/// The setting with the given identifier, where there is one.
pub open spec fn setting_of(id: u16) -> Option<SettingId> {
    if id == 1 {
        Some(SettingId::HeaderTableSize)
    } else if id == 2 {
        Some(SettingId::EnablePush)
    } else if id == 3 {
        Some(SettingId::MaxConcurrentStreams)
    } else if id == 4 {
        Some(SettingId::InitialWindowSize)
    } else if id == 5 {
        Some(SettingId::MaxFrameSize)
    } else if id == 6 {
        Some(SettingId::MaxHeaderListSize)
    } else if id == 8 {
        Some(SettingId::EnableConnectProtocol)
    } else {
        None
    }
}

/// The settings that a SETTINGS payload holds; `None` where its length is no
/// multiple of six or an identifier is none of this vocabulary.
pub open spec fn decode_settings(payload: Seq<u8>) -> Option<Seq<Setting>>
    decreases payload.len(),
{
    if payload.len() == 0 {
        Some(Seq::empty())
    } else if payload.len() < 6 {
        None
    } else {
        let cut = payload.len() - 6;
        let tail = payload.skip(cut);
        match (decode_settings(payload.take(cut)), setting_of(from_be16(tail.take(2)))) {
            (Some(before), Some(id)) => Some(
                before.push(Setting { id, value: from_be32(tail.skip(2)) }),
            ),
            _ => None,
        }
    }
}

/// What opens a connection, read back: the settings of the SETTINGS frame
/// and the increment of the WINDOW_UPDATE that follows it, if one does.
pub open spec fn decode_prelude(bytes: Seq<u8>) -> Option<(Seq<Setting>, Option<u32>)> {
    if bytes.len() < 33 || bytes.take(24) != preface() {
        None
    } else {
        let length = from_be24(bytes.subrange(24, 27));
        if bytes[27] != 4 || bytes[28] != 0 || from_be32(bytes.subrange(29, 33)) != 0
            || bytes.len() < 33 + length {
            None
        } else {
            let rest = bytes.skip(33 + length);
            match decode_settings(bytes.subrange(33, 33 + length)) {
                None => None,
                Some(settings) => if rest.len() == 0 {
                    Some((settings, None))
                } else if rest.len() == 13 && rest.take(9) == frame_header(4, 8, 0, 0) {
                    Some((settings, Some(from_be32(rest.skip(9)))))
                } else {
                    None
                },
            }
        }
    }
}

/// Each setting takes six bytes.
pub proof fn lemma_payload_len(settings: Seq<Setting>)
    ensures
        settings_payload(settings).len() == 6 * settings.len(),
    decreases settings.len(),
{
    if settings.len() > 0 {
        lemma_payload_len(settings.drop_last());
    }
}

/// Reading a SETTINGS payload back gives the settings that were written, in
/// their order.
pub proof fn lemma_settings_round_trip(settings: Seq<Setting>)
    ensures
        decode_settings(settings_payload(settings)) == Some(settings),
    decreases settings.len(),
{
    if settings.len() > 0 {
        let shorter = settings.drop_last();
        let last = settings.last();
        let payload = settings_payload(settings);
        lemma_payload_len(settings);
        lemma_payload_len(shorter);
        lemma_settings_round_trip(shorter);
        let cut = payload.len() - 6;
        assert(payload.take(cut) =~= settings_payload(shorter));
        let tail = payload.skip(cut);
        assert(tail =~= setting_bytes(last));
        assert(tail.take(2) =~= be16(last.id.wire()));
        assert(tail.skip(2) =~= be32(last.value));
        lemma_be16_round_trip(last.id.wire());
        lemma_be32_round_trip(last.value);
        assert(setting_of(last.id.wire()) == Some(last.id));
        assert(shorter.push(last) =~= settings);
    }
}

/// Reading back what opens a connection for a profile that keeps the rules
/// gives the profile's settings in their order, and the amount by which the
/// profile raises the connection window.
pub proof fn lemma_prelude_round_trip(profile: Http2ProfileView)
    requires
        http2_error(profile) is None,
    ensures
        decode_prelude(connection_prelude(profile)) == Some(
            (profile.settings, window_increment(profile.initial_connection_window_size)),
        ),
{
    let settings = profile.settings;
    let bytes = connection_prelude(profile);
    let n = settings.len();
    lemma_distinct_ids_are_few(settings);
    lemma_payload_len(settings);
    lemma_settings_round_trip(settings);
    let length = (6 * n) as u32;
    let head = preface() + settings_frame(settings);
    assert(head.len() == 33 + 6 * n);
    assert(bytes.take(24) =~= preface());
    assert(bytes.subrange(24, 27) =~= be24(length));
    lemma_be24_round_trip(length);
    assert(bytes.subrange(29, 33) =~= be32(0));
    lemma_be32_round_trip(0);
    assert(bytes[27] == 4 && bytes[28] == 0);
    assert(bytes.subrange(33, 33 + length) =~= settings_payload(settings));
    let rest = bytes.skip(33 + length);
    match window_increment(profile.initial_connection_window_size) {
        Some(increment) => {
            assert(rest =~= window_update_frame(increment));
            assert(rest.take(9) =~= frame_header(4, 8, 0, 0));
            assert(rest.skip(9) =~= be32(increment));
            lemma_be32_round_trip(increment);
        },
        None => {
            assert(rest =~= Seq::empty());
        },
    }
}

/// What opens a connection, read back.
#[derive(Debug)]
pub struct Prelude {
    /// The settings of the SETTINGS frame, in wire order.
    pub settings: Vec<Setting>,
    /// The increment of the WINDOW_UPDATE on stream 0, if one follows.
    pub window_increment: Option<u32>,
}

fn starts_with_preface(bytes: &[u8]) -> (yes: bool)
    requires
        bytes@.len() >= 24,
    ensures
        yes == (bytes@.take(24) == preface()),
{
    let head: [u8; 24] = [
        0x50, 0x52, 0x49, 0x20, 0x2a, 0x20, 0x48, 0x54, 0x54, 0x50, 0x2f, 0x32, 0x2e, 0x30, 0x0d,
        0x0a, 0x0d, 0x0a, 0x53, 0x4d, 0x0d, 0x0a, 0x0d, 0x0a,
    ];
    let mut k: usize = 0;
    while k < 24
        invariant
            k <= 24 <= bytes@.len(),
            head@ == preface(),
            forall|i: int| 0 <= i < k ==> bytes@[i] == preface()[i],
        decreases 24 - k,
    {
        if bytes[k] != head[k] {
            assert(bytes@.take(24)[k as int] != preface()[k as int]);
            return false;
        }
        k += 1;
    }
    assert(bytes@.take(24) =~= preface());
    true
}

/// What one more setting adds to what a payload holds.
pub proof fn lemma_decode_step(payload: Seq<u8>, n: int)
    requires
        0 <= n,
        n + 6 <= payload.len(),
    ensures
        decode_settings(payload.take(n + 6)) == match (
            decode_settings(payload.take(n)),
            setting_of(from_be16(payload.subrange(n, n + 2))),
        ) {
            (Some(before), Some(id)) => Some(
                before.push(Setting { id, value: from_be32(payload.subrange(n + 2, n + 6)) }),
            ),
            _ => None,
        },
{
    let next = payload.take(n + 6);
    let cut = next.len() - 6;
    assert(cut == n);
    assert(next.take(cut) =~= payload.take(n));
    let tail = next.skip(cut);
    assert(tail.take(2) =~= payload.subrange(n, n + 2));
    assert(tail.skip(2) =~= payload.subrange(n + 2, n + 6));
}

/// The settings that a SETTINGS payload holds, in their order; `None` where
/// its length is no multiple of six or an identifier is none of this
/// vocabulary.
pub fn read_settings(payload: &[u8]) -> (result: Option<Vec<Setting>>)
    ensures
        match result {
            Some(settings) => decode_settings(payload@) == Some(settings@),
            None => decode_settings(payload@) is None,
        },
{
    let length = payload.len();
    if length % 6 != 0 {
        proof {
            lemma_ragged_payload(payload@);
        }
        return None;
    }
    let mut settings: Vec<Setting> = Vec::new();
    let mut at: usize = 0;
    assert(payload@.take(0) =~= Seq::empty());
    while at < length
        invariant
            at <= length == payload@.len(),
            at % 6 == 0,
            length % 6 == 0,
            decode_settings(payload@.take(at as int)) == Some(settings@),
        decreases length - at,
    {
        let id = read_be16(payload, at);
        let value = read_be32(payload, at + 2);
        proof {
            lemma_decode_step(payload@, at as int);
        }
        match SettingId::from_wire_id(id) {
            Some(known) => {
                proof {
                    lemma_setting_of(known);
                }
                settings.push(Setting { id: known, value });
            },
            None => {
                proof {
                    lemma_no_setting(id);
                    lemma_bad_prefix(payload@, at + 6);
                }
                return None;
            },
        }
        at += 6;
    }
    assert(payload@.take(at as int) =~= payload@);
    Some(settings)
}

fn is_window_update(bytes: &[u8], at: usize) -> (yes: bool)
    requires
        at + 9 <= bytes@.len(),
    ensures
        yes == (bytes@.subrange(at as int, at + 9) == frame_header(4, 8, 0, 0)),
{
    let total = bytes.len();
    assert(at + 9 <= total);
    let head = vstd::slice::slice_subrange(bytes, at, at + 9);
    let yes = head[0] == 0 && head[1] == 0 && head[2] == 4 && head[3] == 8 && head[4] == 0
        && head[5] == 0 && head[6] == 0 && head[7] == 0 && head[8] == 0;
    proof {
        let want = frame_header(4, 8, 0, 0);
        assert(want =~= seq![0u8, 0u8, 4u8, 8u8, 0u8, 0u8, 0u8, 0u8, 0u8]);
        if yes {
            assert(head@ =~= want);
        }
    }
    yes
}

/// Reads back what opens a connection: the preface, one SETTINGS frame and,
/// where it follows, one WINDOW_UPDATE on stream 0. Anything else gives
/// `None`.
pub fn read_prelude(bytes: &[u8]) -> (result: Option<Prelude>)
    ensures
        match result {
            Some(p) => decode_prelude(bytes@) == Some((p.settings@, p.window_increment)),
            None => decode_prelude(bytes@) is None,
        },
{
    if bytes.len() < 33 || !starts_with_preface(bytes) {
        return None;
    }
    let length: usize = (bytes[24] as usize) * 0x1_0000 + (bytes[25] as usize) * 0x100 + (
    bytes[26] as usize);
    assert(length == from_be24(bytes@.subrange(24, 27)));
    if bytes[27] != 4 || bytes[28] != 0 || read_be32(bytes, 29) != 0 || bytes.len() - 33 < length {
        return None;
    }
    let end: usize = 33 + length;
    let settings = match read_settings(vstd::slice::slice_subrange(bytes, 33, end)) {
        Some(settings) => settings,
        None => {
            return None;
        },
    };
    let left: usize = bytes.len() - end;
    let ghost rest = bytes@.skip(end as int);
    if left == 0 {
        return Some(Prelude { settings, window_increment: None });
    }
    if left != 13 {
        return None;
    }
    assert(rest.take(9) =~= bytes@.subrange(end as int, end + 9));
    assert(rest.skip(9) =~= bytes@.subrange(end + 9, end + 13));
    if !is_window_update(bytes, end) {
        return None;
    }
    let increment = read_be32(bytes, end + 9);
    Some(Prelude { settings, window_increment: Some(increment) })
}

/// A payload whose length is no multiple of six holds no settings.
pub proof fn lemma_ragged_payload(payload: Seq<u8>)
    requires
        payload.len() % 6 != 0,
    ensures
        decode_settings(payload) is None,
    decreases payload.len(),
{
    if payload.len() >= 6 {
        lemma_ragged_payload(payload.take(payload.len() - 6));
    }
}

/// A payload that starts with something that holds no settings holds none.
pub proof fn lemma_bad_prefix(payload: Seq<u8>, n: int)
    requires
        0 <= n <= payload.len(),
        (payload.len() - n) % 6 == 0,
        decode_settings(payload.take(n)) is None,
    ensures
        decode_settings(payload) is None,
    decreases payload.len() - n,
{
    if n < payload.len() {
        let cut = payload.len() - 6;
        assert(payload.take(cut).take(n) =~= payload.take(n));
        lemma_bad_prefix(payload.take(cut), n);
    } else {
        assert(payload.take(n) =~= payload);
    }
}

/// The identifier of a setting names that setting.
pub proof fn lemma_setting_of(id: SettingId)
    ensures
        setting_of(id.wire()) == Some(id),
{
}

/// A number that no setting has as its identifier names none.
pub proof fn lemma_no_setting(id: u16)
    requires
        forall|v: SettingId| #[trigger] v.wire() != id,
    ensures
        setting_of(id) is None,
{
    assert(SettingId::HeaderTableSize.wire() != id);
    assert(SettingId::EnablePush.wire() != id);
    assert(SettingId::MaxConcurrentStreams.wire() != id);
    assert(SettingId::InitialWindowSize.wire() != id);
    assert(SettingId::MaxFrameSize.wire() != id);
    assert(SettingId::MaxHeaderListSize.wire() != id);
    assert(SettingId::EnableConnectProtocol.wire() != id);
}

/// The value that a request gives to a pseudo-header.
pub open spec fn pseudo_value(
    which: PseudoHeader,
    method: Seq<u8>,
    scheme: Seq<u8>,
    authority: Seq<u8>,
    path: Seq<u8>,
) -> Seq<u8> {
    match which {
        PseudoHeader::Method => method,
        PseudoHeader::Scheme => scheme,
        PseudoHeader::Authority => authority,
        PseudoHeader::Path => path,
    }
}

/// The pseudo-headers of a request, in the given order.
pub open spec fn pseudo_fields(
    order: Seq<PseudoHeader>,
    method: Seq<u8>,
    scheme: Seq<u8>,
    authority: Seq<u8>,
    path: Seq<u8>,
) -> Fields {
    Seq::new(
        order.len(),
        |i: int|
            (
                vstd::utf8::encode_utf8(order[i].spec_name()),
                pseudo_value(order[i], method, scheme, authority, path),
            ),
    )
}

/// The header block of a request: its pseudo-headers in the profile's order,
/// then `headers` as they stand.
pub fn header_block(
    profile: &Http2Profile,
    method: &[u8],
    scheme: &[u8],
    authority: &[u8],
    path: &[u8],
    headers: &Vec<Header>,
) -> (block: Vec<Header>)
    ensures
        fields_of(block@) == pseudo_fields(
            profile@.pseudo_header_order,
            method@,
            scheme@,
            authority@,
            path@,
        ) + fields_of(headers@),
{
    let order = profile.pseudo_header_order();
    let ghost pseudo = pseudo_fields(order@, method@, scheme@, authority@, path@);
    let mut block: Vec<Header> = Vec::new();
    let mut i: usize = 0;
    while i < order.len()
        invariant
            i <= order@.len(),
            pseudo == pseudo_fields(order@, method@, scheme@, authority@, path@),
            fields_of(block@) == pseudo.take(i as int),
        decreases order@.len() - i,
    {
        let ghost before = fields_of(block@);
        let value = match order[i] {
            PseudoHeader::Method => method,
            PseudoHeader::Scheme => scheme,
            PseudoHeader::Authority => authority,
            PseudoHeader::Path => path,
        };
        block.push(Header::from_bytes(order[i].name().as_bytes(), value));
        assert(fields_of(block@) =~= before.push(pseudo[i as int]));
        assert(fields_of(block@) =~= pseudo.take(i + 1));
        i += 1;
    }
    assert(pseudo.take(i as int) =~= pseudo);
    let mut rest = copy_headers(headers);
    let ghost first = fields_of(block@);
    let ghost second = fields_of(rest@);
    block.append(&mut rest);
    assert(fields_of(block@) =~= first + second);
    block
}

/// The five priority bytes of a HEADERS frame: the exclusive bit and the
/// stream depended on, then the weight.
pub open spec fn priority_bytes(priority: Priority) -> Seq<u8> {
    be32(
        (priority.stream_dependency + if priority.exclusive {
            0x8000_0000int
        } else {
            0int
        }) as u32,
    ).push(priority.weight)
}

/// The five priority bytes of a HEADERS frame; `PriorityOutOfRange` where the
/// stream depended on needs more than 31 bits.
pub fn priority_payload(priority: Priority) -> (result: Result<Vec<u8>, ConfigError>)
    ensures
        match result {
            Ok(bytes) => priority.stream_dependency <= MAX_STREAM_ID && bytes@ == priority_bytes(
                priority,
            ),
            Err(e) => priority.stream_dependency > MAX_STREAM_ID && e
                == ConfigError::PriorityOutOfRange,
        },
{
    if priority.stream_dependency > MAX_STREAM_ID {
        return Err(ConfigError::PriorityOutOfRange);
    }
    let first: u32 = if priority.exclusive {
        priority.stream_dependency + 0x8000_0000
    } else {
        priority.stream_dependency
    };
    let mut out: Vec<u8> = Vec::new();
    put_be32(&mut out, first);
    out.push(priority.weight);
    assert(out@ =~= priority_bytes(priority));
    Ok(out)
}

/// The flags of a HEADERS frame: END_STREAM, END_HEADERS and PRIORITY.
pub open spec fn headers_flags(end_stream: bool, end_headers: bool, priority: bool) -> u8 {
    ((if end_stream {
        0x1int
    } else {
        0int
    }) + (if end_headers {
        0x4int
    } else {
        0int
    }) + (if priority {
        0x20int
    } else {
        0int
    })) as u8
}

/// The flags of the HEADERS frame of a request under `profile`: PRIORITY is
/// set exactly when the profile puts a priority on header frames.
pub fn request_flags(profile: &Http2Profile, end_stream: bool, end_headers: bool) -> (flags: u8)
    ensures
        flags == headers_flags(end_stream, end_headers, profile@.headers_priority is Some),
{
    let mut flags: u8 = 0;
    if end_stream {
        flags = flags + 0x1;
    }
    if end_headers {
        flags = flags + 0x4;
    }
    if profile.headers_priority().is_some() {
        flags = flags + 0x20;
    }
    flags
}

} // verus!

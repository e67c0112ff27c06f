//! The HTTP/2 profile: the SETTINGS a browser sends and their order, its
//! window sizes, the order of its pseudo-headers and the priority it puts on
//! header frames; and the bytes that open a connection accordingly.

use vstd::prelude::*;
use crate::bytes::{be16, be24, be32, put_be16, put_be32};
use crate::error::ConfigError;
use crate::wire::{PseudoHeader, SettingId};

verus! {

/// The largest window size HTTP/2 permits.
pub const MAX_WINDOW_SIZE: u32 = 0x7fff_ffff;

/// The smallest `MAX_FRAME_SIZE` HTTP/2 permits.
pub const MIN_FRAME_SIZE: u32 = 0x4000;

/// The largest `MAX_FRAME_SIZE` HTTP/2 permits.
pub const MAX_FRAME_SIZE: u32 = 0xff_ffff;

/// The connection window that HTTP/2 starts with.
pub const DEFAULT_CONNECTION_WINDOW: u32 = 65_535;

/// The largest stream identifier.
pub const MAX_STREAM_ID: u32 = 0x7fff_ffff;

/// One entry of a SETTINGS frame.
#[derive(Clone, Copy, Debug, PartialEq, Eq, Structural)]
pub struct Setting {
    pub id: SettingId,
    pub value: u32,
}

/// The priority a browser puts on the HEADERS frame of each request.
#[derive(Clone, Copy, Debug, PartialEq, Eq, Structural)]
pub struct Priority {
    /// The stream that the request depends on.
    pub stream_dependency: u32,
    /// The weight as the frame carries it: one less than the weight it
    /// stands for.
    pub weight: u8,
    /// Whether the dependency is exclusive.
    pub exclusive: bool,
}

/// The HTTP/2 part of a profile.
#[derive(Debug)]
pub struct Http2Profile {
    settings: Vec<Setting>,
    initial_stream_window_size: Option<u32>,
    initial_connection_window_size: Option<u32>,
    pseudo_header_order: Vec<PseudoHeader>,
    headers_priority: Option<Priority>,
    enable_push: bool,
}

/// An HTTP/2 profile as the contracts see it.
pub struct Http2ProfileView {
    /// The entries of the SETTINGS frame, in wire order.
    pub settings: Seq<Setting>,
    pub initial_stream_window_size: Option<u32>,
    pub initial_connection_window_size: Option<u32>,
    /// The order of the pseudo-headers in each HEADERS frame.
    pub pseudo_header_order: Seq<PseudoHeader>,
    pub headers_priority: Option<Priority>,
    pub enable_push: bool,
}

impl View for Http2Profile {
    type V = Http2ProfileView;

    closed spec fn view(&self) -> Http2ProfileView {
        Http2ProfileView {
            settings: self.settings@,
            initial_stream_window_size: self.initial_stream_window_size,
            initial_connection_window_size: self.initial_connection_window_size,
            pseudo_header_order: self.pseudo_header_order@,
            headers_priority: self.headers_priority,
            enable_push: self.enable_push,
        }
    }
}

/// Whether a setting's value is one that HTTP/2 permits for it.
pub open spec fn value_in_range(setting: Setting) -> bool {
    match setting.id {
        SettingId::EnablePush => setting.value <= 1,
        SettingId::EnableConnectProtocol => setting.value <= 1,
        SettingId::InitialWindowSize => setting.value <= MAX_WINDOW_SIZE,
        SettingId::MaxFrameSize => MIN_FRAME_SIZE <= setting.value <= MAX_FRAME_SIZE,
        _ => true,
    }
}

/// Whether no setting occurs twice.
pub open spec fn distinct_ids(settings: Seq<Setting>) -> bool {
    forall|i: int, j: int|
        0 <= i < j < settings.len() ==> (#[trigger] settings[i]).id != (#[trigger] settings[j]).id
}

/// Whether every value is one that HTTP/2 permits.
pub open spec fn values_in_range(settings: Seq<Setting>) -> bool {
    forall|i: int| 0 <= i < settings.len() ==> value_in_range(#[trigger] settings[i])
}

/// Whether a window size, where one is given, is one that HTTP/2 permits.
pub open spec fn window_in_range(window: Option<u32>) -> bool {
    match window {
        Some(w) => w <= MAX_WINDOW_SIZE,
        None => true,
    }
}

/// The value that `ENABLE_PUSH` has for a given choice.
pub open spec fn push_value(enable_push: bool) -> u32 {
    if enable_push {
        1
    } else {
        0
    }
}

/// Whether `ENABLE_PUSH`, where the settings hold it, says what
/// `enable_push` says.
pub open spec fn push_agrees(settings: Seq<Setting>, enable_push: bool) -> bool {
    forall|i: int|
        0 <= i < settings.len() && (#[trigger] settings[i]).id == SettingId::EnablePush
            ==> settings[i].value == push_value(enable_push)
}

/// Whether `order` holds each of the four pseudo-headers once.
pub open spec fn is_pseudo_order(order: Seq<PseudoHeader>) -> bool {
    &&& order.len() == 4
    &&& forall|i: int, j: int| 0 <= i < j < 4 ==> #[trigger] order[i] != #[trigger] order[j]
}

/// Whether the stream that a priority depends on fits in 31 bits.
pub open spec fn priority_in_range(priority: Option<Priority>) -> bool {
    match priority {
        Some(p) => p.stream_dependency <= MAX_STREAM_ID,
        None => true,
    }
}

/// The first rule that a profile breaks, if it breaks any.
pub open spec fn http2_error(profile: Http2ProfileView) -> Option<ConfigError> {
    if !distinct_ids(profile.settings) {
        Some(ConfigError::DuplicateSetting)
    } else if !values_in_range(profile.settings) || !window_in_range(
        profile.initial_stream_window_size,
    ) || !window_in_range(profile.initial_connection_window_size) {
        Some(ConfigError::SettingOutOfRange)
    } else if !push_agrees(profile.settings, profile.enable_push) {
        Some(ConfigError::EnablePushMismatch)
    } else if !is_pseudo_order(profile.pseudo_header_order) {
        Some(ConfigError::PseudoHeaderOrder)
    } else if !priority_in_range(profile.headers_priority) {
        Some(ConfigError::PriorityOutOfRange)
    } else {
        None
    }
}

/// The nine bytes that start a frame.
pub open spec fn frame_header(length: u32, kind: u8, flags: u8, stream: u32) -> Seq<u8> {
    be24(length) + seq![kind, flags] + be32(stream)
}

/// The six bytes of one setting.
pub open spec fn setting_bytes(setting: Setting) -> Seq<u8> {
    be16(setting.id.wire()) + be32(setting.value)
}

/// The payload of a SETTINGS frame.
pub open spec fn settings_payload(settings: Seq<Setting>) -> Seq<u8>
    decreases settings.len(),
{
    if settings.len() == 0 {
        Seq::empty()
    } else {
        settings_payload(settings.drop_last()) + setting_bytes(settings.last())
    }
}

/// A SETTINGS frame that holds `settings` in order.
pub open spec fn settings_frame(settings: Seq<Setting>) -> Seq<u8> {
    frame_header((6 * settings.len()) as u32, 4, 0, 0) + settings_payload(settings)
}

/// A WINDOW_UPDATE frame on stream 0.
pub open spec fn window_update_frame(increment: u32) -> Seq<u8> {
    frame_header(4, 8, 0, 0) + be32(increment)
}

/// The client connection preface: `PRI * HTTP/2.0\r\n\r\nSM\r\n\r\n`.
pub open spec fn preface() -> Seq<u8> {
    seq![
        0x50, 0x52, 0x49, 0x20, 0x2a, 0x20, 0x48, 0x54, 0x54, 0x50, 0x2f, 0x32, 0x2e, 0x30, 0x0d,
        0x0a, 0x0d, 0x0a, 0x53, 0x4d, 0x0d, 0x0a, 0x0d, 0x0a,
    ]
}

/// By how much the connection window is raised when a connection opens, if
/// it is raised.
pub open spec fn window_increment(window: Option<u32>) -> Option<u32> {
    match window {
        Some(w) => if w > DEFAULT_CONNECTION_WINDOW {
            Some((w - DEFAULT_CONNECTION_WINDOW) as u32)
        } else {
            None
        },
        None => None,
    }
}

/// The bytes that open a connection: the preface, one SETTINGS frame with
/// the profile's settings in order, and a WINDOW_UPDATE on stream 0 where
/// the profile's connection window is above the default.
pub open spec fn connection_prelude(profile: Http2ProfileView) -> Seq<u8> {
    preface() + settings_frame(profile.settings) + match window_increment(
        profile.initial_connection_window_size,
    ) {
        Some(increment) => window_update_frame(increment),
        None => Seq::empty(),
    }
}

/// Whether a setting's value is one that HTTP/2 permits for it.
pub fn setting_in_range(setting: Setting) -> (ok: bool)
    ensures
        ok == value_in_range(setting),
{
    match setting.id {
        SettingId::EnablePush => setting.value <= 1,
        SettingId::EnableConnectProtocol => setting.value <= 1,
        SettingId::InitialWindowSize => setting.value <= MAX_WINDOW_SIZE,
        SettingId::MaxFrameSize => MIN_FRAME_SIZE <= setting.value && setting.value
            <= MAX_FRAME_SIZE,
        _ => true,
    }
}

fn ids_are_distinct(settings: &Vec<Setting>) -> (ok: bool)
    ensures
        ok == distinct_ids(settings@),
{
    let mut j: usize = 0;
    while j < settings.len()
        invariant
            j <= settings@.len(),
            forall|a: int, b: int|
                0 <= a < b < j ==> (#[trigger] settings@[a]).id != (#[trigger] settings@[b]).id,
        decreases settings@.len() - j,
    {
        let mut i: usize = 0;
        while i < j
            invariant
                i <= j < settings@.len(),
                forall|a: int| 0 <= a < i ==> (#[trigger] settings@[a]).id != settings@[j as int].id,
            decreases j - i,
        {
            if settings[i].id == settings[j].id {
                return false;
            }
            i += 1;
        }
        j += 1;
    }
    true
}

fn values_are_in_range(settings: &Vec<Setting>) -> (ok: bool)
    ensures
        ok == values_in_range(settings@),
{
    let mut i: usize = 0;
    while i < settings.len()
        invariant
            i <= settings@.len(),
            forall|a: int| 0 <= a < i ==> value_in_range(#[trigger] settings@[a]),
        decreases settings@.len() - i,
    {
        if !setting_in_range(settings[i]) {
            return false;
        }
        i += 1;
    }
    true
}

fn window_is_in_range(window: Option<u32>) -> (ok: bool)
    ensures
        ok == window_in_range(window),
{
    match window {
        Some(w) => w <= MAX_WINDOW_SIZE,
        None => true,
    }
}

fn push_is_agreed(settings: &Vec<Setting>, enable_push: bool) -> (ok: bool)
    ensures
        ok == push_agrees(settings@, enable_push),
{
    let wanted: u32 = if enable_push {
        1
    } else {
        0
    };
    let mut i: usize = 0;
    while i < settings.len()
        invariant
            i <= settings@.len(),
            wanted == push_value(enable_push),
            forall|a: int|
                0 <= a < i && (#[trigger] settings@[a]).id == SettingId::EnablePush
                    ==> settings@[a].value == wanted,
        decreases settings@.len() - i,
    {
        if settings[i].id == SettingId::EnablePush && settings[i].value != wanted {
            return false;
        }
        i += 1;
    }
    true
}

fn pseudo_order_is_whole(order: &Vec<PseudoHeader>) -> (ok: bool)
    ensures
        ok == is_pseudo_order(order@),
{
    if order.len() != 4 {
        return false;
    }
    let a = order[0];
    let b = order[1];
    let c = order[2];
    let d = order[3];
    a != b && a != c && a != d && b != c && b != d && c != d
}

/// The nine bytes that start a frame, appended to `out`.
pub fn put_frame_header(out: &mut Vec<u8>, length: u32, kind: u8, flags: u8, stream: u32)
    ensures
        final(out)@ == old(out)@ + frame_header(length, kind, flags, stream),
{
    out.push(((length / 0x1_0000) % 0x100) as u8);
    out.push(((length / 0x100) % 0x100) as u8);
    out.push((length % 0x100) as u8);
    out.push(kind);
    out.push(flags);
    put_be32(out, stream);
    assert(out@ =~= old(out)@ + frame_header(length, kind, flags, stream));
}

/// The six bytes of one setting, appended to `out`.
pub fn put_setting(out: &mut Vec<u8>, setting: Setting)
    ensures
        final(out)@ == old(out)@ + setting_bytes(setting),
{
    put_be16(out, setting.id.wire_id());
    put_be32(out, setting.value);
    assert(out@ =~= old(out)@ + setting_bytes(setting));
}

impl Http2Profile {
    /// The profile with the given parts.
    pub fn new(
        settings: Vec<Setting>,
        initial_stream_window_size: Option<u32>,
        initial_connection_window_size: Option<u32>,
        pseudo_header_order: Vec<PseudoHeader>,
        headers_priority: Option<Priority>,
        enable_push: bool,
    ) -> (profile: Http2Profile)
        ensures
            profile@ == (Http2ProfileView {
                settings: settings@,
                initial_stream_window_size,
                initial_connection_window_size,
                pseudo_header_order: pseudo_header_order@,
                headers_priority,
                enable_push,
            }),
    {
        Http2Profile {
            settings,
            initial_stream_window_size,
            initial_connection_window_size,
            pseudo_header_order,
            headers_priority,
            enable_push,
        }
    }

    /// The entries of the SETTINGS frame, in wire order.
    pub fn settings(&self) -> (out: Vec<Setting>)
        ensures
            out@ == self@.settings,
    {
        let mut out: Vec<Setting> = Vec::new();
        let mut i: usize = 0;
        while i < self.settings.len()
            invariant
                i <= self.settings@.len(),
                out@ == self.settings@.take(i as int),
            decreases self.settings@.len() - i,
        {
            out.push(self.settings[i]);
            assert(out@ =~= self.settings@.take(i + 1));
            i += 1;
        }
        assert(self.settings@.take(i as int) =~= self.settings@);
        out
    }

    /// The value that the SETTINGS frame gives to `id`, if it holds `id`.
    pub fn setting(&self, id: SettingId) -> (value: Option<u32>)
        ensures
            match value {
                Some(v) => exists|i: int|
                    0 <= i < self@.settings.len() && #[trigger] self@.settings[i] == (Setting {
                        id,
                        value: v,
                    }) && forall|k: int| 0 <= k < i ==> (#[trigger] self@.settings[k]).id != id,
                None => forall|i: int|
                    0 <= i < self@.settings.len() ==> (#[trigger] self@.settings[i]).id != id,
            },
    {
        let mut i: usize = 0;
        while i < self.settings.len()
            invariant
                i <= self.settings@.len(),
                forall|k: int| 0 <= k < i ==> (#[trigger] self.settings@[k]).id != id,
            decreases self.settings@.len() - i,
        {
            if self.settings[i].id == id {
                assert(self@.settings[i as int] == (Setting { id, value: self.settings@[i as int].value }));
                return Some(self.settings[i].value);
            }
            i += 1;
        }
        None
    }

    /// The window that each stream starts with, where the profile sets one.
    pub fn initial_stream_window_size(&self) -> (window: Option<u32>)
        ensures
            window == self@.initial_stream_window_size,
    {
        self.initial_stream_window_size
    }

    /// The window that the connection is raised to, where the profile sets
    /// one.
    pub fn initial_connection_window_size(&self) -> (window: Option<u32>)
        ensures
            window == self@.initial_connection_window_size,
    {
        self.initial_connection_window_size
    }

    /// The order of the pseudo-headers in each HEADERS frame.
    pub fn pseudo_header_order(&self) -> (out: Vec<PseudoHeader>)
        ensures
            out@ == self@.pseudo_header_order,
    {
        let mut out: Vec<PseudoHeader> = Vec::new();
        let mut i: usize = 0;
        while i < self.pseudo_header_order.len()
            invariant
                i <= self.pseudo_header_order@.len(),
                out@ == self.pseudo_header_order@.take(i as int),
            decreases self.pseudo_header_order@.len() - i,
        {
            out.push(self.pseudo_header_order[i]);
            assert(out@ =~= self.pseudo_header_order@.take(i + 1));
            i += 1;
        }
        assert(self.pseudo_header_order@.take(i as int) =~= self.pseudo_header_order@);
        out
    }

    /// The priority put on each HEADERS frame, where the profile sets one.
    pub fn headers_priority(&self) -> (priority: Option<Priority>)
        ensures
            priority == self@.headers_priority,
    {
        self.headers_priority
    }

    /// Whether the server may push.
    pub fn enable_push(&self) -> (yes: bool)
        ensures
            yes == self@.enable_push,
    {
        self.enable_push
    }

    /// A copy of this profile.
    pub fn duplicate(&self) -> (profile: Http2Profile)
        ensures
            profile@ == self@,
    {
        Http2Profile {
            settings: self.settings(),
            initial_stream_window_size: self.initial_stream_window_size,
            initial_connection_window_size: self.initial_connection_window_size,
            pseudo_header_order: self.pseudo_header_order(),
            headers_priority: self.headers_priority,
            enable_push: self.enable_push,
        }
    }

    /// Whether the profile keeps the rules of HTTP/2, and the first rule it
    /// breaks where it does not.
    pub fn validate(&self) -> (result: Result<(), ConfigError>)
        ensures
            match result {
                Ok(_) => http2_error(self@) is None,
                Err(e) => http2_error(self@) == Some(e),
            },
    {
        if !ids_are_distinct(&self.settings) {
            Err(ConfigError::DuplicateSetting)
        } else if !values_are_in_range(&self.settings) || !window_is_in_range(self.initial_stream_window_size)
            || !window_is_in_range(self.initial_connection_window_size) {
            Err(ConfigError::SettingOutOfRange)
        } else if !push_is_agreed(&self.settings, self.enable_push) {
            Err(ConfigError::EnablePushMismatch)
        } else if !pseudo_order_is_whole(&self.pseudo_header_order) {
            Err(ConfigError::PseudoHeaderOrder)
        } else {
            match self.headers_priority {
                Some(p) => if p.stream_dependency > MAX_STREAM_ID {
                    Err(ConfigError::PriorityOutOfRange)
                } else {
                    Ok(())
                },
                None => Ok(()),
            }
        }
    }
}

/// Settings that keep the rules are few: no more than there are identifiers.
pub proof fn lemma_distinct_ids_are_few(settings: Seq<Setting>)
    requires
        distinct_ids(settings),
    ensures
        settings.len() <= 7,
{
    if settings.len() > 7 {
        let a = settings[0].id;
        let b = settings[1].id;
        let c = settings[2].id;
        let d = settings[3].id;
        let e = settings[4].id;
        let f = settings[5].id;
        let g = settings[6].id;
        let h = settings[7].id;
        assert(a != b && a != c && a != d && a != e && a != f && a != g && a != h);
        assert(b != c && b != d && b != e && b != f && b != g && b != h);
        assert(c != d && c != e && c != f && c != g && c != h);
        assert(d != e && d != f && d != g && d != h);
        assert(e != f && e != g && e != h);
        assert(f != g && f != h);
        assert(g != h);
    }
}

/// A setting outside its range is never sent. A profile that holds one has
/// an error, so that nothing is emitted for it; and a profile has no error
/// only if each of its settings is within its range, the ends of the range
/// included.
pub proof fn lemma_out_of_range_is_refused(profile: Http2ProfileView, i: int)
    requires
        0 <= i < profile.settings.len(),
    ensures
        !value_in_range(profile.settings[i]) ==> http2_error(profile) is Some,
        http2_error(profile) is None ==> value_in_range(profile.settings[i]),
        value_in_range(profile.settings[i]) <==> match profile.settings[i].id {
            SettingId::InitialWindowSize => profile.settings[i].value <= 0x7fff_ffff,
            SettingId::MaxFrameSize => 0x4000 <= profile.settings[i].value <= 0xff_ffff,
            SettingId::EnablePush => profile.settings[i].value <= 1,
            SettingId::EnableConnectProtocol => profile.settings[i].value <= 1,
            _ => true,
        },
{
}

/// The bytes that open a connection for `profile`: the preface, a single
/// SETTINGS frame with exactly the profile's settings in order, and a
/// WINDOW_UPDATE on stream 0 where the connection window is above the
/// default. A profile that breaks a rule of HTTP/2 gives its error and no
/// bytes.
pub fn apply_http2(profile: &Http2Profile) -> (result: Result<Vec<u8>, ConfigError>)
    ensures
        match result {
            Ok(bytes) => http2_error(profile@) is None && bytes@ == connection_prelude(profile@),
            Err(e) => http2_error(profile@) == Some(e),
        },
{
    match profile.validate() {
        Err(e) => {
            return Err(e);
        },
        Ok(_) => {},
    }
    proof {
        lemma_distinct_ids_are_few(profile.settings@);
    }
    let mut out: Vec<u8> = Vec::new();
    let head: [u8; 24] = [
        0x50, 0x52, 0x49, 0x20, 0x2a, 0x20, 0x48, 0x54, 0x54, 0x50, 0x2f, 0x32, 0x2e, 0x30, 0x0d,
        0x0a, 0x0d, 0x0a, 0x53, 0x4d, 0x0d, 0x0a, 0x0d, 0x0a,
    ];
    let mut k: usize = 0;
    while k < 24
        invariant
            k <= 24,
            head@ == preface(),
            out@ == preface().take(k as int),
        decreases 24 - k,
    {
        out.push(head[k]);
        assert(out@ =~= preface().take(k + 1));
        k += 1;
    }
    assert(preface().take(24) =~= preface());
    let count: usize = profile.settings.len();
    put_frame_header(&mut out, (6 * count) as u32, 4, 0, 0);
    let ghost start = out@;
    let mut i: usize = 0;
    assert(profile.settings@.take(0) =~= Seq::empty());
    assert(start + Seq::empty() =~= start);
    while i < count
        invariant
            i <= count == profile.settings@.len(),
            out@ == start + settings_payload(profile.settings@.take(i as int)),
        decreases count - i,
    {
        let ghost before = out@;
        put_setting(&mut out, profile.settings[i]);
        proof {
            let next = profile.settings@.take(i + 1);
            assert(next.drop_last() =~= profile.settings@.take(i as int));
            assert(next.last() == profile.settings@[i as int]);
            assert(out@ =~= start + settings_payload(next));
        }
        i += 1;
    }
    assert(profile.settings@.take(i as int) =~= profile.settings@);
    assert(out@ =~= preface() + settings_frame(profile@.settings));
    match profile.initial_connection_window_size {
        Some(w) => {
            if w > DEFAULT_CONNECTION_WINDOW {
                let ghost before = out@;
                put_frame_header(&mut out, 4, 8, 0, 0);
                put_be32(&mut out, w - DEFAULT_CONNECTION_WINDOW);
                assert(out@ =~= before + window_update_frame(
                    (w - DEFAULT_CONNECTION_WINDOW) as u32,
                ));
            } else {
                assert(out@ + Seq::<u8>::empty() =~= out@);
            }
        },
        None => {
            assert(out@ + Seq::<u8>::empty() =~= out@);
        },
    }
    Ok(out)
}

} // verus!

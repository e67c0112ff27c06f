//! HTTP/2 values by name, as a template states them, and the profile they
//! make.

use vstd::prelude::*;
use crate::http2::{
    distinct_ids, http2_error, is_pseudo_order, priority_in_range, push_value, value_in_range,
    window_in_range, Http2Profile, Http2ProfileView, Priority, Setting,
};
use crate::tls::{copy_list, no_repeats};
use crate::wire::{PseudoHeader, SettingId};

verus! {

/// The HTTP/2 values of a template. A value that is `None` is not sent.
#[derive(Debug)]
pub struct Http2Settings {
    pub initial_stream_window_size: Option<u32>,
    pub initial_connection_window_size: Option<u32>,
    pub max_concurrent_streams: Option<u32>,
    pub max_header_list_size: Option<u32>,
    pub header_table_size: Option<u32>,
    pub enable_push: Option<bool>,
    pub max_frame_size: Option<u32>,
    pub enable_connect_protocol: Option<bool>,
    /// The priority put on each HEADERS frame.
    pub headers_priority: Option<Priority>,
    /// The order of the pseudo-headers; the standard order where `None`.
    pub headers_pseudo_order: Option<Vec<PseudoHeader>>,
    /// The order in which the settings are sent; the standard order where
    /// `None`. A setting that the order leaves out is not sent.
    pub settings_order: Option<Vec<SettingId>>,
}

/// The settings in the order of their identifiers.
pub open spec fn standard_settings_order() -> Seq<SettingId> {
    seq![
        SettingId::HeaderTableSize,
        SettingId::EnablePush,
        SettingId::MaxConcurrentStreams,
        SettingId::InitialWindowSize,
        SettingId::MaxFrameSize,
        SettingId::MaxHeaderListSize,
        SettingId::EnableConnectProtocol,
    ]
}

/// The pseudo-headers in the order in which RFC 9113 names them.
pub open spec fn standard_pseudo_order() -> Seq<PseudoHeader> {
    seq![PseudoHeader::Method, PseudoHeader::Scheme, PseudoHeader::Authority, PseudoHeader::Path]
}

/// The number that a flag has as a setting's value.
pub open spec fn flag_value(flag: Option<bool>) -> Option<u32> {
    match flag {
        Some(b) => Some(push_value(b)),
        None => None,
    }
}

impl Http2Settings {
    /// The value that these settings give to `id`, if any.
    pub open spec fn value_of(&self, id: SettingId) -> Option<u32> {
        match id {
            SettingId::HeaderTableSize => self.header_table_size,
            SettingId::EnablePush => flag_value(self.enable_push),
            SettingId::MaxConcurrentStreams => self.max_concurrent_streams,
            SettingId::InitialWindowSize => self.initial_stream_window_size,
            SettingId::MaxFrameSize => self.max_frame_size,
            SettingId::MaxHeaderListSize => self.max_header_list_size,
            SettingId::EnableConnectProtocol => flag_value(self.enable_connect_protocol),
        }
    }

    /// The entries of the SETTINGS frame: for each identifier of `order`, in
    /// that order, its value where these settings give it one.
    pub open spec fn ordered(&self, order: Seq<SettingId>) -> Seq<Setting>
        decreases order.len(),
    {
        if order.len() == 0 {
            Seq::empty()
        } else {
            let before = self.ordered(order.drop_last());
            match self.value_of(order.last()) {
                Some(value) => before.push(Setting { id: order.last(), value }),
                None => before,
            }
        }
    }

    /// The order in which the settings are sent.
    pub open spec fn order(&self) -> Seq<SettingId> {
        match self.settings_order {
            Some(order) => order@,
            None => standard_settings_order(),
        }
    }

    /// The profile that these settings make.
    pub open spec fn profile(&self) -> Http2ProfileView {
        Http2ProfileView {
            settings: self.ordered(self.order()),
            initial_stream_window_size: self.initial_stream_window_size,
            initial_connection_window_size: self.initial_connection_window_size,
            pseudo_header_order: match self.headers_pseudo_order {
                Some(order) => order@,
                None => standard_pseudo_order(),
            },
            headers_priority: self.headers_priority,
            enable_push: match self.enable_push {
                Some(b) => b,
                None => true,
            },
        }
    }

    /// Settings that send nothing and leave every order as the standard has
    /// it.
    pub fn new() -> (settings: Http2Settings)
        ensures
            settings.initial_stream_window_size is None,
            settings.initial_connection_window_size is None,
            settings.max_concurrent_streams is None,
            settings.max_header_list_size is None,
            settings.header_table_size is None,
            settings.enable_push is None,
            settings.max_frame_size is None,
            settings.enable_connect_protocol is None,
            settings.headers_priority is None,
            settings.headers_pseudo_order is None,
            settings.settings_order is None,
    {
        Http2Settings {
            initial_stream_window_size: None,
            initial_connection_window_size: None,
            max_concurrent_streams: None,
            max_header_list_size: None,
            header_table_size: None,
            enable_push: None,
            max_frame_size: None,
            enable_connect_protocol: None,
            headers_priority: None,
            headers_pseudo_order: None,
            settings_order: None,
        }
    }

    /// The value that these settings give to `id`, if any.
    pub fn value(&self, id: SettingId) -> (value: Option<u32>)
        ensures
            value == self.value_of(id),
    {
        match id {
            SettingId::HeaderTableSize => self.header_table_size,
            SettingId::EnablePush => flag_number(self.enable_push),
            SettingId::MaxConcurrentStreams => self.max_concurrent_streams,
            SettingId::InitialWindowSize => self.initial_stream_window_size,
            SettingId::MaxFrameSize => self.max_frame_size,
            SettingId::MaxHeaderListSize => self.max_header_list_size,
            SettingId::EnableConnectProtocol => flag_number(self.enable_connect_protocol),
        }
    }

    /// The profile that these settings make: the settings that have a value,
    /// in the order asked for, and the rest as given.
    pub fn into_profile(self) -> (profile: Http2Profile)
        ensures
            profile@ == self.profile(),
    {
        let order: Vec<SettingId> = match &self.settings_order {
            Some(order) => copy_list(order),
            None => standard_order(),
        };
        let mut settings: Vec<Setting> = Vec::new();
        let mut i: usize = 0;
        assert(order@.take(0) =~= Seq::empty());
        while i < order.len()
            invariant
                i <= order@.len(),
                settings@ == self.ordered(order@.take(i as int)),
            decreases order@.len() - i,
        {
            proof {
                let next = order@.take(i + 1);
                assert(next.drop_last() =~= order@.take(i as int));
                assert(next.last() == order@[i as int]);
            }
            match self.value(order[i]) {
                Some(value) => {
                    settings.push(Setting { id: order[i], value });
                },
                None => {},
            }
            i += 1;
        }
        assert(order@.take(i as int) =~= order@);
        let pseudo: Vec<PseudoHeader> = match self.headers_pseudo_order {
            Some(order) => order,
            None => pseudo_order(),
        };
        let enable_push = match self.enable_push {
            Some(b) => b,
            None => true,
        };
        Http2Profile::new(
            settings,
            self.initial_stream_window_size,
            self.initial_connection_window_size,
            pseudo,
            self.headers_priority,
            enable_push,
        )
    }
}

/// The number that a flag has as a setting's value.
pub fn flag_number(flag: Option<bool>) -> (value: Option<u32>)
    ensures
        value == flag_value(flag),
{
    match flag {
        Some(true) => Some(1),
        Some(false) => Some(0),
        None => None,
    }
}

/// The settings in the order of their identifiers.
pub fn standard_order() -> (order: Vec<SettingId>)
    ensures
        order@ == standard_settings_order(),
{
    let mut order: Vec<SettingId> = Vec::new();
    order.push(SettingId::HeaderTableSize);
    order.push(SettingId::EnablePush);
    order.push(SettingId::MaxConcurrentStreams);
    order.push(SettingId::InitialWindowSize);
    order.push(SettingId::MaxFrameSize);
    order.push(SettingId::MaxHeaderListSize);
    order.push(SettingId::EnableConnectProtocol);
    assert(order@ =~= standard_settings_order());
    order
}

/// The pseudo-headers in the order in which RFC 9113 names them.
pub fn pseudo_order() -> (order: Vec<PseudoHeader>)
    ensures
        order@ == standard_pseudo_order(),
{
    let mut order: Vec<PseudoHeader> = Vec::new();
    order.push(PseudoHeader::Method);
    order.push(PseudoHeader::Scheme);
    order.push(PseudoHeader::Authority);
    order.push(PseudoHeader::Path);
    assert(order@ =~= standard_pseudo_order());
    order
}

/// A setting that has no value is not sent, and one that has is sent with
/// that value: every entry of the frame is a setting of the order with the
/// value given to it.
pub proof fn lemma_only_given_settings_are_sent(settings: Http2Settings, order: Seq<SettingId>)
    ensures
        forall|k: int|
            0 <= k < settings.ordered(order).len() ==> settings.value_of(
                (#[trigger] settings.ordered(order)[k]).id,
            ) == Some(settings.ordered(order)[k].value) && order.contains(
                settings.ordered(order)[k].id,
            ),
    decreases order.len(),
{
    if order.len() > 0 {
        let shorter = order.drop_last();
        lemma_only_given_settings_are_sent(settings, shorter);
        let before = settings.ordered(shorter);
        let all = settings.ordered(order);
        assert forall|k: int| 0 <= k < all.len() implies settings.value_of((#[trigger] all[k]).id)
            == Some(all[k].value) && order.contains(all[k].id) by {
            if k < before.len() {
                assert(all[k] == before[k]);
                let w = choose|w: int| 0 <= w < shorter.len() && shorter[w] == before[k].id;
                assert(order[w] == before[k].id);
            } else {
                assert(order[order.len() - 1] == all[k].id);
            }
        }
    }
}

/// Where the order names no setting twice, no setting is sent twice.
pub proof fn lemma_ordered_ids_are_distinct(settings: Http2Settings, order: Seq<SettingId>)
    requires
        no_repeats(order),
    ensures
        distinct_ids(settings.ordered(order)),
    decreases order.len(),
{
    if order.len() > 0 {
        let shorter = order.drop_last();
        let before = settings.ordered(shorter);
        let all = settings.ordered(order);
        assert forall|i: int, j: int| 0 <= i < j < shorter.len() implies #[trigger] shorter[i]
            != #[trigger] shorter[j] by {
            assert(shorter[i] == order[i] && shorter[j] == order[j]);
        }
        lemma_ordered_ids_are_distinct(settings, shorter);
        lemma_only_given_settings_are_sent(settings, shorter);
        assert forall|i: int, j: int| 0 <= i < j < all.len() implies (#[trigger] all[i]).id != (
        #[trigger] all[j]).id by {
            assert(all[i] == before[i]);
            if j < before.len() {
                assert(all[j] == before[j]);
            } else {
                let w = choose|w: int| 0 <= w < shorter.len() && shorter[w] == before[i].id;
                assert(order[w] == shorter[w]);
                assert(order[w] != order[order.len() - 1]);
            }
        }
    }
}

/// A setting that has a value and that the order names is sent, with that
/// value: neither dropped nor changed.
pub proof fn lemma_given_settings_are_sent(
    settings: Http2Settings,
    order: Seq<SettingId>,
    id: SettingId,
)
    requires
        order.contains(id),
        settings.value_of(id) is Some,
    ensures
        settings.ordered(order).contains(Setting { id, value: settings.value_of(id)->0 }),
    decreases order.len(),
{
    let shorter = order.drop_last();
    let before = settings.ordered(shorter);
    let all = settings.ordered(order);
    let sent = Setting { id, value: settings.value_of(id)->0 };
    if order.last() == id {
        assert(all[all.len() - 1] == sent);
    } else {
        let w = choose|w: int| 0 <= w < order.len() && order[w] == id;
        assert(shorter[w] == id);
        lemma_given_settings_are_sent(settings, shorter, id);
        let k = choose|k: int| 0 <= k < before.len() && before[k] == sent;
        assert(all[k] == sent);
    }
}

/// Values within their ranges are accepted, the ends of the ranges
/// included. Settings whose order names nothing twice, whose values and
/// windows are each within the range that HTTP/2 permits, whose
/// pseudo-header order holds each pseudo-header once and whose priority
/// depends on a stream of 31 bits, make a profile that keeps every rule; and
/// the profile carries each value as it was given.
pub proof fn lemma_values_in_range_are_accepted(settings: Http2Settings)
    requires
        no_repeats(settings.order()),
        forall|id: SettingId|
            settings.value_of(id) is Some ==> value_in_range(
                Setting { id, value: (#[trigger] settings.value_of(id))->0 },
            ),
        window_in_range(settings.initial_stream_window_size),
        window_in_range(settings.initial_connection_window_size),
        is_pseudo_order(settings.profile().pseudo_header_order),
        priority_in_range(settings.headers_priority),
    ensures
        http2_error(settings.profile()) is None,
        forall|id: SettingId|
            settings.order().contains(id) && settings.value_of(id) is Some
                ==> #[trigger] settings.profile().settings.contains(
                Setting { id, value: settings.value_of(id)->0 },
            ),
        settings.profile().initial_stream_window_size == settings.initial_stream_window_size,
        settings.profile().initial_connection_window_size
            == settings.initial_connection_window_size,
{
    let order = settings.order();
    let sent = settings.profile().settings;
    lemma_ordered_ids_are_distinct(settings, order);
    lemma_only_given_settings_are_sent(settings, order);
    assert forall|k: int| 0 <= k < sent.len() implies value_in_range(#[trigger] sent[k]) by {
        assert(settings.value_of(sent[k].id) == Some(sent[k].value));
    }
    assert forall|k: int|
        0 <= k < sent.len() && (#[trigger] sent[k]).id == SettingId::EnablePush implies sent[k].value
        == push_value(settings.profile().enable_push) by {
        assert(settings.value_of(sent[k].id) == Some(sent[k].value));
    }
    assert forall|id: SettingId|
        settings.order().contains(id) && settings.value_of(id) is Some implies #[trigger] sent.contains(
        Setting { id, value: settings.value_of(id)->0 },
    ) by {
        lemma_given_settings_are_sent(settings, order, id);
    }
}

} // verus!

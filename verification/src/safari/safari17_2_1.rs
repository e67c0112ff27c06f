//! Safari 17.2.1.

use vstd::prelude::*;
use vstd::string::*;
use http::header::{HeaderMap, HeaderValue};
use crate::error::ConfigError;
use crate::header_laws::{lemma_with_defaults_alone, lemma_with_defaults_twice, unique_fields};
use crate::header_map::{
    all_valid, empty_map, header_fields, insert_defaults, lemma_lower_name_text,
    lemma_value_text, normalized, valid_header_name, valid_header_value, InsertError,
    FULL_AT_LEAST,
};
use crate::headers::{fields_of, has_field, same_name, with_defaults, names_of, Fields, Header, HeaderProfile, HeaderProfileView};
use crate::http2::{Http2Profile, Http2ProfileView, Setting};
use crate::http2_settings::{standard_pseudo_order, standard_settings_order, Http2Settings};
use crate::profile::{profile_error, ImpersonateProfile, ImpersonateProfileView};
use crate::safari::{cipher_list, cipher_list_view, lemma_tls_consistent, tls_view, tls_with_ciphers};
use crate::wire::SettingId;

verus! {

/// The headers that Safari 17.2.1 sends with a navigation, in the order of
/// its template.
pub open spec fn default_fields() -> Fields {
    seq![
        (
            "accept".spec_bytes(),
            "text/html,application/xhtml+xml,application/xml;q=0.9,*/*;q=0.8".spec_bytes(),
        ),
        ("sec-fetch-site".spec_bytes(), "none".spec_bytes()),
        ("accept-encoding".spec_bytes(), "gzip, deflate, br".spec_bytes()),
        ("sec-fetch-mode".spec_bytes(), "navigate".spec_bytes()),
        (
            "user-agent".spec_bytes(),
            "Mozilla/5.0 (Macintosh; Intel Mac OS X 10_15_7) AppleWebKit/605.1.15 (KHTML, like Gecko) Version/16.0 Safari/605.1.15".spec_bytes(),
        ),
        ("accept-language".spec_bytes(), "en-US,en;q=0.9".spec_bytes()),
        ("sec-fetch-dest".spec_bytes(), "document".spec_bytes()),
    ]
}

/// The headers that Safari 17.2.1 sends with a navigation, in the order of
/// its template.
pub fn default_headers() -> (headers: Vec<Header>)
    ensures
        fields_of(headers@) == default_fields(),
{
    let mut headers: Vec<Header> = Vec::new();
    headers.push(
        Header::new("accept", "text/html,application/xhtml+xml,application/xml;q=0.9,*/*;q=0.8"),
    );
    headers.push(Header::new("sec-fetch-site", "none"));
    headers.push(Header::new("accept-encoding", "gzip, deflate, br"));
    headers.push(Header::new("sec-fetch-mode", "navigate"));
    headers.push(
        Header::new(
            "user-agent",
            "Mozilla/5.0 (Macintosh; Intel Mac OS X 10_15_7) AppleWebKit/605.1.15 (KHTML, like Gecko) Version/16.0 Safari/605.1.15",
        ),
    );
    headers.push(Header::new("accept-language", "en-US,en;q=0.9"));
    headers.push(Header::new("sec-fetch-dest", "document"));
    assert(fields_of(headers@) =~= default_fields());
    headers
}

/// Every default header of Safari 17.2.1 has a name and a value that a header map
/// takes, the name spelled as the map keeps it, and no two have the same
/// name.
pub proof fn lemma_default_fields_valid()
    ensures
        all_valid(default_fields()),
        normalized(default_fields()) == default_fields(),
        unique_fields(default_fields()),
{
    lemma_names_valid();
    lemma_values_valid();
}

proof fn lemma_names_valid()
    ensures
        forall|i: int|
            0 <= i < default_fields().len() ==> valid_header_name(
                (#[trigger] default_fields()[i]).0,
            ),
        normalized(default_fields()) == default_fields(),
        unique_fields(default_fields()),
{
    reveal_strlit("accept");
    lemma_lower_name_text("accept"@);
    reveal_strlit("sec-fetch-site");
    lemma_lower_name_text("sec-fetch-site"@);
    reveal_strlit("accept-encoding");
    lemma_lower_name_text("accept-encoding"@);
    reveal_strlit("sec-fetch-mode");
    lemma_lower_name_text("sec-fetch-mode"@);
    reveal_strlit("user-agent");
    lemma_lower_name_text("user-agent"@);
    reveal_strlit("accept-language");
    lemma_lower_name_text("accept-language"@);
    reveal_strlit("sec-fetch-dest");
    lemma_lower_name_text("sec-fetch-dest"@);
    let d = default_fields();
    assert(normalized(d) =~= d);
    assert forall|i: int, j: int| 0 <= i < j < d.len() implies !same_name(
        (#[trigger] d[i]).0,
        (#[trigger] d[j]).0,
    ) by {
        let a = d[i].0;
        let b = d[j].0;
        if same_name(a, b) {
            assert(a == b);
            assert(a.len() == b.len());
            assert(a[7] == b[7]);
            assert(a[10] == b[10]);
        }
    }
}

proof fn lemma_values_valid()
    ensures
        forall|i: int|
            0 <= i < default_fields().len() ==> valid_header_value(
                (#[trigger] default_fields()[i]).1,
            ),
{
    lemma_short_values_valid();
    lemma_accept_valid();
    lemma_user_agent_valid();
}

proof fn lemma_short_values_valid()
    ensures
        valid_header_value("none".spec_bytes()),
        valid_header_value("gzip, deflate, br".spec_bytes()),
        valid_header_value("navigate".spec_bytes()),
        valid_header_value("en-US,en;q=0.9".spec_bytes()),
        valid_header_value("document".spec_bytes()),
{
    reveal_strlit("none");
    lemma_value_text("none"@);
    reveal_strlit("gzip, deflate, br");
    lemma_value_text("gzip, deflate, br"@);
    reveal_strlit("navigate");
    lemma_value_text("navigate"@);
    reveal_strlit("en-US,en;q=0.9");
    lemma_value_text("en-US,en;q=0.9"@);
    reveal_strlit("document");
    lemma_value_text("document"@);
}

proof fn lemma_accept_valid()
    ensures
        valid_header_value(
            "text/html,application/xhtml+xml,application/xml;q=0.9,*/*;q=0.8".spec_bytes(),
        ),
{
    reveal_strlit(
        "text/html,application/xhtml+xml,application/xml;q=0.9,*/*;q=0.8",
    );
    lemma_value_text(
        "text/html,application/xhtml+xml,application/xml;q=0.9,*/*;q=0.8"@,
    );
}

proof fn lemma_user_agent_valid()
    ensures
        valid_header_value(
            "Mozilla/5.0 (Macintosh; Intel Mac OS X 10_15_7) AppleWebKit/605.1.15 (KHTML, like Gecko) Version/16.0 Safari/605.1.15".spec_bytes(),
        ),
{
    reveal_strlit(
        "Mozilla/5.0 (Macintosh; Intel Mac OS X 10_15_7) AppleWebKit/605.1.15 (KHTML, like Gecko) Version/16.0 Safari/605.1.15",
    );
    lemma_value_text(
        "Mozilla/5.0 (Macintosh; Intel Mac OS X 10_15_7) AppleWebKit/605.1.15 (KHTML, like Gecko) Version/16.0 Safari/605.1.15"@,
    );
}

/// The HTTP/2 part of Safari 17.2.1: a stream window of 4194304, a
/// connection window of 10551295, at most 100 concurrent streams, no push.
pub open spec fn http2_view() -> Http2ProfileView {
    Http2ProfileView {
        settings: seq![
            Setting { id: SettingId::EnablePush, value: 0 },
            Setting { id: SettingId::MaxConcurrentStreams, value: 100 },
            Setting { id: SettingId::InitialWindowSize, value: 4194304 },
        ],
        initial_stream_window_size: Some(4194304u32),
        initial_connection_window_size: Some(10551295u32),
        pseudo_header_order: standard_pseudo_order(),
        headers_priority: None,
        enable_push: false,
    }
}

/// The HTTP/2 part of Safari 17.2.1.
pub fn http2() -> (profile: Http2Profile)
    ensures
        profile@ == http2_view(),
{
    let settings = Http2Settings {
        initial_stream_window_size: Some(4194304),
        initial_connection_window_size: Some(10551295),
        max_concurrent_streams: Some(100),
        max_header_list_size: None,
        header_table_size: None,
        enable_push: Some(false),
        max_frame_size: None,
        enable_connect_protocol: None,
        headers_priority: None,
        headers_pseudo_order: None,
        settings_order: None,
    };
    proof {
        let o7 = standard_settings_order();
        let o6 = o7.drop_last();
        let o5 = o6.drop_last();
        let o4 = o5.drop_last();
        let o3 = o4.drop_last();
        let o2 = o3.drop_last();
        let o1 = o2.drop_last();
        let o0 = o1.drop_last();
        assert(settings.ordered(o0) =~= Seq::empty());
        assert(settings.ordered(o1) =~= Seq::empty());
        assert(settings.ordered(o2) =~= seq![Setting { id: SettingId::EnablePush, value: 0 }]);
        assert(settings.ordered(o3) =~= seq![
            Setting { id: SettingId::EnablePush, value: 0 },
            Setting { id: SettingId::MaxConcurrentStreams, value: 100 },
        ]);
        assert(settings.ordered(o4) =~= http2_view().settings);
        assert(settings.ordered(o5) =~= settings.ordered(o4));
        assert(settings.ordered(o6) =~= settings.ordered(o5));
        assert(settings.ordered(o7) =~= settings.ordered(o6));
    }
    settings.into_profile()
}

/// The profile of Safari 17.2.1.
pub open spec fn settings_view() -> ImpersonateProfileView {
    ImpersonateProfileView {
        tls: tls_view(cipher_list_view()),
        http2: Some(http2_view()),
        headers: HeaderProfileView { defaults: default_fields(), order: Seq::empty() },
    }
}

/// The profile of Safari 17.2.1 keeps the rules of a profile.
pub proof fn lemma_settings_consistent()
    ensures
        profile_error(settings_view()) is None,
{
    lemma_tls_consistent();
    let h = http2_view();
    assert(h.settings.len() == 3);
    assert(h.pseudo_header_order.len() == 4);
}

/// The profile of Safari 17.2.1.
pub fn profile() -> (result: Result<ImpersonateProfile, ConfigError>)
    ensures
        result is Ok,
        result->Ok_0@ == settings_view(),
{
    proof {
        lemma_settings_consistent();
    }
    let order: Vec<Vec<u8>> = Vec::new();
    assert(names_of(order@) =~= Seq::empty());
    let headers = HeaderProfile::new(default_headers(), order);
    ImpersonateProfile::compose(tls_with_ciphers(cipher_list()), Some(http2()), headers)
}

/// The defaults of Safari 17.2.1 alone: put into a map that holds nothing, they
/// are the map, 7 fields in the order of the template and one value for
/// each name; and putting them in once more changes nothing.
pub proof fn lemma_defaults_alone()
    ensures
        default_fields().len() == 7,
        with_defaults(Seq::empty(), default_fields()) == default_fields(),
        forall|map: Seq<(Seq<u8>, Seq<u8>)>|
            with_defaults(#[trigger] with_defaults(map, default_fields()), default_fields())
                == with_defaults(map, default_fields()),
{
    lemma_default_fields_valid();
    lemma_with_defaults_alone(default_fields());
    assert forall|map: Seq<(Seq<u8>, Seq<u8>)>|
        with_defaults(#[trigger] with_defaults(map, default_fields()), default_fields())
            == with_defaults(map, default_fields()) by {
        lemma_with_defaults_twice(map, default_fields());
    }
}

/// The default headers of Safari 17.2.1 as a new header map: seven fields,
/// in the order of the template, one value for each name.
pub fn default_header_map() -> (map: HeaderMap<HeaderValue>)
    ensures
        header_fields(map) == default_fields(),
{
    let mut map = empty_map();
    proof {
        lemma_defaults_alone();
    }
    match init_headers(&mut map) {
        Ok(_) => map,
        Err(_) => {
            assert(false);
            vstd::pervasive::unreached()
        },
    }
}

/// Puts the default headers of Safari 17.2.1 into `headers`, as
/// `init_headers` does, and gives its profile. A map that holds no more than
/// 6547 fields takes the headers. Only a map without room refuses one of
/// them: the error then names it, and the defaults before it are in the map.
pub fn get_settings(headers: &mut HeaderMap<HeaderValue>) -> (result: Result<
    ImpersonateProfile,
    InsertError,
>)
    ensures
        match result {
            Ok(profile) => profile@ == settings_view() && header_fields(*final(headers))
                == with_defaults(header_fields(*old(headers)), default_fields()),
            Err(e) => {
                &&& e.outcome is Full
                &&& e.index < default_fields().len()
                &&& header_fields(*final(headers)) == with_defaults(
                    header_fields(*old(headers)),
                    default_fields().take(e.index as int),
                )
                &&& !has_field(header_fields(*final(headers)), default_fields()[e.index as int].0)
                &&& header_fields(*final(headers)).len() >= FULL_AT_LEAST
            },
        },
        header_fields(*old(headers)).len() + 7 <= FULL_AT_LEAST ==> result is Ok,
{
    match init_headers(headers) {
        Err(e) => {
            return Err(e);
        },
        Ok(_) => {},
    }
    match profile() {
        Ok(profile) => Ok(profile),
        Err(_) => {
            assert(false);
            vstd::pervasive::unreached()
        },
    }
}

/// Puts the default headers of Safari 17.2.1 into `headers`: each default
/// whose name the map lacks, at the end and in the order of the template. A
/// name that the map has keeps its place and its values, so that a header of
/// the caller is never overwritten. A map that holds no more than 6547
/// fields takes them all; only a map without room refuses one of them.
pub fn init_headers(headers: &mut HeaderMap<HeaderValue>) -> (result: Result<(), InsertError>)
    ensures
        match result {
            Ok(_) => header_fields(*final(headers)) == with_defaults(
                header_fields(*old(headers)),
                default_fields(),
            ),
            Err(e) => {
                &&& e.outcome is Full
                &&& e.index < default_fields().len()
                &&& header_fields(*final(headers)) == with_defaults(
                    header_fields(*old(headers)),
                    default_fields().take(e.index as int),
                )
                &&& !has_field(header_fields(*final(headers)), default_fields()[e.index as int].0)
                &&& header_fields(*final(headers)).len() >= FULL_AT_LEAST
            },
        },
        header_fields(*old(headers)).len() + 7 <= FULL_AT_LEAST ==> result is Ok,
{
    proof {
        lemma_default_fields_valid();
    }
    let defaults = default_headers();
    let result = insert_defaults(headers, &defaults);
    proof {
        if let Err(e) = result {
            assert(normalized(default_fields()).take(e.index as int) == default_fields().take(
                e.index as int,
            ));
        }
    }
    result
}

} // verus!

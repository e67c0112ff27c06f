//! Chrome 130.

use vstd::prelude::*;
use vstd::string::*;
use http::header::{HeaderMap, HeaderValue};
use crate::chrome::{
    http2_template_3, http2_template_3_view, lemma_tls_template_6_consistent, tls_template_6,
    tls_template_6_view,
};
use crate::error::ConfigError;
use crate::header_laws::{lemma_with_defaults_alone, lemma_with_defaults_twice, unique_fields};
use crate::header_map::{
    all_valid, empty_map, header_fields, insert_defaults, lemma_lower_name_text,
    lemma_value_text, normalized, valid_header_name, valid_header_value, InsertError,
    FULL_AT_LEAST,
};
use crate::headers::{fields_of, has_field, lowered, same_name, with_defaults, Fields, Header, HeaderProfile, HeaderProfileView};
use crate::profile::{profile_error, ImpersonateProfile, ImpersonateProfileView};

verus! {

/// The headers that Chrome 130 sends with a navigation, in the order of its
/// template.
pub open spec fn default_fields() -> Fields {
    seq![
        (
            "sec-ch-ua".spec_bytes(),
            "\"Chromium\";v=\"130\", \"Google Chrome\";v=\"130\", \"Not?A_Brand\";v=\"99\"".spec_bytes(),
        ),
        ("sec-ch-ua-mobile".spec_bytes(), "?0".spec_bytes()),
        ("sec-ch-ua-platform".spec_bytes(), "\"macOS\"".spec_bytes()),
        ("dnt".spec_bytes(), "1".spec_bytes()),
        ("upgrade-insecure-requests".spec_bytes(), "1".spec_bytes()),
        (
            "user-agent".spec_bytes(),
            "Mozilla/5.0 (Macintosh; Intel Mac OS X 10_15_7) AppleWebKit/537.36 (KHTML, like Gecko) Chrome/130.0.0.0 Safari/537.36".spec_bytes(),
        ),
        ("sec-purpose".spec_bytes(), "prefetch;prerender".spec_bytes()),
        ("purpose".spec_bytes(), "prefetch".spec_bytes()),
        (
            "accept".spec_bytes(),
            "text/html,application/xhtml+xml,application/xml;q=0.9,image/avif,image/webp,image/apng,*/*;q=0.8,application/signed-exchange;v=b3;q=0.7".spec_bytes(),
        ),
        ("sec-fetch-site".spec_bytes(), "none".spec_bytes()),
        ("sec-fetch-mode".spec_bytes(), "navigate".spec_bytes()),
        ("sec-fetch-user".spec_bytes(), "?1".spec_bytes()),
        ("sec-fetch-dest".spec_bytes(), "document".spec_bytes()),
        ("accept-encoding".spec_bytes(), "gzip, deflate, br, zstd".spec_bytes()),
        ("accept-language".spec_bytes(), "en-US,en;q=0.9".spec_bytes()),
        ("priority".spec_bytes(), "u=0, i".spec_bytes()),
    ]
}

/// The headers that Chrome 130 sends with a navigation, in the order of its
/// template.
pub fn default_headers() -> (headers: Vec<Header>)
    ensures
        fields_of(headers@) == default_fields(),
{
    let mut headers: Vec<Header> = Vec::new();
    headers.push(
        Header::new(
            "sec-ch-ua",
            "\"Chromium\";v=\"130\", \"Google Chrome\";v=\"130\", \"Not?A_Brand\";v=\"99\"",
        ),
    );
    headers.push(Header::new("sec-ch-ua-mobile", "?0"));
    headers.push(Header::new("sec-ch-ua-platform", "\"macOS\""));
    headers.push(Header::new("dnt", "1"));
    headers.push(Header::new("upgrade-insecure-requests", "1"));
    headers.push(
        Header::new(
            "user-agent",
            "Mozilla/5.0 (Macintosh; Intel Mac OS X 10_15_7) AppleWebKit/537.36 (KHTML, like Gecko) Chrome/130.0.0.0 Safari/537.36",
        ),
    );
    headers.push(Header::new("sec-purpose", "prefetch;prerender"));
    headers.push(Header::new("purpose", "prefetch"));
    headers.push(
        Header::new(
            "accept",
            "text/html,application/xhtml+xml,application/xml;q=0.9,image/avif,image/webp,image/apng,*/*;q=0.8,application/signed-exchange;v=b3;q=0.7",
        ),
    );
    headers.push(Header::new("sec-fetch-site", "none"));
    headers.push(Header::new("sec-fetch-mode", "navigate"));
    headers.push(Header::new("sec-fetch-user", "?1"));
    headers.push(Header::new("sec-fetch-dest", "document"));
    headers.push(Header::new("accept-encoding", "gzip, deflate, br, zstd"));
    headers.push(Header::new("accept-language", "en-US,en;q=0.9"));
    headers.push(Header::new("priority", "u=0, i"));
    assert(fields_of(headers@) =~= default_fields());
    headers
}

/// Every default header of Chrome 130 has a name and a value that a header map
/// takes, the name spelled as the map keeps it, and no two have the same
/// name.
pub proof fn lemma_default_fields_valid()
    ensures
        all_valid(default_fields()),
        normalized(default_fields()) == default_fields(),
        unique_fields(default_fields()),
{
    lemma_names_valid();
    lemma_values_valid();
}

/// What tells the default names apart: the length of a name and two of its
/// bytes.
spec fn mark(name: Seq<u8>) -> (nat, u8, u8) {
    (
        name.len(),
        if name.len() > 7 {
            name[7]
        } else {
            0
        },
        if name.len() > 10 {
            name[10]
        } else {
            0
        },
    )
}

/// The place among the default names that a mark stands for.
spec fn place(m: (nat, u8, u8)) -> int {
    if m == (9nat, 117u8, 0u8) {
        0
    } else if m == (16nat, 117u8, 109u8) {
        1
    } else if m == (18nat, 117u8, 112u8) {
        2
    } else if m == (3nat, 0u8, 0u8) {
        3
    } else if m == (25nat, 45u8, 115u8) {
        4
    } else if m == (10nat, 101u8, 0u8) {
        5
    } else if m == (11nat, 112u8, 101u8) {
        6
    } else if m == (7nat, 0u8, 0u8) {
        7
    } else if m == (6nat, 0u8, 0u8) {
        8
    } else if m == (14nat, 99u8, 115u8) {
        9
    } else if m == (14nat, 99u8, 109u8) {
        10
    } else if m == (14nat, 99u8, 117u8) {
        11
    } else if m == (14nat, 99u8, 100u8) {
        12
    } else if m == (15nat, 101u8, 111u8) {
        13
    } else if m == (15nat, 108u8, 103u8) {
        14
    } else {
        15
    }
}

proof fn lemma_names_valid()
    ensures
        forall|i: int|
            0 <= i < default_fields().len() ==> valid_header_name(
                (#[trigger] default_fields()[i]).0,
            ),
        normalized(default_fields()) == default_fields(),
        unique_fields(default_fields()),
{
    lemma_names_marked();
    let d = default_fields();
    assert(normalized(d) =~= d);
    assert forall|i: int, j: int| 0 <= i < j < d.len() implies !same_name(
        (#[trigger] d[i]).0,
        (#[trigger] d[j]).0,
    ) by {
        assert(place(mark(d[i].0)) == i);
        assert(place(mark(d[j].0)) == j);
    }
}

proof fn lemma_names_marked()
    ensures
        forall|i: int|
            0 <= i < default_fields().len() ==> valid_header_name(
                (#[trigger] default_fields()[i]).0,
            ) && lowered(default_fields()[i].0) == default_fields()[i].0 && place(
                mark(default_fields()[i].0),
            ) == i,
{
    lemma_names_1();
    lemma_names_2();
    lemma_names_3();
    lemma_names_4();
}

proof fn lemma_names_1()
    ensures
        valid_header_name("sec-ch-ua".spec_bytes()),
        lowered("sec-ch-ua".spec_bytes()) == "sec-ch-ua".spec_bytes(),
        mark("sec-ch-ua".spec_bytes()) == (9nat, 117u8, 0u8),
        valid_header_name("sec-ch-ua-mobile".spec_bytes()),
        lowered("sec-ch-ua-mobile".spec_bytes()) == "sec-ch-ua-mobile".spec_bytes(),
        mark("sec-ch-ua-mobile".spec_bytes()) == (16nat, 117u8, 109u8),
        valid_header_name("sec-ch-ua-platform".spec_bytes()),
        lowered("sec-ch-ua-platform".spec_bytes()) == "sec-ch-ua-platform".spec_bytes(),
        mark("sec-ch-ua-platform".spec_bytes()) == (18nat, 117u8, 112u8),
        valid_header_name("dnt".spec_bytes()),
        lowered("dnt".spec_bytes()) == "dnt".spec_bytes(),
        mark("dnt".spec_bytes()) == (3nat, 0u8, 0u8),
{
    reveal_strlit("sec-ch-ua");
    lemma_lower_name_text("sec-ch-ua"@);
    reveal_strlit("sec-ch-ua-mobile");
    lemma_lower_name_text("sec-ch-ua-mobile"@);
    reveal_strlit("sec-ch-ua-platform");
    lemma_lower_name_text("sec-ch-ua-platform"@);
    reveal_strlit("dnt");
    lemma_lower_name_text("dnt"@);
}

proof fn lemma_names_2()
    ensures
        valid_header_name("upgrade-insecure-requests".spec_bytes()),
        lowered("upgrade-insecure-requests".spec_bytes()) == "upgrade-insecure-requests".spec_bytes(),
        mark("upgrade-insecure-requests".spec_bytes()) == (25nat, 45u8, 115u8),
        valid_header_name("user-agent".spec_bytes()),
        lowered("user-agent".spec_bytes()) == "user-agent".spec_bytes(),
        mark("user-agent".spec_bytes()) == (10nat, 101u8, 0u8),
        valid_header_name("sec-purpose".spec_bytes()),
        lowered("sec-purpose".spec_bytes()) == "sec-purpose".spec_bytes(),
        mark("sec-purpose".spec_bytes()) == (11nat, 112u8, 101u8),
        valid_header_name("purpose".spec_bytes()),
        lowered("purpose".spec_bytes()) == "purpose".spec_bytes(),
        mark("purpose".spec_bytes()) == (7nat, 0u8, 0u8),
{
    reveal_strlit("upgrade-insecure-requests");
    lemma_lower_name_text("upgrade-insecure-requests"@);
    reveal_strlit("user-agent");
    lemma_lower_name_text("user-agent"@);
    reveal_strlit("sec-purpose");
    lemma_lower_name_text("sec-purpose"@);
    reveal_strlit("purpose");
    lemma_lower_name_text("purpose"@);
}

proof fn lemma_names_3()
    ensures
        valid_header_name("accept".spec_bytes()),
        lowered("accept".spec_bytes()) == "accept".spec_bytes(),
        mark("accept".spec_bytes()) == (6nat, 0u8, 0u8),
        valid_header_name("sec-fetch-site".spec_bytes()),
        lowered("sec-fetch-site".spec_bytes()) == "sec-fetch-site".spec_bytes(),
        mark("sec-fetch-site".spec_bytes()) == (14nat, 99u8, 115u8),
        valid_header_name("sec-fetch-mode".spec_bytes()),
        lowered("sec-fetch-mode".spec_bytes()) == "sec-fetch-mode".spec_bytes(),
        mark("sec-fetch-mode".spec_bytes()) == (14nat, 99u8, 109u8),
        valid_header_name("sec-fetch-user".spec_bytes()),
        lowered("sec-fetch-user".spec_bytes()) == "sec-fetch-user".spec_bytes(),
        mark("sec-fetch-user".spec_bytes()) == (14nat, 99u8, 117u8),
{
    reveal_strlit("accept");
    lemma_lower_name_text("accept"@);
    reveal_strlit("sec-fetch-site");
    lemma_lower_name_text("sec-fetch-site"@);
    reveal_strlit("sec-fetch-mode");
    lemma_lower_name_text("sec-fetch-mode"@);
    reveal_strlit("sec-fetch-user");
    lemma_lower_name_text("sec-fetch-user"@);
}

proof fn lemma_names_4()
    ensures
        valid_header_name("sec-fetch-dest".spec_bytes()),
        lowered("sec-fetch-dest".spec_bytes()) == "sec-fetch-dest".spec_bytes(),
        mark("sec-fetch-dest".spec_bytes()) == (14nat, 99u8, 100u8),
        valid_header_name("accept-encoding".spec_bytes()),
        lowered("accept-encoding".spec_bytes()) == "accept-encoding".spec_bytes(),
        mark("accept-encoding".spec_bytes()) == (15nat, 101u8, 111u8),
        valid_header_name("accept-language".spec_bytes()),
        lowered("accept-language".spec_bytes()) == "accept-language".spec_bytes(),
        mark("accept-language".spec_bytes()) == (15nat, 108u8, 103u8),
        valid_header_name("priority".spec_bytes()),
        lowered("priority".spec_bytes()) == "priority".spec_bytes(),
        mark("priority".spec_bytes()) == (8nat, 121u8, 0u8),
{
    reveal_strlit("sec-fetch-dest");
    lemma_lower_name_text("sec-fetch-dest"@);
    reveal_strlit("accept-encoding");
    lemma_lower_name_text("accept-encoding"@);
    reveal_strlit("accept-language");
    lemma_lower_name_text("accept-language"@);
    reveal_strlit("priority");
    lemma_lower_name_text("priority"@);
}

proof fn lemma_values_valid()
    ensures
        forall|i: int|
            0 <= i < default_fields().len() ==> valid_header_value(
                (#[trigger] default_fields()[i]).1,
            ),
{
    lemma_short_values_valid();
    lemma_brands_valid();
    lemma_user_agent_valid();
    lemma_accept_valid();
}

proof fn lemma_short_values_valid()
    ensures
        valid_header_value("?0".spec_bytes()),
        valid_header_value("\"macOS\"".spec_bytes()),
        valid_header_value("1".spec_bytes()),
        valid_header_value("prefetch;prerender".spec_bytes()),
        valid_header_value("prefetch".spec_bytes()),
        valid_header_value("none".spec_bytes()),
        valid_header_value("navigate".spec_bytes()),
        valid_header_value("?1".spec_bytes()),
        valid_header_value("document".spec_bytes()),
        valid_header_value("gzip, deflate, br, zstd".spec_bytes()),
        valid_header_value("en-US,en;q=0.9".spec_bytes()),
        valid_header_value("u=0, i".spec_bytes()),
{
    reveal_strlit("?0");
    lemma_value_text("?0"@);
    reveal_strlit("\"macOS\"");
    lemma_value_text("\"macOS\""@);
    reveal_strlit("1");
    lemma_value_text("1"@);
    reveal_strlit("prefetch;prerender");
    lemma_value_text("prefetch;prerender"@);
    reveal_strlit("prefetch");
    lemma_value_text("prefetch"@);
    reveal_strlit("none");
    lemma_value_text("none"@);
    reveal_strlit("navigate");
    lemma_value_text("navigate"@);
    reveal_strlit("?1");
    lemma_value_text("?1"@);
    reveal_strlit("document");
    lemma_value_text("document"@);
    reveal_strlit("gzip, deflate, br, zstd");
    lemma_value_text("gzip, deflate, br, zstd"@);
    reveal_strlit("en-US,en;q=0.9");
    lemma_value_text("en-US,en;q=0.9"@);
    reveal_strlit("u=0, i");
    lemma_value_text("u=0, i"@);
}

proof fn lemma_brands_valid()
    ensures
        valid_header_value(
            "\"Chromium\";v=\"130\", \"Google Chrome\";v=\"130\", \"Not?A_Brand\";v=\"99\"".spec_bytes(),
        ),
{
    reveal_strlit(
        "\"Chromium\";v=\"130\", \"Google Chrome\";v=\"130\", \"Not?A_Brand\";v=\"99\"",
    );
    lemma_value_text(
        "\"Chromium\";v=\"130\", \"Google Chrome\";v=\"130\", \"Not?A_Brand\";v=\"99\""@,
    );
}

proof fn lemma_user_agent_valid()
    ensures
        valid_header_value(
            "Mozilla/5.0 (Macintosh; Intel Mac OS X 10_15_7) AppleWebKit/537.36 (KHTML, like Gecko) Chrome/130.0.0.0 Safari/537.36".spec_bytes(),
        ),
{
    reveal_strlit(
        "Mozilla/5.0 (Macintosh; Intel Mac OS X 10_15_7) AppleWebKit/537.36 (KHTML, like Gecko) Chrome/130.0.0.0 Safari/537.36",
    );
    lemma_value_text(
        "Mozilla/5.0 (Macintosh; Intel Mac OS X 10_15_7) AppleWebKit/537.36 (KHTML, like Gecko) Chrome/130.0.0.0 Safari/537.36"@,
    );
}

proof fn lemma_accept_valid()
    ensures
        valid_header_value(
            "text/html,application/xhtml+xml,application/xml;q=0.9,image/avif,image/webp,image/apng,*/*;q=0.8,application/signed-exchange;v=b3;q=0.7".spec_bytes(),
        ),
{
    reveal_strlit(
        "text/html,application/xhtml+xml,application/xml;q=0.9,image/avif,image/webp,image/apng,*/*;q=0.8,application/signed-exchange;v=b3;q=0.7",
    );
    lemma_value_text(
        "text/html,application/xhtml+xml,application/xml;q=0.9,image/avif,image/webp,image/apng,*/*;q=0.8,application/signed-exchange;v=b3;q=0.7"@,
    );
}

/// The profile of Chrome 130: the sixth TLS template, the third HTTP/2
/// template, its default headers, and no header order of its own.
pub open spec fn settings_view() -> ImpersonateProfileView {
    ImpersonateProfileView {
        tls: tls_template_6_view(),
        http2: Some(http2_template_3_view()),
        headers: HeaderProfileView { defaults: default_fields(), order: Seq::empty() },
    }
}

/// The profile of Chrome 130 keeps the rules of a profile.
pub proof fn lemma_settings_consistent()
    ensures
        profile_error(settings_view()) is None,
{
    lemma_tls_template_6_consistent();
    let h = http2_template_3_view();
    assert(h.settings.len() == 4);
    assert(h.pseudo_header_order.len() == 4);
}

/// The profile of Chrome 130.
pub fn get_settings() -> (result: Result<ImpersonateProfile, ConfigError>)
    ensures
        result is Ok,
        result->Ok_0@ == settings_view(),
{
    proof {
        lemma_settings_consistent();
    }
    let tls = match tls_template_6() {
        Ok(tls) => tls,
        Err(e) => {
            return Err(e);
        },
    };
    let order: Vec<Vec<u8>> = Vec::new();
    assert(crate::headers::names_of(order@) =~= Seq::empty());
    let headers = HeaderProfile::new(default_headers(), order);
    ImpersonateProfile::compose(tls, Some(http2_template_3()), headers)
}

/// The defaults of Chrome 130 alone: put into a map that holds nothing, they
/// are the map, 16 fields in the order of the template and one value for
/// each name; and putting them in once more changes nothing.
pub proof fn lemma_defaults_alone()
    ensures
        default_fields().len() == 16,
        with_defaults(Seq::empty(), default_fields()) == default_fields(),
        forall|map: Seq<(Seq<u8>, Seq<u8>)>|
            with_defaults(#[trigger] with_defaults(map, default_fields()), default_fields())
                == with_defaults(map, default_fields()),
{
    lemma_default_fields_valid();
    lemma_with_defaults_alone(default_fields());
    assert forall|map: Seq<(Seq<u8>, Seq<u8>)>|
        with_defaults(#[trigger] with_defaults(map, default_fields()), default_fields())
            == with_defaults(map, default_fields()) by {
        lemma_with_defaults_twice(map, default_fields());
    }
}

/// The default headers of Chrome 130 as a new header map: sixteen fields, in
/// the order of the template, one value for each name.
pub fn default_header_map() -> (map: HeaderMap<HeaderValue>)
    ensures
        header_fields(map) == default_fields(),
{
    let mut map = empty_map();
    proof {
        lemma_defaults_alone();
    }
    match header_initializer(&mut map) {
        Ok(_) => map,
        Err(_) => {
            assert(false);
            vstd::pervasive::unreached()
        },
    }
}

/// Puts the default headers of Chrome 130 into `headers`: each default whose
/// name the map lacks, at the end and in the order of the template. A name
/// that the map has keeps its place and its values, so that a header of the
/// caller is never overwritten. A map that holds no more than 6538 fields
/// takes them all. Only a map without room refuses one of them: the error
/// then names it, and the defaults before it are in the map.
pub fn header_initializer(headers: &mut HeaderMap<HeaderValue>) -> (result: Result<
    (),
    InsertError,
>)
    ensures
        match result {
            Ok(_) => header_fields(*final(headers)) == with_defaults(
                header_fields(*old(headers)),
                default_fields(),
            ),
            Err(e) => {
                &&& e.outcome is Full
                &&& e.index < default_fields().len()
                &&& header_fields(*final(headers)) == with_defaults(
                    header_fields(*old(headers)),
                    default_fields().take(e.index as int),
                )
                &&& !has_field(header_fields(*final(headers)), default_fields()[e.index as int].0)
                &&& header_fields(*final(headers)).len() >= FULL_AT_LEAST
            },
        },
        header_fields(*old(headers)).len() + 16 <= FULL_AT_LEAST ==> result is Ok,
{
    proof {
        lemma_default_fields_valid();
    }
    let defaults = default_headers();
    let result = insert_defaults(headers, &defaults);
    proof {
        if let Err(e) = result {
            assert(normalized(default_fields()).take(e.index as int) == default_fields().take(
                e.index as int,
            ));
        }
    }
    result
}

} // verus!

use impersonate::headers::{
    collect_headers, compose_headers, find_header, names_match, Header, HeaderProfile,
};

fn pairs(headers: &[Header]) -> Vec<(String, String)> {
    headers
        .iter()
        .map(|h| {
            (
                String::from_utf8(h.name.clone()).unwrap(),
                String::from_utf8(h.value.clone()).unwrap(),
            )
        })
        .collect()
}

fn pair(name: &str, value: &str) -> (String, String) {
    (name.to_string(), value.to_string())
}

fn names(list: &[&str]) -> Vec<Vec<u8>> {
    list.iter().map(|n| n.as_bytes().to_vec()).collect()
}

#[test]
fn caller_header_overrides_default_of_the_same_name() {
    let profile = HeaderProfile::new(
        vec![Header::new("accept", "*/*"), Header::new("user-agent", "browser")],
        Vec::new(),
    );
    let out = compose_headers(&profile, &vec![Header::new("User-Agent", "mine")]);
    assert_eq!(pairs(&out), vec![pair("User-Agent", "mine"), pair("accept", "*/*")]);
}

#[test]
fn defaults_follow_caller_headers_when_nothing_is_listed() {
    let profile = HeaderProfile::new(
        vec![Header::new("a", "1"), Header::new("b", "2")],
        Vec::new(),
    );
    let out = compose_headers(&profile, &vec![Header::new("z", "26"), Header::new("y", "25")]);
    assert_eq!(
        pairs(&out),
        vec![pair("z", "26"), pair("y", "25"), pair("a", "1"), pair("b", "2")]
    );
}

#[test]
fn listed_names_come_first_in_declared_order() {
    let profile = HeaderProfile::new(
        vec![Header::new("a", "1"), Header::new("b", "2"), Header::new("c", "3")],
        names(&["c", "host", "a"]),
    );
    let out = compose_headers(&profile, &vec![Header::new("x", "9"), Header::new("host", "h")]);
    assert_eq!(
        pairs(&out),
        vec![pair("c", "3"), pair("host", "h"), pair("a", "1"), pair("x", "9"), pair("b", "2")]
    );
}

#[test]
fn listed_name_without_a_value_leaves_no_gap() {
    let profile = HeaderProfile::new(vec![Header::new("a", "1")], names(&["missing", "a"]));
    let out = compose_headers(&profile, &Vec::new());
    assert_eq!(pairs(&out), vec![pair("a", "1")]);
}

#[test]
fn name_listed_twice_is_sent_once() {
    let profile = HeaderProfile::new(
        vec![Header::new("a", "1"), Header::new("b", "2")],
        names(&["b", "B", "a", "b"]),
    );
    let out = compose_headers(&profile, &Vec::new());
    assert_eq!(pairs(&out), vec![pair("b", "2"), pair("a", "1")]);
}

#[test]
fn repeated_caller_header_keeps_first_place_and_last_value() {
    let caller = vec![
        Header::new("cookie", "a=1"),
        Header::new("host", "example.org"),
        Header::new("Cookie", "b=2"),
    ];
    let map = collect_headers(&caller);
    assert_eq!(pairs(&map), vec![pair("Cookie", "b=2"), pair("host", "example.org")]);
}

#[test]
fn default_listed_twice_is_sent_as_it_first_stands() {
    let profile = HeaderProfile::new(
        vec![Header::new("a", "first"), Header::new("A", "second")],
        Vec::new(),
    );
    let out = compose_headers(&profile, &Vec::new());
    assert_eq!(pairs(&out), vec![pair("a", "first")]);
}

#[test]
fn emitted_casing_is_the_suppliers() {
    let profile = HeaderProfile::new(
        vec![Header::new("Accept-Language", "en"), Header::new("DNT", "1")],
        names(&["dnt", "accept-language"]),
    );
    let out = compose_headers(&profile, &vec![Header::new("dnt", "0")]);
    assert_eq!(pairs(&out), vec![pair("dnt", "0"), pair("Accept-Language", "en")]);
}

#[test]
fn composing_nothing_gives_nothing() {
    let profile = HeaderProfile::new(Vec::new(), names(&["a"]));
    assert!(compose_headers(&profile, &Vec::new()).is_empty());
}

#[test]
fn names_compare_without_regard_to_ascii_case() {
    assert!(names_match(b"User-Agent", b"user-agent"));
    assert!(names_match(b"", b""));
    assert!(!names_match(b"user-agent", b"user_agent"));
    assert!(!names_match(b"a", b"ab"));
    // `@` and `` ` `` stand next to the letters and are not letters.
    assert!(!names_match(b"@", b"`"));
    assert!(!names_match(b"[", b"{"));
}

#[test]
fn find_header_gives_first_match_or_length() {
    let headers = vec![Header::new("a", "1"), Header::new("B", "2"), Header::new("b", "3")];
    assert_eq!(find_header(&headers, b"b"), 1);
    assert_eq!(find_header(&headers, b"A"), 0);
    assert_eq!(find_header(&headers, b"c"), 3);
}

#[test]
fn with_order_replaces_only_the_order() {
    let profile = HeaderProfile::new(
        vec![Header::new("a", "1"), Header::new("b", "2")],
        names(&["a"]),
    );
    let changed = profile.with_order(names(&["b"]));
    assert_eq!(changed.order(), names(&["b"]));
    assert_eq!(pairs(&changed.defaults()), vec![pair("a", "1"), pair("b", "2")]);
    assert_eq!(profile.order(), names(&["a"]));
    let out = compose_headers(&changed, &Vec::new());
    assert_eq!(pairs(&out), vec![pair("b", "2"), pair("a", "1")]);
}

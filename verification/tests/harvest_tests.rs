use awesome_lists::{
    decode_record, parse_records, render, FieldKind, HarvestError, Harvester, RawRecord,
    page_url, user_agent, MAX_PAGES,
};

fn raw(name: Option<&str>, url: Option<&str>, desc: Option<&str>) -> RawRecord {
    RawRecord {
        name: name.map(|s| s.to_string()),
        html_url: url.map(|s| s.to_string()),
        description: desc.map(|s| s.to_string()),
    }
}

#[test]
fn page_bound_default() {
    assert_eq!(MAX_PAGES, 10);
}

#[test]
fn user_agent_is_fixed() {
    assert_eq!(user_agent(), "Awesome-Lists-App");
}

#[test]
fn page_url_carries_page_number() {
    assert_eq!(
        page_url(1),
        "https://api.github.com/search/repositories?q=topic:awesome&page=1"
    );
    assert_eq!(
        page_url(123),
        "https://api.github.com/search/repositories?q=topic:awesome&page=123"
    );
}

#[test]
fn next_url_walks_pages_in_order() {
    let mut h = Harvester::new(2);
    assert_eq!(
        h.next_url().unwrap(),
        "https://api.github.com/search/repositories?q=topic:awesome&page=1"
    );
    h.on_page_body(r#"{"items":[]}"#).unwrap();
    assert_eq!(
        h.next_url().unwrap(),
        "https://api.github.com/search/repositories?q=topic:awesome&page=2"
    );
    h.on_page_body(r#"{"items":[]}"#).unwrap();
    assert!(h.next_url().is_none());
    assert!(h.is_done());
}

#[test]
fn decode_record_accepts_complete_record() {
    let r = decode_record(&raw(Some("foo"), Some("http://x/foo"), Some("desc"))).unwrap();
    assert_eq!(r.name, "foo");
    assert_eq!(r.html_url, "http://x/foo");
    assert_eq!(r.description.as_deref(), Some("desc"));
}

#[test]
fn decode_record_accepts_absent_description() {
    let r = decode_record(&raw(Some("foo"), Some("http://x/foo"), None)).unwrap();
    assert_eq!(r.description, None);
}

#[test]
fn decode_record_rejects_missing_name() {
    let e = decode_record(&raw(None, Some("http://x/foo"), None)).unwrap_err();
    assert_eq!(e, HarvestError::Field(FieldKind::Name));
}

#[test]
fn decode_record_rejects_empty_name() {
    let e = decode_record(&raw(Some(""), Some("http://x/foo"), None)).unwrap_err();
    assert_eq!(e, HarvestError::Field(FieldKind::Name));
}

#[test]
fn decode_record_rejects_missing_url() {
    let e = decode_record(&raw(Some("foo"), None, None)).unwrap_err();
    assert_eq!(e, HarvestError::Field(FieldKind::Url));
}

#[test]
fn decode_record_rejects_empty_url() {
    let e = decode_record(&raw(Some("foo"), Some(""), None)).unwrap_err();
    assert_eq!(e, HarvestError::Field(FieldKind::Url));
}

#[test]
fn decode_record_checks_name_before_url() {
    let e = decode_record(&raw(None, None, None)).unwrap_err();
    assert_eq!(e, HarvestError::Field(FieldKind::Name));
}

#[test]
fn parse_records_appends_one_item_per_record() {
    let raws = vec![
        raw(Some("a"), Some("http://x/a"), Some("first")),
        raw(Some("b"), Some("http://x/b"), None),
        raw(Some("c"), Some("http://x/c"), Some("third")),
    ];
    let items = parse_records(&raws).unwrap();
    assert_eq!(items.len(), raws.len());
    assert_eq!(items[0].name, "a");
    assert_eq!(items[1].name, "b");
    assert_eq!(items[2].description.as_deref(), Some("third"));
}

#[test]
fn parse_records_empty_gives_empty() {
    let items = parse_records(&vec![]).unwrap();
    assert!(items.is_empty());
}

#[test]
fn parse_records_fails_on_first_malformed_record() {
    let raws = vec![
        raw(Some("a"), Some("http://x/a"), None),
        raw(Some("bad"), None, None),
        raw(None, Some("http://x/c"), None),
    ];
    let e = parse_records(&raws).unwrap_err();
    assert_eq!(e, HarvestError::Field(FieldKind::Url));
}

#[test]
fn harvest_single_page_end_to_end() {
    let body = r#"{"items":[
        {"name":"foo","html_url":"http://x/foo","description":"desc"},
        {"name":"bar","html_url":"http://x/bar","description":null}
    ]}"#;
    let mut h = Harvester::new(1);
    h.on_page_body(body).unwrap();
    assert!(h.is_done());
    let items = h.into_items();
    let doc = render(&items);
    assert_eq!(
        doc,
        "# The 2 Awesome List  \n- [foo](http://x/foo)\n\t- desc\n- [bar](http://x/bar)\n\t- \n"
    );
}

#[test]
fn empty_items_on_every_page_yields_empty_document() {
    let mut h = Harvester::new(3);
    for _ in 0..3 {
        h.on_page_body(r#"{"items":[]}"#).unwrap();
    }
    assert!(h.is_done());
    let doc = render(&h.into_items());
    assert_eq!(doc, "# The 0 Awesome List  \n");
}

#[test]
fn transport_failure_mid_run_discards_harvested_pages() {
    let body = r#"{"items":[{"name":"a","html_url":"http://x/a","description":null}]}"#;
    let mut h = Harvester::new(10);
    h.on_page_body(body).unwrap();
    h.on_page_body(body).unwrap();
    // the transport layer fails on page 3: the run aborts here, the
    // harvest is incomplete, and the partial collection is dropped
    assert!(!h.is_done());
    assert_eq!(
        h.next_url().unwrap(),
        "https://api.github.com/search/repositories?q=topic:awesome&page=3"
    );
    assert_eq!(HarvestError::Transport.message(), "Request failed");
}

#[test]
fn items_accumulate_across_pages_in_order() {
    let mut h = Harvester::new(2);
    h.on_page_body(r#"{"items":[{"name":"p1a","html_url":"http://x/1a"},{"name":"p1b","html_url":"http://x/1b"}]}"#)
        .unwrap();
    h.on_page_body(r#"{"items":[{"name":"p2a","html_url":"http://x/2a"}]}"#)
        .unwrap();
    let items = h.into_items();
    let names: Vec<&str> = items.iter().map(|r| r.name.as_str()).collect();
    assert_eq!(names, ["p1a", "p1b", "p2a"]);
}

#[test]
fn body_not_json_is_a_parse_error() {
    let mut h = Harvester::new(1);
    let e = h.on_page_body("this is not json").unwrap_err();
    assert_eq!(e, HarvestError::Parse);
}

#[test]
fn missing_items_member_is_a_parse_error() {
    let mut h = Harvester::new(1);
    let e = h.on_page_body(r#"{"total_count":0}"#).unwrap_err();
    assert_eq!(e, HarvestError::Parse);
}

#[test]
fn items_not_an_array_is_a_parse_error() {
    let mut h = Harvester::new(1);
    let e = h.on_page_body(r#"{"items":5}"#).unwrap_err();
    assert_eq!(e, HarvestError::Parse);
}

#[test]
fn record_missing_name_aborts_with_field_error() {
    let body = r#"{"items":[{"html_url":"http://x/foo"}]}"#;
    let mut h = Harvester::new(1);
    let e = h.on_page_body(body).unwrap_err();
    assert_eq!(e, HarvestError::Field(FieldKind::Name));
    assert!(!h.is_done());
}

#[test]
fn record_with_non_text_name_aborts_with_field_error() {
    let body = r#"{"items":[{"name":42,"html_url":"http://x/foo"}]}"#;
    let mut h = Harvester::new(1);
    let e = h.on_page_body(body).unwrap_err();
    assert_eq!(e, HarvestError::Field(FieldKind::Name));
}

#[test]
fn record_with_non_text_url_aborts_with_field_error() {
    let body = r#"{"items":[{"name":"foo","html_url":[1,2]}]}"#;
    let mut h = Harvester::new(1);
    let e = h.on_page_body(body).unwrap_err();
    assert_eq!(e, HarvestError::Field(FieldKind::Url));
}

#[test]
fn non_text_description_is_treated_as_absent() {
    let body = r#"{"items":[{"name":"foo","html_url":"http://x/foo","description":7}]}"#;
    let mut h = Harvester::new(1);
    h.on_page_body(body).unwrap();
    let items = h.into_items();
    assert_eq!(items[0].description, None);
}

#[test]
fn failed_page_leaves_harvester_unchanged() {
    let mut h = Harvester::new(1);
    let e = h.on_page_body(r#"{"items":[{"name":"x"}]}"#).unwrap_err();
    assert_eq!(e, HarvestError::Field(FieldKind::Url));
    assert!(!h.is_done());
    // the same page, now well-formed, still goes through
    h.on_page_body(r#"{"items":[{"name":"x","html_url":"http://x/x"}]}"#)
        .unwrap();
    assert!(h.is_done());
    assert_eq!(h.into_items().len(), 1);
}

#[test]
fn metadata_beyond_items_is_ignored() {
    let body = r#"{"total_count":9000,"incomplete_results":false,
        "items":[{"name":"foo","html_url":"http://x/foo","stargazers_count":3}]}"#;
    let mut h = Harvester::new(1);
    h.on_page_body(body).unwrap();
    let items = h.into_items();
    assert_eq!(items.len(), 1);
    assert_eq!(items[0].name, "foo");
}

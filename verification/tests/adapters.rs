use fiftyshades::query::elastic;
use fiftyshades::query::google;
use fiftyshades::query::graylog;
use fiftyshades::query::GenericQuery;
use fiftyshades::records::{chronological, Page};
use fiftyshades::TimeWindow;

const FROM: u64 = 1704067200000; // 2024-01-01T00:00:00.000Z
const TO: u64 = 1704067260000; // 2024-01-01T00:01:00.000Z

fn query(terms: &[&str], limit: Option<u64>) -> GenericQuery {
    GenericQuery {
        terms: terms.iter().map(|t| t.to_string()).collect(),
        window: TimeWindow { from_ms: FROM, to_ms: TO },
        limit,
    }
}

fn value(text: &str) -> serde_json::Value {
    serde_json::from_str(text).unwrap()
}

#[test]
fn reapi_params_are_star_window_and_zero_limit() {
    let params = graylog::build_params(&query(&[], None));
    assert_eq!(params.len(), 4);
    assert_eq!(params[0], ("query".to_string(), "*".to_string()));
    assert_eq!(params[1], ("limit".to_string(), "0".to_string()));
    assert_eq!(
        params[2],
        ("from".to_string(), "2024-01-01T00:00:00.000Z".to_string())
    );
    assert_eq!(
        params[3],
        ("to".to_string(), "2024-01-01T00:01:00.000Z".to_string())
    );
}

#[test]
fn reapi_params_join_terms_and_carry_the_limit() {
    let params = graylog::build_params(&query(&["err", "timeout"], Some(50)));
    assert_eq!(params[0], ("query".to_string(), "err timeout".to_string()));
    assert_eq!(params[1], ("limit".to_string(), "50".to_string()));
}

#[test]
fn reapi_normalization_reverses_newest_first() {
    let c = value("{\"at\":\"t3\",\"name\":\"C\"}");
    let b = value("{\"at\":\"t2\",\"name\":\"B\"}");
    let a = value("{\"at\":\"t1\",\"name\":\"A\"}");
    let out = chronological(vec![c.clone(), b.clone(), a.clone()]);
    assert_eq!(out, vec![a, b, c]);
}

#[test]
fn reapi_page_decodes_oldest_first() {
    let body = "{\"messages\":[\
        {\"message\":{\"message\":\"second\"}},\
        {\"message\":{\"message\":\"first\"}}\
    ]}";
    let page = graylog::decode_page(body).unwrap();
    assert!(page.continuation.is_none());
    assert_eq!(page.records.len(), 2);
    assert_eq!(page.records[0], value("{\"message\":\"first\"}"));
    assert_eq!(page.records[1], value("{\"message\":\"second\"}"));
}

#[test]
fn reapi_page_substitutes_placeholders() {
    let body = "{\"messages\":[{\"message\":\"not an object\"},{\"other\":1}]}";
    let page = graylog::decode_page(body).unwrap();
    assert_eq!(page.records.len(), 2);
    assert!(page.records[0].as_str().unwrap().starts_with("unreadable record"));
    assert!(page.records[1].as_str().unwrap().starts_with("unreadable record"));
}

#[test]
fn reapi_page_without_messages_is_empty() {
    let page = graylog::decode_page("{}").unwrap();
    assert!(page.records.is_empty());
}

#[test]
fn reapi_bad_body_is_a_decode_failure() {
    assert!(matches!(
        graylog::decode_page("not json"),
        Err(fiftyshades::query::ResponseError::Conversion(_))
    ));
}

#[test]
fn docstore_empty_terms_build_the_bare_range_clause() {
    let request = elastic::build_request(&query(&[], None));
    assert_eq!(request.size, Some(10000));
    assert_eq!(
        request.sort,
        vec![("@timestamp".to_string(), "asc".to_string())]
    );
    match &request.query {
        elastic::Query::Range { field, bounds } => {
            assert_eq!(field, "@timestamp");
            assert_eq!(bounds.gte.as_deref(), Some("2024-01-01T00:00:00.000Z"));
            assert_eq!(bounds.lt.as_deref(), Some("2024-01-01T00:01:00.000Z"));
            assert!(bounds.gt.is_none());
            assert!(bounds.lte.is_none());
        }
        other => panic!("expected a bare range clause, got {:?}", other),
    }
}

#[test]
fn docstore_terms_build_a_bool_must_of_text_and_range() {
    let request = elastic::build_request(&query(&["err", "timeout"], None));
    match &request.query {
        elastic::Query::Bool(b) => {
            assert!(b.filter.is_none() && b.should.is_none() && b.must_not.is_none());
            let must = b.must.as_ref().unwrap();
            assert_eq!(must.len(), 2);
            match &must[0] {
                elastic::Query::QueryString { query } => assert_eq!(query, "err timeout"),
                other => panic!("expected a free-text clause, got {:?}", other),
            }
            match &must[1] {
                elastic::Query::Range { field, bounds } => {
                    assert_eq!(field, "@timestamp");
                    assert_eq!(bounds.gte.as_deref(), Some("2024-01-01T00:00:00.000Z"));
                    assert_eq!(bounds.lt.as_deref(), Some("2024-01-01T00:01:00.000Z"));
                }
                other => panic!("expected the range clause, got {:?}", other),
            }
        }
        other => panic!("expected a bool query, got {:?}", other),
    }
}

#[test]
fn docstore_page_reads_sources_in_order() {
    let body = "{\"hits\":{\"hits\":[\
        {\"_source\":{\"message\":\"first\"}},\
        {\"_source\":{\"message\":\"second\"}}\
    ]}}";
    let page = elastic::decode_page(body).unwrap();
    assert!(page.continuation.is_none());
    assert_eq!(page.records[0], value("{\"message\":\"first\"}"));
    assert_eq!(page.records[1], value("{\"message\":\"second\"}"));
}

#[test]
fn docstore_error_details_join_type_and_reason() {
    let body = "{\"error\":{\"type\":\"parsing_exception\",\"reason\":\"bad query\"},\"status\":400}";
    assert_eq!(
        elastic::error_details(body),
        Some("parsing_exception: bad query".to_string())
    );
    assert_eq!(elastic::error_details("plain text"), None);
}

#[test]
fn tail_filter_is_the_quoted_range_with_terms() {
    let q = query(&["err", "timeout"], None);
    assert_eq!(
        google::build_filter(&q, true),
        "timestamp >= \"2024-01-01T00:00:00.000Z\" AND timestamp < \"2024-01-01T00:01:00.000Z\" AND err timeout"
    );
    assert_eq!(
        google::build_filter(&query(&[], None), false),
        "timestamp >= \"2024-01-01T00:00:00.000Z\""
    );
}

#[test]
fn tail_paging_requests_once_per_page_and_concatenates() {
    let pages = vec![
        Page {
            records: vec![value("\"a1\""), value("\"a2\"")],
            continuation: Some("T1".to_string()),
        },
        Page {
            records: vec![value("\"b1\"")],
            continuation: Some("T2".to_string()),
        },
        Page {
            records: vec![value("\"c1\""), value("\"c2\"")],
            continuation: Some("T3".to_string()),
        },
        Page { records: vec![], continuation: None },
    ];
    let (records, requests) = google::drain_pages(pages);
    assert_eq!(requests, 4);
    assert_eq!(
        records,
        vec![
            value("\"a1\""),
            value("\"a2\""),
            value("\"b1\""),
            value("\"c1\""),
            value("\"c2\"")
        ]
    );
}

#[test]
fn tail_paging_tracks_the_token_chain() {
    let mut paging = google::TailPaging::start();
    assert_eq!(paging.next_request(), Some(None));
    paging.feed(Some("T1".to_string()));
    assert_eq!(paging.next_request(), Some(Some("T1".to_string())));
    paging.feed(None);
    assert_eq!(paging.requests, 2);
    assert!(paging.finished);
    assert_eq!(paging.next_request(), None);
}

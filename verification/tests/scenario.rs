//! End-to-end shape of a one-shot query against the REST backend, up to
//! the rendering boundary: resolve the window, build the request, decode
//! a raw response with two messages newest-first, and render both
//! records through the template engine in chronological order.

use fiftyshades::datetime::resolve;
use fiftyshades::query::{classify_response, graylog, GenericQuery};
use fiftyshades::TimeWindow;

#[test]
fn query_mode_end_to_end_over_a_reapi_response() {
    let reference = 1704153600000u64; // 2024-01-02T00:00:00.000Z
    let from = resolve("2024-01-01T00:00:00.000Z", reference).unwrap().from_ms;
    let to = resolve("2024-01-01T00:01:00.000Z", reference).unwrap().to_ms;
    let query = GenericQuery {
        terms: Vec::new(),
        window: TimeWindow { from_ms: from, to_ms: to },
        limit: None,
    };

    let params = graylog::build_params(&query);
    assert_eq!(params[0].1, "*");
    assert_eq!(params[2].1, "2024-01-01T00:00:00.000Z");
    assert_eq!(params[3].1, "2024-01-01T00:01:00.000Z");

    // The backend answers 200 with two messages, newest first.
    let body = "{\"messages\":[\
        {\"message\":{\"message\":\"the second line\"}},\
        {\"message\":{\"message\":\"the first line\"}}\
    ],\"total_results\":2}";
    let classified = classify_response(200, body.to_string()).unwrap();
    let page = graylog::decode_page(&classified).unwrap();
    assert_eq!(page.records.len(), 2);
    assert!(page.continuation.is_none());

    let mut registry = handlebars::Handlebars::new();
    registry
        .register_template_string("line", "{{message}}")
        .unwrap();
    let lines: Vec<String> = page
        .records
        .iter()
        .map(|record| registry.render("line", record).unwrap())
        .collect();
    assert_eq!(lines, vec!["the first line", "the second line"]);
}

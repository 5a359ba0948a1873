use fiftyshades::follow::{simulate, FollowState};
use fiftyshades::query::elastic::handle_response as elastic_handle_response;
use fiftyshades::query::graylog::handle_response as graylog_handle_response;
use fiftyshades::query::{classify_response, unexpected_status, ResponseError};
use fiftyshades::TimeWindow;

#[test]
fn follow_windows_chain_without_gap_or_overlap() {
    let initial = FollowState::new(1_000, 250, 2_000);
    let nows = vec![5_000u64, 6_000, 7_000, 9_500];
    let successes = vec![true, true, true, true];
    let trace = simulate(initial, &nows, &successes);
    assert_eq!(
        trace,
        vec![
            TimeWindow { from_ms: 1_000, to_ms: 3_000 },
            TimeWindow { from_ms: 3_000, to_ms: 4_000 },
            TimeWindow { from_ms: 4_000, to_ms: 5_000 },
            TimeWindow { from_ms: 5_000, to_ms: 7_500 },
        ]
    );
    for pair in trace.windows(2) {
        assert_eq!(pair[0].to_ms, pair[1].from_ms);
    }
}

#[test]
fn follow_stops_at_the_first_failure() {
    let initial = FollowState::new(1_000, 250, 2_000);
    let nows = vec![5_000u64, 6_000, 7_000];
    let successes = vec![true, false, true];
    let trace = simulate(initial, &nows, &successes);
    assert_eq!(trace.len(), 2);
    assert_eq!(trace[1], TimeWindow { from_ms: 3_000, to_ms: 4_000 });
}

#[test]
fn follow_state_advances_only_on_commit() {
    let mut st = FollowState::new(100, 50, 10);
    let w = st.next_window(500).unwrap();
    assert_eq!(w, TimeWindow { from_ms: 100, to_ms: 490 });
    assert_eq!(st.window_from, 100);
    st.commit(w);
    assert_eq!(st.window_from, 490);
    assert_eq!(st.poll_interval_ms, 50);
    assert_eq!(st.latency_buffer_ms, 10);
    assert!(st.next_window(5).is_none());
}

#[test]
fn status_classification_is_by_status_alone() {
    assert_eq!(classify_response(200, "body".to_string()).unwrap(), "body");
    assert!(matches!(
        classify_response(401, "{\"message\":\"ignored\"}".to_string()),
        Err(ResponseError::AuthenticationFailure)
    ));
    assert!(matches!(
        classify_response(401, "".to_string()),
        Err(ResponseError::AuthenticationFailure)
    ));
    match classify_response(503, "overloaded".to_string()) {
        Err(ResponseError::UnexpectedStatus(status, body)) => {
            assert_eq!(status, 503);
            assert_eq!(body, "overloaded");
        }
        other => panic!("expected an unexpected-status error, got {:?}", other),
    }
}

#[test]
fn unreadable_error_bodies_fall_back_to_the_fixed_message() {
    match unexpected_status(500, None) {
        ResponseError::UnexpectedStatus(status, detail) => {
            assert_eq!(status, 500);
            assert_eq!(detail, "No details given");
        }
        other => panic!("expected an unexpected-status error, got {:?}", other),
    }
    match unexpected_status(500, fiftyshades::query::graylog::error_details("not json")) {
        ResponseError::UnexpectedStatus(_, detail) => assert_eq!(detail, "No details given"),
        other => panic!("expected an unexpected-status error, got {:?}", other),
    }
    match unexpected_status(
        404,
        fiftyshades::query::graylog::error_details("{\"type\":\"x\",\"message\":\"no index\"}"),
    ) {
        ResponseError::UnexpectedStatus(status, detail) => {
            assert_eq!(status, 404);
            assert_eq!(detail, "no index");
        }
        other => panic!("expected an unexpected-status error, got {:?}", other),
    }
}

#[test]
fn graylog_handle_response_composes_classification_and_decoding() {
    let handle_response = graylog_handle_response;
    let body = "{\"messages\":[{\"message\":{\"message\":\"newest\"}},{\"message\":{\"message\":\"oldest\"}}]}";
    let page = handle_response(200, body).unwrap();
    assert_eq!(page.records.len(), 2);
    assert_eq!(page.records[0]["message"], "oldest");
    assert!(matches!(
        handle_response(200, "not json"),
        Err(ResponseError::Conversion(_))
    ));
    assert!(matches!(
        handle_response(401, body),
        Err(ResponseError::AuthenticationFailure)
    ));
    match handle_response(404, "{\"type\":\"x\",\"message\":\"no such index\"}") {
        Err(ResponseError::UnexpectedStatus(status, detail)) => {
            assert_eq!(status, 404);
            assert_eq!(detail, "no such index");
        }
        other => panic!("expected an unexpected-status error, got {:?}", other),
    }
    match handle_response(500, "<html>oops</html>") {
        Err(ResponseError::UnexpectedStatus(status, detail)) => {
            assert_eq!(status, 500);
            assert_eq!(detail, "No details given");
        }
        other => panic!("expected an unexpected-status error, got {:?}", other),
    }
}

#[test]
fn docstore_handle_response_composes_classification_and_decoding() {
    let handle_response = elastic_handle_response;
    let body = "{\"hits\":{\"hits\":[{\"_source\":{\"message\":\"only\"}}]}}";
    let page = handle_response(200, body).unwrap();
    assert_eq!(page.records.len(), 1);
    assert_eq!(page.records[0]["message"], "only");
    assert!(matches!(
        handle_response(200, "{}"),
        Err(ResponseError::Conversion(_))
    ));
    match handle_response(
        400,
        "{\"error\":{\"type\":\"parsing_exception\",\"reason\":\"bad query\"},\"status\":400}",
    ) {
        Err(ResponseError::UnexpectedStatus(status, detail)) => {
            assert_eq!(status, 400);
            assert_eq!(detail, "parsing_exception: bad query");
        }
        other => panic!("expected an unexpected-status error, got {:?}", other),
    }
    match handle_response(503, "overloaded") {
        Err(ResponseError::UnexpectedStatus(_, detail)) => {
            assert_eq!(detail, "No details given");
        }
        other => panic!("expected an unexpected-status error, got {:?}", other),
    }
}

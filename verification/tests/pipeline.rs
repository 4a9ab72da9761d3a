//! End-to-end checks of the query-to-results pipeline: routing, decoding,
//! the error taxonomy, and the rendered pages.

use my_search::client::{interpret_response, FetchOutcome};
use my_search::github::{Item, Root, SearchError};
use my_search::render::{render_empty_state, render_error, render_results};
use my_search::router::{handle, render_response, route, Route};

fn json_reply(body: &str) -> FetchOutcome {
    FetchOutcome::Reply {
        content_type: Some("application/json; charset=utf-8".to_string()),
        body: body.to_string(),
    }
}

const FIXTURE: &str = "{\"total_count\": 2, \"incomplete_results\": false, \"items\": [\
{\"id\": 1, \"html_url\": \"https://example.org/a\", \"title\": \"First & last\", \"url\": \"https://api.example.org/a\", \"score\": 1.5}, \
{\"id\": 2, \"html_url\": \"https://example.org/b\", \"title\": \"<b>bold</b>\"}]}";

#[test]
fn no_query_routes_to_empty_state() {
    assert!(matches!(route(&None), Route::EmptyState));
    let page = render_empty_state();
    assert!(page.contains("<form method=\"get\""));
    assert!(page.contains("name=\"q\""));
    assert!(page.starts_with("<!DOCTYPE html>"));
}

#[test]
fn empty_query_string_still_fetches() {
    assert!(matches!(route(&Some(String::new())), Route::Fetch));
}

#[test]
fn handle_without_query_is_the_empty_state_page() {
    let out = handle(None, json_reply("{}"));
    assert_eq!(out, render_empty_state());
}

#[test]
fn fixture_decodes_to_the_expected_model() {
    let r = interpret_response(
        Some("application/json; charset=utf-8".to_string()),
        FIXTURE.to_string(),
    );
    let root = match r {
        Ok(root) => root,
        Err(_) => panic!("fixture should decode"),
    };
    assert_eq!(root.total_count, 2);
    assert_eq!(root.items.len(), 2);
    assert_eq!(root.items[0].id, 1);
    assert_eq!(root.items[0].title, "First & last");
    assert_eq!(root.items[0].url, "https://example.org/a");
    assert_eq!(root.items[1].id, 2);
    assert_eq!(root.items[1].title, "<b>bold</b>");
    assert_eq!(root.items[1].url, "https://example.org/b");
}

#[test]
fn absent_content_type_still_decodes() {
    let r = interpret_response(None, FIXTURE.to_string());
    assert!(r.is_ok());
}

#[test]
fn round_trip_fixture_reappears_in_order() {
    let r = interpret_response(None, FIXTURE.to_string());
    let root = r.expect("fixture should decode");
    let page = render_results("rust", &root);
    let first = page.find("First &amp; last").expect("first title shown");
    let first_url = page.find("https://example.org/a").expect("first url shown");
    let second = page.find("&lt;b&gt;bold&lt;/b&gt;").expect("second title shown");
    let second_url = page.find("https://example.org/b").expect("second url shown");
    assert!(first < second);
    assert!(first_url < second_url);
    assert!(page.contains("Results (2)"));
    assert!(!page.contains("No results found"));
}

#[test]
fn empty_items_show_no_results_whatever_the_total_says() {
    let r = interpret_response(None, "{\"total_count\": 5, \"items\": []}".to_string());
    let root = r.expect("shape matches");
    assert_eq!(root.total_count, 5);
    assert_eq!(root.items.len(), 0);
    let page = render_results("abc", &root);
    assert!(page.contains("No results found for \"abc\""));
    assert!(!page.contains("result-item"));
}

#[test]
fn non_json_content_type_is_rejected_with_the_body() {
    let r = interpret_response(
        Some("text/html".to_string()),
        "<html>rate limited</html>".to_string(),
    );
    match r {
        Err(SearchError::UnexpectedContentType(body)) => {
            assert_eq!(body, "<html>rate limited</html>");
        },
        _ => panic!("expected the content-type error"),
    }
}

#[test]
fn malformed_json_fails_the_decode() {
    let r = interpret_response(None, "{\"total_count\": ".to_string());
    match r {
        Err(SearchError::DecodeFailed(cause)) => assert!(!cause.is_empty()),
        _ => panic!("expected the decode error"),
    }
}

#[test]
fn wrong_shape_fails_the_decode() {
    let r = interpret_response(None, "{\"total_count\": \"two\", \"items\": []}".to_string());
    match r {
        Err(SearchError::DecodeFailed(cause)) => {
            assert_eq!(cause, "upstream response did not match the expected shape");
        },
        _ => panic!("expected the shape error"),
    }
}

#[test]
fn missing_required_item_field_fails_the_whole_decode() {
    let body = "{\"total_count\": 1, \"items\": [{\"id\": 1, \"title\": \"t\"}]}";
    let r = interpret_response(None, body.to_string());
    assert!(matches!(r, Err(SearchError::DecodeFailed(_))));
}

#[test]
fn failure_renders_the_error_view_with_its_description() {
    let page = render_response(
        "q",
        FetchOutcome::Transport("connection refused".to_string()),
    );
    assert!(page.contains("Search Error"));
    assert!(page.contains("could not reach the upstream service: connection refused"));
    assert!(!page.contains("result-item"));
    assert!(!page.contains("Results ("));
}

#[test]
fn bad_content_type_renders_the_error_view() {
    let page = render_response(
        "q",
        FetchOutcome::Reply {
            content_type: Some("text/plain".to_string()),
            body: "oops".to_string(),
        },
    );
    assert!(page.contains("upstream sent a non-JSON response: oops"));
}

#[test]
fn error_descriptions_name_their_variant() {
    let e1 = SearchError::UnexpectedContentType("b".to_string());
    let e2 = SearchError::DecodeFailed("c".to_string());
    let e3 = SearchError::Transport("d".to_string());
    assert_eq!(e1.describe(), "upstream sent a non-JSON response: b");
    assert_eq!(e2.describe(), "upstream response could not be decoded: c");
    assert_eq!(e3.describe(), "could not reach the upstream service: d");
    let page = render_error("q", &e2);
    assert!(page.contains("upstream response could not be decoded: c"));
    assert!(page.contains("<a href=\"/\">Try Again</a>"));
}

#[test]
fn same_reply_gives_byte_identical_pages() {
    let a = render_response("same", json_reply(FIXTURE));
    let b = render_response("same", json_reply(FIXTURE));
    assert_eq!(a, b);
}

#[test]
fn markup_in_query_and_title_is_escaped() {
    let body = "{\"total_count\": 1, \"items\": [\
{\"id\": 7, \"html_url\": \"https://example.org/x\", \"title\": \"<script>alert(\\\"hi\\\")</script>\"}]}";
    let root = interpret_response(None, body.to_string()).expect("shape matches");
    let page = render_results("<script>\"&", &root);
    assert!(!page.contains("<script>"));
    assert!(page.contains("&lt;script&gt;&quot;&amp;"));
    assert!(page.contains("&lt;script&gt;alert(&quot;hi&quot;)&lt;/script&gt;"));
}

#[test]
fn rendering_a_hand_built_model_matches_the_decoded_one() {
    let built = Root {
        total_count: 2,
        items: vec![
            Item {
                id: 1,
                title: "First & last".to_string(),
                url: "https://example.org/a".to_string(),
            },
            Item {
                id: 2,
                title: "<b>bold</b>".to_string(),
                url: "https://example.org/b".to_string(),
            },
        ],
    };
    let decoded = interpret_response(None, FIXTURE.to_string()).expect("fixture decodes");
    assert_eq!(render_results("rust", &built), render_results("rust", &decoded));
}

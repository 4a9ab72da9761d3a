//! Checks of the markup building blocks: escaping, number rendering, the
//! page chrome, and the outbound request line.

use my_search::client::{client_label, request_url};
use my_search::html::{escape, not_found, page};
use my_search::num::i64_to_string;

#[test]
fn escape_maps_the_four_markup_characters() {
    assert_eq!(escape("a&b<c>d\"e"), "a&amp;b&lt;c&gt;d&quot;e");
    assert_eq!(escape(""), "");
    assert_eq!(escape("plain text, 'quotes' kept"), "plain text, 'quotes' kept");
    assert_eq!(escape("&&"), "&amp;&amp;");
    assert_eq!(escape("caf\u{e9} \u{2764}"), "caf\u{e9} \u{2764}");
}

#[test]
fn numbers_render_as_decimal_text() {
    assert_eq!(i64_to_string(0), "0");
    assert_eq!(i64_to_string(7), "7");
    assert_eq!(i64_to_string(42), "42");
    assert_eq!(i64_to_string(1000), "1000");
    assert_eq!(i64_to_string(-5), "-5");
    assert_eq!(i64_to_string(i64::MAX), "9223372036854775807");
    assert_eq!(i64_to_string(i64::MIN), "-9223372036854775808");
}

#[test]
fn page_wraps_contents_in_the_shared_chrome() {
    let p = page("A <title>", "<p>body</p>");
    assert!(p.starts_with("<!DOCTYPE html><html><head>"));
    assert!(p.contains("<title>A &lt;title&gt;</title>"));
    assert!(p.contains("<p>body</p>"));
    assert!(p.ends_with("</footer></body></html>"));
}

#[test]
fn the_not_found_page_says_so() {
    let p = not_found();
    assert!(p.contains("<title>Not found</title>"));
    assert!(p.contains("<h1>404</h1>"));
    assert_eq!(
        p,
        "<!DOCTYPE html><html><head><meta charset=\"utf-8\"><link rel=\"stylesheet\" href=\"static/base.css\"><title>Not found</title></head><body><h1>404</h1><p>Not found</p><footer><a href=\"https://my-search.net\">my-search.net</a></footer></body></html>"
    );
}

#[test]
fn the_empty_state_page_is_exactly_the_form_page() {
    assert_eq!(
        my_search::render::render_empty_state(),
        "<!DOCTYPE html><html><head><meta charset=\"utf-8\"><link rel=\"stylesheet\" href=\"static/base.css\"><title>My Search</title></head><body><h1>My Search</h1><p>Find what you're looking for</p><form method=\"get\"><input type=\"text\" name=\"q\" placeholder=\"Enter your search term...\" autocomplete=\"off\" required><button type=\"submit\">Search</button></form><footer><a href=\"https://my-search.net\">my-search.net</a></footer></body></html>"
    );
}

#[test]
fn the_request_line_carries_the_raw_query() {
    assert_eq!(
        request_url("box error"),
        "https://api.github.com/search/issues?q=box error"
    );
    assert_eq!(request_url(""), "https://api.github.com/search/issues?q=");
    assert_eq!(client_label(), "my-search");
}

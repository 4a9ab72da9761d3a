//! The three page views: empty state, error, and results. Pure functions from
//! plain values to markup; every untrusted text runs through the escaper.

use vstd::prelude::*;
use crate::github::{Item, ItemView, Root, RootView, SearchError, SearchErrorView, spec_describe};
use crate::html::{escape, page, spec_escape, spec_page};
use crate::num::{i64_to_string, spec_i64_str};

verus! {

/// The body of the page shown before any search was submitted: the search
/// form alone, bound to the query parameter name.
pub open spec fn spec_empty_state_body() -> Seq<char> {
    "<h1>My Search</h1><p>Find what you're looking for</p><form method=\"get\"><input type=\"text\" name=\"q\" placeholder=\"Enter your search term...\" autocomplete=\"off\" required><button type=\"submit\">Search</button></form>"@
}

/// The complete empty-state page.
pub open spec fn spec_empty_state() -> Seq<char> {
    spec_page("My Search"@, spec_empty_state_body())
}

/// The body of the error page: the escaped description of the failure and a
/// link back to the empty state.
pub open spec fn spec_error_body(e: SearchErrorView) -> Seq<char> {
    "<h1>Search Error</h1><p>"@ + spec_escape(spec_describe(e)) + "</p><a href=\"/\">Try Again</a>"@
}

/// The complete error page.
pub open spec fn spec_error_page(e: SearchErrorView) -> Seq<char> {
    spec_page("Search Error"@, spec_error_body(e))
}

/// One entry on the results page: the escaped title, and the escaped link as
/// both anchor target and anchor text.
pub open spec fn spec_item_block(it: ItemView) -> Seq<char> {
    "<div class=\"result-item\"><h3>"@ + spec_escape(it.title) + "</h3><a href=\""@ + spec_escape(
        it.url,
    ) + "\" target=\"_blank\">"@ + spec_escape(it.url) + "</a></div>"@
}

/// The entry blocks of all items, in upstream order.
pub open spec fn spec_items_section(items: Seq<ItemView>) -> Seq<char>
    decreases items.len(),
{
    if items.len() == 0 {
        Seq::empty()
    } else {
        spec_items_section(items.drop_last()) + spec_item_block(items.last())
    }
}

/// The part of the results page below the count: the no-results message when
/// no item came back — whatever the reported total says — and the item list
/// otherwise.
pub open spec fn spec_results_list(q: Seq<char>, r: RootView) -> Seq<char> {
    if r.items.len() == 0 {
        "<p>No results found for \""@ + spec_escape(q) + "\"</p>"@
    } else {
        "<div class=\"results\">"@ + spec_items_section(r.items) + "</div>"@
    }
}

/// The body of the results page: the search form re-rendered with the raw
/// query echoed (escaped), the reported total, and the list section.
pub open spec fn spec_results_body(q: Seq<char>, r: RootView) -> Seq<char> {
    "<form method=\"get\"><input type=\"text\" name=\"q\" value=\""@ + spec_escape(q)
        + "\"><button type=\"submit\">Search</button></form><h2>Results ("@ + spec_i64_str(
        r.total_count,
    ) + ")</h2>"@ + spec_results_list(q, r)
}

/// The complete results page.
pub open spec fn spec_results_page(q: Seq<char>, r: RootView) -> Seq<char> {
    spec_page("Search Results"@, spec_results_body(q, r))
}

/// Renders the page shown when no query parameter is present, exactly
/// [`spec_empty_state`].
pub fn render_empty_state() -> (r: String)
    ensures
        r@ == spec_empty_state(),
{
    page(
        "My Search",
        "<h1>My Search</h1><p>Find what you're looking for</p><form method=\"get\"><input type=\"text\" name=\"q\" placeholder=\"Enter your search term...\" autocomplete=\"off\" required><button type=\"submit\">Search</button></form>",
    )
}

/// Renders the error page for a failed fetch, exactly [`spec_error_page`]:
/// the failure's own description, never a results view.
pub fn render_error(_query: &str, error: &SearchError) -> (r: String)
    ensures
        r@ == spec_error_page(error@),
{
    let mut body = String::from_str("<h1>Search Error</h1><p>");
    body.append(escape(error.describe().as_str()).as_str());
    body.append("</p><a href=\"/\">Try Again</a>");
    proof {
        assert(body@ =~= spec_error_body(error@));
    }
    page("Search Error", body.as_str())
}

fn item_block(it: &Item) -> (r: String)
    ensures
        r@ == spec_item_block(it@),
{
    let mut r = String::from_str("<div class=\"result-item\"><h3>");
    r.append(escape(it.title.as_str()).as_str());
    r.append("</h3><a href=\"");
    r.append(escape(it.url.as_str()).as_str());
    r.append("\" target=\"_blank\">");
    r.append(escape(it.url.as_str()).as_str());
    r.append("</a></div>");
    proof {
        assert(r@ =~= spec_item_block(it@));
    }
    r
}

/// Renders the results page for a decoded reply, exactly
/// [`spec_results_page`]: every item once, in upstream order, or the
/// no-results message when the reply held none.
pub fn render_results(query: &str, result: &Root) -> (r: String)
    ensures
        r@ == spec_results_page(query@, result@),
{
    let mut body = String::from_str(
        "<form method=\"get\"><input type=\"text\" name=\"q\" value=\"",
    );
    body.append(escape(query).as_str());
    body.append("\"><button type=\"submit\">Search</button></form><h2>Results (");
    body.append(i64_to_string(result.total_count).as_str());
    body.append(")</h2>");
    let n = result.items.len();
    if n == 0 {
        body.append("<p>No results found for \"");
        body.append(escape(query).as_str());
        body.append("\"</p>");
        proof {
            assert(body@ =~= spec_results_body(query@, result@));
        }
    } else {
        body.append("<div class=\"results\">");
        let ghost pre = body@;
        let mut i: usize = 0;
        while i < n
            invariant
                i <= n,
                n == result.items@.len(),
                body@ == pre + spec_items_section(result@.items.take(i as int)),
            decreases n - i,
        {
            proof {
                assert(result@.items.take(i + 1 as int).drop_last() =~= result@.items.take(
                    i as int,
                ));
                assert(result@.items.take(i + 1 as int).last() == result@.items[i as int]);
            }
            let block = item_block(&result.items[i]);
            body.append(block.as_str());
            proof {
                assert(body@ =~= pre + spec_items_section(result@.items.take(i + 1 as int)));
            }
            i = i + 1;
        }
        proof {
            assert(result@.items.take(n as int) =~= result@.items);
        }
        body.append("</div>");
        proof {
            assert(body@ =~= spec_results_body(query@, result@));
        }
    }
    page("Search Results", body.as_str())
}

/// Every item appears in the results section exactly once, in upstream order:
/// the section is the concatenation of the items' blocks.
pub proof fn lemma_results_list_every_item(items: Seq<ItemView>)
    ensures
        spec_items_section(items) == items.map_values(|it: ItemView| spec_item_block(it)).flatten(),
    decreases items.len(),
{
    let blocks = items.map_values(|it: ItemView| spec_item_block(it));
    blocks.lemma_flatten_and_flatten_alt_are_equivalent();
    if items.len() == 0 {
        assert(blocks.len() == 0);
        assert(blocks.flatten_alt() == Seq::<char>::empty());
    } else {
        lemma_results_list_every_item(items.drop_last());
        let prev = items.drop_last().map_values(|it: ItemView| spec_item_block(it));
        prev.lemma_flatten_and_flatten_alt_are_equivalent();
        assert(blocks.drop_last() =~= prev);
        assert(blocks.flatten_alt() == blocks.drop_last().flatten_alt() + blocks.last());
    }
}

/// When a reply holds no items, the list section is the no-results message,
/// whatever total the upstream reported.
pub proof fn lemma_no_items_no_results_list(q: Seq<char>, r: RootView)
    requires
        r.items.len() == 0,
    ensures
        spec_results_list(q, r) == "<p>No results found for \""@ + spec_escape(q) + "\"</p>"@,
        forall|tc: int|
            spec_results_list(q, RootView { total_count: tc, items: r.items }) == spec_results_list(
                q,
                r,
            ),
{
}

} // verus!

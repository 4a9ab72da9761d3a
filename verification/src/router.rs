//! The routing decision and the one function that turns a query and a fetch
//! outcome into the page to serve. Every request resolves to exactly one of
//! three views: empty state, error, or results.

use vstd::prelude::*;
use crate::client::{spec_fetch_result, FetchOutcome, OutcomeView};
use crate::render::{
    render_error, render_results, spec_empty_state, spec_error_page, spec_results_page,
    render_empty_state,
};

verus! {

/// What an inbound request resolves to before any outbound work: the empty
/// state when no query parameter is present, the fetch pipeline otherwise —
/// an empty query string still triggers the fetch.
pub enum Route {
    EmptyState,
    Fetch,
}

/// Decides the route from the optional query parameter alone.
pub fn route(query: &Option<String>) -> (d: Route)
    ensures
        d is EmptyState <==> query is None,
        d is Fetch <==> query is Some,
{
    match query {
        None => Route::EmptyState,
        Some(_) => Route::Fetch,
    }
}

/// The page served for a query whose fetch ended in the given outcome: the
/// results view on a successful decode, the error view otherwise.
pub open spec fn spec_response(q: Seq<char>, o: OutcomeView) -> Seq<char> {
    match spec_fetch_result(o) {
        Ok(rv) => spec_results_page(q, rv),
        Err(ev) => spec_error_page(ev),
    }
}

/// The page served for a whole request: the empty state when no query
/// parameter is present, and otherwise [`spec_response`] on the fetch
/// outcome.
pub open spec fn spec_handle(q: Option<Seq<char>>, o: OutcomeView) -> Seq<char> {
    match q {
        None => spec_empty_state(),
        Some(qs) => spec_response(qs, o),
    }
}

/// Renders the page for a present query and its fetch outcome, exactly
/// [`spec_response`].
pub fn render_response(query: &str, outcome: FetchOutcome) -> (r: String)
    ensures
        r@ == spec_response(query@, outcome@),
{
    match outcome {
        FetchOutcome::Transport(m) => {
            let e = crate::github::SearchError::Transport(m);
            render_error(query, &e)
        },
        FetchOutcome::Reply { content_type, body } => {
            match crate::client::interpret_response(content_type, body) {
                Ok(root) => render_results(query, &root),
                Err(e) => render_error(query, &e),
            }
        },
    }
}

/// Renders the page for a whole request when no fetch was needed or its
/// outcome is at hand, exactly [`spec_handle`].
pub fn handle(query: Option<String>, outcome: FetchOutcome) -> (r: String)
    ensures
        r@ == spec_handle(
            match query {
                None => None,
                Some(q) => Some(q@),
            },
            outcome@,
        ),
{
    match query {
        None => render_empty_state(),
        Some(q) => render_response(q.as_str(), outcome),
    }
}

/// Every request resolves to exactly one of the three views: the empty state
/// without a query, and with one the error view on a failed fetch or the
/// results view on a successful decode. There is no fourth path.
pub proof fn lemma_three_outcomes(q: Option<Seq<char>>, o: OutcomeView)
    ensures
        match q {
            None => spec_handle(q, o) == spec_empty_state(),
            Some(qs) => spec_handle(q, o) == (match spec_fetch_result(o) {
                Ok(rv) => spec_results_page(qs, rv),
                Err(ev) => spec_error_page(ev),
            }),
        },
{
}

/// With no query parameter the served page is the empty-state view, whatever
/// any upstream outcome would have been: no fetch can influence it.
pub proof fn lemma_no_query_is_empty_state(o1: OutcomeView, o2: OutcomeView)
    ensures
        spec_handle(None, o1) == spec_empty_state(),
        spec_handle(None, o1) == spec_handle(None, o2),
{
}

/// A failed fetch always serves the error view carrying that failure, never
/// any results view.
pub proof fn lemma_failure_renders_error(q: Seq<char>, o: OutcomeView)
    requires
        spec_fetch_result(o) is Err,
    ensures
        spec_response(q, o) == spec_error_page(spec_fetch_result(o)->Err_0),
{
}

/// The pipeline is deterministic: the same query and an unchanged upstream
/// reply give the byte-identical page.
pub proof fn lemma_same_reply_same_page(
    q1: Seq<char>,
    o1: OutcomeView,
    q2: Seq<char>,
    o2: OutcomeView,
)
    requires
        q1 == q2,
        o1 == o2,
    ensures
        spec_response(q1, o1) == spec_response(q2, o2),
{
}

} // verus!

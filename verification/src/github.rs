//! The typed shape of an upstream search response, and the error taxonomy of
//! the fetch-and-decode pipeline.

use vstd::prelude::*;

verus! {

/// One entry of an upstream response, reduced to the fields the pages consume.
pub struct Item {
    /// Upstream identifier of the entry.
    pub id: i64,
    /// Human-readable title, rendered escaped on the results page.
    pub title: String,
    /// The canonical web-viewable link, used as an anchor target.
    pub url: String,
}

/// Mathematical view of an [`Item`].
pub struct ItemView {
    pub id: int,
    pub title: Seq<char>,
    pub url: Seq<char>,
}

impl View for Item {
    type V = ItemView;

    open spec fn view(&self) -> ItemView {
        ItemView { id: self.id as int, title: self.title@, url: self.url@ }
    }
}

/// A decoded upstream response: a reported total and the returned entries.
///
/// The two can disagree (the upstream may report more matches than it
/// returns); the views trust `items`, not `total_count`, to decide whether
/// anything was found.
pub struct Root {
    /// The total number of matches the upstream reports.
    pub total_count: i64,
    /// The returned entries, in upstream order.
    pub items: Vec<Item>,
}

/// Mathematical view of a [`Root`].
pub struct RootView {
    pub total_count: int,
    pub items: Seq<ItemView>,
}

impl View for Root {
    type V = RootView;

    open spec fn view(&self) -> RootView {
        RootView { total_count: self.total_count as int, items: self.items@.map_values(|it: Item| it@) }
    }
}

/// Everything that can go wrong between sending the upstream request and
/// holding a decoded [`Root`]. All variants are surfaced to the user as
/// rendered text; none is fatal.
#[derive(Debug)]
pub enum SearchError {
    /// The upstream answered with a payload not declared as JSON; the raw body
    /// text is kept for diagnostics.
    UnexpectedContentType(String),
    /// The payload was JSON-typed but malformed, or did not match the expected
    /// shape; the cause text is kept.
    DecodeFailed(String),
    /// The network call itself failed; the cause text is kept.
    Transport(String),
}

/// Mathematical view of a [`SearchError`].
pub enum SearchErrorView {
    UnexpectedContentType(Seq<char>),
    DecodeFailed(Seq<char>),
    Transport(Seq<char>),
}

impl View for SearchError {
    type V = SearchErrorView;

    open spec fn view(&self) -> SearchErrorView {
        match self {
            SearchError::UnexpectedContentType(b) => SearchErrorView::UnexpectedContentType(b@),
            SearchError::DecodeFailed(c) => SearchErrorView::DecodeFailed(c@),
            SearchError::Transport(c) => SearchErrorView::Transport(c@),
        }
    }
}

/// The user-facing description of an error: a fixed label per variant,
/// followed by the diagnostic payload.
pub open spec fn spec_describe(e: SearchErrorView) -> Seq<char> {
    match e {
        SearchErrorView::UnexpectedContentType(b) => "upstream sent a non-JSON response: "@ + b,
        SearchErrorView::DecodeFailed(c) => "upstream response could not be decoded: "@ + c,
        SearchErrorView::Transport(c) => "could not reach the upstream service: "@ + c,
    }
}

impl SearchError {
    /// The human-readable description rendered on the error page.
    pub fn describe(&self) -> (r: String)
        ensures
            r@ == spec_describe(self@),
    {
        let mut s = String::new();
        match self {
            SearchError::UnexpectedContentType(b) => {
                s.append("upstream sent a non-JSON response: ");
                s.append(b.as_str());
            },
            SearchError::DecodeFailed(c) => {
                s.append("upstream response could not be decoded: ");
                s.append(c.as_str());
            },
            SearchError::Transport(c) => {
                s.append("could not reach the upstream service: ");
                s.append(c.as_str());
            },
        }
        s
    }
}

} // verus!

//! The compute half of the upstream client: building the outbound request
//! from the raw query, and interpreting what came back — content-type gate,
//! decode, and the full error taxonomy. The one network call itself is
//! performed by the host process, which hands the reply here as plain values.

use vstd::prelude::*;
use crate::github::{Root, RootView, SearchError, SearchErrorView};
use crate::json::{decode_reply, json_doc, spec_decode_root};

verus! {

/// The fixed upstream search endpoint with the raw query interpolated
/// verbatim into the query parameter.
pub open spec fn spec_request_url(q: Seq<char>) -> Seq<char> {
    "https://api.github.com/search/issues?q="@ + q
}

/// Builds the outbound request target, exactly [`spec_request_url`]: no
/// encoding or normalization beyond what the transport performs itself.
pub fn request_url(query: &str) -> (r: String)
    ensures
        r@ == spec_request_url(query@),
{
    let mut r = String::from_str("https://api.github.com/search/issues?q=");
    r.append(query);
    r
}

/// The identifying client label sent as a request header with every outbound
/// call.
pub fn client_label() -> (r: String)
    ensures
        r@ == "my-search"@,
{
    String::from_str("my-search")
}

/// Whether a declared content type announces a JSON payload.
pub open spec fn spec_is_json_content_type(ct: Seq<char>) -> bool {
    "application/json"@.is_prefix_of(ct)
}

fn is_json_content_type(ct: &str) -> (b: bool)
    ensures
        b == spec_is_json_content_type(ct@),
{
    let p = "application/json";
    let plen = p.unicode_len();
    let clen = ct.unicode_len();
    if clen < plen {
        return false;
    }
    let mut i: usize = 0;
    while i < plen
        invariant
            i <= plen,
            p@ == "application/json"@,
            plen == "application/json"@.len(),
            clen == ct@.len(),
            plen <= clen,
            forall|j: int| 0 <= j < i ==> ct@[j] == "application/json"@[j],
        decreases plen - i,
    {
        if ct.get_char(i) != p.get_char(i) {
            proof {
                assert(!spec_is_json_content_type(ct@)) by {
                    if "application/json"@.is_prefix_of(ct@) {
                        assert("application/json"@[i as int] == ct@.subrange(
                            0,
                            "application/json"@.len() as int,
                        )[i as int]);
                    }
                }
            }
            return false;
        }
        i = i + 1;
    }
    proof {
        assert("application/json"@ =~= ct@.subrange(0, "application/json"@.len() as int));
    }
    true
}

/// Everything the host hands back for one outbound call: either the network
/// failure's description, or the reply's declared content type and body text.
pub enum FetchOutcome {
    Transport(String),
    Reply { content_type: Option<String>, body: String },
}

/// Mathematical view of a [`FetchOutcome`].
pub enum OutcomeView {
    Transport(Seq<char>),
    Reply { content_type: Option<Seq<char>>, body: Seq<char> },
}

/// The view of an optional text.
pub open spec fn spec_opt_text(o: Option<String>) -> Option<Seq<char>> {
    match o {
        None => None,
        Some(c) => Some(c@),
    }
}

impl View for FetchOutcome {
    type V = OutcomeView;

    open spec fn view(&self) -> OutcomeView {
        match self {
            FetchOutcome::Transport(m) => OutcomeView::Transport(m@),
            FetchOutcome::Reply { content_type, body } => OutcomeView::Reply {
                content_type: spec_opt_text(*content_type),
                body: body@,
            },
        }
    }
}

/// Whether a reply's declared content type lets the decode proceed: an absent
/// declaration does, a present one only when it announces JSON.
pub open spec fn spec_ct_ok(ct: Option<Seq<char>>) -> bool {
    match ct {
        None => true,
        Some(c) => spec_is_json_content_type(c),
    }
}

/// The diagnostic kept when valid JSON does not match the reply shape.
pub open spec fn spec_shape_error_text() -> Seq<char> {
    "upstream response did not match the expected shape"@
}

/// What one outbound call's outcome means: the decoded model on success, and
/// otherwise exactly one error of the taxonomy — transport failure, non-JSON
/// content type (keeping the raw body), JSON parse failure (keeping the
/// parser's diagnostic), or shape mismatch.
pub open spec fn spec_fetch_result(o: OutcomeView) -> Result<RootView, SearchErrorView> {
    match o {
        OutcomeView::Transport(m) => Err(SearchErrorView::Transport(m)),
        OutcomeView::Reply { content_type, body } => if !spec_ct_ok(content_type) {
            Err(SearchErrorView::UnexpectedContentType(body))
        } else {
            match json_doc(body) {
                Err(m) => Err(SearchErrorView::DecodeFailed(m)),
                Ok(v) => match spec_decode_root(v) {
                    None => Err(SearchErrorView::DecodeFailed(spec_shape_error_text())),
                    Some(rv) => Ok(rv),
                },
            }
        },
    }
}

/// The view of a decode result.
pub open spec fn spec_result_view(r: Result<Root, SearchError>) -> Result<
    RootView,
    SearchErrorView,
> {
    match r {
        Ok(x) => Ok(x@),
        Err(e) => Err(e@),
    }
}

/// Interprets one reply, exactly [`spec_fetch_result`] on a received reply:
/// `Ok` with the decoded model if and only if the content type passes and the
/// body decodes, and otherwise the one error the taxonomy assigns.
pub fn interpret_response(content_type: Option<String>, body: String) -> (r: Result<
    Root,
    SearchError,
>)
    ensures
        spec_result_view(r) == spec_fetch_result(
            OutcomeView::Reply { content_type: spec_opt_text(content_type), body: body@ },
        ),
{
    let ct_ok: bool = match &content_type {
        None => true,
        Some(c) => is_json_content_type(c.as_str()),
    };
    if !ct_ok {
        return Err(SearchError::UnexpectedContentType(body));
    }
    match decode_reply(body.as_str()) {
        Err(e) => Err(SearchError::DecodeFailed(e)),
        Ok(None) => Err(
            SearchError::DecodeFailed(
                String::from_str("upstream response did not match the expected shape"),
            ),
        ),
        Ok(Some(root)) => Ok(root),
    }
}

} // verus!

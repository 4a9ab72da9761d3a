//! Markup building: escaping of untrusted text, and the page chrome that
//! wraps every view in the same header and footer.

use vstd::prelude::*;

verus! {

/// How one character is escaped into markup-safe text: the four
/// markup-significant characters become entities, every other character
/// stands as itself.
pub open spec fn spec_escape_char(c: char) -> Seq<char> {
    if c == '&' {
        seq!['&', 'a', 'm', 'p', ';']
    } else if c == '<' {
        seq!['&', 'l', 't', ';']
    } else if c == '>' {
        seq!['&', 'g', 't', ';']
    } else if c == '"' {
        seq!['&', 'q', 'u', 'o', 't', ';']
    } else {
        seq![c]
    }
}

/// Escaping of a whole text: each character escaped, in order.
pub open spec fn spec_escape(s: Seq<char>) -> Seq<char>
    decreases s.len(),
{
    if s.len() == 0 {
        Seq::empty()
    } else {
        spec_escape(s.drop_last()) + spec_escape_char(s.last())
    }
}

/// Escapes untrusted text for inclusion in markup, exactly [`spec_escape`].
pub fn escape(s: &str) -> (r: String)
    ensures
        r@ == spec_escape(s@),
{
    let len = s.unicode_len();
    let mut r = String::new();
    let mut i: usize = 0;
    while i < len
        invariant
            i <= len,
            len == s@.len(),
            r@ == spec_escape(s@.take(i as int)),
        decreases len - i,
    {
        let c = s.get_char(i);
        if c == '&' {
            r.append("&amp;");
            proof {
                reveal_strlit("&amp;");
            }
        } else if c == '<' {
            r.append("&lt;");
            proof {
                reveal_strlit("&lt;");
            }
        } else if c == '>' {
            r.append("&gt;");
            proof {
                reveal_strlit("&gt;");
            }
        } else if c == '"' {
            r.append("&quot;");
            proof {
                reveal_strlit("&quot;");
            }
        } else {
            let piece = s.substring_char(i, i + 1);
            r.append(piece);
            proof {
                assert(piece@ =~= seq![c]);
            }
        }
        proof {
            assert(s@.take(i + 1 as int).drop_last() =~= s@.take(i as int));
            assert(s@.take(i + 1 as int).last() == c);
            assert(r@ =~= spec_escape(s@.take(i + 1 as int)));
        }
        i = i + 1;
    }
    proof {
        assert(s@.take(len as int) =~= s@);
    }
    r
}

/// Escaped text is inert in markup: whatever the input held, no tag can open
/// or close and no attribute value can end inside it, because no `<`, `>` or
/// `"` survives escaping.
pub proof fn lemma_escape_is_markup_inert(s: Seq<char>)
    ensures
        forall|i: int|
            0 <= i < spec_escape(s).len() ==> (#[trigger] spec_escape(s)[i]) != '<' && spec_escape(
                s,
            )[i] != '>' && spec_escape(s)[i] != '"',
    decreases s.len(),
{
    if s.len() > 0 {
        lemma_escape_is_markup_inert(s.drop_last());
        let prefix = spec_escape(s.drop_last());
        let piece = spec_escape_char(s.last());
        assert forall|i: int|
            0 <= i < spec_escape(s).len() implies (#[trigger] spec_escape(s)[i]) != '<'
            && spec_escape(s)[i] != '>' && spec_escape(s)[i] != '"' by {
            if i < prefix.len() {
                assert(spec_escape(s)[i] == prefix[i]);
            } else {
                assert(spec_escape(s)[i] == piece[i - prefix.len()]);
            }
        }
    }
}

proof fn lemma_escape_unfold_first(s: Seq<char>)
    requires
        s.len() > 0,
    ensures
        spec_escape(s) == spec_escape_char(s.first()) + spec_escape(s.drop_first()),
    decreases s.len(),
{
    if s.len() == 1 {
        assert(s.drop_last() =~= Seq::<char>::empty());
        assert(s.drop_first() =~= Seq::<char>::empty());
        assert(spec_escape(s) =~= spec_escape_char(s.first()) + spec_escape(s.drop_first()));
    } else {
        lemma_escape_unfold_first(s.drop_last());
        assert(s.drop_last().drop_first() =~= s.drop_first().drop_last());
        assert(s.drop_first().last() == s.last());
        assert(spec_escape(s.drop_first()) == spec_escape(s.drop_first().drop_last())
            + spec_escape_char(s.drop_first().last()));
        assert(spec_escape(s) =~= spec_escape_char(s.first()) + spec_escape(s.drop_first()));
    }
}

/// Escaping loses nothing: two texts with the same escaped form were the same
/// text, so escaped output displays exactly the literal input.
pub proof fn lemma_escape_faithful(s1: Seq<char>, s2: Seq<char>)
    requires
        spec_escape(s1) == spec_escape(s2),
    ensures
        s1 == s2,
    decreases s1.len(),
{
    if s1.len() == 0 && s2.len() == 0 {
        assert(s1 =~= s2);
    } else if s1.len() == 0 {
        lemma_escape_unfold_first(s2);
        assert(spec_escape(s2).len() > 0);
        assert(spec_escape(s1).len() == 0);
    } else if s2.len() == 0 {
        lemma_escape_unfold_first(s1);
        assert(spec_escape(s1).len() > 0);
        assert(spec_escape(s2).len() == 0);
    } else {
        lemma_escape_unfold_first(s1);
        lemma_escape_unfold_first(s2);
        let c1 = s1.first();
        let c2 = s2.first();
        let p1 = spec_escape_char(c1);
        let p2 = spec_escape_char(c2);
        let t = spec_escape(s1);
        assert(t[0] == p1[0]);
        assert(t[0] == p2[0]);
        // A character that needs no escaping is not '&', so the first output
        // character says which kind the first input character was; for the
        // escaped kind, the second output character tells the four apart.
        if c1 == '&' || c1 == '<' || c1 == '>' || c1 == '"' {
            assert(p1[0] == '&');
            assert(p2[0] == '&');
            assert(c2 == '&' || c2 == '<' || c2 == '>' || c2 == '"');
            assert(t[1] == p1[1]);
            assert(t[1] == p2[1]);
            assert(c1 == c2);
        } else {
            assert(p1[0] == c1);
            assert(c1 != '&');
            assert(!(c2 == '&' || c2 == '<' || c2 == '>' || c2 == '"'));
            assert(c1 == c2);
        }
        let r1 = spec_escape(s1.drop_first());
        let r2 = spec_escape(s2.drop_first());
        assert(p1 == p2);
        assert(t == p1 + r1);
        assert(t == p2 + r2);
        assert((p1 + r1).len() == p1.len() + r1.len());
        assert((p2 + r2).len() == p2.len() + r2.len());
        assert(r1.len() == r2.len());
        assert forall|i: int| 0 <= i < r1.len() implies r1[i] == r2[i] by {
            assert(r1[i] == (p1 + r1)[p1.len() + i]);
            assert(r2[i] == (p2 + r2)[p2.len() + i]);
        }
        assert(r1 =~= r2);
        lemma_escape_faithful(s1.drop_first(), s2.drop_first());
        assert forall|i: int| 0 <= i < s1.len() implies s1[i] == s2[i] by {
            if i > 0 {
                assert(s1[i] == s1.drop_first()[i - 1]);
                assert(s2[i] == s2.drop_first()[i - 1]);
            }
        }
        assert(s1 =~= s2);
    }
}

/// The opening chrome of every page, with the escaped title in `<title>`.
pub open spec fn spec_header(title: Seq<char>) -> Seq<char> {
    "<!DOCTYPE html><html><head><meta charset=\"utf-8\"><link rel=\"stylesheet\" href=\"static/base.css\"><title>"@
        + spec_escape(title) + "</title></head><body>"@
}

/// The closing chrome of every page.
pub open spec fn spec_footer() -> Seq<char> {
    "<footer><a href=\"https://my-search.net\">my-search.net</a></footer></body></html>"@
}

/// A complete page: header, the given body, footer.
pub open spec fn spec_page(title: Seq<char>, body: Seq<char>) -> Seq<char> {
    spec_header(title) + body + spec_footer()
}

/// The not-found page body.
pub open spec fn spec_not_found() -> Seq<char> {
    spec_page("Not found"@, "<h1>404</h1><p>Not found</p>"@)
}

fn header(page_title: &str) -> (r: String)
    ensures
        r@ == spec_header(page_title@),
{
    let mut r = String::from_str(
        "<!DOCTYPE html><html><head><meta charset=\"utf-8\"><link rel=\"stylesheet\" href=\"static/base.css\"><title>",
    );
    r.append(escape(page_title).as_str());
    r.append("</title></head><body>");
    proof {
        assert(r@ =~= spec_header(page_title@));
    }
    r
}

fn footer() -> (r: String)
    ensures
        r@ == spec_footer(),
{
    String::from_str("<footer><a href=\"https://my-search.net\">my-search.net</a></footer></body></html>")
}

/// Wraps body markup in the shared page chrome, exactly [`spec_page`].
pub fn page(title: &str, page_contents: &str) -> (r: String)
    ensures
        r@ == spec_page(title@, page_contents@),
{
    let mut r = header(title);
    r.append(page_contents);
    r.append(footer().as_str());
    proof {
        assert(r@ =~= spec_page(title@, page_contents@));
    }
    r
}

/// The page served for any path that matches nothing, exactly
/// [`spec_not_found`].
pub fn not_found() -> (r: String)
    ensures
        r@ == spec_not_found(),
{
    page("Not found", "<h1>404</h1><p>Not found</p>")
}

} // verus!

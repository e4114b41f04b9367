use vstd::prelude::*;
use select::predicate::{Class, Name, Predicate};
use crate::mapper::{
    attr_spec, attr_value, node_to_article, nodes_view, scraped_batch, scraped_skips,
};
use crate::types::{results_view, Field, LookupError, ResultNode, ResultNodeView, SearchResult, SearchResultView};

verus! {

/// At most this many result nodes of a page are mapped.
pub const SCRAPE_CAP: usize = 10;

/// What `urlencoding::encode` makes of a text.
pub uninterp spec fn url_encoded(s: Seq<char>) -> Seq<char>;

/// A character that percent-encoding leaves as it is.
pub open spec fn url_safe(c: char) -> bool {
    ('0' <= c && c <= '9') || ('A' <= c && c <= 'Z') || ('a' <= c && c <= 'z') || c == '-' || c
        == '.' || c == '_' || c == '~'
}

/// Relies on `urlencoding::encode`: percent-encodes the UTF-8 bytes of `s`
/// but for ASCII alphanumerics and `-`, `_`, `.`, `~`, so a text of those
/// alone comes back unchanged.
#[verifier::external_body]
pub(crate) fn url_encode(s: &str) -> (r: String)
    ensures
        r@ == url_encoded(s@),
        (forall|i: int| 0 <= i < s@.len() ==> url_safe(#[trigger] s@[i])) ==> r@ == s@,
{
    urlencoding::encode(s).into_owned()
}

/// What select makes of a page: for each `tag` element inside an element of
/// class `class`, in document order, its attributes and those of each `inner`
/// element inside it.
pub uninterp spec fn html_find(html: Seq<char>, class: Seq<char>, tag: Seq<char>, inner: Seq<char>) -> Seq<ResultNodeView>;

/// Relies on select: `Document::from(&str)` (an HTML5 parse, which never
/// fails), `Document::find` with `Class(class).descendant(Name(tag))`
/// (matches in document order), `Node::attrs` (an element's attributes in
/// source order) and `Node::find(Name(inner))` on each match.
#[verifier::external_body]
pub(crate) fn find_nodes(html: &str, class: &str, tag: &str, inner: &str) -> (r: Vec<ResultNode>)
    ensures
        nodes_view(r@) == html_find(html@, class@, tag@, inner@),
{
    let doc = select::document::Document::from(html);
    let attrs = |n: select::node::Node| -> Vec<(String, String)> {
        n.attrs().map(|(k, v)| (k.to_string(), v.to_string())).collect()
    };
    doc.find(Class(class).descendant(Name(tag)))
        .map(|n| ResultNode::new(attrs(n), n.find(Name(inner)).map(attrs).collect()))
        .collect()
}

/// The search page's url: `{base}/search/{encoded query}/`.
pub open spec fn search_url_spec(base: Seq<char>, query: Seq<char>) -> Seq<char> {
    base + "/search/"@ + url_encoded(query) + "/"@
}

pub fn search_page_url(base: &str, query: &str) -> (r: String)
    ensures
        r@ == search_url_spec(base@, query@),
{
    let mut url = base.to_owned();
    url.append("/search/");
    let q = url_encode(query);
    url.append(q.as_str());
    url.append("/");
    url
}

/// A node carries the film-name marker.
pub open spec fn has_film_name(n: ResultNodeView) -> bool {
    attr_spec(n.attrs, "data-film-name"@) is Some
}

/// The nodes that carry the film-name marker, in order.
pub open spec fn film_nodes(nodes: Seq<ResultNodeView>) -> Seq<ResultNodeView>
    decreases nodes.len(),
{
    if nodes.len() == 0 {
        Seq::empty()
    } else {
        let prev = film_nodes(nodes.drop_last());
        if has_film_name(nodes.last()) {
            prev.push(nodes.last())
        } else {
            prev
        }
    }
}

/// The first `SCRAPE_CAP` marked nodes.
pub open spec fn candidates(nodes: Seq<ResultNodeView>) -> Seq<ResultNodeView> {
    let f = film_nodes(nodes);
    if f.len() <= SCRAPE_CAP {
        f
    } else {
        f.take(SCRAPE_CAP as int)
    }
}

/// The results a search page yields.
pub open spec fn page_results(base: Seq<char>, page: Seq<char>) -> Seq<SearchResultView> {
    scraped_batch(base, candidates(html_find(page, "results"@, "div"@, "img"@)))
}

/// A batch has no more results than nodes.
pub proof fn lemma_scraped_batch_len(base: Seq<char>, nodes: Seq<ResultNodeView>)
    ensures
        scraped_batch(base, nodes).len() <= nodes.len(),
    decreases nodes.len(),
{
    if nodes.len() > 0 {
        lemma_scraped_batch_len(base, nodes.drop_last());
    }
}

/// Maps the result nodes of a page: the first `SCRAPE_CAP` nodes that carry
/// the film-name marker, in order; nodes that lack a required field are
/// dropped.
pub fn page_articles(base: &str, nodes: &Vec<ResultNode>) -> (r: (Vec<SearchResult>, Vec<Field>))
    ensures
        results_view(r.0@) == scraped_batch(base@, candidates(nodes_view(nodes@))),
        r.0@.len() <= SCRAPE_CAP,
        r.1@ == scraped_skips(base@, candidates(nodes_view(nodes@))),
{
    let ghost nv = nodes_view(nodes@);
    let mut out: Vec<SearchResult> = Vec::new();
    let mut skipped: Vec<Field> = Vec::new();
    let mut count: usize = 0;
    let mut i: usize = 0;
    while i < nodes.len()
        invariant
            i <= nodes.len(),
            nv == nodes_view(nodes@),
            count <= SCRAPE_CAP,
            count == film_nodes(nv.take(i as int)).len() || (count == SCRAPE_CAP
                && film_nodes(nv.take(i as int)).len() >= SCRAPE_CAP),
            results_view(out@) == scraped_batch(base@, film_nodes(nv.take(i as int)).take(count as int)),
            skipped@ == scraped_skips(base@, film_nodes(nv.take(i as int)).take(count as int)),
        decreases nodes.len() - i,
    {
        let ghost cands = film_nodes(nv.take(i as int));
        let ghost before = out@;
        let ghost n = nv[i as int];
        assert(nv.take(i + 1).drop_last() =~= nv.take(i as int));
        assert(nv.take(i + 1).last() == n);
        assert(n == nodes@[i as int]@);
        if attr_value(&nodes[i].attrs, "data-film-name").is_some() {
            assert(film_nodes(nv.take(i + 1)) == cands.push(n));
            if count < SCRAPE_CAP {
                let ghost taken = cands.push(n).take(count + 1);
                assert(taken =~= cands.take(count as int).push(n));
                assert(taken.drop_last() =~= cands.take(count as int));
                match node_to_article(base, &nodes[i]) {
                    Ok(res) => {
                        out.push(res);
                        assert(results_view(out@) =~= results_view(before).push(res@));
                    },
                    Err(LookupError::MissingField(f)) => skipped.push(f),
                    Err(_) => {},
                }
                count = count + 1;
            } else {
                assert(cands.push(n).take(count as int) =~= cands.take(count as int));
            }
        }
        i = i + 1;
    }
    assert(nv.take(nodes.len() as int) =~= nv);
    proof {
        let f = film_nodes(nv);
        if f.len() <= SCRAPE_CAP {
            assert(f.take(count as int) =~= f);
        }
        assert(f.take(count as int) == candidates(nv));
        lemma_scraped_batch_len(base@, film_nodes(nv).take(count as int));
    }
    (out, skipped)
}

/// Maps the result nodes of a search page: the first ten `div`s inside the
/// `results` region that carry the film-name marker, in document order;
/// nodes that lack a required field are dropped, and the field each lacked
/// is handed back beside the results.
pub fn search(base: &str, page: &str) -> (r: (Vec<SearchResult>, Vec<Field>))
    ensures
        results_view(r.0@) == page_results(base@, page@),
        r.0@.len() <= SCRAPE_CAP,
        r.1@ == scraped_skips(base@, candidates(html_find(page@, "results"@, "div"@, "img"@))),
{
    let nodes = find_nodes(page, "results", "div", "img");
    page_articles(base, &nodes)
}

} // verus!

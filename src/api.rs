use vstd::prelude::*;
use crate::mapper::{api_articles, api_batch, api_skips, items_view};
use crate::scrape::{url_encode, url_encoded};
use crate::signer::{digit_str, hex_digits, sign, signature};
use crate::types::{results_view, ApiFilmView, Field, ApiItem, LookupError, SearchResult, SearchResultView};

verus! {

/// Results asked of the catalog API per request, and the most kept.
pub const API_CAP: usize = 5;

/// The parameters of one signed API request. The nonce and the timestamp are
/// made afresh for every request.
pub struct SignedRequestParams {
    pub api_key: String,
    pub nonce: String,
    pub timestamp: u64,
    pub query: String,
}

/// A lower-case hexadecimal digit.
pub open spec fn is_lower_hex(c: char) -> bool {
    ('0' <= c && c <= '9') || ('a' <= c && c <= 'f')
}

/// The hyphenated text form of a UUID: 36 characters, lower-case hex digits
/// with hyphens at 8, 13, 18 and 23. It needs no percent-encoding in a url.
pub open spec fn is_uuid_text(s: Seq<char>) -> bool {
    &&& s.len() == 36
    &&& forall|i: int|
        0 <= i < 36 ==> if i == 8 || i == 13 || i == 18 || i == 23 {
            s[i] == '-'
        } else {
            is_lower_hex(#[trigger] s[i])
        }
}

/// Relies on uuid's `Uuid::new_v4` and the `Display` of `Hyphenated`
/// (`format_hyphenated`, lower case): a random UUID in its hyphenated form.
#[verifier::external_body]
fn new_nonce() -> (r: String)
    ensures
        is_uuid_text(r@),
{
    uuid::Uuid::new_v4().hyphenated().to_string()
}

/// Fresh parameters for a request on `query` at `timestamp` (seconds since
/// the epoch): the nonce is a new random UUID on every call.
pub fn new_params(api_key: &str, query: &str, timestamp: u64) -> (r: SignedRequestParams)
    ensures
        r.api_key@ == api_key@,
        r.query@ == query@,
        r.timestamp == timestamp,
        is_uuid_text(r.nonce@),
{
    SignedRequestParams {
        api_key: api_key.to_owned(),
        nonce: new_nonce(),
        timestamp,
        query: query.to_owned(),
    }
}

/// Decimal digits of a number, most significant first.
pub open spec fn decimal_of(n: nat) -> Seq<char>
    decreases n,
{
    if n < 10 {
        seq![hex_digits()[n as int]]
    } else {
        decimal_of(n / 10) + seq![hex_digits()[(n % 10) as int]]
    }
}

pub fn decimal(n: u64) -> (r: String)
    ensures
        r@ == decimal_of(n as nat),
    decreases n,
{
    if n < 10 {
        digit_str(n as u8).to_owned()
    } else {
        let mut s = decimal(n / 10);
        s.append(digit_str((n % 10) as u8));
        s
    }
}

/// `{base}/search?apikey=..&nonce=..&timestamp=..&input=..&perPage=5`, the
/// parameters in this order and the query percent-encoded.
pub open spec fn unsigned_url_spec(base: Seq<char>, key: Seq<char>, nonce: Seq<char>, ts: nat, query: Seq<char>) -> Seq<char> {
    base + "/search?apikey="@ + key + "&nonce="@ + nonce + "&timestamp="@ + decimal_of(ts)
        + "&input="@ + url_encoded(query) + "&perPage=5"@
}

/// The request url without its signature.
pub fn unsigned_url(base: &str, p: &SignedRequestParams) -> (r: String)
    ensures
        r@ == unsigned_url_spec(base@, p.api_key@, p.nonce@, p.timestamp as nat, p.query@),
{
    let mut url = base.to_owned();
    url.append("/search?apikey=");
    url.append(p.api_key.as_str());
    url.append("&nonce=");
    url.append(p.nonce.as_str());
    url.append("&timestamp=");
    let ts = decimal(p.timestamp);
    url.append(ts.as_str());
    url.append("&input=");
    let q = url_encode(p.query.as_str());
    url.append(q.as_str());
    url.append("&perPage=5");
    url
}

/// The string a signature covers: `GET`, NUL, the url, NUL.
pub open spec fn canonical_spec(url: Seq<char>) -> Seq<char> {
    "GET"@ + "\0"@ + url + "\0"@
}

pub fn canonical(url: &str) -> (r: String)
    ensures
        r@ == canonical_spec(url@),
{
    let mut s = "GET".to_owned();
    s.append("\0");
    s.append(url);
    s.append("\0");
    s
}

/// The signed request url: the unsigned url with `&signature=<hex>` appended.
pub open spec fn signed_url_spec(base: Seq<char>, secret: Seq<u8>, key: Seq<char>, nonce: Seq<char>, ts: nat, query: Seq<char>) -> Seq<char> {
    let url = unsigned_url_spec(base, key, nonce, ts, query);
    url + "&signature="@ + signature(secret, canonical_spec(url))
}

/// Builds the signed request url; an empty secret cannot sign.
pub fn signed_url(base: &str, secret: &[u8], p: &SignedRequestParams) -> (r: Result<String, LookupError>)
    ensures
        secret@.len() == 0 <==> r is Err,
        r matches Err(e) ==> e == LookupError::Signing,
        r matches Ok(u) ==> u@ == signed_url_spec(
            base@,
            secret@,
            p.api_key@,
            p.nonce@,
            p.timestamp as nat,
            p.query@,
        ),
{
    let mut url = unsigned_url(base, p);
    let c = canonical(url.as_str());
    match sign(secret, c.as_str()) {
        Ok(sig) => {
            url.append("&signature=");
            url.append(sig.as_str());
            Ok(url)
        },
        Err(e) => Err(e),
    }
}

/// A signed url is a function of its inputs alone: two requests built from
/// equal parameters under equal secrets carry the same signature.
pub proof fn lemma_signed_url_deterministic(
    base: Seq<char>,
    secret1: Seq<u8>,
    secret2: Seq<u8>,
    key: Seq<char>,
    nonce: Seq<char>,
    ts: nat,
    query: Seq<char>,
)
    requires
        secret1 == secret2,
    ensures
        signed_url_spec(base, secret1, key, nonce, ts, query) == signed_url_spec(
            base,
            secret2,
            key,
            nonce,
            ts,
            query,
        ),
{
}

/// The results of an API response: its items mapped, at most `API_CAP`.
pub open spec fn api_results_spec(items: Seq<Option<ApiFilmView>>) -> Seq<SearchResultView> {
    let all = api_batch(items);
    if all.len() <= API_CAP {
        all
    } else {
        all.take(API_CAP as int)
    }
}

/// Maps the items of an API response; at most `API_CAP` results, in order,
/// and beside them the field each dropped film lacked.
pub fn api_results(items: &Vec<ApiItem>) -> (r: (Vec<SearchResult>, Vec<Field>))
    ensures
        results_view(r.0@) == api_results_spec(items_view(items@)),
        r.0@.len() <= API_CAP,
        r.1@ == api_skips(items_view(items@)),
{
    let (mut out, skipped) = api_articles(items);
    out.truncate(API_CAP);
    assert(results_view(out@) =~= api_results_spec(items_view(items@)));
    (out, skipped)
}

} // verus!

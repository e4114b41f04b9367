use vstd::prelude::*;
use crate::api::{is_uuid_text, new_params, signed_url, signed_url_spec};
use crate::scrape::{search_page_url, search_url_spec};
use crate::types::{results_view, InlineQuery, LookupError, SearchResult};

verus! {

/// Seconds a lookup may take before its query is answered with no results.
pub const LOOKUP_TIMEOUT_SECS: u64 = 5;

/// An inbound update of the chat platform, as far as dispatch cares.
pub enum Update {
    InlineQuery(InlineQuery),
    Message(String),
    Other,
}

/// What the loop does with an update.
pub enum Action {
    /// Spawn an independent, time-bounded lookup for this query.
    Lookup(InlineQuery),
    /// Reply to a plain message with this text.
    ReplyText(String),
    /// Nothing.
    Ignore,
}

/// The fixed reply to plain messages.
pub open spec fn usage_spec() -> Seq<char> {
    "Hi, I am an inline Telegram Bot, I don't respond to commands, you can use me to search films on Letterboxd: start a message tagging me followed by the film you want to search, ex: @lbdSBot Lord of the rings"@
}

pub fn usage_text() -> (r: String)
    ensures
        r@ == usage_spec(),
{
    "Hi, I am an inline Telegram Bot, I don't respond to commands, you can use me to search films on Letterboxd: start a message tagging me followed by the film you want to search, ex: @lbdSBot Lord of the rings".to_owned()
}

/// Decides what to do with one update: inline queries get a lookup, plain
/// messages the usage text, anything else is ignored.
pub fn on_update(update: Update) -> (r: Action)
    ensures
        match update {
            Update::InlineQuery(q) => r matches Action::Lookup(q2) && q2.id@ == q.id@ && q2.text@
                == q.text@,
            Update::Message(_) => r matches Action::ReplyText(t) && t@ == usage_spec(),
            Update::Other => r is Ignore,
        },
{
    match update {
        Update::InlineQuery(q) => Action::Lookup(q),
        Update::Message(_) => Action::ReplyText(usage_text()),
        Update::Other => Action::Ignore,
    }
}

/// How a per-query lookup ended.
pub enum LookupOutcome {
    /// The strategy returned within the bound.
    Finished(Result<Vec<SearchResult>, LookupError>),
    /// The bound passed first; the lookup was abandoned.
    TimedOut,
}

/// The list forwarded to the reply sink: the strategy's list, in its order,
/// when it succeeded in time; an empty list after an error or a timeout.
pub fn reply_for(outcome: LookupOutcome) -> (r: Vec<SearchResult>)
    ensures
        match outcome {
            LookupOutcome::Finished(Ok(v)) => results_view(r@) == results_view(v@),
            _ => r@.len() == 0,
        },
{
    match outcome {
        LookupOutcome::Finished(Ok(v)) => v,
        _ => Vec::new(),
    }
}

/// A transport answer with this status is usable: 2xx only.
pub fn check_status(status: u16) -> (r: Result<(), LookupError>)
    ensures
        r is Ok <==> 200 <= status < 300,
        r matches Err(e) ==> e == LookupError::Network,
{
    if 200 <= status && status < 300 {
        Ok(())
    } else {
        Err(LookupError::Network)
    }
}

/// The configured lookup strategy.
pub enum Strategy {
    /// Scrape the catalog's search page under `base`.
    Scrape { base: String },
    /// Call the catalog API under `base`, signing with `secret`.
    SignedApi { base: String, api_key: String, secret: Vec<u8> },
}

impl Strategy {
    /// A signed strategy holds a secret that can sign.
    pub open spec fn wf(&self) -> bool {
        match self {
            Strategy::Scrape { .. } => true,
            Strategy::SignedApi { secret, .. } => secret@.len() > 0,
        }
    }

    pub fn scrape(base: &str) -> (r: Strategy)
        ensures
            r.wf(),
            r matches Strategy::Scrape { base: b } && b@ == base@,
    {
        Strategy::Scrape { base: base.to_owned() }
    }

    /// Configures the signed API strategy; refused with `Signing` at once
    /// when the secret is empty, so that no request is ever tried with it.
    pub fn signed_api(base: &str, api_key: &str, secret: Vec<u8>) -> (r: Result<Strategy, LookupError>)
        ensures
            r is Err <==> secret@.len() == 0,
            r matches Err(e) ==> e == LookupError::Signing,
            r matches Ok(s) ==> s.wf() && (s matches Strategy::SignedApi { base: b, api_key: k, secret: x }
                && b@ == base@ && k@ == api_key@ && x@ == secret@),
    {
        if secret.len() == 0 {
            Err(LookupError::Signing)
        } else {
            Ok(Strategy::SignedApi { base: base.to_owned(), api_key: api_key.to_owned(), secret })
        }
    }

    /// The most results this strategy hands back.
    pub fn cap(&self) -> (r: usize)
        ensures
            r == match self {
                Strategy::Scrape { .. } => crate::scrape::SCRAPE_CAP,
                Strategy::SignedApi { .. } => crate::api::API_CAP,
            },
    {
        match self {
            Strategy::Scrape { .. } => crate::scrape::SCRAPE_CAP,
            Strategy::SignedApi { .. } => crate::api::API_CAP,
        }
    }

    /// The url to fetch for a query at `now` (seconds since the epoch). The
    /// signed strategy draws a fresh nonce on every call.
    pub fn request_url(&self, query: &str, now: u64) -> (r: String)
        requires
            self.wf(),
        ensures
            match self {
                Strategy::Scrape { base } => r@ == search_url_spec(base@, query@),
                Strategy::SignedApi { base, api_key, secret } => exists|n: Seq<char>|
                    is_uuid_text(n) && r@ == #[trigger] signed_url_spec(
                        base@,
                        secret@,
                        api_key@,
                        n,
                        now as nat,
                        query@,
                    ),
            },
    {
        match self {
            Strategy::Scrape { base } => search_page_url(base.as_str(), query),
            Strategy::SignedApi { base, api_key, secret } => {
                let p = new_params(api_key.as_str(), query, now);
                match signed_url(base.as_str(), secret.as_slice(), &p) {
                    Ok(u) => {
                        assert(u@ == signed_url_spec(
                            base@,
                            secret@,
                            api_key@,
                            p.nonce@,
                            now as nat,
                            query@,
                        ));
                        u
                    },
                    Err(_) => String::new(),
                }
            },
        }
    }
}

} // verus!

//! Film lookup engine for an inline chat bot: two lookup strategies (a page
//! scrape and a signed catalog API call), the mapping of upstream records into
//! search results, request signing, and the per-query dispatch decisions.
pub mod types;
pub mod mapper;
pub mod scrape;
pub mod signer;
pub mod api;
pub mod dispatch;

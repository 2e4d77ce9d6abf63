//! Data carried between the worker and the coordinator.

use vstd::prelude::*;

verus! {

/// A coordinator-issued, time-bounded assignment of URLs to one worker.
pub struct Lease {
    pub lease_id: String,
    pub items: Vec<String>,
    pub ttl_s: u64,
}

/// The outcome of fetching one leased URL. A status of 0 stands for a
/// transport failure; any other value is the HTTP status code.
pub struct ResultItem {
    pub url: String,
    pub status: u16,
    pub bytes: Option<usize>,
    pub sha256: Option<String>,
    pub links: Option<Vec<String>>,
}

/// A batch of results reported back to the coordinator.
pub struct Submit {
    pub lease_id: String,
    pub worker_id: String,
    pub items: Vec<ResultItem>,
}

/// A lease that carries no work: empty id or no items.
pub open spec fn lease_is_empty(l: Lease) -> bool {
    l.lease_id@.len() == 0 || l.items@.len() == 0
}

/// Structural invariant on a fetch outcome: a fingerprint is present only
/// for successfully retrieved content, links only for HTML pages with at
/// least one link, and the byte count is always recorded.
pub open spec fn result_item_wf(r: ResultItem) -> bool {
    &&& r.sha256 is Some ==> r.status == 200
    &&& r.links is Some ==> r.status == 200 && r.sha256 is Some
    &&& r.links matches Some(ls) ==> ls@.len() > 0
    &&& r.bytes is Some
}

/// The synthesized failure outcome standing in for an item whose fetch
/// could not complete.
pub open spec fn is_placeholder_for(r: ResultItem, url: Seq<char>) -> bool {
    &&& r.url@ == url
    &&& r.status == 0
    &&& r.bytes == Some(0usize)
    &&& r.sha256 is None
    &&& r.links is None
}

/// Builds the placeholder outcome for a URL whose fetch could not complete.
pub fn placeholder(url: String) -> (r: ResultItem)
    ensures
        is_placeholder_for(r, url@),
        result_item_wf(r),
{
    ResultItem { url, status: 0, bytes: Some(0), sha256: None, links: None }
}

/// The empty lease, used where acquisition fails or the response decodes
/// badly: the caller treats it as "no work, retry later".
pub fn empty_lease() -> (l: Lease)
    ensures
        lease_is_empty(l),
{
    Lease { lease_id: String::new(), items: Vec::new(), ttl_s: 0 }
}

/// Decides whether a lease carries no work.
pub fn lease_empty(l: &Lease) -> (r: bool)
    ensures
        r == lease_is_empty(*l),
{
    l.lease_id.as_str().is_empty() || l.items.len() == 0
}

} // verus!

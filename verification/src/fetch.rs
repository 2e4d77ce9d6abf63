//! Per-response classification: the compute side of the fetch engine.
//!
//! The surrounding process performs the HTTP GET and hands the completed
//! response here; a request that could not complete at all is represented
//! by the placeholder outcome instead (see the model module).

use vstd::prelude::*;
use crate::digest::{sha256_hex, sha256_hex_of};
use crate::html::{
    content_type_is_html, extract_links, hrefs_of, indicates_html, MAX_HTML_BODY_BYTES,
};
use crate::model::{result_item_wf, ResultItem};

verus! {

/// Whether a completed response yields links: only a successfully
/// retrieved page whose content type indicates HTML, whose body is small
/// enough to parse, and with at least one extracted link, does.
pub open spec fn yields_links(status: u16, content_type: Option<Vec<u8>>, body: Seq<u8>) -> bool {
    &&& status == 200
    &&& content_type matches Some(ct) && indicates_html(ct@)
    &&& body.len() <= MAX_HTML_BODY_BYTES
    &&& hrefs_of(body).len() > 0
}

/// Classifies a completed HTTP response for one URL.
///
/// The byte count is always recorded; a fingerprint is computed exactly
/// for status 200; links are extracted exactly for a 200 response whose
/// content type indicates HTML and whose body is within the parser's size
/// cap, and recorded only when at least one link was found. Other statuses
/// carry neither fingerprint nor links, and a body over the cap is hashed
/// but deliberately not parsed.
pub fn classify_response(
    url: String,
    status: u16,
    body: Vec<u8>,
    content_type: Option<Vec<u8>>,
) -> (r: ResultItem)
    ensures
        r.url@ == url@,
        r.status == status,
        r.bytes matches Some(n) && n == body@.len(),
        r.sha256 is Some <==> status == 200,
        r.sha256 matches Some(h) ==> h@ == sha256_hex_of(body@) && h@.len() == 64,
        r.links is Some <==> yields_links(status, content_type, body@),
        r.links matches Some(ls) ==> ls.deep_view() == hrefs_of(body@),
        result_item_wf(r),
{
    let len = body.len();
    let mut sha: Option<String> = None;
    let mut links: Option<Vec<String>> = None;
    if status == 200 {
        sha = Some(sha256_hex(&body));
        let is_html = match &content_type {
            Some(ct) => content_type_is_html(ct),
            None => false,
        };
        if is_html && body.len() <= MAX_HTML_BODY_BYTES {
            let ls = extract_links(&body);
            if ls.len() > 0 {
                links = Some(ls);
            }
        }
    }
    ResultItem { url, status, bytes: Some(len), sha256: sha, links }
}

} // verus!

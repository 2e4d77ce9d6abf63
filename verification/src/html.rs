//! Deciding whether a response is HTML, and extracting its links.

use vstd::prelude::*;

verus! {

/// The ASCII lowercase of one byte.
pub open spec fn lower(b: u8) -> u8 {
    if 65 <= b && b <= 90 {
        (b + 32) as u8
    } else {
        b
    }
}

/// The marker whose presence makes a content type HTML: the bytes of
/// "text/html".
pub open spec fn html_marker() -> Seq<u8> {
    seq![116u8, 101u8, 120u8, 116u8, 47u8, 104u8, 116u8, 109u8, 108u8]
}

/// The marker occurs at position i of the header, compared
/// case-insensitively.
pub open spec fn marker_at(ct: Seq<u8>, i: int) -> bool {
    forall|j: int| 0 <= j < 9 ==> lower(ct[i + j]) == html_marker()[j]
}

/// A content-type header indicates HTML when it contains "text/html"
/// anywhere, case-insensitively.
pub open spec fn indicates_html(ct: Seq<u8>) -> bool {
    exists|i: int| 0 <= i && i + 9 <= ct.len() && marker_at(ct, i)
}

/// ASCII-lowercases one byte.
fn lower_byte(b: u8) -> (r: u8)
    ensures
        r == lower(b),
{
    if 65 <= b && b <= 90 {
        b + 32
    } else {
        b
    }
}

/// The j-th byte of the marker.
fn marker_byte(j: usize) -> (b: u8)
    requires
        j < 9,
    ensures
        b == html_marker()[j as int],
{
    match j {
        0 => 116,
        1 => 101,
        2 => 120,
        3 => 116,
        4 => 47,
        5 => 104,
        6 => 116,
        7 => 109,
        _ => 108,
    }
}

/// Compares the marker against the header at one position.
fn marker_match_at(ct: &Vec<u8>, i: usize) -> (r: bool)
    requires
        i + 9 <= ct@.len(),
    ensures
        r == marker_at(ct@, i as int),
{
    let n = ct.len();
    let mut j: usize = 0;
    while j < 9
        invariant
            n == ct@.len(),
            i + 9 <= n,
            j <= 9,
            forall|l: int| 0 <= l < j ==> lower(ct@[i + l]) == html_marker()[l],
        decreases 9 - j,
    {
        if lower_byte(ct[i + j]) != marker_byte(j) {
            assert(!marker_at(ct@, i as int));
            return false;
        }
        j = j + 1;
    }
    true
}

/// Decides whether content-type header bytes indicate HTML.
pub fn content_type_is_html(ct: &Vec<u8>) -> (r: bool)
    ensures
        r == indicates_html(ct@),
{
    let n = ct.len();
    if n < 9 {
        return false;
    }
    let mut i: usize = 0;
    while i <= n - 9
        invariant
            n == ct@.len(),
            9 <= n,
            i <= n,
            forall|k: int| 0 <= k < i ==> !marker_at(ct@, k),
        decreases n - i,
    {
        if marker_match_at(ct, i) {
            return true;
        }
        i = i + 1;
    }
    assert(!indicates_html(ct@));
    false
}

/// The largest body that is handed to the HTML parser, one third of
/// u32::MAX: the parser holds the document text in buffers indexed by 32
/// bits, and lossy decoding can expand an invalid byte to a three-byte
/// replacement character.
pub const MAX_HTML_BODY_BYTES: usize = 1431655765;

/// The href attributes of the anchor elements of a document, in document
/// order with duplicates kept, as the scraper crate parses it: a function
/// of the document bytes alone.
pub uninterp spec fn hrefs_of(body: Seq<u8>) -> Seq<Seq<char>>;

/// Relies on scraper::Html::parse_document and the selector "a": yields
/// each anchor element's href attribute in document order, keeping
/// duplicates and skipping anchors without one. The length bound keeps the
/// lossy-decoded text within the parser's 32-bit buffer limit, which it
/// would otherwise assert on.
#[verifier::external_body]
pub(crate) fn extract_links(body: &Vec<u8>) -> (r: Vec<String>)
    requires
        body@.len() <= MAX_HTML_BODY_BYTES,
    ensures
        r.deep_view() == hrefs_of(body@),
{
    let text = String::from_utf8_lossy(body.as_slice());
    let doc = scraper::Html::parse_document(&text);
    let sel = scraper::Selector::parse("a").unwrap();
    let mut out: Vec<String> = Vec::new();
    for a in doc.select(&sel) {
        if let Some(h) = a.value().attr("href") {
            out.push(h.to_string());
        }
    }
    out
}

} // verus!

use spider_worker::fetch::classify_response;
use spider_worker::html::content_type_is_html;
use spider_worker::model::placeholder;

fn html_two_anchors() -> Vec<u8> {
    b"<html><body><a href=\"/x\">x</a><a href=\"/y\">y</a></body></html>".to_vec()
}

#[test]
fn content_type_detection_is_case_insensitive_substring() {
    assert!(content_type_is_html(&b"text/html".to_vec()));
    assert!(content_type_is_html(&b"text/html; charset=utf-8".to_vec()));
    assert!(content_type_is_html(&b"TEXT/HTML".to_vec()));
    assert!(content_type_is_html(&b"application/xhtml; Text/Html inside".to_vec()));
    assert!(!content_type_is_html(&b"application/json".to_vec()));
    assert!(!content_type_is_html(&b"text/htm".to_vec()));
    assert!(!content_type_is_html(&b"".to_vec()));
}

#[test]
fn ok_html_response_has_hash_and_links_in_document_order() {
    let body = html_two_anchors();
    let r = classify_response(
        "http://a/ok.html".to_string(),
        200,
        body.clone(),
        Some(b"text/html; charset=utf-8".to_vec()),
    );
    assert_eq!(r.url, "http://a/ok.html");
    assert_eq!(r.status, 200);
    assert_eq!(r.bytes, Some(body.len()));
    let hash = r.sha256.expect("a 200 response carries a fingerprint");
    assert_eq!(hash.len(), 64);
    assert_eq!(r.links, Some(vec!["/x".to_string(), "/y".to_string()]));
}

#[test]
fn links_keep_duplicates() {
    let body: Vec<u8> = b"<a href=\"/x\">1</a><a href=\"/x\">2</a>".to_vec();
    let r = classify_response("u".to_string(), 200, body, Some(b"text/html".to_vec()));
    assert_eq!(r.links, Some(vec!["/x".to_string(), "/x".to_string()]));
}

#[test]
fn ok_non_html_response_has_hash_but_no_links() {
    let r = classify_response(
        "http://a/data".to_string(),
        200,
        b"{\"k\": 1}".to_vec(),
        Some(b"application/json".to_vec()),
    );
    assert_eq!(r.status, 200);
    assert!(r.sha256.is_some());
    assert_eq!(r.links, None);
}

#[test]
fn ok_html_without_anchors_omits_the_links_field() {
    let r = classify_response(
        "http://a/empty.html".to_string(),
        200,
        b"<html><body>no links here</body></html>".to_vec(),
        Some(b"text/html".to_vec()),
    );
    assert!(r.sha256.is_some());
    assert_eq!(r.links, None);
}

#[test]
fn ok_response_without_content_type_has_no_links() {
    let r = classify_response("u".to_string(), 200, html_two_anchors(), None);
    assert!(r.sha256.is_some());
    assert_eq!(r.links, None);
}

#[test]
fn non_200_response_has_neither_hash_nor_links() {
    let body = html_two_anchors();
    for status in [301u16, 404, 500] {
        let r = classify_response(
            "http://a/404".to_string(),
            status,
            body.clone(),
            Some(b"text/html".to_vec()),
        );
        assert_eq!(r.status, status);
        assert_eq!(r.bytes, Some(body.len()));
        assert_eq!(r.sha256, None);
        assert_eq!(r.links, None);
    }
}

#[test]
fn transport_failure_placeholder_has_status_zero_and_nothing_else() {
    let r = placeholder("http://a/timeout".to_string());
    assert_eq!(r.url, "http://a/timeout");
    assert_eq!(r.status, 0);
    assert_eq!(r.bytes, Some(0));
    assert_eq!(r.sha256, None);
    assert_eq!(r.links, None);
}

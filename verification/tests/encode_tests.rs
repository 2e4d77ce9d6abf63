use spider_worker::encode::{lease_query, result_url, u64_to_dec};

#[test]
fn decimal_rendering_is_exact() {
    assert_eq!(u64_to_dec(0), "0");
    assert_eq!(u64_to_dec(7), "7");
    assert_eq!(u64_to_dec(25), "25");
    assert_eq!(u64_to_dec(1234567890), "1234567890");
    assert_eq!(u64_to_dec(u64::MAX), "18446744073709551615");
}

#[test]
fn lease_query_percent_encodes_worker_id_and_user_agent() {
    let url = lease_query(
        &"http://127.0.0.1:8811".to_string(),
        &"osv-host 1".to_string(),
        25,
        &"pfs spider/osv".to_string(),
    );
    assert_eq!(
        url,
        "http://127.0.0.1:8811/spider/lease?worker_id=osv-host%201&n=25&ua=pfs%20spider%2Fosv"
    );
}

#[test]
fn lease_query_passes_unreserved_characters_through() {
    let url = lease_query(&"http://c".to_string(), &"w-1_a.b~".to_string(), 1, &"ua".to_string());
    assert_eq!(url, "http://c/spider/lease?worker_id=w-1_a.b~&n=1&ua=ua");
}

#[test]
fn result_url_appends_the_fixed_path() {
    assert_eq!(result_url(&"http://c".to_string()), "http://c/spider/result");
}

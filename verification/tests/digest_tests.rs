use spider_worker::digest::sha256_hex;
use spider_worker::hex::to_hex;

#[test]
fn hex_rendering_is_lowercase_two_digits_per_byte() {
    assert_eq!(to_hex(&vec![]), "");
    assert_eq!(to_hex(&vec![0x00u8, 0xffu8, 0x1au8]), "00ff1a");
    assert_eq!(to_hex(&vec![0xdeu8, 0xadu8, 0xbeu8, 0xefu8]), "deadbeef");
}

#[test]
fn fingerprint_of_empty_input_is_the_known_digest() {
    let d = sha256_hex(&vec![]);
    assert_eq!(d, "e3b0c44298fc1c149afbf4c8996fb92427ae41e4649b934ca495991b7852b855");
}

#[test]
fn fingerprint_of_abc_is_the_known_digest() {
    let d = sha256_hex(&vec![b'a', b'b', b'c']);
    assert_eq!(d, "ba7816bf8f01cfea414140de5dae2223b00361a396177a9cb410ff61f20015ad");
}

#[test]
fn fingerprint_is_deterministic_across_calls() {
    let body: Vec<u8> = b"<html><body>stable bytes</body></html>".to_vec();
    let first = sha256_hex(&body);
    let second = sha256_hex(&body);
    assert_eq!(first, second);
    assert_eq!(first.len(), 64);
}

use blob_protocol::address::{parse_blob_url, AddressError};

const ID: &str = "550e8400-e29b-41d4-a716-446655440000";

#[test]
fn parses_id_and_origin() {
    let url = format!("blob:https://example.com/{}", ID);
    let a = parse_blob_url(url.as_bytes()).unwrap();
    assert_eq!(a.id, ID.as_bytes().to_vec());
    assert_eq!(a.origin, b"https://example.com".to_vec());
}

#[test]
fn origin_with_port_and_upper_case_id() {
    let url = "blob:http://localhost:8000/550E8400-E29B-41D4-A716-44665544ABCD";
    let a = parse_blob_url(url.as_bytes()).unwrap();
    assert_eq!(a.id, b"550E8400-E29B-41D4-A716-44665544ABCD".to_vec());
    assert_eq!(a.origin, b"http://localhost:8000".to_vec());
}

#[test]
fn rejects_other_scheme() {
    let url = format!("https://example.com/{}", ID);
    assert!(matches!(parse_blob_url(url.as_bytes()), Err(AddressError::NotBlobScheme)));
    assert!(matches!(parse_blob_url(b"blo"), Err(AddressError::NotBlobScheme)));
    assert!(matches!(parse_blob_url(b""), Err(AddressError::NotBlobScheme)));
}

#[test]
fn rejects_malformed_id() {
    let bad_digit = "blob:https://example.com/550e8400-e29b-41d4-a716-44665544000g";
    assert!(matches!(parse_blob_url(bad_digit.as_bytes()), Err(AddressError::InvalidId)));
    let misplaced_hyphen = "blob:https://example.com/550e84000e29b-41d4-a716-44665544000";
    assert!(matches!(parse_blob_url(misplaced_hyphen.as_bytes()), Err(AddressError::InvalidId)));
    let no_slash = format!("blob:https:{}", ID);
    assert!(matches!(parse_blob_url(no_slash.as_bytes()), Err(AddressError::InvalidId)));
    let short = "blob:https://example.com/550e8400";
    assert!(matches!(parse_blob_url(short.as_bytes()), Err(AddressError::InvalidId)));
    let query_before_id = format!("blob:https://example.com?q/{}", ID);
    assert!(matches!(parse_blob_url(query_before_id.as_bytes()), Err(AddressError::InvalidId)));
}

#[test]
fn rejects_missing_origin() {
    let url = format!("blob:/{}", ID);
    assert!(matches!(parse_blob_url(url.as_bytes()), Err(AddressError::MissingOrigin)));
}

#[test]
fn parsing_twice_gives_same_address() {
    let url = format!("blob:https://example.com/{}", ID);
    let a = parse_blob_url(url.as_bytes()).unwrap();
    let b = parse_blob_url(url.as_bytes()).unwrap();
    assert_eq!(a.id, b.id);
    assert_eq!(a.origin, b.origin);
}

#[test]
fn query_and_fragment_are_not_read() {
    for tail in ["?x=1", "#frag", "?a/b#c", "?"] {
        let url = format!("blob:https://example.com/{}{}", ID, tail);
        let a = parse_blob_url(url.as_bytes()).unwrap();
        assert_eq!(a.id, ID.as_bytes().to_vec());
        assert_eq!(a.origin, b"https://example.com".to_vec());
    }
}

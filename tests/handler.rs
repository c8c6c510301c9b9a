use blob_protocol::address::AddressError;
use blob_protocol::channel::{Data, DoneChannel};
use blob_protocol::handler::{BlobProtocolHander, BlobRequest, FetchOrder, LoadStep};
use blob_protocol::range::ByteRange;
use blob_protocol::response::{NetworkError, Response, ResponseBody, StorageError};

const URL: &str = "blob:https://example.com/550e8400-e29b-41d4-a716-446655440000";

fn request(method: &str, url: &str, range: Option<&str>) -> BlobRequest {
    BlobRequest {
        method: method.as_bytes().to_vec(),
        url: url.as_bytes().to_vec(),
        range_header: range.map(|r| r.as_bytes().to_vec()),
    }
}

fn respond(step: LoadStep) -> Response {
    match step {
        LoadStep::Respond(r) => r,
        LoadStep::Fetch(_) => panic!("expected an immediate response"),
    }
}

fn fetch(step: LoadStep) -> FetchOrder {
    match step {
        LoadStep::Fetch(o) => o,
        LoadStep::Respond(_) => panic!("expected a fetch"),
    }
}

#[test]
fn non_get_methods_fail_without_channel() {
    let h = BlobProtocolHander::default();
    for m in ["POST", "PUT", "HEAD", "get", "GETS", ""] {
        let mut chan: DoneChannel = None;
        let r = respond(h.load(&request(m, URL, None), &mut chan));
        assert_eq!(r.error, Some(NetworkError::UnexpectedMethod));
        assert_eq!(r.status, None);
        assert!(chan.is_none());
    }
}

#[test]
fn invalid_url_fails_without_channel() {
    let h = BlobProtocolHander::default();
    let mut chan: DoneChannel = None;
    let r = respond(h.load(&request("GET", "blob:https://example.com/nope", None), &mut chan));
    assert_eq!(r.error, Some(NetworkError::InvalidBlobUrl(AddressError::InvalidId)));
    assert!(chan.is_none());
    let r = respond(h.load(&request("GET", "data:text/plain,hi", Some("bytes=1-2")), &mut chan));
    assert_eq!(r.error, Some(NetworkError::InvalidBlobUrl(AddressError::NotBlobScheme)));
    assert!(chan.is_none());
}

#[test]
fn no_range_header_asks_whole_blob_and_answers_ok() {
    let h = BlobProtocolHander::default();
    let mut chan: DoneChannel = None;
    let mut o = fetch(h.load(&request("GET", URL, None), &mut chan));
    assert!(chan.is_some());
    assert_eq!(o.id, b"550e8400-e29b-41d4-a716-446655440000".to_vec());
    assert_eq!(o.origin, b"https://example.com".to_vec());
    assert_eq!(o.range, ByteRange { start: None, end: None });
    assert_eq!(o.response.status, Some((200, b"OK".to_vec())));
    assert_eq!(o.response.body, ResponseBody::Receiving(vec![]));
    let r = h.finish(o.response, &mut o.sender, Ok(()));
    assert_eq!(r.status, Some((200, b"OK".to_vec())));
    assert_eq!(r.url, URL.as_bytes().to_vec());
    let (_, mut rx) = chan.unwrap();
    assert!(rx.try_recv().is_err());
}

#[test]
fn range_header_asks_range_and_answers_partial() {
    let h = BlobProtocolHander::default();
    let mut chan: DoneChannel = None;
    let mut o = fetch(h.load(&request("GET", URL, Some("bytes=10-20")), &mut chan));
    assert_eq!(o.range, ByteRange { start: Some(10), end: Some(20) });
    assert_eq!(o.response.status, Some((206, b"Partial Content".to_vec())));
    let r = h.finish(o.response, &mut o.sender, Ok(()));
    assert_eq!(r.status, Some((206, b"Partial Content".to_vec())));
    assert_eq!(r.raw_status, Some((206, b"Partial Content".to_vec())));
}

#[test]
fn new_channel_replaces_previous_one() {
    let h = BlobProtocolHander::default();
    let (old_tx, old_rx) = tokio::sync::mpsc::unbounded_channel();
    let mut chan: DoneChannel = Some((old_tx, old_rx));
    let o = fetch(h.load(&request("GET", URL, None), &mut chan));
    o.sender.sender.send(Data::Payload(vec![7])).unwrap();
    let (_, mut rx) = chan.unwrap();
    assert_eq!(rx.try_recv().unwrap(), Data::Payload(vec![7]));
}

#[test]
fn bad_range_gives_416_and_signals_done() {
    let h = BlobProtocolHander::default();
    let mut chan: DoneChannel = None;
    let mut o = fetch(h.load(&request("GET", URL, Some("bytes=100-200")), &mut chan));
    let r = h.finish(o.response, &mut o.sender, Err(StorageError::InvalidRange));
    assert_eq!(r.error, None);
    assert_eq!(r.status, Some((416, b"Range Not Satisfiable".to_vec())));
    assert_eq!(r.raw_status, Some((416, b"Range Not Satisfiable".to_vec())));
    assert_eq!(r.body, ResponseBody::Empty);
    let (_, mut rx) = chan.unwrap();
    assert_eq!(rx.try_recv().unwrap(), Data::Done);
}

#[test]
fn bad_range_without_range_header_still_gives_416() {
    let h = BlobProtocolHander::default();
    let mut chan: DoneChannel = None;
    let mut o = fetch(h.load(&request("GET", URL, None), &mut chan));
    let r = h.finish(o.response, &mut o.sender, Err(StorageError::InvalidRange));
    assert_eq!(r.status, Some((416, b"Range Not Satisfiable".to_vec())));
}

#[test]
fn storage_failure_gives_network_error_and_signals_done() {
    let h = BlobProtocolHander::default();
    for err in [
        StorageError::InvalidFileId,
        StorageError::InvalidOrigin,
        StorageError::InvalidEntry,
        StorageError::External("disk gone".to_string()),
    ] {
        let mut chan: DoneChannel = None;
        let mut o = fetch(h.load(&request("GET", URL, None), &mut chan));
        let r = h.finish(o.response, &mut o.sender, Err(err.clone()));
        assert_eq!(r.error, Some(NetworkError::Storage(err)));
        assert_eq!(r.status, None);
        let (_, mut rx) = chan.unwrap();
        assert_eq!(rx.try_recv().unwrap(), Data::Done);
    }
}

#[test]
fn storage_failure_after_receiver_dropped_still_answers() {
    let h = BlobProtocolHander::default();
    let mut chan: DoneChannel = None;
    let mut o = fetch(h.load(&request("GET", URL, None), &mut chan));
    drop(chan.take());
    let r = h.finish(o.response, &mut o.sender, Err(StorageError::InvalidFileId));
    assert_eq!(r.error, Some(NetworkError::Storage(StorageError::InvalidFileId)));
}

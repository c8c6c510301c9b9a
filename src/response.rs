//! The response a blob load hands back, and the ways it is shaped.

use crate::address::AddressError;
use vstd::prelude::*;

verus! {

pub const STATUS_OK: u16 = 200;

pub const STATUS_PARTIAL_CONTENT: u16 = 206;

pub const STATUS_RANGE_NOT_SATISFIABLE: u16 = 416;

/// A failure that the storage subsystem reports for a fetch.
#[derive(Clone, Debug, PartialEq, Eq)]
pub enum StorageError {
    /// No blob has the id.
    InvalidFileId,
    /// The blob belongs to another origin.
    InvalidOrigin,
    /// The blob's entry cannot be read.
    InvalidEntry,
    /// The requested range lies outside the blob, or its start is after its end.
    InvalidRange,
    /// Any other failure, with its detail.
    External(String),
}

/// Why a load ended in a network error.
#[derive(Clone, Debug, PartialEq, Eq)]
pub enum NetworkError {
    /// The request's method is not GET.
    UnexpectedMethod,
    /// The URL is not a blob address.
    InvalidBlobUrl(AddressError),
    /// The storage subsystem failed with something other than a bad range.
    Storage(StorageError),
}

/// The state of a response body.
#[derive(Clone, Debug, PartialEq, Eq)]
pub enum ResponseBody {
    /// No body.
    Empty,
    /// Chunks are arriving; what arrived so far.
    Receiving(Vec<u8>),
    /// The whole body.
    Done(Vec<u8>),
}

/// A response: status (readable and raw), headers, body state, and the
/// network error it stands for, if it is one.
pub struct Response {
    pub url: Vec<u8>,
    pub status: Option<(u16, Vec<u8>)>,
    pub raw_status: Option<(u16, Vec<u8>)>,
    pub headers: Vec<(Vec<u8>, Vec<u8>)>,
    pub body: ResponseBody,
    pub error: Option<NetworkError>,
}

pub open spec fn reason_ok() -> Seq<u8> {
    seq![79u8, 75u8]
}

pub open spec fn reason_partial_content() -> Seq<u8> {
    seq![80u8, 97u8, 114u8, 116u8, 105u8, 97u8, 108u8, 32u8, 67u8, 111u8, 110u8, 116u8, 101u8, 110u8, 116u8]
}

pub open spec fn reason_range_not_satisfiable() -> Seq<u8> {
    seq![
        82u8, 97u8, 110u8, 103u8, 101u8, 32u8, 78u8, 111u8, 116u8, 32u8, 83u8,
        97u8, 116u8, 105u8, 115u8, 102u8, 105u8, 97u8, 98u8, 108u8, 101u8,
    ]
}

pub open spec fn status_holds(s: Option<(u16, Vec<u8>)>, code: u16, reason: Seq<u8>) -> bool {
    match s {
        Some((c, r)) => c == code && r@ == reason,
        None => false,
    }
}

impl Response {
    /// Both encodings of the status are `code` with `reason`.
    pub open spec fn has_status(&self, code: u16, reason: Seq<u8>) -> bool {
        status_holds(self.status, code, reason) && status_holds(self.raw_status, code, reason)
    }

    /// The response is a network error for `e`: no status, headers or body.
    pub open spec fn is_network_error_for(&self, e: NetworkError) -> bool {
        &&& self.error == Some(e)
        &&& self.status.is_none()
        &&& self.raw_status.is_none()
        &&& self.headers@.len() == 0
        &&& self.body == ResponseBody::Empty
    }

    /// A 416 response for `url`, with no headers and no body.
    pub open spec fn is_range_not_satisfiable_for(&self, url: Seq<u8>) -> bool {
        &&& self.url@ == url
        &&& self.has_status(STATUS_RANGE_NOT_SATISFIABLE, reason_range_not_satisfiable())
        &&& self.headers@.len() == 0
        &&& self.body == ResponseBody::Empty
        &&& self.error.is_none()
    }

    /// A response for `url` whose body is still arriving, with status 206
    /// where `partial` holds and 200 otherwise.
    pub open spec fn is_provisional_for(&self, url: Seq<u8>, partial: bool) -> bool {
        &&& self.url@ == url
        &&& if partial {
            self.has_status(STATUS_PARTIAL_CONTENT, reason_partial_content())
        } else {
            self.has_status(STATUS_OK, reason_ok())
        }
        &&& self.headers@.len() == 0
        &&& match self.body {
            ResponseBody::Receiving(so_far) => so_far@.len() == 0,
            _ => false,
        }
        &&& self.error.is_none()
    }

    /// A network error response.
    pub fn network_error(e: NetworkError) -> (r: Response)
        ensures
            r.is_network_error_for(e),
            r.url@.len() == 0,
    {
        Response {
            url: Vec::new(),
            status: None,
            raw_status: None,
            headers: Vec::new(),
            body: ResponseBody::Empty,
            error: Some(e),
        }
    }
}

fn reason_bytes_ok() -> (r: Vec<u8>)
    ensures
        r@ == reason_ok(),
{
    let r = vec![79u8, 75u8];
    assert(r@ =~= reason_ok());
    r
}

fn reason_bytes_partial_content() -> (r: Vec<u8>)
    ensures
        r@ == reason_partial_content(),
{
    let r = vec![80u8, 97u8, 114u8, 116u8, 105u8, 97u8, 108u8, 32u8, 67u8, 111u8, 110u8, 116u8, 101u8, 110u8, 116u8];
    assert(r@ =~= reason_partial_content());
    r
}

fn reason_bytes_range_not_satisfiable() -> (r: Vec<u8>)
    ensures
        r@ == reason_range_not_satisfiable(),
{
    let r = vec![
        82u8, 97u8, 110u8, 103u8, 101u8, 32u8, 78u8, 111u8, 116u8, 32u8, 83u8,
        97u8, 116u8, 105u8, 115u8, 102u8, 105u8, 97u8, 98u8, 108u8, 101u8,
    ];
    assert(r@ =~= reason_range_not_satisfiable());
    r
}

/// Marks `response` as partial content (206); the rest is kept.
pub fn partial_content(response: &mut Response)
    ensures
        final(response).has_status(STATUS_PARTIAL_CONTENT, reason_partial_content()),
        final(response).url == old(response).url,
        final(response).headers == old(response).headers,
        final(response).body == old(response).body,
        final(response).error == old(response).error,
{
    response.status = Some((STATUS_PARTIAL_CONTENT, reason_bytes_partial_content()));
    response.raw_status = Some((STATUS_PARTIAL_CONTENT, reason_bytes_partial_content()));
}

/// Turns `response` into a 416 response: the status is replaced, and the
/// headers and the body that were being prepared are dropped.
pub fn range_not_satisfiable_error(response: &mut Response)
    ensures
        final(response).is_range_not_satisfiable_for(old(response).url@),
{
    response.status = Some((STATUS_RANGE_NOT_SATISFIABLE, reason_bytes_range_not_satisfiable()));
    response.raw_status = Some(
        (STATUS_RANGE_NOT_SATISFIABLE, reason_bytes_range_not_satisfiable()),
    );
    response.headers = Vec::new();
    response.body = ResponseBody::Empty;
    response.error = None;
}

/// The response for `url` before any body bytes exist: 200 OK, or 206
/// Partial Content where the request carried a Range header, with a body
/// that is receiving and holds nothing yet.
pub fn provisional_response(url: Vec<u8>, is_range_request: bool) -> (r: Response)
    ensures
        r.is_provisional_for(url@, is_range_request),
{
    let mut response = Response {
        url,
        status: Some((STATUS_OK, reason_bytes_ok())),
        raw_status: Some((STATUS_OK, reason_bytes_ok())),
        headers: Vec::new(),
        body: ResponseBody::Empty,
        error: None,
    };
    if is_range_request {
        partial_content(&mut response);
    }
    response.body = ResponseBody::Receiving(Vec::new());
    response
}

} // verus!

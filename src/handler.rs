//! The `blob:` protocol handler: what a load decides before and after the
//! storage subsystem is asked for the blob.

use crate::address::{blob_address_of, parse_blob_url};
use crate::channel::{clone_sender, open_channel, BodySender, Data, DoneChannel};
use crate::range::{
    first_byte_range, get_range_request_bounds, range_request_of, unspecified_range, ByteRange,
    RangeBound,
};
use crate::response::{
    provisional_response, range_not_satisfiable_error, reason_ok, reason_partial_content,
    NetworkError, Response, StorageError, STATUS_OK, STATUS_PARTIAL_CONTENT,
};
use vstd::prelude::*;

verus! {

/// What a load reads of a request.
pub struct BlobRequest {
    /// The method token, such as `GET`.
    pub method: Vec<u8>,
    /// The request's current URL.
    pub url: Vec<u8>,
    /// The first value of the Range header, if the request has one.
    pub range_header: Option<Vec<u8>>,
}

/// What the storage subsystem is to be asked: the blob, its origin and the
/// range, with the sender that carries the body and the response whose body
/// it fills.
pub struct FetchOrder {
    pub sender: BodySender,
    pub id: Vec<u8>,
    pub origin: Vec<u8>,
    pub range: ByteRange,
    pub response: Response,
}

/// The first step of a load: answer at once, or ask storage for the blob.
pub enum LoadStep {
    Respond(Response),
    Fetch(FetchOrder),
}

/// Handler for `blob:` URLs.
#[derive(Default)]
pub struct BlobProtocolHander {}

pub open spec fn get_method() -> Seq<u8> {
    seq![71u8, 69u8, 84u8]
}

impl BlobRequest {
    pub open spec fn range_header_view(&self) -> Option<Seq<u8>> {
        match self.range_header {
            None => None,
            Some(v) => Some(v@),
        }
    }

    /// Whether the request carries a byte Range header.
    pub open spec fn is_range_request(&self) -> bool {
        range_request_of(self.range_header_view()).is_some()
    }

    /// The range that storage is asked for.
    pub open spec fn requested_range(&self) -> ByteRange {
        match range_request_of(self.range_header_view()) {
            Some(r) => r,
            None => unspecified_range(),
        }
    }
}

fn is_get(method: &Vec<u8>) -> (r: bool)
    ensures
        r == (method@ == get_method()),
{
    if method.len() == 3 && method[0] == 71u8 && method[1] == 69u8 && method[2] == 84u8 {
        assert(method@ =~= get_method());
        true
    } else {
        proof {
            if method@ == get_method() {
                assert(method@[0] == 71u8);
            }
        }
        false
    }
}

impl BlobProtocolHander {
    /// Starts a load. A request that is not GET, or whose URL is not a blob
    /// address, gets a network error at once and the channel slot is left
    /// alone. Otherwise a fresh body channel is installed in `done_chan`, and
    /// the step names the blob, its origin, the requested range, and the
    /// provisional response (206 where the request has a byte Range header,
    /// 200 otherwise) that storage is to fill.
    pub fn load(&self, request: &BlobRequest, done_chan: &mut DoneChannel) -> (r: LoadStep)
        ensures
            request.method@ != get_method() ==> *final(done_chan) == *old(done_chan) && match r {
                LoadStep::Respond(resp) => resp.is_network_error_for(NetworkError::UnexpectedMethod),
                LoadStep::Fetch(_) => false,
            },
            request.method@ == get_method() ==> match blob_address_of(request.url@) {
                Err(e) => *final(done_chan) == *old(done_chan) && match r {
                    LoadStep::Respond(resp) => resp.is_network_error_for(
                        NetworkError::InvalidBlobUrl(e),
                    ),
                    LoadStep::Fetch(_) => false,
                },
                Ok((id, origin)) => final(done_chan).is_some() && match r {
                    LoadStep::Respond(_) => false,
                    LoadStep::Fetch(o) => {
                        &&& o.sender.sent@ == Seq::<Data>::empty()
                        &&& o.id@ == id
                        &&& o.origin@ == origin
                        &&& o.range == request.requested_range()
                        &&& o.response.is_provisional_for(request.url@, request.is_range_request())
                    },
                },
            },
    {
        if !is_get(&request.method) {
            return LoadStep::Respond(Response::network_error(NetworkError::UnexpectedMethod));
        }
        let range_request = match &request.range_header {
            None => get_range_request_bounds(None),
            Some(v) => get_range_request_bounds(Some(v.as_slice())),
        };
        let is_range_request = range_request.is_some();
        let range = match range_request {
            Some(r) => r,
            None => ByteRange { start: None, end: None },
        };
        let address = match parse_blob_url(request.url.as_slice()) {
            Ok(a) => a,
            Err(e) => {
                return LoadStep::Respond(Response::network_error(NetworkError::InvalidBlobUrl(e)));
            },
        };
        let response = provisional_response(request.url.clone(), is_range_request);
        let (sender, receiver) = open_channel();
        *done_chan = Some((clone_sender(&sender), receiver));
        LoadStep::Fetch(
            FetchOrder { sender: BodySender::new(sender), id: address.id, origin: address.origin, range, response },
        )
    }

    /// Ends a load once storage has answered for `response`. On success the
    /// response is handed back as it is and nothing is sent. On failure a
    /// Done marker is sent on `sender` first, so that no consumer waits for
    /// more; a bad range then gives a 416 response for the same URL, and any
    /// other failure a network error that carries it.
    pub fn finish(
        &self,
        response: Response,
        sender: &mut BodySender,
        outcome: Result<(), StorageError>,
    ) -> (r: Response)
        ensures
            outcome.is_ok() ==> final(sender).sent@ == old(sender).sent@,
            outcome.is_err() ==> final(sender).sent@ == old(sender).sent@.push(Data::Done),
            match outcome {
                Ok(()) => r == response,
                Err(StorageError::InvalidRange) => r.is_range_not_satisfiable_for(response.url@),
                Err(e) => r.is_network_error_for(NetworkError::Storage(e)),
            },
    {
        match outcome {
            Ok(()) => response,
            Err(err) => {
                let _ = sender.send(Data::Done);
                match err {
                    StorageError::InvalidRange => {
                        let mut response = response;
                        range_not_satisfiable_error(&mut response);
                        response
                    },
                    other => Response::network_error(NetworkError::Storage(other)),
                }
            },
        }
    }
}

/// Without a Range header storage is asked for the whole blob, and the
/// provisional response, which a successful fetch hands back unchanged, is a
/// plain 200 rather than partial content.
pub proof fn lemma_no_range_header_is_full_request(request: BlobRequest, provisional: Response)
    requires
        request.range_header.is_none(),
        provisional.is_provisional_for(request.url@, request.is_range_request()),
    ensures
        request.requested_range() == unspecified_range(),
        !request.is_range_request(),
        provisional.has_status(STATUS_OK, reason_ok()),
        !provisional.has_status(STATUS_PARTIAL_CONTENT, reason_partial_content()),
{
}

/// A Range header whose first specifier decodes to `start-end` asks storage
/// for exactly that range, and the provisional response, which a successful
/// fetch hands back unchanged, is marked partial content.
pub proof fn lemma_bounded_range_header_is_partial_request(
    request: BlobRequest,
    provisional: Response,
    start: u64,
    end: u64,
)
    requires
        request.range_header_view() is Some,
        first_byte_range(request.range_header_view().unwrap()) == Some(
            Some((RangeBound::Included(start), RangeBound::Included(end))),
        ),
        provisional.is_provisional_for(request.url@, request.is_range_request()),
    ensures
        request.requested_range() == (ByteRange { start: Some(start), end: Some(end) }),
        request.is_range_request(),
        provisional.has_status(STATUS_PARTIAL_CONTENT, reason_partial_content()),
{
}

} // verus!

//! Turning a Range request header into the byte range handed to storage.

use std::ops::Bound;
use vstd::prelude::*;

verus! {

/// One end of a byte-range specifier, as the header decoder reports it.
#[derive(Clone, Copy, Debug, PartialEq, Eq, Structural)]
pub enum RangeBound {
    Included(u64),
    Excluded(u64),
    Unbounded,
}

/// A requested byte range; `None` leaves a bound to the blob's own size.
#[derive(Clone, Copy, Debug, PartialEq, Eq, Structural)]
pub struct ByteRange {
    pub start: Option<u64>,
    pub end: Option<u64>,
}

/// What the header decoder makes of a Range header value read against a
/// resource of `len` bytes: `None` where the value is not a byte Range
/// header, else each of its specifiers that has a meaning, in order.
pub uninterp spec fn byte_ranges_of(value: Seq<u8>, len: u64) -> Option<Seq<(RangeBound, RangeBound)>>;

/// Relies on `http::HeaderValue::from_bytes` and `headers::Range`'s
/// `Header::decode` to accept a Range header value, and on
/// `Range::satisfiable_ranges` for its specifiers.
#[verifier::external_body]
fn decode_byte_ranges(value: &[u8], len: u64) -> (r: Option<Vec<(RangeBound, RangeBound)>>)
    ensures
        match r {
            None => byte_ranges_of(value@, len) is None,
            Some(v) => byte_ranges_of(value@, len) == Some(v@),
        },
{
    let conv = |b: Bound<u64>| match b {
        Bound::Included(n) => RangeBound::Included(n),
        Bound::Excluded(n) => RangeBound::Excluded(n),
        Bound::Unbounded => RangeBound::Unbounded,
    };
    let v = http::HeaderValue::from_bytes(value).ok()?;
    let range = <headers::Range as headers::Header>::decode(&mut std::iter::once(&v)).ok()?;
    Some(range.satisfiable_ranges(len).map(|(s, e)| (conv(s), conv(e))).collect())
}

/// The length a header is read against: the blob's size is not known until
/// storage looks the blob up, so the largest length is given. A suffix
/// specifier (`bytes=-n`) therefore asks for a start that storage will find
/// out of range.
pub const UNKNOWN_LENGTH: u64 = 0xffff_ffff_ffff_ffff;

/// The first specifier of a byte Range header, which alone is honoured:
/// `None` where the value is not a byte Range header, `Some(None)` where it
/// has no specifier with a meaning.
pub open spec fn first_byte_range(value: Seq<u8>) -> Option<Option<(RangeBound, RangeBound)>> {
    match byte_ranges_of(value, UNKNOWN_LENGTH) {
        None => None,
        Some(specs) => Some(
            if specs.len() > 0 {
                Some(specs[0])
            } else {
                None
            },
        ),
    }
}

/// Decodes a Range header value and keeps its first specifier.
fn decode_first_range(value: &[u8]) -> (r: Option<Option<(RangeBound, RangeBound)>>)
    ensures
        r == first_byte_range(value@),
{
    match decode_byte_ranges(value, UNKNOWN_LENGTH) {
        None => None,
        Some(specs) => {
            if specs.len() > 0 {
                Some(Some(specs[0]))
            } else {
                Some(None)
            }
        },
    }
}

pub open spec fn unspecified_range() -> ByteRange {
    ByteRange { start: None, end: None }
}

/// The byte range that a decoded specifier asks for: a start with an
/// optional end is kept as it is (a start after the end is left for storage
/// to refuse); any other shape, or no specifier, asks for the whole blob.
pub open spec fn range_of_spec(first: Option<(RangeBound, RangeBound)>) -> ByteRange {
    match first {
        Some((RangeBound::Included(s), RangeBound::Unbounded)) => ByteRange {
            start: Some(s),
            end: None,
        },
        Some((RangeBound::Included(s), RangeBound::Included(e))) => ByteRange {
            start: Some(s),
            end: Some(e),
        },
        _ => unspecified_range(),
    }
}

/// What a request's Range header asks for: `None` where there is no byte
/// Range header, else the range its first specifier resolves to.
pub open spec fn range_request_of(header: Option<Seq<u8>>) -> Option<ByteRange> {
    match header {
        None => None,
        Some(v) => match first_byte_range(v) {
            None => None,
            Some(first) => Some(range_of_spec(first)),
        },
    }
}

/// The byte range that a decoded first specifier asks for.
pub fn resolve_range(first: Option<(RangeBound, RangeBound)>) -> (r: ByteRange)
    ensures
        r == range_of_spec(first),
{
    match first {
        Some((RangeBound::Included(s), RangeBound::Unbounded)) => ByteRange {
            start: Some(s),
            end: None,
        },
        Some((RangeBound::Included(s), RangeBound::Included(e))) => ByteRange {
            start: Some(s),
            end: Some(e),
        },
        _ => ByteRange { start: None, end: None },
    }
}

/// Decodes an optional Range header value: `None` where the request carries
/// no byte Range header, else the byte range its first specifier asks for.
pub fn get_range_request_bounds(header: Option<&[u8]>) -> (r: Option<ByteRange>)
    ensures
        r == range_request_of(
            match header {
                None => None,
                Some(v) => Some(v@),
            },
        ),
{
    match header {
        None => None,
        Some(v) => match decode_first_range(v) {
            None => None,
            Some(first) => Some(resolve_range(first)),
        },
    }
}

/// Resolving a decoded specifier is a function of the specifier alone: two
/// resolutions of the same specifier give the same range.
pub proof fn lemma_resolve_range_deterministic(
    first: Option<(RangeBound, RangeBound)>,
    r1: ByteRange,
    r2: ByteRange,
)
    requires
        r1 == range_of_spec(first),
        r2 == range_of_spec(first),
    ensures
        r1 == r2,
{
}

/// Reading the same Range header twice gives the same range request.
pub proof fn lemma_range_request_deterministic(
    header: Option<Seq<u8>>,
    r1: Option<ByteRange>,
    r2: Option<ByteRange>,
)
    requires
        r1 == range_request_of(header),
        r2 == range_request_of(header),
    ensures
        r1 == r2,
{
}

} // verus!

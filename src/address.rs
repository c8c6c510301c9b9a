//! Reading a blob address (`blob:<origin>/<id>`) from a URL.

use vstd::prelude::*;

verus! {

/// Length of the textual id: a UUID in its hyphenated form.
pub const ID_LEN: usize = 36;

/// Length of the scheme prefix `blob:`.
pub const SCHEME_LEN: usize = 5;

/// The identity of a blob: its id text and the origin that owns it.
pub struct BlobAddress {
    pub id: Vec<u8>,
    pub origin: Vec<u8>,
}

/// Why a URL is not a blob address.
#[derive(Clone, Copy, Debug, PartialEq, Eq, Structural)]
pub enum AddressError {
    /// The URL does not start with `blob:`.
    NotBlobScheme,
    /// The URL does not end in `/` followed by a hyphenated UUID.
    InvalidId,
    /// Nothing stands between `blob:` and the id.
    MissingOrigin,
}

pub open spec fn scheme_prefix() -> Seq<u8> {
    seq![98u8, 108u8, 111u8, 98u8, 58u8]
}

pub open spec fn is_hex_digit(b: u8) -> bool {
    (48 <= b && b <= 57) || (65 <= b && b <= 70) || (97 <= b && b <= 102)
}

/// A hyphenated UUID: 36 characters, `-` at offsets 8, 13, 18 and 23, hex
/// digits elsewhere.
pub open spec fn is_uuid_text(s: Seq<u8>) -> bool {
    &&& s.len() == ID_LEN
    &&& forall|i: int|
        0 <= i < s.len() ==> if i == 8 || i == 13 || i == 18 || i == 23 {
            s[i] == 45u8
        } else {
            is_hex_digit(#[trigger] s[i])
        }
}

/// `?` and `#` end a URL's path: a query or a fragment follows.
pub open spec fn ends_path(b: u8) -> bool {
    b == 63u8 || b == 35u8
}

/// `k` is where the path of `url` ends: at its first `?` or `#`, else at
/// its end.
pub open spec fn is_path_end(url: Seq<u8>, k: int) -> bool {
    &&& 0 <= k <= url.len()
    &&& forall|j: int| 0 <= j < k ==> !ends_path(#[trigger] url[j])
    &&& k < url.len() ==> ends_path(url[k])
}

pub open spec fn path_end(url: Seq<u8>) -> int {
    choose|k: int| is_path_end(url, k)
}

/// The id and origin that `url` names, or why it names none; a query or a
/// fragment is not read.
pub open spec fn blob_address_of(url: Seq<u8>) -> Result<(Seq<u8>, Seq<u8>), AddressError> {
    address_of_path(url.subrange(0, path_end(url)))
}

/// The id and origin that a URL's path names, or why it names none.
pub open spec fn address_of_path(url: Seq<u8>) -> Result<(Seq<u8>, Seq<u8>), AddressError> {
    if url.len() < SCHEME_LEN || url.subrange(0, SCHEME_LEN as int) != scheme_prefix() {
        Err(AddressError::NotBlobScheme)
    } else if url.len() < SCHEME_LEN + ID_LEN + 1 || url[url.len() - ID_LEN - 1] != 47u8
        || !is_uuid_text(url.subrange(url.len() - ID_LEN, url.len() as int)) {
        Err(AddressError::InvalidId)
    } else if url.len() == SCHEME_LEN + ID_LEN + 1 {
        Err(AddressError::MissingOrigin)
    } else {
        Ok(
            (
                url.subrange(url.len() - ID_LEN, url.len() as int),
                url.subrange(SCHEME_LEN as int, url.len() - ID_LEN - 1),
            ),
        )
    }
}

impl BlobAddress {
    pub open spec fn view(&self) -> (Seq<u8>, Seq<u8>) {
        (self.id@, self.origin@)
    }
}

fn hex_digit(b: u8) -> (r: bool)
    ensures
        r == is_hex_digit(b),
{
    (48 <= b && b <= 57) || (65 <= b && b <= 70) || (97 <= b && b <= 102)
}

fn copy_bytes(s: &[u8], lo: usize, hi: usize) -> (r: Vec<u8>)
    requires
        lo <= hi <= s@.len(),
    ensures
        r@ == s@.subrange(lo as int, hi as int),
{
    let mut r: Vec<u8> = Vec::new();
    let mut i: usize = lo;
    while i < hi
        invariant
            lo <= i <= hi <= s@.len(),
            r@ == s@.subrange(lo as int, i as int),
        decreases hi - i,
    {
        r.push(s[i]);
        i = i + 1;
        assert(r@ =~= s@.subrange(lo as int, i as int));
    }
    r
}

/// Whether `s[lo..lo + ID_LEN]` is a hyphenated UUID.
fn uuid_at(s: &[u8], lo: usize) -> (r: bool)
    requires
        lo + ID_LEN <= s@.len(),
    ensures
        r == is_uuid_text(s@.subrange(lo as int, lo + ID_LEN)),
{
    let ghost t = s@.subrange(lo as int, lo + ID_LEN);
    let mut i: usize = 0;
    while i < ID_LEN
        invariant
            lo + ID_LEN <= s.len(),
            i <= ID_LEN,
            t == s@.subrange(lo as int, lo + ID_LEN),
            forall|j: int|
                0 <= j < i ==> if j == 8 || j == 13 || j == 18 || j == 23 {
                    t[j] == 45u8
                } else {
                    is_hex_digit(#[trigger] t[j])
                },
        decreases ID_LEN - i,
    {
        let b = s[lo + i];
        let ok = if i == 8 || i == 13 || i == 18 || i == 23 {
            b == 45u8
        } else {
            hex_digit(b)
        };
        if !ok {
            assert(t[i as int] == b);
            return false;
        }
        i = i + 1;
    }
    true
}

proof fn lemma_path_end_is(url: Seq<u8>, k: int)
    requires
        is_path_end(url, k),
    ensures
        path_end(url) == k,
{
    let k2 = path_end(url);
    assert(is_path_end(url, k2));
    if k2 < k {
        assert(!ends_path(url[k2]));
    } else if k < k2 {
        assert(!ends_path(url[k]));
    }
}

/// Where the path of `url` ends.
fn find_path_end(url: &[u8]) -> (k: usize)
    ensures
        is_path_end(url@, k as int),
{
    let mut k: usize = 0;
    while k < url.len()
        invariant
            k <= url@.len(),
            forall|j: int| 0 <= j < k ==> !ends_path(#[trigger] url@[j]),
        decreases url.len() - k,
    {
        if url[k] == 63u8 || url[k] == 35u8 {
            return k;
        }
        k = k + 1;
    }
    k
}

/// Reads the blob id and its owning origin from `url`.
pub fn parse_blob_url(url: &[u8]) -> (r: Result<BlobAddress, AddressError>)
    ensures
        match r {
            Ok(a) => blob_address_of(url@) == Ok::<(Seq<u8>, Seq<u8>), AddressError>(a@),
            Err(e) => blob_address_of(url@) == Err::<(Seq<u8>, Seq<u8>), AddressError>(e),
        },
{
    let n = find_path_end(url);
    proof {
        lemma_path_end_is(url@, n as int);
    }
    let ghost path = url@.subrange(0, n as int);
    assert(forall|i: int| 0 <= i < n ==> path[i] == url@[i]);
    if n < SCHEME_LEN || url[0] != 98u8 || url[1] != 108u8 || url[2] != 111u8 || url[3] != 98u8
        || url[4] != 58u8 {
        proof {
            if n >= SCHEME_LEN {
                assert(path.subrange(0, 5)[0] == url@[0]);
                assert(path.subrange(0, 5)[1] == url@[1]);
                assert(path.subrange(0, 5)[2] == url@[2]);
                assert(path.subrange(0, 5)[3] == url@[3]);
                assert(path.subrange(0, 5)[4] == url@[4]);
            }
        }
        return Err(AddressError::NotBlobScheme);
    }
    assert(path.subrange(0, 5) =~= scheme_prefix());
    if n < SCHEME_LEN + ID_LEN + 1 || url[n - ID_LEN - 1] != 47u8 {
        return Err(AddressError::InvalidId);
    }
    assert(path.subrange(n - ID_LEN, n as int) =~= url@.subrange(n - ID_LEN, n as int));
    if !uuid_at(url, n - ID_LEN) {
        return Err(AddressError::InvalidId);
    }
    if n == SCHEME_LEN + ID_LEN + 1 {
        return Err(AddressError::MissingOrigin);
    }
    let id = copy_bytes(url, n - ID_LEN, n);
    let origin = copy_bytes(url, SCHEME_LEN, n - ID_LEN - 1);
    assert(path.subrange(SCHEME_LEN as int, n - ID_LEN - 1) =~= url@.subrange(
        SCHEME_LEN as int,
        n - ID_LEN - 1,
    ));
    Ok(BlobAddress { id, origin })
}

/// Reading the same URL twice gives the same id and origin: any two
/// addresses that `parse_blob_url` may return for one URL are equal.
pub proof fn lemma_parse_blob_url_deterministic(url: Seq<u8>, a1: BlobAddress, a2: BlobAddress)
    requires
        blob_address_of(url) == Ok::<(Seq<u8>, Seq<u8>), AddressError>(a1@),
        blob_address_of(url) == Ok::<(Seq<u8>, Seq<u8>), AddressError>(a2@),
    ensures
        a1.id@ == a2.id@,
        a1.origin@ == a2.origin@,
{
}

} // verus!

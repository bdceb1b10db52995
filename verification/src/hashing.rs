//! Content hashing for duplicate detection.
//!
//! A file's identity, for the purpose of duplicate detection, is the SHA-256
//! digest of its bytes.  The digest itself is computed by the `sha2` crate
//! through a streaming hasher, absorbed chunk by chunk so that large inputs
//! need never be held whole in memory; its value is named, not restated,
//! since nothing short of the algorithm itself could state it.

use vstd::prelude::*;
use vstd::slice::slice_subrange;

verus! {

/// The SHA-256 digest (32 bytes) of a byte sequence: a function of the
/// bytes alone, left uninterpreted.
pub uninterp spec fn sha256_of(data: Seq<u8>) -> Seq<u8>;

/// The bytes a hasher has absorbed so far, in order.
pub uninterp spec fn absorbed(h: sha2::Sha256) -> Seq<u8>;

/// Declares `sha2::Sha256`, the streaming hasher, so that values of it can
/// pass through verified code; the type stays opaque.
#[verifier::external_type_specification]
#[verifier::external_body]
pub struct ExSha256(sha2::Sha256);

/// Relies on `sha2::Sha256` via `digest::Digest::new`: a fresh hasher has
/// absorbed nothing.
#[verifier::external_body]
pub(crate) fn hasher_new() -> (h: sha2::Sha256)
    ensures
        absorbed(h) == Seq::<u8>::empty(),
{
    <sha2::Sha256 as sha2::Digest>::new()
}

/// Relies on `digest::Digest::update`: the hasher absorbs exactly the given
/// bytes, after everything absorbed before.
#[verifier::external_body]
pub(crate) fn hasher_update(h: &mut sha2::Sha256, chunk: &[u8])
    ensures
        absorbed(*final(h)) == absorbed(*old(h)) + chunk@,
{
    <sha2::Sha256 as sha2::Digest>::update(h, chunk)
}

/// Relies on `digest::Digest::finalize`: the result is the 32-byte SHA-256
/// digest of the absorbed bytes, a function of those bytes alone.
#[verifier::external_body]
pub(crate) fn hasher_finalize(h: sha2::Sha256) -> (d: Vec<u8>)
    ensures
        d@ == sha256_of(absorbed(h)),
        d@.len() == 32,
{
    <sha2::Sha256 as sha2::Digest>::finalize(h).to_vec()
}

/// Size of the read buffer used when streaming bytes into the hasher.
pub const BUFFER_SIZE: usize = 1024;

/// Digests a byte slice by feeding it to the streaming hasher in
/// `BUFFER_SIZE` chunks.
pub fn sha256_digest(data: &[u8]) -> (d: Vec<u8>)
    ensures
        d@ == sha256_of(data@),
        d@.len() == 32,
{
    let mut h = hasher_new();
    let n = data.len();
    let mut i: usize = 0;
    while i < n
        invariant
            i <= n,
            n == data@.len(),
            absorbed(h) == data@.subrange(0, i as int),
        decreases n - i,
    {
        let end = if n - i < BUFFER_SIZE {
            n
        } else {
            i + BUFFER_SIZE
        };
        let chunk = slice_subrange(data, i, end);
        hasher_update(&mut h, chunk);
        proof {
            assert(data@.subrange(0, i as int) + data@.subrange(i as int, end as int)
                =~= data@.subrange(0, end as int));
        }
        i = end;
    }
    proof {
        assert(data@.subrange(0, n as int) =~= data@);
    }
    hasher_finalize(h)
}

/// Byte-for-byte equality of two digests (or any two byte slices).
pub fn bytes_eq(a: &[u8], b: &[u8]) -> (r: bool)
    ensures
        r == (a@ == b@),
{
    let na = a.len();
    let nb = b.len();
    if na != nb {
        return false;
    }
    let mut i: usize = 0;
    while i < na
        invariant
            i <= na,
            na == a@.len(),
            na == b@.len(),
            forall|j: int| 0 <= j < i ==> a@[j] == b@[j],
        decreases na - i,
    {
        if a[i] != b[i] {
            return false;
        }
        i = i + 1;
    }
    proof {
        assert(a@ =~= b@);
    }
    true
}

} // verus!

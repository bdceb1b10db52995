//! The duplicate-detection decision.
//!
//! A candidate file is a duplicate when its content digest equals the digest
//! of some file already in the destination folder.  Digests that could not
//! be computed (an unreadable candidate, an unreadable existing entry) are
//! handed in as `None`; detection fails open, treating them as matching
//! nothing, so an unreadable file is still organized rather than stuck.

use vstd::prelude::*;
use crate::hashing::bytes_eq;

verus! {

/// Whether some computed digest among `existing` equals `candidate`.
pub open spec fn digest_present(existing: Seq<Option<Vec<u8>>>, candidate: Seq<u8>) -> bool {
    exists|i: int|
        0 <= i < existing.len() && (#[trigger] existing[i] matches Some(d) && d@ == candidate)
}

/// Decides whether a candidate digest duplicates one of the digests of the
/// files already in the destination folder.  `None` entries stand for files
/// whose bytes could not be read; they match nothing (fail-open), and an
/// unreadable candidate is never a duplicate.
pub fn is_duplicate(candidate: &Option<Vec<u8>>, existing: &Vec<Option<Vec<u8>>>) -> (r: bool)
    ensures
        r == (candidate is Some && digest_present(existing@, (candidate->Some_0)@)),
{
    match candidate {
        None => false,
        Some(c) => {
            let n = existing.len();
            let mut i: usize = 0;
            while i < n
                invariant
                    i <= n,
                    n == existing@.len(),
                    candidate is Some && candidate->Some_0 == c,
                    forall|j: int|
                        0 <= j < i ==> !(#[trigger] existing@[j] matches Some(d) && d@ == c@),
                decreases n - i,
            {
                match &existing[i] {
                    Some(d) => {
                        if bytes_eq(d.as_slice(), c.as_slice()) {
                            proof {
                                assert(existing@[i as int] matches Some(w) && w@ == c@);
                                assert(digest_present(existing@, c@));
                            }
                            return true;
                        }
                    },
                    None => {},
                }
                i = i + 1;
            }
            false
        },
    }
}

} // verus!

//! The path model and the watch-loop event filter.
//!
//! A path is a string whose segments are separated by `/`; the parent of a
//! path is everything before its last separator.  Only create events whose
//! path lies directly inside the watch root are dispatched: events from
//! nested folders (for instance the organizer's own moves) are discarded.

use vstd::prelude::*;
use crate::strutil::{find_last_char, last_index_of, str_eq};

verus! {

/// The kind of a filesystem event, as far as the organizer cares: a file
/// came into being, or anything else.
pub enum EventKind {
    Create,
    Other,
}

/// One filesystem event: the path it concerns and what happened there.
pub struct FileEvent {
    pub path: String,
    pub kind: EventKind,
}

/// The parent directory of a path: the characters before the last `/`, or
/// nothing when the path holds no separator.
pub open spec fn parent_of(path: Seq<char>) -> Option<Seq<char>> {
    if last_index_of(path, '/') == -1 {
        None
    } else {
        Some(path.subrange(0, last_index_of(path, '/')))
    }
}

/// Computes the parent directory of `path`, if it has one.
pub fn parent_dir(path: &str) -> (p: Option<&str>)
    ensures
        match p {
            Some(s) => parent_of(path@) == Some(s@),
            None => parent_of(path@) is None,
        },
{
    proof {
        crate::strutil::lemma_last_index_of(path@, '/');
    }
    match find_last_char(path, '/') {
        Some(i) => Some(path.substring_char(0, i)),
        None => None,
    }
}

/// An event deserves dispatch exactly when it is a create event for a path
/// whose parent directory is the watch root itself.
pub open spec fn dispatchable(event: FileEvent, root: Seq<char>) -> bool {
    event.kind is Create && parent_of(event.path@) == Some(root)
}

/// The watch-loop filter: whether `event` should be handed to the
/// organizer, given the watch root.
pub fn should_dispatch(event: &FileEvent, root: &str) -> (b: bool)
    ensures
        b == dispatchable(*event, root@),
{
    match event.kind {
        EventKind::Create => {
            match parent_dir(event.path.as_str()) {
                Some(parent) => str_eq(parent, root),
                None => false,
            }
        },
        EventKind::Other => false,
    }
}

} // verus!

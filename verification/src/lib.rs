//! A small library that organizes newly arrived files in a watched directory.
//!
//! Files are routed into destination sub-folders chosen by their extension
//! according to a configurable rule table; files whose content duplicates an
//! already-organized file are quarantined instead.  The decision logic —
//! rule matching, extension extraction, event filtering, duplicate detection
//! and the organizing policy itself — lives here, fully specified and
//! verified; filesystem watching and mutation are left to the caller.

pub mod strutil;

pub mod rules;

pub mod hashing;

pub mod paths;

pub mod duplicate;

pub mod organizer;

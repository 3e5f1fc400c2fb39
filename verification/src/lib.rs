//! Versioned schema registry for an event specification.
//!
//! The registry identifies which revision of the wire-format specification an
//! event claims to follow, validates that claim by parsing an untrusted
//! version string into a closed enumeration, and resolves the set of
//! attribute names that are valid for each revision.

pub mod spec_version;

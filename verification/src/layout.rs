//! How records are laid out in storage, as far as their sizes go.
//!
//! A stored record starts with a header that names its kind. Numbers take
//! their width in bytes, a flag or a tag takes one byte, an identity takes
//! its 32 bytes, and a text or a list takes a length prefix followed by its
//! bytes or entries. Each kind of record has a fixed room reserved, so the
//! bounds on texts and lists are what makes a record storable.

use vstd::prelude::*;

verus! {

/// Bytes of the header that precedes every stored record.
pub const RECORD_HEADER_LEN: usize = 8;

/// Bytes of the length that precedes a stored text or list.
pub const LENGTH_PREFIX_LEN: usize = 4;

} // verus!

//! The exchange of metadata between nodes.
use vstd::prelude::*;

verus! {

/// The byte by which a node asks another for its metadata on known peers.
pub const KNOWN_ADDRESSES_REQUEST: u8 = 0;

} // verus!

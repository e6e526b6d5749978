//! The exchange of known peers between nodes.
use vstd::prelude::*;

verus! {

/// The byte by which a node asks another for the peers it knows.
pub const KNOWN_ADDRESSES_REQUEST: u8 = 1;

/// Whether a request byte asks for the known peers.
pub fn is_known_addresses_request(request: u8) -> (asks: bool)
    ensures
        asks == (request == KNOWN_ADDRESSES_REQUEST),
{
    request == KNOWN_ADDRESSES_REQUEST
}

} // verus!

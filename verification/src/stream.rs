//! The packet stream's decision step. The stream alternates between an
//! idle state (no datagram available) and a ready state (one datagram
//! pulled from the transport and dispatched). Pulling from the socket
//! is I/O and stays with the caller; what the stream decides each poll
//! cycle — nothing yet, or the dispatch result for the one datagram —
//! is this function. The stream never buffers more than that one
//! pending datagram.

use vstd::prelude::*;

use crate::error::UnpackError;
use crate::packet::{parse_packet, spec_parse_packet, Packet};

verus! {

/// One poll cycle's yield: nothing when the transport had no datagram,
/// otherwise the decode result for the complete datagram it handed over.
/// A decode error only ever concerns that one datagram; the stream is
/// back at idle either way.
pub fn next_packet(datagram: Option<&Vec<u8>>) -> (r: Option<Result<Packet, UnpackError>>)
    ensures
        match datagram {
            None => r is None,
            Some(d) => r matches Some(res) && spec_parse_packet(d@, res),
        },
{
    match datagram {
        None => None,
        Some(d) => Some(parse_packet(d.len(), d.as_slice())),
    }
}

} // verus!

//! The decode error taxonomy.
//!
//! Every error aborts the current datagram only; the caller decides whether
//! to log, count or drop it. A transport failure is not represented here:
//! it belongs to the unverified shell around the library, which stops
//! pulling datagrams when its socket dies.

use vstd::prelude::*;

verus! {

/// Why one datagram could not be decoded.
#[derive(Debug, Clone, Copy, PartialEq, Eq, Structural)]
pub enum UnpackError {
    /// The datagram is shorter than the header width its format requires.
    /// Carries the datagram's declared byte length.
    PacketTooSmall(usize),
    /// A field or array needs more bytes than remain after the header.
    /// `needed` is the byte count the decode step requires, `available`
    /// what was left for it.
    Truncated { needed: usize, available: usize },
    /// A coded field's raw value maps to no variant of its table.
    /// Carries the raw wire value (a multi-byte code is packed
    /// little-endian; a signed code keeps its byte pattern).
    InvalidCode(u32),
    /// The declared format version matches no implemented decoder set.
    UnknownFormatVersion(u16),
    /// The packet-type id is structurally valid but no decoder for it is
    /// implemented under the detected format version.
    UnsupportedPacketType(u8),
}

} // verus!

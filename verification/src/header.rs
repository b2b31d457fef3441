//! The fixed packet header common to every packet type.

use vstd::prelude::*;

use crate::generic::RawFloat;

verus! {

/// Header carried by every datagram, decoded before dispatch.
///
/// `packet_format` is the wire-format revision (little-endian year in the
/// first two bytes of every datagram, the one field every revision keeps).
/// `player_car_index` locates the player's slot in per-car arrays, with
/// `255` as the "none" sentinel; `secondary_player_car_index` is only on
/// the wire in revisions that define it and holds `255` otherwise.
#[derive(Debug, Clone, Copy, PartialEq, Eq, Structural)]
pub struct PacketHeader {
    pub packet_format: u16,
    pub game_major_version: u8,
    pub game_minor_version: u8,
    pub packet_version: u8,
    pub packet_id: u8,
    pub session_uid: u64,
    pub session_time: RawFloat,
    pub frame_identifier: u32,
    pub player_car_index: u8,
    pub secondary_player_car_index: u8,
}

impl PacketHeader {
    /// The width in bytes of the full header value, a revision's header
    /// field set included or padded with its sentinel. No datagram shorter
    /// than this is dispatched under any revision.
    pub fn size() -> (r: usize)
        ensures
            r == 24,
    {
        24
    }

    pub fn new(
        packet_format: u16,
        game_major_version: u8,
        game_minor_version: u8,
        packet_version: u8,
        packet_id: u8,
        session_uid: u64,
        session_time: RawFloat,
        frame_identifier: u32,
        player_car_index: u8,
        secondary_player_car_index: u8,
    ) -> (r: PacketHeader)
        ensures
            r == (PacketHeader {
                packet_format,
                game_major_version,
                game_minor_version,
                packet_version,
                packet_id,
                session_uid,
                session_time,
                frame_identifier,
                player_car_index,
                secondary_player_car_index,
            }),
    {
        PacketHeader {
            packet_format,
            game_major_version,
            game_minor_version,
            packet_version,
            packet_id,
            session_uid,
            session_time,
            frame_identifier,
            player_car_index,
            secondary_player_car_index,
        }
    }
}

} // verus!

//! The tagged packet union and the dispatcher that selects a decoder set
//! by declared format version, then a decoder within it by packet-type id.

use vstd::prelude::*;

use crate::car_status::PacketCarStatusData;
use crate::car_telemetry::PacketCarTelemetryData;
use crate::error::UnpackError;
use crate::event::PacketEventData;
use crate::header::PacketHeader;
use crate::lap::PacketLapData;
use crate::participants::PacketParticipantsData;
use crate::reader::u16_at;
use crate::session::PacketSessionData;

verus! {

/// One decoded datagram. Exactly one variant is populated per datagram;
/// the header is always present and retrievable regardless of variant.
#[derive(Debug, Clone, PartialEq, Eq)]
pub enum Packet {
    Session(PacketSessionData),
    Lap(PacketLapData),
    Event(PacketEventData),
    Participants(PacketParticipantsData),
    CarTelemetry(PacketCarTelemetryData),
    CarStatus(PacketCarStatusData),
}

impl Packet {
    /// The header of the decoded packet, whatever its variant.
    pub open spec fn spec_header(&self) -> PacketHeader {
        match self {
            Packet::Session(p) => p.header,
            Packet::Lap(p) => p.header,
            Packet::Event(p) => p.header,
            Packet::Participants(p) => p.header,
            Packet::CarTelemetry(p) => p.header,
            Packet::CarStatus(p) => p.header,
        }
    }

    pub fn header(&self) -> (r: &PacketHeader)
        ensures
            r == self.spec_header(),
    {
        match self {
            Packet::Session(p) => p.header(),
            Packet::Lap(p) => p.header(),
            Packet::Event(p) => p.header(),
            Packet::Participants(p) => p.header(),
            Packet::CarTelemetry(p) => p.header(),
            Packet::CarStatus(p) => p.header(),
        }
    }
}

/// The packet kinds a header's type id can name.
#[derive(Debug, Clone, Copy, PartialEq, Eq, Structural)]
pub enum PacketType {
    Motion,
    Session,
    LapData,
    Event,
    Participants,
    CarSetups,
    CarTelemetry,
    CarStatus,
    FinalClassification,
    LobbyInfo,
}

impl PacketType {
    /// The closed id table: `0` motion through `9` lobby info in
    /// declaration order. An id outside it is a structurally unknown
    /// packet kind, reported as unsupported rather than as a bad code so
    /// that it never aborts the stream.
    pub open spec fn spec_try_from(value: u8) -> Result<PacketType, UnpackError> {
        match value {
            0u8 => Ok(PacketType::Motion),
            1u8 => Ok(PacketType::Session),
            2u8 => Ok(PacketType::LapData),
            3u8 => Ok(PacketType::Event),
            4u8 => Ok(PacketType::Participants),
            5u8 => Ok(PacketType::CarSetups),
            6u8 => Ok(PacketType::CarTelemetry),
            7u8 => Ok(PacketType::CarStatus),
            8u8 => Ok(PacketType::FinalClassification),
            9u8 => Ok(PacketType::LobbyInfo),
            _ => Err(UnpackError::UnsupportedPacketType(value)),
        }
    }

    pub fn try_from(value: u8) -> (r: Result<PacketType, UnpackError>)
        ensures
            r == PacketType::spec_try_from(value),
    {
        match value {
            0u8 => Ok(PacketType::Motion),
            1u8 => Ok(PacketType::Session),
            2u8 => Ok(PacketType::LapData),
            3u8 => Ok(PacketType::Event),
            4u8 => Ok(PacketType::Participants),
            5u8 => Ok(PacketType::CarSetups),
            6u8 => Ok(PacketType::CarTelemetry),
            7u8 => Ok(PacketType::CarStatus),
            8u8 => Ok(PacketType::FinalClassification),
            9u8 => Ok(PacketType::LobbyInfo),
            _ => Err(UnpackError::UnsupportedPacketType(value)),
        }
    }
}

/// What the decode of one datagram must be: a datagram too short to
/// carry even the format-version field is rejected, an unknown version
/// is reported as such, and a known version hands the datagram to its
/// decoder set.
pub open spec fn spec_parse_packet(s: Seq<u8>, r: Result<Packet, UnpackError>) -> bool {
    if s.len() < 2 {
        r == Err::<Packet, UnpackError>(UnpackError::PacketTooSmall(s.len() as usize))
    } else {
        match u16_at(s, 0) {
            2019u16 => crate::f1_2019::spec_packet_result(s, r),
            2020u16 => crate::f1_2020::spec_packet_result(s, r),
            v => r == Err::<Packet, UnpackError>(UnpackError::UnknownFormatVersion(v)),
        }
    }
}

/// Decodes one complete datagram of `size` bytes: detects the format
/// version from the first two bytes, selects the decoder set for it,
/// and dispatches on the packet-type id.
///
/// The result is a function of the datagram bytes alone: decoding the
/// same buffer twice yields field-for-field identical results, and no
/// decode reads past the buffer end or panics.
pub fn parse_packet(size: usize, packet: &[u8]) -> (r: Result<Packet, UnpackError>)
    requires
        size == packet@.len(),
    ensures
        spec_parse_packet(packet@, r),
{
    if size < 2 {
        return Err(UnpackError::PacketTooSmall(size));
    }
    let packet_format = parse_version(packet);
    match packet_format {
        2019u16 => crate::f1_2019::parse_packet(size, packet),
        2020u16 => crate::f1_2020::parse_packet(size, packet),
        _ => Err(UnpackError::UnknownFormatVersion(packet_format)),
    }
}

/// Two session payloads carrying the same decoded content, field for
/// field (array contents compared by value).
pub open spec fn spec_session_equivalent(a: PacketSessionData, b: PacketSessionData) -> bool {
    &&& a.header == b.header
    &&& a.weather == b.weather
    &&& a.track_temperature == b.track_temperature
    &&& a.air_temperature == b.air_temperature
    &&& a.total_laps == b.total_laps
    &&& a.track_length == b.track_length
    &&& a.session_type == b.session_type
    &&& a.track == b.track
    &&& a.formula == b.formula
    &&& a.session_time_left == b.session_time_left
    &&& a.session_duration == b.session_duration
    &&& a.pit_speed_limit == b.pit_speed_limit
    &&& a.game_paused == b.game_paused
    &&& a.is_spectating == b.is_spectating
    &&& a.spectator_car_index == b.spectator_car_index
    &&& a.sli_pro_native_support == b.sli_pro_native_support
    &&& a.num_marshal_zones == b.num_marshal_zones
    &&& a.marshal_zones@ == b.marshal_zones@
    &&& a.safety_car_status == b.safety_car_status
    &&& a.network_game == b.network_game
    &&& a.num_weather_forecast_samples == b.num_weather_forecast_samples
    &&& a.weather_forecast_samples@ == b.weather_forecast_samples@
    &&& a.forecast_accuracy == b.forecast_accuracy
    &&& a.ai_difficulty == b.ai_difficulty
    &&& a.season_identifier == b.season_identifier
    &&& a.weekend_identifier == b.weekend_identifier
    &&& a.session_identifier == b.session_identifier
    &&& a.pit_stop_window_ideal_lap == b.pit_stop_window_ideal_lap
    &&& a.pit_stop_window_latest_lap == b.pit_stop_window_latest_lap
    &&& a.pit_stop_rejoin_position == b.pit_stop_rejoin_position
    &&& a.driving_assists == b.driving_assists
}

/// Two participant slots carrying the same decoded content; the name
/// bytes are compared by value.
pub open spec fn spec_participant_equivalent(
    a: crate::participants::ParticipantData,
    b: crate::participants::ParticipantData,
) -> bool {
    &&& a.ai_controlled == b.ai_controlled
    &&& a.driver_id == b.driver_id
    &&& a.team == b.team
    &&& a.race_number == b.race_number
    &&& a.nationality == b.nationality
    &&& a.name@ == b.name@
    &&& a.telemetry_public == b.telemetry_public
}

/// Two decoded packets carrying the same content: the same variant,
/// the same header, and field-for-field identical payloads.
pub open spec fn spec_packet_equivalent(a: Packet, b: Packet) -> bool {
    match (a, b) {
        (Packet::Session(x), Packet::Session(y)) => spec_session_equivalent(x, y),
        (Packet::Lap(x), Packet::Lap(y)) => {
            &&& x.header == y.header
            &&& x.lap_data@ == y.lap_data@
        },
        (Packet::Event(x), Packet::Event(y)) => x == y,
        (Packet::Participants(x), Packet::Participants(y)) => {
            &&& x.header == y.header
            &&& x.num_active_cars == y.num_active_cars
            &&& x.participants@.len() == y.participants@.len()
            &&& forall|j: int|
                0 <= j < x.participants@.len() ==> spec_participant_equivalent(
                    x.participants@[j],
                    y.participants@[j],
                )
        },
        (Packet::CarTelemetry(x), Packet::CarTelemetry(y)) => {
            &&& x.header == y.header
            &&& x.car_telemetry_data@ == y.car_telemetry_data@
            &&& x.button_status == y.button_status
        },
        (Packet::CarStatus(x), Packet::CarStatus(y)) => {
            &&& x.header == y.header
            &&& x.car_status_data@ == y.car_status_data@
        },
        _ => false,
    }
}

/// Decoding is deterministic and side-effect-free: any two results the
/// decode contract admits for the same byte buffer are field-for-field
/// identical — the same error, or packets with the same content.
pub proof fn lemma_decode_deterministic(
    s: Seq<u8>,
    r1: Result<Packet, UnpackError>,
    r2: Result<Packet, UnpackError>,
)
    requires
        spec_parse_packet(s, r1),
        spec_parse_packet(s, r2),
    ensures
        match (r1, r2) {
            (Ok(a), Ok(b)) => spec_packet_equivalent(a, b),
            (Err(e1), Err(e2)) => e1 == e2,
            _ => false,
        },
{
    if s.len() >= 2 {
        if u16_at(s, 0) == 2019 {
            crate::f1_2019::lemma_packet_result_deterministic(s, r1, r2);
        } else if u16_at(s, 0) == 2020 {
            crate::f1_2020::lemma_packet_result_deterministic(s, r1, r2);
        }
    }
}

/// A datagram shorter than the header width is rejected as too small
/// before any decode, under every revision the dispatcher knows.
/// (An unknown revision is rejected as such instead, whatever the
/// length; the decoder never reads past the buffer end in either case,
/// as its verified reads show.)
pub proof fn lemma_short_datagram_rejected(s: Seq<u8>, r: Result<Packet, UnpackError>)
    requires
        spec_parse_packet(s, r),
        s.len() < 24,
        s.len() >= 2 ==> (u16_at(s, 0) == 2019 || u16_at(s, 0) == 2020),
    ensures
        r == Err::<Packet, UnpackError>(UnpackError::PacketTooSmall(s.len() as usize)),
{
}

/// The presence of the optional trailing session fields is decided by
/// the format revision alone, never by packet content: a session
/// decoded under revision 2019 has the forecast section empty and every
/// trailing optional field absent.
pub proof fn lemma_session_tail_absent_2019(
    s: Seq<u8>,
    h: PacketHeader,
    p: PacketSessionData,
)
    requires
        crate::f1_2019::spec_session_result(s, h, Ok(p)),
    ensures
        p.weather_forecast_samples@.len() == 0,
        p.forecast_accuracy is None,
        p.ai_difficulty is None,
        p.season_identifier is None,
        p.weekend_identifier is None,
        p.session_identifier is None,
        p.pit_stop_window_ideal_lap is None,
        p.pit_stop_window_latest_lap is None,
        p.pit_stop_rejoin_position is None,
        p.driving_assists is None,
{
}

/// The counterpart under revision 2020, which defines the trailing
/// fields: every one of them is present in a decoded session.
pub proof fn lemma_session_tail_present_2020(
    s: Seq<u8>,
    h: PacketHeader,
    p: PacketSessionData,
)
    requires
        crate::f1_2020::spec_session_result(s, h, Ok(p)),
    ensures
        p.weather_forecast_samples@.len() == 20,
        p.forecast_accuracy is Some,
        p.ai_difficulty is Some,
        p.season_identifier is Some,
        p.weekend_identifier is Some,
        p.session_identifier is Some,
        p.pit_stop_window_ideal_lap is Some,
        p.pit_stop_window_latest_lap is Some,
        p.pit_stop_rejoin_position is Some,
        p.driving_assists is Some,
{
}

/// Reads the declared format version: the little-endian value of the
/// first two bytes, the one field every wire revision preserves.
pub fn parse_version(packet: &[u8]) -> (r: u16)
    requires
        packet@.len() >= 2,
    ensures
        r == u16_at(packet@, 0),
{
    let mut pos: usize = 0;
    crate::reader::read_u16(packet, &mut pos)
}

} // verus!

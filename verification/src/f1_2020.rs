//! The decoder set for wire-format revision 2020.
//!
//! This revision's header carries the secondary-player field, so it
//! consumes 24 bytes. Its session packet appends the weather forecast
//! section and the trailing identifier and driving-assist fields, which
//! are therefore always present in a session decoded under it; the
//! other payload layouts it keeps, each shifted by the wider header.

use vstd::bytes::{spec_u16_to_le_bytes, spec_u32_to_le_bytes, spec_u64_to_le_bytes};
use vstd::bytes::{
    lemma_auto_spec_u16_to_from_le_bytes, lemma_auto_spec_u32_to_from_le_bytes,
    lemma_auto_spec_u64_to_from_le_bytes,
};
use vstd::prelude::*;
use vstd::seq_lib::*;

use crate::car_status::{
    parse_car, spec_car_status, spec_car_status_err, CarStatusData, PacketCarStatusData,
    CAR_STATUS_BYTES,
};
use crate::car_telemetry::{
    parse_telemetry_car, spec_telemetry, CarTelemetryData, PacketCarTelemetryData, TELEMETRY_BYTES,
};
use crate::error::UnpackError;
use crate::event::{Event, PacketEventData};
use crate::generic::Flag;
use crate::lap::{parse_lap, spec_lap, spec_lap_err, LapData, PacketLapData, LAP_BYTES};
use crate::participants::{
    parse_participant, spec_participant_err, spec_participant_matches, PacketParticipantsData,
    ParticipantData, PARTICIPANT_BYTES,
};
use crate::header::PacketHeader;
use crate::packet::{Packet, PacketType};
use crate::reader::{f32_at, i8_at, read_f32, read_i8, read_u16, read_u32, read_u64, read_u8, u16_at, u32_at, u64_at, u8_at};
use crate::session::{
    BrakingAssist, DrivingAssists, DynamicRacingLine, DynamicRacingLineType, ForecastAccuracy,
    Formula, GearboxAssist, MarshalZone, PacketSessionData, SafetyCar, SessionType,
    TemperatureChange, Track, Weather, WeatherForecastSample,
};

verus! {

/// Bytes of header on the wire under this revision.
pub const HEADER_BYTES: usize = 24;

/// The header as a function of the datagram bytes: as revision 2019,
/// with the secondary-player field on the wire after the player field.
pub open spec fn spec_header(s: Seq<u8>) -> PacketHeader {
    PacketHeader {
        packet_format: u16_at(s, 0),
        game_major_version: u8_at(s, 2),
        game_minor_version: u8_at(s, 3),
        packet_version: u8_at(s, 4),
        packet_id: u8_at(s, 5),
        session_uid: u64_at(s, 6),
        session_time: f32_at(s, 14),
        frame_identifier: u32_at(s, 18),
        player_car_index: u8_at(s, 22),
        secondary_player_car_index: u8_at(s, 23),
    }
}

/// Decodes the fixed header. The caller has already checked the minimum
/// datagram size for this revision.
pub fn parse_header(buf: &[u8]) -> (h: PacketHeader)
    requires
        buf@.len() >= 24,
    ensures
        h == spec_header(buf@),
{
    let mut pos: usize = 0;
    let packet_format = read_u16(buf, &mut pos);
    let game_major_version = read_u8(buf, &mut pos);
    let game_minor_version = read_u8(buf, &mut pos);
    let packet_version = read_u8(buf, &mut pos);
    let packet_id = read_u8(buf, &mut pos);
    let session_uid = read_u64(buf, &mut pos);
    let session_time = read_f32(buf, &mut pos);
    let frame_identifier = read_u32(buf, &mut pos);
    let player_car_index = read_u8(buf, &mut pos);
    let secondary_player_car_index = read_u8(buf, &mut pos);
    PacketHeader::new(
        packet_format,
        game_major_version,
        game_minor_version,
        packet_version,
        packet_id,
        session_uid,
        session_time,
        frame_identifier,
        player_car_index,
        secondary_player_car_index,
    )
}

/// The header's fixed fields re-encoded to their wire bytes.
pub open spec fn spec_encode_header(h: PacketHeader) -> Seq<u8> {
    spec_u16_to_le_bytes(h.packet_format) + seq![
        h.game_major_version,
        h.game_minor_version,
        h.packet_version,
        h.packet_id,
    ] + spec_u64_to_le_bytes(h.session_uid) + spec_u32_to_le_bytes(h.session_time.bits)
        + spec_u32_to_le_bytes(h.frame_identifier) + seq![
        h.player_car_index,
        h.secondary_player_car_index,
    ]
}

/// Round trip: decoding a header and re-encoding it reproduces the
/// original wire bytes exactly.
pub proof fn lemma_header_round_trip(s: Seq<u8>)
    requires
        s.len() >= 24,
    ensures
        spec_encode_header(spec_header(s)) == s.subrange(0, 24),
{
    lemma_auto_spec_u16_to_from_le_bytes();
    lemma_auto_spec_u32_to_from_le_bytes();
    lemma_auto_spec_u64_to_from_le_bytes();
    let h = spec_header(s);
    assert(spec_u16_to_le_bytes(h.packet_format) == s.subrange(0, 2));
    assert(spec_u64_to_le_bytes(h.session_uid) == s.subrange(6, 14));
    assert(spec_u32_to_le_bytes(h.session_time.bits) == s.subrange(14, 18));
    assert(spec_u32_to_le_bytes(h.frame_identifier) == s.subrange(18, 22));
    assert_seqs_equal!(spec_encode_header(spec_header(s)) == s.subrange(0, 24));
}

/// One marshal zone as a function of the datagram bytes; the zone array
/// starts at offset 43 under this revision.
pub open spec fn spec_zone(s: Seq<u8>, p: int) -> MarshalZone {
    MarshalZone { zone_start: f32_at(s, p), zone_flag: Flag::spec_try_from(i8_at(s, p + 4))->Ok_0 }
}

/// The invalid flag code of one marshal zone, if any.
pub open spec fn spec_zone_err(s: Seq<u8>, p: int) -> Option<UnpackError> {
    match Flag::spec_try_from(i8_at(s, p + 4)) {
        Err(e) => Some(e),
        Ok(_) => None,
    }
}

/// The first invalid flag code over the marshal zones from zone `i` on.
pub open spec fn spec_zones_err(s: Seq<u8>, i: int) -> Option<UnpackError>
    decreases 21 - i,
{
    if i < 0 || i >= 21 {
        None
    } else {
        match spec_zone_err(s, 43 + i * 5) {
            Some(e) => Some(e),
            None => spec_zones_err(s, i + 1),
        }
    }
}

/// The first invalid code among one forecast sample's coded fields, in
/// read order, if any. `p` is the sample's base offset.
pub open spec fn spec_sample_err(s: Seq<u8>, p: int) -> Option<UnpackError> {
    match SessionType::spec_try_from(u8_at(s, p)) {
        Err(e) => Some(e),
        Ok(_) => match Weather::spec_try_from(u8_at(s, p + 2)) {
            Err(e) => Some(e),
            Ok(_) => match TemperatureChange::spec_try_from(u8_at(s, p + 4)) {
                Err(e) => Some(e),
                Ok(_) => match TemperatureChange::spec_try_from(u8_at(s, p + 6)) {
                    Err(e) => Some(e),
                    Ok(_) => None,
                },
            },
        },
    }
}

/// One forecast sample as a function of the datagram bytes, meaningful
/// when `spec_sample_err` is `None`.
pub open spec fn spec_sample(s: Seq<u8>, p: int) -> WeatherForecastSample {
    WeatherForecastSample {
        session_type: SessionType::spec_try_from(u8_at(s, p))->Ok_0,
        time_offset: u8_at(s, p + 1),
        weather: Weather::spec_try_from(u8_at(s, p + 2))->Ok_0,
        track_temperature: i8_at(s, p + 3),
        track_temperature_change: TemperatureChange::spec_try_from(u8_at(s, p + 4))->Ok_0,
        air_temperature: i8_at(s, p + 5),
        air_temperature_change: TemperatureChange::spec_try_from(u8_at(s, p + 6))->Ok_0,
        rain_percentage: u8_at(s, p + 7),
    }
}

/// The first invalid code over the forecast samples from sample `i` on;
/// the sample array starts at offset 151 and has the fixed twenty
/// entries.
pub open spec fn spec_samples_err(s: Seq<u8>, i: int) -> Option<UnpackError>
    decreases 20 - i,
{
    if i < 0 || i >= 20 {
        None
    } else {
        match spec_sample_err(s, 151 + i * 8) {
            Some(e) => Some(e),
            None => spec_samples_err(s, i + 1),
        }
    }
}

/// The first invalid code among the session packet's coded fields, in
/// read order, if any.
pub open spec fn spec_session_err(s: Seq<u8>) -> Option<UnpackError> {
    match Weather::spec_try_from(u8_at(s, 24)) {
        Err(e) => Some(e),
        Ok(_) => match SessionType::spec_try_from(u8_at(s, 30)) {
            Err(e) => Some(e),
            Ok(_) => match Track::spec_try_from(i8_at(s, 31)) {
                Err(e) => Some(e),
                Ok(_) => match Formula::spec_try_from(u8_at(s, 32)) {
                    Err(e) => Some(e),
                    Ok(_) => match spec_zones_err(s, 0) {
                        Some(e) => Some(e),
                        None => match SafetyCar::spec_try_from(u8_at(s, 148)) {
                            Err(e) => Some(e),
                            Ok(_) => match spec_samples_err(s, 0) {
                                Some(e) => Some(e),
                                None => match ForecastAccuracy::spec_try_from(u8_at(s, 311)) {
                                    Err(e) => Some(e),
                                    Ok(_) => match BrakingAssist::spec_try_from(u8_at(s, 329)) {
                                        Err(e) => Some(e),
                                        Ok(_) => match GearboxAssist::spec_try_from(
                                            u8_at(s, 330),
                                        ) {
                                            Err(e) => Some(e),
                                            Ok(_) => match DynamicRacingLine::spec_try_from(
                                                u8_at(s, 335),
                                            ) {
                                                Err(e) => Some(e),
                                                Ok(_) => match DynamicRacingLineType::spec_try_from(
                                                    u8_at(s, 336),
                                                ) {
                                                    Err(e) => Some(e),
                                                    Ok(_) => None,
                                                },
                                            },
                                        },
                                    },
                                },
                            },
                        },
                    },
                },
            },
        },
    }
}

/// Every field of a decoded session packet pinned to its wire value.
/// This revision defines the forecast section and the trailing fields,
/// so every trailing optional field is present.
pub open spec fn spec_session_matches(s: Seq<u8>, h: PacketHeader, p: PacketSessionData) -> bool {
    &&& p.header == h
    &&& p.weather == Weather::spec_try_from(u8_at(s, 24))->Ok_0
    &&& p.track_temperature == i8_at(s, 25)
    &&& p.air_temperature == i8_at(s, 26)
    &&& p.total_laps == u8_at(s, 27)
    &&& p.track_length == u16_at(s, 28)
    &&& p.session_type == SessionType::spec_try_from(u8_at(s, 30))->Ok_0
    &&& p.track == Track::spec_try_from(i8_at(s, 31))->Ok_0
    &&& p.formula == Formula::spec_try_from(u8_at(s, 32))->Ok_0
    &&& p.session_time_left == u16_at(s, 33)
    &&& p.session_duration == u16_at(s, 35)
    &&& p.pit_speed_limit == u8_at(s, 37)
    &&& p.game_paused == (u8_at(s, 38) == 1)
    &&& p.is_spectating == (u8_at(s, 39) == 1)
    &&& p.spectator_car_index == u8_at(s, 40)
    &&& p.sli_pro_native_support == (u8_at(s, 41) == 1)
    &&& p.num_marshal_zones == u8_at(s, 42)
    &&& p.marshal_zones@.len() == 21
    &&& forall|z: int| 0 <= z < 21 ==> p.marshal_zones@[z] == spec_zone(s, 43 + z * 5)
    &&& p.safety_car_status == SafetyCar::spec_try_from(u8_at(s, 148))->Ok_0
    &&& p.network_game == (u8_at(s, 149) == 1)
    &&& p.num_weather_forecast_samples == u8_at(s, 150)
    &&& p.weather_forecast_samples@.len() == 20
    &&& forall|k: int| 0 <= k < 20 ==> p.weather_forecast_samples@[k] == spec_sample(s, 151 + k * 8)
    &&& p.forecast_accuracy == Some(ForecastAccuracy::spec_try_from(u8_at(s, 311))->Ok_0)
    &&& p.ai_difficulty == Some(u8_at(s, 312))
    &&& p.season_identifier == Some(u32_at(s, 313))
    &&& p.weekend_identifier == Some(u32_at(s, 317))
    &&& p.session_identifier == Some(u32_at(s, 321))
    &&& p.pit_stop_window_ideal_lap == Some(u8_at(s, 325))
    &&& p.pit_stop_window_latest_lap == Some(u8_at(s, 326))
    &&& p.pit_stop_rejoin_position == Some(u8_at(s, 327))
    &&& p.driving_assists == Some(
        DrivingAssists {
            steering_assist: u8_at(s, 328) == 1,
            braking_assist: BrakingAssist::spec_try_from(u8_at(s, 329))->Ok_0,
            gearbox_assist: GearboxAssist::spec_try_from(u8_at(s, 330))->Ok_0,
            pit_assist: u8_at(s, 331) == 1,
            pit_release_assist: u8_at(s, 332) == 1,
            ers_assist: u8_at(s, 333) == 1,
            drs_assist: u8_at(s, 334) == 1,
            dynamic_racing_line: DynamicRacingLine::spec_try_from(u8_at(s, 335))->Ok_0,
            dynamic_racing_line_type: DynamicRacingLineType::spec_try_from(u8_at(s, 336))->Ok_0,
        },
    )
}

/// What a decoded session result must be for datagram bytes `s`.
pub open spec fn spec_session_result(
    s: Seq<u8>,
    h: PacketHeader,
    r: Result<PacketSessionData, UnpackError>,
) -> bool {
    if s.len() < 24 + 313 {
        r == Err::<PacketSessionData, UnpackError>(
            UnpackError::Truncated { needed: 313usize, available: (s.len() - 24) as usize },
        )
    } else {
        match spec_session_err(s) {
            Some(e) => r == Err::<PacketSessionData, UnpackError>(e),
            None => match r {
                Ok(p) => spec_session_matches(s, h, p),
                Err(_) => false,
            },
        }
    }
}

/// Decodes a session packet: the fixed scalar fields, the twenty-one
/// marshal zones, the twenty weather forecast samples, and the trailing
/// identifier and driving-assist fields this revision defines.
pub fn parse_session_data(buf: &[u8], header: PacketHeader) -> (r: Result<
    PacketSessionData,
    UnpackError,
>)
    requires
        buf@.len() >= 24,
    ensures
        spec_session_result(buf@, header, r),
{
    let n = buf.len();
    if n - 24 < 313 {
        return Err(UnpackError::Truncated { needed: 313, available: n - 24 });
    }
    let mut p: usize = 24;
    let weather = match Weather::try_from(read_u8(buf, &mut p)) {
        Ok(v) => v,
        Err(e) => { return Err(e) },
    };
    let track_temperature = read_i8(buf, &mut p);
    let air_temperature = read_i8(buf, &mut p);
    let total_laps = read_u8(buf, &mut p);
    let track_length = read_u16(buf, &mut p);
    let session_type = match SessionType::try_from(read_u8(buf, &mut p)) {
        Ok(v) => v,
        Err(e) => { return Err(e) },
    };
    let track = match Track::try_from(read_i8(buf, &mut p)) {
        Ok(v) => v,
        Err(e) => { return Err(e) },
    };
    let formula = match Formula::try_from(read_u8(buf, &mut p)) {
        Ok(v) => v,
        Err(e) => { return Err(e) },
    };
    let session_time_left = read_u16(buf, &mut p);
    let session_duration = read_u16(buf, &mut p);
    let pit_speed_limit = read_u8(buf, &mut p);
    let game_paused = read_u8(buf, &mut p) == 1;
    let is_spectating = read_u8(buf, &mut p) == 1;
    let spectator_car_index = read_u8(buf, &mut p);
    let sli_pro_native_support = read_u8(buf, &mut p) == 1;
    let num_marshal_zones = read_u8(buf, &mut p);
    let mut marshal_zones: Vec<MarshalZone> = Vec::new();
    let mut i: usize = 0;
    while i < 21
        invariant
            buf@.len() >= 24 + 313,
            i <= 21,
            marshal_zones@.len() == i,
            forall|z: int| 0 <= z < i ==> marshal_zones@[z] == spec_zone(buf@, 43 + z * 5),
            spec_zones_err(buf@, 0) == spec_zones_err(buf@, i as int),
            Weather::spec_try_from(u8_at(buf@, 24)) is Ok,
            SessionType::spec_try_from(u8_at(buf@, 30)) is Ok,
            Track::spec_try_from(i8_at(buf@, 31)) is Ok,
            Formula::spec_try_from(u8_at(buf@, 32)) is Ok,
        decreases 21 - i,
    {
        let mut zp: usize = 43 + i * 5;
        let zone_start = read_f32(buf, &mut zp);
        let zone_flag = match Flag::try_from(read_i8(buf, &mut zp)) {
            Ok(v) => v,
            Err(e) => { return Err(e) },
        };
        marshal_zones.push(MarshalZone { zone_start, zone_flag });
        i = i + 1;
    }
    let mut p: usize = 148;
    let safety_car_status = match SafetyCar::try_from(read_u8(buf, &mut p)) {
        Ok(v) => v,
        Err(e) => { return Err(e) },
    };
    let network_game = read_u8(buf, &mut p) == 1;
    let num_weather_forecast_samples = read_u8(buf, &mut p);
    let mut weather_forecast_samples: Vec<WeatherForecastSample> = Vec::new();
    let mut k: usize = 0;
    while k < 20
        invariant
            buf@.len() >= 24 + 313,
            k <= 20,
            weather_forecast_samples@.len() == k,
            forall|j: int|
                0 <= j < k ==> weather_forecast_samples@[j] == spec_sample(buf@, 151 + j * 8),
            spec_samples_err(buf@, 0) == spec_samples_err(buf@, k as int),
            Weather::spec_try_from(u8_at(buf@, 24)) is Ok,
            SessionType::spec_try_from(u8_at(buf@, 30)) is Ok,
            Track::spec_try_from(i8_at(buf@, 31)) is Ok,
            Formula::spec_try_from(u8_at(buf@, 32)) is Ok,
            spec_zones_err(buf@, 0) is None,
            SafetyCar::spec_try_from(u8_at(buf@, 148)) is Ok,
        decreases 20 - k,
    {
        let mut sp: usize = 151 + k * 8;
        let sample_session_type = match SessionType::try_from(read_u8(buf, &mut sp)) {
            Ok(v) => v,
            Err(e) => { return Err(e) },
        };
        let time_offset = read_u8(buf, &mut sp);
        let sample_weather = match Weather::try_from(read_u8(buf, &mut sp)) {
            Ok(v) => v,
            Err(e) => { return Err(e) },
        };
        let sample_track_temperature = read_i8(buf, &mut sp);
        let track_temperature_change = match TemperatureChange::try_from(read_u8(buf, &mut sp)) {
            Ok(v) => v,
            Err(e) => { return Err(e) },
        };
        let sample_air_temperature = read_i8(buf, &mut sp);
        let air_temperature_change = match TemperatureChange::try_from(read_u8(buf, &mut sp)) {
            Ok(v) => v,
            Err(e) => { return Err(e) },
        };
        let rain_percentage = read_u8(buf, &mut sp);
        weather_forecast_samples.push(
            WeatherForecastSample {
                session_type: sample_session_type,
                time_offset,
                weather: sample_weather,
                track_temperature: sample_track_temperature,
                track_temperature_change,
                air_temperature: sample_air_temperature,
                air_temperature_change,
                rain_percentage,
            },
        );
        k = k + 1;
    }
    let mut p: usize = 311;
    let forecast_accuracy = match ForecastAccuracy::try_from(read_u8(buf, &mut p)) {
        Ok(v) => v,
        Err(e) => { return Err(e) },
    };
    let ai_difficulty = read_u8(buf, &mut p);
    let season_identifier = read_u32(buf, &mut p);
    let weekend_identifier = read_u32(buf, &mut p);
    let session_identifier = read_u32(buf, &mut p);
    let pit_stop_window_ideal_lap = read_u8(buf, &mut p);
    let pit_stop_window_latest_lap = read_u8(buf, &mut p);
    let pit_stop_rejoin_position = read_u8(buf, &mut p);
    let steering_assist = read_u8(buf, &mut p) == 1;
    let braking_assist = match BrakingAssist::try_from(read_u8(buf, &mut p)) {
        Ok(v) => v,
        Err(e) => { return Err(e) },
    };
    let gearbox_assist = match GearboxAssist::try_from(read_u8(buf, &mut p)) {
        Ok(v) => v,
        Err(e) => { return Err(e) },
    };
    let pit_assist = read_u8(buf, &mut p) == 1;
    let pit_release_assist = read_u8(buf, &mut p) == 1;
    let ers_assist = read_u8(buf, &mut p) == 1;
    let drs_assist = read_u8(buf, &mut p) == 1;
    let dynamic_racing_line = match DynamicRacingLine::try_from(read_u8(buf, &mut p)) {
        Ok(v) => v,
        Err(e) => { return Err(e) },
    };
    let dynamic_racing_line_type = match DynamicRacingLineType::try_from(read_u8(buf, &mut p)) {
        Ok(v) => v,
        Err(e) => { return Err(e) },
    };
    Ok(
        PacketSessionData {
            header,
            weather,
            track_temperature,
            air_temperature,
            total_laps,
            track_length,
            session_type,
            track,
            formula,
            session_time_left,
            session_duration,
            pit_speed_limit,
            game_paused,
            is_spectating,
            spectator_car_index,
            sli_pro_native_support,
            num_marshal_zones,
            marshal_zones,
            safety_car_status,
            network_game,
            num_weather_forecast_samples,
            weather_forecast_samples,
            forecast_accuracy: Some(forecast_accuracy),
            ai_difficulty: Some(ai_difficulty),
            season_identifier: Some(season_identifier),
            weekend_identifier: Some(weekend_identifier),
            session_identifier: Some(session_identifier),
            pit_stop_window_ideal_lap: Some(pit_stop_window_ideal_lap),
            pit_stop_window_latest_lap: Some(pit_stop_window_latest_lap),
            pit_stop_rejoin_position: Some(pit_stop_rejoin_position),
            driving_assists: Some(
                DrivingAssists {
                    steering_assist,
                    braking_assist,
                    gearbox_assist,
                    pit_assist,
                    pit_release_assist,
                    ers_assist,
                    drs_assist,
                    dynamic_racing_line,
                    dynamic_racing_line_type,
                },
            ),
        },
    )
}

/// The first invalid code over the car-status slots from slot `i` on,
/// in increasing slot order.
pub open spec fn spec_car_status_cars_err(s: Seq<u8>, i: int) -> Option<UnpackError>
    decreases 20 - i,
{
    if i < 0 || i >= 20 {
        None
    } else {
        match spec_car_status_err(s, 24 + i * 56) {
            Some(e) => Some(e),
            None => spec_car_status_cars_err(s, i + 1),
        }
    }
}

/// What a decoded car-status result must be for datagram bytes `s`:
/// `Truncated` when the body is short of its fixed width, otherwise the
/// first invalid code in read order, otherwise the packet with every
/// slot pinned to its wire value.
pub open spec fn spec_car_status_result(
    s: Seq<u8>,
    h: PacketHeader,
    r: Result<PacketCarStatusData, UnpackError>,
) -> bool {
    if s.len() < 24 + 20 * 56 {
        r == Err::<PacketCarStatusData, UnpackError>(
            UnpackError::Truncated { needed: (20 * 56) as usize, available: (s.len() - 24) as usize },
        )
    } else {
        match spec_car_status_cars_err(s, 0) {
            Some(e) => r == Err::<PacketCarStatusData, UnpackError>(e),
            None => match r {
                Ok(p) => {
                    &&& p.header == h
                    &&& p.car_status_data@.len() == 20
                    &&& forall|j: int|
                        0 <= j < 20 ==> p.car_status_data@[j] == spec_car_status(s, 24 + j * 56)
                },
                Err(_) => false,
            },
        }
    }
}

/// Decodes a car-status packet: the twenty slots in increasing slot
/// order, fail-fast on truncation or the first invalid code.
pub fn parse_car_status_data(buf: &[u8], header: PacketHeader) -> (r: Result<
    PacketCarStatusData,
    UnpackError,
>)
    requires
        buf@.len() >= 24,
    ensures
        spec_car_status_result(buf@, header, r),
{
    let n = buf.len();
    if n - 24 < 20 * CAR_STATUS_BYTES {
        return Err(UnpackError::Truncated { needed: 20 * CAR_STATUS_BYTES, available: n - 24 });
    }
    let mut cars: Vec<CarStatusData> = Vec::new();
    let mut i: usize = 0;
    while i < 20
        invariant
            buf@.len() >= 24 + 20 * 56,
            i <= 20,
            cars@.len() == i,
            forall|j: int| 0 <= j < i ==> cars@[j] == spec_car_status(buf@, 24 + j * 56),
            spec_car_status_cars_err(buf@, 0) == spec_car_status_cars_err(buf@, i as int),
        decreases 20 - i,
    {
        match parse_car(buf, 24 + i * CAR_STATUS_BYTES) {
            Ok(c) => {
                cars.push(c);
            },
            Err(e) => {
                return Err(e);
            },
        }
        i = i + 1;
    }
    Ok(PacketCarStatusData::new(header, cars))
}

/// The first invalid code over the lap slots from slot `i` on, in
/// increasing slot order.
pub open spec fn spec_lap_cars_err(s: Seq<u8>, i: int) -> Option<UnpackError>
    decreases 20 - i,
{
    if i < 0 || i >= 20 {
        None
    } else {
        match spec_lap_err(s, 24 + i * 41) {
            Some(e) => Some(e),
            None => spec_lap_cars_err(s, i + 1),
        }
    }
}

/// What a decoded lap-data result must be for datagram bytes `s`.
pub open spec fn spec_lap_result(
    s: Seq<u8>,
    h: PacketHeader,
    r: Result<PacketLapData, UnpackError>,
) -> bool {
    if s.len() < 24 + 20 * 41 {
        r == Err::<PacketLapData, UnpackError>(
            UnpackError::Truncated { needed: (20 * 41) as usize, available: (s.len() - 24) as usize },
        )
    } else {
        match spec_lap_cars_err(s, 0) {
            Some(e) => r == Err::<PacketLapData, UnpackError>(e),
            None => match r {
                Ok(p) => {
                    &&& p.header == h
                    &&& p.lap_data@.len() == 20
                    &&& forall|j: int| 0 <= j < 20 ==> p.lap_data@[j] == spec_lap(s, 24 + j * 41)
                },
                Err(_) => false,
            },
        }
    }
}

/// Decodes a lap-data packet: the twenty slots in increasing slot order,
/// fail-fast on truncation or the first invalid code.
pub fn parse_lap_data(buf: &[u8], header: PacketHeader) -> (r: Result<PacketLapData, UnpackError>)
    requires
        buf@.len() >= 24,
    ensures
        spec_lap_result(buf@, header, r),
{
    let n = buf.len();
    if n - 24 < 20 * LAP_BYTES {
        return Err(UnpackError::Truncated { needed: 20 * LAP_BYTES, available: n - 24 });
    }
    let mut laps: Vec<LapData> = Vec::new();
    let mut i: usize = 0;
    while i < 20
        invariant
            buf@.len() >= 24 + 20 * 41,
            i <= 20,
            laps@.len() == i,
            forall|j: int| 0 <= j < i ==> laps@[j] == spec_lap(buf@, 24 + j * 41),
            spec_lap_cars_err(buf@, 0) == spec_lap_cars_err(buf@, i as int),
        decreases 20 - i,
    {
        match parse_lap(buf, 24 + i * LAP_BYTES) {
            Ok(c) => {
                laps.push(c);
            },
            Err(e) => {
                return Err(e);
            },
        }
        i = i + 1;
    }
    Ok(PacketLapData { header, lap_data: laps })
}

/// What a decoded car-telemetry result must be for datagram bytes `s`.
pub open spec fn spec_telemetry_result(
    s: Seq<u8>,
    h: PacketHeader,
    r: Result<PacketCarTelemetryData, UnpackError>,
) -> bool {
    if s.len() < 24 + 20 * 66 + 4 {
        r == Err::<PacketCarTelemetryData, UnpackError>(
            UnpackError::Truncated {
                needed: (20 * 66 + 4) as usize,
                available: (s.len() - 24) as usize,
            },
        )
    } else {
        match r {
            Ok(p) => {
                &&& p.header == h
                &&& p.car_telemetry_data@.len() == 20
                &&& forall|j: int|
                    0 <= j < 20 ==> p.car_telemetry_data@[j] == spec_telemetry(s, 24 + j * 66)
                &&& p.button_status == u32_at(s, 24 + 20 * 66int)
            },
            Err(_) => false,
        }
    }
}

/// Decodes a car-telemetry packet: the twenty slots in increasing slot
/// order, then the button-status word.
pub fn parse_telemetry_data(buf: &[u8], header: PacketHeader) -> (r: Result<
    PacketCarTelemetryData,
    UnpackError,
>)
    requires
        buf@.len() >= 24,
    ensures
        spec_telemetry_result(buf@, header, r),
{
    let n = buf.len();
    if n - 24 < 20 * TELEMETRY_BYTES + 4 {
        return Err(
            UnpackError::Truncated { needed: 20 * TELEMETRY_BYTES + 4, available: n - 24 },
        );
    }
    let mut cars: Vec<CarTelemetryData> = Vec::new();
    let mut i: usize = 0;
    while i < 20
        invariant
            buf@.len() >= 24 + 20 * 66 + 4,
            i <= 20,
            cars@.len() == i,
            forall|j: int| 0 <= j < i ==> cars@[j] == spec_telemetry(buf@, 24 + j * 66),
        decreases 20 - i,
    {
        let c = parse_telemetry_car(buf, 24 + i * TELEMETRY_BYTES);
        cars.push(c);
        i = i + 1;
    }
    let mut p: usize = 24 + 20 * TELEMETRY_BYTES;
    let button_status = read_u32(buf, &mut p);
    Ok(PacketCarTelemetryData { header, car_telemetry_data: cars, button_status })
}

/// What a decoded event result must be for datagram bytes `s`: the
/// four-character code selects the event, events that concern one car
/// carry its slot (rejected when outside the twenty-car grid), and the
/// fastest-lap event also carries a lap time.
pub open spec fn spec_event_result(
    s: Seq<u8>,
    h: PacketHeader,
    r: Result<PacketEventData, UnpackError>,
) -> bool {
    if s.len() < 28 {
        r == Err::<PacketEventData, UnpackError>(
            UnpackError::Truncated { needed: 4usize, available: (s.len() - 24) as usize },
        )
    } else {
        match Event::spec_try_from(u8_at(s, 24), u8_at(s, 25), u8_at(s, 26), u8_at(s, 27)) {
            Err(e) => r == Err::<PacketEventData, UnpackError>(e),
            Ok(ev) => if ev is FastestLap {
                if s.len() < 33 {
                    r == Err::<PacketEventData, UnpackError>(
                        UnpackError::Truncated { needed: 5usize, available: (s.len() - 28) as usize },
                    )
                } else if u8_at(s, 28) >= 20 {
                    r == Err::<PacketEventData, UnpackError>(
                        UnpackError::InvalidCode(u8_at(s, 28) as u32),
                    )
                } else {
                    r == Ok::<PacketEventData, UnpackError>(
                        PacketEventData {
                            header: h,
                            event: ev,
                            vehicle_idx: Some(u8_at(s, 28)),
                            lap_time: Some(f32_at(s, 29)),
                        },
                    )
                }
            } else if ev.spec_has_vehicle() {
                if s.len() < 29 {
                    r == Err::<PacketEventData, UnpackError>(
                        UnpackError::Truncated { needed: 1usize, available: (s.len() - 28) as usize },
                    )
                } else if u8_at(s, 28) >= 20 {
                    r == Err::<PacketEventData, UnpackError>(
                        UnpackError::InvalidCode(u8_at(s, 28) as u32),
                    )
                } else {
                    r == Ok::<PacketEventData, UnpackError>(
                        PacketEventData {
                            header: h,
                            event: ev,
                            vehicle_idx: Some(u8_at(s, 28)),
                            lap_time: None,
                        },
                    )
                }
            } else {
                r == Ok::<PacketEventData, UnpackError>(
                    PacketEventData { header: h, event: ev, vehicle_idx: None, lap_time: None },
                )
            },
        }
    }
}

/// Decodes an event packet.
pub fn parse_event_data(buf: &[u8], header: PacketHeader) -> (r: Result<
    PacketEventData,
    UnpackError,
>)
    requires
        buf@.len() >= 24,
    ensures
        spec_event_result(buf@, header, r),
        r matches Ok(p) ==> p.well_formed(),
{
    let n = buf.len();
    if n < 28 {
        return Err(UnpackError::Truncated { needed: 4, available: n - 24 });
    }
    let mut p: usize = 24;
    let c0 = read_u8(buf, &mut p);
    let c1 = read_u8(buf, &mut p);
    let c2 = read_u8(buf, &mut p);
    let c3 = read_u8(buf, &mut p);
    let event = match Event::try_from(c0, c1, c2, c3) {
        Ok(v) => v,
        Err(e) => { return Err(e) },
    };
    match event {
        Event::FastestLap => {
            if n < 33 {
                return Err(UnpackError::Truncated { needed: 5, available: n - 28 });
            }
            let vehicle_idx = read_u8(buf, &mut p);
            if vehicle_idx >= 20 {
                return Err(UnpackError::InvalidCode(vehicle_idx as u32));
            }
            let lap_time = read_f32(buf, &mut p);
            Ok(
                PacketEventData {
                    header,
                    event,
                    vehicle_idx: Some(vehicle_idx),
                    lap_time: Some(lap_time),
                },
            )
        },
        Event::Retirement | Event::TeamMateInPits | Event::RaceWinner => {
            if n < 29 {
                return Err(UnpackError::Truncated { needed: 1, available: n - 28 });
            }
            let vehicle_idx = read_u8(buf, &mut p);
            if vehicle_idx >= 20 {
                return Err(UnpackError::InvalidCode(vehicle_idx as u32));
            }
            Ok(PacketEventData { header, event, vehicle_idx: Some(vehicle_idx), lap_time: None })
        },
        _ => Ok(PacketEventData { header, event, vehicle_idx: None, lap_time: None }),
    }
}

/// The first invalid code over the participant slots from slot `i` on,
/// in increasing slot order. The slot array starts at offset 25, after
/// the active-car count.
pub open spec fn spec_participants_err(s: Seq<u8>, i: int) -> Option<UnpackError>
    decreases 20 - i,
{
    if i < 0 || i >= 20 {
        None
    } else {
        match spec_participant_err(s, 25 + i * 54) {
            Some(e) => Some(e),
            None => spec_participants_err(s, i + 1),
        }
    }
}

/// What a decoded participants result must be for datagram bytes `s`.
pub open spec fn spec_participants_result(
    s: Seq<u8>,
    h: PacketHeader,
    r: Result<PacketParticipantsData, UnpackError>,
) -> bool {
    if s.len() < 24 + 1 + 20 * 54 {
        r == Err::<PacketParticipantsData, UnpackError>(
            UnpackError::Truncated {
                needed: (1 + 20 * 54) as usize,
                available: (s.len() - 24) as usize,
            },
        )
    } else {
        match spec_participants_err(s, 0) {
            Some(e) => r == Err::<PacketParticipantsData, UnpackError>(e),
            None => match r {
                Ok(p) => {
                    &&& p.header == h
                    &&& p.num_active_cars == u8_at(s, 24)
                    &&& p.participants@.len() == 20
                    &&& forall|j: int|
                        0 <= j < 20 ==> spec_participant_matches(s, 25 + j * 54, p.participants@[j])
                },
                Err(_) => false,
            },
        }
    }
}

/// Decodes a participants packet: the active-car count, then the twenty
/// slots in increasing slot order, fail-fast on truncation or the first
/// invalid code.
pub fn parse_participants_data(buf: &[u8], header: PacketHeader) -> (r: Result<
    PacketParticipantsData,
    UnpackError,
>)
    requires
        buf@.len() >= 24,
    ensures
        spec_participants_result(buf@, header, r),
{
    let n = buf.len();
    if n - 24 < 1 + 20 * PARTICIPANT_BYTES {
        return Err(
            UnpackError::Truncated { needed: 1 + 20 * PARTICIPANT_BYTES, available: n - 24 },
        );
    }
    let mut p: usize = 24;
    let num_active_cars = read_u8(buf, &mut p);
    let mut participants: Vec<ParticipantData> = Vec::new();
    let mut i: usize = 0;
    while i < 20
        invariant
            buf@.len() >= 24 + 1 + 20 * 54,
            i <= 20,
            participants@.len() == i,
            forall|j: int|
                0 <= j < i ==> spec_participant_matches(buf@, 25 + j * 54, participants@[j]),
            spec_participants_err(buf@, 0) == spec_participants_err(buf@, i as int),
        decreases 20 - i,
    {
        match parse_participant(buf, 25 + i * PARTICIPANT_BYTES) {
            Ok(d) => {
                participants.push(d);
            },
            Err(e) => {
                return Err(e);
            },
        }
        i = i + 1;
    }
    Ok(PacketParticipantsData { header, num_active_cars, participants })
}

/// What the decode of a whole datagram under this revision must be.
pub open spec fn spec_packet_result(s: Seq<u8>, r: Result<Packet, UnpackError>) -> bool {
    if s.len() < 24 {
        r == Err::<Packet, UnpackError>(UnpackError::PacketTooSmall(s.len() as usize))
    } else {
        let h = spec_header(s);
        match PacketType::spec_try_from(h.packet_id) {
            Err(e) => r == Err::<Packet, UnpackError>(e),
            Ok(t) => match t {
                PacketType::Session => match r {
                    Ok(Packet::Session(p)) => spec_session_result(s, h, Ok(p)),
                    Ok(_) => false,
                    Err(e) => spec_session_result(s, h, Err(e)),
                },
                PacketType::LapData => match r {
                    Ok(Packet::Lap(p)) => spec_lap_result(s, h, Ok(p)),
                    Ok(_) => false,
                    Err(e) => spec_lap_result(s, h, Err(e)),
                },
                PacketType::Event => match r {
                    Ok(Packet::Event(p)) => spec_event_result(s, h, Ok(p)),
                    Ok(_) => false,
                    Err(e) => spec_event_result(s, h, Err(e)),
                },
                PacketType::Participants => match r {
                    Ok(Packet::Participants(p)) => spec_participants_result(s, h, Ok(p)),
                    Ok(_) => false,
                    Err(e) => spec_participants_result(s, h, Err(e)),
                },
                PacketType::CarTelemetry => match r {
                    Ok(Packet::CarTelemetry(p)) => spec_telemetry_result(s, h, Ok(p)),
                    Ok(_) => false,
                    Err(e) => spec_telemetry_result(s, h, Err(e)),
                },
                PacketType::CarStatus => match r {
                    Ok(Packet::CarStatus(p)) => spec_car_status_result(s, h, Ok(p)),
                    Ok(_) => false,
                    Err(e) => spec_car_status_result(s, h, Err(e)),
                },
                _ => r == Err::<Packet, UnpackError>(
                    UnpackError::UnsupportedPacketType(h.packet_id),
                ),
            },
        }
    }
}

/// Dispatches one datagram under this revision.
pub fn parse_packet(size: usize, packet: &[u8]) -> (r: Result<Packet, UnpackError>)
    requires
        size == packet@.len(),
    ensures
        spec_packet_result(packet@, r),
{
    if size < PacketHeader::size() {
        return Err(UnpackError::PacketTooSmall(size));
    }
    let header = parse_header(packet);
    let packet_id = header.packet_id;
    let ptype = match PacketType::try_from(packet_id) {
        Ok(t) => t,
        Err(e) => { return Err(e) },
    };
    match ptype {
        PacketType::Session => match parse_session_data(packet, header) {
            Ok(p) => Ok(Packet::Session(p)),
            Err(e) => Err(e),
        },
        PacketType::LapData => match parse_lap_data(packet, header) {
            Ok(p) => Ok(Packet::Lap(p)),
            Err(e) => Err(e),
        },
        PacketType::Event => match parse_event_data(packet, header) {
            Ok(p) => Ok(Packet::Event(p)),
            Err(e) => Err(e),
        },
        PacketType::Participants => match parse_participants_data(packet, header) {
            Ok(p) => Ok(Packet::Participants(p)),
            Err(e) => Err(e),
        },
        PacketType::CarTelemetry => match parse_telemetry_data(packet, header) {
            Ok(p) => Ok(Packet::CarTelemetry(p)),
            Err(e) => Err(e),
        },
        PacketType::CarStatus => match parse_car_status_data(packet, header) {
            Ok(p) => Ok(Packet::CarStatus(p)),
            Err(e) => Err(e),
        },
        _ => Err(UnpackError::UnsupportedPacketType(packet_id)),
    }
}

/// Any two results the decode contract of this revision admits for the
/// same byte buffer are field-for-field identical.
pub proof fn lemma_packet_result_deterministic(
    s: Seq<u8>,
    r1: Result<Packet, UnpackError>,
    r2: Result<Packet, UnpackError>,
)
    requires
        spec_packet_result(s, r1),
        spec_packet_result(s, r2),
    ensures
        match (r1, r2) {
            (Ok(a), Ok(b)) => crate::packet::spec_packet_equivalent(a, b),
            (Err(e1), Err(e2)) => e1 == e2,
            _ => false,
        },
{
    match (r1, r2) {
        (Ok(Packet::Session(p1)), Ok(Packet::Session(p2))) => {
            assert(p1.marshal_zones@ =~= p2.marshal_zones@);
            assert(p1.weather_forecast_samples@ =~= p2.weather_forecast_samples@);
        },
        (Ok(Packet::Lap(p1)), Ok(Packet::Lap(p2))) => {
            assert(p1.lap_data@ =~= p2.lap_data@);
        },
        (Ok(Packet::CarTelemetry(p1)), Ok(Packet::CarTelemetry(p2))) => {
            assert(p1.car_telemetry_data@ =~= p2.car_telemetry_data@);
        },
        (Ok(Packet::CarStatus(p1)), Ok(Packet::CarStatus(p2))) => {
            assert(p1.car_status_data@ =~= p2.car_status_data@);
        },
        _ => {},
    }
}

} // verus!

//! Session decoding under both revisions: field values, and the
//! version-decided presence of the trailing optional fields.

use f1_telemetry::error::UnpackError;
use f1_telemetry::generic::Flag;
use f1_telemetry::packet::{parse_packet, Packet};
use f1_telemetry::session::{
    BrakingAssist, DynamicRacingLine, DynamicRacingLineType, ForecastAccuracy, Formula,
    GearboxAssist, PacketSessionData, SafetyCar, SessionType, TemperatureChange, Track, Weather,
};

fn header(format: u16, packet_id: u8) -> Vec<u8> {
    let mut v: Vec<u8> = Vec::new();
    v.extend_from_slice(&format.to_le_bytes());
    v.push(1);
    v.push(4);
    v.push(1);
    v.push(packet_id);
    v.extend_from_slice(&77u64.to_le_bytes());
    v.extend_from_slice(&2.25f32.to_le_bytes());
    v.extend_from_slice(&9u32.to_le_bytes());
    v.push(3);
    if format >= 2020 {
        v.push(19); // secondary player index, on the wire from 2020 on
    }
    v
}

/// The session fields shared by both revisions, 126 bytes.
fn session_body() -> Vec<u8> {
    let mut v: Vec<u8> = Vec::new();
    v.push(4); // weather: heavy rain
    v.push(31u8); // track temperature
    v.push((-2i8) as u8); // air temperature
    v.push(44); // total laps
    v.extend_from_slice(&4309u16.to_le_bytes()); // track length
    v.push(12); // session type: time trial
    v.push(26); // track: Zandvoort
    v.push(2); // formula: F2
    v.extend_from_slice(&600u16.to_le_bytes()); // session time left
    v.extend_from_slice(&1800u16.to_le_bytes()); // session duration
    v.push(60); // pit speed limit
    v.push(1); // game paused
    v.push(1); // spectating
    v.push(7); // spectator car index
    v.push(1); // sli pro
    v.push(21); // marshal zones used
    for z in 0..21u8 {
        v.extend_from_slice(&(0.05f32 * z as f32).to_le_bytes());
        v.push((z % 5) as u8); // flags 0..4 cycling, 255 never (valid)
    }
    v.push(2); // safety car: virtual
    v.push(0); // network game off
    assert_eq!(v.len(), 126);
    v
}

fn session_2019() -> Vec<u8> {
    let mut v = header(2019, 1);
    v.extend_from_slice(&session_body());
    assert_eq!(v.len(), 149);
    v
}

fn session_2020() -> Vec<u8> {
    let mut v = header(2020, 1);
    v.extend_from_slice(&session_body());
    v.push(20); // forecast samples used
    for k in 0..20u8 {
        v.push(10); // forecast session type: race
        v.push(5 * k); // time offset
        v.push(3); // weather: light rain
        v.push(28u8.wrapping_add(k)); // track temperature
        v.push(1); // track temperature change: down
        v.push(21); // air temperature
        v.push(2); // air temperature change: none
        v.push(if k < 10 { 40 } else { 80 }); // rain percentage
    }
    v.push(1); // forecast accuracy: approximate
    v.push(90); // ai difficulty
    v.extend_from_slice(&2020u32.to_le_bytes()); // season identifier
    v.extend_from_slice(&7u32.to_le_bytes()); // weekend identifier
    v.extend_from_slice(&3u32.to_le_bytes()); // session identifier
    v.push(24); // pit window ideal lap
    v.push(30); // pit window latest lap
    v.push(12); // pit rejoin position
    v.push(1); // steering assist on
    v.push(2); // braking assist: medium
    v.push(3); // gearbox assist: automatic
    v.push(0); // pit assist off
    v.push(1); // pit release assist on
    v.push(0); // ers assist off
    v.push(1); // drs assist on
    v.push(2); // racing line: full
    v.push(1); // racing line type: 3D
    assert_eq!(v.len(), 24 + 313);
    v
}

fn decode_session(v: &[u8]) -> PacketSessionData {
    match parse_packet(v.len(), v).unwrap() {
        Packet::Session(p) => p,
        _ => panic!("expected a session packet"),
    }
}

#[test]
fn session_2019_fields() {
    let p = decode_session(&session_2019());
    assert_eq!(p.weather, Weather::HeavyRain);
    assert_eq!(p.track_temperature, 31);
    assert_eq!(p.air_temperature, -2);
    assert_eq!(p.total_laps, 44);
    assert_eq!(p.track_length, 4309);
    assert_eq!(p.session_type, SessionType::TimeTrial);
    assert_eq!(p.track, Track::Zandvoort);
    assert_eq!(p.formula, Formula::F2);
    assert_eq!(p.session_time_left, 600);
    assert_eq!(p.session_duration, 1800);
    assert_eq!(p.pit_speed_limit, 60);
    assert!(p.game_paused);
    assert!(p.is_spectating);
    assert_eq!(p.spectator_car_index, 7);
    assert!(p.sli_pro_native_support);
    assert_eq!(p.num_marshal_zones, 21);
    assert_eq!(p.marshal_zones.len(), 21);
    assert_eq!(p.marshal_zones[3].zone_flag, Flag::Yellow);
    assert_eq!(f32::from_bits(p.marshal_zones[2].zone_start.bits), 0.1);
    assert_eq!(p.safety_car_status, SafetyCar::Virtual);
    assert!(!p.network_game);
}

#[test]
fn session_2019_omits_the_trailing_block() {
    // An earlier revision that omits the driving-assist block decodes
    // with the fields absent, not present-but-zeroed.
    let p = decode_session(&session_2019());
    assert_eq!(p.num_weather_forecast_samples, 0);
    assert!(p.weather_forecast_samples.is_empty());
    assert!(p.forecast_accuracy.is_none());
    assert!(p.ai_difficulty.is_none());
    assert!(p.season_identifier.is_none());
    assert!(p.weekend_identifier.is_none());
    assert!(p.session_identifier.is_none());
    assert!(p.pit_stop_window_ideal_lap.is_none());
    assert!(p.pit_stop_window_latest_lap.is_none());
    assert!(p.pit_stop_rejoin_position.is_none());
    assert!(p.driving_assists.is_none());
}

#[test]
fn session_2020_carries_the_trailing_block() {
    let p = decode_session(&session_2020());
    // The shared fields decode as under 2019.
    assert_eq!(p.weather, Weather::HeavyRain);
    assert_eq!(p.track, Track::Zandvoort);
    assert_eq!(p.header.secondary_player_car_index, 19);
    // The later revision includes the block: decoded as present.
    assert_eq!(p.num_weather_forecast_samples, 20);
    assert_eq!(p.weather_forecast_samples.len(), 20);
    let s = &p.weather_forecast_samples[4];
    assert_eq!(s.session_type, SessionType::Race);
    assert_eq!(s.time_offset, 20);
    assert_eq!(s.weather, Weather::LightRain);
    assert_eq!(s.track_temperature, 32);
    assert_eq!(s.track_temperature_change, TemperatureChange::Down);
    assert_eq!(s.air_temperature, 21);
    assert_eq!(s.air_temperature_change, TemperatureChange::NoChange);
    assert_eq!(s.rain_percentage, 40);
    assert_eq!(p.forecast_accuracy, Some(ForecastAccuracy::Approximate));
    assert_eq!(p.ai_difficulty, Some(90));
    assert_eq!(p.season_identifier, Some(2020));
    assert_eq!(p.weekend_identifier, Some(7));
    assert_eq!(p.session_identifier, Some(3));
    assert_eq!(p.pit_stop_window_ideal_lap, Some(24));
    assert_eq!(p.pit_stop_window_latest_lap, Some(30));
    assert_eq!(p.pit_stop_rejoin_position, Some(12));
    let a = p.driving_assists.unwrap();
    assert!(a.steering_assist);
    assert_eq!(a.braking_assist, BrakingAssist::Medium);
    assert_eq!(a.gearbox_assist, GearboxAssist::Automatic);
    assert!(!a.pit_assist);
    assert!(a.pit_release_assist);
    assert!(!a.ers_assist);
    assert!(a.drs_assist);
    assert_eq!(a.dynamic_racing_line, DynamicRacingLine::Full);
    assert_eq!(a.dynamic_racing_line_type, DynamicRacingLineType::ThreeDimensions);
}

#[test]
fn session_2020_without_its_tail_is_truncated() {
    // A 2020 session cut to the 2019 length is a truncation error, not
    // a packet with absent fields: presence follows the format version,
    // never the remaining byte count.
    let v = session_2020();
    let cut = &v[..150];
    assert_eq!(
        parse_packet(cut.len(), cut),
        Err(UnpackError::Truncated { needed: 313, available: 150 - 24 })
    );
}

#[test]
fn session_2020_invalid_forecast_code() {
    let mut v = session_2020();
    let base = 151 + 7 * 8; // eighth forecast sample
    v[base + 4] = 3; // temperature-change codes end at 2
    assert_eq!(parse_packet(v.len(), &v), Err(UnpackError::InvalidCode(3)));
}

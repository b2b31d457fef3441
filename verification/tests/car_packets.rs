//! Car-status and car-telemetry decoding, and the telemetry and session
//! consumer views.

use f1_telemetry::car_status::{ERSDeployMode, FuelMix, TractionControl, TyreCompound, TyreCompoundVisual, DRS};
use f1_telemetry::error::UnpackError;
use f1_telemetry::generic::Flag;
use f1_telemetry::models::{parse_session_data, parse_telemetry_data};
use f1_telemetry::packet::{parse_packet, Packet};
use f1_telemetry::session::{SessionType, Track};

fn header_2019(packet_id: u8, player_idx: u8) -> Vec<u8> {
    let mut v: Vec<u8> = vec![0xE3, 0x07];
    v.push(1);
    v.push(18);
    v.push(1);
    v.push(packet_id);
    v.extend_from_slice(&9000u64.to_le_bytes());
    v.extend_from_slice(&64.0f32.to_le_bytes());
    v.extend_from_slice(&777u32.to_le_bytes());
    v.push(player_idx);
    v
}

/// One 56-byte car-status slot; the tyre byte is the physical compound.
fn status_slot(tyre: u8) -> Vec<u8> {
    let mut v: Vec<u8> = Vec::new();
    v.push(2); // traction control: high
    v.push(1); // abs on
    v.push(3); // fuel mix: max
    v.push(58); // front brake bias
    v.push(0); // pit limiter off
    v.extend_from_slice(&31.5f32.to_le_bytes()); // fuel in tank
    v.extend_from_slice(&110.0f32.to_le_bytes()); // fuel capacity
    v.extend_from_slice(&1.4f32.to_le_bytes()); // fuel laps remaining
    v.extend_from_slice(&13500u16.to_le_bytes()); // max rpm
    v.extend_from_slice(&3500u16.to_le_bytes()); // idle rpm
    v.push(8); // max gears
    v.push((-1i8) as u8); // drs: unknown
    v.extend_from_slice(&[10, 11, 12, 13]); // tyre wear
    v.push(tyre); // actual compound
    v.push(16); // visual compound: soft
    v.extend_from_slice(&[1, 2, 3, 4]); // tyre damage
    v.push(5); // front left wing damage
    v.push(6); // front right wing damage
    v.push(7); // rear wing damage
    v.push(8); // engine damage
    v.push(9); // gearbox damage
    v.push(3); // fia flag: yellow
    v.extend_from_slice(&4_000_000.0f32.to_le_bytes()); // ers stored
    v.push(4); // ers mode: overtake
    v.extend_from_slice(&100.0f32.to_le_bytes()); // mguk
    v.extend_from_slice(&200.0f32.to_le_bytes()); // mguh
    v.extend_from_slice(&300.0f32.to_le_bytes()); // deployed
    assert_eq!(v.len(), 56);
    v
}

fn status_packet(tyre: u8) -> Vec<u8> {
    let mut v = header_2019(7, 0);
    for _ in 0..20 {
        v.extend_from_slice(&status_slot(tyre));
    }
    assert_eq!(v.len(), 1143);
    v
}

#[test]
fn car_status_fields() {
    let v = status_packet(18);
    let p = match parse_packet(v.len(), &v).unwrap() {
        Packet::CarStatus(p) => p,
        _ => panic!("expected a car-status packet"),
    };
    assert_eq!(p.car_status_data.len(), 20);
    let c = &p.car_status_data[19];
    assert_eq!(c.traction_control, TractionControl::High);
    assert!(c.anti_lock_brakes);
    assert_eq!(c.fuel_mix, FuelMix::Max);
    assert_eq!(c.front_brake_bias, 58);
    assert!(!c.pit_limiter);
    assert_eq!(f32::from_bits(c.fuel_in_tank.bits), 31.5);
    assert_eq!(c.max_rpm, 13500);
    assert_eq!(c.idle_rpm, 3500);
    assert_eq!(c.max_gears, 8);
    assert_eq!(c.drs_allowed, DRS::Unknown);
    assert_eq!(c.tyres_wear.rear_left, 10);
    assert_eq!(c.tyres_wear.front_right, 13);
    assert_eq!(c.actual_tyre_compound, TyreCompound::C3);
    assert_eq!(c.visual_tyre_compound, TyreCompoundVisual::Soft);
    assert_eq!(c.tyres_damage.rear_right, 2);
    assert_eq!(c.front_left_wing_damage, 5);
    assert_eq!(c.gear_box_damage, 9);
    assert_eq!(c.vehicle_fia_flags, Flag::Yellow);
    assert_eq!(c.ers_deploy_mode, ERSDeployMode::Overtake);
    assert_eq!(f32::from_bits(c.ers_deployed_this_lap.bits), 300.0);
}

#[test]
fn car_status_tyre_sentinels() {
    // Both sentinel codes decode to the same Invalid compound through a
    // whole packet too.
    for tyre in [0u8, 255] {
        let v = status_packet(tyre);
        let p = match parse_packet(v.len(), &v).unwrap() {
            Packet::CarStatus(p) => p,
            _ => panic!("expected a car-status packet"),
        };
        assert_eq!(p.car_status_data[0].actual_tyre_compound, TyreCompound::Invalid);
    }
}

#[test]
fn car_status_invalid_code_in_later_slot() {
    let mut v = status_packet(18);
    v[23 + 9 * 56 + 43] = 6; // tenth slot's ers mode, codes end at 5
    assert_eq!(parse_packet(v.len(), &v), Err(UnpackError::InvalidCode(6)));
}

#[test]
fn car_status_truncated() {
    let v = status_packet(18);
    let cut = &v[..1142];
    assert_eq!(
        parse_packet(cut.len(), cut),
        Err(UnpackError::Truncated { needed: 1120, available: 1142 - 23 })
    );
}

/// One 66-byte telemetry slot.
fn telemetry_slot(speed: u16) -> Vec<u8> {
    let mut v: Vec<u8> = Vec::new();
    v.extend_from_slice(&speed.to_le_bytes());
    v.extend_from_slice(&0.75f32.to_le_bytes()); // throttle
    v.extend_from_slice(&(-0.1f32).to_le_bytes()); // steer
    v.extend_from_slice(&0.0f32.to_le_bytes()); // brake
    v.push(0); // clutch
    v.push(7u8); // gear
    v.extend_from_slice(&11200u16.to_le_bytes()); // rpm
    v.push(1); // drs open
    v.push(60); // rev lights
    for t in [350u16, 352, 348, 351] {
        v.extend_from_slice(&t.to_le_bytes()); // brake temps
    }
    for t in [95u16, 96, 94, 97] {
        v.extend_from_slice(&t.to_le_bytes()); // surface temps
    }
    for t in [100u16, 101, 99, 102] {
        v.extend_from_slice(&t.to_le_bytes()); // inner temps
    }
    v.extend_from_slice(&105u16.to_le_bytes()); // engine temp
    for pr in [21.5f32, 21.6, 23.0, 23.1] {
        v.extend_from_slice(&pr.to_le_bytes()); // tyre pressures
    }
    v.extend_from_slice(&[0, 0, 1, 1]); // surface types
    assert_eq!(v.len(), 66);
    v
}

fn telemetry_packet(player_idx: u8) -> Vec<u8> {
    let mut v = header_2019(6, player_idx);
    for i in 0..20u16 {
        v.extend_from_slice(&telemetry_slot(280 + i));
    }
    v.extend_from_slice(&0x0000_0010u32.to_le_bytes()); // button status
    assert_eq!(v.len(), 23 + 1324);
    v
}

#[test]
fn telemetry_fields() {
    let v = telemetry_packet(0);
    let p = match parse_packet(v.len(), &v).unwrap() {
        Packet::CarTelemetry(p) => p,
        _ => panic!("expected a telemetry packet"),
    };
    assert_eq!(p.car_telemetry_data.len(), 20);
    assert_eq!(p.button_status, 16);
    let c = &p.car_telemetry_data[5];
    assert_eq!(c.speed, 285);
    assert_eq!(f32::from_bits(c.throttle.bits), 0.75);
    assert_eq!(f32::from_bits(c.steer.bits), -0.1);
    assert_eq!(c.gear, 7);
    assert_eq!(c.engine_rpm, 11200);
    assert!(c.drs);
    assert_eq!(c.rev_lights_percent, 60);
    assert_eq!(c.brakes_temperature.rear_right, 352);
    assert_eq!(c.tyres_surface_temperature.front_left, 94);
    assert_eq!(c.tyres_inner_temperature.front_right, 102);
    assert_eq!(c.engine_temperature, 105);
    assert_eq!(f32::from_bits(c.tyres_pressure.front_left.bits), 23.0);
    assert_eq!(c.surface_type.front_left, 1);
}

#[test]
fn telemetry_info_follows_the_player_index() {
    let v = telemetry_packet(9);
    let p = match parse_packet(v.len(), &v).unwrap() {
        Packet::CarTelemetry(p) => p,
        _ => panic!("expected a telemetry packet"),
    };
    let info = parse_telemetry_data(&p).unwrap();
    assert_eq!(info.speed, 289);
    assert_eq!(f32::from_bits(info.throttle.bits), 0.75);
    assert_eq!(info.gear, 7);
    assert_eq!(info.engine_rpm, 11200);
    assert!(info.drs);
    assert_eq!(info.rev_lights_percent, 60);
    assert_eq!(info.engine_temperature, 105);
}

#[test]
fn telemetry_info_for_the_none_sentinel_is_absent() {
    let v = telemetry_packet(255);
    let p = match parse_packet(v.len(), &v).unwrap() {
        Packet::CarTelemetry(p) => p,
        _ => panic!("expected a telemetry packet"),
    };
    assert!(parse_telemetry_data(&p).is_none());
}

#[test]
fn telemetry_truncated() {
    let v = telemetry_packet(0);
    let cut = &v[..1346];
    assert_eq!(
        parse_packet(cut.len(), cut),
        Err(UnpackError::Truncated { needed: 1324, available: 1346 - 23 })
    );
}

#[test]
fn session_info_summary() {
    // Build a minimal valid 2019 session and summarize it.
    let mut v = header_2019(1, 0);
    v.push(0); // weather clear
    v.push(20u8);
    v.push(15u8);
    v.push(5); // laps
    v.extend_from_slice(&5000u16.to_le_bytes());
    v.push(10); // race
    v.push(11); // Monza
    v.push(0);
    v.extend_from_slice(&1000u16.to_le_bytes()); // left
    v.extend_from_slice(&3600u16.to_le_bytes()); // duration
    v.push(80);
    v.push(0);
    v.push(0);
    v.push(255);
    v.push(0);
    v.push(0);
    for _ in 0..21 {
        v.extend_from_slice(&0.0f32.to_le_bytes());
        v.push(0);
    }
    v.push(0);
    v.push(0);
    let p = match parse_packet(v.len(), &v).unwrap() {
        Packet::Session(p) => p,
        _ => panic!("expected a session packet"),
    };
    assert_eq!(p.session_type, SessionType::Race);
    assert_eq!(p.track, Track::Monza);
    let info = parse_session_data(&p, 3);
    assert_eq!(info.session_name, "Race");
    assert_eq!(info.track_name, "Autodromo Nazionale Monza");
    assert_eq!(info.elapsed_time, 2600);
    assert_eq!(info.duration, 3600);
    assert_eq!(info.current_lap, 3);
    assert_eq!(info.number_of_laps, 5);
}

//! The 2020 decoder set beyond the session packet: the payload layouts
//! carried over from 2019 sit one byte later, after the wider header.

use f1_telemetry::car_status::TyreCompound;
use f1_telemetry::error::UnpackError;
use f1_telemetry::event::Event;
use f1_telemetry::lap::PitStatus;
use f1_telemetry::packet::{parse_packet, Packet};
use f1_telemetry::participants::Team;

fn header_2020(packet_id: u8) -> Vec<u8> {
    let mut v: Vec<u8> = vec![0xE4, 0x07]; // 2020 little-endian
    v.push(1);
    v.push(6);
    v.push(2);
    v.push(packet_id);
    v.extend_from_slice(&31337u64.to_le_bytes());
    v.extend_from_slice(&5.5f32.to_le_bytes());
    v.extend_from_slice(&44u32.to_le_bytes());
    v.push(2); // player index
    v.push(255); // secondary player index: none
    assert_eq!(v.len(), 24);
    v
}

fn lap_slot(position: u8, pit: u8) -> Vec<u8> {
    let mut v: Vec<u8> = Vec::new();
    for f in [91.0f32, 30.5, 89.9, 28.0, 31.0, 800.0, 4000.0, 0.0] {
        v.extend_from_slice(&f.to_le_bytes());
    }
    v.extend_from_slice(&[position, 12, pit, 0, 0, 0, position, 4, 2]);
    assert_eq!(v.len(), 41);
    v
}

#[test]
fn lap_packet_2020() {
    let mut v = header_2020(2);
    for i in 0..20u8 {
        v.extend_from_slice(&lap_slot(i + 1, if i == 3 { 2 } else { 0 }));
    }
    assert_eq!(v.len(), 24 + 820);
    let p = match parse_packet(v.len(), &v).unwrap() {
        Packet::Lap(p) => p,
        _ => panic!("expected a lap packet"),
    };
    assert_eq!(p.header.packet_format, 2020);
    assert_eq!(p.header.secondary_player_car_index, 255);
    assert_eq!(p.lap_data.len(), 20);
    assert_eq!(p.lap_data[3].pit_status, PitStatus::InPitArea);
    assert_eq!(p.lap_data[4].pit_status, PitStatus::NoPit);
    assert_eq!(f32::from_bits(p.lap_data[0].current_lap_time.bits), 30.5);
}

#[test]
fn car_status_packet_2020() {
    let mut v = header_2020(7);
    for _ in 0..20 {
        // A 56-byte slot of valid codes.
        v.extend_from_slice(&[1, 0, 2, 55, 1]);
        for f in [10.0f32, 110.0, 0.5] {
            v.extend_from_slice(&f.to_le_bytes());
        }
        v.extend_from_slice(&12000u16.to_le_bytes());
        v.extend_from_slice(&3000u16.to_le_bytes());
        v.push(8);
        v.push(1); // drs allowed
        v.extend_from_slice(&[0, 0, 0, 0]);
        v.push(17); // compound: C4
        v.push(17); // visual: medium
        v.extend_from_slice(&[0, 0, 0, 0]);
        v.extend_from_slice(&[0, 0, 0, 0, 0]);
        v.push(0); // flag: none
        v.extend_from_slice(&1000.0f32.to_le_bytes());
        v.push(1); // ers low
        for f in [1.0f32, 2.0, 3.0] {
            v.extend_from_slice(&f.to_le_bytes());
        }
    }
    assert_eq!(v.len(), 24 + 1120);
    let p = match parse_packet(v.len(), &v).unwrap() {
        Packet::CarStatus(p) => p,
        _ => panic!("expected a car-status packet"),
    };
    assert_eq!(p.car_status_data.len(), 20);
    assert_eq!(p.car_status_data[7].actual_tyre_compound, TyreCompound::C4);
    assert_eq!(p.car_status_data[7].max_rpm, 12000);

    // One byte short: truncation, measured from the 2020 body start.
    let cut = &v[..v.len() - 1];
    assert_eq!(
        parse_packet(cut.len(), cut),
        Err(UnpackError::Truncated { needed: 1120, available: 1143 - 24 })
    );
}

#[test]
fn event_packet_2020() {
    let mut v = header_2020(3);
    v.extend_from_slice(b"FTLP");
    v.push(11);
    v.extend_from_slice(&66.97f32.to_le_bytes());
    let p = match parse_packet(v.len(), &v).unwrap() {
        Packet::Event(p) => p,
        _ => panic!("expected an event packet"),
    };
    assert_eq!(p.event, Event::FastestLap);
    assert_eq!(p.vehicle_idx, Some(11));
    assert_eq!(f32::from_bits(p.lap_time.unwrap().bits), 66.97);
}

#[test]
fn participants_packet_2020() {
    let mut v = header_2020(4);
    v.push(18);
    for i in 0..20u8 {
        v.push(0);
        v.push(i);
        v.push(9 - (i % 10));
        v.push(i);
        v.push(10);
        v.extend_from_slice(&[0u8; 48]);
        v.push(1);
    }
    assert_eq!(v.len(), 24 + 1081);
    let p = match parse_packet(v.len(), &v).unwrap() {
        Packet::Participants(p) => p,
        _ => panic!("expected a participants packet"),
    };
    assert_eq!(p.num_active_cars, 18);
    assert_eq!(p.participants[0].team, Team::AlfaRomeo);
    assert!(p.participants[1].telemetry_public);
}

#[test]
fn telemetry_packet_2020() {
    let mut v = header_2020(6);
    for i in 0..20u16 {
        v.extend_from_slice(&(300 + i).to_le_bytes());
        for f in [1.0f32, 0.0, 0.0] {
            v.extend_from_slice(&f.to_le_bytes());
        }
        v.push(0);
        v.push(8u8);
        v.extend_from_slice(&10000u16.to_le_bytes());
        v.push(0);
        v.push(0);
        for _ in 0..12 {
            v.extend_from_slice(&90u16.to_le_bytes());
        }
        v.extend_from_slice(&100u16.to_le_bytes());
        for _ in 0..4 {
            v.extend_from_slice(&22.0f32.to_le_bytes());
        }
        v.extend_from_slice(&[0, 0, 0, 0]);
    }
    v.extend_from_slice(&8u32.to_le_bytes());
    assert_eq!(v.len(), 24 + 20 * 66 + 4);
    let p = match parse_packet(v.len(), &v).unwrap() {
        Packet::CarTelemetry(p) => p,
        _ => panic!("expected a telemetry packet"),
    };
    assert_eq!(p.button_status, 8);
    assert_eq!(p.car_telemetry_data[2].speed, 302);
    assert!(!p.car_telemetry_data[2].drs);
}

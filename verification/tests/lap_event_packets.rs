//! Lap-data, event and participants decoding, and the consumer views
//! joined from them.

use f1_telemetry::error::UnpackError;
use f1_telemetry::event::Event;
use f1_telemetry::lap::{DriverStatus, PitStatus, ResultStatus};
use f1_telemetry::models::{get_current_lap, parse_event_data, parse_lap_data};
use f1_telemetry::packet::{parse_packet, Packet};
use f1_telemetry::participants::Team;

fn header_2019(packet_id: u8) -> Vec<u8> {
    let mut v: Vec<u8> = vec![0xE3, 0x07];
    v.push(1);
    v.push(4);
    v.push(1);
    v.push(packet_id);
    v.extend_from_slice(&55u64.to_le_bytes());
    v.extend_from_slice(&421.5f32.to_le_bytes());
    v.extend_from_slice(&12000u32.to_le_bytes());
    v.push(0);
    v
}

/// One 41-byte lap slot.
fn lap_slot(position: u8, lap_num: u8, pit: u8) -> Vec<u8> {
    let mut v: Vec<u8> = Vec::new();
    v.extend_from_slice(&83.2f32.to_le_bytes()); // last lap
    v.extend_from_slice(&21.7f32.to_le_bytes()); // current lap
    v.extend_from_slice(&82.9f32.to_le_bytes()); // best lap
    v.extend_from_slice(&28.1f32.to_le_bytes()); // sector 1
    v.extend_from_slice(&30.0f32.to_le_bytes()); // sector 2
    v.extend_from_slice(&1200.0f32.to_le_bytes()); // lap distance
    v.extend_from_slice(&(5000.0f32 + position as f32).to_le_bytes()); // total distance
    v.extend_from_slice(&0.0f32.to_le_bytes()); // safety car delta
    v.push(position);
    v.push(lap_num);
    v.push(pit);
    v.push(1); // sector
    v.push(if position == 2 { 1 } else { 0 }); // lap invalid
    v.push(if position == 3 { 5 } else { 0 }); // penalties
    v.push(position); // grid position
    v.push(4); // driver status: on track
    v.push(2); // result status: active
    assert_eq!(v.len(), 41);
    v
}

/// A full 2019 lap packet; car slot 0 is pitting, the rest are not.
fn lap_packet() -> Vec<u8> {
    let mut v = header_2019(2);
    for i in 0..20u8 {
        let pit = if i == 0 { 1 } else { 0 };
        v.extend_from_slice(&lap_slot(i + 1, 10 + (i % 3), pit));
    }
    assert_eq!(v.len(), 23 + 820);
    v
}

/// A full 2019 participants packet with distinct names per slot.
fn participants_packet() -> Vec<u8> {
    let mut v = header_2019(4);
    v.push(20); // active cars
    for i in 0..20u8 {
        v.push(1); // ai controlled
        v.push(i); // driver id
        v.push(i % 10); // team
        v.push(i + 30); // race number
        v.push(i + 1); // nationality
        let mut name = [0u8; 48];
        name[0] = b'C';
        name[1] = b'A';
        name[2] = b'R';
        name[3] = b'0' + (i % 10);
        v.extend_from_slice(&name);
        v.push(0); // telemetry restricted
    }
    assert_eq!(v.len(), 23 + 1081);
    v
}

#[test]
fn lap_packet_fields() {
    let v = lap_packet();
    let p = match parse_packet(v.len(), &v).unwrap() {
        Packet::Lap(p) => p,
        _ => panic!("expected a lap packet"),
    };
    assert_eq!(p.lap_data.len(), 20);
    let ld = &p.lap_data[0];
    assert_eq!(f32::from_bits(ld.last_lap_time.bits), 83.2);
    assert_eq!(f32::from_bits(ld.current_lap_time.bits), 21.7);
    assert_eq!(ld.car_position, 1);
    assert_eq!(ld.current_lap_num, 10);
    assert_eq!(ld.pit_status, PitStatus::Pitting);
    assert_eq!(ld.sector, 1);
    assert!(!ld.current_lap_invalid);
    assert_eq!(ld.driver_status, DriverStatus::OnTrack);
    assert_eq!(ld.result_status, ResultStatus::Active);
    assert_eq!(p.lap_data[1].pit_status, PitStatus::NoPit);
    assert!(p.lap_data[1].current_lap_invalid);
    assert_eq!(p.lap_data[2].penalties, 5);
}

#[test]
fn lap_packet_invalid_pit_code() {
    let mut v = lap_packet();
    v[23 + 5 * 41 + 34] = 7; // sixth slot's pit status
    assert_eq!(parse_packet(v.len(), &v), Err(UnpackError::InvalidCode(7)));
}

#[test]
fn lap_packet_truncated() {
    let v = lap_packet();
    let cut = &v[..500];
    assert_eq!(
        parse_packet(cut.len(), cut),
        Err(UnpackError::Truncated { needed: 820, available: 500 - 23 })
    );
}

#[test]
fn participants_packet_fields() {
    let v = participants_packet();
    let p = match parse_packet(v.len(), &v).unwrap() {
        Packet::Participants(p) => p,
        _ => panic!("expected a participants packet"),
    };
    assert_eq!(p.num_active_cars, 20);
    assert_eq!(p.participants.len(), 20);
    let d = &p.participants[12];
    assert!(d.ai_controlled);
    assert_eq!(d.driver_id, 12);
    assert_eq!(d.team, Team::RedBullRacing);
    assert_eq!(d.race_number, 42);
    assert_eq!(d.name.len(), 48);
    assert_eq!(&d.name[..4], b"CAR2");
    assert!(!d.telemetry_public);
}

#[test]
fn participants_packet_invalid_team_code() {
    let mut v = participants_packet();
    v[24 + 2 * 54 + 2] = 200; // third slot's team
    assert_eq!(parse_packet(v.len(), &v), Err(UnpackError::InvalidCode(200)));
}

fn decode_lap(v: &[u8]) -> f1_telemetry::lap::PacketLapData {
    match parse_packet(v.len(), v).unwrap() {
        Packet::Lap(p) => p,
        _ => panic!("expected a lap packet"),
    }
}

fn decode_participants(v: &[u8]) -> f1_telemetry::participants::PacketParticipantsData {
    match parse_packet(v.len(), v).unwrap() {
        Packet::Participants(p) => p,
        _ => panic!("expected a participants packet"),
    }
}

#[test]
fn pit_status_drives_the_in_pit_flag() {
    // Any pit-status byte other than "no pit" makes the derived in-pit
    // flag true; byte 0 makes it false.
    for pit_byte in [1u8, 2] {
        let mut v = header_2019(2);
        for i in 0..20u8 {
            let pit = if i == 4 { pit_byte } else { 0 };
            v.extend_from_slice(&lap_slot(i + 1, 1, pit));
        }
        let lap = decode_lap(&v);
        let participants = Some(decode_participants(&participants_packet()));
        let infos = parse_lap_data(&lap, &participants).unwrap();
        assert_eq!(infos.len(), 20);
        assert!(infos[4].in_pit, "pit byte {}", pit_byte);
        assert!(!infos[5].in_pit);
        assert!(!infos[0].in_pit);
    }
}

#[test]
fn lap_info_joins_participant_identity() {
    let lap = decode_lap(&lap_packet());
    let participants = Some(decode_participants(&participants_packet()));
    let infos = parse_lap_data(&lap, &participants).unwrap();
    let li = &infos[7];
    assert_eq!(li.position, 8);
    assert_eq!(li.driver, 7);
    assert_eq!(li.team, Team::Haas);
    assert_eq!(&li.name[..4], b"CAR7");
    assert_eq!(li.status, ResultStatus::Active);
    assert!(!li.lap_invalid);
    assert_eq!(f32::from_bits(li.best_lap_time.bits), 82.9);
}

#[test]
fn lap_info_needs_participants() {
    let lap = decode_lap(&lap_packet());
    assert!(parse_lap_data(&lap, &None).is_none());
}

#[test]
fn current_lap_is_the_maximum() {
    let lap = decode_lap(&lap_packet()); // lap numbers cycle 10, 11, 12
    assert_eq!(get_current_lap(&lap), 12);
}

fn event_packet(code: &[u8; 4], tail: &[u8]) -> Vec<u8> {
    let mut v = header_2019(3);
    v.extend_from_slice(code);
    v.extend_from_slice(tail);
    v
}

#[test]
fn event_without_details() {
    let v = event_packet(b"SSTA", &[]);
    let p = match parse_packet(v.len(), &v).unwrap() {
        Packet::Event(p) => p,
        _ => panic!("expected an event packet"),
    };
    assert_eq!(p.event, Event::SessionStarted);
    assert_eq!(p.vehicle_idx, None);
    assert_eq!(p.lap_time, None);
}

#[test]
fn fastest_lap_event_carries_car_and_time() {
    let mut tail = vec![14u8];
    tail.extend_from_slice(&71.334f32.to_le_bytes());
    let v = event_packet(b"FTLP", &tail);
    let p = match parse_packet(v.len(), &v).unwrap() {
        Packet::Event(p) => p,
        _ => panic!("expected an event packet"),
    };
    assert_eq!(p.event, Event::FastestLap);
    assert_eq!(p.vehicle_idx, Some(14));
    assert_eq!(f32::from_bits(p.lap_time.unwrap().bits), 71.334);
}

#[test]
fn event_with_car_slot_outside_the_grid_is_rejected() {
    let v = event_packet(b"RTMT", &[20]);
    assert_eq!(parse_packet(v.len(), &v), Err(UnpackError::InvalidCode(20)));
}

#[test]
fn unknown_event_code_is_rejected() {
    let v = event_packet(b"ZZZZ", &[]);
    let packed = u32::from_le_bytes(*b"ZZZZ");
    assert_eq!(parse_packet(v.len(), &v), Err(UnpackError::InvalidCode(packed)));
}

#[test]
fn truncated_event_tail() {
    let v = event_packet(b"FTLP", &[3]); // index present, lap time missing
    assert_eq!(
        parse_packet(v.len(), &v),
        Err(UnpackError::Truncated { needed: 5, available: 1 })
    );
}

#[test]
fn event_info_joins_driver_name() {
    let v = event_packet(b"RTMT", &[6]);
    let ev = match parse_packet(v.len(), &v).unwrap() {
        Packet::Event(p) => p,
        _ => panic!("expected an event packet"),
    };
    let participants = Some(decode_participants(&participants_packet()));
    let info = parse_event_data(&ev, &participants).unwrap();
    assert_eq!(info.description, "Retirement");
    assert_eq!(&info.driver_name.unwrap()[..4], b"CAR6");
    assert_eq!(info.lap_time, None);
    assert_eq!(f32::from_bits(info.timestamp.bits), 421.5);

    // Without participants the event cannot be joined yet.
    assert!(parse_event_data(&ev, &None).is_none());

    // An event without a car slot needs no participants.
    let v = event_packet(b"CHQF", &[]);
    let ev = match parse_packet(v.len(), &v).unwrap() {
        Packet::Event(p) => p,
        _ => panic!("expected an event packet"),
    };
    let info = parse_event_data(&ev, &None).unwrap();
    assert_eq!(info.description, "Chequered Flag");
    assert!(info.driver_name.is_none());
}

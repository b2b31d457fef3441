//! Car telemetry: per-car speed, pedal, gear, temperature and pressure
//! readings. Pedal positions and tyre pressures are IEEE-754 values
//! carried as raw bits.

use vstd::prelude::*;

use crate::generic::{RawFloat, WheelData};
use crate::reader::{f32_at, i8_at, read_f32, read_i8, read_u16, read_u8, u16_at, u8_at};
use crate::header::PacketHeader;

verus! {

/// The telemetry of one car's slot.
#[derive(Debug, Clone, Copy, PartialEq, Eq, Structural)]
pub struct CarTelemetryData {
    pub speed: u16,
    pub throttle: RawFloat,
    pub steer: RawFloat,
    pub brake: RawFloat,
    pub clutch: u8,
    pub gear: i8,
    pub engine_rpm: u16,
    pub drs: bool,
    pub rev_lights_percent: u8,
    pub brakes_temperature: WheelData<u16>,
    pub tyres_surface_temperature: WheelData<u16>,
    pub tyres_inner_temperature: WheelData<u16>,
    pub engine_temperature: u16,
    pub tyres_pressure: WheelData<RawFloat>,
    pub surface_type: WheelData<u8>,
}

/// One car-telemetry datagram: the header, the fixed twenty car slots in
/// increasing slot order, and the button-status word.
#[derive(Debug, Clone, PartialEq, Eq)]
pub struct PacketCarTelemetryData {
    pub header: PacketHeader,
    pub car_telemetry_data: Vec<CarTelemetryData>,
    pub button_status: u32,
}

impl PacketCarTelemetryData {
    /// Every decoded telemetry packet carries exactly the twenty slots.
    pub open spec fn well_formed(&self) -> bool {
        self.car_telemetry_data@.len() == 20
    }

    pub fn car_telemetry_data(&self) -> (r: &Vec<CarTelemetryData>)
        ensures
            r == self.car_telemetry_data,
    {
        &self.car_telemetry_data
    }

    pub fn header(&self) -> (r: &PacketHeader)
        ensures
            r == self.header,
    {
        &self.header
    }
}

/// Bytes of one car-telemetry slot.
pub const TELEMETRY_BYTES: usize = 66;

/// One telemetry slot as a function of the datagram bytes. No telemetry
/// field is table-coded, so a slot with enough bytes always decodes.
pub open spec fn spec_telemetry(s: Seq<u8>, p: int) -> CarTelemetryData {
    CarTelemetryData {
        speed: u16_at(s, p),
        throttle: f32_at(s, p + 2),
        steer: f32_at(s, p + 6),
        brake: f32_at(s, p + 10),
        clutch: u8_at(s, p + 14),
        gear: i8_at(s, p + 15),
        engine_rpm: u16_at(s, p + 16),
        drs: u8_at(s, p + 18) == 1,
        rev_lights_percent: u8_at(s, p + 19),
        brakes_temperature: WheelData {
            rear_left: u16_at(s, p + 20),
            rear_right: u16_at(s, p + 22),
            front_left: u16_at(s, p + 24),
            front_right: u16_at(s, p + 26),
        },
        tyres_surface_temperature: WheelData {
            rear_left: u16_at(s, p + 28),
            rear_right: u16_at(s, p + 30),
            front_left: u16_at(s, p + 32),
            front_right: u16_at(s, p + 34),
        },
        tyres_inner_temperature: WheelData {
            rear_left: u16_at(s, p + 36),
            rear_right: u16_at(s, p + 38),
            front_left: u16_at(s, p + 40),
            front_right: u16_at(s, p + 42),
        },
        engine_temperature: u16_at(s, p + 44),
        tyres_pressure: WheelData {
            rear_left: f32_at(s, p + 46),
            rear_right: f32_at(s, p + 50),
            front_left: f32_at(s, p + 54),
            front_right: f32_at(s, p + 58),
        },
        surface_type: WheelData {
            rear_left: u8_at(s, p + 62),
            rear_right: u8_at(s, p + 63),
            front_left: u8_at(s, p + 64),
            front_right: u8_at(s, p + 65),
        },
    }
}

/// Decodes one telemetry slot at base offset `pos`.
pub(crate) fn parse_telemetry_car(buf: &[u8], pos: usize) -> (r: CarTelemetryData)
    requires
        pos + TELEMETRY_BYTES <= buf@.len(),
    ensures
        r == spec_telemetry(buf@, pos as int),
{
    let mut p = pos;
    let speed = read_u16(buf, &mut p);
    let throttle = read_f32(buf, &mut p);
    let steer = read_f32(buf, &mut p);
    let brake = read_f32(buf, &mut p);
    let clutch = read_u8(buf, &mut p);
    let gear = read_i8(buf, &mut p);
    let engine_rpm = read_u16(buf, &mut p);
    let drs = read_u8(buf, &mut p) == 1;
    let rev_lights_percent = read_u8(buf, &mut p);
    let brakes_temperature = WheelData::new(
        read_u16(buf, &mut p),
        read_u16(buf, &mut p),
        read_u16(buf, &mut p),
        read_u16(buf, &mut p),
    );
    let tyres_surface_temperature = WheelData::new(
        read_u16(buf, &mut p),
        read_u16(buf, &mut p),
        read_u16(buf, &mut p),
        read_u16(buf, &mut p),
    );
    let tyres_inner_temperature = WheelData::new(
        read_u16(buf, &mut p),
        read_u16(buf, &mut p),
        read_u16(buf, &mut p),
        read_u16(buf, &mut p),
    );
    let engine_temperature = read_u16(buf, &mut p);
    let tyres_pressure = WheelData::new(
        read_f32(buf, &mut p),
        read_f32(buf, &mut p),
        read_f32(buf, &mut p),
        read_f32(buf, &mut p),
    );
    let surface_type = WheelData::new(
        read_u8(buf, &mut p),
        read_u8(buf, &mut p),
        read_u8(buf, &mut p),
        read_u8(buf, &mut p),
    );
    CarTelemetryData {
        speed,
        throttle,
        steer,
        brake,
        clutch,
        gear,
        engine_rpm,
        drs,
        rev_lights_percent,
        brakes_temperature,
        tyres_surface_temperature,
        tyres_inner_temperature,
        engine_temperature,
        tyres_pressure,
        surface_type,
    }
}

} // verus!

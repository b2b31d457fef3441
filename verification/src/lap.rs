//! Lap data: per-car timing, distance and race-status state, with the
//! closed code tables for pit status, driver status and result status.

use vstd::prelude::*;

use crate::error::UnpackError;
use crate::reader::{f32_at, read_f32, read_u8, u8_at};
use crate::generic::RawFloat;
use crate::header::PacketHeader;

verus! {

#[derive(Debug, Clone, Copy, PartialEq, Eq, Structural)]
pub enum PitStatus {
    NoPit,
    Pitting,
    InPitArea,
}

impl PitStatus {
    /// The closed code table: `0` no pit, `1` pitting, `2` in the pit area.
    pub open spec fn spec_try_from(value: u8) -> Result<PitStatus, UnpackError> {
        match value {
            0u8 => Ok(PitStatus::NoPit),
            1u8 => Ok(PitStatus::Pitting),
            2u8 => Ok(PitStatus::InPitArea),
            _ => Err(UnpackError::InvalidCode(value as u32)),
        }
    }

    pub fn try_from(value: u8) -> (r: Result<PitStatus, UnpackError>)
        ensures
            r == PitStatus::spec_try_from(value),
    {
        match value {
            0u8 => Ok(PitStatus::NoPit),
            1u8 => Ok(PitStatus::Pitting),
            2u8 => Ok(PitStatus::InPitArea),
            _ => Err(UnpackError::InvalidCode(value as u32)),
        }
    }
}

#[derive(Debug, Clone, Copy, PartialEq, Eq, Structural)]
pub enum DriverStatus {
    InGarage,
    FlyingLap,
    InLap,
    OutLap,
    OnTrack,
}

impl DriverStatus {
    /// The closed code table: `0` in garage, `1` flying lap, `2` in lap,
    /// `3` out lap, `4` on track.
    pub open spec fn spec_try_from(value: u8) -> Result<DriverStatus, UnpackError> {
        match value {
            0u8 => Ok(DriverStatus::InGarage),
            1u8 => Ok(DriverStatus::FlyingLap),
            2u8 => Ok(DriverStatus::InLap),
            3u8 => Ok(DriverStatus::OutLap),
            4u8 => Ok(DriverStatus::OnTrack),
            _ => Err(UnpackError::InvalidCode(value as u32)),
        }
    }

    pub fn try_from(value: u8) -> (r: Result<DriverStatus, UnpackError>)
        ensures
            r == DriverStatus::spec_try_from(value),
    {
        match value {
            0u8 => Ok(DriverStatus::InGarage),
            1u8 => Ok(DriverStatus::FlyingLap),
            2u8 => Ok(DriverStatus::InLap),
            3u8 => Ok(DriverStatus::OutLap),
            4u8 => Ok(DriverStatus::OnTrack),
            _ => Err(UnpackError::InvalidCode(value as u32)),
        }
    }
}

#[derive(Debug, Clone, Copy, PartialEq, Eq, Structural)]
pub enum ResultStatus {
    Invalid,
    Inactive,
    Active,
    Finished,
    Disqualified,
    NotClassified,
    Retired,
}

impl ResultStatus {
    /// The closed code table: `0` invalid, `1` inactive, `2` active,
    /// `3` finished, `4` disqualified, `5` not classified, `6` retired.
    pub open spec fn spec_try_from(value: u8) -> Result<ResultStatus, UnpackError> {
        match value {
            0u8 => Ok(ResultStatus::Invalid),
            1u8 => Ok(ResultStatus::Inactive),
            2u8 => Ok(ResultStatus::Active),
            3u8 => Ok(ResultStatus::Finished),
            4u8 => Ok(ResultStatus::Disqualified),
            5u8 => Ok(ResultStatus::NotClassified),
            6u8 => Ok(ResultStatus::Retired),
            _ => Err(UnpackError::InvalidCode(value as u32)),
        }
    }

    pub fn try_from(value: u8) -> (r: Result<ResultStatus, UnpackError>)
        ensures
            r == ResultStatus::spec_try_from(value),
    {
        match value {
            0u8 => Ok(ResultStatus::Invalid),
            1u8 => Ok(ResultStatus::Inactive),
            2u8 => Ok(ResultStatus::Active),
            3u8 => Ok(ResultStatus::Finished),
            4u8 => Ok(ResultStatus::Disqualified),
            5u8 => Ok(ResultStatus::NotClassified),
            6u8 => Ok(ResultStatus::Retired),
            _ => Err(UnpackError::InvalidCode(value as u32)),
        }
    }
}

/// The lap state of one car's slot. Times and distances are IEEE-754
/// values carried as raw bits.
#[derive(Debug, Clone, Copy, PartialEq, Eq, Structural)]
pub struct LapData {
    pub last_lap_time: RawFloat,
    pub current_lap_time: RawFloat,
    pub best_lap_time: RawFloat,
    pub sector_1_time: RawFloat,
    pub sector_2_time: RawFloat,
    pub lap_distance: RawFloat,
    pub total_distance: RawFloat,
    pub safety_car_delta: RawFloat,
    pub car_position: u8,
    pub current_lap_num: u8,
    pub pit_status: PitStatus,
    pub sector: u8,
    pub current_lap_invalid: bool,
    pub penalties: u8,
    pub grid_position: u8,
    pub driver_status: DriverStatus,
    pub result_status: ResultStatus,
}

/// One lap-data datagram: the header and the fixed twenty car slots in
/// increasing slot order.
#[derive(Debug, Clone, PartialEq, Eq)]
pub struct PacketLapData {
    pub header: PacketHeader,
    pub lap_data: Vec<LapData>,
}

impl PacketLapData {
    /// Every decoded lap-data packet carries exactly the twenty slots.
    pub open spec fn well_formed(&self) -> bool {
        self.lap_data@.len() == 20
    }

    pub fn header(&self) -> (r: &PacketHeader)
        ensures
            r == self.header,
    {
        &self.header
    }
}

/// Bytes of one lap-data slot.
pub const LAP_BYTES: usize = 41;

/// The first invalid code among one lap slot's coded fields, in read
/// order, if any. `p` is the slot's base offset.
pub open spec fn spec_lap_err(s: Seq<u8>, p: int) -> Option<UnpackError> {
    match PitStatus::spec_try_from(u8_at(s, p + 34)) {
        Err(e) => Some(e),
        Ok(_) => match DriverStatus::spec_try_from(u8_at(s, p + 39)) {
            Err(e) => Some(e),
            Ok(_) => match ResultStatus::spec_try_from(u8_at(s, p + 40)) {
                Err(e) => Some(e),
                Ok(_) => None,
            },
        },
    }
}

/// One lap slot as a function of the datagram bytes, meaningful when
/// `spec_lap_err` is `None`.
pub open spec fn spec_lap(s: Seq<u8>, p: int) -> LapData {
    LapData {
        last_lap_time: f32_at(s, p),
        current_lap_time: f32_at(s, p + 4),
        best_lap_time: f32_at(s, p + 8),
        sector_1_time: f32_at(s, p + 12),
        sector_2_time: f32_at(s, p + 16),
        lap_distance: f32_at(s, p + 20),
        total_distance: f32_at(s, p + 24),
        safety_car_delta: f32_at(s, p + 28),
        car_position: u8_at(s, p + 32),
        current_lap_num: u8_at(s, p + 33),
        pit_status: PitStatus::spec_try_from(u8_at(s, p + 34))->Ok_0,
        sector: u8_at(s, p + 35),
        current_lap_invalid: u8_at(s, p + 36) == 1,
        penalties: u8_at(s, p + 37),
        grid_position: u8_at(s, p + 38),
        driver_status: DriverStatus::spec_try_from(u8_at(s, p + 39))->Ok_0,
        result_status: ResultStatus::spec_try_from(u8_at(s, p + 40))->Ok_0,
    }
}

/// Decodes one lap slot at base offset `pos`, failing on the first
/// invalid code in read order.
pub(crate) fn parse_lap(buf: &[u8], pos: usize) -> (r: Result<LapData, UnpackError>)
    requires
        pos + LAP_BYTES <= buf@.len(),
    ensures
        match r {
            Ok(c) => spec_lap_err(buf@, pos as int) is None && c == spec_lap(buf@, pos as int),
            Err(e) => spec_lap_err(buf@, pos as int) == Some(e),
        },
{
    let mut p = pos;
    let last_lap_time = read_f32(buf, &mut p);
    let current_lap_time = read_f32(buf, &mut p);
    let best_lap_time = read_f32(buf, &mut p);
    let sector_1_time = read_f32(buf, &mut p);
    let sector_2_time = read_f32(buf, &mut p);
    let lap_distance = read_f32(buf, &mut p);
    let total_distance = read_f32(buf, &mut p);
    let safety_car_delta = read_f32(buf, &mut p);
    let car_position = read_u8(buf, &mut p);
    let current_lap_num = read_u8(buf, &mut p);
    let pit_status = match PitStatus::try_from(read_u8(buf, &mut p)) {
        Ok(v) => v,
        Err(e) => { return Err(e) },
    };
    let sector = read_u8(buf, &mut p);
    let current_lap_invalid = read_u8(buf, &mut p) == 1;
    let penalties = read_u8(buf, &mut p);
    let grid_position = read_u8(buf, &mut p);
    let driver_status = match DriverStatus::try_from(read_u8(buf, &mut p)) {
        Ok(v) => v,
        Err(e) => { return Err(e) },
    };
    let result_status = match ResultStatus::try_from(read_u8(buf, &mut p)) {
        Ok(v) => v,
        Err(e) => { return Err(e) },
    };
    Ok(
        LapData {
            last_lap_time,
            current_lap_time,
            best_lap_time,
            sector_1_time,
            sector_2_time,
            lap_distance,
            total_distance,
            safety_car_delta,
            car_position,
            current_lap_num,
            pit_status,
            sector,
            current_lap_invalid,
            penalties,
            grid_position,
            driver_status,
            result_status,
        },
    )
}

} // verus!

//! Car status: per-car drive-assist, fuel, tyre and energy-recovery state,
//! with the closed code tables for every coded field.

use vstd::prelude::*;

use crate::error::UnpackError;
use crate::reader::{f32_at, i8_at, read_f32, read_i8, read_u16, read_u8, u16_at, u8_at};
use crate::generic::{Flag, RawFloat, WheelData};
use crate::header::PacketHeader;

verus! {

#[derive(Debug, Clone, Copy, PartialEq, Eq, Structural)]
pub enum TractionControl {
    Off,
    Low,
    High,
}

impl TractionControl {
    /// The closed code table: `0` off, `1` low, `2` high.
    pub open spec fn spec_try_from(value: u8) -> Result<TractionControl, UnpackError> {
        match value {
            0u8 => Ok(TractionControl::Off),
            1u8 => Ok(TractionControl::Low),
            2u8 => Ok(TractionControl::High),
            _ => Err(UnpackError::InvalidCode(value as u32)),
        }
    }

    pub fn try_from(value: u8) -> (r: Result<TractionControl, UnpackError>)
        ensures
            r == TractionControl::spec_try_from(value),
    {
        match value {
            0u8 => Ok(TractionControl::Off),
            1u8 => Ok(TractionControl::Low),
            2u8 => Ok(TractionControl::High),
            _ => Err(UnpackError::InvalidCode(value as u32)),
        }
    }
}

#[derive(Debug, Clone, Copy, PartialEq, Eq, Structural)]
pub enum FuelMix {
    Lean,
    Standard,
    Rich,
    Max,
}

impl FuelMix {
    /// The closed code table: `0` lean, `1` standard, `2` rich, `3` max.
    pub open spec fn spec_try_from(value: u8) -> Result<FuelMix, UnpackError> {
        match value {
            0u8 => Ok(FuelMix::Lean),
            1u8 => Ok(FuelMix::Standard),
            2u8 => Ok(FuelMix::Rich),
            3u8 => Ok(FuelMix::Max),
            _ => Err(UnpackError::InvalidCode(value as u32)),
        }
    }

    pub fn try_from(value: u8) -> (r: Result<FuelMix, UnpackError>)
        ensures
            r == FuelMix::spec_try_from(value),
    {
        match value {
            0u8 => Ok(FuelMix::Lean),
            1u8 => Ok(FuelMix::Standard),
            2u8 => Ok(FuelMix::Rich),
            3u8 => Ok(FuelMix::Max),
            _ => Err(UnpackError::InvalidCode(value as u32)),
        }
    }
}

/// Drag-reduction availability. The wire codes this as a signed byte with
/// `-1` as the "unknown" sentinel, kept as its own variant rather than
/// clamped to zero.
#[derive(Debug, Clone, Copy, PartialEq, Eq, Structural)]
pub enum DRS {
    NotAllowed,
    Allowed,
    Unknown,
}

impl DRS {
    /// The closed code table: `0` not allowed, `1` allowed, `-1` unknown.
    pub open spec fn spec_try_from(value: i8) -> Result<DRS, UnpackError> {
        match value {
            0i8 => Ok(DRS::NotAllowed),
            1i8 => Ok(DRS::Allowed),
            -1i8 => Ok(DRS::Unknown),
            _ => Err(UnpackError::InvalidCode((value as u8) as u32)),
        }
    }

    pub fn try_from(value: i8) -> (r: Result<DRS, UnpackError>)
        ensures
            r == DRS::spec_try_from(value),
    {
        match value {
            0i8 => Ok(DRS::NotAllowed),
            1i8 => Ok(DRS::Allowed),
            -1i8 => Ok(DRS::Unknown),
            _ => Err(UnpackError::InvalidCode((value as u8) as u32)),
        }
    }
}

/// The physical tyre compound fitted. The code ranges are deliberately
/// non-contiguous: `16`–`20` are the current-generation compounds,
/// `7`–`15` the historic and feeder-series compounds, and `0` and `255`
/// both mean "invalid/unknown" and map to the same variant.
#[derive(Debug, Clone, Copy, PartialEq, Eq, Structural)]
pub enum TyreCompound {
    C5,
    C4,
    C3,
    C2,
    C1,
    Inter,
    Wet,
    ClassicDry,
    ClassicWet,
    F2SuperSoft,
    F2Soft,
    F2Medium,
    F2Hard,
    F2Wet,
    Invalid,
}

impl TyreCompound {
    /// The closed code table: `16`–`20` are C5 (softest) down to C1,
    /// `7` intermediate, `8` full wet, `9`/`10` classic dry/wet,
    /// `11`–`15` the F2 range, `0` and `255` both invalid.
    pub open spec fn spec_try_from(value: u8) -> Result<TyreCompound, UnpackError> {
        match value {
            16u8 => Ok(TyreCompound::C5),
            17u8 => Ok(TyreCompound::C4),
            18u8 => Ok(TyreCompound::C3),
            19u8 => Ok(TyreCompound::C2),
            20u8 => Ok(TyreCompound::C1),
            7u8 => Ok(TyreCompound::Inter),
            8u8 => Ok(TyreCompound::Wet),
            9u8 => Ok(TyreCompound::ClassicDry),
            10u8 => Ok(TyreCompound::ClassicWet),
            11u8 => Ok(TyreCompound::F2SuperSoft),
            12u8 => Ok(TyreCompound::F2Soft),
            13u8 => Ok(TyreCompound::F2Medium),
            14u8 => Ok(TyreCompound::F2Hard),
            15u8 => Ok(TyreCompound::F2Wet),
            0u8 => Ok(TyreCompound::Invalid),
            255u8 => Ok(TyreCompound::Invalid),
            _ => Err(UnpackError::InvalidCode(value as u32)),
        }
    }

    pub fn try_from(value: u8) -> (r: Result<TyreCompound, UnpackError>)
        ensures
            r == TyreCompound::spec_try_from(value),
    {
        match value {
            16u8 => Ok(TyreCompound::C5),
            17u8 => Ok(TyreCompound::C4),
            18u8 => Ok(TyreCompound::C3),
            19u8 => Ok(TyreCompound::C2),
            20u8 => Ok(TyreCompound::C1),
            7u8 => Ok(TyreCompound::Inter),
            8u8 => Ok(TyreCompound::Wet),
            9u8 => Ok(TyreCompound::ClassicDry),
            10u8 => Ok(TyreCompound::ClassicWet),
            11u8 => Ok(TyreCompound::F2SuperSoft),
            12u8 => Ok(TyreCompound::F2Soft),
            13u8 => Ok(TyreCompound::F2Medium),
            14u8 => Ok(TyreCompound::F2Hard),
            15u8 => Ok(TyreCompound::F2Wet),
            0u8 => Ok(TyreCompound::Invalid),
            255u8 => Ok(TyreCompound::Invalid),
            _ => Err(UnpackError::InvalidCode(value as u32)),
        }
    }
}

/// The compound colour shown on the tyre wall, a coarser table than the
/// physical compound; only `0` means invalid here.
#[derive(Debug, Clone, Copy, PartialEq, Eq, Structural)]
pub enum TyreCompoundVisual {
    Soft,
    Medium,
    Hard,
    Inter,
    Wet,
    ClassicDry,
    ClassicWet,
    F2SuperSoft,
    F2Soft,
    F2Medium,
    F2Hard,
    F2Wet,
    Invalid,
}

impl TyreCompoundVisual {
    /// The closed code table: `16` soft, `17` medium, `18` hard,
    /// `7` intermediate, `8` full wet, `9`/`10` classic dry/wet,
    /// `11`–`15` the F2 range, `0` invalid.
    pub open spec fn spec_try_from(value: u8) -> Result<TyreCompoundVisual, UnpackError> {
        match value {
            16u8 => Ok(TyreCompoundVisual::Soft),
            17u8 => Ok(TyreCompoundVisual::Medium),
            18u8 => Ok(TyreCompoundVisual::Hard),
            7u8 => Ok(TyreCompoundVisual::Inter),
            8u8 => Ok(TyreCompoundVisual::Wet),
            9u8 => Ok(TyreCompoundVisual::ClassicDry),
            10u8 => Ok(TyreCompoundVisual::ClassicWet),
            11u8 => Ok(TyreCompoundVisual::F2SuperSoft),
            12u8 => Ok(TyreCompoundVisual::F2Soft),
            13u8 => Ok(TyreCompoundVisual::F2Medium),
            14u8 => Ok(TyreCompoundVisual::F2Hard),
            15u8 => Ok(TyreCompoundVisual::F2Wet),
            0u8 => Ok(TyreCompoundVisual::Invalid),
            _ => Err(UnpackError::InvalidCode(value as u32)),
        }
    }

    pub fn try_from(value: u8) -> (r: Result<TyreCompoundVisual, UnpackError>)
        ensures
            r == TyreCompoundVisual::spec_try_from(value),
    {
        match value {
            16u8 => Ok(TyreCompoundVisual::Soft),
            17u8 => Ok(TyreCompoundVisual::Medium),
            18u8 => Ok(TyreCompoundVisual::Hard),
            7u8 => Ok(TyreCompoundVisual::Inter),
            8u8 => Ok(TyreCompoundVisual::Wet),
            9u8 => Ok(TyreCompoundVisual::ClassicDry),
            10u8 => Ok(TyreCompoundVisual::ClassicWet),
            11u8 => Ok(TyreCompoundVisual::F2SuperSoft),
            12u8 => Ok(TyreCompoundVisual::F2Soft),
            13u8 => Ok(TyreCompoundVisual::F2Medium),
            14u8 => Ok(TyreCompoundVisual::F2Hard),
            15u8 => Ok(TyreCompoundVisual::F2Wet),
            0u8 => Ok(TyreCompoundVisual::Invalid),
            _ => Err(UnpackError::InvalidCode(value as u32)),
        }
    }
}

#[derive(Debug, Clone, Copy, PartialEq, Eq, Structural)]
pub enum ERSDeployMode {
    Off,
    Low,
    Medium,
    High,
    Overtake,
    Hotlap,
}

impl ERSDeployMode {
    /// The closed code table: `0` no deployment, `1` low, `2` medium,
    /// `3` high, `4` overtake, `5` hotlap.
    pub open spec fn spec_try_from(value: u8) -> Result<ERSDeployMode, UnpackError> {
        match value {
            0u8 => Ok(ERSDeployMode::Off),
            1u8 => Ok(ERSDeployMode::Low),
            2u8 => Ok(ERSDeployMode::Medium),
            3u8 => Ok(ERSDeployMode::High),
            4u8 => Ok(ERSDeployMode::Overtake),
            5u8 => Ok(ERSDeployMode::Hotlap),
            _ => Err(UnpackError::InvalidCode(value as u32)),
        }
    }

    pub fn try_from(value: u8) -> (r: Result<ERSDeployMode, UnpackError>)
        ensures
            r == ERSDeployMode::spec_try_from(value),
    {
        match value {
            0u8 => Ok(ERSDeployMode::Off),
            1u8 => Ok(ERSDeployMode::Low),
            2u8 => Ok(ERSDeployMode::Medium),
            3u8 => Ok(ERSDeployMode::High),
            4u8 => Ok(ERSDeployMode::Overtake),
            5u8 => Ok(ERSDeployMode::Hotlap),
            _ => Err(UnpackError::InvalidCode(value as u32)),
        }
    }
}

/// The status of one car's slot.
#[derive(Debug, Clone, Copy, PartialEq, Eq, Structural)]
pub struct CarStatusData {
    pub traction_control: TractionControl,
    pub anti_lock_brakes: bool,
    pub fuel_mix: FuelMix,
    pub front_brake_bias: u8,
    pub pit_limiter: bool,
    pub fuel_in_tank: RawFloat,
    pub fuel_capacity: RawFloat,
    pub fuel_remaining_laps: RawFloat,
    pub max_rpm: u16,
    pub idle_rpm: u16,
    pub max_gears: u8,
    pub drs_allowed: DRS,
    pub tyres_wear: WheelData<u8>,
    pub actual_tyre_compound: TyreCompound,
    pub visual_tyre_compound: TyreCompoundVisual,
    pub tyres_damage: WheelData<u8>,
    pub front_left_wing_damage: u8,
    pub front_right_wing_damage: u8,
    pub rear_wing_damage: u8,
    pub engine_damage: u8,
    pub gear_box_damage: u8,
    pub vehicle_fia_flags: Flag,
    pub ers_store_energy: RawFloat,
    pub ers_deploy_mode: ERSDeployMode,
    pub ers_harvested_this_lap_mguk: RawFloat,
    pub ers_harvested_this_lap_mguh: RawFloat,
    pub ers_deployed_this_lap: RawFloat,
}

/// One car-status datagram: the header and the fixed twenty car slots in
/// increasing slot order.
#[derive(Debug, Clone, PartialEq, Eq)]
pub struct PacketCarStatusData {
    pub header: PacketHeader,
    pub car_status_data: Vec<CarStatusData>,
}

impl PacketCarStatusData {
    /// Every decoded car-status packet carries exactly the twenty slots.
    pub open spec fn well_formed(&self) -> bool {
        self.car_status_data@.len() == 20
    }

    pub fn new(header: PacketHeader, car_status_data: Vec<CarStatusData>) -> (r:
        PacketCarStatusData)
        ensures
            r.header == header,
            r.car_status_data == car_status_data,
    {
        PacketCarStatusData { header, car_status_data }
    }

    pub fn header(&self) -> (r: &PacketHeader)
        ensures
            r == self.header,
    {
        &self.header
    }
}

/// Bytes of one car-status slot.
pub const CAR_STATUS_BYTES: usize = 56;

/// The first invalid code among one car-status slot's coded fields, in
/// read order, if any. `p` is the slot's base offset.
pub open spec fn spec_car_status_err(s: Seq<u8>, p: int) -> Option<UnpackError> {
    match TractionControl::spec_try_from(u8_at(s, p)) {
        Err(e) => Some(e),
        Ok(_) => match FuelMix::spec_try_from(u8_at(s, p + 2)) {
            Err(e) => Some(e),
            Ok(_) => match DRS::spec_try_from(i8_at(s, p + 22)) {
                Err(e) => Some(e),
                Ok(_) => match TyreCompound::spec_try_from(u8_at(s, p + 27)) {
                    Err(e) => Some(e),
                    Ok(_) => match TyreCompoundVisual::spec_try_from(u8_at(s, p + 28)) {
                        Err(e) => Some(e),
                        Ok(_) => match Flag::spec_try_from(i8_at(s, p + 38)) {
                            Err(e) => Some(e),
                            Ok(_) => match ERSDeployMode::spec_try_from(u8_at(s, p + 43)) {
                                Err(e) => Some(e),
                                Ok(_) => None,
                            },
                        },
                    },
                },
            },
        },
    }
}

/// One car-status slot as a function of the datagram bytes, meaningful
/// when `spec_car_status_err` is `None`.
pub open spec fn spec_car_status(s: Seq<u8>, p: int) -> CarStatusData {
    CarStatusData {
        traction_control: TractionControl::spec_try_from(u8_at(s, p))->Ok_0,
        anti_lock_brakes: u8_at(s, p + 1) == 1,
        fuel_mix: FuelMix::spec_try_from(u8_at(s, p + 2))->Ok_0,
        front_brake_bias: u8_at(s, p + 3),
        pit_limiter: u8_at(s, p + 4) == 1,
        fuel_in_tank: f32_at(s, p + 5),
        fuel_capacity: f32_at(s, p + 9),
        fuel_remaining_laps: f32_at(s, p + 13),
        max_rpm: u16_at(s, p + 17),
        idle_rpm: u16_at(s, p + 19),
        max_gears: u8_at(s, p + 21),
        drs_allowed: DRS::spec_try_from(i8_at(s, p + 22))->Ok_0,
        tyres_wear: WheelData {
            rear_left: u8_at(s, p + 23),
            rear_right: u8_at(s, p + 24),
            front_left: u8_at(s, p + 25),
            front_right: u8_at(s, p + 26),
        },
        actual_tyre_compound: TyreCompound::spec_try_from(u8_at(s, p + 27))->Ok_0,
        visual_tyre_compound: TyreCompoundVisual::spec_try_from(u8_at(s, p + 28))->Ok_0,
        tyres_damage: WheelData {
            rear_left: u8_at(s, p + 29),
            rear_right: u8_at(s, p + 30),
            front_left: u8_at(s, p + 31),
            front_right: u8_at(s, p + 32),
        },
        front_left_wing_damage: u8_at(s, p + 33),
        front_right_wing_damage: u8_at(s, p + 34),
        rear_wing_damage: u8_at(s, p + 35),
        engine_damage: u8_at(s, p + 36),
        gear_box_damage: u8_at(s, p + 37),
        vehicle_fia_flags: Flag::spec_try_from(i8_at(s, p + 38))->Ok_0,
        ers_store_energy: f32_at(s, p + 39),
        ers_deploy_mode: ERSDeployMode::spec_try_from(u8_at(s, p + 43))->Ok_0,
        ers_harvested_this_lap_mguk: f32_at(s, p + 44),
        ers_harvested_this_lap_mguh: f32_at(s, p + 48),
        ers_deployed_this_lap: f32_at(s, p + 52),
    }
}

/// Decodes one car-status slot at base offset `pos`, failing on the
/// first invalid code in read order.
pub(crate) fn parse_car(buf: &[u8], pos: usize) -> (r: Result<CarStatusData, UnpackError>)
    requires
        pos + CAR_STATUS_BYTES <= buf@.len(),
    ensures
        match r {
            Ok(c) => spec_car_status_err(buf@, pos as int) is None && c == spec_car_status(
                buf@,
                pos as int,
            ),
            Err(e) => spec_car_status_err(buf@, pos as int) == Some(e),
        },
{
    let mut p = pos;
    let traction_control = match TractionControl::try_from(read_u8(buf, &mut p)) {
        Ok(v) => v,
        Err(e) => { return Err(e) },
    };
    let anti_lock_brakes = read_u8(buf, &mut p) == 1;
    let fuel_mix = match FuelMix::try_from(read_u8(buf, &mut p)) {
        Ok(v) => v,
        Err(e) => { return Err(e) },
    };
    let front_brake_bias = read_u8(buf, &mut p);
    let pit_limiter = read_u8(buf, &mut p) == 1;
    let fuel_in_tank = read_f32(buf, &mut p);
    let fuel_capacity = read_f32(buf, &mut p);
    let fuel_remaining_laps = read_f32(buf, &mut p);
    let max_rpm = read_u16(buf, &mut p);
    let idle_rpm = read_u16(buf, &mut p);
    let max_gears = read_u8(buf, &mut p);
    let drs_allowed = match DRS::try_from(read_i8(buf, &mut p)) {
        Ok(v) => v,
        Err(e) => { return Err(e) },
    };
    let tyres_wear = WheelData::new(
        read_u8(buf, &mut p),
        read_u8(buf, &mut p),
        read_u8(buf, &mut p),
        read_u8(buf, &mut p),
    );
    let actual_tyre_compound = match TyreCompound::try_from(read_u8(buf, &mut p)) {
        Ok(v) => v,
        Err(e) => { return Err(e) },
    };
    let visual_tyre_compound = match TyreCompoundVisual::try_from(read_u8(buf, &mut p)) {
        Ok(v) => v,
        Err(e) => { return Err(e) },
    };
    let tyres_damage = WheelData::new(
        read_u8(buf, &mut p),
        read_u8(buf, &mut p),
        read_u8(buf, &mut p),
        read_u8(buf, &mut p),
    );
    let front_left_wing_damage = read_u8(buf, &mut p);
    let front_right_wing_damage = read_u8(buf, &mut p);
    let rear_wing_damage = read_u8(buf, &mut p);
    let engine_damage = read_u8(buf, &mut p);
    let gear_box_damage = read_u8(buf, &mut p);
    let vehicle_fia_flags = match Flag::try_from(read_i8(buf, &mut p)) {
        Ok(v) => v,
        Err(e) => { return Err(e) },
    };
    let ers_store_energy = read_f32(buf, &mut p);
    let ers_deploy_mode = match ERSDeployMode::try_from(read_u8(buf, &mut p)) {
        Ok(v) => v,
        Err(e) => { return Err(e) },
    };
    let ers_harvested_this_lap_mguk = read_f32(buf, &mut p);
    let ers_harvested_this_lap_mguh = read_f32(buf, &mut p);
    let ers_deployed_this_lap = read_f32(buf, &mut p);
    Ok(
        CarStatusData {
            traction_control,
            anti_lock_brakes,
            fuel_mix,
            front_brake_bias,
            pit_limiter,
            fuel_in_tank,
            fuel_capacity,
            fuel_remaining_laps,
            max_rpm,
            idle_rpm,
            max_gears,
            drs_allowed,
            tyres_wear,
            actual_tyre_compound,
            visual_tyre_compound,
            tyres_damage,
            front_left_wing_damage,
            front_right_wing_damage,
            rear_wing_damage,
            engine_damage,
            gear_box_damage,
            vehicle_fia_flags,
            ers_store_energy,
            ers_deploy_mode,
            ers_harvested_this_lap_mguk,
            ers_harvested_this_lap_mguh,
            ers_deployed_this_lap,
        },
    )
}

} // verus!

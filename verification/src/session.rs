//! Session state: weather, track, session type, marshal zones, weather
//! forecast samples, and the later-revision tail of identifiers and
//! driving-assist status, with the closed code tables for every coded
//! field.

use vstd::prelude::*;

use crate::error::UnpackError;
use crate::generic::{Flag, RawFloat};
use crate::header::PacketHeader;

verus! {

#[derive(Debug, Clone, Copy, PartialEq, Eq, Structural)]
pub enum Weather {
    Clear,
    LightCloud,
    Overcast,
    LightRain,
    HeavyRain,
    Storm,
}

impl Weather {
    /// The closed code table: `0` clear, `1` light cloud, `2` overcast,
    /// `3` light rain, `4` heavy rain, `5` storm.
    pub open spec fn spec_try_from(value: u8) -> Result<Weather, UnpackError> {
        match value {
            0u8 => Ok(Weather::Clear),
            1u8 => Ok(Weather::LightCloud),
            2u8 => Ok(Weather::Overcast),
            3u8 => Ok(Weather::LightRain),
            4u8 => Ok(Weather::HeavyRain),
            5u8 => Ok(Weather::Storm),
            _ => Err(UnpackError::InvalidCode(value as u32)),
        }
    }

    pub fn try_from(value: u8) -> (r: Result<Weather, UnpackError>)
        ensures
            r == Weather::spec_try_from(value),
    {
        match value {
            0u8 => Ok(Weather::Clear),
            1u8 => Ok(Weather::LightCloud),
            2u8 => Ok(Weather::Overcast),
            3u8 => Ok(Weather::LightRain),
            4u8 => Ok(Weather::HeavyRain),
            5u8 => Ok(Weather::Storm),
            _ => Err(UnpackError::InvalidCode(value as u32)),
        }
    }
}

impl Default for Weather {
    fn default() -> (r: Self)
        ensures
            r == Weather::Clear,
    {
        Weather::Clear
    }
}

#[derive(Debug, Clone, Copy, PartialEq, Eq, Structural)]
pub enum TemperatureChange {
    Up,
    Down,
    NoChange,
}

impl TemperatureChange {
    /// The closed code table: `0` up, `1` down, `2` no change.
    pub open spec fn spec_try_from(value: u8) -> Result<TemperatureChange, UnpackError> {
        match value {
            0u8 => Ok(TemperatureChange::Up),
            1u8 => Ok(TemperatureChange::Down),
            2u8 => Ok(TemperatureChange::NoChange),
            _ => Err(UnpackError::InvalidCode(value as u32)),
        }
    }

    pub fn try_from(value: u8) -> (r: Result<TemperatureChange, UnpackError>)
        ensures
            r == TemperatureChange::spec_try_from(value),
    {
        match value {
            0u8 => Ok(TemperatureChange::Up),
            1u8 => Ok(TemperatureChange::Down),
            2u8 => Ok(TemperatureChange::NoChange),
            _ => Err(UnpackError::InvalidCode(value as u32)),
        }
    }
}

impl Default for TemperatureChange {
    fn default() -> (r: Self)
        ensures
            r == TemperatureChange::Up,
    {
        TemperatureChange::Up
    }
}

#[derive(Debug, Clone, Copy, PartialEq, Eq, Structural)]
pub enum SessionType {
    Unknown,
    Practice1,
    Practice2,
    Practice3,
    PracticeShort,
    Qualifying1,
    Qualifying2,
    Qualifying3,
    QualifyingShort,
    OneShotQualifying,
    Race,
    Race2,
    TimeTrial,
}

impl SessionType {
    /// The closed code table, `0` unknown through `12` time trial in
    /// declaration order.
    pub open spec fn spec_try_from(value: u8) -> Result<SessionType, UnpackError> {
        match value {
            0u8 => Ok(SessionType::Unknown),
            1u8 => Ok(SessionType::Practice1),
            2u8 => Ok(SessionType::Practice2),
            3u8 => Ok(SessionType::Practice3),
            4u8 => Ok(SessionType::PracticeShort),
            5u8 => Ok(SessionType::Qualifying1),
            6u8 => Ok(SessionType::Qualifying2),
            7u8 => Ok(SessionType::Qualifying3),
            8u8 => Ok(SessionType::QualifyingShort),
            9u8 => Ok(SessionType::OneShotQualifying),
            10u8 => Ok(SessionType::Race),
            11u8 => Ok(SessionType::Race2),
            12u8 => Ok(SessionType::TimeTrial),
            _ => Err(UnpackError::InvalidCode(value as u32)),
        }
    }

    pub fn try_from(value: u8) -> (r: Result<SessionType, UnpackError>)
        ensures
            r == SessionType::spec_try_from(value),
    {
        match value {
            0u8 => Ok(SessionType::Unknown),
            1u8 => Ok(SessionType::Practice1),
            2u8 => Ok(SessionType::Practice2),
            3u8 => Ok(SessionType::Practice3),
            4u8 => Ok(SessionType::PracticeShort),
            5u8 => Ok(SessionType::Qualifying1),
            6u8 => Ok(SessionType::Qualifying2),
            7u8 => Ok(SessionType::Qualifying3),
            8u8 => Ok(SessionType::QualifyingShort),
            9u8 => Ok(SessionType::OneShotQualifying),
            10u8 => Ok(SessionType::Race),
            11u8 => Ok(SessionType::Race2),
            12u8 => Ok(SessionType::TimeTrial),
            _ => Err(UnpackError::InvalidCode(value as u32)),
        }
    }

    /// The display name of the session type.
    pub open spec fn spec_name(self) -> Seq<char> {
        match self {
            SessionType::Unknown => "Unknown"@,
            SessionType::Practice1 => "Free Practice 1"@,
            SessionType::Practice2 => "Free Practice 2"@,
            SessionType::Practice3 => "Free Practice 3"@,
            SessionType::PracticeShort => "Free Practice (Short)"@,
            SessionType::Qualifying1 => "Qualifying 1"@,
            SessionType::Qualifying2 => "Qualifying 2"@,
            SessionType::Qualifying3 => "Qualifying 3"@,
            SessionType::QualifyingShort => "Qualifying (Short)"@,
            SessionType::OneShotQualifying => "One-Shot Qualifying"@,
            SessionType::Race => "Race"@,
            SessionType::Race2 => "Race 2"@,
            SessionType::TimeTrial => "Time Trial"@,
        }
    }

    pub fn name(self) -> (r: &'static str)
        ensures
            r@ == self.spec_name(),
    {
        match self {
            SessionType::Unknown => "Unknown",
            SessionType::Practice1 => "Free Practice 1",
            SessionType::Practice2 => "Free Practice 2",
            SessionType::Practice3 => "Free Practice 3",
            SessionType::PracticeShort => "Free Practice (Short)",
            SessionType::Qualifying1 => "Qualifying 1",
            SessionType::Qualifying2 => "Qualifying 2",
            SessionType::Qualifying3 => "Qualifying 3",
            SessionType::QualifyingShort => "Qualifying (Short)",
            SessionType::OneShotQualifying => "One-Shot Qualifying",
            SessionType::Race => "Race",
            SessionType::Race2 => "Race 2",
            SessionType::TimeTrial => "Time Trial",
        }
    }
}

impl Default for SessionType {
    fn default() -> (r: Self)
        ensures
            r == SessionType::Unknown,
    {
        SessionType::Unknown
    }
}

#[derive(Debug, Clone, Copy, PartialEq, Eq, Structural)]
pub enum Track {
    Melbourne,
    PaulRicard,
    Shanghai,
    Sakhir,
    Catalunya,
    Monaco,
    Montreal,
    Silverstone,
    Hockenheim,
    Hungaroring,
    Spa,
    Monza,
    Singapore,
    Suzuka,
    AbuDhabi,
    Texas,
    Brazil,
    Austria,
    Sochi,
    Mexico,
    Baku,
    SakhirShort,
    SilverstoneShort,
    TexasShort,
    SuzukaShort,
    Hanoi,
    Zandvoort,
    Unknown,
}

impl Track {
    /// The closed code table: `0` Melbourne through `26` Zandvoort in
    /// declaration order, with the signed sentinel `-1` as unknown.
    pub open spec fn spec_try_from(value: i8) -> Result<Track, UnpackError> {
        match value {
            0i8 => Ok(Track::Melbourne),
            1i8 => Ok(Track::PaulRicard),
            2i8 => Ok(Track::Shanghai),
            3i8 => Ok(Track::Sakhir),
            4i8 => Ok(Track::Catalunya),
            5i8 => Ok(Track::Monaco),
            6i8 => Ok(Track::Montreal),
            7i8 => Ok(Track::Silverstone),
            8i8 => Ok(Track::Hockenheim),
            9i8 => Ok(Track::Hungaroring),
            10i8 => Ok(Track::Spa),
            11i8 => Ok(Track::Monza),
            12i8 => Ok(Track::Singapore),
            13i8 => Ok(Track::Suzuka),
            14i8 => Ok(Track::AbuDhabi),
            15i8 => Ok(Track::Texas),
            16i8 => Ok(Track::Brazil),
            17i8 => Ok(Track::Austria),
            18i8 => Ok(Track::Sochi),
            19i8 => Ok(Track::Mexico),
            20i8 => Ok(Track::Baku),
            21i8 => Ok(Track::SakhirShort),
            22i8 => Ok(Track::SilverstoneShort),
            23i8 => Ok(Track::TexasShort),
            24i8 => Ok(Track::SuzukaShort),
            25i8 => Ok(Track::Hanoi),
            26i8 => Ok(Track::Zandvoort),
            -1i8 => Ok(Track::Unknown),
            _ => Err(UnpackError::InvalidCode((value as u8) as u32)),
        }
    }

    pub fn try_from(value: i8) -> (r: Result<Track, UnpackError>)
        ensures
            r == Track::spec_try_from(value),
    {
        match value {
            0i8 => Ok(Track::Melbourne),
            1i8 => Ok(Track::PaulRicard),
            2i8 => Ok(Track::Shanghai),
            3i8 => Ok(Track::Sakhir),
            4i8 => Ok(Track::Catalunya),
            5i8 => Ok(Track::Monaco),
            6i8 => Ok(Track::Montreal),
            7i8 => Ok(Track::Silverstone),
            8i8 => Ok(Track::Hockenheim),
            9i8 => Ok(Track::Hungaroring),
            10i8 => Ok(Track::Spa),
            11i8 => Ok(Track::Monza),
            12i8 => Ok(Track::Singapore),
            13i8 => Ok(Track::Suzuka),
            14i8 => Ok(Track::AbuDhabi),
            15i8 => Ok(Track::Texas),
            16i8 => Ok(Track::Brazil),
            17i8 => Ok(Track::Austria),
            18i8 => Ok(Track::Sochi),
            19i8 => Ok(Track::Mexico),
            20i8 => Ok(Track::Baku),
            21i8 => Ok(Track::SakhirShort),
            22i8 => Ok(Track::SilverstoneShort),
            23i8 => Ok(Track::TexasShort),
            24i8 => Ok(Track::SuzukaShort),
            25i8 => Ok(Track::Hanoi),
            26i8 => Ok(Track::Zandvoort),
            -1i8 => Ok(Track::Unknown),
            _ => Err(UnpackError::InvalidCode((value as u8) as u32)),
        }
    }

    /// The display name of the circuit.
    pub open spec fn spec_name(self) -> Seq<char> {
        match self {
            Track::Melbourne => "Melbourne Grand Prix Circuit"@,
            Track::PaulRicard => "Circuit Paul Ricard"@,
            Track::Shanghai => "Shanghai International Circuit"@,
            Track::Sakhir => "Bahrain International Circuit"@,
            Track::Catalunya => "Circuit de Barcelona-Catalunya"@,
            Track::Monaco => "Circuit de Monaco"@,
            Track::Montreal => "Circuit Gilles Villeneuve"@,
            Track::Silverstone => "Silverstone Circuit"@,
            Track::Hockenheim => "Hockenheimring"@,
            Track::Hungaroring => "Hungaroring"@,
            Track::Spa => "Circuit de Spa-Francorchamps"@,
            Track::Monza => "Autodromo Nazionale Monza"@,
            Track::Singapore => "Marina Bay Street Circuit"@,
            Track::Suzuka => "Suzuka International Racing Course"@,
            Track::AbuDhabi => "Yas Marina Circuit"@,
            Track::Texas => "Circuit of the Americas"@,
            Track::Brazil => "Autodromo Jose Carlos Pace"@,
            Track::Austria => "Red Bull Ring"@,
            Track::Sochi => "Sochi Autodrom"@,
            Track::Mexico => "Autodromo Hermanos Rodriguez"@,
            Track::Baku => "Baku City Circuit"@,
            Track::SakhirShort => "Bahrain International Circuit (Short)"@,
            Track::SilverstoneShort => "Silverstone Circuit (Short)"@,
            Track::TexasShort => "Circuit of the Americas (Short)"@,
            Track::SuzukaShort => "Suzuka International Racing Course (Short)"@,
            Track::Hanoi => "Hanoi Street Circuit"@,
            Track::Zandvoort => "Circuit Zandvoort"@,
            Track::Unknown => "[UNKNOWN]"@,
        }
    }

    pub fn name(self) -> (r: &'static str)
        ensures
            r@ == self.spec_name(),
    {
        match self {
            Track::Melbourne => "Melbourne Grand Prix Circuit",
            Track::PaulRicard => "Circuit Paul Ricard",
            Track::Shanghai => "Shanghai International Circuit",
            Track::Sakhir => "Bahrain International Circuit",
            Track::Catalunya => "Circuit de Barcelona-Catalunya",
            Track::Monaco => "Circuit de Monaco",
            Track::Montreal => "Circuit Gilles Villeneuve",
            Track::Silverstone => "Silverstone Circuit",
            Track::Hockenheim => "Hockenheimring",
            Track::Hungaroring => "Hungaroring",
            Track::Spa => "Circuit de Spa-Francorchamps",
            Track::Monza => "Autodromo Nazionale Monza",
            Track::Singapore => "Marina Bay Street Circuit",
            Track::Suzuka => "Suzuka International Racing Course",
            Track::AbuDhabi => "Yas Marina Circuit",
            Track::Texas => "Circuit of the Americas",
            Track::Brazil => "Autodromo Jose Carlos Pace",
            Track::Austria => "Red Bull Ring",
            Track::Sochi => "Sochi Autodrom",
            Track::Mexico => "Autodromo Hermanos Rodriguez",
            Track::Baku => "Baku City Circuit",
            Track::SakhirShort => "Bahrain International Circuit (Short)",
            Track::SilverstoneShort => "Silverstone Circuit (Short)",
            Track::TexasShort => "Circuit of the Americas (Short)",
            Track::SuzukaShort => "Suzuka International Racing Course (Short)",
            Track::Hanoi => "Hanoi Street Circuit",
            Track::Zandvoort => "Circuit Zandvoort",
            Track::Unknown => "[UNKNOWN]",
        }
    }
}

#[derive(Debug, Clone, Copy, PartialEq, Eq, Structural)]
pub enum Formula {
    F1Modern,
    F1Classic,
    F2,
    F1Generic,
}

impl Formula {
    /// The closed code table: `0` modern F1, `1` classic F1, `2` F2,
    /// `3` generic F1.
    pub open spec fn spec_try_from(value: u8) -> Result<Formula, UnpackError> {
        match value {
            0u8 => Ok(Formula::F1Modern),
            1u8 => Ok(Formula::F1Classic),
            2u8 => Ok(Formula::F2),
            3u8 => Ok(Formula::F1Generic),
            _ => Err(UnpackError::InvalidCode(value as u32)),
        }
    }

    pub fn try_from(value: u8) -> (r: Result<Formula, UnpackError>)
        ensures
            r == Formula::spec_try_from(value),
    {
        match value {
            0u8 => Ok(Formula::F1Modern),
            1u8 => Ok(Formula::F1Classic),
            2u8 => Ok(Formula::F2),
            3u8 => Ok(Formula::F1Generic),
            _ => Err(UnpackError::InvalidCode(value as u32)),
        }
    }
}

#[derive(Debug, Clone, Copy, PartialEq, Eq, Structural)]
pub enum SafetyCar {
    NoSafetyCar,
    Full,
    Virtual,
}

impl SafetyCar {
    /// The closed code table: `0` none, `1` full safety car, `2` virtual.
    pub open spec fn spec_try_from(value: u8) -> Result<SafetyCar, UnpackError> {
        match value {
            0u8 => Ok(SafetyCar::NoSafetyCar),
            1u8 => Ok(SafetyCar::Full),
            2u8 => Ok(SafetyCar::Virtual),
            _ => Err(UnpackError::InvalidCode(value as u32)),
        }
    }

    pub fn try_from(value: u8) -> (r: Result<SafetyCar, UnpackError>)
        ensures
            r == SafetyCar::spec_try_from(value),
    {
        match value {
            0u8 => Ok(SafetyCar::NoSafetyCar),
            1u8 => Ok(SafetyCar::Full),
            2u8 => Ok(SafetyCar::Virtual),
            _ => Err(UnpackError::InvalidCode(value as u32)),
        }
    }

    /// The display name of the safety-car state.
    pub open spec fn spec_name(self) -> Seq<char> {
        match self {
            SafetyCar::NoSafetyCar => "No Safety Car"@,
            SafetyCar::Virtual => "Virtual Safety Car"@,
            SafetyCar::Full => "Safety Car"@,
        }
    }

    pub fn name(self) -> (r: &'static str)
        ensures
            r@ == self.spec_name(),
    {
        match self {
            SafetyCar::NoSafetyCar => "No Safety Car",
            SafetyCar::Virtual => "Virtual Safety Car",
            SafetyCar::Full => "Safety Car",
        }
    }
}

impl Default for SafetyCar {
    fn default() -> (r: Self)
        ensures
            r == SafetyCar::NoSafetyCar,
    {
        SafetyCar::NoSafetyCar
    }
}

#[derive(Debug, Clone, Copy, PartialEq, Eq, Structural)]
pub enum ForecastAccuracy {
    Perfect,
    Approximate,
}

impl ForecastAccuracy {
    /// The closed code table: `0` perfect, `1` approximate.
    pub open spec fn spec_try_from(value: u8) -> Result<ForecastAccuracy, UnpackError> {
        match value {
            0u8 => Ok(ForecastAccuracy::Perfect),
            1u8 => Ok(ForecastAccuracy::Approximate),
            _ => Err(UnpackError::InvalidCode(value as u32)),
        }
    }

    pub fn try_from(value: u8) -> (r: Result<ForecastAccuracy, UnpackError>)
        ensures
            r == ForecastAccuracy::spec_try_from(value),
    {
        match value {
            0u8 => Ok(ForecastAccuracy::Perfect),
            1u8 => Ok(ForecastAccuracy::Approximate),
            _ => Err(UnpackError::InvalidCode(value as u32)),
        }
    }
}

#[derive(Debug, Clone, Copy, PartialEq, Eq, Structural)]
pub enum BrakingAssist {
    Off,
    Low,
    Medium,
    High,
}

impl BrakingAssist {
    /// The closed code table: `0` off, `1` low, `2` medium, `3` high.
    pub open spec fn spec_try_from(value: u8) -> Result<BrakingAssist, UnpackError> {
        match value {
            0u8 => Ok(BrakingAssist::Off),
            1u8 => Ok(BrakingAssist::Low),
            2u8 => Ok(BrakingAssist::Medium),
            3u8 => Ok(BrakingAssist::High),
            _ => Err(UnpackError::InvalidCode(value as u32)),
        }
    }

    pub fn try_from(value: u8) -> (r: Result<BrakingAssist, UnpackError>)
        ensures
            r == BrakingAssist::spec_try_from(value),
    {
        match value {
            0u8 => Ok(BrakingAssist::Off),
            1u8 => Ok(BrakingAssist::Low),
            2u8 => Ok(BrakingAssist::Medium),
            3u8 => Ok(BrakingAssist::High),
            _ => Err(UnpackError::InvalidCode(value as u32)),
        }
    }
}

#[derive(Debug, Clone, Copy, PartialEq, Eq, Structural)]
pub enum GearboxAssist {
    Manual,
    ManualAndSuggestedGear,
    Automatic,
}

impl GearboxAssist {
    /// The closed code table: `1` manual, `2` manual with suggested gear,
    /// `3` automatic.
    pub open spec fn spec_try_from(value: u8) -> Result<GearboxAssist, UnpackError> {
        match value {
            1u8 => Ok(GearboxAssist::Manual),
            2u8 => Ok(GearboxAssist::ManualAndSuggestedGear),
            3u8 => Ok(GearboxAssist::Automatic),
            _ => Err(UnpackError::InvalidCode(value as u32)),
        }
    }

    pub fn try_from(value: u8) -> (r: Result<GearboxAssist, UnpackError>)
        ensures
            r == GearboxAssist::spec_try_from(value),
    {
        match value {
            1u8 => Ok(GearboxAssist::Manual),
            2u8 => Ok(GearboxAssist::ManualAndSuggestedGear),
            3u8 => Ok(GearboxAssist::Automatic),
            _ => Err(UnpackError::InvalidCode(value as u32)),
        }
    }
}

#[derive(Debug, Clone, Copy, PartialEq, Eq, Structural)]
pub enum DynamicRacingLine {
    Off,
    CornersOnly,
    Full,
}

impl DynamicRacingLine {
    /// The closed code table: `0` off, `1` corners only, `2` full lap.
    pub open spec fn spec_try_from(value: u8) -> Result<DynamicRacingLine, UnpackError> {
        match value {
            0u8 => Ok(DynamicRacingLine::Off),
            1u8 => Ok(DynamicRacingLine::CornersOnly),
            2u8 => Ok(DynamicRacingLine::Full),
            _ => Err(UnpackError::InvalidCode(value as u32)),
        }
    }

    pub fn try_from(value: u8) -> (r: Result<DynamicRacingLine, UnpackError>)
        ensures
            r == DynamicRacingLine::spec_try_from(value),
    {
        match value {
            0u8 => Ok(DynamicRacingLine::Off),
            1u8 => Ok(DynamicRacingLine::CornersOnly),
            2u8 => Ok(DynamicRacingLine::Full),
            _ => Err(UnpackError::InvalidCode(value as u32)),
        }
    }
}

#[derive(Debug, Clone, Copy, PartialEq, Eq, Structural)]
pub enum DynamicRacingLineType {
    TwoDimensions,
    ThreeDimensions,
}

impl DynamicRacingLineType {
    /// The closed code table: `0` flat (2D), `1` full (3D).
    pub open spec fn spec_try_from(value: u8) -> Result<DynamicRacingLineType, UnpackError> {
        match value {
            0u8 => Ok(DynamicRacingLineType::TwoDimensions),
            1u8 => Ok(DynamicRacingLineType::ThreeDimensions),
            _ => Err(UnpackError::InvalidCode(value as u32)),
        }
    }

    pub fn try_from(value: u8) -> (r: Result<DynamicRacingLineType, UnpackError>)
        ensures
            r == DynamicRacingLineType::spec_try_from(value),
    {
        match value {
            0u8 => Ok(DynamicRacingLineType::TwoDimensions),
            1u8 => Ok(DynamicRacingLineType::ThreeDimensions),
            _ => Err(UnpackError::InvalidCode(value as u32)),
        }
    }
}

/// One marshal zone: where on the lap it starts (fraction 0..1, carried as
/// raw float bits) and the flag shown in it.
#[derive(Debug, Clone, Copy, PartialEq, Eq, Structural)]
pub struct MarshalZone {
    pub zone_start: RawFloat,
    pub zone_flag: Flag,
}

/// One weather forecast sample inside a session packet.
#[derive(Debug, Clone, Copy, PartialEq, Eq, Structural)]
pub struct WeatherForecastSample {
    pub session_type: SessionType,
    pub time_offset: u8,
    pub weather: Weather,
    pub track_temperature: i8,
    pub track_temperature_change: TemperatureChange,
    pub air_temperature: i8,
    pub air_temperature_change: TemperatureChange,
    pub rain_percentage: u8,
}

impl Default for WeatherForecastSample {
    fn default() -> (r: Self)
        ensures
            r == (WeatherForecastSample {
                session_type: SessionType::Unknown,
                time_offset: 0u8,
                weather: Weather::Clear,
                track_temperature: 0i8,
                track_temperature_change: TemperatureChange::Up,
                air_temperature: 0i8,
                air_temperature_change: TemperatureChange::Up,
                rain_percentage: 0u8,
            }),
    {
        WeatherForecastSample {
            session_type: SessionType::Unknown,
            time_offset: 0u8,
            weather: Weather::Clear,
            track_temperature: 0i8,
            track_temperature_change: TemperatureChange::Up,
            air_temperature: 0i8,
            air_temperature_change: TemperatureChange::Up,
            rain_percentage: 0u8,
        }
    }
}

/// Status of the driving assistances, present only under revisions that
/// carry the trailing assist block.
#[derive(Debug, Clone, Copy, PartialEq, Eq, Structural)]
pub struct DrivingAssists {
    pub steering_assist: bool,
    pub braking_assist: BrakingAssist,
    pub gearbox_assist: GearboxAssist,
    pub pit_assist: bool,
    pub pit_release_assist: bool,
    pub ers_assist: bool,
    pub drs_assist: bool,
    pub dynamic_racing_line: DynamicRacingLine,
    pub dynamic_racing_line_type: DynamicRacingLineType,
}

/// One session datagram.
///
/// The trailing `Option` fields were appended to the wire format by later
/// revisions. Their presence is decided by the format version alone: a
/// revision that defines them always fills them, a revision that predates
/// them always leaves them absent.
#[derive(Debug, Clone, PartialEq, Eq)]
pub struct PacketSessionData {
    pub header: PacketHeader,
    pub weather: Weather,
    pub track_temperature: i8,
    pub air_temperature: i8,
    pub total_laps: u8,
    pub track_length: u16,
    pub session_type: SessionType,
    pub track: Track,
    pub formula: Formula,
    pub session_time_left: u16,
    pub session_duration: u16,
    pub pit_speed_limit: u8,
    pub game_paused: bool,
    pub is_spectating: bool,
    pub spectator_car_index: u8,
    pub sli_pro_native_support: bool,
    pub num_marshal_zones: u8,
    pub marshal_zones: Vec<MarshalZone>,
    pub safety_car_status: SafetyCar,
    pub network_game: bool,
    pub num_weather_forecast_samples: u8,
    pub weather_forecast_samples: Vec<WeatherForecastSample>,
    pub forecast_accuracy: Option<ForecastAccuracy>,
    pub ai_difficulty: Option<u8>,
    pub season_identifier: Option<u32>,
    pub weekend_identifier: Option<u32>,
    pub session_identifier: Option<u32>,
    pub pit_stop_window_ideal_lap: Option<u8>,
    pub pit_stop_window_latest_lap: Option<u8>,
    pub pit_stop_rejoin_position: Option<u8>,
    pub driving_assists: Option<DrivingAssists>,
}

impl PacketSessionData {
    pub fn header(&self) -> (r: &PacketHeader)
        ensures
            r == self.header,
    {
        &self.header
    }
}

} // verus!

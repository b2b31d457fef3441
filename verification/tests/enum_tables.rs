//! Exhaustive checks of every coded enum's table: each listed code maps
//! to exactly the documented variant, and every other code is an
//! invalid-code error.

use f1_telemetry::car_status::{
    ERSDeployMode, FuelMix, TractionControl, TyreCompound, TyreCompoundVisual, DRS,
};
use f1_telemetry::error::UnpackError;
use f1_telemetry::event::Event;
use f1_telemetry::generic::Flag;
use f1_telemetry::lap::{DriverStatus, PitStatus, ResultStatus};
use f1_telemetry::packet::PacketType;
use f1_telemetry::participants::{Nationality, Team};
use f1_telemetry::session::{
    BrakingAssist, DynamicRacingLine, DynamicRacingLineType, ForecastAccuracy, Formula,
    GearboxAssist, SafetyCar, SessionType, TemperatureChange, Track, Weather,
};

fn invalid(code: u8) -> UnpackError {
    UnpackError::InvalidCode(code as u32)
}

fn invalid_i8(code: i8) -> UnpackError {
    UnpackError::InvalidCode((code as u8) as u32)
}

#[test]
fn traction_control_table() {
    for code in 0u8..=255 {
        let expected = match code {
            0 => Ok(TractionControl::Off),
            1 => Ok(TractionControl::Low),
            2 => Ok(TractionControl::High),
            _ => Err(invalid(code)),
        };
        assert_eq!(TractionControl::try_from(code), expected);
    }
}

#[test]
fn fuel_mix_table() {
    for code in 0u8..=255 {
        let expected = match code {
            0 => Ok(FuelMix::Lean),
            1 => Ok(FuelMix::Standard),
            2 => Ok(FuelMix::Rich),
            3 => Ok(FuelMix::Max),
            _ => Err(invalid(code)),
        };
        assert_eq!(FuelMix::try_from(code), expected);
    }
}

#[test]
fn drs_table() {
    for code in i8::MIN..=i8::MAX {
        let expected = match code {
            0 => Ok(DRS::NotAllowed),
            1 => Ok(DRS::Allowed),
            -1 => Ok(DRS::Unknown),
            _ => Err(invalid_i8(code)),
        };
        assert_eq!(DRS::try_from(code), expected);
    }
}

#[test]
fn tyre_compound_table() {
    for code in 0u8..=255 {
        let expected = match code {
            16 => Ok(TyreCompound::C5),
            17 => Ok(TyreCompound::C4),
            18 => Ok(TyreCompound::C3),
            19 => Ok(TyreCompound::C2),
            20 => Ok(TyreCompound::C1),
            7 => Ok(TyreCompound::Inter),
            8 => Ok(TyreCompound::Wet),
            9 => Ok(TyreCompound::ClassicDry),
            10 => Ok(TyreCompound::ClassicWet),
            11 => Ok(TyreCompound::F2SuperSoft),
            12 => Ok(TyreCompound::F2Soft),
            13 => Ok(TyreCompound::F2Medium),
            14 => Ok(TyreCompound::F2Hard),
            15 => Ok(TyreCompound::F2Wet),
            0 | 255 => Ok(TyreCompound::Invalid),
            _ => Err(invalid(code)),
        };
        assert_eq!(TyreCompound::try_from(code), expected);
    }
}

#[test]
fn tyre_compound_sentinels_share_a_variant() {
    // 255 and 0 both decode to the same Invalid variant; 16 is the
    // newest, softest current-generation compound.
    assert_eq!(TyreCompound::try_from(255), Ok(TyreCompound::Invalid));
    assert_eq!(TyreCompound::try_from(0), Ok(TyreCompound::Invalid));
    assert_eq!(TyreCompound::try_from(255), TyreCompound::try_from(0));
    assert_eq!(TyreCompound::try_from(16), Ok(TyreCompound::C5));
}

#[test]
fn tyre_compound_visual_table() {
    for code in 0u8..=255 {
        let expected = match code {
            16 => Ok(TyreCompoundVisual::Soft),
            17 => Ok(TyreCompoundVisual::Medium),
            18 => Ok(TyreCompoundVisual::Hard),
            7 => Ok(TyreCompoundVisual::Inter),
            8 => Ok(TyreCompoundVisual::Wet),
            9 => Ok(TyreCompoundVisual::ClassicDry),
            10 => Ok(TyreCompoundVisual::ClassicWet),
            11 => Ok(TyreCompoundVisual::F2SuperSoft),
            12 => Ok(TyreCompoundVisual::F2Soft),
            13 => Ok(TyreCompoundVisual::F2Medium),
            14 => Ok(TyreCompoundVisual::F2Hard),
            15 => Ok(TyreCompoundVisual::F2Wet),
            0 => Ok(TyreCompoundVisual::Invalid),
            _ => Err(invalid(code)),
        };
        assert_eq!(TyreCompoundVisual::try_from(code), expected);
    }
}

#[test]
fn ers_deploy_mode_table() {
    for code in 0u8..=255 {
        let expected = match code {
            0 => Ok(ERSDeployMode::Off),
            1 => Ok(ERSDeployMode::Low),
            2 => Ok(ERSDeployMode::Medium),
            3 => Ok(ERSDeployMode::High),
            4 => Ok(ERSDeployMode::Overtake),
            5 => Ok(ERSDeployMode::Hotlap),
            _ => Err(invalid(code)),
        };
        assert_eq!(ERSDeployMode::try_from(code), expected);
    }
}

#[test]
fn flag_table() {
    for code in i8::MIN..=i8::MAX {
        let expected = match code {
            -1 => Ok(Flag::Invalid),
            0 => Ok(Flag::NoFlag),
            1 => Ok(Flag::Green),
            2 => Ok(Flag::Blue),
            3 => Ok(Flag::Yellow),
            4 => Ok(Flag::Red),
            _ => Err(invalid_i8(code)),
        };
        assert_eq!(Flag::try_from(code), expected);
    }
}

#[test]
fn pit_status_table() {
    for code in 0u8..=255 {
        let expected = match code {
            0 => Ok(PitStatus::NoPit),
            1 => Ok(PitStatus::Pitting),
            2 => Ok(PitStatus::InPitArea),
            _ => Err(invalid(code)),
        };
        assert_eq!(PitStatus::try_from(code), expected);
    }
}

#[test]
fn driver_status_table() {
    for code in 0u8..=255 {
        let expected = match code {
            0 => Ok(DriverStatus::InGarage),
            1 => Ok(DriverStatus::FlyingLap),
            2 => Ok(DriverStatus::InLap),
            3 => Ok(DriverStatus::OutLap),
            4 => Ok(DriverStatus::OnTrack),
            _ => Err(invalid(code)),
        };
        assert_eq!(DriverStatus::try_from(code), expected);
    }
}

#[test]
fn result_status_table() {
    for code in 0u8..=255 {
        let expected = match code {
            0 => Ok(ResultStatus::Invalid),
            1 => Ok(ResultStatus::Inactive),
            2 => Ok(ResultStatus::Active),
            3 => Ok(ResultStatus::Finished),
            4 => Ok(ResultStatus::Disqualified),
            5 => Ok(ResultStatus::NotClassified),
            6 => Ok(ResultStatus::Retired),
            _ => Err(invalid(code)),
        };
        assert_eq!(ResultStatus::try_from(code), expected);
    }
}

#[test]
fn weather_table() {
    for code in 0u8..=255 {
        let expected = match code {
            0 => Ok(Weather::Clear),
            1 => Ok(Weather::LightCloud),
            2 => Ok(Weather::Overcast),
            3 => Ok(Weather::LightRain),
            4 => Ok(Weather::HeavyRain),
            5 => Ok(Weather::Storm),
            _ => Err(invalid(code)),
        };
        assert_eq!(Weather::try_from(code), expected);
    }
}

#[test]
fn temperature_change_table() {
    for code in 0u8..=255 {
        let expected = match code {
            0 => Ok(TemperatureChange::Up),
            1 => Ok(TemperatureChange::Down),
            2 => Ok(TemperatureChange::NoChange),
            _ => Err(invalid(code)),
        };
        assert_eq!(TemperatureChange::try_from(code), expected);
    }
}

#[test]
fn session_type_table() {
    let table = [
        SessionType::Unknown,
        SessionType::Practice1,
        SessionType::Practice2,
        SessionType::Practice3,
        SessionType::PracticeShort,
        SessionType::Qualifying1,
        SessionType::Qualifying2,
        SessionType::Qualifying3,
        SessionType::QualifyingShort,
        SessionType::OneShotQualifying,
        SessionType::Race,
        SessionType::Race2,
        SessionType::TimeTrial,
    ];
    for code in 0u8..=255 {
        let expected = if (code as usize) < table.len() {
            Ok(table[code as usize])
        } else {
            Err(invalid(code))
        };
        assert_eq!(SessionType::try_from(code), expected);
    }
}

#[test]
fn track_table() {
    let table = [
        Track::Melbourne,
        Track::PaulRicard,
        Track::Shanghai,
        Track::Sakhir,
        Track::Catalunya,
        Track::Monaco,
        Track::Montreal,
        Track::Silverstone,
        Track::Hockenheim,
        Track::Hungaroring,
        Track::Spa,
        Track::Monza,
        Track::Singapore,
        Track::Suzuka,
        Track::AbuDhabi,
        Track::Texas,
        Track::Brazil,
        Track::Austria,
        Track::Sochi,
        Track::Mexico,
        Track::Baku,
        Track::SakhirShort,
        Track::SilverstoneShort,
        Track::TexasShort,
        Track::SuzukaShort,
        Track::Hanoi,
        Track::Zandvoort,
    ];
    for code in i8::MIN..=i8::MAX {
        let expected = if code == -1 {
            Ok(Track::Unknown)
        } else if code >= 0 && (code as usize) < table.len() {
            Ok(table[code as usize])
        } else {
            Err(invalid_i8(code))
        };
        assert_eq!(Track::try_from(code), expected);
    }
}

#[test]
fn formula_table() {
    for code in 0u8..=255 {
        let expected = match code {
            0 => Ok(Formula::F1Modern),
            1 => Ok(Formula::F1Classic),
            2 => Ok(Formula::F2),
            3 => Ok(Formula::F1Generic),
            _ => Err(invalid(code)),
        };
        assert_eq!(Formula::try_from(code), expected);
    }
}

#[test]
fn safety_car_table() {
    for code in 0u8..=255 {
        let expected = match code {
            0 => Ok(SafetyCar::NoSafetyCar),
            1 => Ok(SafetyCar::Full),
            2 => Ok(SafetyCar::Virtual),
            _ => Err(invalid(code)),
        };
        assert_eq!(SafetyCar::try_from(code), expected);
    }
}

#[test]
fn forecast_accuracy_table() {
    for code in 0u8..=255 {
        let expected = match code {
            0 => Ok(ForecastAccuracy::Perfect),
            1 => Ok(ForecastAccuracy::Approximate),
            _ => Err(invalid(code)),
        };
        assert_eq!(ForecastAccuracy::try_from(code), expected);
    }
}

#[test]
fn assist_tables() {
    for code in 0u8..=255 {
        let expected = match code {
            0 => Ok(BrakingAssist::Off),
            1 => Ok(BrakingAssist::Low),
            2 => Ok(BrakingAssist::Medium),
            3 => Ok(BrakingAssist::High),
            _ => Err(invalid(code)),
        };
        assert_eq!(BrakingAssist::try_from(code), expected);

        let expected = match code {
            1 => Ok(GearboxAssist::Manual),
            2 => Ok(GearboxAssist::ManualAndSuggestedGear),
            3 => Ok(GearboxAssist::Automatic),
            _ => Err(invalid(code)),
        };
        assert_eq!(GearboxAssist::try_from(code), expected);

        let expected = match code {
            0 => Ok(DynamicRacingLine::Off),
            1 => Ok(DynamicRacingLine::CornersOnly),
            2 => Ok(DynamicRacingLine::Full),
            _ => Err(invalid(code)),
        };
        assert_eq!(DynamicRacingLine::try_from(code), expected);

        let expected = match code {
            0 => Ok(DynamicRacingLineType::TwoDimensions),
            1 => Ok(DynamicRacingLineType::ThreeDimensions),
            _ => Err(invalid(code)),
        };
        assert_eq!(DynamicRacingLineType::try_from(code), expected);
    }
}

#[test]
fn team_table() {
    let table = [
        Team::Mercedes,
        Team::Ferrari,
        Team::RedBullRacing,
        Team::Williams,
        Team::RacingPoint,
        Team::Renault,
        Team::ToroRosso,
        Team::Haas,
        Team::McLaren,
        Team::AlfaRomeo,
    ];
    for code in 0u8..=255 {
        let expected = if (code as usize) < table.len() {
            Ok(table[code as usize])
        } else {
            Err(invalid(code))
        };
        assert_eq!(Team::try_from(code), expected);
    }
}

#[test]
fn nationality_table_bounds() {
    // 0 is unassigned; 1 through 86 are assigned in declaration order;
    // everything above is invalid.
    assert_eq!(Nationality::try_from(0), Err(invalid(0)));
    assert_eq!(Nationality::try_from(1), Ok(Nationality::American));
    assert_eq!(Nationality::try_from(10), Ok(Nationality::British));
    assert_eq!(Nationality::try_from(28), Ok(Nationality::French),);
    assert_eq!(Nationality::try_from(53), Ok(Nationality::Monegasque));
    assert_eq!(Nationality::try_from(86), Ok(Nationality::Welsh));
    for code in 87u8..=255 {
        assert_eq!(Nationality::try_from(code), Err(invalid(code)));
    }
}

#[test]
fn packet_type_table() {
    let table = [
        PacketType::Motion,
        PacketType::Session,
        PacketType::LapData,
        PacketType::Event,
        PacketType::Participants,
        PacketType::CarSetups,
        PacketType::CarTelemetry,
        PacketType::CarStatus,
        PacketType::FinalClassification,
        PacketType::LobbyInfo,
    ];
    for code in 0u8..=255 {
        let expected = if (code as usize) < table.len() {
            Ok(table[code as usize])
        } else {
            Err(UnpackError::UnsupportedPacketType(code))
        };
        assert_eq!(PacketType::try_from(code), expected);
    }
}

#[test]
fn event_code_table() {
    let cases: [(&[u8; 4], Event); 9] = [
        (b"SSTA", Event::SessionStarted),
        (b"SEND", Event::SessionEnded),
        (b"FTLP", Event::FastestLap),
        (b"RTMT", Event::Retirement),
        (b"DRSE", Event::DRSEnabled),
        (b"DRSD", Event::DRSDisabled),
        (b"TMPT", Event::TeamMateInPits),
        (b"CHQF", Event::ChequeredFlag),
        (b"RCWN", Event::RaceWinner),
    ];
    for (code, event) in cases {
        assert_eq!(Event::try_from(code[0], code[1], code[2], code[3]), Ok(event));
    }
    let bad = b"XXXX";
    let packed = u32::from_le_bytes(*bad);
    assert_eq!(
        Event::try_from(bad[0], bad[1], bad[2], bad[3]),
        Err(UnpackError::InvalidCode(packed))
    );
}

#[test]
fn display_names() {
    assert_eq!(SessionType::Race.name(), "Race");
    assert_eq!(SessionType::PracticeShort.name(), "Free Practice (Short)");
    assert_eq!(Track::Monza.name(), "Autodromo Nazionale Monza");
    assert_eq!(Track::Unknown.name(), "[UNKNOWN]");
    assert_eq!(SafetyCar::NoSafetyCar.name(), "No Safety Car");
    assert_eq!(SafetyCar::Virtual.name(), "Virtual Safety Car");
    assert_eq!(Event::FastestLap.description(), "Fastest Lap");
}

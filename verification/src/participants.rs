//! Participants: who occupies each of the twenty car slots, with the
//! closed code tables for team and nationality.

use vstd::prelude::*;

use crate::error::UnpackError;
use crate::header::PacketHeader;
use crate::reader::{read_bytes, read_u8, u8_at};

verus! {

#[derive(Debug, Clone, Copy, PartialEq, Eq, Structural)]
pub enum Team {
    Mercedes,
    Ferrari,
    RedBullRacing,
    Williams,
    RacingPoint,
    Renault,
    ToroRosso,
    Haas,
    McLaren,
    AlfaRomeo,
}

impl Team {
    /// The closed code table: `0` Mercedes through `9` Alfa Romeo in
    /// declaration order.
    pub open spec fn spec_try_from(value: u8) -> Result<Team, UnpackError> {
        match value {
            0u8 => Ok(Team::Mercedes),
            1u8 => Ok(Team::Ferrari),
            2u8 => Ok(Team::RedBullRacing),
            3u8 => Ok(Team::Williams),
            4u8 => Ok(Team::RacingPoint),
            5u8 => Ok(Team::Renault),
            6u8 => Ok(Team::ToroRosso),
            7u8 => Ok(Team::Haas),
            8u8 => Ok(Team::McLaren),
            9u8 => Ok(Team::AlfaRomeo),
            _ => Err(UnpackError::InvalidCode(value as u32)),
        }
    }

    pub fn try_from(value: u8) -> (r: Result<Team, UnpackError>)
        ensures
            r == Team::spec_try_from(value),
    {
        match value {
            0u8 => Ok(Team::Mercedes),
            1u8 => Ok(Team::Ferrari),
            2u8 => Ok(Team::RedBullRacing),
            3u8 => Ok(Team::Williams),
            4u8 => Ok(Team::RacingPoint),
            5u8 => Ok(Team::Renault),
            6u8 => Ok(Team::ToroRosso),
            7u8 => Ok(Team::Haas),
            8u8 => Ok(Team::McLaren),
            9u8 => Ok(Team::AlfaRomeo),
            _ => Err(UnpackError::InvalidCode(value as u32)),
        }
    }
}

#[derive(Debug, Clone, Copy, PartialEq, Eq, Structural)]
pub enum Nationality {
    American,
    Argentinean,
    Australian,
    Austrian,
    Azerbaijani,
    Bahraini,
    Belgian,
    Bolivian,
    Brazilian,
    British,
    Bulgarian,
    Cameroonian,
    Canadian,
    Chilean,
    Chinese,
    Colombian,
    CostaRican,
    Croatian,
    Cypriot,
    Czech,
    Danish,
    Dutch,
    Ecuadorian,
    English,
    Emirian,
    Estonian,
    Finnish,
    French,
    German,
    Ghanaian,
    Greek,
    Guatemalan,
    Honduran,
    HongKonger,
    Hungarian,
    Icelander,
    Indian,
    Indonesian,
    Irish,
    Israeli,
    Italian,
    Jamaican,
    Japanese,
    Jordanian,
    Kuwaiti,
    Latvian,
    Lebanese,
    Lithuanian,
    Luxembourger,
    Malaysian,
    Maltese,
    Mexican,
    Monegasque,
    NewZealander,
    Nicaraguan,
    NorthKorean,
    NorthernIrish,
    Norwegian,
    Omani,
    Pakistani,
    Panamanian,
    Paraguayan,
    Peruvian,
    Polish,
    Portuguese,
    Qatari,
    Romanian,
    Russian,
    Salvadoran,
    Saudi,
    Scottish,
    Serbian,
    Singaporean,
    Slovakian,
    Slovenian,
    SouthKorean,
    SouthAfrican,
    Spanish,
    Swedish,
    Swiss,
    Thai,
    Turkish,
    Uruguayan,
    Ukrainian,
    Venezuelan,
    Welsh,
}

impl Nationality {
    /// The closed code table: `1` American through `86` Welsh in
    /// declaration order; `0` is not assigned.
    pub open spec fn spec_try_from(value: u8) -> Result<Nationality, UnpackError> {
        match value {
            1u8 => Ok(Nationality::American),
            2u8 => Ok(Nationality::Argentinean),
            3u8 => Ok(Nationality::Australian),
            4u8 => Ok(Nationality::Austrian),
            5u8 => Ok(Nationality::Azerbaijani),
            6u8 => Ok(Nationality::Bahraini),
            7u8 => Ok(Nationality::Belgian),
            8u8 => Ok(Nationality::Bolivian),
            9u8 => Ok(Nationality::Brazilian),
            10u8 => Ok(Nationality::British),
            11u8 => Ok(Nationality::Bulgarian),
            12u8 => Ok(Nationality::Cameroonian),
            13u8 => Ok(Nationality::Canadian),
            14u8 => Ok(Nationality::Chilean),
            15u8 => Ok(Nationality::Chinese),
            16u8 => Ok(Nationality::Colombian),
            17u8 => Ok(Nationality::CostaRican),
            18u8 => Ok(Nationality::Croatian),
            19u8 => Ok(Nationality::Cypriot),
            20u8 => Ok(Nationality::Czech),
            21u8 => Ok(Nationality::Danish),
            22u8 => Ok(Nationality::Dutch),
            23u8 => Ok(Nationality::Ecuadorian),
            24u8 => Ok(Nationality::English),
            25u8 => Ok(Nationality::Emirian),
            26u8 => Ok(Nationality::Estonian),
            27u8 => Ok(Nationality::Finnish),
            28u8 => Ok(Nationality::French),
            29u8 => Ok(Nationality::German),
            30u8 => Ok(Nationality::Ghanaian),
            31u8 => Ok(Nationality::Greek),
            32u8 => Ok(Nationality::Guatemalan),
            33u8 => Ok(Nationality::Honduran),
            34u8 => Ok(Nationality::HongKonger),
            35u8 => Ok(Nationality::Hungarian),
            36u8 => Ok(Nationality::Icelander),
            37u8 => Ok(Nationality::Indian),
            38u8 => Ok(Nationality::Indonesian),
            39u8 => Ok(Nationality::Irish),
            40u8 => Ok(Nationality::Israeli),
            41u8 => Ok(Nationality::Italian),
            42u8 => Ok(Nationality::Jamaican),
            43u8 => Ok(Nationality::Japanese),
            44u8 => Ok(Nationality::Jordanian),
            45u8 => Ok(Nationality::Kuwaiti),
            46u8 => Ok(Nationality::Latvian),
            47u8 => Ok(Nationality::Lebanese),
            48u8 => Ok(Nationality::Lithuanian),
            49u8 => Ok(Nationality::Luxembourger),
            50u8 => Ok(Nationality::Malaysian),
            51u8 => Ok(Nationality::Maltese),
            52u8 => Ok(Nationality::Mexican),
            53u8 => Ok(Nationality::Monegasque),
            54u8 => Ok(Nationality::NewZealander),
            55u8 => Ok(Nationality::Nicaraguan),
            56u8 => Ok(Nationality::NorthKorean),
            57u8 => Ok(Nationality::NorthernIrish),
            58u8 => Ok(Nationality::Norwegian),
            59u8 => Ok(Nationality::Omani),
            60u8 => Ok(Nationality::Pakistani),
            61u8 => Ok(Nationality::Panamanian),
            62u8 => Ok(Nationality::Paraguayan),
            63u8 => Ok(Nationality::Peruvian),
            64u8 => Ok(Nationality::Polish),
            65u8 => Ok(Nationality::Portuguese),
            66u8 => Ok(Nationality::Qatari),
            67u8 => Ok(Nationality::Romanian),
            68u8 => Ok(Nationality::Russian),
            69u8 => Ok(Nationality::Salvadoran),
            70u8 => Ok(Nationality::Saudi),
            71u8 => Ok(Nationality::Scottish),
            72u8 => Ok(Nationality::Serbian),
            73u8 => Ok(Nationality::Singaporean),
            74u8 => Ok(Nationality::Slovakian),
            75u8 => Ok(Nationality::Slovenian),
            76u8 => Ok(Nationality::SouthKorean),
            77u8 => Ok(Nationality::SouthAfrican),
            78u8 => Ok(Nationality::Spanish),
            79u8 => Ok(Nationality::Swedish),
            80u8 => Ok(Nationality::Swiss),
            81u8 => Ok(Nationality::Thai),
            82u8 => Ok(Nationality::Turkish),
            83u8 => Ok(Nationality::Uruguayan),
            84u8 => Ok(Nationality::Ukrainian),
            85u8 => Ok(Nationality::Venezuelan),
            86u8 => Ok(Nationality::Welsh),
            _ => Err(UnpackError::InvalidCode(value as u32)),
        }
    }

    pub fn try_from(value: u8) -> (r: Result<Nationality, UnpackError>)
        ensures
            r == Nationality::spec_try_from(value),
    {
        match value {
            1u8 => Ok(Nationality::American),
            2u8 => Ok(Nationality::Argentinean),
            3u8 => Ok(Nationality::Australian),
            4u8 => Ok(Nationality::Austrian),
            5u8 => Ok(Nationality::Azerbaijani),
            6u8 => Ok(Nationality::Bahraini),
            7u8 => Ok(Nationality::Belgian),
            8u8 => Ok(Nationality::Bolivian),
            9u8 => Ok(Nationality::Brazilian),
            10u8 => Ok(Nationality::British),
            11u8 => Ok(Nationality::Bulgarian),
            12u8 => Ok(Nationality::Cameroonian),
            13u8 => Ok(Nationality::Canadian),
            14u8 => Ok(Nationality::Chilean),
            15u8 => Ok(Nationality::Chinese),
            16u8 => Ok(Nationality::Colombian),
            17u8 => Ok(Nationality::CostaRican),
            18u8 => Ok(Nationality::Croatian),
            19u8 => Ok(Nationality::Cypriot),
            20u8 => Ok(Nationality::Czech),
            21u8 => Ok(Nationality::Danish),
            22u8 => Ok(Nationality::Dutch),
            23u8 => Ok(Nationality::Ecuadorian),
            24u8 => Ok(Nationality::English),
            25u8 => Ok(Nationality::Emirian),
            26u8 => Ok(Nationality::Estonian),
            27u8 => Ok(Nationality::Finnish),
            28u8 => Ok(Nationality::French),
            29u8 => Ok(Nationality::German),
            30u8 => Ok(Nationality::Ghanaian),
            31u8 => Ok(Nationality::Greek),
            32u8 => Ok(Nationality::Guatemalan),
            33u8 => Ok(Nationality::Honduran),
            34u8 => Ok(Nationality::HongKonger),
            35u8 => Ok(Nationality::Hungarian),
            36u8 => Ok(Nationality::Icelander),
            37u8 => Ok(Nationality::Indian),
            38u8 => Ok(Nationality::Indonesian),
            39u8 => Ok(Nationality::Irish),
            40u8 => Ok(Nationality::Israeli),
            41u8 => Ok(Nationality::Italian),
            42u8 => Ok(Nationality::Jamaican),
            43u8 => Ok(Nationality::Japanese),
            44u8 => Ok(Nationality::Jordanian),
            45u8 => Ok(Nationality::Kuwaiti),
            46u8 => Ok(Nationality::Latvian),
            47u8 => Ok(Nationality::Lebanese),
            48u8 => Ok(Nationality::Lithuanian),
            49u8 => Ok(Nationality::Luxembourger),
            50u8 => Ok(Nationality::Malaysian),
            51u8 => Ok(Nationality::Maltese),
            52u8 => Ok(Nationality::Mexican),
            53u8 => Ok(Nationality::Monegasque),
            54u8 => Ok(Nationality::NewZealander),
            55u8 => Ok(Nationality::Nicaraguan),
            56u8 => Ok(Nationality::NorthKorean),
            57u8 => Ok(Nationality::NorthernIrish),
            58u8 => Ok(Nationality::Norwegian),
            59u8 => Ok(Nationality::Omani),
            60u8 => Ok(Nationality::Pakistani),
            61u8 => Ok(Nationality::Panamanian),
            62u8 => Ok(Nationality::Paraguayan),
            63u8 => Ok(Nationality::Peruvian),
            64u8 => Ok(Nationality::Polish),
            65u8 => Ok(Nationality::Portuguese),
            66u8 => Ok(Nationality::Qatari),
            67u8 => Ok(Nationality::Romanian),
            68u8 => Ok(Nationality::Russian),
            69u8 => Ok(Nationality::Salvadoran),
            70u8 => Ok(Nationality::Saudi),
            71u8 => Ok(Nationality::Scottish),
            72u8 => Ok(Nationality::Serbian),
            73u8 => Ok(Nationality::Singaporean),
            74u8 => Ok(Nationality::Slovakian),
            75u8 => Ok(Nationality::Slovenian),
            76u8 => Ok(Nationality::SouthKorean),
            77u8 => Ok(Nationality::SouthAfrican),
            78u8 => Ok(Nationality::Spanish),
            79u8 => Ok(Nationality::Swedish),
            80u8 => Ok(Nationality::Swiss),
            81u8 => Ok(Nationality::Thai),
            82u8 => Ok(Nationality::Turkish),
            83u8 => Ok(Nationality::Uruguayan),
            84u8 => Ok(Nationality::Ukrainian),
            85u8 => Ok(Nationality::Venezuelan),
            86u8 => Ok(Nationality::Welsh),
            _ => Err(UnpackError::InvalidCode(value as u32)),
        }
    }
}

/// The occupant of one car slot. `name` holds the fixed 48 name bytes
/// exactly as they stand on the wire (UTF-8, padded with zero bytes);
/// trimming is a display concern.
#[derive(Debug, Clone, PartialEq, Eq)]
pub struct ParticipantData {
    pub ai_controlled: bool,
    pub driver_id: u8,
    pub team: Team,
    pub race_number: u8,
    pub nationality: Nationality,
    pub name: Vec<u8>,
    pub telemetry_public: bool,
}

impl ParticipantData {
    pub fn name(&self) -> (r: &Vec<u8>)
        ensures
            r == self.name,
    {
        &self.name
    }

    pub fn driver(&self) -> (r: u8)
        ensures
            r == self.driver_id,
    {
        self.driver_id
    }

    pub fn team(&self) -> (r: Team)
        ensures
            r == self.team,
    {
        self.team
    }
}

/// One participants datagram: the header, the count of active cars, and
/// the fixed twenty slots in increasing slot order.
#[derive(Debug, Clone, PartialEq, Eq)]
pub struct PacketParticipantsData {
    pub header: PacketHeader,
    pub num_active_cars: u8,
    pub participants: Vec<ParticipantData>,
}

impl PacketParticipantsData {
    /// Every decoded participants packet carries exactly the twenty slots.
    pub open spec fn well_formed(&self) -> bool {
        self.participants@.len() == 20
    }

    pub fn participants(&self) -> (r: &Vec<ParticipantData>)
        ensures
            r == self.participants,
    {
        &self.participants
    }

    pub fn header(&self) -> (r: &PacketHeader)
        ensures
            r == self.header,
    {
        &self.header
    }
}

/// Bytes of one participant slot.
pub const PARTICIPANT_BYTES: usize = 54;

/// The first invalid code among one participant slot's coded fields, in
/// read order, if any. `p` is the slot's base offset.
pub open spec fn spec_participant_err(s: Seq<u8>, p: int) -> Option<UnpackError> {
    match Team::spec_try_from(u8_at(s, p + 2)) {
        Err(e) => Some(e),
        Ok(_) => match Nationality::spec_try_from(u8_at(s, p + 4)) {
            Err(e) => Some(e),
            Ok(_) => None,
        },
    }
}

/// Every field of one decoded participant slot pinned to its wire value;
/// the name is the fixed 48 bytes exactly as they stand on the wire.
pub open spec fn spec_participant_matches(s: Seq<u8>, p: int, d: ParticipantData) -> bool {
    &&& d.ai_controlled == (u8_at(s, p) == 1)
    &&& d.driver_id == u8_at(s, p + 1)
    &&& d.team == Team::spec_try_from(u8_at(s, p + 2))->Ok_0
    &&& d.race_number == u8_at(s, p + 3)
    &&& d.nationality == Nationality::spec_try_from(u8_at(s, p + 4))->Ok_0
    &&& d.name@ == s.subrange(p + 5, p + 53)
    &&& d.telemetry_public == (u8_at(s, p + 53) == 1)
}

/// Decodes one participant slot at base offset `pos`, failing on the
/// first invalid code in read order.
pub(crate) fn parse_participant(buf: &[u8], pos: usize) -> (r: Result<ParticipantData, UnpackError>)
    requires
        pos + PARTICIPANT_BYTES <= buf@.len(),
    ensures
        match r {
            Ok(d) => spec_participant_err(buf@, pos as int) is None && spec_participant_matches(
                buf@,
                pos as int,
                d,
            ),
            Err(e) => spec_participant_err(buf@, pos as int) == Some(e),
        },
{
    proof {
        vstd::slice::axiom_spec_len(buf);
    }
    let mut p = pos;
    let ai_controlled = read_u8(buf, &mut p) == 1;
    let driver_id = read_u8(buf, &mut p);
    let team = match Team::try_from(read_u8(buf, &mut p)) {
        Ok(v) => v,
        Err(e) => { return Err(e) },
    };
    let race_number = read_u8(buf, &mut p);
    let nationality = match Nationality::try_from(read_u8(buf, &mut p)) {
        Ok(v) => v,
        Err(e) => { return Err(e) },
    };
    let name = read_bytes(buf, &mut p, 48);
    let telemetry_public = read_u8(buf, &mut p) == 1;
    Ok(
        ParticipantData {
            ai_controlled,
            driver_id,
            team,
            race_number,
            nationality,
            name,
            telemetry_public,
        },
    )
}

} // verus!

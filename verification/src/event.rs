//! Event packets: a four-character code names the event; some events
//! carry the car slot concerned, the fastest-lap event also a lap time.

use vstd::prelude::*;

use crate::error::UnpackError;
use crate::generic::RawFloat;
use crate::header::PacketHeader;

verus! {

#[derive(Debug, Clone, Copy, PartialEq, Eq, Structural)]
pub enum Event {
    SessionStarted,
    SessionEnded,
    FastestLap,
    Retirement,
    DRSEnabled,
    DRSDisabled,
    TeamMateInPits,
    ChequeredFlag,
    RaceWinner,
}

/// The raw four code bytes packed little-endian, the form an invalid
/// event code is reported in.
pub open spec fn spec_pack_code(c0: u8, c1: u8, c2: u8, c3: u8) -> u32 {
    (c0 as u32) | ((c1 as u32) << 8) | ((c2 as u32) << 16) | ((c3 as u32) << 24)
}

impl Event {
    /// The closed code table over the four-character wire codes:
    /// `SSTA`, `SEND`, `FTLP`, `RTMT`, `DRSE`, `DRSD`, `TMPT`, `CHQF`,
    /// `RCWN` in declaration order.
    pub open spec fn spec_try_from(c0: u8, c1: u8, c2: u8, c3: u8) -> Result<Event, UnpackError> {
        if c0 == 83u8 && c1 == 83u8 && c2 == 84u8 && c3 == 65u8 {
            Ok(Event::SessionStarted)
        } else if c0 == 83u8 && c1 == 69u8 && c2 == 78u8 && c3 == 68u8 {
            Ok(Event::SessionEnded)
        } else if c0 == 70u8 && c1 == 84u8 && c2 == 76u8 && c3 == 80u8 {
            Ok(Event::FastestLap)
        } else if c0 == 82u8 && c1 == 84u8 && c2 == 77u8 && c3 == 84u8 {
            Ok(Event::Retirement)
        } else if c0 == 68u8 && c1 == 82u8 && c2 == 83u8 && c3 == 69u8 {
            Ok(Event::DRSEnabled)
        } else if c0 == 68u8 && c1 == 82u8 && c2 == 83u8 && c3 == 68u8 {
            Ok(Event::DRSDisabled)
        } else if c0 == 84u8 && c1 == 77u8 && c2 == 80u8 && c3 == 84u8 {
            Ok(Event::TeamMateInPits)
        } else if c0 == 67u8 && c1 == 72u8 && c2 == 81u8 && c3 == 70u8 {
            Ok(Event::ChequeredFlag)
        } else if c0 == 82u8 && c1 == 67u8 && c2 == 87u8 && c3 == 78u8 {
            Ok(Event::RaceWinner)
        } else {
            Err(UnpackError::InvalidCode(spec_pack_code(c0, c1, c2, c3)))
        }
    }

    pub fn try_from(c0: u8, c1: u8, c2: u8, c3: u8) -> (r: Result<Event, UnpackError>)
        ensures
            r == Event::spec_try_from(c0, c1, c2, c3),
    {
        if c0 == 83u8 && c1 == 83u8 && c2 == 84u8 && c3 == 65u8 {
            Ok(Event::SessionStarted)
        } else if c0 == 83u8 && c1 == 69u8 && c2 == 78u8 && c3 == 68u8 {
            Ok(Event::SessionEnded)
        } else if c0 == 70u8 && c1 == 84u8 && c2 == 76u8 && c3 == 80u8 {
            Ok(Event::FastestLap)
        } else if c0 == 82u8 && c1 == 84u8 && c2 == 77u8 && c3 == 84u8 {
            Ok(Event::Retirement)
        } else if c0 == 68u8 && c1 == 82u8 && c2 == 83u8 && c3 == 69u8 {
            Ok(Event::DRSEnabled)
        } else if c0 == 68u8 && c1 == 82u8 && c2 == 83u8 && c3 == 68u8 {
            Ok(Event::DRSDisabled)
        } else if c0 == 84u8 && c1 == 77u8 && c2 == 80u8 && c3 == 84u8 {
            Ok(Event::TeamMateInPits)
        } else if c0 == 67u8 && c1 == 72u8 && c2 == 81u8 && c3 == 70u8 {
            Ok(Event::ChequeredFlag)
        } else if c0 == 82u8 && c1 == 67u8 && c2 == 87u8 && c3 == 78u8 {
            Ok(Event::RaceWinner)
        } else {
            Err(
                UnpackError::InvalidCode(
                    (c0 as u32) | ((c1 as u32) << 8) | ((c2 as u32) << 16) | ((c3 as u32) << 24),
                ),
            )
        }
    }

    /// Whether the wire layout of this event carries the car slot it
    /// concerns.
    pub open spec fn spec_has_vehicle(self) -> bool {
        match self {
            Event::FastestLap => true,
            Event::Retirement => true,
            Event::TeamMateInPits => true,
            Event::RaceWinner => true,
            _ => false,
        }
    }

    /// The display description of the event.
    pub open spec fn spec_description(self) -> Seq<char> {
        match self {
            Event::SessionStarted => "Session Started"@,
            Event::SessionEnded => "Session Ended"@,
            Event::FastestLap => "Fastest Lap"@,
            Event::Retirement => "Retirement"@,
            Event::DRSEnabled => "DRS Enabled"@,
            Event::DRSDisabled => "DRS Disabled"@,
            Event::TeamMateInPits => "Team Mate In Pits"@,
            Event::ChequeredFlag => "Chequered Flag"@,
            Event::RaceWinner => "Race Winner"@,
        }
    }

    pub fn description(self) -> (r: &'static str)
        ensures
            r@ == self.spec_description(),
    {
        match self {
            Event::SessionStarted => "Session Started",
            Event::SessionEnded => "Session Ended",
            Event::FastestLap => "Fastest Lap",
            Event::Retirement => "Retirement",
            Event::DRSEnabled => "DRS Enabled",
            Event::DRSDisabled => "DRS Disabled",
            Event::TeamMateInPits => "Team Mate In Pits",
            Event::ChequeredFlag => "Chequered Flag",
            Event::RaceWinner => "Race Winner",
        }
    }
}

/// One event datagram. `vehicle_idx` is present exactly for the events
/// whose layout carries a car slot, and `lap_time` exactly for the
/// fastest-lap event.
#[derive(Debug, Clone, Copy, PartialEq, Eq, Structural)]
pub struct PacketEventData {
    pub header: PacketHeader,
    pub event: Event,
    pub vehicle_idx: Option<u8>,
    pub lap_time: Option<RawFloat>,
}

impl PacketEventData {
    /// The decoder rejects a car slot outside the twenty-car grid, so a
    /// present index always indexes a per-car array; the presence shape
    /// follows the event kind.
    pub open spec fn well_formed(&self) -> bool {
        &&& (self.vehicle_idx matches Some(i) ==> i < 20)
        &&& (self.vehicle_idx is Some <==> self.event.spec_has_vehicle())
        &&& (self.lap_time is Some <==> self.event is FastestLap)
    }

    pub fn header(&self) -> (r: &PacketHeader)
        ensures
            r == self.header,
    {
        &self.header
    }
}

} // verus!

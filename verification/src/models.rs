//! Consumer-side views over decoded packets: the flattened session, lap,
//! event and telemetry summaries a renderer displays. Pure functions of
//! the decoded values; nothing here touches the wire.

use vstd::prelude::*;

use crate::car_telemetry::PacketCarTelemetryData;
use crate::event::PacketEventData;
use crate::generic::RawFloat;
use crate::lap::{LapData, PacketLapData, PitStatus, ResultStatus};
use crate::participants::{PacketParticipantsData, ParticipantData, Team};
use crate::session::PacketSessionData;

verus! {

/// The session summary line: names, elapsed/total time, lap count.
pub struct SessionInfo {
    pub session_name: &'static str,
    pub track_name: &'static str,
    pub elapsed_time: u16,
    pub duration: u16,
    pub current_lap: u8,
    pub number_of_laps: u8,
}

/// One row of the lap table: the car's position and times joined with
/// its participant identity. `name` is the participant's raw name bytes.
pub struct LapInfo {
    pub position: u8,
    pub name: Vec<u8>,
    pub driver: u8,
    pub team: Team,
    pub current_lap_time: RawFloat,
    pub last_lap_time: RawFloat,
    pub best_lap_time: RawFloat,
    pub status: ResultStatus,
    pub in_pit: bool,
    pub lap_invalid: bool,
    pub penalties: u8,
    pub lap_distance: RawFloat,
    pub total_distance: RawFloat,
}

/// One event line: when, what, and — when the event concerns one car —
/// whose, with the fastest-lap time if the event carries one.
pub struct EventInfo {
    pub timestamp: RawFloat,
    pub description: &'static str,
    pub driver_name: Option<Vec<u8>>,
    pub lap_time: Option<RawFloat>,
}

/// The player car's own telemetry readout.
pub struct TelemetryInfo {
    pub speed: u16,
    pub throttle: RawFloat,
    pub brake: RawFloat,
    pub gear: i8,
    pub engine_rpm: u16,
    pub drs: bool,
    pub rev_lights_percent: u8,
    pub engine_temperature: u16,
}

/// Clones a byte vector; the copy holds the same bytes.
fn clone_bytes(v: &Vec<u8>) -> (r: Vec<u8>)
    ensures
        r@ == v@,
{
    let r = v.clone();
    proof {
        assert(r@ =~= v@);
    }
    r
}

/// Builds the session summary. Elapsed time is the duration less the
/// time still left, so the time left may not exceed the duration.
pub fn parse_session_data(session: &PacketSessionData, current_lap: u8) -> (r: SessionInfo)
    requires
        session.session_time_left <= session.session_duration,
    ensures
        r.session_name@ == session.session_type.spec_name(),
        r.track_name@ == session.track.spec_name(),
        r.elapsed_time == session.session_duration - session.session_time_left,
        r.duration == session.session_duration,
        r.current_lap == current_lap,
        r.number_of_laps == session.total_laps,
{
    SessionInfo {
        session_name: session.session_type.name(),
        track_name: session.track.name(),
        elapsed_time: session.session_duration - session.session_time_left,
        duration: session.session_duration,
        current_lap,
        number_of_laps: session.total_laps,
    }
}

/// One lap-table row pinned to the lap slot and participant slot it
/// joins. The consumer-visible "in pit" flag is true exactly when the
/// pit status is anything but "no pit".
pub open spec fn spec_lap_info_matches(ld: LapData, pd: ParticipantData, li: LapInfo) -> bool {
    &&& li.position == ld.car_position
    &&& li.name@ == pd.name@
    &&& li.driver == pd.driver_id
    &&& li.team == pd.team
    &&& li.current_lap_time == ld.current_lap_time
    &&& li.last_lap_time == ld.last_lap_time
    &&& li.best_lap_time == ld.best_lap_time
    &&& li.status == ld.result_status
    &&& li.in_pit == (ld.pit_status != PitStatus::NoPit)
    &&& li.lap_invalid == ld.current_lap_invalid
    &&& li.penalties == ld.penalties
    &&& li.lap_distance == ld.lap_distance
    &&& li.total_distance == ld.total_distance
}

/// Joins the lap table with the participant identities, slot by slot.
/// Without a participants packet there is nothing to join yet.
pub fn parse_lap_data(lap_data: &PacketLapData, participants: &Option<PacketParticipantsData>) -> (r:
    Option<Vec<LapInfo>>)
    requires
        lap_data.well_formed(),
        participants matches Some(pp) ==> pp.well_formed(),
    ensures
        match r {
            Some(infos) => {
                &&& participants matches Some(pp) && {
                    &&& infos@.len() == 20
                    &&& forall|i: int|
                        0 <= i < 20 ==> spec_lap_info_matches(
                            lap_data.lap_data@[i],
                            pp.participants@[i],
                            infos@[i],
                        )
                }
            },
            None => participants is None,
        },
{
    let pp = match participants {
        Some(pp) => pp,
        None => { return None },
    };
    let mut infos: Vec<LapInfo> = Vec::new();
    let mut i: usize = 0;
    while i < 20
        invariant
            lap_data.well_formed(),
            pp.well_formed(),
            i <= 20,
            infos@.len() == i,
            forall|j: int|
                0 <= j < i ==> spec_lap_info_matches(
                    lap_data.lap_data@[j],
                    pp.participants@[j],
                    infos@[j],
                ),
        decreases 20 - i,
    {
        let ld = &lap_data.lap_data[i];
        let pd = &pp.participants[i];
        let li = LapInfo {
            position: ld.car_position,
            name: clone_bytes(&pd.name),
            driver: pd.driver_id,
            team: pd.team,
            current_lap_time: ld.current_lap_time,
            last_lap_time: ld.last_lap_time,
            best_lap_time: ld.best_lap_time,
            status: ld.result_status,
            in_pit: ld.pit_status != PitStatus::NoPit,
            lap_invalid: ld.current_lap_invalid,
            penalties: ld.penalties,
            lap_distance: ld.lap_distance,
            total_distance: ld.total_distance,
        };
        infos.push(li);
        i = i + 1;
    }
    Some(infos)
}

/// Builds an event line. An event that concerns one car can only be
/// joined with a name once a participants packet has arrived.
pub fn parse_event_data(
    event_data: &PacketEventData,
    participants: &Option<PacketParticipantsData>,
) -> (r: Option<EventInfo>)
    requires
        event_data.well_formed(),
        participants matches Some(pp) ==> pp.well_formed(),
    ensures
        match r {
            None => event_data.vehicle_idx is Some && participants is None,
            Some(info) => {
                &&& info.timestamp == event_data.header.session_time
                &&& info.description@ == event_data.event.spec_description()
                &&& info.lap_time == event_data.lap_time
                &&& (event_data.vehicle_idx matches Some(idx) ==> (participants matches Some(pp)
                    && info.driver_name matches Some(nm) && nm@ == pp.participants@[
                    idx as int].name@))
                &&& (event_data.vehicle_idx is None ==> info.driver_name is None)
            },
        },
{
    let driver_name: Option<Vec<u8>> = match event_data.vehicle_idx {
        Some(idx) => match participants {
            Some(pp) => Some(clone_bytes(&pp.participants[idx as usize].name)),
            None => { return None },
        },
        None => None,
    };
    Some(
        EventInfo {
            timestamp: event_data.header.session_time,
            description: event_data.event.description(),
            driver_name,
            lap_time: event_data.lap_time,
        },
    )
}

/// The player car's telemetry readout, or nothing when the header's
/// player index is the "none" sentinel or otherwise outside the grid.
pub fn parse_telemetry_data(telemetry_data: &PacketCarTelemetryData) -> (r: Option<TelemetryInfo>)
    requires
        telemetry_data.well_formed(),
    ensures
        match r {
            Some(info) => {
                &&& telemetry_data.header.player_car_index < 20
                &&& {
                    let c = telemetry_data.car_telemetry_data@[
                        telemetry_data.header.player_car_index as int];
                    &&& info.speed == c.speed
                    &&& info.throttle == c.throttle
                    &&& info.brake == c.brake
                    &&& info.gear == c.gear
                    &&& info.engine_rpm == c.engine_rpm
                    &&& info.drs == c.drs
                    &&& info.rev_lights_percent == c.rev_lights_percent
                    &&& info.engine_temperature == c.engine_temperature
                }
            },
            None => telemetry_data.header.player_car_index >= 20,
        },
{
    let player_index = telemetry_data.header.player_car_index;
    if player_index >= 20 {
        return None;
    }
    let c = &telemetry_data.car_telemetry_data[player_index as usize];
    Some(
        TelemetryInfo {
            speed: c.speed,
            throttle: c.throttle,
            brake: c.brake,
            gear: c.gear,
            engine_rpm: c.engine_rpm,
            drs: c.drs,
            rev_lights_percent: c.rev_lights_percent,
            engine_temperature: c.engine_temperature,
        },
    )
}

/// The highest current-lap number over the twenty lap slots: an upper
/// bound on every slot, attained by at least one.
pub fn get_current_lap(lap_data: &PacketLapData) -> (r: u8)
    requires
        lap_data.well_formed(),
    ensures
        forall|i: int| 0 <= i < 20 ==> r >= lap_data.lap_data@[i].current_lap_num,
        exists|i: int| 0 <= i < 20 && r == lap_data.lap_data@[i].current_lap_num,
{
    let mut max: u8 = lap_data.lap_data[0].current_lap_num;
    let mut i: usize = 1;
    while i < 20
        invariant
            lap_data.well_formed(),
            1 <= i <= 20,
            forall|j: int| 0 <= j < i ==> max >= lap_data.lap_data@[j].current_lap_num,
            exists|j: int| 0 <= j < i && max == lap_data.lap_data@[j].current_lap_num,
        decreases 20 - i,
    {
        let lap = lap_data.lap_data[i].current_lap_num;
        if lap > max {
            max = lap;
        }
        i = i + 1;
    }
    max
}

} // verus!

//! Interpretation of radar frames into presence readings.

use vstd::prelude::*;

verus! {

/// One decoded presence reading: whether a target is present, and its
/// distance in centimetres (0 meaning unknown or no target).
#[derive(Debug, Clone, Copy, PartialEq, Eq, Structural)]
pub struct PresenceData {
    pub occupied: bool,
    pub distance: u16,
}

/// What the radar reports about the tracked target. Only occupancy matters
/// to this system; every other state counts as clear.
#[derive(Debug, Clone, Copy, PartialEq, Eq, Structural)]
pub enum TargetState {
    Occupied,
    Clear,
}

/// One frame from the radar link, reduced to the fields the logic reads.
/// `Other` stands for frame kinds that carry no presence information.
#[derive(Debug, Clone, PartialEq, Eq, Structural)]
pub enum RadarPacket {
    Standard { target_state: TargetState, distance_cm: u16 },
    Minimal { target_state: TargetState, distance_cm: u16 },
    Other,
}

/// The reading that one (possibly absent) radar frame stands for.
pub open spec fn reading_of(packet: Option<RadarPacket>) -> PresenceData {
    match packet {
        Some(RadarPacket::Standard { target_state, distance_cm }) => PresenceData {
            occupied: target_state is Occupied,
            distance: distance_cm,
        },
        Some(RadarPacket::Minimal { target_state, distance_cm }) => PresenceData {
            occupied: target_state is Occupied,
            distance: distance_cm,
        },
        Some(RadarPacket::Other) => PresenceData { occupied: false, distance: 0 },
        None => PresenceData { occupied: false, distance: 0 },
    }
}

/// Turns the latest radar frame, or the absence of one, into the presence
/// reading the orchestrator consumes. Frames without presence information
/// and empty polls both read as clear at distance 0.
pub fn interpret_reading(packet: &Option<RadarPacket>) -> (r: PresenceData)
    ensures
        r == reading_of(*packet),
{
    match packet {
        Some(RadarPacket::Standard { target_state, distance_cm }) => PresenceData {
            occupied: matches!(target_state, TargetState::Occupied),
            distance: *distance_cm,
        },
        Some(RadarPacket::Minimal { target_state, distance_cm }) => PresenceData {
            occupied: matches!(target_state, TargetState::Occupied),
            distance: *distance_cm,
        },
        Some(RadarPacket::Other) => PresenceData { occupied: false, distance: 0 },
        None => PresenceData { occupied: false, distance: 0 },
    }
}

} // verus!

use vstd::prelude::*;
use crate::message::same_text;

verus! {

/// The door's position as reported on the door-state topic.
///
/// The controller records it; triggering does not depend on it.
#[derive(PartialEq, Eq, Structural, Clone, Copy, Debug)]
pub enum DoorState {
    Open,
    Closed,
    Moving,
    Unknown,
}

/// The state that a payload names, if it names one.
pub open spec fn door_state_of(s: Seq<char>) -> Option<DoorState> {
    if s == "Open"@ {
        Some(DoorState::Open)
    } else if s == "Closed"@ {
        Some(DoorState::Closed)
    } else if s == "Moving"@ {
        Some(DoorState::Moving)
    } else if s == "Unknown"@ {
        Some(DoorState::Unknown)
    } else {
        None
    }
}

/// Reads a door-state payload: one of the four literal names, or nothing.
pub fn parse_door_state(payload: &str) -> (r: Option<DoorState>)
    ensures
        r == door_state_of(payload@),
{
    if same_text(payload, "Open") {
        Some(DoorState::Open)
    } else if same_text(payload, "Closed") {
        Some(DoorState::Closed)
    } else if same_text(payload, "Moving") {
        Some(DoorState::Moving)
    } else if same_text(payload, "Unknown") {
        Some(DoorState::Unknown)
    } else {
        None
    }
}

} // verus!

use vstd::prelude::*;

verus! {

/// The global run state of the simulation. Exactly one is active at a time;
/// the lifecycle is `Loading -> InitSim -> Simulating <-> Paused`.
#[derive(Clone, Copy, Debug, PartialEq, Eq, Hash, Structural)]
pub enum SimState {
    Loading,
    InitSim,
    Simulating,
    Paused,
}

/// The moves that the lifecycle allows from one state to the next.
pub open spec fn is_lifecycle_step(from: SimState, to: SimState) -> bool {
    match from {
        SimState::Loading => to == SimState::InitSim,
        SimState::InitSim => to == SimState::Simulating,
        SimState::Simulating => to == SimState::Paused,
        SimState::Paused => to == SimState::Simulating,
    }
}

/// The state that the pause key requests from `current`: a running
/// simulation pauses, a paused one resumes, any other state is left alone.
pub open spec fn pause_toggle(current: SimState) -> Option<SimState> {
    match current {
        SimState::Simulating => Some(SimState::Paused),
        SimState::Paused => Some(SimState::Simulating),
        _ => None,
    }
}

impl Default for SimState {
    /// The simulation starts out loading its assets.
    fn default() -> (r: SimState)
        ensures
            r == SimState::Loading,
    {
        SimState::Loading
    }
}

/// Decides the state change that one frame of input asks for: `Some(next)`
/// when the pause key was just pressed in `current` and a change applies,
/// `None` when the state is to stay as it is.
pub fn pause_simulation(pause_pressed: bool, current: SimState) -> (r: Option<SimState>)
    ensures
        r == (if pause_pressed { pause_toggle(current) } else { None }),
        r matches Some(next) ==> is_lifecycle_step(current, next),
{
    if pause_pressed {
        match current {
            SimState::Simulating => Some(SimState::Paused),
            SimState::Paused => Some(SimState::Simulating),
            _ => None,
        }
    } else {
        None
    }
}

/// Pressing the pause key twice, with each requested change applied,
/// brings a running or paused simulation back to the state it was in.
pub proof fn lemma_pause_twice_restores(current: SimState)
    requires
        current == SimState::Simulating || current == SimState::Paused,
    ensures
        pause_toggle(current) matches Some(next) && pause_toggle(next) == Some(current),
{
}

/// The pause key moves no state outside the pair `Simulating`/`Paused`.
pub proof fn lemma_pause_only_between_running_states(current: SimState)
    ensures
        pause_toggle(current) matches Some(next) ==> (
            (current == SimState::Simulating || current == SimState::Paused)
            && (next == SimState::Simulating || next == SimState::Paused)
        ),
{
}

} // verus!

//! When a looping track is started and stopped.

use vstd::prelude::*;

verus! {

/// What is known of the sink on which a track was last started.
#[derive(Debug, Clone, Copy, PartialEq, Eq, Hash, Structural)]
pub enum SinkState {
    /// The track was never started, or its sink is gone.
    Missing,
    /// The sink is playing.
    Playing,
    /// The sink is paused.
    Paused,
}

/// What starting a track amounts to.
#[derive(Debug, Clone, Copy, PartialEq, Eq, Hash, Structural)]
pub enum PlayAction {
    /// The track is playing already: leave it alone.
    Keep,
    /// The track was paused: stop its sink for good and start it anew.
    Restart,
    /// Start the track on a new sink.
    Start,
}

/// What starting a track amounts to, given the state of its sink.
pub open spec fn play_decision(sink: SinkState) -> PlayAction {
    match sink {
        SinkState::Playing => PlayAction::Keep,
        SinkState::Paused => PlayAction::Restart,
        SinkState::Missing => PlayAction::Start,
    }
}

/// What starting a track amounts to, given the state of its sink. A track
/// never plays twice at once.
pub fn play_action(sink: SinkState) -> (action: PlayAction)
    ensures
        action == play_decision(sink),
{
    match sink {
        SinkState::Playing => PlayAction::Keep,
        SinkState::Paused => PlayAction::Restart,
        SinkState::Missing => PlayAction::Start,
    }
}

/// Whether stopping a track means pausing its sink: only a sink that plays is
/// paused.
pub fn stop_action(sink: SinkState) -> (pause: bool)
    ensures
        pause == (sink == SinkState::Playing),
{
    match sink {
        SinkState::Playing => true,
        _ => false,
    }
}

} // verus!

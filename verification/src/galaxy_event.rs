//! Galaxy-wide events: which one a draw stands for, which planet it falls
//! on, and the command that delivers it.

use vstd::prelude::*;
use crate::exchange::SendOutcome;
use crate::orchestrator::Orchestrator;
use crate::protocol::{ActorId, Command, CommandKind};
use rand::Rng;

verus! {

/// An event that the scheduler lets loose on one planet.
#[derive(Clone, Copy, Debug, PartialEq, Eq, Structural, Hash)]
pub enum GalaxyEvent {
    Sunray,
    Asteroid,
}

/// How many outcomes one draw of an event has: a sunray, an asteroid, or a
/// quiet cycle.
pub const EVENT_ROLLS: usize = 3;

impl GalaxyEvent {
    /// The kind of command that delivers this event.
    pub open spec fn spec_kind(self) -> CommandKind {
        match self {
            GalaxyEvent::Sunray => CommandKind::Sunray,
            GalaxyEvent::Asteroid => CommandKind::Asteroid,
        }
    }

    /// The command that delivers this event to a planet.
    pub fn command(self) -> (cmd: Command)
        ensures
            cmd.spec_kind() == self.spec_kind(),
    {
        match self {
            GalaxyEvent::Sunray => Command::Sunray,
            GalaxyEvent::Asteroid => Command::Asteroid,
        }
    }
}

/// The event that a draw stands for: 0 is a sunray, 1 an asteroid, anything
/// else a quiet cycle.
pub open spec fn spec_event_for_roll(roll: usize) -> Option<GalaxyEvent> {
    if roll == 0 {
        Some(GalaxyEvent::Sunray)
    } else if roll == 1 {
        Some(GalaxyEvent::Asteroid)
    } else {
        None
    }
}

/// The event that a draw stands for.
pub fn event_for_roll(roll: usize) -> (event: Option<GalaxyEvent>)
    ensures
        event == spec_event_for_roll(roll),
{
    if roll == 0 {
        Some(GalaxyEvent::Sunray)
    } else if roll == 1 {
        Some(GalaxyEvent::Asteroid)
    } else {
        None
    }
}

/// What a draw came to: `event`, for the planet at position `planet_index`
/// among the planets on the map.
#[derive(Clone, Copy, Debug, PartialEq, Eq, Structural)]
pub struct DrawnEvent {
    pub planet_index: usize,
    pub event: GalaxyEvent,
}

/// What two draws make of a map with `planet_count` planets: nothing on an
/// empty map or a quiet draw, else the drawn event on the drawn planet.
pub open spec fn spec_plan_event(planet_count: usize, planet_roll: usize, event_roll: usize) -> Option<
    DrawnEvent,
> {
    if planet_roll < planet_count {
        match spec_event_for_roll(event_roll) {
            Some(event) => Some(DrawnEvent { planet_index: planet_roll, event }),
            None => None,
        }
    } else {
        None
    }
}

/// Turns a drawn planet and a drawn event into the event to schedule.
pub fn plan_event(planet_count: usize, planet_roll: usize, event_roll: usize) -> (planned: Option<
    DrawnEvent,
>)
    ensures
        planned == spec_plan_event(planet_count, planet_roll, event_roll),
        planned matches Some(drawn) ==> drawn.planet_index < planet_count,
{
    if planet_roll < planet_count {
        match event_for_roll(event_roll) {
            Some(event) => Some(DrawnEvent { planet_index: planet_roll, event }),
            None => None,
        }
    } else {
        None
    }
}

/// `rand::Rng::random_range` on `0..bound` with the thread's generator
/// (`rand::rng`): some number below `bound`. An empty range would panic, so
/// `bound` must be positive.
#[verifier::external_body]
fn random_below(bound: usize) -> (roll: usize)
    requires
        bound > 0,
    ensures
        roll < bound,
{
    rand::rng().random_range(0..bound)
}

/// Draws the next event for a map with `planet_count` planets: a planet
/// chosen at random and, with equal chances, a sunray, an asteroid or
/// nothing. Nothing is drawn for an empty map.
pub fn draw_event(planet_count: usize) -> (planned: Option<DrawnEvent>)
    ensures
        planet_count == 0 ==> planned is None,
        planned matches Some(drawn) ==> drawn.planet_index < planet_count,
{
    if planet_count == 0 {
        return None;
    }
    let planet_roll = random_below(planet_count);
    let event_roll = random_below(EVENT_ROLLS);
    plan_event(planet_count, planet_roll, event_roll)
}

impl<H> Orchestrator<H> {
    /// Delivers an event to planet `planet_id` as the command that stands for
    /// it.
    pub fn deliver_event(&self, planet_id: ActorId, event: GalaxyEvent) -> (out: SendOutcome)
        requires
            self.senders().contains_key(planet_id),
    {
        self.send_to_planet_id(planet_id, event.command())
    }
}

} // verus!

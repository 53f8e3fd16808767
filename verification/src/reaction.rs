//! What the control thread does when a planet reports something it was not
//! asked for just now: an acknowledged sunray or asteroid, a state snapshot,
//! a confirmed kill.

use vstd::prelude::*;
use crate::protocol::{ActorId, Command, CommandKind, Response};

verus! {

/// The control thread's answer to one message of a planet.
#[derive(Clone, Copy, Debug, PartialEq, Eq, Structural)]
pub enum Reaction {
    /// The planet's state may have changed: ask it for a snapshot.
    RequestState { planet_id: ActorId },
    /// An asteroid hit a planet without a rocket: take it off the map and
    /// tell its actor to end.
    Destroy { planet_id: ActorId },
    /// A snapshot arrived: show `charged_cell` of `num_cell` cells and the
    /// rocket.
    ShowState { planet_id: ActorId, num_cell: usize, charged_cell: usize, has_rocket: bool },
    /// The planet's actor has acknowledged its kill; its thread can be
    /// joined.
    Killed { planet_id: ActorId },
    /// Nothing to do.
    Nothing,
}

/// The reaction that each message of a planet calls for.
pub open spec fn reaction_to(msg: Response) -> Reaction {
    match msg {
        Response::SunrayAck { planet_id } => Reaction::RequestState { planet_id },
        Response::AsteroidAck { planet_id, rocket } => if rocket is Some {
            Reaction::RequestState { planet_id }
        } else {
            Reaction::Destroy { planet_id }
        },
        Response::KillPlanetResult { planet_id } => Reaction::Killed { planet_id },
        Response::InternalStateResponse { planet_id, planet_state } => Reaction::ShowState {
            planet_id,
            num_cell: planet_state.energy_cells@.len() as usize,
            charged_cell: planet_state.charged_cells_count,
            has_rocket: planet_state.has_rocket,
        },
        _ => Reaction::Nothing,
    }
}

/// Decides what a message of a planet calls for. A sunray, or an asteroid
/// that met a rocket, asks for a fresh snapshot; an asteroid that met no
/// rocket destroys the planet; a snapshot is shown; a confirmed kill is
/// passed on; every other message is let go.
pub fn react(msg: Response) -> (reaction: Reaction)
    ensures
        reaction == reaction_to(msg),
{
    match msg {
        Response::SunrayAck { planet_id } => Reaction::RequestState { planet_id },
        Response::AsteroidAck { planet_id, rocket } => match rocket {
            Some(_) => Reaction::RequestState { planet_id },
            None => Reaction::Destroy { planet_id },
        },
        Response::KillPlanetResult { planet_id } => Reaction::Killed { planet_id },
        Response::InternalStateResponse { planet_id, planet_state } => Reaction::ShowState {
            planet_id,
            num_cell: planet_state.energy_cells.len(),
            charged_cell: planet_state.charged_cells_count,
            has_rocket: planet_state.has_rocket,
        },
        _ => Reaction::Nothing,
    }
}

impl Reaction {
    /// The planet whose kill this reaction confirms, if it confirms one.
    pub open spec fn spec_killed(self) -> Option<ActorId> {
        match self {
            Reaction::Killed { planet_id } => Some(planet_id),
            _ => None,
        }
    }

    /// The planet whose kill this reaction confirms, if it confirms one.
    pub fn killed(self) -> (planet: Option<ActorId>)
        ensures
            planet == self.spec_killed(),
    {
        match self {
            Reaction::Killed { planet_id } => Some(planet_id),
            _ => None,
        }
    }

    /// The planet to address and the kind of command to send it, where the
    /// reaction includes a command.
    pub open spec fn spec_follow_up(self) -> Option<(ActorId, CommandKind)> {
        match self {
            Reaction::RequestState { planet_id } => Some(
                (planet_id, CommandKind::InternalStateRequest),
            ),
            Reaction::Destroy { planet_id } => Some((planet_id, CommandKind::KillPlanet)),
            _ => None,
        }
    }

    /// The command that carries out this reaction and the planet it goes to,
    /// if the reaction includes one.
    pub fn follow_up(self) -> (next: Option<(ActorId, Command)>)
        ensures
            match next {
                Some((id, cmd)) => self.spec_follow_up() == Some((id, cmd.spec_kind())),
                None => self.spec_follow_up() is None,
            },
    {
        match self {
            Reaction::RequestState { planet_id } => Some((planet_id, Command::InternalStateRequest)),
            Reaction::Destroy { planet_id } => Some((planet_id, Command::KillPlanet)),
            _ => None,
        }
    }
}

} // verus!

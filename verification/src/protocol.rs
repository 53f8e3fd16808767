//! The message vocabulary between the control thread and a planet actor, and
//! the pairing of each command with the one response that answers it.

use vstd::prelude::*;
use common_game::components::rocket::Rocket;
use common_game::protocols::planet_explorer::PlanetToExplorer;
use crossbeam_channel::Sender;

verus! {

/// A rocket that a planet hands over to deflect an asteroid. Opaque: the
/// registry only ever looks at whether one is there.
#[verifier::external_type_specification]
#[verifier::external_body]
pub struct ExRocket(Rocket);

/// A message from a planet to an explorer that has landed on it. Opaque
/// here; the explorer side unpacks it.
#[verifier::external_type_specification]
#[verifier::external_body]
pub struct ExPlanetToExplorer(PlanetToExplorer);

/// Identifies a planet actor or an explorer.
pub type ActorId = u32;

/// A message from the control thread to a planet actor.
#[derive(Debug)]
pub enum Command {
    /// A sunray reaches the planet.
    Sunray,
    /// An asteroid reaches the planet.
    Asteroid,
    /// Start the planet's decision loop, or resume it after a stop.
    StartPlanetAI,
    /// Pause the planet's decision loop.
    StopPlanetAI,
    /// Destroy the planet: its thread returns after acknowledging.
    KillPlanet,
    /// Ask for a snapshot of the planet's state.
    InternalStateRequest,
    /// An explorer lands; `new_sender` is where the planet answers it.
    IncomingExplorerRequest { explorer_id: ActorId, new_sender: Sender<PlanetToExplorer> },
    /// An explorer leaves; the planet forgets its reply channel.
    OutgoingExplorerRequest { explorer_id: ActorId },
}

/// The tag of a [`Command`], without its payload.
#[derive(Clone, Copy, Debug, PartialEq, Eq, Structural, Hash)]
pub enum CommandKind {
    Sunray,
    Asteroid,
    StartPlanetAI,
    StopPlanetAI,
    KillPlanet,
    InternalStateRequest,
    IncomingExplorerRequest,
    OutgoingExplorerRequest,
}

/// What a planet reports of itself: one flag per energy cell, how many of
/// them are charged, and whether a rocket stands ready.
#[derive(Debug)]
pub struct PlanetSnapshot {
    pub energy_cells: Vec<bool>,
    pub charged_cells_count: usize,
    pub has_rocket: bool,
}

/// A message from a planet actor to the control thread.
#[derive(Debug)]
pub enum Response {
    /// The planet took the sunray.
    SunrayAck { planet_id: ActorId },
    /// The planet met the asteroid, with the rocket it had for it, if any.
    AsteroidAck { planet_id: ActorId, rocket: Option<Rocket> },
    /// The planet's decision loop runs.
    StartPlanetAIResult { planet_id: ActorId },
    /// The planet's decision loop is paused.
    StopPlanetAIResult { planet_id: ActorId },
    /// The planet ends: this is its last message.
    KillPlanetResult { planet_id: ActorId },
    /// How the planet is.
    InternalStateResponse { planet_id: ActorId, planet_state: PlanetSnapshot },
    /// Whether the planet took the explorer in.
    IncomingExplorerResponse { planet_id: ActorId, explorer_id: ActorId, res: Result<(), String> },
    /// Whether the planet let the explorer go.
    OutgoingExplorerResponse { planet_id: ActorId, explorer_id: ActorId, res: Result<(), String> },
    /// The answer of a stopped planet to anything but a start or a kill.
    Stopped { planet_id: ActorId },
}

/// The tag of a [`Response`], without its payload.
#[derive(Clone, Copy, Debug, PartialEq, Eq, Structural, Hash)]
pub enum ResponseKind {
    SunrayAck,
    AsteroidAck,
    StartPlanetAIResult,
    StopPlanetAIResult,
    KillPlanetResult,
    InternalStateResponse,
    IncomingExplorerResponse,
    OutgoingExplorerResponse,
    Stopped,
}

/// The one response variant that answers a command of the given kind.
pub open spec fn paired_response(sent: CommandKind) -> ResponseKind {
    match sent {
        CommandKind::Sunray => ResponseKind::SunrayAck,
        CommandKind::Asteroid => ResponseKind::AsteroidAck,
        CommandKind::StartPlanetAI => ResponseKind::StartPlanetAIResult,
        CommandKind::StopPlanetAI => ResponseKind::StopPlanetAIResult,
        CommandKind::KillPlanet => ResponseKind::KillPlanetResult,
        CommandKind::InternalStateRequest => ResponseKind::InternalStateResponse,
        CommandKind::IncomingExplorerRequest => ResponseKind::IncomingExplorerResponse,
        CommandKind::OutgoingExplorerRequest => ResponseKind::OutgoingExplorerResponse,
    }
}

/// No two kinds of command share a response: each response variant answers
/// at most one kind of command.
pub proof fn lemma_pairing_is_injective(a: CommandKind, b: CommandKind)
    ensures
        paired_response(a) == paired_response(b) <==> a == b,
{
}

/// `Stopped` answers no command: it is what a stopped planet says in place
/// of the answer.
pub proof fn lemma_stopped_is_no_answer(sent: CommandKind)
    ensures
        paired_response(sent) != ResponseKind::Stopped,
{
}

impl Command {
    /// The tag of this command.
    pub open spec fn spec_kind(&self) -> CommandKind {
        match self {
            Command::Sunray => CommandKind::Sunray,
            Command::Asteroid => CommandKind::Asteroid,
            Command::StartPlanetAI => CommandKind::StartPlanetAI,
            Command::StopPlanetAI => CommandKind::StopPlanetAI,
            Command::KillPlanet => CommandKind::KillPlanet,
            Command::InternalStateRequest => CommandKind::InternalStateRequest,
            Command::IncomingExplorerRequest { .. } => CommandKind::IncomingExplorerRequest,
            Command::OutgoingExplorerRequest { .. } => CommandKind::OutgoingExplorerRequest,
        }
    }

    /// The command that announces explorer `explorer_id` to a planet, with
    /// the channel on which the planet is to answer the explorer.
    pub fn incoming_explorer(explorer_id: ActorId, reply_channel: Sender<PlanetToExplorer>) -> (cmd:
        Command)
        ensures
            cmd == (Command::IncomingExplorerRequest { explorer_id, new_sender: reply_channel }),
    {
        Command::IncomingExplorerRequest { explorer_id, new_sender: reply_channel }
    }

    /// The command that tells a planet that explorer `explorer_id` leaves.
    pub fn outgoing_explorer(explorer_id: ActorId) -> (cmd: Command)
        ensures
            cmd == (Command::OutgoingExplorerRequest { explorer_id }),
    {
        Command::OutgoingExplorerRequest { explorer_id }
    }

    /// The tag of this command.
    pub fn kind(&self) -> (k: CommandKind)
        ensures
            k == self.spec_kind(),
    {
        match self {
            Command::Sunray => CommandKind::Sunray,
            Command::Asteroid => CommandKind::Asteroid,
            Command::StartPlanetAI => CommandKind::StartPlanetAI,
            Command::StopPlanetAI => CommandKind::StopPlanetAI,
            Command::KillPlanet => CommandKind::KillPlanet,
            Command::InternalStateRequest => CommandKind::InternalStateRequest,
            Command::IncomingExplorerRequest { .. } => CommandKind::IncomingExplorerRequest,
            Command::OutgoingExplorerRequest { .. } => CommandKind::OutgoingExplorerRequest,
        }
    }
}

impl CommandKind {
    /// The response variant that answers a command of this kind.
    pub fn expected_response(self) -> (k: ResponseKind)
        ensures
            k == paired_response(self),
    {
        match self {
            CommandKind::Sunray => ResponseKind::SunrayAck,
            CommandKind::Asteroid => ResponseKind::AsteroidAck,
            CommandKind::StartPlanetAI => ResponseKind::StartPlanetAIResult,
            CommandKind::StopPlanetAI => ResponseKind::StopPlanetAIResult,
            CommandKind::KillPlanet => ResponseKind::KillPlanetResult,
            CommandKind::InternalStateRequest => ResponseKind::InternalStateResponse,
            CommandKind::IncomingExplorerRequest => ResponseKind::IncomingExplorerResponse,
            CommandKind::OutgoingExplorerRequest => ResponseKind::OutgoingExplorerResponse,
        }
    }
}

impl Response {
    /// The tag of this response.
    pub open spec fn spec_kind(&self) -> ResponseKind {
        match self {
            Response::SunrayAck { .. } => ResponseKind::SunrayAck,
            Response::AsteroidAck { .. } => ResponseKind::AsteroidAck,
            Response::StartPlanetAIResult { .. } => ResponseKind::StartPlanetAIResult,
            Response::StopPlanetAIResult { .. } => ResponseKind::StopPlanetAIResult,
            Response::KillPlanetResult { .. } => ResponseKind::KillPlanetResult,
            Response::InternalStateResponse { .. } => ResponseKind::InternalStateResponse,
            Response::IncomingExplorerResponse { .. } => ResponseKind::IncomingExplorerResponse,
            Response::OutgoingExplorerResponse { .. } => ResponseKind::OutgoingExplorerResponse,
            Response::Stopped { .. } => ResponseKind::Stopped,
        }
    }

    /// The tag of this response.
    pub fn kind(&self) -> (k: ResponseKind)
        ensures
            k == self.spec_kind(),
    {
        match self {
            Response::SunrayAck { .. } => ResponseKind::SunrayAck,
            Response::AsteroidAck { .. } => ResponseKind::AsteroidAck,
            Response::StartPlanetAIResult { .. } => ResponseKind::StartPlanetAIResult,
            Response::StopPlanetAIResult { .. } => ResponseKind::StopPlanetAIResult,
            Response::KillPlanetResult { .. } => ResponseKind::KillPlanetResult,
            Response::InternalStateResponse { .. } => ResponseKind::InternalStateResponse,
            Response::IncomingExplorerResponse { .. } => ResponseKind::IncomingExplorerResponse,
            Response::OutgoingExplorerResponse { .. } => ResponseKind::OutgoingExplorerResponse,
            Response::Stopped { .. } => ResponseKind::Stopped,
        }
    }

    /// The planet that sent this response, whatever its variant.
    pub open spec fn spec_planet_id(&self) -> ActorId {
        match self {
            Response::SunrayAck { planet_id } => *planet_id,
            Response::AsteroidAck { planet_id, .. } => *planet_id,
            Response::StartPlanetAIResult { planet_id } => *planet_id,
            Response::StopPlanetAIResult { planet_id } => *planet_id,
            Response::KillPlanetResult { planet_id } => *planet_id,
            Response::InternalStateResponse { planet_id, .. } => *planet_id,
            Response::IncomingExplorerResponse { planet_id, .. } => *planet_id,
            Response::OutgoingExplorerResponse { planet_id, .. } => *planet_id,
            Response::Stopped { planet_id } => *planet_id,
        }
    }

    /// The planet that sent this response, whatever its variant.
    pub fn planet_id(&self) -> (id: ActorId)
        ensures
            id == self.spec_planet_id(),
    {
        match self {
            Response::SunrayAck { planet_id } => *planet_id,
            Response::AsteroidAck { planet_id, .. } => *planet_id,
            Response::StartPlanetAIResult { planet_id } => *planet_id,
            Response::StopPlanetAIResult { planet_id } => *planet_id,
            Response::KillPlanetResult { planet_id } => *planet_id,
            Response::InternalStateResponse { planet_id, .. } => *planet_id,
            Response::IncomingExplorerResponse { planet_id, .. } => *planet_id,
            Response::OutgoingExplorerResponse { planet_id, .. } => *planet_id,
            Response::Stopped { planet_id } => *planet_id,
        }
    }

    /// Whether this response is the one that answers a command of kind `sent`.
    pub open spec fn spec_answers(&self, sent: CommandKind) -> bool {
        self.spec_kind() == paired_response(sent)
    }

    /// Whether this response is the one that answers a command of kind `sent`.
    pub fn answers(&self, sent: CommandKind) -> (b: bool)
        ensures
            b == self.spec_answers(sent),
    {
        self.kind() == sent.expected_response()
    }
}

/// The three commands that drive an actor's life.
#[derive(Clone, Copy, Debug, PartialEq, Eq, Structural, Hash)]
pub enum Lifecycle {
    Start,
    Stop,
    Kill,
}

impl Lifecycle {
    /// The kind of command that this step is sent as.
    pub open spec fn spec_kind(self) -> CommandKind {
        match self {
            Lifecycle::Start => CommandKind::StartPlanetAI,
            Lifecycle::Stop => CommandKind::StopPlanetAI,
            Lifecycle::Kill => CommandKind::KillPlanet,
        }
    }

    /// The command that this step is sent as.
    pub fn command(self) -> (cmd: Command)
        ensures
            cmd.spec_kind() == self.spec_kind(),
    {
        match self {
            Lifecycle::Start => Command::StartPlanetAI,
            Lifecycle::Stop => Command::StopPlanetAI,
            Lifecycle::Kill => Command::KillPlanet,
        }
    }
}

} // verus!

//! Conversion between this library's messages and the enums of `common_game`
//! that actually travel over the channels.
//!
//! The enums of `common_game` are opaque to the verifier, so the two
//! conversions are believed rather than proved: each maps a variant to the
//! variant of the same name and moves the fields across unchanged.

use vstd::prelude::*;
use crate::explorer::{ExplorerReply, ExplorerRequest};
use crate::protocol::{Command, PlanetSnapshot, Response};
use common_game::components::asteroid::Asteroid;
use common_game::components::sunray::Sunray;
use common_game::protocols::orchestrator_planet::{OrchestratorToPlanet, PlanetToOrchestrator};
use common_game::protocols::planet_explorer::{ExplorerToPlanet, PlanetToExplorer};

verus! {

/// The commands of `common_game`, as a planet reads them from its inbound
/// channel.
#[verifier::external_type_specification]
#[verifier::external_body]
pub struct ExOrchestratorToPlanet(OrchestratorToPlanet);

/// The responses of `common_game`, as a planet writes them to its outbound
/// channel.
#[verifier::external_type_specification]
#[verifier::external_body]
pub struct ExPlanetToOrchestrator(PlanetToOrchestrator);

/// Builds the `common_game::OrchestratorToPlanet` of the same name as `cmd`,
/// with a default `Sunray` or `Asteroid` where the variant carries one.
#[verifier::external_body]
pub(crate) fn encode_command(cmd: Command) -> (wire: OrchestratorToPlanet) {
    match cmd {
        Command::Sunray => OrchestratorToPlanet::Sunray(Sunray::default()),
        Command::Asteroid => OrchestratorToPlanet::Asteroid(Asteroid::default()),
        Command::StartPlanetAI => OrchestratorToPlanet::StartPlanetAI,
        Command::StopPlanetAI => OrchestratorToPlanet::StopPlanetAI,
        Command::KillPlanet => OrchestratorToPlanet::KillPlanet,
        Command::InternalStateRequest => OrchestratorToPlanet::InternalStateRequest,
        Command::IncomingExplorerRequest { explorer_id, new_sender } => OrchestratorToPlanet::IncomingExplorerRequest { explorer_id, new_sender },
        Command::OutgoingExplorerRequest { explorer_id } => OrchestratorToPlanet::OutgoingExplorerRequest { explorer_id },
    }
}

/// Reads a `common_game::PlanetToOrchestrator` into the [`Response`] of the
/// same name, field by field.
#[verifier::external_body]
pub(crate) fn decode_response(wire: PlanetToOrchestrator) -> (msg: Response) {
    match wire {
        PlanetToOrchestrator::SunrayAck { planet_id } => Response::SunrayAck { planet_id },
        PlanetToOrchestrator::AsteroidAck { planet_id, rocket } => Response::AsteroidAck { planet_id, rocket },
        PlanetToOrchestrator::StartPlanetAIResult { planet_id } => Response::StartPlanetAIResult { planet_id },
        PlanetToOrchestrator::StopPlanetAIResult { planet_id } => Response::StopPlanetAIResult { planet_id },
        PlanetToOrchestrator::KillPlanetResult { planet_id } => Response::KillPlanetResult { planet_id },
        PlanetToOrchestrator::InternalStateResponse { planet_id, planet_state: s } => Response::InternalStateResponse { planet_id, planet_state: PlanetSnapshot { energy_cells: s.energy_cells, charged_cells_count: s.charged_cells_count, has_rocket: s.has_rocket } },
        PlanetToOrchestrator::IncomingExplorerResponse { planet_id, explorer_id, res } => Response::IncomingExplorerResponse { planet_id, explorer_id, res },
        PlanetToOrchestrator::OutgoingExplorerResponse { planet_id, explorer_id, res } => Response::OutgoingExplorerResponse { planet_id, explorer_id, res },
        PlanetToOrchestrator::Stopped { planet_id } => Response::Stopped { planet_id },
    }
}

/// The requests of `common_game`, as a planet reads them from the channel
/// that explorers write to.
#[verifier::external_type_specification]
#[verifier::external_body]
pub struct ExExplorerToPlanet(ExplorerToPlanet);

/// Builds the `common_game::ExplorerToPlanet` of the same name as `request`.
#[verifier::external_body]
pub(crate) fn encode_request(request: ExplorerRequest) -> (wire: ExplorerToPlanet) {
    match request {
        ExplorerRequest::SupportedResourceRequest { explorer_id } => ExplorerToPlanet::SupportedResourceRequest { explorer_id },
        ExplorerRequest::SupportedCombinationRequest { explorer_id } => ExplorerToPlanet::SupportedCombinationRequest { explorer_id },
        ExplorerRequest::GenerateResourceRequest { explorer_id, resource } => ExplorerToPlanet::GenerateResourceRequest { explorer_id, resource },
        ExplorerRequest::CombineResourceRequest { explorer_id, msg } => ExplorerToPlanet::CombineResourceRequest { explorer_id, msg },
        ExplorerRequest::AvailableEnergyCellRequest { explorer_id } => ExplorerToPlanet::AvailableEnergyCellRequest { explorer_id },
    }
}

/// Reads a `common_game::PlanetToExplorer` into the [`ExplorerReply`] of the
/// same name. The two sets of resource types come out as lists, in the order
/// in which the sets hand their items out.
#[verifier::external_body]
pub(crate) fn decode_reply(wire: PlanetToExplorer) -> (msg: ExplorerReply) {
    match wire {
        PlanetToExplorer::SupportedResourceResponse { resource_list } => ExplorerReply::SupportedResourceResponse { resource_list: resource_list.into_iter().collect() },
        PlanetToExplorer::SupportedCombinationResponse { combination_list } => ExplorerReply::SupportedCombinationResponse { combination_list: combination_list.into_iter().collect() },
        PlanetToExplorer::GenerateResourceResponse { resource } => ExplorerReply::GenerateResourceResponse { resource },
        PlanetToExplorer::CombineResourceResponse { complex_response } => ExplorerReply::CombineResourceResponse { complex_response },
        PlanetToExplorer::AvailableEnergyCellResponse { available_cells } => ExplorerReply::AvailableEnergyCellResponse { available_cells },
        PlanetToExplorer::Stopped => ExplorerReply::Stopped,
    }
}

} // verus!

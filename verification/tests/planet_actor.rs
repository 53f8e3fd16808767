//! The registry against a real `common_game` planet. The planet runs on the
//! test's own thread: the commands are queued first, with a kill at the end,
//! then the planet works through them and returns.

use common_game::components::planet::{DummyPlanetState, Planet, PlanetAI, PlanetState, PlanetType};
use common_game::components::resource::{BasicResourceType, Combinator, Generator};
use common_game::components::rocket::Rocket;
use common_game::components::sunray::Sunray;
use common_game::protocols::orchestrator_planet::OrchestratorToPlanet;
use common_game::protocols::planet_explorer::{ExplorerToPlanet, PlanetToExplorer};
use crossbeam_channel::{unbounded, Sender};
use galaxy_orchestrator::exchange::{classify_reply, Exchange, SendOutcome};
use galaxy_orchestrator::explorer::{ExplorerHandler, ExplorerReply, ExplorerRequest};
use galaxy_orchestrator::orchestrator::Orchestrator;
use galaxy_orchestrator::protocol::{Command, CommandKind, Response};
use galaxy_orchestrator::transport::RecvFailure;

/// A planet mind for the tests: it charges a cell on each sunray, builds a
/// rocket if told to, and ends its own planet after a set number of explorer
/// questions.
struct TestAi {
    kill: Sender<OrchestratorToPlanet>,
    questions_left: usize,
    build_rocket: bool,
}

impl PlanetAI for TestAi {
    fn handle_sunray(&mut self, state: &mut PlanetState, _g: &Generator, _c: &Combinator, sunray: Sunray) {
        let _ = state.charge_cell(sunray);
        if self.build_rocket {
            let full = state.full_cell().map(|(_, i)| i);
            if let Some(i) = full {
                let _ = state.build_rocket(i);
            }
        }
    }

    fn handle_asteroid(&mut self, state: &mut PlanetState, _g: &Generator, _c: &Combinator) -> Option<Rocket> {
        state.take_rocket()
    }

    fn handle_internal_state_req(&mut self, state: &mut PlanetState, _g: &Generator, _c: &Combinator) -> DummyPlanetState {
        state.to_dummy()
    }

    fn handle_explorer_msg(
        &mut self,
        state: &mut PlanetState,
        generator: &Generator,
        _c: &Combinator,
        msg: ExplorerToPlanet,
    ) -> Option<PlanetToExplorer> {
        let reply = match msg {
            ExplorerToPlanet::AvailableEnergyCellRequest { .. } => PlanetToExplorer::AvailableEnergyCellResponse {
                available_cells: state.to_dummy().charged_cells_count as u32,
            },
            ExplorerToPlanet::SupportedResourceRequest { .. } => PlanetToExplorer::SupportedResourceResponse {
                resource_list: generator.all_available_recipes(),
            },
            ExplorerToPlanet::GenerateResourceRequest { resource, .. } => {
                let made = match state.full_cell() {
                    Some((cell, _)) => generator.try_make(resource, cell).ok(),
                    None => None,
                };
                PlanetToExplorer::GenerateResourceResponse { resource: made }
            }
            _ => PlanetToExplorer::Stopped,
        };
        self.questions_left = self.questions_left.saturating_sub(1);
        if self.questions_left == 0 {
            let _ = self.kill.send(OrchestratorToPlanet::KillPlanet);
        }
        Some(reply)
    }
}

struct Galaxy {
    orch: Orchestrator<u32>,
    explorer: ExplorerHandler,
    planet: Planet,
}

/// One planet of type A (five cells, may hold a rocket, makes oxygen) under
/// id `id`, registered with a fresh registry and a fresh explorer handler.
fn galaxy(id: u32, build_rocket: bool, questions: usize) -> Galaxy {
    let (orch_tx, orch_rx) = unbounded();
    let (planet_tx, planet_rx) = unbounded();
    let (expl_tx, expl_rx) = unbounded();
    let ai = TestAi { kill: orch_tx.clone(), questions_left: questions, build_rocket };
    let planet = Planet::new(
        id,
        PlanetType::A,
        Box::new(ai),
        vec![BasicResourceType::Oxygen],
        vec![],
        (orch_rx, planet_tx),
        expl_rx,
    )
    .unwrap();
    let mut orch = Orchestrator::new();
    orch.register(id, orch_tx, planet_rx);
    orch.add_planet_handle(id, 1000 + id);
    let mut explorer = ExplorerHandler::new();
    explorer.add_ep_tx(id, expl_tx);
    Galaxy { orch, explorer, planet }
}

#[test]
fn start_is_acknowledged_with_the_planet_id() {
    let mut g = galaxy(0, false, 0);
    assert_eq!(g.orch.send_to_planet_id(0, Command::StartPlanetAI), SendOutcome::Delivered);
    assert_eq!(g.orch.send_to_planet_id(0, Command::KillPlanet), SendOutcome::Delivered);
    assert!(g.planet.run().is_ok());
    let reply = g.orch.recv_from_planet_id(0);
    assert!(matches!(reply, Ok(Response::StartPlanetAIResult { planet_id: 0 })));
}

#[test]
fn fresh_planet_reports_five_cells_none_charged() {
    let mut g = galaxy(0, false, 0);
    g.orch.send_to_planet_id(0, Command::StartPlanetAI);
    g.orch.send_to_planet_id(0, Command::InternalStateRequest);
    g.orch.send_to_planet_id(0, Command::KillPlanet);
    g.planet.run().unwrap();
    assert!(matches!(g.orch.recv_from_planet_id(0), Ok(Response::StartPlanetAIResult { planet_id: 0 })));
    match g.orch.recv_from_planet_id(0) {
        Ok(Response::InternalStateResponse { planet_id, planet_state }) => {
            assert_eq!(planet_id, 0);
            assert_eq!(planet_state.energy_cells.len(), 5);
            assert_eq!(planet_state.energy_cells, vec![false; 5]);
            assert_eq!(planet_state.charged_cells_count, 0);
            assert!(!planet_state.has_rocket);
        }
        other => panic!("expected a state snapshot, got {:?}", other),
    }
}

#[test]
fn asteroid_without_rocket_then_kill_then_join() {
    let mut g = galaxy(0, false, 0);
    g.orch.send_to_planet_id(0, Command::StartPlanetAI);
    g.orch.send_to_planet_id(0, Command::Asteroid);
    g.orch.send_to_planet_id(0, Command::KillPlanet);
    assert!(g.planet.run().is_ok());
    assert!(matches!(g.orch.recv_from_planet_id(0), Ok(Response::StartPlanetAIResult { planet_id: 0 })));
    assert!(matches!(
        g.orch.recv_from_planet_id(0),
        Ok(Response::AsteroidAck { planet_id: 0, rocket: None })
    ));
    assert!(matches!(g.orch.recv_from_planet_id(0), Ok(Response::KillPlanetResult { planet_id: 0 })));
    assert_eq!(g.orch.take_planet_handle(0), Some(1000));
    assert!(!g.orch.has_handle(0));
}

#[test]
fn asteroid_meets_the_rocket_that_a_sunray_built() {
    let mut g = galaxy(4, true, 0);
    g.orch.send_to_planet_id(4, Command::StartPlanetAI);
    g.orch.send_to_planet_id(4, Command::Sunray);
    g.orch.send_to_planet_id(4, Command::InternalStateRequest);
    g.orch.send_to_planet_id(4, Command::Asteroid);
    g.orch.send_to_planet_id(4, Command::KillPlanet);
    g.planet.run().unwrap();
    assert!(matches!(g.orch.recv_from_planet_id(4), Ok(Response::StartPlanetAIResult { planet_id: 4 })));
    assert!(matches!(g.orch.recv_from_planet_id(4), Ok(Response::SunrayAck { planet_id: 4 })));
    match g.orch.recv_from_planet_id(4) {
        Ok(Response::InternalStateResponse { planet_state, .. }) => {
            assert!(planet_state.has_rocket);
            assert_eq!(planet_state.charged_cells_count, 0);
        }
        other => panic!("expected a state snapshot, got {:?}", other),
    }
    assert!(matches!(
        g.orch.recv_from_planet_id(4),
        Ok(Response::AsteroidAck { planet_id: 4, rocket: Some(_) })
    ));
}

#[test]
fn explorer_lands_and_asks_the_planet_directly() {
    let mut g = galaxy(0, false, 1);
    let handler = ExplorerHandler::new();
    g.orch.send_to_planet_id(0, Command::StartPlanetAI);
    g.orch.send_to_planet_id(0, Command::Sunray);
    g.orch.send_to_planet_id(
        0,
        Command::IncomingExplorerRequest { explorer_id: 7, new_sender: handler.planet_tx() },
    );
    assert_eq!(
        g.explorer.send_request(0, ExplorerRequest::available_energy_cell(7)),
        SendOutcome::Delivered
    );
    g.planet.run().unwrap();
    assert!(matches!(g.orch.recv_from_planet_id(0), Ok(Response::StartPlanetAIResult { planet_id: 0 })));
    assert!(matches!(g.orch.recv_from_planet_id(0), Ok(Response::SunrayAck { planet_id: 0 })));
    assert!(matches!(
        g.orch.recv_from_planet_id(0),
        Ok(Response::IncomingExplorerResponse { planet_id: 0, explorer_id: 7, res: Ok(()) })
    ));
    // The answer to the explorer came over the channel handed over at
    // landing, not through the registry.
    assert!(matches!(
        handler.recv_from_planet(),
        Ok(ExplorerReply::AvailableEnergyCellResponse { available_cells: 1 })
    ));
    assert!(matches!(g.orch.recv_from_planet_id(0), Ok(Response::KillPlanetResult { planet_id: 0 })));
}

#[test]
fn every_command_is_answered_by_its_paired_response() {
    let mut g = galaxy(2, false, 0);
    let handler = ExplorerHandler::new();
    let sent = vec![
        CommandKind::StartPlanetAI,
        CommandKind::Sunray,
        CommandKind::Asteroid,
        CommandKind::InternalStateRequest,
        CommandKind::IncomingExplorerRequest,
        CommandKind::OutgoingExplorerRequest,
        CommandKind::StopPlanetAI,
        CommandKind::KillPlanet,
    ];
    g.orch.send_to_planet_id(2, Command::StartPlanetAI);
    g.orch.send_to_planet_id(2, Command::Sunray);
    g.orch.send_to_planet_id(2, Command::Asteroid);
    g.orch.send_to_planet_id(2, Command::InternalStateRequest);
    g.orch.send_to_planet_id(
        2,
        Command::IncomingExplorerRequest { explorer_id: 7, new_sender: handler.planet_tx() },
    );
    g.orch.send_to_planet_id(2, Command::OutgoingExplorerRequest { explorer_id: 7 });
    g.orch.send_to_planet_id(2, Command::StopPlanetAI);
    g.orch.send_to_planet_id(2, Command::KillPlanet);
    g.planet.run().unwrap();
    for kind in sent {
        let reply = g.orch.recv_from_planet_id(2);
        match classify_reply(kind, reply) {
            Exchange::Answered(msg) => {
                assert!(msg.answers(kind));
                assert_eq!(msg.kind(), kind.expected_response());
                assert_eq!(msg.planet_id(), 2);
            }
            other => panic!("{:?} was not answered: {:?}", kind, other),
        }
    }
}

#[test]
fn responses_come_in_the_order_of_the_commands() {
    let mut g = galaxy(0, false, 0);
    g.orch.send_to_planet_id(0, Command::StartPlanetAI);
    g.orch.send_to_planet_id(0, Command::Sunray);
    g.orch.send_to_planet_id(0, Command::Asteroid);
    g.orch.send_to_planet_id(0, Command::KillPlanet);
    g.planet.run().unwrap();
    assert!(matches!(g.orch.recv_from_planet_id(0), Ok(Response::StartPlanetAIResult { .. })));
    assert!(matches!(g.orch.recv_from_planet_id(0), Ok(Response::SunrayAck { .. })));
    assert!(matches!(g.orch.recv_from_planet_id(0), Ok(Response::AsteroidAck { .. })));
    assert!(matches!(g.orch.recv_from_planet_id(0), Ok(Response::KillPlanetResult { .. })));
}

#[test]
fn unconsumed_response_is_taken_for_the_next_request() {
    let mut g = galaxy(0, false, 0);
    g.orch.send_to_planet_id(0, Command::StartPlanetAI);
    g.orch.send_to_planet_id(0, Command::InternalStateRequest);
    g.orch.send_to_planet_id(0, Command::InternalStateRequest);
    g.orch.send_to_planet_id(0, Command::KillPlanet);
    g.planet.run().unwrap();
    // The response to the start was never consumed, so the wait that
    // follows the first state request finds it: a mismatch.
    let first = classify_reply(CommandKind::InternalStateRequest, g.orch.recv_from_planet_id(0));
    assert!(matches!(first, Exchange::Mismatched(Response::StartPlanetAIResult { planet_id: 0 })));
    // From here on every wait is one response behind. The snapshot that
    // answers the first state request passes for the answer to the second.
    let second = classify_reply(CommandKind::InternalStateRequest, g.orch.recv_from_planet_id(0));
    assert!(matches!(second, Exchange::Answered(Response::InternalStateResponse { .. })));
    let third = classify_reply(CommandKind::KillPlanet, g.orch.recv_from_planet_id(0));
    assert!(matches!(third, Exchange::Mismatched(Response::InternalStateResponse { .. })));
}

#[test]
fn a_stopped_planet_answers_stopped() {
    let mut g = galaxy(0, false, 0);
    g.orch.send_to_planet_id(0, Command::InternalStateRequest);
    g.orch.send_to_planet_id(0, Command::KillPlanet);
    g.planet.run().unwrap();
    let reply = classify_reply(CommandKind::InternalStateRequest, g.orch.recv_from_planet_id(0));
    assert!(matches!(reply, Exchange::Mismatched(Response::Stopped { planet_id: 0 })));
}

#[test]
fn send_after_the_planet_is_gone_reports_a_disconnect() {
    let mut g = galaxy(0, false, 0);
    g.orch.send_to_planet_id(0, Command::StartPlanetAI);
    g.orch.send_to_planet_id(0, Command::KillPlanet);
    g.planet.run().unwrap();
    assert!(matches!(g.orch.recv_from_planet_id(0), Ok(Response::StartPlanetAIResult { .. })));
    assert!(matches!(g.orch.recv_from_planet_id(0), Ok(Response::KillPlanetResult { .. })));
    assert_eq!(g.orch.take_planet_handle(0), Some(1000));
    drop(g.planet);
    assert_eq!(g.orch.send_to_planet_id(0, Command::Sunray), SendOutcome::Disconnected);
    assert_eq!(g.orch.send_to_planet_id(0, Command::StartPlanetAI), SendOutcome::Disconnected);
    assert_eq!(g.orch.recv_from_planet_id(0).unwrap_err(), RecvFailure::Disconnected);
    assert!(matches!(g.orch.request(0, Command::InternalStateRequest), Exchange::Disconnected));
}

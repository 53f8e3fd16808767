//! The message vocabulary and the reading of replies, on values written out
//! by hand.

use galaxy_orchestrator::exchange::{
    classify_reply, reported_state, started_planet, transfer_outcome, Exchange, SendOutcome,
    TransferOutcome,
};
use galaxy_orchestrator::explorer::ExplorerHandler;
use galaxy_orchestrator::game::GameState;
use galaxy_orchestrator::protocol::{
    Command, CommandKind, Lifecycle, PlanetSnapshot, Response, ResponseKind,
};
use galaxy_orchestrator::reaction::{react, Reaction};
use galaxy_orchestrator::transport::RecvFailure;

fn snapshot(cells: Vec<bool>, charged: usize, rocket: bool) -> PlanetSnapshot {
    PlanetSnapshot { energy_cells: cells, charged_cells_count: charged, has_rocket: rocket }
}

#[test]
fn game_state_alternates() {
    assert_eq!(GameState::Settings.next(), GameState::Playing);
    assert_eq!(GameState::Playing.next(), GameState::Settings);
    assert_eq!(GameState::Settings.next().next(), GameState::Settings);
}

#[test]
fn each_command_has_its_kind() {
    let handler = ExplorerHandler::new();
    assert_eq!(Command::Sunray.kind(), CommandKind::Sunray);
    assert_eq!(Command::Asteroid.kind(), CommandKind::Asteroid);
    assert_eq!(Command::StartPlanetAI.kind(), CommandKind::StartPlanetAI);
    assert_eq!(Command::StopPlanetAI.kind(), CommandKind::StopPlanetAI);
    assert_eq!(Command::KillPlanet.kind(), CommandKind::KillPlanet);
    assert_eq!(Command::InternalStateRequest.kind(), CommandKind::InternalStateRequest);
    assert_eq!(
        Command::IncomingExplorerRequest { explorer_id: 1, new_sender: handler.planet_tx() }.kind(),
        CommandKind::IncomingExplorerRequest
    );
    assert_eq!(
        Command::OutgoingExplorerRequest { explorer_id: 1 }.kind(),
        CommandKind::OutgoingExplorerRequest
    );
}

#[test]
fn each_kind_of_command_has_its_own_response() {
    assert_eq!(CommandKind::Sunray.expected_response(), ResponseKind::SunrayAck);
    assert_eq!(CommandKind::Asteroid.expected_response(), ResponseKind::AsteroidAck);
    assert_eq!(CommandKind::StartPlanetAI.expected_response(), ResponseKind::StartPlanetAIResult);
    assert_eq!(CommandKind::StopPlanetAI.expected_response(), ResponseKind::StopPlanetAIResult);
    assert_eq!(CommandKind::KillPlanet.expected_response(), ResponseKind::KillPlanetResult);
    assert_eq!(
        CommandKind::InternalStateRequest.expected_response(),
        ResponseKind::InternalStateResponse
    );
    assert_eq!(
        CommandKind::IncomingExplorerRequest.expected_response(),
        ResponseKind::IncomingExplorerResponse
    );
    assert_eq!(
        CommandKind::OutgoingExplorerRequest.expected_response(),
        ResponseKind::OutgoingExplorerResponse
    );
}

#[test]
fn each_response_has_its_kind_and_its_planet() {
    let all = vec![
        (Response::SunrayAck { planet_id: 1 }, ResponseKind::SunrayAck, 1),
        (Response::AsteroidAck { planet_id: 2, rocket: None }, ResponseKind::AsteroidAck, 2),
        (Response::StartPlanetAIResult { planet_id: 3 }, ResponseKind::StartPlanetAIResult, 3),
        (Response::StopPlanetAIResult { planet_id: 4 }, ResponseKind::StopPlanetAIResult, 4),
        (Response::KillPlanetResult { planet_id: 5 }, ResponseKind::KillPlanetResult, 5),
        (
            Response::InternalStateResponse { planet_id: 6, planet_state: snapshot(vec![], 0, false) },
            ResponseKind::InternalStateResponse,
            6,
        ),
        (
            Response::IncomingExplorerResponse { planet_id: 7, explorer_id: 70, res: Ok(()) },
            ResponseKind::IncomingExplorerResponse,
            7,
        ),
        (
            Response::OutgoingExplorerResponse { planet_id: 8, explorer_id: 80, res: Ok(()) },
            ResponseKind::OutgoingExplorerResponse,
            8,
        ),
        (Response::Stopped { planet_id: 9 }, ResponseKind::Stopped, 9),
    ];
    for (msg, kind, id) in all {
        assert_eq!(msg.kind(), kind);
        assert_eq!(msg.planet_id(), id);
    }
}

#[test]
fn a_response_answers_one_kind_of_command_only() {
    let kinds = vec![
        CommandKind::Sunray,
        CommandKind::Asteroid,
        CommandKind::StartPlanetAI,
        CommandKind::StopPlanetAI,
        CommandKind::KillPlanet,
        CommandKind::InternalStateRequest,
        CommandKind::IncomingExplorerRequest,
        CommandKind::OutgoingExplorerRequest,
    ];
    for a in &kinds {
        for b in &kinds {
            assert_eq!(a.expected_response() == b.expected_response(), a == b);
        }
        assert_ne!(a.expected_response(), ResponseKind::Stopped);
        assert!(!Response::Stopped { planet_id: 0 }.answers(*a));
    }
    assert!(Response::SunrayAck { planet_id: 0 }.answers(CommandKind::Sunray));
    assert!(!Response::SunrayAck { planet_id: 0 }.answers(CommandKind::Asteroid));
}

#[test]
fn lifecycle_steps_are_the_three_lifecycle_commands() {
    assert!(matches!(Lifecycle::Start.command(), Command::StartPlanetAI));
    assert!(matches!(Lifecycle::Stop.command(), Command::StopPlanetAI));
    assert!(matches!(Lifecycle::Kill.command(), Command::KillPlanet));
}

#[test]
fn send_outcome_follows_the_channel() {
    assert_eq!(SendOutcome::from_sent::<Command>(Ok(())), SendOutcome::Delivered);
    assert_eq!(SendOutcome::from_sent(Err(Command::Sunray)), SendOutcome::Disconnected);
}

#[test]
fn a_reply_is_an_answer_a_mismatch_or_a_failure() {
    assert!(matches!(
        classify_reply(CommandKind::KillPlanet, Ok(Response::KillPlanetResult { planet_id: 3 })),
        Exchange::Answered(Response::KillPlanetResult { planet_id: 3 })
    ));
    assert!(matches!(
        classify_reply(CommandKind::KillPlanet, Ok(Response::SunrayAck { planet_id: 3 })),
        Exchange::Mismatched(Response::SunrayAck { planet_id: 3 })
    ));
    assert!(matches!(
        classify_reply(CommandKind::KillPlanet, Err(RecvFailure::Timeout)),
        Exchange::TimedOut
    ));
    assert!(matches!(
        classify_reply(CommandKind::KillPlanet, Err(RecvFailure::Disconnected)),
        Exchange::Disconnected
    ));
}

#[test]
fn started_planet_reads_only_the_answer_to_a_start() {
    assert_eq!(
        started_planet(Exchange::Answered(Response::StartPlanetAIResult { planet_id: 5 })),
        Some(5)
    );
    assert_eq!(started_planet(Exchange::Mismatched(Response::StartPlanetAIResult { planet_id: 5 })), None);
    assert_eq!(started_planet(Exchange::Answered(Response::SunrayAck { planet_id: 5 })), None);
    assert_eq!(started_planet(Exchange::TimedOut), None);
    assert_eq!(started_planet(Exchange::Disconnected), None);
}

#[test]
fn reported_state_reads_only_the_answer_to_a_state_request() {
    let state = reported_state(Exchange::Answered(Response::InternalStateResponse {
        planet_id: 1,
        planet_state: snapshot(vec![true, false], 1, true),
    }))
    .unwrap();
    assert_eq!(state.energy_cells, vec![true, false]);
    assert_eq!(state.charged_cells_count, 1);
    assert!(state.has_rocket);
    assert!(reported_state(Exchange::Mismatched(Response::InternalStateResponse {
        planet_id: 1,
        planet_state: snapshot(vec![true], 1, false),
    }))
    .is_none());
    assert!(reported_state(Exchange::Answered(Response::SunrayAck { planet_id: 1 })).is_none());
    assert!(reported_state(Exchange::TimedOut).is_none());
    assert!(reported_state(Exchange::Disconnected).is_none());
}

#[test]
fn transfer_outcome_covers_every_exchange() {
    assert!(matches!(
        transfer_outcome(Exchange::Answered(Response::IncomingExplorerResponse {
            planet_id: 1,
            explorer_id: 7,
            res: Ok(())
        })),
        TransferOutcome::Accepted { planet_id: 1 }
    ));
    assert!(matches!(
        transfer_outcome(Exchange::Answered(Response::OutgoingExplorerResponse {
            planet_id: 2,
            explorer_id: 7,
            res: Ok(())
        })),
        TransferOutcome::Accepted { planet_id: 2 }
    ));
    match transfer_outcome(Exchange::Answered(Response::IncomingExplorerResponse {
        planet_id: 3,
        explorer_id: 7,
        res: Err("planet destroyed".to_string()),
    })) {
        TransferOutcome::Refused { planet_id, reason } => {
            assert_eq!(planet_id, 3);
            assert_eq!(reason, "planet destroyed");
        }
        other => panic!("unexpected {:?}", other),
    }
    match transfer_outcome(Exchange::Answered(Response::OutgoingExplorerResponse {
        planet_id: 4,
        explorer_id: 7,
        res: Err("already gone".to_string()),
    })) {
        TransferOutcome::Refused { planet_id, reason } => {
            assert_eq!(planet_id, 4);
            assert_eq!(reason, "already gone");
        }
        other => panic!("unexpected {:?}", other),
    }
    assert!(matches!(
        transfer_outcome(Exchange::Mismatched(Response::SunrayAck { planet_id: 1 })),
        TransferOutcome::WrongMessage
    ));
    assert!(matches!(
        transfer_outcome(Exchange::Answered(Response::SunrayAck { planet_id: 1 })),
        TransferOutcome::WrongMessage
    ));
    assert!(matches!(transfer_outcome(Exchange::TimedOut), TransferOutcome::TimedOut));
    assert!(matches!(transfer_outcome(Exchange::Disconnected), TransferOutcome::Disconnected));
}

#[test]
fn reactions_follow_the_message() {
    assert_eq!(react(Response::SunrayAck { planet_id: 1 }), Reaction::RequestState { planet_id: 1 });
    assert_eq!(
        react(Response::AsteroidAck { planet_id: 2, rocket: None }),
        Reaction::Destroy { planet_id: 2 }
    );
    assert_eq!(react(Response::KillPlanetResult { planet_id: 3 }), Reaction::Killed { planet_id: 3 });
    assert_eq!(
        react(Response::InternalStateResponse {
            planet_id: 4,
            planet_state: snapshot(vec![true, true, true, false, false], 3, true),
        }),
        Reaction::ShowState { planet_id: 4, num_cell: 5, charged_cell: 3, has_rocket: true }
    );
    assert_eq!(react(Response::StartPlanetAIResult { planet_id: 5 }), Reaction::Nothing);
    assert_eq!(react(Response::StopPlanetAIResult { planet_id: 5 }), Reaction::Nothing);
    assert_eq!(react(Response::Stopped { planet_id: 5 }), Reaction::Nothing);
    assert_eq!(
        react(Response::IncomingExplorerResponse { planet_id: 5, explorer_id: 1, res: Ok(()) }),
        Reaction::Nothing
    );
    assert_eq!(
        react(Response::OutgoingExplorerResponse { planet_id: 5, explorer_id: 1, res: Ok(()) }),
        Reaction::Nothing
    );
}

#[test]
fn reactions_name_their_follow_up() {
    assert!(matches!(
        Reaction::RequestState { planet_id: 6 }.follow_up(),
        Some((6, Command::InternalStateRequest))
    ));
    assert!(matches!(Reaction::Destroy { planet_id: 7 }.follow_up(), Some((7, Command::KillPlanet))));
    assert!(Reaction::Killed { planet_id: 8 }.follow_up().is_none());
    assert!(Reaction::Nothing.follow_up().is_none());
    assert!(Reaction::ShowState { planet_id: 9, num_cell: 5, charged_cell: 0, has_rocket: false }
        .follow_up()
        .is_none());
}

#[test]
fn the_commands_of_a_transfer_carry_the_explorer() {
    let handler = ExplorerHandler::new();
    match Command::incoming_explorer(7, handler.planet_tx()) {
        Command::IncomingExplorerRequest { explorer_id, new_sender } => {
            assert_eq!(explorer_id, 7);
            assert!(new_sender.same_channel(&handler.planet_tx()));
        }
        other => panic!("unexpected {:?}", other),
    }
    assert!(matches!(
        Command::outgoing_explorer(8),
        Command::OutgoingExplorerRequest { explorer_id: 8 }
    ));
}

#[test]
fn only_an_acceptance_is_accepted() {
    assert!(TransferOutcome::Accepted { planet_id: 1 }.is_accepted());
    assert!(!TransferOutcome::Refused { planet_id: 1, reason: "full".to_string() }.is_accepted());
    assert!(!TransferOutcome::WrongMessage.is_accepted());
    assert!(!TransferOutcome::TimedOut.is_accepted());
    assert!(!TransferOutcome::Disconnected.is_accepted());
}

#[test]
fn only_a_confirmed_kill_names_a_killed_planet() {
    assert_eq!(Reaction::Killed { planet_id: 4 }.killed(), Some(4));
    assert_eq!(Reaction::Destroy { planet_id: 4 }.killed(), None);
    assert_eq!(Reaction::RequestState { planet_id: 4 }.killed(), None);
    assert_eq!(Reaction::Nothing.killed(), None);
    assert_eq!(
        Reaction::ShowState { planet_id: 4, num_cell: 1, charged_cell: 0, has_rocket: false }.killed(),
        None
    );
}

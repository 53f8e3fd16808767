//! Bringing a new planet into the galaxy: the channels that tie it to the
//! control thread and to the explorer.

use vstd::prelude::*;
use crate::explorer::ExplorerHandler;
use crate::orchestrator::Orchestrator;
use crate::protocol::ActorId;
use crate::transport::open_channel;
use common_game::protocols::orchestrator_planet::{OrchestratorToPlanet, PlanetToOrchestrator};
use common_game::protocols::planet_explorer::ExplorerToPlanet;
use crossbeam_channel::{Receiver, Sender};

verus! {

/// The planet's ends of the three channels that tie it to the control thread
/// and to the explorer: what a new planet actor is built on.
#[derive(Debug)]
pub struct PlanetLinks {
    /// Where the planet reads the commands of the control thread.
    pub from_orchestrator: Receiver<OrchestratorToPlanet>,
    /// Where the planet writes its responses to the control thread.
    pub to_orchestrator: Sender<PlanetToOrchestrator>,
    /// Where the planet reads the questions of explorers.
    pub from_explorers: Receiver<ExplorerToPlanet>,
}

/// Opens the channels for a new planet under `id`: the control thread's
/// halves go into the registry, the explorer's sender into its handler, and
/// the planet's ends come back for the planet actor to be built on.
pub fn connect_planet<H>(
    orch: &mut Orchestrator<H>,
    explorer: &mut ExplorerHandler,
    id: ActorId,
) -> (links: PlanetLinks)
    requires
        old(orch).wf(),
        !old(orch).senders().contains_key(id),
        !old(orch).receivers().contains_key(id),
    ensures
        final(orch).wf(),
        final(orch).registered(id),
        final(orch).senders().dom() == old(orch).senders().dom().insert(id),
        final(orch).receivers().dom() == old(orch).receivers().dom().insert(id),
        forall|k: ActorId|
            k != id && old(orch).senders().contains_key(k) ==> final(orch).senders()[k] == old(
                orch,
            ).senders()[k],
        forall|k: ActorId|
            k != id && old(orch).receivers().contains_key(k) ==> final(orch).receivers()[k] == old(
                orch,
            ).receivers()[k],
        final(orch).handles() == old(orch).handles(),
        final(explorer).planets().dom() == old(explorer).planets().dom().insert(id),
        forall|k: ActorId|
            k != id && old(explorer).planets().contains_key(k) ==> final(explorer).planets()[k]
                == old(explorer).planets()[k],
        final(explorer).spec_id() == old(explorer).spec_id(),
        final(explorer).reply_sender() == old(explorer).reply_sender(),
{
    let (orch_tx, orch_rx) = open_channel();
    let (planet_tx, planet_rx) = open_channel();
    let (expl_tx, expl_rx) = open_channel();
    orch.register(id, orch_tx, planet_rx);
    explorer.add_ep_tx(id, expl_tx);
    PlanetLinks { from_orchestrator: orch_rx, to_orchestrator: planet_tx, from_explorers: expl_rx }
}

} // verus!

//! What an explorer does at a planet: land, look around, extract a
//! resource, take off. Landing and leaving go through the registry; the
//! questions in between go over the explorer's side channel.

use vstd::prelude::*;
use crate::exchange::{transfer_outcome, TransferOutcome};
use crate::explorer::{ExplorerHandler, Landed, Roaming};
use crate::orchestrator::Orchestrator;
use crate::protocol::{ActorId, PlanetSnapshot};
use common_game::components::resource::{BasicResource, BasicResourceType};

verus! {

/// What an attempt to extract a resource brought.
#[derive(Debug)]
pub struct Extraction {
    /// The resource that the planet offered, if it offered one.
    pub resource: Option<BasicResourceType>,
    /// The resource that the planet made, if it made one.
    pub generated: Option<BasicResource>,
    /// The planet's state after the attempt, if one was asked for and
    /// reported.
    pub state: Option<PlanetSnapshot>,
}

/// Asks planet `planet` to take the explorer in: announces the explorer with
/// its reply channel and waits once for the planet's word. The explorer has
/// landed exactly when the planet accepted; after a refusal, a wrong message,
/// a timeout or a disconnect it is roaming as before.
pub fn land_on_planet<H>(
    explorer: &ExplorerHandler,
    orch: &Orchestrator<H>,
    roaming: Roaming,
    planet: ActorId,
) -> (landing: (Result<Landed, Roaming>, TransferOutcome))
    requires
        orch.registered(planet),
    ensures
        landing.0 is Ok <==> landing.1 is Accepted,
        landing.0 matches Ok(landed) ==> landed.planet == planet,
        landing.0 matches Err(still) ==> still == roaming,
{
    let outcome = transfer_outcome(orch.request(planet, explorer.landing_command()));
    let after = roaming.land_if(planet, outcome.is_accepted());
    (after, outcome)
}

/// Asks the planet that the explorer stands on to let it go: tells the
/// planet and waits once for its word. The explorer is roaming exactly when
/// the planet accepted; after a refusal, a wrong message, a timeout or a
/// disconnect it stands where it stood.
pub fn take_off_from_planet<H>(
    explorer: &ExplorerHandler,
    orch: &Orchestrator<H>,
    landed: Landed,
) -> (leaving: (Result<Roaming, Landed>, TransferOutcome))
    requires
        orch.registered(landed.planet),
    ensures
        leaving.0 is Ok <==> leaving.1 is Accepted,
        leaving.0 matches Err(still) ==> still == landed,
{
    let outcome = transfer_outcome(orch.request(landed.planet, explorer.leaving_command()));
    let after = landed.take_off_if(outcome.is_accepted());
    (after, outcome)
}

/// Extracts a resource on the planet the explorer stands on: asks what the
/// planet can make, asks it to make the first resource it names, and then
/// asks the planet, through the registry, for its state. Where the planet
/// names no resource the attempt has failed: nothing more is asked, and the
/// caller goes on with the state it had.
pub fn extract_resource<H>(
    explorer: &ExplorerHandler,
    orch: &Orchestrator<H>,
    landed: Landed,
) -> (extraction: Extraction)
    requires
        explorer.planets().contains_key(landed.planet),
        orch.registered(landed.planet),
    ensures
        extraction.resource is None ==> extraction.generated is None,
        extraction.resource is None ==> extraction.state is None,
{
    match explorer.ask_supported_resource(landed.planet) {
        Some(kind) => {
            let generated = explorer.ask_generate(landed.planet, kind);
            let state = orch.query_state(landed.planet);
            Extraction { resource: Some(kind), generated, state }
        },
        None => Extraction { resource: None, generated: None, state: None },
    }
}

} // verus!

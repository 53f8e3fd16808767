//! The explorer's side of the game: where it is, and the side channel on
//! which it talks to the planet it has landed on without going through the
//! registry.

use vstd::prelude::*;
use crate::exchange::SendOutcome;
use crate::protocol::{ActorId, Command};
use crate::transport::{
    channel_clone_sender, channel_recv_timeout, channel_send, open_channel, RecvFailure,
};
use crate::wire::{decode_reply, encode_request};
use common_game::components::resource::{
    BasicResource, BasicResourceType, ComplexResource, ComplexResourceRequest,
    ComplexResourceType, GenericResource,
};
use common_game::protocols::planet_explorer::{ExplorerToPlanet, PlanetToExplorer};
use crossbeam_channel::{Receiver, Sender};
use std::collections::HashMap;

verus! {

broadcast use vstd::std_specs::hash::group_hash_axioms;

/// The name of a basic resource. Opaque: it is passed on, never read.
#[verifier::external_type_specification]
#[verifier::external_body]
pub struct ExBasicResourceType(BasicResourceType);

/// A basic resource that a planet made. Opaque.
#[verifier::external_type_specification]
#[verifier::external_body]
pub struct ExBasicResource(BasicResource);

/// The name of a complex resource. Opaque.
#[verifier::external_type_specification]
#[verifier::external_body]
pub struct ExComplexResourceType(ComplexResourceType);

/// A complex resource that a planet made. Opaque.
#[verifier::external_type_specification]
#[verifier::external_body]
pub struct ExComplexResource(ComplexResource);

/// The two resources to combine and what to make of them. Opaque.
#[verifier::external_type_specification]
#[verifier::external_body]
pub struct ExComplexResourceRequest(ComplexResourceRequest);

/// A resource of either sort. Opaque.
#[verifier::external_type_specification]
#[verifier::external_body]
pub struct ExGenericResource(GenericResource);

/// How long one wait for a planet's reply to the explorer lasts, in
/// milliseconds.
pub const REPLY_BUDGET_MILLIS: u64 = 100;

/// The state of an explorer that is travelling between planets.
#[derive(Clone, Copy, Debug, PartialEq, Eq, Structural)]
pub struct Roaming;

/// The state of an explorer that stands on a planet.
#[derive(Clone, Copy, Debug, PartialEq, Eq, Structural)]
pub struct Landed {
    pub planet: ActorId,
}

impl Roaming {
    /// The explorer sets down on `planet`.
    pub fn land_on(self, planet: ActorId) -> (landed: Landed)
        ensures
            landed.planet == planet,
    {
        Landed { planet }
    }

    /// The explorer after it asked to land on `planet`: landed there if the
    /// planet accepted, else roaming as before.
    pub fn land_if(self, planet: ActorId, accepted: bool) -> (after: Result<Landed, Roaming>)
        ensures
            after == if accepted {
                Ok::<Landed, Roaming>(Landed { planet })
            } else {
                Err::<Landed, Roaming>(self)
            },
    {
        if accepted {
            Ok(self.land_on(planet))
        } else {
            Err(self)
        }
    }
}

impl Landed {
    /// The explorer leaves its planet.
    pub fn take_off(self) -> (roaming: Roaming) {
        Roaming
    }

    /// The explorer after it asked to leave its planet: roaming if the
    /// planet accepted, else landed where it was.
    pub fn take_off_if(self, accepted: bool) -> (after: Result<Roaming, Landed>)
        ensures
            after == if accepted {
                Ok::<Roaming, Landed>(Roaming)
            } else {
                Err::<Roaming, Landed>(self)
            },
    {
        if accepted {
            Ok(self.take_off())
        } else {
            Err(self)
        }
    }
}

/// A question of an explorer to the planet it stands on.
#[derive(Debug)]
pub enum ExplorerRequest {
    /// Which basic resources can the planet make?
    SupportedResourceRequest { explorer_id: ActorId },
    /// Which complex resources can the planet make?
    SupportedCombinationRequest { explorer_id: ActorId },
    /// Make one basic resource.
    GenerateResourceRequest { explorer_id: ActorId, resource: BasicResourceType },
    /// Make one complex resource out of the two that come with the request.
    CombineResourceRequest { explorer_id: ActorId, msg: ComplexResourceRequest },
    /// How many charged cells does the planet have?
    AvailableEnergyCellRequest { explorer_id: ActorId },
}

impl ExplorerRequest {
    /// The question of explorer `explorer_id` for the basic resources that
    /// a planet can make.
    pub fn supported_resource(explorer_id: ActorId) -> (request: ExplorerRequest)
        ensures
            request == (ExplorerRequest::SupportedResourceRequest { explorer_id }),
    {
        ExplorerRequest::SupportedResourceRequest { explorer_id }
    }

    /// The request of explorer `explorer_id` for one `resource`.
    pub fn generate_resource(explorer_id: ActorId, resource: BasicResourceType) -> (request:
        ExplorerRequest)
        ensures
            request == (ExplorerRequest::GenerateResourceRequest { explorer_id, resource }),
    {
        ExplorerRequest::GenerateResourceRequest { explorer_id, resource }
    }

    /// The question of explorer `explorer_id` for the number of charged
    /// cells of a planet.
    pub fn available_energy_cell(explorer_id: ActorId) -> (request: ExplorerRequest)
        ensures
            request == (ExplorerRequest::AvailableEnergyCellRequest { explorer_id }),
    {
        ExplorerRequest::AvailableEnergyCellRequest { explorer_id }
    }
}

/// A planet's answer to an explorer. The two sets of the wire form are held
/// as lists: of a hash set over a type whose hashing is not specified,
/// nothing could be said of its elements.
#[derive(Debug)]
pub enum ExplorerReply {
    /// The basic resources that the planet can make, in no particular order.
    SupportedResourceResponse { resource_list: Vec<BasicResourceType> },
    /// The complex resources that the planet can make, in no particular
    /// order.
    SupportedCombinationResponse { combination_list: Vec<ComplexResourceType> },
    /// The basic resource that the planet made, if it made one.
    GenerateResourceResponse { resource: Option<BasicResource> },
    /// The complex resource that the planet made, or why it made none,
    /// with the two resources handed back.
    CombineResourceResponse {
        complex_response: Result<ComplexResource, (String, GenericResource, GenericResource)>,
    },
    /// The number of charged cells of the planet.
    AvailableEnergyCellResponse { available_cells: u32 },
    /// The answer of a stopped planet to any question.
    Stopped,
}

/// The number of charged cells that a reply reports, and 0 for anything
/// else.
pub open spec fn spec_available_cells(reply: Result<ExplorerReply, RecvFailure>) -> u32 {
    match reply {
        Ok(ExplorerReply::AvailableEnergyCellResponse { available_cells }) => available_cells,
        _ => 0,
    }
}

/// Reads the reply to an `AvailableEnergyCellRequest`: the count it
/// reports, or 0 when the wait failed or another message came.
pub fn available_cells(reply: Result<ExplorerReply, RecvFailure>) -> (cells: u32)
    ensures
        cells == spec_available_cells(reply),
{
    match reply {
        Ok(ExplorerReply::AvailableEnergyCellResponse { available_cells }) => available_cells,
        _ => 0,
    }
}

/// The first resource type that a reply lists, if it lists any.
pub open spec fn spec_first_supported(reply: Result<ExplorerReply, RecvFailure>) -> Option<
    BasicResourceType,
> {
    match reply {
        Ok(ExplorerReply::SupportedResourceResponse { resource_list }) => if resource_list@.len()
            > 0 {
            Some(resource_list@[0])
        } else {
            None
        },
        _ => None,
    }
}

/// Reads the reply to a `SupportedResourceRequest`: the first resource type
/// that the planet lists, or `None` when it lists none, the wait failed or
/// another message came.
pub fn first_supported(reply: Result<ExplorerReply, RecvFailure>) -> (resource: Option<
    BasicResourceType,
>)
    ensures
        resource == spec_first_supported(reply),
{
    match reply {
        Ok(ExplorerReply::SupportedResourceResponse { mut resource_list }) => {
            if resource_list.len() > 0 {
                Some(resource_list.swap_remove(0))
            } else {
                None
            }
        },
        _ => None,
    }
}

/// The resource that a reply carries, if it carries one.
pub open spec fn spec_generated(reply: Result<ExplorerReply, RecvFailure>) -> Option<
    BasicResource,
> {
    match reply {
        Ok(ExplorerReply::GenerateResourceResponse { resource }) => resource,
        _ => None,
    }
}

/// Reads the reply to a `GenerateResourceRequest`: the resource that the
/// planet made, or `None` when it made none, the wait failed or another
/// message came.
pub fn generated(reply: Result<ExplorerReply, RecvFailure>) -> (resource: Option<BasicResource>)
    ensures
        resource == spec_generated(reply),
{
    match reply {
        Ok(ExplorerReply::GenerateResourceResponse { resource }) => resource,
        _ => None,
    }
}

/// The explorer's end of the side channel: one channel on which every planet
/// answers, and for each planet the sender of the channel it listens on.
pub struct ExplorerHandler {
    planet_tx: Sender<PlanetToExplorer>,
    planet_rx: Receiver<PlanetToExplorer>,
    expl_tx: HashMap<ActorId, Sender<ExplorerToPlanet>>,
    id: ActorId,
}

impl ExplorerHandler {
    /// The id of the explorer.
    pub closed spec fn spec_id(&self) -> ActorId {
        self.id
    }

    /// The senders towards the planets, by planet id.
    pub closed spec fn planets(&self) -> Map<ActorId, Sender<ExplorerToPlanet>> {
        self.expl_tx@
    }

    /// The sending half of the explorer's own reply channel: what arrives
    /// through it is what [`ExplorerHandler::recv_from_planet`] reads.
    pub closed spec fn reply_sender(&self) -> Sender<PlanetToExplorer> {
        self.planet_tx
    }

    /// The handler of explorer 0, with a fresh reply channel and no planet
    /// to talk to yet.
    pub fn new() -> (handler: ExplorerHandler)
        ensures
            handler.spec_id() == 0,
            handler.planets() == Map::<ActorId, Sender<ExplorerToPlanet>>::empty(),
    {
        let (planet_tx, planet_rx) = open_channel();
        ExplorerHandler { planet_tx, planet_rx, expl_tx: HashMap::new(), id: 0 }
    }

    /// The id of the explorer.
    pub fn id(&self) -> (id: ActorId)
        ensures
            id == self.spec_id(),
    {
        self.id
    }

    /// A sender on the explorer's reply channel, to hand to a planet when
    /// landing.
    pub fn planet_tx(&self) -> (tx: Sender<PlanetToExplorer>)
        ensures
            tx == self.reply_sender(),
    {
        channel_clone_sender(&self.planet_tx)
    }

    /// Stores the sender towards planet `id`, in place of any stored for
    /// `id` before.
    pub fn add_ep_tx(&mut self, id: ActorId, tx: Sender<ExplorerToPlanet>)
        ensures
            final(self).planets() == old(self).planets().insert(id, tx),
            final(self).spec_id() == old(self).spec_id(),
            final(self).reply_sender() == old(self).reply_sender(),
    {
        self.expl_tx.insert(id, tx);
    }

    /// Whether a sender towards planet `id` is stored.
    pub fn knows_planet(&self, id: ActorId) -> (b: bool)
        ensures
            b == self.planets().contains_key(id),
    {
        self.expl_tx.contains_key(&id)
    }

    /// Waits for the next reply of any planet, for the usual budget of
    /// [`REPLY_BUDGET_MILLIS`].
    pub fn recv_from_planet(&self) -> (reply: Result<ExplorerReply, RecvFailure>) {
        match channel_recv_timeout(&self.planet_rx, REPLY_BUDGET_MILLIS) {
            Ok(wire) => Ok(decode_reply(wire)),
            Err(failure) => Err(failure),
        }
    }

    /// Hands `msg` to the channel that planet `id` listens on. Never blocks.
    /// Where the planet has dropped its end, the message comes back unsent.
    pub fn send_to_planet_id(&self, id: ActorId, msg: ExplorerToPlanet) -> (sent: Result<
        (),
        ExplorerToPlanet,
    >)
        requires
            self.planets().contains_key(id),
        ensures
            sent matches Err(unsent) ==> unsent == msg,
    {
        match self.expl_tx.get(&id) {
            Some(tx) => channel_send(tx, msg),
            None => {
                proof {
                    assert(false);
                }
                Err(msg)
            },
        }
    }

    /// Sends `request` to planet `id` in its wire form and says what became
    /// of it.
    pub fn send_request(&self, id: ActorId, request: ExplorerRequest) -> (out: SendOutcome)
        requires
            self.planets().contains_key(id),
    {
        SendOutcome::from_sent(self.send_to_planet_id(id, encode_request(request)))
    }

    /// The command that announces this explorer to a planet: it carries the
    /// explorer's id and a sender on its reply channel.
    pub fn landing_command(&self) -> (cmd: Command)
        ensures
            cmd == (Command::IncomingExplorerRequest {
                explorer_id: self.spec_id(),
                new_sender: self.reply_sender(),
            }),
    {
        Command::incoming_explorer(self.id, self.planet_tx())
    }

    /// The command that tells a planet that this explorer leaves.
    pub fn leaving_command(&self) -> (cmd: Command)
        ensures
            cmd == (Command::OutgoingExplorerRequest { explorer_id: self.spec_id() }),
    {
        Command::outgoing_explorer(self.id)
    }

    /// Asks planet `id` how many charged cells it has. Gives 0 when no
    /// count came back.
    pub fn ask_available_cells(&self, id: ActorId) -> (cells: u32)
        requires
            self.planets().contains_key(id),
    {
        let _ = self.send_request(id, ExplorerRequest::available_energy_cell(self.id));
        available_cells(self.recv_from_planet())
    }

    /// Asks planet `id` which basic resources it can make, and gives the
    /// first it names.
    pub fn ask_supported_resource(&self, id: ActorId) -> (resource: Option<BasicResourceType>)
        requires
            self.planets().contains_key(id),
    {
        let _ = self.send_request(id, ExplorerRequest::supported_resource(self.id));
        first_supported(self.recv_from_planet())
    }

    /// Asks planet `id` to make one `resource`.
    pub fn ask_generate(&self, id: ActorId, resource: BasicResourceType) -> (made: Option<
        BasicResource,
    >)
        requires
            self.planets().contains_key(id),
    {
        let _ = self.send_request(id, ExplorerRequest::generate_resource(self.id, resource));
        generated(self.recv_from_planet())
    }
}

} // verus!

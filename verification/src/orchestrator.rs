//! The registry of live planet actors: for each id the sending half of its
//! command channel, the receiving half of its response channel and the handle
//! of its thread.
//!
//! The registry is owned by the control thread alone. `H` is the type of a
//! thread handle; the registry stores and returns handles and never looks
//! inside one.

use vstd::prelude::*;
use crate::exchange::{
    classify_reply, outcome_of, reported_state, transfer_outcome, Exchange, SendOutcome,
    TransferOutcome,
};
use crate::ids::{ascending, IdList};
use crate::protocol::{ActorId, Command, CommandKind, Lifecycle, PlanetSnapshot, Response};
use crate::reaction::{react, reaction_to, Reaction};
use crate::transport::{channel_recv_timeout, channel_send, channel_try_recv, RecvFailure};
use crate::wire::{decode_response, encode_command};
use common_game::protocols::orchestrator_planet::{OrchestratorToPlanet, PlanetToOrchestrator};
use common_game::protocols::planet_explorer::PlanetToExplorer;
use crossbeam_channel::{Receiver, Sender};
use std::collections::HashMap;

verus! {

broadcast use vstd::std_specs::hash::group_hash_axioms;

/// How long one wait for a planet's response lasts, in milliseconds.
pub const RESPONSE_BUDGET_MILLIS: u64 = 100;

/// One message that a sweep over the response channels found, and what was
/// done about it.
#[derive(Clone, Copy, Debug)]
pub struct Notice {
    /// The planet on whose channel the message lay.
    pub source: ActorId,
    /// What the message calls for.
    pub reaction: Reaction,
    /// The outcome of the command that the reaction includes, where it
    /// includes one and its planet has a sender.
    pub follow_up: Option<SendOutcome>,
}

/// The handle of an actor's thread, as far as the registry uses it. The
/// registry makes no assumption about what an implementation answers.
pub trait ActorHandle: Sized {
    /// Whether the thread has ended and only waits to be joined.
    fn is_finished(&self) -> bool;

    /// Waits until the thread has ended. `Ok` when the actor returned,
    /// `Err` with a word on what happened when it panicked.
    fn join(self) -> Result<(), String>;
}

/// How the joining of an actor ended.
#[derive(Debug)]
pub enum JoinOutcome {
    /// No handle was stored for the id: the actor was joined before, or
    /// never had a thread.
    NotStored,
    /// The actor's thread was joined and had returned.
    Returned,
    /// The actor's thread was joined and had panicked. The panic stays
    /// with that thread; this is the word its handle had on it.
    Panicked(String),
}

/// The planets whose kill one of the notices in `done` confirms.
pub open spec fn killed_in(done: Seq<(Notice, Option<JoinOutcome>)>) -> Set<ActorId> {
    Set::new(
        |p: ActorId|
            exists|k: int|
                0 <= k < done.len() && (#[trigger] done[k]).0.reaction.spec_killed() == Some(p),
    )
}

/// How the destruction of a planet went.
#[derive(Debug)]
pub struct Destruction {
    /// What the planet said to the kill.
    pub kill: Exchange,
    /// How the joining of its thread ended, where the planet confirmed the
    /// kill; `None` where it did not, and nothing was joined.
    pub joined: Option<JoinOutcome>,
}

/// Where an actor stands in its life, as far as the registry can tell.
#[derive(Clone, Copy, Debug, PartialEq, Eq, Structural)]
pub enum ActorPhase {
    /// Nothing is stored for the id.
    Unknown,
    /// A thread handle is stored and the thread is still running.
    Live,
    /// A thread handle is stored and the thread has ended: it waits to be
    /// joined.
    PendingJoin,
    /// No thread handle is stored, but a channel half still is: the actor
    /// has been joined, or has not been given a thread yet.
    Retired,
}

/// The directory of planet actors and the owner of the control thread's
/// channel halves.
pub struct Orchestrator<H> {
    orch_tx: HashMap<ActorId, Sender<OrchestratorToPlanet>>,
    planet_rx: HashMap<ActorId, Receiver<PlanetToOrchestrator>>,
    planet_handle: HashMap<ActorId, H>,
    tx_ids: IdList,
    rx_ids: IdList,
}

impl<H> Orchestrator<H> {
    /// The command senders, by planet id.
    pub closed spec fn senders(&self) -> Map<ActorId, Sender<OrchestratorToPlanet>> {
        self.orch_tx@
    }

    /// The response receivers, by planet id.
    pub closed spec fn receivers(&self) -> Map<ActorId, Receiver<PlanetToOrchestrator>> {
        self.planet_rx@
    }

    /// The thread handles that have not been taken for joining, by planet id.
    pub closed spec fn handles(&self) -> Map<ActorId, H> {
        self.planet_handle@
    }

    /// The ids that have a command sender, ascending.
    pub closed spec fn sender_ids(&self) -> Seq<ActorId> {
        self.tx_ids@
    }

    /// The ids that have a response receiver, ascending.
    pub closed spec fn receiver_ids(&self) -> Seq<ActorId> {
        self.rx_ids@
    }

    /// The two id lists are ascending and hold exactly the keys of the two
    /// channel maps.
    pub open spec fn wf(&self) -> bool {
        &&& ascending(self.sender_ids())
        &&& ascending(self.receiver_ids())
        &&& self.sender_ids().to_set() == self.senders().dom()
        &&& self.receiver_ids().to_set() == self.receivers().dom()
    }

    /// `id` can be sent to and received from.
    pub open spec fn registered(&self, id: ActorId) -> bool {
        self.senders().contains_key(id) && self.receivers().contains_key(id)
    }

    /// `self` is what `before` becomes when `notice` is settled: the planet
    /// of a confirmed kill is gone with its handle and both channel halves,
    /// and everything else is as it was.
    pub open spec fn settled(&self, before: &Self, notice: &Notice) -> bool {
        match notice.reaction.spec_killed() {
            Some(planet) => {
                &&& !self.known(planet)
                &&& self.handles() == before.handles().remove(planet)
                &&& self.senders() == before.senders().remove(planet)
                &&& self.receivers() == before.receivers().remove(planet)
            },
            None => {
                &&& self.handles() == before.handles()
                &&& self.senders() == before.senders()
                &&& self.receivers() == before.receivers()
            },
        }
    }

    /// Something is stored for `id`: a thread handle or a channel half.
    pub open spec fn known(&self, id: ActorId) -> bool {
        self.handles().contains_key(id) || self.senders().contains_key(id)
            || self.receivers().contains_key(id)
    }

    /// A registry without actors.
    pub fn new() -> (orch: Self)
        ensures
            orch.wf(),
            orch.senders() == Map::<ActorId, Sender<OrchestratorToPlanet>>::empty(),
            orch.receivers() == Map::<ActorId, Receiver<PlanetToOrchestrator>>::empty(),
            orch.handles() == Map::<ActorId, H>::empty(),
            orch.sender_ids() == Seq::<ActorId>::empty(),
            orch.receiver_ids() == Seq::<ActorId>::empty(),
    {
        let orch = Orchestrator {
            orch_tx: HashMap::new(),
            planet_rx: HashMap::new(),
            planet_handle: HashMap::new(),
            tx_ids: IdList::new(),
            rx_ids: IdList::new(),
        };
        proof {
            assert(orch.tx_ids@.to_set() =~= orch.orch_tx@.dom());
            assert(orch.rx_ids@.to_set() =~= orch.planet_rx@.dom());
        }
        orch
    }

    /// Stores the sender of planet `id`'s command channel. An id has one
    /// sender: `id` must not have one yet.
    pub fn add_op_tx(&mut self, id: ActorId, tx: Sender<OrchestratorToPlanet>)
        requires
            old(self).wf(),
            !old(self).senders().contains_key(id),
        ensures
            final(self).wf(),
            final(self).senders() == old(self).senders().insert(id, tx),
            final(self).receivers() == old(self).receivers(),
            final(self).handles() == old(self).handles(),
            final(self).receiver_ids() == old(self).receiver_ids(),
    {
        self.orch_tx.insert(id, tx);
        self.tx_ids.insert(id);
        proof {
            assert(self.tx_ids@.to_set() =~= self.orch_tx@.dom());
        }
    }

    /// Stores the receiver of planet `id`'s response channel. An id has one
    /// receiver: `id` must not have one yet.
    pub fn add_po_rx(&mut self, id: ActorId, rx: Receiver<PlanetToOrchestrator>)
        requires
            old(self).wf(),
            !old(self).receivers().contains_key(id),
        ensures
            final(self).wf(),
            final(self).receivers() == old(self).receivers().insert(id, rx),
            final(self).senders() == old(self).senders(),
            final(self).handles() == old(self).handles(),
            final(self).sender_ids() == old(self).sender_ids(),
    {
        self.planet_rx.insert(id, rx);
        self.rx_ids.insert(id);
        proof {
            assert(self.rx_ids@.to_set() =~= self.planet_rx@.dom());
        }
    }

    /// Stores the handle of planet `id`'s thread. An id has one live thread:
    /// `id` must not have a handle yet.
    pub fn add_planet_handle(&mut self, id: ActorId, handle: H)
        requires
            old(self).wf(),
            !old(self).handles().contains_key(id),
        ensures
            final(self).wf(),
            final(self).handles() == old(self).handles().insert(id, handle),
            final(self).senders() == old(self).senders(),
            final(self).receivers() == old(self).receivers(),
            final(self).sender_ids() == old(self).sender_ids(),
            final(self).receiver_ids() == old(self).receiver_ids(),
    {
        self.planet_handle.insert(id, handle);
    }

    /// Whether a command sender is stored for `id`.
    pub fn has_sender(&self, id: ActorId) -> (b: bool)
        ensures
            b == self.senders().contains_key(id),
    {
        self.orch_tx.contains_key(&id)
    }

    /// Whether a response receiver is stored for `id`.
    pub fn has_receiver(&self, id: ActorId) -> (b: bool)
        ensures
            b == self.receivers().contains_key(id),
    {
        self.planet_rx.contains_key(&id)
    }

    /// Whether a thread handle is stored for `id`: the actor has not been
    /// joined yet.
    pub fn has_handle(&self, id: ActorId) -> (b: bool)
        ensures
            b == self.handles().contains_key(id),
    {
        self.planet_handle.contains_key(&id)
    }

    /// Whether anything is stored for `id`.
    pub fn is_known(&self, id: ActorId) -> (b: bool)
        ensures
            b == self.known(id),
    {
        self.planet_handle.contains_key(&id) || self.orch_tx.contains_key(&id)
            || self.planet_rx.contains_key(&id)
    }

    /// Whether both channel halves are stored for `id`.
    pub fn is_registered(&self, id: ActorId) -> (b: bool)
        ensures
            b == self.registered(id),
    {
        self.orch_tx.contains_key(&id) && self.planet_rx.contains_key(&id)
    }

    /// Takes the thread handle of planet `id` out of the registry. The first
    /// call for an id gives its handle; any later call gives `None` and
    /// changes nothing.
    pub fn take_planet_handle(&mut self, id: ActorId) -> (handle: Option<H>)
        requires
            old(self).wf(),
        ensures
            final(self).wf(),
            handle == if old(self).handles().contains_key(id) {
                Some(old(self).handles()[id])
            } else {
                None::<H>
            },
            final(self).handles() == old(self).handles().remove(id),
            final(self).senders() == old(self).senders(),
            final(self).receivers() == old(self).receivers(),
            final(self).sender_ids() == old(self).sender_ids(),
            final(self).receiver_ids() == old(self).receiver_ids(),
    {
        self.planet_handle.remove(&id)
    }

    /// Hands `msg` to planet `id`'s command channel. Never blocks. A planet
    /// that has dropped its end is reported, not treated as an error.
    pub fn send_to_planet_id(&self, id: ActorId, msg: Command) -> (out: SendOutcome)
        requires
            self.senders().contains_key(id),
    {
        match self.orch_tx.get(&id) {
            Some(tx) => SendOutcome::from_sent(channel_send(tx, encode_command(msg))),
            None => {
                proof {
                    assert(false);
                }
                SendOutcome::Disconnected
            },
        }
    }

    /// Waits up to `millis` milliseconds for the next response of planet
    /// `id`.
    pub fn recv_from_planet_id_within(&self, id: ActorId, millis: u64) -> (reply: Result<
        Response,
        RecvFailure,
    >)
        requires
            self.receivers().contains_key(id),
    {
        match self.planet_rx.get(&id) {
            Some(rx) => match channel_recv_timeout(rx, millis) {
                Ok(wire) => Ok(decode_response(wire)),
                Err(failure) => Err(failure),
            },
            None => {
                proof {
                    assert(false);
                }
                Err(RecvFailure::Disconnected)
            },
        }
    }

    /// Waits for the next response of planet `id`, for the usual budget of
    /// [`RESPONSE_BUDGET_MILLIS`].
    pub fn recv_from_planet_id(&self, id: ActorId) -> (reply: Result<Response, RecvFailure>)
        requires
            self.receivers().contains_key(id),
    {
        self.recv_from_planet_id_within(id, RESPONSE_BUDGET_MILLIS)
    }

    /// Sends `msg` to planet `id` and waits once for the response. The
    /// response counts as the answer exactly when it is the variant paired
    /// with `msg`; the wait happens whatever became of the send.
    pub fn request(&self, id: ActorId, msg: Command) -> (out: Exchange)
        requires
            self.registered(id),
        ensures
            outcome_of(msg.spec_kind(), out),
    {
        let sent: CommandKind = msg.kind();
        let _ = self.send_to_planet_id(id, msg);
        let reply = self.recv_from_planet_id(id);
        classify_reply(sent, reply)
    }

    /// Enters a new planet with both halves of its control channels.
    pub fn register(
        &mut self,
        id: ActorId,
        tx: Sender<OrchestratorToPlanet>,
        rx: Receiver<PlanetToOrchestrator>,
    )
        requires
            old(self).wf(),
            !old(self).senders().contains_key(id),
            !old(self).receivers().contains_key(id),
        ensures
            final(self).wf(),
            final(self).registered(id),
            final(self).senders() == old(self).senders().insert(id, tx),
            final(self).receivers() == old(self).receivers().insert(id, rx),
            final(self).handles() == old(self).handles(),
    {
        self.add_op_tx(id, tx);
        self.add_po_rx(id, rx);
    }

    /// The ids that have a command sender, ascending.
    pub fn planet_ids(&self) -> (ids: Vec<ActorId>)
        requires
            self.wf(),
        ensures
            ids@ == self.sender_ids(),
            ascending(ids@),
            ids@.to_set() == self.senders().dom(),
    {
        let n = self.tx_ids.len();
        let mut ids: Vec<ActorId> = Vec::new();
        let mut i: usize = 0;
        while i < n
            invariant
                i <= n,
                n == self.tx_ids@.len(),
                ids@ == self.tx_ids@.take(i as int),
            decreases n - i,
        {
            ids.push(self.tx_ids.get(i));
            i = i + 1;
            proof {
                assert(ids@ =~= self.tx_ids@.take(i as int));
            }
        }
        proof {
            assert(self.tx_ids@.take(n as int) =~= self.tx_ids@);
        }
        ids
    }

    /// Sends the same life-cycle command to every planet that has a sender,
    /// in ascending order of id, and reports what became of each send.
    pub fn broadcast_lifecycle(&self, step: Lifecycle) -> (sent: Vec<(ActorId, SendOutcome)>)
        requires
            self.wf(),
        ensures
            sent@.len() == self.sender_ids().len(),
            forall|k: int| 0 <= k < sent@.len() ==> (#[trigger] sent@[k]).0 == self.sender_ids()[k],
            ascending(self.sender_ids()),
    {
        let n = self.tx_ids.len();
        let mut sent: Vec<(ActorId, SendOutcome)> = Vec::new();
        let mut i: usize = 0;
        while i < n
            invariant
                self.wf(),
                i <= n,
                n == self.tx_ids@.len(),
                sent@.len() == i,
                forall|k: int| 0 <= k < i ==> (#[trigger] sent@[k]).0 == self.tx_ids@[k],
            decreases n - i,
        {
            let id = self.tx_ids.get(i);
            proof {
                assert(self.tx_ids@.contains(id));
                assert(self.tx_ids@.to_set().contains(id));
            }
            let outcome = self.send_to_planet_id(id, step.command());
            sent.push((id, outcome));
            i = i + 1;
        }
        sent
    }

    /// Starts every registered planet, in ascending order of id: sends
    /// `StartPlanetAI`, waits once for the answer, and reports the exchange.
    /// A planet that has a sender and no receiver is passed over.
    pub fn start_planets(&self) -> (started: Vec<(ActorId, Exchange)>)
        requires
            self.wf(),
        ensures
            forall|k: int| 0 <= k < started@.len() ==> self.registered((#[trigger] started@[k]).0),
            forall|a: int, b: int|
                0 <= a < b < started@.len() ==> (#[trigger] started@[a]).0 < (
                #[trigger] started@[b]).0,
            forall|id: ActorId|
                self.registered(id) ==> exists|k: int|
                    0 <= k < started@.len() && (#[trigger] started@[k]).0 == id,
            forall|k: int|
                0 <= k < started@.len() ==> outcome_of(
                    CommandKind::StartPlanetAI,
                    (#[trigger] started@[k]).1,
                ),
    {
        let n = self.tx_ids.len();
        let mut started: Vec<(ActorId, Exchange)> = Vec::new();
        let mut i: usize = 0;
        while i < n
            invariant
                self.wf(),
                i <= n,
                n == self.tx_ids@.len(),
                forall|k: int|
                    0 <= k < started@.len() ==> self.registered((#[trigger] started@[k]).0),
                forall|k: int|
                    0 <= k < started@.len() ==> i > 0 && (#[trigger] started@[k]).0
                        <= self.tx_ids@[i - 1],
                forall|a: int, b: int|
                    0 <= a < b < started@.len() ==> (#[trigger] started@[a]).0 < (
                    #[trigger] started@[b]).0,
                forall|j: int|
                    0 <= j < i && self.registered(#[trigger] self.tx_ids@[j]) ==> exists|k: int|
                        0 <= k < started@.len() && (#[trigger] started@[k]).0 == self.tx_ids@[j],
                forall|k: int|
                    0 <= k < started@.len() ==> outcome_of(
                        CommandKind::StartPlanetAI,
                        (#[trigger] started@[k]).1,
                    ),
            decreases n - i,
        {
            let id = self.tx_ids.get(i);
            let ghost before = started@;
            proof {
                assert(self.tx_ids@.contains(id));
                assert(self.tx_ids@.to_set().contains(id));
                if i > 0 {
                    assert(self.tx_ids@[i - 1] < self.tx_ids@[i as int]);
                }
            }
            if self.has_receiver(id) {
                let exchange = self.request(id, Command::StartPlanetAI);
                started.push((id, exchange));
                proof {
                    assert(started@[before.len() as int].0 == id);
                    assert forall|j: int|
                        0 <= j < i + 1 && self.registered(
                            #[trigger] self.tx_ids@[j],
                        ) implies exists|k: int|
                        0 <= k < started@.len() && (#[trigger] started@[k]).0
                            == self.tx_ids@[j] by {
                        if j < i {
                            let k = choose|k: int|
                                0 <= k < before.len() && (#[trigger] before[k]).0
                                    == self.tx_ids@[j];
                            assert(started@[k] == before[k]);
                        } else {
                            assert(started@[before.len() as int].0 == self.tx_ids@[j]);
                        }
                    }
                }
            }
            i = i + 1;
        }
        proof {
            assert forall|id: ActorId| self.registered(id) implies exists|k: int|
                0 <= k < started@.len() && (#[trigger] started@[k]).0 == id by {
                assert(self.tx_ids@.to_set().contains(id));
                assert(self.tx_ids@.contains(id));
                let j = choose|j: int| 0 <= j < self.tx_ids@.len() && self.tx_ids@[j] == id;
                assert(self.registered(self.tx_ids@[j]));
            }
        }
        started
    }

    /// Looks once, without waiting, at the response channel of every planet
    /// that has a receiver, in ascending order of id. For each message found
    /// it decides the reaction and sends the command that the reaction
    /// includes, if the planet it names has a sender.
    pub fn listen_to_planets(&self) -> (notices: Vec<Notice>)
        requires
            self.wf(),
        ensures
            forall|k: int|
                0 <= k < notices@.len() ==> self.receivers().contains_key(
                    (#[trigger] notices@[k]).source,
                ),
            forall|a: int, b: int|
                0 <= a < b < notices@.len() ==> (#[trigger] notices@[a]).source < (
                #[trigger] notices@[b]).source,
            forall|k: int| 0 <= k < notices@.len() ==> self.acted_on(#[trigger] notices@[k]),
    {
        let n = self.rx_ids.len();
        let mut notices: Vec<Notice> = Vec::new();
        let mut i: usize = 0;
        while i < n
            invariant
                self.wf(),
                i <= n,
                n == self.rx_ids@.len(),
                forall|k: int|
                    0 <= k < notices@.len() ==> self.receivers().contains_key(
                        (#[trigger] notices@[k]).source,
                    ),
                forall|k: int|
                    0 <= k < notices@.len() ==> i > 0 && (#[trigger] notices@[k]).source
                        <= self.rx_ids@[i - 1],
                forall|a: int, b: int|
                    0 <= a < b < notices@.len() ==> (#[trigger] notices@[a]).source < (
                    #[trigger] notices@[b]).source,
                forall|k: int| 0 <= k < notices@.len() ==> self.acted_on(#[trigger] notices@[k]),
            decreases n - i,
        {
            let id = self.rx_ids.get(i);
            proof {
                assert(self.rx_ids@.contains(id));
                assert(self.rx_ids@.to_set().contains(id));
                if i > 0 {
                    assert(self.rx_ids@[i - 1] < self.rx_ids@[i as int]);
                }
            }
            match self.poll_planet(id) {
                Some(notice) => {
                    notices.push(notice);
                },
                None => {},
            }
            i = i + 1;
        }
        notices
    }

    /// The follow-up of a notice was sent exactly where its reaction includes
    /// a command and the planet it names has a sender.
    pub open spec fn acted_on(&self, notice: Notice) -> bool {
        notice.follow_up is Some <==> (notice.reaction.spec_follow_up() matches Some((target, _))
            && self.senders().contains_key(target))
    }

    /// `notice` is the account of a message `msg` that lay on planet `id`'s
    /// response channel: it names the channel, holds the reaction that the
    /// message calls for, and holds the outcome of a follow-up exactly where
    /// one was sent.
    pub open spec fn notice_of(&self, id: ActorId, msg: Response, notice: Notice) -> bool {
        &&& notice.source == id
        &&& notice.reaction == reaction_to(msg)
        &&& self.acted_on(notice)
    }

    /// Acts on a message `msg` that lay on planet `id`'s response channel:
    /// decides the reaction, and sends the command that the reaction
    /// includes to the planet that the message names, if that planet has a
    /// sender.
    pub fn act_on(&self, id: ActorId, msg: Response) -> (notice: Notice)
        ensures
            self.notice_of(id, msg, notice),
    {
        let reaction = react(msg);
        let follow_up = match reaction.follow_up() {
            Some((target, cmd)) => {
                if self.has_sender(target) {
                    Some(self.send_to_planet_id(target, cmd))
                } else {
                    None
                }
            },
            None => None,
        };
        Notice { source: id, reaction, follow_up }
    }

    /// Looks once, without waiting, at the response channel of planet `id`
    /// and acts on the message found there, if any.
    pub fn poll_planet(&self, id: ActorId) -> (found: Option<Notice>)
        requires
            self.receivers().contains_key(id),
        ensures
            found matches Some(notice) ==> notice.source == id && self.acted_on(notice),
    {
        match self.planet_rx.get(&id) {
            Some(rx) => match channel_try_recv(rx) {
                Ok(wire) => Some(self.act_on(id, decode_response(wire))),
                Err(_) => None,
            },
            None => {
                proof {
                    assert(false);
                }
                None
            },
        }
    }

    /// Announces explorer `explorer_id` to planet `planet_id`, handing over
    /// the channel on which the planet is to answer the explorer, and waits
    /// once for the planet's word.
    pub fn land_explorer(
        &self,
        planet_id: ActorId,
        explorer_id: ActorId,
        reply_channel: Sender<PlanetToExplorer>,
    ) -> (out: TransferOutcome)
        requires
            self.registered(planet_id),
    {
        transfer_outcome(
            self.request(planet_id, Command::incoming_explorer(explorer_id, reply_channel)),
        )
    }

    /// Tells planet `planet_id` that explorer `explorer_id` leaves, and waits
    /// once for the planet's word.
    pub fn launch_explorer(&self, planet_id: ActorId, explorer_id: ActorId) -> (out:
        TransferOutcome)
        requires
            self.registered(planet_id),
    {
        transfer_outcome(self.request(planet_id, Command::outgoing_explorer(explorer_id)))
    }

    /// Asks planet `planet_id` for a snapshot of its state and waits once
    /// for it.
    pub fn query_state(&self, planet_id: ActorId) -> (state: Option<PlanetSnapshot>)
        requires
            self.registered(planet_id),
    {
        reported_state(self.request(planet_id, Command::InternalStateRequest))
    }

    /// Takes planet `id` out of the registry once its thread handle has been
    /// taken: both channel halves go. While a handle is still stored for
    /// `id`, nothing changes.
    pub fn remove_planet(&mut self, id: ActorId) -> (removed: bool)
        requires
            old(self).wf(),
        ensures
            final(self).wf(),
            removed == (!old(self).handles().contains_key(id) && (old(self).senders().contains_key(
                id,
            ) || old(self).receivers().contains_key(id))),
            final(self).handles() == old(self).handles(),
            old(self).handles().contains_key(id) ==> {
                &&& final(self).senders() == old(self).senders()
                &&& final(self).receivers() == old(self).receivers()
                &&& final(self).sender_ids() == old(self).sender_ids()
                &&& final(self).receiver_ids() == old(self).receiver_ids()
            },
            !old(self).handles().contains_key(id) ==> {
                &&& final(self).senders() == old(self).senders().remove(id)
                &&& final(self).receivers() == old(self).receivers().remove(id)
            },
    {
        if self.planet_handle.contains_key(&id) {
            return false;
        }
        let had_tx = self.orch_tx.remove(&id).is_some();
        let had_rx = self.planet_rx.remove(&id).is_some();
        self.tx_ids.remove(id);
        self.rx_ids.remove(id);
        proof {
            assert(self.tx_ids@.to_set() =~= self.orch_tx@.dom());
            assert(self.rx_ids@.to_set() =~= self.planet_rx@.dom());
        }
        had_tx || had_rx
    }

    /// An id for the next planet: one more than the largest id that has a
    /// channel half in the registry, or 0 for an empty registry. `None` when
    /// the largest id in use is the last one there is.
    pub fn fresh_id(&self) -> (id: Option<ActorId>)
        requires
            self.wf(),
        ensures
            id is None <==> (self.senders().contains_key(ActorId::MAX)
                || self.receivers().contains_key(ActorId::MAX)),
            id matches Some(next) ==> forall|k: ActorId|
                self.senders().contains_key(k) || self.receivers().contains_key(k) ==> k < next,
            id matches Some(next) ==> next == 0 || self.senders().contains_key(
                (next - 1) as ActorId,
            ) || self.receivers().contains_key((next - 1) as ActorId),
    {
        let top_tx = self.tx_ids.largest();
        let top_rx = self.rx_ids.largest();
        let top: Option<ActorId> = match (top_tx, top_rx) {
            (Some(a), Some(b)) => Some(if a < b { b } else { a }),
            (Some(a), None) => Some(a),
            (None, Some(b)) => Some(b),
            (None, None) => None,
        };
        proof {
            assert forall|k: ActorId| self.senders().contains_key(k) implies (top matches Some(t)
                && k <= t) by {
                assert(self.tx_ids@.to_set().contains(k));
                assert(self.tx_ids@.contains(k));
            }
            assert forall|k: ActorId| self.receivers().contains_key(k) implies (top matches Some(
                t,
            ) && k <= t) by {
                assert(self.rx_ids@.to_set().contains(k));
                assert(self.rx_ids@.contains(k));
            }
            if let Some(t) = top {
                assert(self.tx_ids@.contains(t) || self.rx_ids@.contains(t));
                assert(self.tx_ids@.to_set().contains(t) || self.rx_ids@.to_set().contains(t));
            }
        }
        match top {
            None => Some(0),
            Some(t) => if t == ActorId::MAX {
                None
            } else {
                Some(t + 1)
            },
        }
    }

    /// Joining is idempotent: of the states `once` and `twice` that one and
    /// two calls of [`Orchestrator::join_planet_id`] for `id` lead to, the
    /// first has no handle for `id`, so the second call finds nothing to
    /// join, and the second has the same handles as the first.
    pub proof fn lemma_join_once(before: &Self, once: &Self, twice: &Self, id: ActorId)
        requires
            once.handles() == before.handles().remove(id),
            twice.handles() == once.handles().remove(id),
        ensures
            !once.handles().contains_key(id),
            twice.handles() == once.handles(),
    {
        assert(once.handles().remove(id) =~= once.handles());
    }
}

impl<H: ActorHandle> Orchestrator<H> {
    /// Joins the thread of planet `id`: takes its handle out of the registry
    /// and waits until the thread has ended. A panic of the actor is
    /// reported and goes no further. Where the planet has been joined
    /// before, so that only its channels are left, nothing is joined and
    /// nothing changes: no thread is joined twice. An id of which the
    /// registry holds nothing cannot be joined.
    pub fn join_planet_id(&mut self, id: ActorId) -> (out: JoinOutcome)
        requires
            old(self).wf(),
            old(self).known(id),
        ensures
            final(self).wf(),
            out is NotStored <==> !old(self).handles().contains_key(id),
            final(self).handles() == old(self).handles().remove(id),
            final(self).senders() == old(self).senders(),
            final(self).receivers() == old(self).receivers(),
            final(self).sender_ids() == old(self).sender_ids(),
            final(self).receiver_ids() == old(self).receiver_ids(),
    {
        match self.take_planet_handle(id) {
            Some(handle) => match handle.join() {
                Ok(_) => JoinOutcome::Returned,
                Err(report) => JoinOutcome::Panicked(report),
            },
            None => JoinOutcome::NotStored,
        }
    }

    /// Ends the life of planet `id` in the registry: joins its thread, if it
    /// has not been joined yet, and takes both channel halves out. After
    /// this nothing is stored for `id`, and the id is free again.
    pub fn retire_planet(&mut self, id: ActorId) -> (out: JoinOutcome)
        requires
            old(self).wf(),
            old(self).known(id),
        ensures
            final(self).wf(),
            !final(self).known(id),
            out is NotStored <==> !old(self).handles().contains_key(id),
            final(self).handles() == old(self).handles().remove(id),
            final(self).senders() == old(self).senders().remove(id),
            final(self).receivers() == old(self).receivers().remove(id),
    {
        let out = self.join_planet_id(id);
        let _ = self.remove_planet(id);
        out
    }

    /// What is left to do about a message once it has been acted on: a
    /// confirmed kill completes the destruction of the planet it names, so
    /// that planet is retired, if the registry holds anything for it. Any
    /// other notice changes nothing.
    pub fn settle(&mut self, notice: &Notice) -> (joined: Option<JoinOutcome>)
        requires
            old(self).wf(),
        ensures
            final(self).wf(),
            joined is Some <==> (notice.reaction.spec_killed() matches Some(planet) && old(
                self,
            ).known(planet)),
            final(self).settled(old(self), notice),
    {
        match notice.reaction.killed() {
            Some(planet) => {
                if self.is_known(planet) {
                    Some(self.retire_planet(planet))
                } else {
                    proof {
                        assert(self.handles().remove(planet) =~= self.handles());
                        assert(self.senders().remove(planet) =~= self.senders());
                        assert(self.receivers().remove(planet) =~= self.receivers());
                    }
                    None
                }
            },
            None => None,
        }
    }

    /// Sweeps the response channels as [`Orchestrator::listen_to_planets`]
    /// does and then settles every notice: each planet whose kill a message
    /// confirmed is retired. Each notice comes back with the outcome of the
    /// join that it led to, if it led to one.
    pub fn listen_and_settle(&mut self) -> (done: Vec<(Notice, Option<JoinOutcome>)>)
        requires
            old(self).wf(),
        ensures
            final(self).wf(),
            forall|k: int|
                0 <= k < done@.len() ==> old(self).receivers().contains_key(
                    (#[trigger] done@[k]).0.source,
                ),
            forall|a: int, b: int|
                0 <= a < b < done@.len() ==> (#[trigger] done@[a]).0.source < (
                #[trigger] done@[b]).0.source,
            forall|k: int| 0 <= k < done@.len() ==> old(self).acted_on((#[trigger] done@[k]).0),
            forall|k: int|
                0 <= k < done@.len() && (#[trigger] done@[k]).1 is Some ==> done@[k].0.reaction.spec_killed() is Some,
            forall|p: ActorId| killed_in(done@).contains(p) ==> !final(self).known(p),
            final(self).handles() == old(self).handles().remove_keys(killed_in(done@)),
            final(self).senders() == old(self).senders().remove_keys(killed_in(done@)),
            final(self).receivers() == old(self).receivers().remove_keys(killed_in(done@)),
    {
        let notices = self.listen_to_planets();
        let n = notices.len();
        let mut done: Vec<(Notice, Option<JoinOutcome>)> = Vec::new();
        let mut i: usize = 0;
        proof {
            assert(killed_in(done@) =~= Set::<ActorId>::empty());
            assert(self.handles().remove_keys(killed_in(done@)) =~= self.handles());
            assert(self.senders().remove_keys(killed_in(done@)) =~= self.senders());
            assert(self.receivers().remove_keys(killed_in(done@)) =~= self.receivers());
        }
        while i < n
            invariant
                self.wf(),
                i <= n,
                n == notices@.len(),
                done@.len() == i,
                forall|k: int| 0 <= k < i ==> (#[trigger] done@[k]).0 == notices@[k],
                forall|k: int|
                    0 <= k < i && (#[trigger] done@[k]).1 is Some ==> done@[k].0.reaction.spec_killed() is Some,
                self.handles() == old(self).handles().remove_keys(killed_in(done@)),
                self.senders() == old(self).senders().remove_keys(killed_in(done@)),
                self.receivers() == old(self).receivers().remove_keys(killed_in(done@)),
            decreases n - i,
        {
            let notice = notices[i];
            let ghost before = done@;
            let joined = self.settle(&notice);
            done.push((notice, joined));
            proof {
                let after = done@;
                assert(after[i as int].0 == notice);
                match notice.reaction.spec_killed() {
                    Some(p) => {
                        assert(killed_in(after) =~= killed_in(before).insert(p)) by {
                            assert forall|q: ActorId| killed_in(after).contains(q) implies killed_in(
                                before,
                            ).insert(p).contains(q) by {
                                let k = choose|k: int|
                                    0 <= k < after.len() && (#[trigger] after[k]).0.reaction.spec_killed()
                                        == Some(q);
                                if k < i {
                                    assert(before[k] == after[k]);
                                }
                            }
                            assert forall|q: ActorId| killed_in(before).insert(p).contains(
                                q,
                            ) implies killed_in(after).contains(q) by {
                                if q == p {
                                    assert(after[i as int].0.reaction.spec_killed() == Some(q));
                                } else {
                                    let k = choose|k: int|
                                        0 <= k < before.len() && (
                                        #[trigger] before[k]).0.reaction.spec_killed() == Some(q);
                                    assert(after[k] == before[k]);
                                }
                            }
                        }
                        assert(self.handles() =~= old(self).handles().remove_keys(
                            killed_in(after),
                        ));
                        assert(self.senders() =~= old(self).senders().remove_keys(
                            killed_in(after),
                        ));
                        assert(self.receivers() =~= old(self).receivers().remove_keys(
                            killed_in(after),
                        ));
                    },
                    None => {
                        assert(killed_in(after) =~= killed_in(before)) by {
                            assert forall|q: ActorId| killed_in(after).contains(
                                q,
                            ) implies killed_in(before).contains(q) by {
                                let k = choose|k: int|
                                    0 <= k < after.len() && (#[trigger] after[k]).0.reaction.spec_killed()
                                        == Some(q);
                                assert(k < i);
                                assert(before[k] == after[k]);
                            }
                            assert forall|q: ActorId| killed_in(before).contains(
                                q,
                            ) implies killed_in(after).contains(q) by {
                                let k = choose|k: int|
                                    0 <= k < before.len() && (
                                    #[trigger] before[k]).0.reaction.spec_killed() == Some(q);
                                assert(after[k] == before[k]);
                            }
                        }
                    },
                }
            }
            i = i + 1;
        }
        done
    }

    /// Destroys planet `id`: sends it the kill, waits once for the planet to
    /// confirm, and then retires it. Without the confirmation the planet
    /// stays in the registry as it was.
    pub fn destroy_planet(&mut self, id: ActorId) -> (out: Destruction)
        requires
            old(self).wf(),
            old(self).registered(id),
        ensures
            final(self).wf(),
            outcome_of(CommandKind::KillPlanet, out.kill),
            out.joined is Some <==> out.kill is Answered,
            out.joined matches Some(join) ==> (join is NotStored <==> !old(
                self,
            ).handles().contains_key(id)),
            out.kill is Answered ==> {
                &&& !final(self).known(id)
                &&& final(self).handles() == old(self).handles().remove(id)
                &&& final(self).senders() == old(self).senders().remove(id)
                &&& final(self).receivers() == old(self).receivers().remove(id)
            },
            !(out.kill is Answered) ==> {
                &&& final(self).handles() == old(self).handles()
                &&& final(self).senders() == old(self).senders()
                &&& final(self).receivers() == old(self).receivers()
                &&& final(self).sender_ids() == old(self).sender_ids()
                &&& final(self).receiver_ids() == old(self).receiver_ids()
            },
    {
        let kill = self.request(id, Command::KillPlanet);
        let joined = if kill.is_answered() {
            Some(self.retire_planet(id))
        } else {
            None
        };
        Destruction { kill, joined }
    }

    /// Where planet `id` stands in its life.
    pub fn phase(&self, id: ActorId) -> (phase: ActorPhase)
        ensures
            phase is Unknown <==> !self.handles().contains_key(id) && !self.senders().contains_key(
                id,
            ) && !self.receivers().contains_key(id),
            phase is Retired <==> !self.handles().contains_key(id) && (self.senders().contains_key(
                id,
            ) || self.receivers().contains_key(id)),
            phase is Live || phase is PendingJoin <==> self.handles().contains_key(id),
    {
        match self.planet_handle.get(&id) {
            Some(handle) => {
                if handle.is_finished() {
                    ActorPhase::PendingJoin
                } else {
                    ActorPhase::Live
                }
            },
            None => {
                if self.orch_tx.contains_key(&id) || self.planet_rx.contains_key(&id) {
                    ActorPhase::Retired
                } else {
                    ActorPhase::Unknown
                }
            },
        }
    }
}

} // verus!

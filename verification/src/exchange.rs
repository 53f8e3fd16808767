//! Reading the outcome of one request/response exchange with a planet.
//!
//! Each planet has a response channel of its own, so the channel itself is
//! what ties a response to the request before it. The functions here take
//! what a bounded wait on that channel gave and say what it means for the
//! request that was sent.

use vstd::prelude::*;
use crate::protocol::{
    lemma_pairing_is_injective, paired_response, ActorId, CommandKind, PlanetSnapshot, Response,
};
use crate::transport::RecvFailure;

verus! {

/// What became of a command handed to a planet's inbound channel.
#[derive(Clone, Copy, Debug, PartialEq, Eq, Structural)]
pub enum SendOutcome {
    /// The command is in the planet's queue.
    Delivered,
    /// The planet has dropped its end of the channel; the command is lost.
    Disconnected,
}

impl SendOutcome {
    /// The outcome that the answer of a channel stands for.
    pub open spec fn spec_from_sent<T>(sent: Result<(), T>) -> SendOutcome {
        if sent is Ok {
            SendOutcome::Delivered
        } else {
            SendOutcome::Disconnected
        }
    }

    /// Reads the answer of a channel to a send: taken means delivered, and
    /// a message handed back means that the other side is gone.
    pub fn from_sent<T>(sent: Result<(), T>) -> (out: SendOutcome)
        ensures
            out == Self::spec_from_sent(sent),
    {
        match sent {
            Ok(_) => SendOutcome::Delivered,
            Err(_) => SendOutcome::Disconnected,
        }
    }

    /// Whether the command reached the planet's queue.
    pub fn is_delivered(self) -> (b: bool)
        ensures
            b == (self == SendOutcome::Delivered),
    {
        match self {
            SendOutcome::Delivered => true,
            SendOutcome::Disconnected => false,
        }
    }
}

/// The result of sending one command and waiting once for its response.
#[derive(Debug)]
pub enum Exchange {
    /// The response paired with the command arrived.
    Answered(Response),
    /// A response of another variant arrived; it is handed back, not acted on.
    Mismatched(Response),
    /// Nothing arrived within the budget.
    TimedOut,
    /// The planet's outbound channel is empty and closed.
    Disconnected,
}

/// What a reply means for a command of kind `sent`.
pub open spec fn classify(sent: CommandKind, reply: Result<Response, RecvFailure>) -> Exchange {
    match reply {
        Ok(msg) => if msg.spec_kind() == paired_response(sent) {
            Exchange::Answered(msg)
        } else {
            Exchange::Mismatched(msg)
        },
        Err(RecvFailure::Timeout) => Exchange::TimedOut,
        Err(RecvFailure::Disconnected) => Exchange::Disconnected,
    }
}

/// Reads the reply to a command of kind `sent`: the paired response is the
/// answer, any other response is a mismatch, and a failed wait is reported
/// as the failure it was.
pub fn classify_reply(sent: CommandKind, reply: Result<Response, RecvFailure>) -> (out: Exchange)
    ensures
        out == classify(sent, reply),
{
    match reply {
        Ok(msg) => {
            if msg.answers(sent) {
                Exchange::Answered(msg)
            } else {
                Exchange::Mismatched(msg)
            }
        },
        Err(RecvFailure::Timeout) => Exchange::TimedOut,
        Err(RecvFailure::Disconnected) => Exchange::Disconnected,
    }
}

/// `out` is what some reply means for a command of kind `sent`: an answer is
/// the paired response and a mismatch is any other.
pub open spec fn outcome_of(sent: CommandKind, out: Exchange) -> bool {
    exists|reply: Result<Response, RecvFailure>| out == classify(sent, reply)
}

/// The response that is paired with a command is read as its answer.
pub proof fn lemma_paired_reply_is_answer(sent: CommandKind, msg: Response)
    requires
        msg.spec_kind() == paired_response(sent),
    ensures
        classify(sent, Ok(msg)) == Exchange::Answered(msg),
{
}

/// A response left over from an earlier request of kind `first` is told
/// apart from the answer to a later request of kind `second` exactly when
/// the two kinds differ: after two requests of one kind, the stale response
/// passes for the answer to the second.
pub proof fn lemma_stale_reply(first: CommandKind, second: CommandKind, msg: Response)
    requires
        msg.spec_kind() == paired_response(first),
    ensures
        classify(second, Ok(msg)) is Answered <==> first == second,
        classify(second, Ok(msg)) is Mismatched <==> first != second,
{
    lemma_pairing_is_injective(first, second);
}

impl Exchange {
    /// Whether the paired response arrived.
    pub fn is_answered(&self) -> (b: bool)
        ensures
            b == (self is Answered),
    {
        match self {
            Exchange::Answered(_) => true,
            _ => false,
        }
    }
}

/// The id in a `StartPlanetAIResult`, if that is what the exchange gave.
pub open spec fn spec_started_planet(exchange: Exchange) -> Option<ActorId> {
    match exchange {
        Exchange::Answered(Response::StartPlanetAIResult { planet_id }) => Some(planet_id),
        _ => None,
    }
}

/// The planet that confirmed its start, or `None` when the exchange gave
/// anything but a `StartPlanetAIResult` as the answer.
pub fn started_planet(exchange: Exchange) -> (id: Option<ActorId>)
    ensures
        id == spec_started_planet(exchange),
{
    match exchange {
        Exchange::Answered(Response::StartPlanetAIResult { planet_id }) => Some(planet_id),
        _ => None,
    }
}

/// The snapshot in an `InternalStateResponse`, if that is what the exchange
/// gave.
pub open spec fn spec_reported_state(exchange: Exchange) -> Option<PlanetSnapshot> {
    match exchange {
        Exchange::Answered(Response::InternalStateResponse { planet_state, .. }) => Some(
            planet_state,
        ),
        _ => None,
    }
}

/// The state a planet reported, or `None` when the exchange gave anything
/// but an `InternalStateResponse` as the answer.
pub fn reported_state(exchange: Exchange) -> (state: Option<PlanetSnapshot>)
    ensures
        state == spec_reported_state(exchange),
{
    match exchange {
        Exchange::Answered(Response::InternalStateResponse { planet_state, .. }) => Some(
            planet_state,
        ),
        _ => None,
    }
}

/// How a landing or a take-off request ended.
#[derive(Debug)]
pub enum TransferOutcome {
    /// The planet took the request.
    Accepted { planet_id: ActorId },
    /// The planet answered with an error.
    Refused { planet_id: ActorId, reason: String },
    /// A response arrived that does not answer the request.
    WrongMessage,
    /// Nothing arrived within the budget.
    TimedOut,
    /// The planet is gone.
    Disconnected,
}

impl TransferOutcome {
    /// Whether the planet took the request.
    pub fn is_accepted(&self) -> (b: bool)
        ensures
            b == (self is Accepted),
    {
        match self {
            TransferOutcome::Accepted { .. } => true,
            _ => false,
        }
    }
}

/// What an exchange means for an explorer that asked to land or to leave.
pub open spec fn spec_transfer_outcome(exchange: Exchange) -> TransferOutcome {
    match exchange {
        Exchange::Answered(Response::IncomingExplorerResponse { planet_id, res, .. }) => match res {
            Ok(_) => TransferOutcome::Accepted { planet_id },
            Err(reason) => TransferOutcome::Refused { planet_id, reason },
        },
        Exchange::Answered(Response::OutgoingExplorerResponse { planet_id, res, .. }) => match res {
            Ok(_) => TransferOutcome::Accepted { planet_id },
            Err(reason) => TransferOutcome::Refused { planet_id, reason },
        },
        Exchange::Answered(_) => TransferOutcome::WrongMessage,
        Exchange::Mismatched(_) => TransferOutcome::WrongMessage,
        Exchange::TimedOut => TransferOutcome::TimedOut,
        Exchange::Disconnected => TransferOutcome::Disconnected,
    }
}

/// Reads the exchange that followed an `IncomingExplorerRequest` or an
/// `OutgoingExplorerRequest`.
pub fn transfer_outcome(exchange: Exchange) -> (out: TransferOutcome)
    ensures
        out == spec_transfer_outcome(exchange),
{
    match exchange {
        Exchange::Answered(Response::IncomingExplorerResponse { planet_id, res, .. }) => match res {
            Ok(_) => TransferOutcome::Accepted { planet_id },
            Err(reason) => TransferOutcome::Refused { planet_id, reason },
        },
        Exchange::Answered(Response::OutgoingExplorerResponse { planet_id, res, .. }) => match res {
            Ok(_) => TransferOutcome::Accepted { planet_id },
            Err(reason) => TransferOutcome::Refused { planet_id, reason },
        },
        Exchange::Answered(_) => TransferOutcome::WrongMessage,
        Exchange::Mismatched(_) => TransferOutcome::WrongMessage,
        Exchange::TimedOut => TransferOutcome::TimedOut,
        Exchange::Disconnected => TransferOutcome::Disconnected,
    }
}

} // verus!

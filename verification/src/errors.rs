//! The error taxonomy of the SDK.
//!
//! Construction errors (bad wiring, missing peers) are detected before the
//! network starts; connection errors are retried up to a fixed budget and
//! then escalate; protocol and orchestration errors are fatal at once. An
//! error returned from any lifecycle handler terminates the whole network
//! run: errors are never actor-local.

use vstd::prelude::*;
use crate::client::ClientMessageKind;
use crate::messages::Role;

verus! {

/// Everything that can go wrong inside the actor network.
#[derive(Debug, PartialEq)]
pub enum Error {
    /// An actor's mailbox helper was used before `Init` assigned it an
    /// identity.
    NotInitialized,
    /// A port that must have exactly one peer had none, or several.
    MissingPeer {
        /// Role of the port that was looked up.
        role: Role,
    },
    /// A declared arity constraint was unmet when the network was assembled.
    ArityViolation {
        /// Role of the constrained port.
        role: Role,
        /// How many peers were actually connected.
        found: usize,
    },
    /// A handle that names no actor of this network.
    InvalidHandle,
    /// A lifecycle event arrived that the current phase has no answer for.
    UnexpectedMessage,
    /// A message arrived from a peer that may not send it.
    UnexpectedSource,
    /// The connect retry budget was exhausted.
    ConnectFailed,
    /// A frame arrived that was not binary where binary was expected.
    NonBinaryMessage,
    /// A response arrived while no transaction was pending.
    NoPendingTransaction,
    /// A response was paired with a transaction of another id.
    TransactionIdMismatch,
    /// A response was paired with a transaction of another kind.
    TransactionKindMismatch {
        /// Kind of the pending transaction.
        expected: ClientMessageKind,
        /// Kind inferred from the response.
        found: ClientMessageKind,
    },
    /// A request reused the id of a transaction that is still outstanding.
    DuplicateTransaction,
    /// The game instance reported application-level errors.
    GameErrors(Vec<String>),
    /// The transport failed while receiving.
    ClientRecvFailed,
    /// The two player setups form no valid match.
    InvalidPlayerSetups,
    /// A variadic port had another number of peers than the phase requires.
    WrongPeerCount {
        /// Role of the port.
        role: Role,
        /// How many peers the phase requires.
        expected: usize,
        /// How many peers were connected.
        found: usize,
    },
    /// No installation directory was given and none was found.
    ExeNotSpecified,
    /// The configured executable does not exist.
    ExeDoesNotExist(String),
    /// No executable was found among the candidate paths.
    ExeNotFound,
    /// The port space or the instance-id space is used up.
    PortsExhausted,
}

} // verus!

//! The message vocabulary of the actor network, and the roles that govern
//! how actors are wired together.

use vstd::prelude::*;
use crate::client::{ClientRequest, ClientResponse, TransactionId, WireMessage};
use crate::data::{GamePorts, GameSettings, PlayerSetup, PortSet};
use crate::errors::Error;

verus! {

/// The roles that govern how connections between actors are made.
#[derive(Debug, Copy, Clone, Hash, Eq, PartialEq, Structural)]
pub enum Role {
    /// Launches new game instances or kills them.
    Launcher,
    /// Broadcasts idle instances.
    InstancePool,
    /// Provides instances to clients.
    InstanceProvider,
    /// Controls agents or observers.
    Controller,
    /// Provides the agent interface to bots.
    Agent,
    /// Provides the client interface to agents or observers.
    Client,
}

/// The messages that flow between the actors of a match network.
#[derive(Debug)]
pub enum Message {
    /// Launch an instance.
    LaunchInstance,
    /// The pool of instances to choose from: id, endpoint, client ports.
    InstancePool(Vec<(u64, String, PortSet)>),
    /// The pool of game ports to choose from.
    PortsPool(Vec<GamePorts>),
    /// Allow an actor to take complete control of an instance.
    ProvideInstance(u64, String),
    /// Ask the launcher for its instance pool.
    GetInstancePool,
    /// Ask the launcher for its ports pool.
    GetPortsPool,

    /// Attempt to connect to an instance (self-addressed).
    ClientAttemptConnect(String),
    /// The transport connected successfully (self-addressed).
    ClientConnected,
    /// The transport produced a frame (self-addressed).
    ClientReceive(WireMessage),
    /// Send a request to the game instance.
    ClientRequest(ClientRequest),
    /// The game instance responded within the expected timeframe.
    ClientResponse(ClientResponse),
    /// A transaction timed out.
    ClientTimeout(TransactionId),
    /// Ask the connection actor to close its transport.
    ClientDisconnect,
    /// The transport has closed.
    ClientClosed,
    /// The transport failed.
    ClientError(Error),

    /// An agent is ready for a game to begin.
    Ready,
    /// Request a player setup from a bot.
    RequestPlayerSetup(GameSettings),
    /// A bot's player setup.
    PlayerSetup(PlayerSetup),
    /// Create a game with the given settings and participants.
    CreateGame(GameSettings, Vec<PlayerSetup>),
    /// The game was created.
    GameCreated,
    /// The game is ready to join with the given setup and ports.
    GameReady(PlayerSetup, Option<GamePorts>),
    /// The game has ended.
    GameEnded,
}

} // verus!

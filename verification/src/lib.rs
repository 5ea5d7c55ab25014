//! Client SDK core for driving instances of an external real-time game
//! process and orchestrating multi-party matches between bot programs.
//!
//! The crate is organised around a small actor substrate (`substrate`): a
//! connection state machine per game instance (`client`), an action batching
//! service (`action`), and a melee orchestrator (`melee`) are all written as
//! pure transition functions over plain values, so that every decision the
//! network takes is verified. The surrounding process performs the actual
//! I/O (sockets, timers, process launching) and feeds the outcomes back in
//! as events.

pub mod action;
pub mod agent;
pub mod client;
pub mod data;
pub mod errors;
pub mod instance;
pub mod launcher;
pub mod melee;
pub mod messages;
pub mod strconv;
pub mod substrate;

pub use data::{GamePorts, GameSettings, PlayerSetup, PortSet, Race, Rect};
pub use errors::Error;
pub use launcher::{Launcher, LauncherSettings};
pub use melee::{MeleeSettings, MeleeSuite};
pub use messages::{Message, Role};

//! Supervision and request/response messaging between one control thread
//! and the planet actors of a small galaxy simulation.

pub mod exchange;
pub mod explorer;
pub mod galaxy_event;
pub mod game;
pub mod ids;
pub mod orchestrator;
pub mod planet;
pub mod protocol;
pub mod reaction;
pub mod setup;
pub mod transport;
pub mod visit;
pub mod wire;

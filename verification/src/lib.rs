//! Server core of a two-player networked tile game: wire message framing,
//! the procedural tile map generator, the session registry, the inbound
//! frame protocol, and the game coordinator state machine.

pub mod coordinator;
pub mod message;
pub mod protocol;
pub mod registry;
pub mod router;
pub mod sprites;
pub mod tiles;

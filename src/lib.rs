//! A single-connection WebSocket client core: endpoint derivation, handshake
//! construction, the connection slot and the inbound relay's decisions.


pub mod endpoint;
pub mod handshake;
pub mod icons;
pub mod lifecycle;
pub mod relay;
pub mod text;

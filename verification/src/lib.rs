//! Message framing and handshake negotiation for a Dash peer connection.
//!
//! The crate builds `version` and `verack` frames, reads the command name out
//! of an inbound frame header, and sequences the handshake as a transition
//! function over [`handshake::HandshakeState`]. Every function carries a
//! contract over byte sequences that Verus checks.

pub mod checksum;
pub mod command;
pub mod encoding;
pub mod handshake;
pub mod message;
pub mod version;

pub use crate::checksum::calculate_checksum;
pub use crate::command::get_command_from_response;
pub use crate::handshake::{Action, Event, HandshakeState};
pub use crate::message::create_message;
pub use crate::version::{create_version_message_payload, VersionConfig};

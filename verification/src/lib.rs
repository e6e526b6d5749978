//! Lemon Communicator: the registry of clients, the change log, the
//! message model and the peer book of a small communication server.
pub mod command_args;
pub mod json;
pub mod myio;
pub mod text;
pub mod peer;
pub mod comms;

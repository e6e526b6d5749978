//! What the server says to its clients and what it keeps about them.
pub mod client;
pub mod client_data;
pub mod meta_data;
pub mod network;
pub mod output;
pub mod peer_data;
pub mod responses;

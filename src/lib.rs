//! Real-time group-chat core: the token service, the session gate, the wire
//! protocol, the connection hub and the message pipeline.

pub mod json;
pub mod ids;
pub mod text;
pub mod protocol;
pub mod hub;
pub mod error;
pub mod token;
pub mod gate;
pub mod models;
pub mod pipeline;
pub mod services;
pub mod connection;
pub mod lobby;

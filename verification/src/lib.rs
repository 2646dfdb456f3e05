//! Core logic of the social service: friendship events and statuses, the rules that
//! decide which friendship transitions are allowed, Synapse identifiers and room
//! aliases, and the request-level decisions taken around them.

pub mod address;
pub mod encoding;
pub mod entities;
pub mod error;
pub mod events;
pub mod friends;
pub mod friendship_event;
pub mod friendship_status;
pub mod middleware;
pub mod numbers;
pub mod request_events;
pub mod room_event_flow;
pub mod room_events;
pub mod synapse;
pub mod synapse_handler;
pub mod text;
pub mod users_cache;
pub mod validator;

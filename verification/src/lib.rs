//! A verified core for a small serverless "messages" HTTP endpoint.
//!
//! The library models the three request shapes the endpoint accepts
//! (create a message, count messages, fetch a message by id), dispatches
//! an inbound proxy event to the store operation it calls for, and shapes
//! the JSON response envelope that goes back to the gateway. Durability
//! and indexing belong to the external key-value store; the surrounding
//! binary performs the store calls and hands their outcomes back to the
//! verified responders.

pub mod handler;
pub mod json;
pub mod response;

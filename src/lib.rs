//! Request planning and response shaping for a prompt-enhancement client
//! that talks to a hosted model aggregator or to a local model server.

pub mod json;
pub mod models;
pub mod outcome;
pub mod provider;
pub mod request;
pub mod text;

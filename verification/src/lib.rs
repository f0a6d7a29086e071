//! The rules of a two-hop time service.
//!
//! A provider answers "what time is it in this zone?"; a gateway forwards the
//! question to the provider and relays the answer under its own request
//! identifier. This crate holds what both decide: which zone a name stands
//! for, what each reply carries, and how the gateway classifies what came back
//! from the provider. Sockets, JSON and logging live with the caller.

pub mod text;
pub mod zone;
pub mod clock;
pub mod ident;
pub mod status;
pub mod message;
pub mod health;
pub mod gateway;
pub mod provider;
pub mod laws;


//! Dispatch and coordination rules of a payment-routing gateway that sits in
//! front of two upstream payment processors, a preferred one and a fallback.
//!
//! The crate holds the decisions of the gateway as plain functions on plain
//! values: which processor an attempt goes to, how a dispatch advances on each
//! reply, what a health probe does to the registry, and what the window cache
//! of accepted payments answers to a time-ranged summary. Sockets, queues and
//! sleeps belong to the program around it.

pub mod api;
pub mod appstate;
pub mod constantes;
pub mod models;
pub mod text;
pub mod workers;

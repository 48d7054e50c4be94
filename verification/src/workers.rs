//! The decisions of the background workers: dispatch, health probing and
//! health mirroring.

pub mod consumer;
pub mod health_checker;
pub mod health_consumer;

//! The values that the gateway handles.

pub mod data_range;
pub mod payment;
pub mod processor;
pub mod summary;

//! Defaults used when the environment does not say otherwise.

use vstd::prelude::*;

verus! {

/// Address of the preferred processor.
pub const URL_DEFAULT: &'static str = "http://localhost:8001";

/// Address of the fallback processor.
pub const URL_FALLBACK: &'static str = "http://localhost:8002";

/// Address of the key/value store.
pub const REDIS_URL: &'static str = "redis://localhost:6379/";

/// Address of the message bus.
pub const NATS_URL: &'static str = "nats://localhost:4222";

} // verus!

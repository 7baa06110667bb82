//! A bounded-concurrency dispatch engine for request/response connectors:
//! admission control with backpressure, a rotating transport pool, the
//! dispatcher and reader decisions, authorization headers, and the
//! structured values that replies carry.

use vstd::prelude::*;

pub mod admission;
pub mod auth;
pub mod connector;
pub mod dispatch;
pub mod error;
pub mod pool;
pub mod preprocessor;
pub mod ser;
pub mod value;

verus! {

/// Size of the read buffer a connector allocates by default.
pub fn default_buf_size() -> (r: usize)
    ensures
        r == 8192,
{
    8192
}

} // verus!

//! The verified core of an image-conversion worker: job and outcome records,
//! the bounded download, the thumbnail step, the per-job pipeline, the wire
//! encoding of outcomes, and the per-message decisions of a worker loop.
use vstd::prelude::*;

pub mod codec;
pub mod config;
pub mod download;
pub mod model;
pub mod pipeline;
pub mod processing;
pub mod worker;

verus! {

/// Hard cap on the cumulative size of a downloaded body, in bytes.
pub const DOWNLOAD_SIZE_LIMIT: usize = 20 * 1024 * 1024;

} // verus!

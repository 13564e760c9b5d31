//! A verified core for a high-level, multi-device orchestration layer over
//! an OpenCL-class compute API: device scoring and queue configuration, the
//! weighted work partitioner, declarative task and pipeline planning with
//! event-graph chaining, info-buffer decoding, the capability model, the
//! program cache's bookkeeping, and the unified error taxonomy.
//!
//! Everything here speaks in plain values. The native calls an embedding
//! performs — discovery, allocation, launches, file reads — surround this
//! crate and carry out exactly what its plans decide.
pub mod command_queue_parameters;
pub mod errors;
pub mod executor;
pub mod formatter;
pub mod image_types;
pub mod events;
pub mod memory_flags;
pub mod opencl_version;
pub mod partition;
pub mod program;
pub mod program_cache;
pub mod pipeline;
pub mod svm_capabilities;
pub mod task;
pub mod work_dims;

use vstd::prelude::*;

verus! {

/// Adds two numbers, provided the sum fits in a machine word.
pub fn add(left: u64, right: u64) -> (r: u64)
    requires
        left + right <= u64::MAX,
    ensures
        r == left + right,
{
    left + right
}

} // verus!

//! Shared-virtual-memory capability bits a device advertises.
use vstd::prelude::*;

verus! {

pub const CL_DEVICE_SVM_COARSE_GRAIN_BUFFER: u64 = 1;
pub const CL_DEVICE_SVM_FINE_GRAIN_BUFFER: u64 = 2;
pub const CL_DEVICE_SVM_FINE_GRAIN_SYSTEM: u64 = 4;
pub const CL_DEVICE_SVM_ATOMICS: u64 = 8;

/// The raw shared-virtual-memory capability mask of a device.
#[derive(Debug, Clone, Copy, PartialEq, Eq, Structural)]
pub struct SvmCapabilities {
    raw: u64,
}

impl SvmCapabilities {
    /// The raw mask this value was built from.
    pub closed spec fn spec_raw(&self) -> u64 {
        self.raw
    }

    /// Wraps the raw mask as the device reported it.
    pub fn from_raw(raw: u64) -> (r: SvmCapabilities)
        ensures
            r.spec_raw() == raw,
    {
        SvmCapabilities { raw }
    }

    /// The device supports coarse-grained shared buffers.
    pub fn coarse_grain_buffer(&self) -> (r: bool)
        ensures
            r == (self.spec_raw() & CL_DEVICE_SVM_COARSE_GRAIN_BUFFER != 0),
    {
        self.raw & CL_DEVICE_SVM_COARSE_GRAIN_BUFFER != 0
    }

    /// The device supports fine-grained shared buffers.
    pub fn fine_grain_buffer(&self) -> (r: bool)
        ensures
            r == (self.spec_raw() & CL_DEVICE_SVM_FINE_GRAIN_BUFFER != 0),
    {
        self.raw & CL_DEVICE_SVM_FINE_GRAIN_BUFFER != 0
    }

    /// The device shares its whole address space with the host.
    pub fn fine_grain_system(&self) -> (r: bool)
        ensures
            r == (self.spec_raw() & CL_DEVICE_SVM_FINE_GRAIN_SYSTEM != 0),
    {
        self.raw & CL_DEVICE_SVM_FINE_GRAIN_SYSTEM != 0
    }

    /// The device supports atomics on shared memory.
    pub fn atomics(&self) -> (r: bool)
        ensures
            r == (self.spec_raw() & CL_DEVICE_SVM_ATOMICS != 0),
    {
        self.raw & CL_DEVICE_SVM_ATOMICS != 0
    }
}

} // verus!

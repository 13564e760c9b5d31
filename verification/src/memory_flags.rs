//! Memory object access flags and their native bit encoding.
use vstd::prelude::*;

verus! {

pub const CL_MEM_READ_WRITE: u64 = 1;
pub const CL_MEM_WRITE_ONLY: u64 = 2;
pub const CL_MEM_READ_ONLY: u64 = 4;
pub const CL_MEM_USE_HOST_PTR: u64 = 8;
pub const CL_MEM_ALLOC_HOST_PTR: u64 = 16;
pub const CL_MEM_COPY_HOST_PTR: u64 = 32;
pub const CL_MEM_HOST_WRITE_ONLY: u64 = 128;
pub const CL_MEM_HOST_READ_ONLY: u64 = 256;
pub const CL_MEM_HOST_NO_ACCESS: u64 = 512;
pub const CL_MEM_KERNEL_READ_AND_WRITE: u64 = 4096;

/// Access flags for buffers, images, pipes and shared regions.
#[derive(Debug, Clone, Copy, PartialEq, Eq, Structural)]
pub enum MemoryFlags {
    ReadWrite,
    WriteOnly,
    ReadOnly,
    UseHostPtr,
    AllocHostPtr,
    CopyHostPtr,
    HostWriteOnly,
    HostReadOnly,
    HostNoAccess,
    KernelReadAndWrite,
}

/// The native bit each flag stands for.
pub open spec fn flag_bit(flag: MemoryFlags) -> u64 {
    match flag {
        MemoryFlags::ReadWrite => CL_MEM_READ_WRITE,
        MemoryFlags::WriteOnly => CL_MEM_WRITE_ONLY,
        MemoryFlags::ReadOnly => CL_MEM_READ_ONLY,
        MemoryFlags::UseHostPtr => CL_MEM_USE_HOST_PTR,
        MemoryFlags::AllocHostPtr => CL_MEM_ALLOC_HOST_PTR,
        MemoryFlags::CopyHostPtr => CL_MEM_COPY_HOST_PTR,
        MemoryFlags::HostWriteOnly => CL_MEM_HOST_WRITE_ONLY,
        MemoryFlags::HostReadOnly => CL_MEM_HOST_READ_ONLY,
        MemoryFlags::HostNoAccess => CL_MEM_HOST_NO_ACCESS,
        MemoryFlags::KernelReadAndWrite => CL_MEM_KERNEL_READ_AND_WRITE,
    }
}

/// The union of the bits of a whole flag list.
pub open spec fn flags_value(flags: Seq<MemoryFlags>) -> u64
    decreases flags.len(),
{
    if flags.len() == 0 {
        0u64
    } else {
        flags_value(flags.drop_last()) | flag_bit(flags.last())
    }
}

impl MemoryFlags {
    /// Combines a list of flags into the single native bit mask.
    pub fn to_u64(flags: &Vec<MemoryFlags>) -> (r: u64)
        ensures
            r == flags_value(flags@),
    {
        let mut carry: u64 = 0;
        let mut i: usize = 0;
        while i < flags.len()
            invariant
                i <= flags.len(),
                carry == flags_value(flags@.take(i as int)),
            decreases flags.len() - i,
        {
            carry = carry | MemoryFlags::get_u64(&flags[i]);
            proof {
                assert(flags@.take(i + 1).drop_last() =~= flags@.take(i as int));
                assert(flags@.take(i + 1).last() == flags@[i as int]);
            }
            i = i + 1;
        }
        proof {
            assert(flags@.take(flags@.len() as int) =~= flags@);
        }
        carry
    }

    /// The native bit of one flag.
    pub fn get_u64(flag: &MemoryFlags) -> (r: u64)
        ensures
            r == flag_bit(*flag),
    {
        match flag {
            MemoryFlags::ReadWrite => CL_MEM_READ_WRITE,
            MemoryFlags::WriteOnly => CL_MEM_WRITE_ONLY,
            MemoryFlags::ReadOnly => CL_MEM_READ_ONLY,
            MemoryFlags::UseHostPtr => CL_MEM_USE_HOST_PTR,
            MemoryFlags::AllocHostPtr => CL_MEM_ALLOC_HOST_PTR,
            MemoryFlags::CopyHostPtr => CL_MEM_COPY_HOST_PTR,
            MemoryFlags::HostWriteOnly => CL_MEM_HOST_WRITE_ONLY,
            MemoryFlags::HostReadOnly => CL_MEM_HOST_READ_ONLY,
            MemoryFlags::HostNoAccess => CL_MEM_HOST_NO_ACCESS,
            MemoryFlags::KernelReadAndWrite => CL_MEM_KERNEL_READ_AND_WRITE,
        }
    }
}

} // verus!

//! Command queue creation properties, for both the property-list creation
//! path of newer devices and the legacy bit-mask path.
use vstd::prelude::*;

use core::marker::PhantomData;

verus! {

pub const CL_QUEUE_OUT_OF_ORDER_EXEC_MODE_ENABLE: u64 = 1;
pub const CL_QUEUE_PROFILING_ENABLE: u64 = 2;
pub const CL_QUEUE_ON_DEVICE: u64 = 4;
pub const CL_QUEUE_ON_DEVICE_DEFAULT: u64 = 8;
pub const CL_QUEUE_PROPERTIES: u64 = 0x1093;
pub const CL_QUEUE_SIZE: u64 = 0x1094;

/// Marker for the property-list creation path (devices of version 2.0 on).
pub struct Version20;

/// Marker for the legacy creation path.
pub struct Version10;

/// Builder for the properties a command queue is created with.
/// The marker type selects which creation path the properties are for.
pub struct CommandQueueProperties<T> {
    properties: Vec<u64>,
    old_params: u64,
    phantom_value: PhantomData<T>,
}

impl<T> CommandQueueProperties<T> {
    /// The property list gathered so far (property-list path).
    pub closed spec fn spec_properties(&self) -> Seq<u64> {
        self.properties@
    }

    /// The bit mask gathered so far (legacy path).
    pub closed spec fn spec_old_params(&self) -> u64 {
        self.old_params
    }
}

/// The bit mask the four queue switches stand for. A queue on the device
/// forces out-of-order execution; a default on-device queue is an on-device
/// queue as well.
pub open spec fn queue_property_bits(
    out_of_order: bool,
    profiling: bool,
    on_device: bool,
    on_device_default: bool,
) -> u64 {
    (if out_of_order {
        CL_QUEUE_OUT_OF_ORDER_EXEC_MODE_ENABLE
    } else {
        0u64
    }) | (if profiling {
        CL_QUEUE_PROFILING_ENABLE
    } else {
        0u64
    }) | (if on_device {
        CL_QUEUE_ON_DEVICE | CL_QUEUE_OUT_OF_ORDER_EXEC_MODE_ENABLE
    } else {
        0u64
    }) | (if on_device_default {
        CL_QUEUE_ON_DEVICE_DEFAULT | CL_QUEUE_ON_DEVICE | CL_QUEUE_OUT_OF_ORDER_EXEC_MODE_ENABLE
    } else {
        0u64
    })
}

impl CommandQueueProperties<Version20> {
    /// An empty property list.
    pub fn new() -> (r: CommandQueueProperties<Version20>)
        ensures
            r.spec_properties() == Seq::<u64>::empty(),
            r.spec_old_params() == 0,
    {
        CommandQueueProperties { properties: Vec::new(), old_params: 0, phantom_value: PhantomData }
    }

    /// Appends the queue-properties key and the mask the four switches select.
    pub fn set_cl_queue_properties(
        self,
        cl_queue_out_of_order_exec_mode_enable: bool,
        cl_queue_profiling_enable: bool,
        cl_queue_on_device: bool,
        cl_queue_on_device_default: bool,
    ) -> (r: CommandQueueProperties<Version20>)
        ensures
            r.spec_properties() == self.spec_properties() + seq![
                CL_QUEUE_PROPERTIES,
                queue_property_bits(
                    cl_queue_out_of_order_exec_mode_enable,
                    cl_queue_profiling_enable,
                    cl_queue_on_device,
                    cl_queue_on_device_default,
                ),
            ],
            r.spec_old_params() == self.spec_old_params(),
    {
        let out_of_order_bits: u64 = if cl_queue_out_of_order_exec_mode_enable {
            CL_QUEUE_OUT_OF_ORDER_EXEC_MODE_ENABLE
        } else {
            0
        };
        let profiling_bits: u64 = if cl_queue_profiling_enable {
            CL_QUEUE_PROFILING_ENABLE
        } else {
            0
        };
        let on_device_bits: u64 = if cl_queue_on_device {
            CL_QUEUE_ON_DEVICE | CL_QUEUE_OUT_OF_ORDER_EXEC_MODE_ENABLE
        } else {
            0
        };
        let on_device_default_bits: u64 = if cl_queue_on_device_default {
            CL_QUEUE_ON_DEVICE_DEFAULT | CL_QUEUE_ON_DEVICE
                | CL_QUEUE_OUT_OF_ORDER_EXEC_MODE_ENABLE
        } else {
            0
        };
        let properties: u64 = out_of_order_bits | profiling_bits | on_device_bits
            | on_device_default_bits;
        let mut me = self;
        me.properties.push(CL_QUEUE_PROPERTIES);
        me.properties.push(properties);
        me
    }

    /// Appends the queue-size key and the requested size.
    pub fn set_cl_queue_size(self, size: u32) -> (r: CommandQueueProperties<Version20>)
        ensures
            r.spec_properties() == self.spec_properties() + seq![CL_QUEUE_SIZE, size as u64],
            r.spec_old_params() == self.spec_old_params(),
    {
        let mut me = self;
        me.properties.push(CL_QUEUE_SIZE);
        me.properties.push(size as u64);
        me
    }

    /// The finished property list, closed by the zero terminator the native
    /// API expects.
    pub fn get_properties(self) -> (r: Vec<u64>)
        ensures
            r@ == self.spec_properties() + seq![0u64],
    {
        let mut me = self;
        me.properties.push(0);
        me.properties
    }
}

impl Default for CommandQueueProperties<Version20> {
    /// Same as `new`: an empty property list.
    fn default() -> (r: CommandQueueProperties<Version20>)
        ensures
            r.spec_properties() == Seq::<u64>::empty(),
            r.spec_old_params() == 0,
    {
        CommandQueueProperties { old_params: 0, properties: Vec::new(), phantom_value: PhantomData }
    }
}

impl CommandQueueProperties<Version10> {
    /// An empty legacy bit mask.
    pub fn new() -> (r: CommandQueueProperties<Version10>)
        ensures
            r.spec_old_params() == 0,
            r.spec_properties() == Seq::<u64>::empty(),
    {
        CommandQueueProperties { old_params: 0, properties: Vec::new(), phantom_value: PhantomData }
    }

    /// The finished legacy bit mask.
    pub fn get_properties(self) -> (r: u64)
        ensures
            r == self.spec_old_params(),
    {
        self.old_params
    }

    /// Turns on out-of-order execution.
    pub fn cl_queue_out_of_order_exec_mode_enable(self) -> (r: CommandQueueProperties<Version10>)
        ensures
            r.spec_old_params() == self.spec_old_params() | CL_QUEUE_OUT_OF_ORDER_EXEC_MODE_ENABLE,
            r.spec_properties() == self.spec_properties(),
    {
        let mut me = self;
        me.old_params = me.old_params | CL_QUEUE_OUT_OF_ORDER_EXEC_MODE_ENABLE;
        me
    }

    /// Turns on profiling timestamps.
    pub fn cl_queue_profiling_enable(self) -> (r: CommandQueueProperties<Version10>)
        ensures
            r.spec_old_params() == self.spec_old_params() | CL_QUEUE_PROFILING_ENABLE,
            r.spec_properties() == self.spec_properties(),
    {
        let mut me = self;
        me.old_params = me.old_params | CL_QUEUE_PROFILING_ENABLE;
        me
    }
}

} // verus!

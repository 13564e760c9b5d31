//! The executor's decisions: scoring devices and platforms, picking the
//! best platform, choosing each queue's creation path, and standing up the
//! fleet of queues that tasks and pipelines run on.
//!
//! Device discovery itself is native work; the embedding application
//! queries the facts and hands them in as plain values.
use vstd::prelude::*;

use crate::command_queue_parameters::{
    queue_property_bits, CommandQueueProperties, Version10, Version20,
    CL_QUEUE_OUT_OF_ORDER_EXEC_MODE_ENABLE, CL_QUEUE_PROFILING_ENABLE, CL_QUEUE_PROPERTIES,
};
use crate::opencl_version::{version_rank, OpenCLVersion};
use crate::partition::sum_weights;
use crate::pipeline::PipelineBuilder;
use crate::task::{clamped, QueueInfo, TaskBuilder};
use vstd::arithmetic::div_mod::lemma_div_is_ordered;
use vstd::arithmetic::mul::lemma_mul_upper_bound;

verus! {

/// The capacity weight of a device: compute units times clock in
/// megahertz, scaled down, plus a share for its memory in mebibytes.
pub open spec fn spec_device_weight(
    compute_units: u32,
    clock_frequency: u32,
    global_mem_size: u64,
) -> int {
    (compute_units * clock_frequency) / 100 + (global_mem_size / 1048576) / 10
}

/// Scores one device, as `spec_device_weight` says.
pub fn measure_device_capacity(
    compute_units: u32,
    clock_frequency: u32,
    global_mem_size: u64,
) -> (r: u64)
    ensures
        r == spec_device_weight(compute_units, clock_frequency, global_mem_size),
{
    proof {
        lemma_mul_upper_bound(
            compute_units as int,
            u32::MAX as int,
            clock_frequency as int,
            u32::MAX as int,
        );
        lemma_div_is_ordered(
            (compute_units * clock_frequency) as int,
            (u32::MAX as int) * (u32::MAX as int),
            100,
        );
        lemma_div_is_ordered(global_mem_size as int, u64::MAX as int, 1048576);
        lemma_div_is_ordered((global_mem_size / 1048576) as int, (u64::MAX as int) / 1048576, 10);
    }
    ((compute_units as u64 * clock_frequency as u64) / 100) + ((global_mem_size / (1024 * 1024))
        / 10)
}

/// Scores one platform: the sum of its device weights, saturating at a
/// machine word.
pub fn measure_platform_capacity(device_weights: &Vec<u64>) -> (r: u64)
    ensures
        r == clamped(sum_weights(device_weights@)),
{
    let mut acc: u64 = 0;
    let mut i: usize = 0;
    while i < device_weights.len()
        invariant
            i <= device_weights.len(),
            acc == clamped(sum_weights(device_weights@.take(i as int))),
        decreases device_weights.len() - i,
    {
        proof {
            assert(device_weights@.take(i + 1).drop_last() =~= device_weights@.take(i as int));
            assert(device_weights@.take(i + 1).last() == device_weights@[i as int]);
        }
        let w = device_weights[i];
        acc = if acc > u64::MAX - w {
            u64::MAX
        } else {
            acc + w
        };
        i = i + 1;
    }
    proof {
        assert(device_weights@.take(device_weights@.len() as int) =~= device_weights@);
    }
    acc
}

/// Picks the best platform: the first index whose score no other index
/// beats. With no platforms at all the first index is returned and the
/// caller finds nothing there.
pub fn select_best_platform(scores: &Vec<u64>) -> (r: usize)
    ensures
        scores@.len() == 0 ==> r == 0,
        scores@.len() > 0 ==> {
            &&& r < scores@.len()
            &&& forall|j: int| 0 <= j < scores@.len() ==> #[trigger] scores@[j] <= scores@[r as int]
            &&& forall|j: int| 0 <= j < r ==> #[trigger] scores@[j] < scores@[r as int]
        },
{
    let mut idx: usize = 0;
    let mut max: u64 = 0;
    let mut i: usize = 0;
    while i < scores.len()
        invariant
            i <= scores.len(),
            scores@.len() > 0 ==> idx < scores@.len(),
            scores@.len() == 0 ==> idx == 0,
            idx < i || (idx == 0 && max == 0),
            i > 0 ==> max <= scores@[idx as int] || (max == 0 && idx == 0),
            forall|j: int| 0 <= j < i ==> #[trigger] scores@[j] <= max,
            max > 0 ==> idx < i && scores@[idx as int] == max,
            max == 0 ==> idx == 0,
            forall|j: int| 0 <= j < idx ==> #[trigger] scores@[j] < max,
        decreases scores.len() - i,
    {
        let v = scores[i];
        if v > max {
            idx = i;
            max = v;
        }
        i = i + 1;
    }
    proof {
        if scores@.len() > 0 {
            if max == 0 {
                assert(scores@[0] <= max);
            }
        }
    }
    idx
}

/// Picks the default platform: the last index whose numeric version no
/// other index beats; none at all with no platforms.
pub fn select_default_platform(versions: &Vec<u32>) -> (r: Option<usize>)
    ensures
        versions@.len() == 0 <==> r is None,
        r matches Some(i) ==> {
            &&& i < versions@.len()
            &&& forall|j: int|
                0 <= j < versions@.len() ==> #[trigger] versions@[j] <= versions@[i as int]
            &&& forall|j: int|
                i < j < versions@.len() ==> #[trigger] versions@[j] < versions@[i as int]
        },
{
    let mut best: Option<usize> = None;
    let mut min_version: u32 = 0;
    let mut i: usize = 0;
    while i < versions.len()
        invariant
            i <= versions.len(),
            i == 0 ==> best is None && min_version == 0,
            i > 0 ==> best is Some,
            i > 0 ==> best->0 < i && versions@[best->0 as int] == min_version,
            forall|j: int| 0 <= j < i ==> #[trigger] versions@[j] <= min_version,
            best is Some ==> forall|j: int|
                best->0 < j < i ==> #[trigger] versions@[j] < min_version,
        decreases versions.len() - i,
    {
        let v = versions[i];
        if v >= min_version {
            min_version = v;
            best = Some(i);
        }
        i = i + 1;
    }
    best
}

/// The creation path of one queue: the property list of the newer API, or
/// the legacy bit mask.
#[derive(Debug, Clone, PartialEq, Eq)]
pub enum QueueCreation {
    WithProperties(Vec<u64>),
    Legacy(u64),
}

/// Whether the host-properties mask a device reported advertises
/// out-of-order execution.
pub open spec fn out_of_order_advertised(host_props: Option<u64>) -> bool {
    host_props matches Some(h) && h & CL_QUEUE_OUT_OF_ORDER_EXEC_MODE_ENABLE != 0
}

/// Decides how a queue is created for a device. Devices of version 2.0 on
/// get the property-list path, with out-of-order execution iff the device
/// advertises it and profiling iff requested; older devices get the legacy
/// path with at most the profiling bit.
pub fn queue_creation_config(
    version: OpenCLVersion,
    host_props: Option<u64>,
    profiling: bool,
) -> (r: QueueCreation)
    ensures
        version_rank(version) >= version_rank(OpenCLVersion::V2_0) ==> (r matches
            QueueCreation::WithProperties(p) && p@ == seq![
                CL_QUEUE_PROPERTIES,
                queue_property_bits(out_of_order_advertised(host_props), profiling, false, false),
                0u64,
            ]),
        version_rank(version) < version_rank(OpenCLVersion::V2_0) ==> r
            == QueueCreation::Legacy(
            if profiling {
                CL_QUEUE_PROFILING_ENABLE
            } else {
                0u64
            },
        ),
{
    if version >= OpenCLVersion::V2_0 {
        let supports_out_of_order = match host_props {
            Option::Some(h) => h & CL_QUEUE_OUT_OF_ORDER_EXEC_MODE_ENABLE != 0,
            Option::None => false,
        };
        let properties = CommandQueueProperties::<Version20>::new().set_cl_queue_properties(
            supports_out_of_order,
            profiling,
            false,
            false,
        ).get_properties();
        proof {
            assert(properties@ =~= seq![
                CL_QUEUE_PROPERTIES,
                queue_property_bits(out_of_order_advertised(host_props), profiling, false, false),
                0u64,
            ]);
        }
        QueueCreation::WithProperties(properties)
    } else {
        let params = CommandQueueProperties::<Version10>::new();
        let bits: u64 = if profiling {
            params.cl_queue_profiling_enable().get_properties()
        } else {
            params.get_properties()
        };
        proof {
            assert(0u64 | CL_QUEUE_PROFILING_ENABLE == CL_QUEUE_PROFILING_ENABLE) by (bit_vector);
        }
        QueueCreation::Legacy(bits)
    }
}

/// The facts the executor reads off one device before standing up its
/// queue.
#[derive(Debug, Clone, Copy, PartialEq, Eq)]
pub struct DeviceFacts {
    pub compute_units: u32,
    pub max_clock_frequency: u32,
    pub global_mem_size: u64,
    pub version: OpenCLVersion,
    pub queue_on_host_properties: Option<u64>,
    pub non_uniform_support: bool,
    pub preferred_work_group_size: Option<usize>,
}

/// The queue a device ends up with: its measured weight and the facts the
/// partitioner later needs, as `ExecutorCore::from_device_facts` lays them
/// out.
pub open spec fn queue_info_of(f: DeviceFacts) -> QueueInfo {
    QueueInfo {
        weight: spec_device_weight(
            f.compute_units,
            f.max_clock_frequency,
            f.global_mem_size,
        ) as u64,
        version: f.version,
        non_uniform_support: f.non_uniform_support,
        preferred_work_group_size: f.preferred_work_group_size,
    }
}

/// The verified core of the executor: one queue per device, each with its
/// measured weight, and the profiling switch. The native context and
/// queues live with the embedding application, in the same order.
#[derive(Debug, Clone, PartialEq, Eq)]
pub struct ExecutorCore {
    pub queues: Vec<QueueInfo>,
    pub profiling_enabled: bool,
}

impl ExecutorCore {
    /// Stands up the fleet from the facts of each device: scores every
    /// device, and decides every queue's creation path.
    pub fn from_device_facts(facts: &Vec<DeviceFacts>, profiling_enabled: bool) -> (r: (
        ExecutorCore,
        Vec<QueueCreation>,
    ))
        ensures
            r.0.profiling_enabled == profiling_enabled,
            r.0.queues@.len() == facts@.len(),
            forall|i: int|
                0 <= i < facts@.len() ==> #[trigger] r.0.queues@[i] == queue_info_of(facts@[i]),
            r.1@.len() == facts@.len(),
            forall|i: int|
                0 <= i < facts@.len() ==> {
                    let f = #[trigger] facts@[i];
                    let c = r.1@[i];
                    &&& (version_rank(f.version) >= version_rank(OpenCLVersion::V2_0) ==> (c
                        matches QueueCreation::WithProperties(p) && p@ == seq![
                            CL_QUEUE_PROPERTIES,
                            queue_property_bits(
                                out_of_order_advertised(f.queue_on_host_properties),
                                profiling_enabled,
                                false,
                                false,
                            ),
                            0u64,
                        ]))
                    &&& (version_rank(f.version) < version_rank(OpenCLVersion::V2_0) ==> c
                        == QueueCreation::Legacy(
                        if profiling_enabled {
                            CL_QUEUE_PROFILING_ENABLE
                        } else {
                            0u64
                        },
                    ))
                },
    {
        let mut queues: Vec<QueueInfo> = Vec::new();
        let mut creations: Vec<QueueCreation> = Vec::new();
        let mut i: usize = 0;
        while i < facts.len()
            invariant
                i <= facts.len(),
                queues@.len() == i,
                creations@.len() == i,
                forall|k: int| 0 <= k < i ==> #[trigger] queues@[k] == queue_info_of(facts@[k]),
                forall|k: int|
                    0 <= k < i ==> {
                        let f = #[trigger] facts@[k];
                        let c = creations@[k];
                        &&& (version_rank(f.version) >= version_rank(OpenCLVersion::V2_0) ==> (c
                            matches QueueCreation::WithProperties(p) && p@ == seq![
                                CL_QUEUE_PROPERTIES,
                                queue_property_bits(
                                    out_of_order_advertised(f.queue_on_host_properties),
                                    profiling_enabled,
                                    false,
                                    false,
                                ),
                                0u64,
                            ]))
                        &&& (version_rank(f.version) < version_rank(OpenCLVersion::V2_0) ==> c
                            == QueueCreation::Legacy(
                            if profiling_enabled {
                                CL_QUEUE_PROFILING_ENABLE
                            } else {
                                0u64
                            },
                        ))
                    },
            decreases facts.len() - i,
        {
            let f = facts[i];
            let weight = measure_device_capacity(
                f.compute_units,
                f.max_clock_frequency,
                f.global_mem_size,
            );
            queues.push(
                QueueInfo {
                    weight,
                    version: f.version,
                    non_uniform_support: f.non_uniform_support,
                    preferred_work_group_size: f.preferred_work_group_size,
                },
            );
            creations.push(
                queue_creation_config(f.version, f.queue_on_host_properties, profiling_enabled),
            );
            i = i + 1;
        }
        (ExecutorCore { queues, profiling_enabled }, creations)
    }

    /// Whether tasks and pipelines of this fleet profile by default.
    pub fn is_profiling_enabled(&self) -> (r: bool)
        ensures
            r == self.profiling_enabled,
    {
        self.profiling_enabled
    }

    /// The versions of the fleet's devices, in queue order.
    pub fn get_device_versions(&self) -> (r: Vec<OpenCLVersion>)
        ensures
            r@.len() == self.queues@.len(),
            forall|i: int|
                0 <= i < self.queues@.len() ==> #[trigger] r@[i] == self.queues@[i].version,
    {
        let mut r: Vec<OpenCLVersion> = Vec::new();
        let mut i: usize = 0;
        while i < self.queues.len()
            invariant
                i <= self.queues.len(),
                r@.len() == i,
                forall|k: int| 0 <= k < i ==> #[trigger] r@[k] == self.queues@[k].version,
            decreases self.queues.len() - i,
        {
            r.push(self.queues[i].version);
            i = i + 1;
        }
        r
    }

    /// Opens a task over this fleet's queues.
    pub fn create_task(&self) -> (r: TaskBuilder)
        ensures
            r.queues@ == self.queues@,
            r.kernel_args@ == Seq::<crate::task::KernelArg>::empty(),
            r.global_work_dims is None,
            r.global_work_offset is None,
            r.local_work_dims is None,
            r.output_reads@ == Seq::<crate::task::OutputRead>::empty(),
            r.wait_list_len is None,
            r.profiling_enabled == self.profiling_enabled,
    {
        TaskBuilder::new(self.copy_queues(), self.profiling_enabled)
    }

    /// Opens a pipeline over this fleet's queues.
    pub fn create_pipeline(&self) -> (r: PipelineBuilder)
        ensures
            r.queues@ == self.queues@,
            r.stages@ == Seq::<crate::pipeline::PipelineStage>::empty(),
            r.final_reads@ == Seq::<crate::task::OutputRead>::empty(),
            r.profiling_enabled == self.profiling_enabled,
    {
        PipelineBuilder::new(self.copy_queues(), self.profiling_enabled)
    }

    /// A copy of the queue list.
    fn copy_queues(&self) -> (r: Vec<QueueInfo>)
        ensures
            r@ == self.queues@,
    {
        let mut r: Vec<QueueInfo> = Vec::new();
        let mut i: usize = 0;
        while i < self.queues.len()
            invariant
                i <= self.queues.len(),
                r@ == self.queues@.take(i as int),
            decreases self.queues.len() - i,
        {
            r.push(self.queues[i]);
            proof {
                assert(r@ =~= self.queues@.take(i + 1));
            }
            i = i + 1;
        }
        proof {
            assert(self.queues@.take(self.queues@.len() as int) =~= self.queues@);
        }
        r
    }
}

} // verus!

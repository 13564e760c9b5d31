//! The declarative task builder: argument binding, work-descriptor
//! defaults, the per-queue submission plan, and the profiling report.
//!
//! The builder only decides; the native enqueues that carry a plan out live
//! with the embedding application, which hands device facts in as plain
//! values and takes the plan back.
use vstd::prelude::*;

use crate::errors::{ApiError, ClError, WrapperError};
use crate::events::{spec_duration, EventProfile};
use crate::opencl_version::{version_rank, OpenCLVersion};
use crate::partition::{partition_work, spec_partition, WorkChunk};
use crate::work_dims::{
    choose_local_dims, effective_work_dim, local_divides, local_fits, spec_local_dims,
    spec_product, spec_trim, spec_work_dim, trim_dims, Dim3,
};

verus! {

/// One bound kernel argument. Memory objects are named by the slot their
/// handle occupies at the caller; scalars carry their bytes.
#[derive(Debug, Clone, PartialEq, Eq)]
pub enum KernelArg {
    Svm { arg_index: u32, arg: usize, len: usize },
    Buffer { arg_index: u32, arg: usize },
    Scalar { arg_index: u32, arg: Vec<u8> },
    Image { arg_index: u32, arg: usize },
    Pipe { arg_index: u32, arg: usize },
}

/// The payload a binding carries, with the bytes of a scalar abstracted to
/// their sequence.
pub enum ArgValue {
    SvmSlot(usize, usize),
    BufferSlot(usize),
    ScalarBytes(Seq<u8>),
    ImageSlot(usize),
    PipeSlot(usize),
}

/// The argument index a binding is set at.
pub open spec fn arg_index_of(a: KernelArg) -> u32 {
    match a {
        KernelArg::Svm { arg_index, .. } => arg_index,
        KernelArg::Buffer { arg_index, .. } => arg_index,
        KernelArg::Scalar { arg_index, .. } => arg_index,
        KernelArg::Image { arg_index, .. } => arg_index,
        KernelArg::Pipe { arg_index, .. } => arg_index,
    }
}

/// The payload a binding carries.
pub open spec fn arg_value_of(a: KernelArg) -> ArgValue {
    match a {
        KernelArg::Svm { arg, len, .. } => ArgValue::SvmSlot(arg, len),
        KernelArg::Buffer { arg, .. } => ArgValue::BufferSlot(arg),
        KernelArg::Scalar { arg, .. } => ArgValue::ScalarBytes(arg@),
        KernelArg::Image { arg, .. } => ArgValue::ImageSlot(arg),
        KernelArg::Pipe { arg, .. } => ArgValue::PipeSlot(arg),
    }
}

/// What a kernel object holds after a list of argument bindings is applied
/// in order: the last binding of each index wins.
pub open spec fn effective_bindings(args: Seq<KernelArg>) -> Map<u32, ArgValue>
    decreases args.len(),
{
    if args.len() == 0 {
        Map::empty()
    } else {
        effective_bindings(args.drop_last()).insert(
            arg_index_of(args.last()),
            arg_value_of(args.last()),
        )
    }
}

/// The rebinding law: setting an argument index again, to the payload it
/// already holds, leaves the kernel's effective bindings unchanged.
pub proof fn lemma_rebind_same_is_noop(args: Seq<KernelArg>, a: KernelArg)
    requires
        effective_bindings(args).contains_key(arg_index_of(a)),
        effective_bindings(args)[arg_index_of(a)] == arg_value_of(a),
    ensures
        effective_bindings(args.push(a)) == effective_bindings(args),
{
    assert(args.push(a).drop_last() =~= args);
    assert(args.push(a).last() == a);
    assert(effective_bindings(args.push(a)) =~= effective_bindings(args));
}

/// What the partitioner needs to know of one queue: its measured weight and
/// the device facts that steer the local work-group choice.
#[derive(Debug, Clone, Copy, PartialEq, Eq)]
pub struct QueueInfo {
    pub weight: u64,
    pub version: OpenCLVersion,
    pub non_uniform_support: bool,
    pub preferred_work_group_size: Option<usize>,
}

/// A queue that must be handed uniform work groups: one without usable
/// non-uniform work-group support.
pub open spec fn queue_uniform_only(q: QueueInfo) -> bool {
    !(version_rank(q.version) >= version_rank(OpenCLVersion::V2_0) && q.non_uniform_support)
}

/// One planned kernel enqueue: which queue, and the trimmed work descriptor
/// it is launched with. An empty local shape leaves the choice to the
/// runtime.
#[derive(Debug, Clone, PartialEq, Eq)]
pub struct KernelSubmission {
    pub queue_index: usize,
    pub work_dim: u32,
    pub global_offset: Vec<usize>,
    pub global_dims: Vec<usize>,
    pub local_dims: Vec<usize>,
}

/// A readback requested after the compute stages: the slot of the memory
/// object to read and where it goes, in plain values.
#[derive(Debug, Clone, Copy, PartialEq, Eq)]
pub enum OutputRead {
    Buffer { buffer: usize, size: usize },
    Image { image: usize, origin: Dim3, region: Dim3 },
}

/// The finished decision of a task: bindings to apply in order, the
/// per-queue submissions, and the readbacks. Readbacks are submitted on the
/// first queue after all submissions completed, with no explicit wait list.
#[derive(Debug, Clone, PartialEq, Eq)]
pub struct TaskPlan {
    pub kernel_args: Vec<KernelArg>,
    pub submissions: Vec<KernelSubmission>,
    pub output_reads: Vec<OutputRead>,
    pub profiling_enabled: bool,
}

/// The weights of a queue list.
pub open spec fn weights_of(queues: Seq<QueueInfo>) -> Seq<u64> {
    queues.map_values(|q: QueueInfo| q.weight)
}

/// One per-event entry of a report: the profile of the command, where the
/// queue could provide one.
#[derive(Debug, Clone, Copy, PartialEq, Eq)]
pub enum EventTiming {
    Unavailable,
    Profiled(EventProfile),
}

/// The run time an entry contributes to a total: profiled commands
/// contribute their duration, entries without a profile contribute nothing.
pub open spec fn timing_duration(t: EventTiming) -> nat {
    match t {
        EventTiming::Unavailable => 0,
        EventTiming::Profiled(p) => spec_duration(p),
    }
}

/// Total run time of a list of report entries.
pub open spec fn total_duration(events: Seq<EventTiming>) -> nat
    decreases events.len(),
{
    if events.len() == 0 {
        0
    } else {
        total_duration(events.drop_last()) + timing_duration(events.last())
    }
}

/// Clamps a mathematical total to what a machine word can carry.
pub open spec fn clamped(total: nat) -> u64 {
    if total <= u64::MAX {
        total as u64
    } else {
        u64::MAX
    }
}

/// The results of one task run: kernel execution events and readback
/// events, with their profiles where the queues provided them.
#[derive(Debug, Clone, PartialEq, Eq)]
pub struct TaskReport {
    pub kernel_execution_events: Vec<EventTiming>,
    pub read_events: Vec<EventTiming>,
}

/// Adds up the durations of a list of report entries, saturating at what a
/// machine word can carry.
fn sum_durations(events: &Vec<EventTiming>) -> (r: u64)
    ensures
        r == clamped(total_duration(events@)),
{
    let mut acc: u64 = 0;
    let mut i: usize = 0;
    while i < events.len()
        invariant
            i <= events.len(),
            acc == clamped(total_duration(events@.take(i as int))),
        decreases events.len() - i,
    {
        proof {
            assert(events@.take(i + 1).drop_last() =~= events@.take(i as int));
            assert(events@.take(i + 1).last() == events@[i as int]);
        }
        let d: u64 = match &events[i] {
            EventTiming::Unavailable => 0,
            EventTiming::Profiled(p) => p.get_duration_nanos(),
        };
        acc = if acc > u64::MAX - d {
            u64::MAX
        } else {
            acc + d
        };
        i = i + 1;
    }
    proof {
        assert(events@.take(events@.len() as int) =~= events@);
    }
    acc
}

impl TaskReport {
    /// An empty report.
    pub fn new() -> (r: TaskReport)
        ensures
            r.kernel_execution_events@ == Seq::<EventTiming>::empty(),
            r.read_events@ == Seq::<EventTiming>::empty(),
    {
        TaskReport { kernel_execution_events: Vec::new(), read_events: Vec::new() }
    }

    /// Total time the kernels ran on the devices, saturating at a machine
    /// word.
    pub fn total_kernel_duration_ns(&self) -> (r: u64)
        ensures
            r == clamped(total_duration(self.kernel_execution_events@)),
    {
        sum_durations(&self.kernel_execution_events)
    }

    /// Total time the readbacks took, saturating at a machine word.
    pub fn total_read_duration_ns(&self) -> (r: u64)
        ensures
            r == clamped(total_duration(self.read_events@)),
    {
        sum_durations(&self.read_events)
    }
}

/// The work extent of a task, defaulting to a single item.
pub open spec fn task_dims(t: TaskBuilder) -> Dim3 {
    match t.global_work_dims {
        Option::Some(d) => d,
        Option::None => Dim3 { x: 1, y: 1, z: 1 },
    }
}

/// The work offset of a task, defaulting to the origin.
pub open spec fn task_offset(t: TaskBuilder) -> Dim3 {
    match t.global_work_offset {
        Option::Some(d) => d,
        Option::None => Dim3 { x: 0, y: 0, z: 0 },
    }
}

/// The effective dimensionality of a task.
pub open spec fn task_wd(t: TaskBuilder) -> int {
    spec_work_dim(task_dims(t), task_offset(t))
}

/// The first-axis chunks a task splits into.
pub open spec fn task_chunks(t: TaskBuilder) -> Seq<WorkChunk> {
    spec_partition(task_offset(t).x as int, task_dims(t).x as nat, weights_of(t.queues@))
}

/// The trimmed global extent one chunk is launched with.
pub open spec fn chunk_global_dims(t: TaskBuilder, c: WorkChunk) -> Seq<usize> {
    spec_trim(Dim3 { x: c.size, y: task_dims(t).y, z: task_dims(t).z }, task_wd(t))
}

/// The trimmed global offset one chunk is launched at.
pub open spec fn chunk_global_offset(t: TaskBuilder, c: WorkChunk) -> Seq<usize> {
    spec_trim(Dim3 { x: c.offset, y: task_offset(t).y, z: task_offset(t).z }, task_wd(t))
}

/// The local shape one chunk's queue is handed.
pub open spec fn chunk_local_dims(t: TaskBuilder, c: WorkChunk) -> Seq<usize> {
    let q = t.queues@[c.queue_index as int];
    spec_local_dims(
        t.local_work_dims,
        task_wd(t),
        q.version,
        q.non_uniform_support,
        q.preferred_work_group_size,
    )
}

/// One planned submission carries exactly what its chunk dictates.
pub open spec fn submission_matches(t: TaskBuilder, c: WorkChunk, s: KernelSubmission) -> bool {
    &&& s.queue_index == c.queue_index
    &&& s.work_dim == task_wd(t)
    &&& s.global_offset@ == chunk_global_offset(t, c)
    &&& s.global_dims@ == chunk_global_dims(t, c)
    &&& s.local_dims@ == chunk_local_dims(t, c)
}

/// A chunk that a device without non-uniform work-group support cannot run:
/// the caller fixed a local shape whose work-item count does not divide the
/// chunk's.
pub open spec fn chunk_breaks_uniformity(t: TaskBuilder, c: WorkChunk) -> bool {
    &&& t.local_work_dims is Some
    &&& queue_uniform_only(t.queues@[c.queue_index as int])
    &&& !local_fits(chunk_local_dims(t, c), chunk_global_dims(t, c))
}

/// Some chunk of the task breaks the uniform work-group rule.
pub open spec fn task_breaks_uniformity(t: TaskBuilder) -> bool {
    exists|j: int|
        0 <= j < task_chunks(t).len() && chunk_breaks_uniformity(t, #[trigger] task_chunks(t)[j])
}

/// A task under construction: the queues it may run on, its bound
/// arguments, its work descriptor and its requested readbacks. Setters
/// chain; `plan` closes the builder into a decision.
#[derive(Debug, Clone, PartialEq, Eq)]
pub struct TaskBuilder {
    pub queues: Vec<QueueInfo>,
    pub kernel_args: Vec<KernelArg>,
    pub global_work_dims: Option<Dim3>,
    pub global_work_offset: Option<Dim3>,
    pub local_work_dims: Option<Dim3>,
    pub output_reads: Vec<OutputRead>,
    pub wait_list_len: Option<usize>,
    pub profiling_enabled: bool,
}

impl TaskBuilder {
    /// A fresh task over the given queues, inheriting the fleet's profiling
    /// switch.
    pub fn new(queues: Vec<QueueInfo>, profiling_enabled: bool) -> (r: TaskBuilder)
        ensures
            r.queues@ == queues@,
            r.kernel_args@ == Seq::<KernelArg>::empty(),
            r.global_work_dims is None,
            r.global_work_offset is None,
            r.local_work_dims is None,
            r.output_reads@ == Seq::<OutputRead>::empty(),
            r.wait_list_len is None,
            r.profiling_enabled == profiling_enabled,
    {
        TaskBuilder {
            queues,
            kernel_args: Vec::new(),
            global_work_dims: None,
            global_work_offset: None,
            local_work_dims: None,
            output_reads: Vec::new(),
            wait_list_len: None,
            profiling_enabled,
        }
    }

    /// Overrides the fleet's profiling switch for one run.
    pub fn with_profiling(self, enabled: bool) -> (r: TaskBuilder)
        ensures
            r == (TaskBuilder { profiling_enabled: enabled, ..self }),
    {
        let mut me = self;
        me.profiling_enabled = enabled;
        me
    }

    /// Binds a scalar argument from its bytes.
    pub fn arg_scalar(self, arg_index: u32, scalar: Vec<u8>) -> (r: TaskBuilder)
        ensures
            r.kernel_args@ == self.kernel_args@.push(
                KernelArg::Scalar { arg_index, arg: scalar },
            ),
            r == (TaskBuilder { kernel_args: r.kernel_args, ..self }),
    {
        let len: usize = scalar.len();
        self.add_scalar(arg_index, scalar, len)
    }

    /// Binds a buffer argument by its slot.
    pub fn arg_buffer(self, arg_index: u32, buffer: usize) -> (r: TaskBuilder)
        ensures
            r.kernel_args@ == self.kernel_args@.push(KernelArg::Buffer { arg_index, arg: buffer }),
            r == (TaskBuilder { kernel_args: r.kernel_args, ..self }),
    {
        self.add_buffer(arg_index, buffer)
    }

    /// Binds an image argument by its slot.
    pub fn arg_image(self, arg_index: u32, image: usize) -> (r: TaskBuilder)
        ensures
            r.kernel_args@ == self.kernel_args@.push(KernelArg::Image { arg_index, arg: image }),
            r == (TaskBuilder { kernel_args: r.kernel_args, ..self }),
    {
        self.add_image_buffer(arg_index, image)
    }

    /// Binds a shared-virtual-memory argument by its slot and length.
    pub fn arg_svm(self, arg_index: u32, buffer: usize, len: usize) -> (r: TaskBuilder)
        ensures
            r.kernel_args@ == self.kernel_args@.push(
                KernelArg::Svm { arg_index, arg: buffer, len },
            ),
            r == (TaskBuilder { kernel_args: r.kernel_args, ..self }),
    {
        self.add_svm_buffer(arg_index, buffer, len)
    }

    /// Binds a pipe argument by its slot.
    pub fn arg_pipe(self, arg_index: u32, pipe: usize) -> (r: TaskBuilder)
        ensures
            r.kernel_args@ == self.kernel_args@.push(KernelArg::Pipe { arg_index, arg: pipe }),
            r == (TaskBuilder { kernel_args: r.kernel_args, ..self }),
    {
        self.add_pipe(arg_index, pipe)
    }

    /// Requests that a buffer be copied back to the host when the kernels
    /// are done.
    pub fn read_buffer(self, buffer: usize, size: usize) -> (r: TaskBuilder)
        ensures
            r.output_reads@ == self.output_reads@.push(OutputRead::Buffer { buffer, size }),
            r == (TaskBuilder { output_reads: r.output_reads, ..self }),
    {
        let mut me = self;
        me.output_reads.push(OutputRead::Buffer { buffer, size });
        me
    }

    /// Requests that an image region be copied back to the host when the
    /// kernels are done.
    pub fn read_image(self, image: usize, origin: Dim3, region: Dim3) -> (r: TaskBuilder)
        ensures
            r.output_reads@ == self.output_reads@.push(OutputRead::Image { image, origin, region }),
            r == (TaskBuilder { output_reads: r.output_reads, ..self }),
    {
        let mut me = self;
        me.output_reads.push(OutputRead::Image { image, origin, region });
        me
    }

    /// Binds a scalar argument from its bytes; the size is the byte width
    /// of the value and is carried by the bytes themselves.
    pub fn add_scalar(self, arg_index: u32, scalar: Vec<u8>, byte_size: usize) -> (r: TaskBuilder)
        requires
            byte_size == scalar@.len(),
        ensures
            r.kernel_args@ == self.kernel_args@.push(
                KernelArg::Scalar { arg_index, arg: scalar },
            ),
            r == (TaskBuilder { kernel_args: r.kernel_args, ..self }),
    {
        let mut me = self;
        me.kernel_args.push(KernelArg::Scalar { arg_index, arg: scalar });
        me
    }

    /// Binds a buffer argument by its slot.
    pub fn add_buffer(self, arg_index: u32, buffer: usize) -> (r: TaskBuilder)
        ensures
            r.kernel_args@ == self.kernel_args@.push(KernelArg::Buffer { arg_index, arg: buffer }),
            r == (TaskBuilder { kernel_args: r.kernel_args, ..self }),
    {
        let mut me = self;
        me.kernel_args.push(KernelArg::Buffer { arg_index, arg: buffer });
        me
    }

    /// Binds a shared-virtual-memory argument by its slot and length.
    pub fn add_svm_buffer(self, arg_index: u32, buffer: usize, len: usize) -> (r: TaskBuilder)
        ensures
            r.kernel_args@ == self.kernel_args@.push(
                KernelArg::Svm { arg_index, arg: buffer, len },
            ),
            r == (TaskBuilder { kernel_args: r.kernel_args, ..self }),
    {
        let mut me = self;
        me.kernel_args.push(KernelArg::Svm { arg_index, arg: buffer, len });
        me
    }

    /// Binds an image argument by its slot.
    pub fn add_image_buffer(self, arg_index: u32, image_buffer: usize) -> (r: TaskBuilder)
        ensures
            r.kernel_args@ == self.kernel_args@.push(
                KernelArg::Image { arg_index, arg: image_buffer },
            ),
            r == (TaskBuilder { kernel_args: r.kernel_args, ..self }),
    {
        let mut me = self;
        me.kernel_args.push(KernelArg::Image { arg_index, arg: image_buffer });
        me
    }

    /// Binds a pipe argument by its slot.
    pub fn add_pipe(self, arg_index: u32, pipe: usize) -> (r: TaskBuilder)
        ensures
            r.kernel_args@ == self.kernel_args@.push(KernelArg::Pipe { arg_index, arg: pipe }),
            r == (TaskBuilder { kernel_args: r.kernel_args, ..self }),
    {
        let mut me = self;
        me.kernel_args.push(KernelArg::Pipe { arg_index, arg: pipe });
        me
    }

    /// Fixes the local work shape.
    pub fn local_work_dims(self, x: usize, y: usize, z: usize) -> (r: TaskBuilder)
        ensures
            r == (TaskBuilder { local_work_dims: Some(Dim3 { x, y, z }), ..self }),
    {
        let mut me = self;
        me.local_work_dims = Some(Dim3 { x, y, z });
        me
    }

    /// Fixes the global work offset.
    pub fn global_work_offset(self, x: usize, y: usize, z: usize) -> (r: TaskBuilder)
        ensures
            r == (TaskBuilder { global_work_offset: Some(Dim3 { x, y, z }), ..self }),
    {
        let mut me = self;
        me.global_work_offset = Some(Dim3 { x, y, z });
        me
    }

    /// Fixes how many kernel instances run in total.
    pub fn global_work_dims(self, x: usize, y: usize, z: usize) -> (r: TaskBuilder)
        ensures
            r == (TaskBuilder { global_work_dims: Some(Dim3 { x, y, z }), ..self }),
    {
        let mut me = self;
        me.global_work_dims = Some(Dim3 { x, y, z });
        me
    }

    /// Makes every planned submission wait on the caller's events; the
    /// builder records how many there are, the caller keeps them.
    pub fn add_wait_list(self, wait_list_len: usize) -> (r: TaskBuilder)
        ensures
            r == (TaskBuilder { wait_list_len: Some(wait_list_len), ..self }),
    {
        let mut me = self;
        me.wait_list_len = Some(wait_list_len);
        me
    }

    /// Closes the builder into a plan. Work defaults to a single item at
    /// the origin and is split across the queues in proportion to their
    /// weights. With no queues the task fails with `PlatformsNotFound`; a
    /// fixed local shape that cannot divide some queue's chunk on a device
    /// without non-uniform work-group support fails with
    /// `ClInvalidWorkGroupSize`; otherwise the plan holds the bindings in
    /// order, one submission per nonempty chunk, and the readbacks —
    /// none at all for zero-size work.
    pub fn plan(self) -> (r: Result<TaskPlan, ClError>)
        requires
            task_offset(self).x + task_dims(self).x <= usize::MAX,
            spec_product(spec_trim(task_dims(self), task_wd(self))) <= usize::MAX,
            self.local_work_dims matches Some(l) ==> spec_product(spec_trim(l, task_wd(self)))
                <= usize::MAX,
        ensures
            self.queues@.len() == 0 <==> r == Err::<TaskPlan, ClError>(
                ClError::Wrapper(WrapperError::PlatformsNotFound),
            ),
            self.queues@.len() > 0 ==> (r == Err::<TaskPlan, ClError>(
                ClError::Api(ApiError::ClInvalidWorkGroupSize),
            ) <==> task_breaks_uniformity(self)),
            self.queues@.len() > 0 && !task_breaks_uniformity(self) ==> r is Ok,
            r matches Ok(p) ==> {
                &&& p.kernel_args@ == self.kernel_args@
                &&& p.profiling_enabled == self.profiling_enabled
                &&& p.submissions@.len() == task_chunks(self).len()
                &&& forall|j: int|
                    0 <= j < task_chunks(self).len() ==> submission_matches(
                        self,
                        task_chunks(self)[j],
                        #[trigger] p.submissions@[j],
                    )
                &&& p.output_reads@ == if task_dims(self).x == 0 {
                    Seq::<OutputRead>::empty()
                } else {
                    self.output_reads@
                }
            },
    {
        let ghost t = self;
        if self.queues.len() == 0 {
            return Err(ClError::Wrapper(WrapperError::PlatformsNotFound));
        }
        let dims = match self.global_work_dims {
            Option::Some(d) => d,
            Option::None => Dim3::new(1, 1, 1),
        };
        let offset = match self.global_work_offset {
            Option::Some(d) => d,
            Option::None => Dim3::new(0, 0, 0),
        };
        let wd: usize = effective_work_dim(dims, offset);
        let mut weights: Vec<u64> = Vec::new();
        let mut i: usize = 0;
        while i < self.queues.len()
            invariant
                i <= self.queues.len(),
                weights@ == weights_of(self.queues@.take(i as int)),
            decreases self.queues.len() - i,
        {
            weights.push(self.queues[i].weight);
            proof {
                assert(weights@ =~= weights_of(self.queues@.take(i + 1)));
            }
            i = i + 1;
        }
        proof {
            assert(self.queues@.take(self.queues@.len() as int) =~= self.queues@);
            assert(weights@ == weights_of(self.queues@));
        }
        let chunks = partition_work(offset.x, dims.x, &weights);
        proof {
            crate::partition::lemma_partition_covers(
                offset.x as int,
                dims.x as nat,
                weights@,
            );
            assert(chunks@ == task_chunks(t));
        }
        let mut submissions: Vec<KernelSubmission> = Vec::new();
        let mut j: usize = 0;
        while j < chunks.len()
            invariant
                t == self,
                j <= chunks@.len(),
                chunks@ == task_chunks(t),
                dims == task_dims(t),
                offset == task_offset(t),
                wd == task_wd(t),
                1 <= wd <= 3,
                t.queues@.len() > 0,
                spec_product(spec_trim(task_dims(t), task_wd(t))) <= usize::MAX,
                t.local_work_dims matches Some(l) ==> spec_product(spec_trim(l, task_wd(t)))
                    <= usize::MAX,
                forall|k: int|
                    0 <= k < chunks@.len() ==> {
                        let c = #[trigger] chunks@[k];
                        &&& c.size > 0
                        &&& c.size <= task_dims(t).x
                        &&& c.queue_index < t.queues@.len()
                    },
                submissions@.len() == j,
                forall|k: int|
                    0 <= k < j ==> submission_matches(
                        t,
                        chunks@[k],
                        #[trigger] submissions@[k],
                    ),
                forall|k: int| 0 <= k < j ==> !chunk_breaks_uniformity(t, #[trigger] chunks@[k]),
            decreases chunks@.len() - j,
        {
            let c = chunks[j];
            let q = &self.queues[c.queue_index];
            let g_dims = trim_dims(Dim3::new(c.size, dims.y, dims.z), wd);
            let g_off = trim_dims(Dim3::new(c.offset, offset.y, offset.z), wd);
            let l_dims = choose_local_dims(
                &self.local_work_dims,
                wd,
                q.version,
                q.non_uniform_support,
                &q.preferred_work_group_size,
            );
            proof {
                assert(g_dims@ == chunk_global_dims(t, c));
                assert(g_off@ == chunk_global_offset(t, c));
                assert(l_dims@ == chunk_local_dims(t, c));
                lemma_chunk_product_bounded(dims, c.size, wd as int);
            }
            let fixed_local = match &self.local_work_dims {
                Option::Some(_) => true,
                Option::None => false,
            };
            if fixed_local {
                let uniform_only = !(q.version >= OpenCLVersion::V2_0 && q.non_uniform_support);
                if uniform_only {
                    if !local_divides(&l_dims, &g_dims) {
                        proof {
                            assert(chunk_breaks_uniformity(t, chunks@[j as int]));
                        }
                        return Err(ClError::Api(ApiError::ClInvalidWorkGroupSize));
                    }
                }
            }
            submissions.push(
                KernelSubmission {
                    queue_index: c.queue_index,
                    work_dim: wd as u32,
                    global_offset: g_off,
                    global_dims: g_dims,
                    local_dims: l_dims,
                },
            );
            j = j + 1;
        }
        let mut output_reads: Vec<OutputRead> = Vec::new();
        if dims.x > 0 {
            let mut k: usize = 0;
            while k < self.output_reads.len()
                invariant
                    k <= self.output_reads.len(),
                    output_reads@ == self.output_reads@.take(k as int),
                decreases self.output_reads.len() - k,
            {
                output_reads.push(self.output_reads[k]);
                proof {
                    assert(output_reads@ =~= self.output_reads@.take(k + 1));
                }
                k = k + 1;
            }
            proof {
                assert(self.output_reads@.take(self.output_reads@.len() as int)
                    =~= self.output_reads@);
            }
        }
        Ok(
            TaskPlan {
                kernel_args: self.kernel_args,
                submissions,
                output_reads,
                profiling_enabled: self.profiling_enabled,
            },
        )
    }
}

/// A one-axis extent spans exactly its one axis.
proof fn lemma_product_one(x: usize)
    ensures
        spec_product(seq![x]) == x,
{
    reveal_with_fuel(spec_product, 3);
    assert(seq![x].drop_last() =~= Seq::<usize>::empty());
    assert(spec_product(Seq::<usize>::empty()) == 1);
    assert(seq![x].last() == x);
    assert(seq![x].len() == 1);
    assert(spec_product(seq![x]) == (spec_product(seq![x].drop_last()) * seq![x].last()) as nat);
}

/// A two-axis extent spans the product of its axes.
proof fn lemma_product_two(x: usize, y: usize)
    ensures
        spec_product(seq![x, y]) == x * y,
{
    lemma_product_one(x);
    assert(seq![x, y].drop_last() =~= seq![x]);
    assert(seq![x, y].last() == y);
}

/// A three-axis extent spans the product of its axes.
proof fn lemma_product_three(x: usize, y: usize, z: usize)
    ensures
        spec_product(seq![x, y, z]) == (x * y) * z,
{
    lemma_product_two(x, y);
    assert(seq![x, y, z].drop_last() =~= seq![x, y]);
    assert(seq![x, y, z].last() == z);
}

/// The work-item count of a chunk's extent never exceeds that of the whole
/// task's extent.
pub proof fn lemma_chunk_product_bounded(dims: Dim3, chunk: usize, wd: int)
    requires
        1 <= wd <= 3,
        chunk <= dims.x,
    ensures
        spec_product(spec_trim(Dim3 { x: chunk, y: dims.y, z: dims.z }, wd)) <= spec_product(
            spec_trim(dims, wd),
        ),
{
    let small = Dim3 { x: chunk, y: dims.y, z: dims.z };
    if wd == 1 {
        assert(spec_trim(small, 1) =~= seq![chunk]);
        assert(spec_trim(dims, 1) =~= seq![dims.x]);
        lemma_product_one(chunk);
        lemma_product_one(dims.x);
    } else if wd == 2 {
        assert(spec_trim(small, 2) =~= seq![chunk, dims.y]);
        assert(spec_trim(dims, 2) =~= seq![dims.x, dims.y]);
        lemma_product_two(chunk, dims.y);
        lemma_product_two(dims.x, dims.y);
        vstd::arithmetic::mul::lemma_mul_inequality(chunk as int, dims.x as int, dims.y as int);
    } else {
        assert(spec_trim(small, 3) =~= seq![chunk, dims.y, dims.z]);
        assert(spec_trim(dims, 3) =~= seq![dims.x, dims.y, dims.z]);
        lemma_product_three(chunk, dims.y, dims.z);
        lemma_product_three(dims.x, dims.y, dims.z);
        vstd::arithmetic::mul::lemma_mul_inequality(chunk as int, dims.x as int, dims.y as int);
        vstd::arithmetic::mul::lemma_mul_inequality(
            (chunk * dims.y) as int,
            (dims.x * dims.y) as int,
            dims.z as int,
        );
    }
}

} // verus!

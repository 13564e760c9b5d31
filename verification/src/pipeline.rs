//! The pipeline builder: an ordered list of kernel stages with implicit
//! event-graph edges. Every submission of a stage waits on all completion
//! events of the stage before it, so stages are separated by a barrier;
//! final readbacks wait on the last stage.
use vstd::prelude::*;

use crate::errors::{ApiError, ClError, WrapperError};
use crate::partition::{partition_work, spec_partition, WorkChunk};
use crate::task::{
    clamped, queue_uniform_only, total_duration, weights_of, KernelArg, KernelSubmission,
    OutputRead, QueueInfo, TaskReport,
};
use crate::work_dims::{
    effective_work_dim, local_divides, local_fits, spec_product, spec_trim, spec_work_dim,
    trim_dims, Dim3,
};

verus! {

/// One kernel execution in a pipeline: its kernel slot, bound arguments and
/// work descriptor.
#[derive(Debug, Clone, PartialEq, Eq)]
pub struct PipelineStage {
    pub kernel: usize,
    pub kernel_args: Vec<KernelArg>,
    pub global_work_dims: Dim3,
    pub global_work_offset: Dim3,
    pub local_work_dims: Option<Dim3>,
}

/// The completion event of one planned submission, named by its stage and
/// its position within the stage.
#[derive(Debug, Clone, Copy, PartialEq, Eq, Structural)]
pub struct EventId {
    pub stage: usize,
    pub submission: usize,
}

/// The planned form of one stage: its bindings, its per-queue submissions,
/// and the events every one of those submissions waits on.
#[derive(Debug, Clone, PartialEq, Eq)]
pub struct StagePlan {
    pub kernel: usize,
    pub kernel_args: Vec<KernelArg>,
    pub submissions: Vec<KernelSubmission>,
    pub wait_events: Vec<EventId>,
}

/// The finished decision of a pipeline: the stages in order, and the final
/// readbacks with the events they wait on.
#[derive(Debug, Clone, PartialEq, Eq)]
pub struct PipelinePlan {
    pub stages: Vec<StagePlan>,
    pub final_reads: Vec<OutputRead>,
    pub final_read_wait: Vec<EventId>,
    pub profiling_enabled: bool,
}

/// Consolidated report of a pipeline run, one entry per stage.
#[derive(Debug, Clone, PartialEq, Eq)]
pub struct PipelineReport {
    pub stage_reports: Vec<TaskReport>,
}

/// Total kernel run time over a list of stage reports.
pub open spec fn pipeline_total(reports: Seq<TaskReport>) -> nat
    decreases reports.len(),
{
    if reports.len() == 0 {
        0
    } else {
        pipeline_total(reports.drop_last()) + total_duration(
            reports.last().kernel_execution_events@,
        )
    }
}

impl PipelineReport {
    /// Total time the kernels of all stages ran, saturating at a machine
    /// word.
    pub fn total_kernel_duration_ns(&self) -> (r: u64)
        ensures
            r == clamped(pipeline_total(self.stage_reports@)),
    {
        let mut acc: u64 = 0;
        let mut i: usize = 0;
        while i < self.stage_reports.len()
            invariant
                i <= self.stage_reports.len(),
                acc == clamped(pipeline_total(self.stage_reports@.take(i as int))),
            decreases self.stage_reports.len() - i,
        {
            proof {
                assert(self.stage_reports@.take(i + 1).drop_last() =~= self.stage_reports@.take(
                    i as int,
                ));
                assert(self.stage_reports@.take(i + 1).last() == self.stage_reports@[i as int]);
            }
            let stage_total = self.stage_reports[i].total_kernel_duration_ns();
            acc = if acc > u64::MAX - stage_total {
                u64::MAX
            } else {
                acc + stage_total
            };
            i = i + 1;
        }
        proof {
            assert(self.stage_reports@.take(self.stage_reports@.len() as int)
                =~= self.stage_reports@);
        }
        acc
    }
}

/// The effective dimensionality of one stage.
pub open spec fn stage_wd(st: PipelineStage) -> int {
    spec_work_dim(st.global_work_dims, st.global_work_offset)
}

/// The first-axis chunks one stage splits into across the queues.
pub open spec fn stage_chunks(st: PipelineStage, queues: Seq<QueueInfo>) -> Seq<WorkChunk> {
    spec_partition(
        st.global_work_offset.x as int,
        st.global_work_dims.x as nat,
        weights_of(queues),
    )
}

/// The local shape a stage hands every queue: the caller's shape trimmed,
/// or none at all, leaving the choice to the runtime.
pub open spec fn stage_local_dims(st: PipelineStage) -> Seq<usize> {
    match st.local_work_dims {
        Option::Some(l) => spec_trim(l, stage_wd(st)),
        Option::None => Seq::empty(),
    }
}

/// The trimmed global extent one chunk of a stage is launched with.
pub open spec fn stage_chunk_dims(st: PipelineStage, c: WorkChunk) -> Seq<usize> {
    spec_trim(
        Dim3 { x: c.size, y: st.global_work_dims.y, z: st.global_work_dims.z },
        stage_wd(st),
    )
}

/// The trimmed global offset one chunk of a stage is launched at.
pub open spec fn stage_chunk_offset(st: PipelineStage, c: WorkChunk) -> Seq<usize> {
    spec_trim(
        Dim3 { x: c.offset, y: st.global_work_offset.y, z: st.global_work_offset.z },
        stage_wd(st),
    )
}

/// One planned submission of a stage carries exactly what its chunk
/// dictates.
pub open spec fn stage_submission_matches(
    st: PipelineStage,
    c: WorkChunk,
    s: KernelSubmission,
) -> bool {
    &&& s.queue_index == c.queue_index
    &&& s.work_dim == stage_wd(st)
    &&& s.global_offset@ == stage_chunk_offset(st, c)
    &&& s.global_dims@ == stage_chunk_dims(st, c)
    &&& s.local_dims@ == stage_local_dims(st)
}

/// A chunk of a stage that a device without non-uniform work-group support
/// cannot run.
pub open spec fn stage_chunk_breaks_uniformity(
    st: PipelineStage,
    queues: Seq<QueueInfo>,
    c: WorkChunk,
) -> bool {
    &&& st.local_work_dims is Some
    &&& queue_uniform_only(queues[c.queue_index as int])
    &&& !local_fits(stage_local_dims(st), stage_chunk_dims(st, c))
}

/// Some chunk of the stage breaks the uniform work-group rule.
pub open spec fn stage_breaks_uniformity(st: PipelineStage, queues: Seq<QueueInfo>) -> bool {
    exists|j: int|
        0 <= j < stage_chunks(st, queues).len() && stage_chunk_breaks_uniformity(
            st,
            queues,
            #[trigger] stage_chunks(st, queues)[j],
        )
}

/// Some stage of the pipeline breaks the uniform work-group rule.
pub open spec fn pipeline_breaks_uniformity(
    stages: Seq<PipelineStage>,
    queues: Seq<QueueInfo>,
) -> bool {
    exists|k: int|
        0 <= k < stages.len() && stage_breaks_uniformity(#[trigger] stages[k], queues)
}

/// The completion events of stage `stage_index`, given how many
/// submissions it made.
pub open spec fn event_ids_of(stage_index: int, count: int) -> Seq<EventId> {
    Seq::new(
        count as nat,
        |j: int| EventId { stage: stage_index as usize, submission: j as usize },
    )
}

/// The machine limits one stage must respect: its first axis fits the
/// address space, and its work-item counts fit a machine word.
pub open spec fn stage_within_limits(st: PipelineStage) -> bool {
    &&& st.global_work_offset.x + st.global_work_dims.x <= usize::MAX
    &&& spec_product(spec_trim(st.global_work_dims, stage_wd(st))) <= usize::MAX
    &&& (st.local_work_dims matches Some(l) ==> spec_product(spec_trim(l, stage_wd(st)))
        <= usize::MAX)
}

/// A pipeline under construction: the queues it may run on, its stages in
/// order, and the readbacks that close it.
#[derive(Debug, Clone, PartialEq, Eq)]
pub struct PipelineBuilder {
    pub queues: Vec<QueueInfo>,
    pub stages: Vec<PipelineStage>,
    pub final_reads: Vec<OutputRead>,
    pub profiling_enabled: bool,
}

/// One stage under construction; `finish` hands it back to its pipeline.
#[derive(Debug, Clone, PartialEq, Eq)]
pub struct StageBuilder {
    pub pipeline_builder: PipelineBuilder,
    pub kernel: usize,
    pub kernel_args: Vec<KernelArg>,
    pub global_work_dims: Dim3,
    pub global_work_offset: Dim3,
    pub local_work_dims: Option<Dim3>,
}

impl PipelineBuilder {
    /// A fresh pipeline over the given queues, inheriting the fleet's
    /// profiling switch.
    pub fn new(queues: Vec<QueueInfo>, profiling_enabled: bool) -> (r: PipelineBuilder)
        ensures
            r.queues@ == queues@,
            r.stages@ == Seq::<PipelineStage>::empty(),
            r.final_reads@ == Seq::<OutputRead>::empty(),
            r.profiling_enabled == profiling_enabled,
    {
        PipelineBuilder {
            queues,
            stages: Vec::new(),
            final_reads: Vec::new(),
            profiling_enabled,
        }
    }

    /// Starts defining the next stage, over the given kernel slot and
    /// global extent.
    pub fn add_stage(self, kernel: usize, x: usize, y: usize, z: usize) -> (r: StageBuilder)
        ensures
            r.pipeline_builder == self,
            r.kernel == kernel,
            r.kernel_args@ == Seq::<KernelArg>::empty(),
            r.global_work_dims == (Dim3 { x, y, z }),
            r.global_work_offset == (Dim3 { x: 0, y: 0, z: 0 }),
            r.local_work_dims is None,
    {
        StageBuilder {
            pipeline_builder: self,
            kernel,
            kernel_args: Vec::new(),
            global_work_dims: Dim3 { x, y, z },
            global_work_offset: Dim3 { x: 0, y: 0, z: 0 },
            local_work_dims: None,
        }
    }

    /// Adds a final readback of a buffer, submitted after the last stage.
    pub fn read_buffer(self, buffer: usize, size: usize) -> (r: PipelineBuilder)
        ensures
            r.final_reads@ == self.final_reads@.push(OutputRead::Buffer { buffer, size }),
            r == (PipelineBuilder { final_reads: r.final_reads, ..self }),
    {
        let mut me = self;
        me.final_reads.push(OutputRead::Buffer { buffer, size });
        me
    }

    /// Closes the builder into a plan. Each stage is split across the
    /// queues like a task; each submission of a stage waits on every event
    /// of the stage before it, and the final readbacks wait on the last
    /// stage. With no queues the pipeline fails with `PlatformsNotFound`; a
    /// stage whose fixed local shape cannot divide some chunk on a device
    /// without non-uniform work-group support fails with
    /// `ClInvalidWorkGroupSize`.
    #[verifier::rlimit(60)]
    pub fn plan(self) -> (r: Result<PipelinePlan, ClError>)
        requires
            forall|k: int|
                0 <= k < self.stages@.len() ==> stage_within_limits(#[trigger] self.stages@[k]),
        ensures
            self.queues@.len() == 0 <==> r == Err::<PipelinePlan, ClError>(
                ClError::Wrapper(WrapperError::PlatformsNotFound),
            ),
            self.queues@.len() > 0 ==> (r == Err::<PipelinePlan, ClError>(
                ClError::Api(ApiError::ClInvalidWorkGroupSize),
            ) <==> pipeline_breaks_uniformity(self.stages@, self.queues@)),
            self.queues@.len() > 0 && !pipeline_breaks_uniformity(self.stages@, self.queues@)
                ==> r is Ok,
            r matches Ok(p) ==> {
                &&& p.profiling_enabled == self.profiling_enabled
                &&& p.final_reads@ == self.final_reads@
                &&& p.stages@.len() == self.stages@.len()
                &&& forall|k: int|
                    0 <= k < self.stages@.len() ==> {
                        let st = self.stages@[k];
                        let sp = #[trigger] p.stages@[k];
                        &&& sp.kernel == st.kernel
                        &&& sp.kernel_args@ == st.kernel_args@
                        &&& sp.submissions@.len() == stage_chunks(st, self.queues@).len()
                        &&& forall|j: int|
                            0 <= j < sp.submissions@.len() ==> stage_submission_matches(
                                st,
                                stage_chunks(st, self.queues@)[j],
                                #[trigger] sp.submissions@[j],
                            )
                        &&& sp.wait_events@ == if k == 0 {
                            Seq::<EventId>::empty()
                        } else {
                            event_ids_of(k - 1, p.stages@[k - 1].submissions@.len() as int)
                        }
                    }
                &&& p.final_read_wait@ == if self.stages@.len() == 0 {
                    Seq::<EventId>::empty()
                } else {
                    event_ids_of(
                        self.stages@.len() - 1,
                        p.stages@[self.stages@.len() - 1].submissions@.len() as int,
                    )
                }
            },
    {
        let ghost t = self;
        if self.queues.len() == 0 {
            return Err(ClError::Wrapper(WrapperError::PlatformsNotFound));
        }
        let mut weights: Vec<u64> = Vec::new();
        let mut i: usize = 0;
        while i < self.queues.len()
            invariant
                t == self,
                i <= self.queues.len(),
                weights@ == weights_of(self.queues@.take(i as int)),
            decreases self.queues.len() - i,
        {
            weights.push(self.queues[i].weight);
            proof {
                assert(weights@ =~= weights_of(self.queues@.take(i + 1)));
            }
            i = i + 1;
        }
        proof {
            assert(self.queues@.take(self.queues@.len() as int) =~= self.queues@);
            assert(weights@ == weights_of(self.queues@));
        }
        let PipelineBuilder { queues, stages, final_reads, profiling_enabled } = self;
        let _nq: usize = queues.len();
        proof {
            assert(t.queues@.len() <= usize::MAX);
        }
        let mut remaining = stages;
        let mut planned: Vec<StagePlan> = Vec::new();
        let mut prev_count: usize = 0;
        let n_stages: usize = remaining.len();
        let mut k: usize = 0;
        while k < n_stages
            invariant
                t == self,
                t.queues@.len() <= usize::MAX,
                t.queues@ == queues@,
                t.queues@.len() > 0,
                weights@ == weights_of(t.queues@),
                n_stages == t.stages@.len(),
                k <= n_stages,
                remaining@ =~= t.stages@.skip(k as int),
                planned@.len() == k,
                forall|m: int|
                    0 <= m < t.stages@.len() ==> stage_within_limits(#[trigger] t.stages@[m]),
                forall|m: int| 0 <= m < k ==> !stage_breaks_uniformity(
                    #[trigger] t.stages@[m],
                    t.queues@,
                ),
                forall|m: int|
                    0 <= m < k ==> {
                        let st = t.stages@[m];
                        let sp = #[trigger] planned@[m];
                        &&& sp.kernel == st.kernel
                        &&& sp.kernel_args@ == st.kernel_args@
                        &&& sp.submissions@.len() == stage_chunks(st, t.queues@).len()
                        &&& forall|j: int|
                            0 <= j < sp.submissions@.len() ==> stage_submission_matches(
                                st,
                                stage_chunks(st, t.queues@)[j],
                                #[trigger] sp.submissions@[j],
                            )
                        &&& sp.wait_events@ == if m == 0 {
                            Seq::<EventId>::empty()
                        } else {
                            event_ids_of(m - 1, planned@[m - 1].submissions@.len() as int)
                        }
                    },
                k > 0 ==> prev_count == planned@[k - 1].submissions@.len(),
            decreases n_stages - k,
        {
            let st = remaining.remove(0);
            proof {
                assert(st == t.stages@[k as int]);
                assert(remaining@ =~= t.stages@.skip(k + 1));
            }
            let wd: usize = effective_work_dim(st.global_work_dims, st.global_work_offset);
            let chunks = partition_work(st.global_work_offset.x, st.global_work_dims.x, &weights);
            proof {
                crate::partition::lemma_partition_covers(
                    st.global_work_offset.x as int,
                    st.global_work_dims.x as nat,
                    weights@,
                );
                assert(chunks@ == stage_chunks(st, t.queues@));
            }
            let mut submissions: Vec<KernelSubmission> = Vec::new();
            let mut j: usize = 0;
            while j < chunks.len()
                invariant
                    t == self,
                    queues@ == t.queues@,
                    t.queues@.len() > 0,
                    chunks@ == stage_chunks(st, t.queues@),
                    st == t.stages@[k as int],
                    k < t.stages@.len(),
                    stage_within_limits(st),
                    wd == stage_wd(st),
                    1 <= wd <= 3,
                    forall|m: int|
                        0 <= m < chunks@.len() ==> {
                            let c = #[trigger] chunks@[m];
                            &&& c.size > 0
                            &&& c.size <= st.global_work_dims.x
                            &&& c.queue_index < t.queues@.len()
                        },
                    submissions@.len() == j <= chunks@.len(),
                    forall|m: int|
                        0 <= m < j ==> stage_submission_matches(
                            st,
                            chunks@[m],
                            #[trigger] submissions@[m],
                        ),
                    forall|m: int| 0 <= m < j ==> !stage_chunk_breaks_uniformity(
                        st,
                        t.queues@,
                        #[trigger] chunks@[m],
                    ),
                decreases chunks@.len() - j,
            {
                let c = chunks[j];
                let g_dims = trim_dims(
                    Dim3 { x: c.size, y: st.global_work_dims.y, z: st.global_work_dims.z },
                    wd,
                );
                let g_off = trim_dims(
                    Dim3 { x: c.offset, y: st.global_work_offset.y, z: st.global_work_offset.z },
                    wd,
                );
                let l_dims: Vec<usize> = match &st.local_work_dims {
                    Option::Some(l) => trim_dims(*l, wd),
                    Option::None => Vec::new(),
                };
                proof {
                    assert(g_dims@ == stage_chunk_dims(st, c));
                    assert(g_off@ == stage_chunk_offset(st, c));
                    assert(l_dims@ == stage_local_dims(st));
                    crate::task::lemma_chunk_product_bounded(
                        st.global_work_dims,
                        c.size,
                        wd as int,
                    );
                }
                let fixed_local = match &st.local_work_dims {
                    Option::Some(_) => true,
                    Option::None => false,
                };
                if fixed_local {
                    let q = &queues[c.queue_index];
                    let uniform_only = !(q.version >= crate::opencl_version::OpenCLVersion::V2_0
                        && q.non_uniform_support);
                    if uniform_only {
                        if !local_divides(&l_dims, &g_dims) {
                            proof {
                                assert(stage_chunk_breaks_uniformity(
                                    st,
                                    t.queues@,
                                    chunks@[j as int],
                                ));
                                assert(stage_breaks_uniformity(st, t.queues@));
                                assert(pipeline_breaks_uniformity(t.stages@, t.queues@));
                            }
                            return Err(ClError::Api(ApiError::ClInvalidWorkGroupSize));
                        }
                    }
                }
                submissions.push(
                    KernelSubmission {
                        queue_index: c.queue_index,
                        work_dim: wd as u32,
                        global_offset: g_off,
                        global_dims: g_dims,
                        local_dims: l_dims,
                    },
                );
                j = j + 1;
            }
            let mut wait_events: Vec<EventId> = Vec::new();
            if k > 0 {
                let mut m: usize = 0;
                while m < prev_count
                    invariant
                        k >= 1,
                        m <= prev_count,
                        wait_events@.len() == m,
                        forall|x: int|
                            0 <= x < m ==> #[trigger] wait_events@[x] == (EventId {
                                stage: (k - 1) as usize,
                                submission: x as usize,
                            }),
                    decreases prev_count - m,
                {
                    wait_events.push(EventId { stage: k - 1, submission: m });
                    m = m + 1;
                }
                proof {
                    assert(wait_events@ =~= event_ids_of(k - 1, prev_count as int));
                }
            }
            prev_count = submissions.len();
            planned.push(StagePlan { kernel: st.kernel, kernel_args: st.kernel_args, submissions, wait_events });
            k = k + 1;
        }
        let mut final_read_wait: Vec<EventId> = Vec::new();
        if n_stages > 0 {
            let mut m: usize = 0;
            while m < prev_count
                invariant
                    n_stages >= 1,
                    m <= prev_count,
                    final_read_wait@.len() == m,
                    forall|x: int|
                        0 <= x < m ==> #[trigger] final_read_wait@[x] == (EventId {
                            stage: (n_stages - 1) as usize,
                            submission: x as usize,
                        }),
                decreases prev_count - m,
            {
                final_read_wait.push(EventId { stage: n_stages - 1, submission: m });
                m = m + 1;
            }
            proof {
                assert(final_read_wait@ =~= event_ids_of(n_stages - 1, prev_count as int));
            }
        }
        Ok(
            PipelinePlan {
                stages: planned,
                final_reads,
                final_read_wait,
                profiling_enabled,
            },
        )
    }
}

impl StageBuilder {
    /// Binds a buffer argument of this stage by its slot.
    pub fn arg_buffer(self, index: u32, buffer: usize) -> (r: StageBuilder)
        ensures
            r.kernel_args@ == self.kernel_args@.push(
                KernelArg::Buffer { arg_index: index, arg: buffer },
            ),
            r == (StageBuilder { kernel_args: r.kernel_args, ..self }),
    {
        let mut me = self;
        me.kernel_args.push(KernelArg::Buffer { arg_index: index, arg: buffer });
        me
    }

    /// Binds a scalar argument of this stage from its bytes.
    pub fn arg_scalar(self, index: u32, scalar: Vec<u8>) -> (r: StageBuilder)
        ensures
            r.kernel_args@ == self.kernel_args@.push(
                KernelArg::Scalar { arg_index: index, arg: scalar },
            ),
            r == (StageBuilder { kernel_args: r.kernel_args, ..self }),
    {
        let mut me = self;
        me.kernel_args.push(KernelArg::Scalar { arg_index: index, arg: scalar });
        me
    }

    /// Binds an image argument of this stage by its slot.
    pub fn arg_image(self, index: u32, image: usize) -> (r: StageBuilder)
        ensures
            r.kernel_args@ == self.kernel_args@.push(
                KernelArg::Image { arg_index: index, arg: image },
            ),
            r == (StageBuilder { kernel_args: r.kernel_args, ..self }),
    {
        let mut me = self;
        me.kernel_args.push(KernelArg::Image { arg_index: index, arg: image });
        me
    }

    /// Binds a shared-virtual-memory argument of this stage by its slot and
    /// length.
    pub fn arg_svm(self, index: u32, buffer: usize, len: usize) -> (r: StageBuilder)
        ensures
            r.kernel_args@ == self.kernel_args@.push(
                KernelArg::Svm { arg_index: index, arg: buffer, len },
            ),
            r == (StageBuilder { kernel_args: r.kernel_args, ..self }),
    {
        let mut me = self;
        me.kernel_args.push(KernelArg::Svm { arg_index: index, arg: buffer, len });
        me
    }

    /// Fixes the local work shape of this stage.
    pub fn local_work_dims(self, x: usize, y: usize, z: usize) -> (r: StageBuilder)
        ensures
            r == (StageBuilder { local_work_dims: Some(Dim3 { x, y, z }), ..self }),
    {
        let mut me = self;
        me.local_work_dims = Some(Dim3 { x, y, z });
        me
    }

    /// Fixes the global work offset of this stage.
    pub fn global_work_offset(self, x: usize, y: usize, z: usize) -> (r: StageBuilder)
        ensures
            r == (StageBuilder { global_work_offset: Dim3 { x, y, z }, ..self }),
    {
        let mut me = self;
        me.global_work_offset = Dim3 { x, y, z };
        me
    }

    /// Closes this stage and hands the pipeline back.
    pub fn finish(self) -> (r: PipelineBuilder)
        ensures
            r.stages@ == self.pipeline_builder.stages@.push(
                PipelineStage {
                    kernel: self.kernel,
                    kernel_args: self.kernel_args,
                    global_work_dims: self.global_work_dims,
                    global_work_offset: self.global_work_offset,
                    local_work_dims: self.local_work_dims,
                },
            ),
            r == (PipelineBuilder { stages: r.stages, ..self.pipeline_builder }),
    {
        let StageBuilder {
            pipeline_builder,
            kernel,
            kernel_args,
            global_work_dims,
            global_work_offset,
            local_work_dims,
        } = self;
        let mut pb = pipeline_builder;
        let stage = PipelineStage {
            kernel,
            kernel_args,
            global_work_dims,
            global_work_offset,
            local_work_dims,
        };
        pb.stages.push(stage);
        pb
    }
}

} // verus!

use easy_async_opencl3::errors::{ApiError, ClError, WrapperError};
use easy_async_opencl3::events::EventProfile;
use easy_async_opencl3::opencl_version::OpenCLVersion;
use easy_async_opencl3::pipeline::{EventId, PipelineBuilder, PipelineReport};
use easy_async_opencl3::task::{EventTiming, KernelArg, QueueInfo, TaskReport};

fn queue(weight: u64) -> QueueInfo {
    QueueInfo {
        weight,
        version: OpenCLVersion::V1_2,
        non_uniform_support: false,
        preferred_work_group_size: None,
    }
}

#[test]
fn pipeline_zero_queues_is_an_error() {
    let r = PipelineBuilder::new(Vec::new(), false)
        .add_stage(0, 16, 1, 1)
        .finish()
        .plan();
    assert_eq!(r, Err(ClError::Wrapper(WrapperError::PlatformsNotFound)));
}

#[test]
fn stages_chain_through_events() {
    // add then scale: the second stage waits on every event of the first,
    // and the final readback waits on the second
    let plan = PipelineBuilder::new(vec![queue(1)], false)
        .add_stage(7, 1024, 1, 1)
        .arg_buffer(0, 0)
        .arg_buffer(1, 1)
        .finish()
        .add_stage(8, 1024, 1, 1)
        .arg_buffer(0, 0)
        .arg_scalar(1, 2.0f32.to_le_bytes().to_vec())
        .finish()
        .read_buffer(0, 4096)
        .plan()
        .unwrap();
    assert_eq!(plan.stages.len(), 2);
    assert_eq!(plan.stages[0].kernel, 7);
    assert_eq!(plan.stages[1].kernel, 8);
    assert!(plan.stages[0].wait_events.is_empty());
    assert_eq!(plan.stages[1].wait_events, vec![EventId { stage: 0, submission: 0 }]);
    assert_eq!(plan.final_read_wait, vec![EventId { stage: 1, submission: 0 }]);
    assert_eq!(plan.final_reads.len(), 1);
    assert_eq!(
        plan.stages[1].kernel_args,
        vec![
            KernelArg::Buffer { arg_index: 0, arg: 0 },
            KernelArg::Scalar { arg_index: 1, arg: 2.0f32.to_le_bytes().to_vec() },
        ]
    );
}

#[test]
fn every_queue_of_a_stage_waits_on_all_previous_events() {
    let plan = PipelineBuilder::new(vec![queue(1), queue(1)], false)
        .add_stage(0, 100, 1, 1)
        .finish()
        .add_stage(1, 100, 1, 1)
        .finish()
        .plan()
        .unwrap();
    assert_eq!(plan.stages[0].submissions.len(), 2);
    assert_eq!(
        plan.stages[1].wait_events,
        vec![EventId { stage: 0, submission: 0 }, EventId { stage: 0, submission: 1 }]
    );
}

#[test]
fn stage_work_splits_like_a_task() {
    let plan = PipelineBuilder::new(vec![queue(3), queue(1)], false)
        .add_stage(0, 1024, 1, 1)
        .finish()
        .plan()
        .unwrap();
    let subs = &plan.stages[0].submissions;
    assert_eq!(subs.len(), 2);
    assert_eq!(subs[0].global_dims, vec![768]);
    assert_eq!(subs[1].global_dims, vec![256]);
    assert_eq!(subs[1].global_offset, vec![768]);
}

#[test]
fn stage_local_shape_must_divide_on_uniform_devices() {
    let r = PipelineBuilder::new(vec![queue(1)], false)
        .add_stage(0, 1000, 1, 1)
        .local_work_dims(7, 1, 1)
        .finish()
        .plan();
    assert_eq!(r, Err(ClError::Api(ApiError::ClInvalidWorkGroupSize)));

    let ok = PipelineBuilder::new(vec![queue(1)], false)
        .add_stage(0, 1000, 1, 1)
        .local_work_dims(8, 1, 1)
        .finish()
        .plan();
    assert!(ok.is_err() == false);
    assert_eq!(ok.unwrap().stages[0].submissions[0].local_dims, vec![8]);
}

#[test]
fn pipeline_without_stages_has_no_waits() {
    let plan = PipelineBuilder::new(vec![queue(1)], true).plan().unwrap();
    assert!(plan.stages.is_empty());
    assert!(plan.final_read_wait.is_empty());
    assert!(plan.profiling_enabled);
}

#[test]
fn pipeline_report_totals_sum_stage_totals() {
    let mut first = TaskReport::new();
    first
        .kernel_execution_events
        .push(EventTiming::Profiled(EventProfile::new(0, 0, 0, 10).unwrap()));
    let mut second = TaskReport::new();
    second
        .kernel_execution_events
        .push(EventTiming::Profiled(EventProfile::new(0, 0, 5, 12).unwrap()));
    let report = PipelineReport { stage_reports: vec![first, second] };
    assert_eq!(report.total_kernel_duration_ns(), 17);
}

use easy_async_opencl3::errors::{ApiError, ClError, WrapperError};
use easy_async_opencl3::events::EventProfile;
use easy_async_opencl3::opencl_version::OpenCLVersion;
use easy_async_opencl3::task::{
    EventTiming, KernelArg, QueueInfo, TaskBuilder, TaskReport,
};

fn queue(weight: u64, version: OpenCLVersion, non_uniform: bool, preferred: Option<usize>) -> QueueInfo {
    QueueInfo {
        weight,
        version,
        non_uniform_support: non_uniform,
        preferred_work_group_size: preferred,
    }
}

fn one_queue() -> Vec<QueueInfo> {
    vec![queue(10, OpenCLVersion::V1_2, false, Some(64))]
}

#[test]
fn zero_queues_is_an_error() {
    let r = TaskBuilder::new(Vec::new(), false).plan();
    assert_eq!(r, Err(ClError::Wrapper(WrapperError::PlatformsNotFound)));
}

#[test]
fn zero_size_work_plans_nothing() {
    let queues = vec![
        queue(1, OpenCLVersion::V1_2, false, None),
        queue(1, OpenCLVersion::V1_2, false, None),
    ];
    let plan = TaskBuilder::new(queues, false)
        .global_work_dims(0, 1, 1)
        .read_buffer(0, 4096)
        .plan()
        .unwrap();
    assert!(plan.submissions.is_empty());
    assert!(plan.output_reads.is_empty());
}

#[test]
fn one_device_runs_whole_domain() {
    // one queue, 1024 items: a single submission carries them all
    let plan = TaskBuilder::new(one_queue(), true)
        .arg_buffer(0, 0)
        .arg_buffer(1, 1)
        .global_work_dims(1024, 1, 1)
        .read_buffer(0, 4096)
        .plan()
        .unwrap();
    assert!(plan.profiling_enabled);
    assert_eq!(plan.submissions.len(), 1);
    let s = &plan.submissions[0];
    assert_eq!(s.queue_index, 0);
    assert_eq!(s.work_dim, 1);
    assert_eq!(s.global_offset, vec![0]);
    assert_eq!(s.global_dims, vec![1024]);
    assert_eq!(s.local_dims, vec![64]);
    assert_eq!(plan.output_reads.len(), 1);
}

#[test]
fn two_devices_split_by_weight() {
    // weights (3, 1) over 1024 items: 768 and 256
    let queues = vec![
        queue(3, OpenCLVersion::V1_2, false, None),
        queue(1, OpenCLVersion::V1_2, false, None),
    ];
    let plan = TaskBuilder::new(queues, false)
        .global_work_dims(1024, 1, 1)
        .plan()
        .unwrap();
    assert_eq!(plan.submissions.len(), 2);
    assert_eq!(plan.submissions[0].global_dims, vec![768]);
    assert_eq!(plan.submissions[0].global_offset, vec![0]);
    assert_eq!(plan.submissions[1].global_dims, vec![256]);
    assert_eq!(plan.submissions[1].global_offset, vec![768]);
}

#[test]
fn defaults_are_a_single_item_at_origin() {
    let plan = TaskBuilder::new(one_queue(), false).plan().unwrap();
    assert_eq!(plan.submissions.len(), 1);
    assert_eq!(plan.submissions[0].global_dims, vec![1]);
    assert_eq!(plan.submissions[0].global_offset, vec![0]);
}

#[test]
fn indivisible_local_shape_on_uniform_device_fails() {
    let r = TaskBuilder::new(one_queue(), false)
        .global_work_dims(1024, 1, 1)
        .local_work_dims(3, 1, 1)
        .plan();
    assert_eq!(r, Err(ClError::Api(ApiError::ClInvalidWorkGroupSize)));
}

#[test]
fn divisible_local_shape_is_used_verbatim() {
    let plan = TaskBuilder::new(one_queue(), false)
        .global_work_dims(1024, 1, 1)
        .local_work_dims(4, 1, 1)
        .plan()
        .unwrap();
    assert_eq!(plan.submissions[0].local_dims, vec![4]);
}

#[test]
fn non_uniform_device_accepts_any_local_shape() {
    let queues = vec![queue(1, OpenCLVersion::V3_0, true, None)];
    let plan = TaskBuilder::new(queues, false)
        .global_work_dims(1024, 1, 1)
        .local_work_dims(3, 1, 1)
        .plan()
        .unwrap();
    assert_eq!(plan.submissions[0].local_dims, vec![3]);
}

#[test]
fn auto_tune_leaves_choice_to_non_uniform_runtime() {
    let queues = vec![queue(1, OpenCLVersion::V3_0, true, Some(64))];
    let plan = TaskBuilder::new(queues, false)
        .global_work_dims(1024, 1, 1)
        .plan()
        .unwrap();
    assert!(plan.submissions[0].local_dims.is_empty());
}

#[test]
fn auto_tune_without_preferred_size_leaves_choice_open() {
    let queues = vec![queue(1, OpenCLVersion::V1_2, false, None)];
    let plan = TaskBuilder::new(queues, false)
        .global_work_dims(1024, 1, 1)
        .plan()
        .unwrap();
    assert!(plan.submissions[0].local_dims.is_empty());
}

#[test]
fn work_dim_follows_highest_used_axis() {
    let plan = TaskBuilder::new(one_queue(), false)
        .global_work_dims(8, 4, 1)
        .plan()
        .unwrap();
    let s = &plan.submissions[0];
    assert_eq!(s.work_dim, 2);
    assert_eq!(s.global_dims, vec![8, 4]);
    assert_eq!(s.global_offset, vec![0, 0]);

    let plan3 = TaskBuilder::new(one_queue(), false)
        .global_work_dims(8, 1, 2)
        .global_work_offset(1, 0, 0)
        .plan()
        .unwrap();
    assert_eq!(plan3.submissions[0].work_dim, 3);
    assert_eq!(plan3.submissions[0].global_dims, vec![8, 1, 2]);
    assert_eq!(plan3.submissions[0].global_offset, vec![1, 0, 0]);
}

#[test]
fn arguments_keep_their_order() {
    let plan = TaskBuilder::new(one_queue(), false)
        .arg_scalar(2, 7.0f32.to_le_bytes().to_vec())
        .arg_buffer(0, 5)
        .arg_svm(1, 9, 512)
        .arg_pipe(3, 2)
        .arg_image(4, 6)
        .plan()
        .unwrap();
    assert_eq!(
        plan.kernel_args,
        vec![
            KernelArg::Scalar { arg_index: 2, arg: 7.0f32.to_le_bytes().to_vec() },
            KernelArg::Buffer { arg_index: 0, arg: 5 },
            KernelArg::Svm { arg_index: 1, arg: 9, len: 512 },
            KernelArg::Pipe { arg_index: 3, arg: 2 },
            KernelArg::Image { arg_index: 4, arg: 6 },
        ]
    );
}

#[test]
fn svm_region_binds_with_its_length() {
    // a 512-element shared region bound at index 0, one kernel instance
    // per element
    let queues = vec![queue(1, OpenCLVersion::V3_0, true, None)];
    let plan = TaskBuilder::new(queues, false)
        .arg_svm(0, 3, 512)
        .global_work_dims(512, 1, 1)
        .plan()
        .unwrap();
    assert_eq!(
        plan.kernel_args,
        vec![KernelArg::Svm { arg_index: 0, arg: 3, len: 512 }]
    );
    assert_eq!(plan.submissions.len(), 1);
    assert_eq!(plan.submissions[0].global_dims, vec![512]);
}

#[test]
fn profiling_override_per_task() {
    let plan = TaskBuilder::new(one_queue(), true)
        .with_profiling(false)
        .plan()
        .unwrap();
    assert!(!plan.profiling_enabled);
}

#[test]
fn profile_requires_ordered_timestamps() {
    assert!(EventProfile::new(1, 2, 3, 10).is_some());
    assert!(EventProfile::new(5, 4, 6, 7).is_none());
    assert!(EventProfile::new(1, 2, 9, 8).is_none());
}

#[test]
fn profile_deltas_are_non_negative() {
    let p = EventProfile::new(10, 15, 20, 120).unwrap();
    assert_eq!(p.get_duration_nanos(), 100);
    assert_eq!(p.delta_breakdown(), (5, 5, 100));
    assert_eq!(p.get_profiling_command_queued(), 10);
    assert_eq!(p.get_profiling_command_submit(), 15);
    assert_eq!(p.get_profiling_command_start(), 20);
    assert_eq!(p.get_profiling_command_end(), 120);
}

#[test]
fn report_totals_sum_event_durations() {
    let mut report = TaskReport::new();
    report
        .kernel_execution_events
        .push(EventTiming::Profiled(EventProfile::new(0, 1, 2, 12).unwrap()));
    report
        .kernel_execution_events
        .push(EventTiming::Profiled(EventProfile::new(0, 0, 5, 10).unwrap()));
    report.kernel_execution_events.push(EventTiming::Unavailable);
    report
        .read_events
        .push(EventTiming::Profiled(EventProfile::new(0, 0, 0, 3).unwrap()));
    assert_eq!(report.total_kernel_duration_ns(), 15);
    assert_eq!(report.total_read_duration_ns(), 3);
    assert_eq!(report.kernel_execution_events.len(), 3);
}

#[test]
fn empty_report_has_zero_totals() {
    let report = TaskReport::new();
    assert_eq!(report.total_kernel_duration_ns(), 0);
    assert_eq!(report.total_read_duration_ns(), 0);
}

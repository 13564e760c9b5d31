use easy_async_opencl3::command_queue_parameters::{
    CommandQueueProperties, Version10, Version20, CL_QUEUE_OUT_OF_ORDER_EXEC_MODE_ENABLE,
    CL_QUEUE_PROFILING_ENABLE, CL_QUEUE_PROPERTIES, CL_QUEUE_SIZE,
};
use easy_async_opencl3::executor::{
    measure_device_capacity, measure_platform_capacity, queue_creation_config,
    select_best_platform, select_default_platform, DeviceFacts, ExecutorCore, QueueCreation,
};
use easy_async_opencl3::memory_flags::MemoryFlags;
use easy_async_opencl3::opencl_version::OpenCLVersion;
use easy_async_opencl3::svm_capabilities::SvmCapabilities;

#[test]
fn device_weight_formula() {
    // (4 compute units * 1000 MHz) / 100 + (512 MiB / 10)
    let mem = 512u64 * 1024 * 1024;
    assert_eq!(measure_device_capacity(4, 1000, mem), 40 + 51);
    assert_eq!(measure_device_capacity(0, 0, 0), 0);
}

#[test]
fn platform_capacity_sums_device_weights() {
    assert_eq!(measure_platform_capacity(&vec![40, 51, 9]), 100);
    assert_eq!(measure_platform_capacity(&Vec::new()), 0);
}

#[test]
fn best_platform_is_first_argmax() {
    assert_eq!(select_best_platform(&vec![10, 50, 50, 7]), 1);
    assert_eq!(select_best_platform(&vec![0, 0]), 0);
    assert_eq!(select_best_platform(&Vec::new()), 0);
}

#[test]
fn default_platform_is_last_argmax() {
    assert_eq!(select_default_platform(&vec![10, 50, 50]), Some(2));
    assert_eq!(select_default_platform(&vec![7]), Some(0));
    assert_eq!(select_default_platform(&Vec::new()), None);
}

#[test]
fn recent_devices_get_property_list_queues() {
    let r = queue_creation_config(OpenCLVersion::V2_0, Some(1 | 2), true);
    match r {
        QueueCreation::WithProperties(p) => {
            assert_eq!(
                p,
                vec![
                    CL_QUEUE_PROPERTIES,
                    CL_QUEUE_OUT_OF_ORDER_EXEC_MODE_ENABLE | CL_QUEUE_PROFILING_ENABLE,
                    0
                ]
            );
        }
        QueueCreation::Legacy(_) => panic!("expected the property-list path"),
    }
}

#[test]
fn older_devices_get_legacy_queues() {
    assert_eq!(
        queue_creation_config(OpenCLVersion::V1_2, None, true),
        QueueCreation::Legacy(CL_QUEUE_PROFILING_ENABLE)
    );
    assert_eq!(
        queue_creation_config(OpenCLVersion::V1_1, Some(1), false),
        QueueCreation::Legacy(0)
    );
}

#[test]
fn fleet_scores_every_device() {
    let facts = vec![
        DeviceFacts {
            compute_units: 4,
            max_clock_frequency: 1000,
            global_mem_size: 512 * 1024 * 1024,
            version: OpenCLVersion::V1_2,
            queue_on_host_properties: None,
            non_uniform_support: false,
            preferred_work_group_size: Some(64),
        },
        DeviceFacts {
            compute_units: 16,
            max_clock_frequency: 2000,
            global_mem_size: 1024 * 1024 * 1024,
            version: OpenCLVersion::V3_0,
            queue_on_host_properties: Some(1),
            non_uniform_support: true,
            preferred_work_group_size: None,
        },
    ];
    let (core, creations) = ExecutorCore::from_device_facts(&facts, true);
    assert!(core.is_profiling_enabled());
    assert_eq!(core.queues.len(), 2);
    assert_eq!(core.queues[0].weight, 91);
    assert_eq!(core.queues[1].weight, 320 + 102);
    assert_eq!(
        core.get_device_versions(),
        vec![OpenCLVersion::V1_2, OpenCLVersion::V3_0]
    );
    assert_eq!(creations.len(), 2);
    assert_eq!(creations[0], QueueCreation::Legacy(CL_QUEUE_PROFILING_ENABLE));
    match &creations[1] {
        QueueCreation::WithProperties(p) => {
            assert_eq!(p[0], CL_QUEUE_PROPERTIES);
            assert_eq!(p[1], 1 | 2);
            assert_eq!(p[2], 0);
        }
        QueueCreation::Legacy(_) => panic!("expected the property-list path"),
    }
}

#[test]
fn queue_properties_builders() {
    let p = CommandQueueProperties::<Version20>::new()
        .set_cl_queue_properties(true, false, false, false)
        .set_cl_queue_size(16)
        .get_properties();
    assert_eq!(p, vec![CL_QUEUE_PROPERTIES, 1, CL_QUEUE_SIZE, 16, 0]);

    let legacy = CommandQueueProperties::<Version10>::new()
        .cl_queue_out_of_order_exec_mode_enable()
        .cl_queue_profiling_enable()
        .get_properties();
    assert_eq!(legacy, 3);
}

#[test]
fn on_device_queues_force_out_of_order() {
    let p = CommandQueueProperties::<Version20>::new()
        .set_cl_queue_properties(false, false, true, false)
        .get_properties();
    assert_eq!(p[1], 4 | 1);
    let q = CommandQueueProperties::<Version20>::new()
        .set_cl_queue_properties(false, false, false, true)
        .get_properties();
    assert_eq!(q[1], 8 | 4 | 1);
}

#[test]
fn memory_flag_bits_combine() {
    assert_eq!(MemoryFlags::get_u64(&MemoryFlags::ReadWrite), 1);
    assert_eq!(MemoryFlags::get_u64(&MemoryFlags::CopyHostPtr), 32);
    assert_eq!(
        MemoryFlags::to_u64(&vec![MemoryFlags::ReadWrite, MemoryFlags::CopyHostPtr]),
        33
    );
    assert_eq!(MemoryFlags::to_u64(&Vec::new()), 0);
    assert_eq!(MemoryFlags::get_u64(&MemoryFlags::KernelReadAndWrite), 4096);
}

#[test]
fn svm_capability_bits() {
    let caps = SvmCapabilities::from_raw(1 | 4);
    assert!(caps.coarse_grain_buffer());
    assert!(!caps.fine_grain_buffer());
    assert!(caps.fine_grain_system());
    assert!(!caps.atomics());
}

#[test]
fn add_is_plain_addition() {
    assert_eq!(easy_async_opencl3::add(2, 3), 5);
}

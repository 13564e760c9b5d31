//! Unified error taxonomy: native status codes of the compute API on one
//! side, wrapper-level failures of this library on the other.
use vstd::prelude::*;

verus! {

// Status codes of the native compute API, as its headers define them.
pub const CL_DEVICE_NOT_FOUND: i32 = -1;
pub const CL_DEVICE_NOT_AVAILABLE: i32 = -2;
pub const CL_COMPILER_NOT_AVAILABLE: i32 = -3;
pub const CL_MEM_OBJECT_ALLOCATION_FAILURE: i32 = -4;
pub const CL_OUT_OF_RESOURCES: i32 = -5;
pub const CL_OUT_OF_HOST_MEMORY: i32 = -6;
pub const CL_PROFILING_INFO_NOT_AVAILABLE: i32 = -7;
pub const CL_MEM_COPY_OVERLAP: i32 = -8;
pub const CL_IMAGE_FORMAT_MISMATCH: i32 = -9;
pub const CL_IMAGE_FORMAT_NOT_SUPPORTED: i32 = -10;
pub const CL_BUILD_PROGRAM_FAILURE: i32 = -11;
pub const CL_MAP_FAILURE: i32 = -12;
pub const CL_MISALIGNED_SUB_BUFFER_OFFSET: i32 = -13;
pub const CL_EXEC_STATUS_ERROR_FOR_EVENTS_IN_WAIT_LIST: i32 = -14;
pub const CL_COMPILE_PROGRAM_FAILURE: i32 = -15;
pub const CL_LINKER_NOT_AVAILABLE: i32 = -16;
pub const CL_LINK_PROGRAM_FAILURE: i32 = -17;
pub const CL_DEVICE_PARTITION_FAILED: i32 = -18;
pub const CL_KERNEL_ARG_INFO_NOT_AVAILABLE: i32 = -19;
pub const CL_INVALID_VALUE: i32 = -30;
pub const CL_INVALID_DEVICE_TYPE: i32 = -31;
pub const CL_INVALID_PLATFORM: i32 = -32;
pub const CL_INVALID_DEVICE: i32 = -33;
pub const CL_INVALID_CONTEXT: i32 = -34;
pub const CL_INVALID_QUEUE_PROPERTIES: i32 = -35;
pub const CL_INVALID_COMMAND_QUEUE: i32 = -36;
pub const CL_INVALID_HOST_PTR: i32 = -37;
pub const CL_INVALID_MEM_OBJECT: i32 = -38;
pub const CL_INVALID_IMAGE_FORMAT_DESCRIPTOR: i32 = -39;
pub const CL_INVALID_IMAGE_SIZE: i32 = -40;
pub const CL_INVALID_SAMPLER: i32 = -41;
pub const CL_INVALID_BINARY: i32 = -42;
pub const CL_INVALID_BUILD_OPTIONS: i32 = -43;
pub const CL_INVALID_PROGRAM: i32 = -44;
pub const CL_INVALID_PROGRAM_EXECUTABLE: i32 = -45;
pub const CL_INVALID_KERNEL_NAME: i32 = -46;
pub const CL_INVALID_KERNEL_DEFINITION: i32 = -47;
pub const CL_INVALID_KERNEL: i32 = -48;
pub const CL_INVALID_ARG_INDEX: i32 = -49;
pub const CL_INVALID_ARG_VALUE: i32 = -50;
pub const CL_INVALID_ARG_SIZE: i32 = -51;
pub const CL_INVALID_KERNEL_ARGS: i32 = -52;
pub const CL_INVALID_WORK_DIMENSION: i32 = -53;
pub const CL_INVALID_WORK_GROUP_SIZE: i32 = -54;
pub const CL_INVALID_WORK_ITEM_SIZE: i32 = -55;
pub const CL_INVALID_GLOBAL_OFFSET: i32 = -56;
pub const CL_INVALID_EVENT_WAIT_LIST: i32 = -57;
pub const CL_INVALID_EVENT: i32 = -58;
pub const CL_INVALID_OPERATION: i32 = -59;
pub const CL_INVALID_GL_OBJECT: i32 = -60;
pub const CL_INVALID_BUFFER_SIZE: i32 = -61;
pub const CL_INVALID_MIP_LEVEL: i32 = -62;
pub const CL_INVALID_GLOBAL_WORK_SIZE: i32 = -63;
pub const CL_INVALID_PROPERTY: i32 = -64;
pub const CL_INVALID_IMAGE_DESCRIPTOR: i32 = -65;
pub const CL_INVALID_COMPILER_OPTIONS: i32 = -66;
pub const CL_INVALID_LINKER_OPTIONS: i32 = -67;
pub const CL_INVALID_DEVICE_PARTITION_COUNT: i32 = -68;
pub const CL_INVALID_PIPE_SIZE: i32 = -69;
pub const CL_INVALID_DEVICE_QUEUE: i32 = -70;
pub const CL_INVALID_SPEC_ID: i32 = -71;
pub const CL_MAX_SIZE_RESTRICTION_EXCEEDED: i32 = -72;
// Vendor-extension status codes.
pub const CL_D3D11_RESOURCE_ALREADY_ACQUIRED_KHR: i32 = -1008;
pub const CL_D3D11_RESOURCE_NOT_ACQUIRED_KHR: i32 = -1009;
pub const CL_ACCELERATOR_TYPE_NOT_SUPPORTED_INTEL: i32 = -1097;
pub const CL_COMMAND_TERMINATED_ITSELF_WITH_FAILURE_ARM: i32 = -1108;
pub const CL_CONTEXT_TERMINATED_KHR: i32 = -1121;
pub const CL_CANCELLED_IMG: i32 = -1126;

/// A status code of the native API, mapped to a named variant.
/// Codes outside the mapping are kept, not lost: `Unknown(code)`.
#[derive(Debug, Clone, Copy, PartialEq, Eq, Structural)]
pub enum ApiError {
    Unknown(i32),
    ClAcceleratorTypeNotSupportedIntel,
    ClBuildProgramFailure,
    ClCancelledImg,
    ClCommandTerminatedItselfWithFailureArm,
    ClCompilerNotAvailable,
    ClCompileProgramFailure,
    ClContextTerminatedKhr,
    ClD3D11ResourceAlreadyAcquiredKhr,
    ClD3D11ResourceNotAcquiredKhr,
    ClDeviceNotAvailable,
    ClDeviceNotFound,
    ClMemObjectAllocationFailure,
    ClOutOfResources,
    ClOutOfHostMemory,
    ClProfilingInfoNotAvailable,
    ClMemCopyOverlap,
    ClImageFormatMismatch,
    ClImageFormatNotSupported,
    ClMapFailure,
    ClMisalignedSubBufferOffset,
    ClExecStatusErrorForEventsInWaitList,
    ClLinkerNotAvailable,
    ClLinkProgramFailure,
    ClDevicePartitionFailed,
    ClKernelArgInfoNotAvailable,
    ClInvalidValue,
    ClInvalidDeviceType,
    ClInvalidPlatform,
    ClInvalidDevice,
    ClInvalidContext,
    ClInvalidQueueProperties,
    ClInvalidCommandQueue,
    ClInvalidHostPtr,
    ClInvalidMemObject,
    ClInvalidImageFormatDescriptor,
    ClInvalidImageSize,
    ClInvalidSampler,
    ClInvalidBinary,
    ClInvalidBuildOptions,
    ClInvalidProgram,
    ClInvalidProgramExecutable,
    ClInvalidKernelName,
    ClInvalidKernelDefinition,
    ClInvalidKernel,
    ClInvalidArgIndex,
    ClInvalidArgValue,
    ClInvalidArgSize,
    ClInvalidKernelArgs,
    ClInvalidWorkDimension,
    ClInvalidWorkGroupSize,
    ClInvalidWorkItemSize,
    ClInvalidGlobalOffset,
    ClInvalidEventWaitList,
    ClInvalidEvent,
    ClInvalidOperation,
    ClInvalidGlObject,
    ClInvalidBufferSize,
    ClInvalidMipLevel,
    ClInvalidGlobalWorkSize,
    ClInvalidProperty,
    ClInvalidImageDescriptor,
    ClInvalidCompilerOptions,
    ClInvalidLinkerOptions,
    ClInvalidDevicePartitionCount,
    ClInvalidPipeSize,
    ClInvalidDeviceQueue,
    ClInvalidSpecId,
    ClMaxSizeRestrictionExceeded,
}

/// What variant a given native status code stands for.
pub open spec fn api_error_of(code: i32) -> ApiError {
    if code == CL_ACCELERATOR_TYPE_NOT_SUPPORTED_INTEL {
        ApiError::ClAcceleratorTypeNotSupportedIntel
    } else if code == CL_BUILD_PROGRAM_FAILURE {
        ApiError::ClBuildProgramFailure
    } else if code == CL_CANCELLED_IMG {
        ApiError::ClCancelledImg
    } else if code == CL_COMMAND_TERMINATED_ITSELF_WITH_FAILURE_ARM {
        ApiError::ClCommandTerminatedItselfWithFailureArm
    } else if code == CL_COMPILER_NOT_AVAILABLE {
        ApiError::ClCompilerNotAvailable
    } else if code == CL_COMPILE_PROGRAM_FAILURE {
        ApiError::ClCompileProgramFailure
    } else if code == CL_CONTEXT_TERMINATED_KHR {
        ApiError::ClContextTerminatedKhr
    } else if code == CL_D3D11_RESOURCE_ALREADY_ACQUIRED_KHR {
        ApiError::ClD3D11ResourceAlreadyAcquiredKhr
    } else if code == CL_D3D11_RESOURCE_NOT_ACQUIRED_KHR {
        ApiError::ClD3D11ResourceNotAcquiredKhr
    } else if code == CL_DEVICE_NOT_AVAILABLE {
        ApiError::ClDeviceNotAvailable
    } else if code == CL_DEVICE_NOT_FOUND {
        ApiError::ClDeviceNotFound
    } else if code == CL_MEM_OBJECT_ALLOCATION_FAILURE {
        ApiError::ClMemObjectAllocationFailure
    } else if code == CL_OUT_OF_RESOURCES {
        ApiError::ClOutOfResources
    } else if code == CL_OUT_OF_HOST_MEMORY {
        ApiError::ClOutOfHostMemory
    } else if code == CL_PROFILING_INFO_NOT_AVAILABLE {
        ApiError::ClProfilingInfoNotAvailable
    } else if code == CL_MEM_COPY_OVERLAP {
        ApiError::ClMemCopyOverlap
    } else if code == CL_IMAGE_FORMAT_MISMATCH {
        ApiError::ClImageFormatMismatch
    } else if code == CL_IMAGE_FORMAT_NOT_SUPPORTED {
        ApiError::ClImageFormatNotSupported
    } else if code == CL_MAP_FAILURE {
        ApiError::ClMapFailure
    } else if code == CL_MISALIGNED_SUB_BUFFER_OFFSET {
        ApiError::ClMisalignedSubBufferOffset
    } else if code == CL_EXEC_STATUS_ERROR_FOR_EVENTS_IN_WAIT_LIST {
        ApiError::ClExecStatusErrorForEventsInWaitList
    } else if code == CL_LINKER_NOT_AVAILABLE {
        ApiError::ClLinkerNotAvailable
    } else if code == CL_LINK_PROGRAM_FAILURE {
        ApiError::ClLinkProgramFailure
    } else if code == CL_DEVICE_PARTITION_FAILED {
        ApiError::ClDevicePartitionFailed
    } else if code == CL_KERNEL_ARG_INFO_NOT_AVAILABLE {
        ApiError::ClKernelArgInfoNotAvailable
    } else if code == CL_INVALID_VALUE {
        ApiError::ClInvalidValue
    } else if code == CL_INVALID_DEVICE_TYPE {
        ApiError::ClInvalidDeviceType
    } else if code == CL_INVALID_PLATFORM {
        ApiError::ClInvalidPlatform
    } else if code == CL_INVALID_DEVICE {
        ApiError::ClInvalidDevice
    } else if code == CL_INVALID_CONTEXT {
        ApiError::ClInvalidContext
    } else if code == CL_INVALID_QUEUE_PROPERTIES {
        ApiError::ClInvalidQueueProperties
    } else if code == CL_INVALID_COMMAND_QUEUE {
        ApiError::ClInvalidCommandQueue
    } else if code == CL_INVALID_HOST_PTR {
        ApiError::ClInvalidHostPtr
    } else if code == CL_INVALID_MEM_OBJECT {
        ApiError::ClInvalidMemObject
    } else if code == CL_INVALID_IMAGE_FORMAT_DESCRIPTOR {
        ApiError::ClInvalidImageFormatDescriptor
    } else if code == CL_INVALID_IMAGE_SIZE {
        ApiError::ClInvalidImageSize
    } else if code == CL_INVALID_SAMPLER {
        ApiError::ClInvalidSampler
    } else if code == CL_INVALID_BINARY {
        ApiError::ClInvalidBinary
    } else if code == CL_INVALID_BUILD_OPTIONS {
        ApiError::ClInvalidBuildOptions
    } else if code == CL_INVALID_PROGRAM {
        ApiError::ClInvalidProgram
    } else if code == CL_INVALID_PROGRAM_EXECUTABLE {
        ApiError::ClInvalidProgramExecutable
    } else if code == CL_INVALID_KERNEL_NAME {
        ApiError::ClInvalidKernelName
    } else if code == CL_INVALID_KERNEL_DEFINITION {
        ApiError::ClInvalidKernelDefinition
    } else if code == CL_INVALID_KERNEL {
        ApiError::ClInvalidKernel
    } else if code == CL_INVALID_ARG_INDEX {
        ApiError::ClInvalidArgIndex
    } else if code == CL_INVALID_ARG_VALUE {
        ApiError::ClInvalidArgValue
    } else if code == CL_INVALID_ARG_SIZE {
        ApiError::ClInvalidArgSize
    } else if code == CL_INVALID_KERNEL_ARGS {
        ApiError::ClInvalidKernelArgs
    } else if code == CL_INVALID_WORK_DIMENSION {
        ApiError::ClInvalidWorkDimension
    } else if code == CL_INVALID_WORK_GROUP_SIZE {
        ApiError::ClInvalidWorkGroupSize
    } else if code == CL_INVALID_WORK_ITEM_SIZE {
        ApiError::ClInvalidWorkItemSize
    } else if code == CL_INVALID_GLOBAL_OFFSET {
        ApiError::ClInvalidGlobalOffset
    } else if code == CL_INVALID_EVENT_WAIT_LIST {
        ApiError::ClInvalidEventWaitList
    } else if code == CL_INVALID_EVENT {
        ApiError::ClInvalidEvent
    } else if code == CL_INVALID_OPERATION {
        ApiError::ClInvalidOperation
    } else if code == CL_INVALID_GL_OBJECT {
        ApiError::ClInvalidGlObject
    } else if code == CL_INVALID_BUFFER_SIZE {
        ApiError::ClInvalidBufferSize
    } else if code == CL_INVALID_MIP_LEVEL {
        ApiError::ClInvalidMipLevel
    } else if code == CL_INVALID_GLOBAL_WORK_SIZE {
        ApiError::ClInvalidGlobalWorkSize
    } else if code == CL_INVALID_PROPERTY {
        ApiError::ClInvalidProperty
    } else if code == CL_INVALID_IMAGE_DESCRIPTOR {
        ApiError::ClInvalidImageDescriptor
    } else if code == CL_INVALID_COMPILER_OPTIONS {
        ApiError::ClInvalidCompilerOptions
    } else if code == CL_INVALID_LINKER_OPTIONS {
        ApiError::ClInvalidLinkerOptions
    } else if code == CL_INVALID_DEVICE_PARTITION_COUNT {
        ApiError::ClInvalidDevicePartitionCount
    } else if code == CL_INVALID_PIPE_SIZE {
        ApiError::ClInvalidPipeSize
    } else if code == CL_INVALID_DEVICE_QUEUE {
        ApiError::ClInvalidDeviceQueue
    } else if code == CL_INVALID_SPEC_ID {
        ApiError::ClInvalidSpecId
    } else if code == CL_MAX_SIZE_RESTRICTION_EXCEEDED {
        ApiError::ClMaxSizeRestrictionExceeded
    } else {
        ApiError::Unknown(code)
    }
}

impl ApiError {
    /// Maps a native status code to its variant; every code is representable,
    /// codes outside the table come back as `Unknown(code)`.
    pub fn get_error(code: i32) -> (r: ApiError)
        ensures
            r == api_error_of(code),
    {
        if code == CL_ACCELERATOR_TYPE_NOT_SUPPORTED_INTEL {
            ApiError::ClAcceleratorTypeNotSupportedIntel
        } else if code == CL_BUILD_PROGRAM_FAILURE {
            ApiError::ClBuildProgramFailure
        } else if code == CL_CANCELLED_IMG {
            ApiError::ClCancelledImg
        } else if code == CL_COMMAND_TERMINATED_ITSELF_WITH_FAILURE_ARM {
            ApiError::ClCommandTerminatedItselfWithFailureArm
        } else if code == CL_COMPILER_NOT_AVAILABLE {
            ApiError::ClCompilerNotAvailable
        } else if code == CL_COMPILE_PROGRAM_FAILURE {
            ApiError::ClCompileProgramFailure
        } else if code == CL_CONTEXT_TERMINATED_KHR {
            ApiError::ClContextTerminatedKhr
        } else if code == CL_D3D11_RESOURCE_ALREADY_ACQUIRED_KHR {
            ApiError::ClD3D11ResourceAlreadyAcquiredKhr
        } else if code == CL_D3D11_RESOURCE_NOT_ACQUIRED_KHR {
            ApiError::ClD3D11ResourceNotAcquiredKhr
        } else if code == CL_DEVICE_NOT_AVAILABLE {
            ApiError::ClDeviceNotAvailable
        } else if code == CL_DEVICE_NOT_FOUND {
            ApiError::ClDeviceNotFound
        } else if code == CL_MEM_OBJECT_ALLOCATION_FAILURE {
            ApiError::ClMemObjectAllocationFailure
        } else if code == CL_OUT_OF_RESOURCES {
            ApiError::ClOutOfResources
        } else if code == CL_OUT_OF_HOST_MEMORY {
            ApiError::ClOutOfHostMemory
        } else if code == CL_PROFILING_INFO_NOT_AVAILABLE {
            ApiError::ClProfilingInfoNotAvailable
        } else if code == CL_MEM_COPY_OVERLAP {
            ApiError::ClMemCopyOverlap
        } else if code == CL_IMAGE_FORMAT_MISMATCH {
            ApiError::ClImageFormatMismatch
        } else if code == CL_IMAGE_FORMAT_NOT_SUPPORTED {
            ApiError::ClImageFormatNotSupported
        } else if code == CL_MAP_FAILURE {
            ApiError::ClMapFailure
        } else if code == CL_MISALIGNED_SUB_BUFFER_OFFSET {
            ApiError::ClMisalignedSubBufferOffset
        } else if code == CL_EXEC_STATUS_ERROR_FOR_EVENTS_IN_WAIT_LIST {
            ApiError::ClExecStatusErrorForEventsInWaitList
        } else if code == CL_LINKER_NOT_AVAILABLE {
            ApiError::ClLinkerNotAvailable
        } else if code == CL_LINK_PROGRAM_FAILURE {
            ApiError::ClLinkProgramFailure
        } else if code == CL_DEVICE_PARTITION_FAILED {
            ApiError::ClDevicePartitionFailed
        } else if code == CL_KERNEL_ARG_INFO_NOT_AVAILABLE {
            ApiError::ClKernelArgInfoNotAvailable
        } else if code == CL_INVALID_VALUE {
            ApiError::ClInvalidValue
        } else if code == CL_INVALID_DEVICE_TYPE {
            ApiError::ClInvalidDeviceType
        } else if code == CL_INVALID_PLATFORM {
            ApiError::ClInvalidPlatform
        } else if code == CL_INVALID_DEVICE {
            ApiError::ClInvalidDevice
        } else if code == CL_INVALID_CONTEXT {
            ApiError::ClInvalidContext
        } else if code == CL_INVALID_QUEUE_PROPERTIES {
            ApiError::ClInvalidQueueProperties
        } else if code == CL_INVALID_COMMAND_QUEUE {
            ApiError::ClInvalidCommandQueue
        } else if code == CL_INVALID_HOST_PTR {
            ApiError::ClInvalidHostPtr
        } else if code == CL_INVALID_MEM_OBJECT {
            ApiError::ClInvalidMemObject
        } else if code == CL_INVALID_IMAGE_FORMAT_DESCRIPTOR {
            ApiError::ClInvalidImageFormatDescriptor
        } else if code == CL_INVALID_IMAGE_SIZE {
            ApiError::ClInvalidImageSize
        } else if code == CL_INVALID_SAMPLER {
            ApiError::ClInvalidSampler
        } else if code == CL_INVALID_BINARY {
            ApiError::ClInvalidBinary
        } else if code == CL_INVALID_BUILD_OPTIONS {
            ApiError::ClInvalidBuildOptions
        } else if code == CL_INVALID_PROGRAM {
            ApiError::ClInvalidProgram
        } else if code == CL_INVALID_PROGRAM_EXECUTABLE {
            ApiError::ClInvalidProgramExecutable
        } else if code == CL_INVALID_KERNEL_NAME {
            ApiError::ClInvalidKernelName
        } else if code == CL_INVALID_KERNEL_DEFINITION {
            ApiError::ClInvalidKernelDefinition
        } else if code == CL_INVALID_KERNEL {
            ApiError::ClInvalidKernel
        } else if code == CL_INVALID_ARG_INDEX {
            ApiError::ClInvalidArgIndex
        } else if code == CL_INVALID_ARG_VALUE {
            ApiError::ClInvalidArgValue
        } else if code == CL_INVALID_ARG_SIZE {
            ApiError::ClInvalidArgSize
        } else if code == CL_INVALID_KERNEL_ARGS {
            ApiError::ClInvalidKernelArgs
        } else if code == CL_INVALID_WORK_DIMENSION {
            ApiError::ClInvalidWorkDimension
        } else if code == CL_INVALID_WORK_GROUP_SIZE {
            ApiError::ClInvalidWorkGroupSize
        } else if code == CL_INVALID_WORK_ITEM_SIZE {
            ApiError::ClInvalidWorkItemSize
        } else if code == CL_INVALID_GLOBAL_OFFSET {
            ApiError::ClInvalidGlobalOffset
        } else if code == CL_INVALID_EVENT_WAIT_LIST {
            ApiError::ClInvalidEventWaitList
        } else if code == CL_INVALID_EVENT {
            ApiError::ClInvalidEvent
        } else if code == CL_INVALID_OPERATION {
            ApiError::ClInvalidOperation
        } else if code == CL_INVALID_GL_OBJECT {
            ApiError::ClInvalidGlObject
        } else if code == CL_INVALID_BUFFER_SIZE {
            ApiError::ClInvalidBufferSize
        } else if code == CL_INVALID_MIP_LEVEL {
            ApiError::ClInvalidMipLevel
        } else if code == CL_INVALID_GLOBAL_WORK_SIZE {
            ApiError::ClInvalidGlobalWorkSize
        } else if code == CL_INVALID_PROPERTY {
            ApiError::ClInvalidProperty
        } else if code == CL_INVALID_IMAGE_DESCRIPTOR {
            ApiError::ClInvalidImageDescriptor
        } else if code == CL_INVALID_COMPILER_OPTIONS {
            ApiError::ClInvalidCompilerOptions
        } else if code == CL_INVALID_LINKER_OPTIONS {
            ApiError::ClInvalidLinkerOptions
        } else if code == CL_INVALID_DEVICE_PARTITION_COUNT {
            ApiError::ClInvalidDevicePartitionCount
        } else if code == CL_INVALID_PIPE_SIZE {
            ApiError::ClInvalidPipeSize
        } else if code == CL_INVALID_DEVICE_QUEUE {
            ApiError::ClInvalidDeviceQueue
        } else if code == CL_INVALID_SPEC_ID {
            ApiError::ClInvalidSpecId
        } else if code == CL_MAX_SIZE_RESTRICTION_EXCEEDED {
            ApiError::ClMaxSizeRestrictionExceeded
        } else {
            ApiError::Unknown(code)
        }
    }
}

/// A failure of this library itself, as opposed to a native status code.
#[derive(Debug, Clone, Copy, PartialEq, Eq, Structural)]
pub enum WrapperError {
    DecoderFailed,
    DefaultPlatformNotFound,
    PlatformsNotFound,
    DeviceNotFoundInProgram,
    FileIOError,
    NameConversionFailed,
    SubdeviceNotAvailable,
}

/// The unified error kind every fallible operation of the library returns.
#[derive(Debug, Clone, Copy, PartialEq, Eq, Structural)]
pub enum ClError {
    Api(ApiError),
    Wrapper(WrapperError),
}

/// Failure of a device info query.
#[derive(Debug, Clone, Copy, PartialEq, Eq, Structural)]
pub enum DeviceError {
    GetDataError(i32),
    SubdeviceNotAvailable,
    CouldNotDivideDevice(i32),
    FailedToFormat,
}

/// Failure of a platform query.
#[derive(Debug, Clone, Copy, PartialEq, Eq, Structural)]
pub enum PlatformError {
    GetDataError(i32),
    GetIdError(i32),
    CouldNotFindPlatform,
    CouldNotGetDevice(i32),
    FailedToFormat,
}

/// Failure of command queue creation or a queue info query.
#[derive(Debug, Clone, Copy, PartialEq, Eq, Structural)]
pub enum CommandQueueError {
    CommandQueueFailed(i32),
    CommandQueueWithPropertiesFailed(i32),
    QueryDataError(i32),
    FailedToFormat,
}

} // verus!

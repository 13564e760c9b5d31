//! Programs: the build-options builder, build status and binary-type
//! codes, the phantom build-state markers, and the binary bookkeeping of a
//! built program.
use vstd::prelude::*;

use vstd::string::StringExecFns;

verus! {

pub const CL_PROGRAM_BINARY_TYPE_NONE: u32 = 0;
pub const CL_PROGRAM_BINARY_TYPE_COMPILED_OBJECT: u32 = 1;
pub const CL_PROGRAM_BINARY_TYPE_LIBRARY: u32 = 2;
pub const CL_PROGRAM_BINARY_TYPE_EXECUTABLE: u32 = 4;
pub const CL_PROGRAM_BINARY_TYPE_INTERMEDIATE: u32 = 0x40E1;

pub const CL_BUILD_SUCCESS: i32 = 0;
pub const CL_BUILD_NONE: i32 = -1;
pub const CL_BUILD_ERROR: i32 = -2;
pub const CL_BUILD_IN_PROGRESS: i32 = -3;

/// Marker for a program that has been built for a set of devices.
pub struct Builded;

/// Marker for a program that has not been built yet.
pub struct NotBuilded;

/// The build options handed to the native compiler, gathered as text.
pub struct ProgramParameters {
    parameters: String,
}

impl ProgramParameters {
    /// The option text gathered so far.
    pub closed spec fn spec_parameters(&self) -> Seq<char> {
        self.parameters@
    }

    /// The finished option text.
    pub fn get_parameters(&mut self) -> (r: String)
        ensures
            r@ == old(self).spec_parameters(),
            final(self).spec_parameters() == old(self).spec_parameters(),
    {
        self.parameters.clone()
    }

    /// Defines `NAME` for the kernel source.
    pub fn name(self, value: &str) -> (r: ProgramParameters)
        ensures
            r.spec_parameters() == self.spec_parameters() + "-DNAME="@ + value@,
    {
        let mut me = self;
        me.parameters.append("-DNAME=");
        me.parameters.append(value);
        me
    }

    /// Pins the language version the source is compiled as.
    pub fn version(self, version: &str) -> (r: ProgramParameters)
        ensures
            r.spec_parameters() == self.spec_parameters() + "-cl-std="@ + version@,
    {
        let mut me = self;
        me.parameters.append("-cl-std=");
        me.parameters.append(version);
        me
    }

    /// Appends caller-supplied option text verbatim.
    pub fn custom(self, options: &str) -> (r: ProgramParameters)
        ensures
            r.spec_parameters() == self.spec_parameters() + options@,
    {
        let mut me = self;
        me.parameters.append(options);
        me
    }
}

impl Default for ProgramParameters {
    /// No options at all.
    fn default() -> (r: ProgramParameters)
        ensures
            r.spec_parameters() == Seq::<char>::empty(),
    {
        ProgramParameters { parameters: String::new() }
    }
}

/// The option text a caller's choice stands for: the caller's text, or
/// nothing.
pub open spec fn spec_build_options(options: Option<&str>) -> Seq<char> {
    match options {
        Option::Some(o) => o@,
        Option::None => Seq::empty(),
    }
}

/// Builds the option text a program is compiled with, as
/// `spec_build_options` says.
pub fn build_options(options: Option<&str>) -> (r: String)
    ensures
        r@ == spec_build_options(options),
{
    let mut params = match options {
        Option::Some(opt) => ProgramParameters::default().custom(opt),
        Option::None => ProgramParameters::default(),
    };
    let r = params.get_parameters();
    proof {
        assert(Seq::<char>::empty() + spec_build_options(options) =~= spec_build_options(options));
    }
    r
}

/// What kind of binary a program carries. Codes outside the mapping are
/// kept as `Unknown(code)`.
#[derive(Debug, Clone, Copy, PartialEq, Eq, Structural)]
pub enum ProgramBinaryType {
    BinaryTypeNone,
    BinaryTypeCompiledObject,
    BinaryTypeLibrary,
    BinaryTypeExecutable,
    BinaryTypeIntermediate,
    Unknown(u32),
}

/// The binary type a raw code stands for.
pub open spec fn binary_type_of(value: u32) -> ProgramBinaryType {
    if value == CL_PROGRAM_BINARY_TYPE_NONE {
        ProgramBinaryType::BinaryTypeNone
    } else if value == CL_PROGRAM_BINARY_TYPE_COMPILED_OBJECT {
        ProgramBinaryType::BinaryTypeCompiledObject
    } else if value == CL_PROGRAM_BINARY_TYPE_LIBRARY {
        ProgramBinaryType::BinaryTypeLibrary
    } else if value == CL_PROGRAM_BINARY_TYPE_EXECUTABLE {
        ProgramBinaryType::BinaryTypeExecutable
    } else if value == CL_PROGRAM_BINARY_TYPE_INTERMEDIATE {
        ProgramBinaryType::BinaryTypeIntermediate
    } else {
        ProgramBinaryType::Unknown(value)
    }
}

impl ProgramBinaryType {
    /// Reads a raw binary-type code, as `binary_type_of` says.
    pub fn from_raw(value: u32) -> (r: ProgramBinaryType)
        ensures
            r == binary_type_of(value),
    {
        if value == CL_PROGRAM_BINARY_TYPE_NONE {
            ProgramBinaryType::BinaryTypeNone
        } else if value == CL_PROGRAM_BINARY_TYPE_COMPILED_OBJECT {
            ProgramBinaryType::BinaryTypeCompiledObject
        } else if value == CL_PROGRAM_BINARY_TYPE_LIBRARY {
            ProgramBinaryType::BinaryTypeLibrary
        } else if value == CL_PROGRAM_BINARY_TYPE_EXECUTABLE {
            ProgramBinaryType::BinaryTypeExecutable
        } else if value == CL_PROGRAM_BINARY_TYPE_INTERMEDIATE {
            ProgramBinaryType::BinaryTypeIntermediate
        } else {
            ProgramBinaryType::Unknown(value)
        }
    }
}

/// Where a device's build of a program stands. Codes outside the mapping
/// are kept as `Unknown(code)`.
#[derive(Debug, Clone, Copy, PartialEq, Eq, Structural)]
pub enum ProgramBuildStatus {
    BuildNone,
    BuildError,
    BuildSuccess,
    BuildInProgress,
    Unknown(i32),
}

/// The build status a raw code stands for.
pub open spec fn build_status_of(value: i32) -> ProgramBuildStatus {
    if value == CL_BUILD_SUCCESS {
        ProgramBuildStatus::BuildSuccess
    } else if value == CL_BUILD_NONE {
        ProgramBuildStatus::BuildNone
    } else if value == CL_BUILD_ERROR {
        ProgramBuildStatus::BuildError
    } else if value == CL_BUILD_IN_PROGRESS {
        ProgramBuildStatus::BuildInProgress
    } else {
        ProgramBuildStatus::Unknown(value)
    }
}

impl ProgramBuildStatus {
    /// Reads a raw build-status code, as `build_status_of` says.
    pub fn from_raw(value: i32) -> (r: ProgramBuildStatus)
        ensures
            r == build_status_of(value),
    {
        if value == CL_BUILD_SUCCESS {
            ProgramBuildStatus::BuildSuccess
        } else if value == CL_BUILD_NONE {
            ProgramBuildStatus::BuildNone
        } else if value == CL_BUILD_ERROR {
            ProgramBuildStatus::BuildError
        } else if value == CL_BUILD_IN_PROGRESS {
            ProgramBuildStatus::BuildInProgress
        } else {
            ProgramBuildStatus::Unknown(value)
        }
    }
}

/// The binary bookkeeping of a built program: one binary size per device
/// it was built for, always in device order.
pub struct BuiltProgramInfo {
    device_count: usize,
    binary_sizes: Vec<usize>,
}

impl BuiltProgramInfo {
    /// A built program carries exactly one binary size per device.
    #[verifier::type_invariant]
    pub closed spec fn sizes_match_devices(self) -> bool {
        self.binary_sizes@.len() == self.device_count
    }

    /// How many devices the program was built for.
    pub closed spec fn spec_device_count(&self) -> usize {
        self.device_count
    }

    /// The per-device binary sizes.
    pub closed spec fn spec_binary_sizes(&self) -> Seq<usize> {
        self.binary_sizes@
    }

    /// Accepts the per-device binary sizes of a build, but only when there
    /// is exactly one per device.
    pub fn new(device_count: usize, binary_sizes: Vec<usize>) -> (r: Option<BuiltProgramInfo>)
        ensures
            r is Some <==> binary_sizes@.len() == device_count,
            r matches Some(p) ==> p.spec_device_count() == device_count
                && p.spec_binary_sizes() == binary_sizes@,
    {
        if binary_sizes.len() == device_count {
            Some(BuiltProgramInfo { device_count, binary_sizes })
        } else {
            None
        }
    }

    /// How many devices the program was built for.
    pub fn device_count(&self) -> (r: usize)
        ensures
            r == self.spec_device_count(),
    {
        self.device_count
    }

    /// The binary-count law: a built program reports exactly as many
    /// binary sizes as it has devices.
    pub fn binary_sizes(&self) -> (r: &Vec<usize>)
        ensures
            r@ == self.spec_binary_sizes(),
            r@.len() == self.spec_device_count(),
    {
        proof {
            use_type_invariant(self);
        }
        &self.binary_sizes
    }
}

} // verus!

use easy_async_opencl3::errors::ApiError;
use easy_async_opencl3::image_types::{
    ClImageChannelOrder, ClImageChannelType, ClImageFormats, ClImageType,
};
use easy_async_opencl3::program::{
    build_options, BuiltProgramInfo, ProgramBinaryType, ProgramBuildStatus, ProgramParameters,
};

#[test]
fn api_error_codes_map_to_variants() {
    assert_eq!(ApiError::get_error(-1), ApiError::ClDeviceNotFound);
    assert_eq!(ApiError::get_error(-11), ApiError::ClBuildProgramFailure);
    assert_eq!(ApiError::get_error(-54), ApiError::ClInvalidWorkGroupSize);
    assert_eq!(ApiError::get_error(-72), ApiError::ClMaxSizeRestrictionExceeded);
    assert_eq!(ApiError::get_error(-1121), ApiError::ClContextTerminatedKhr);
}

#[test]
fn unknown_codes_are_kept() {
    assert_eq!(ApiError::get_error(0), ApiError::Unknown(0));
    assert_eq!(ApiError::get_error(-9999), ApiError::Unknown(-9999));
}

#[test]
fn channel_order_codes_round_trip() {
    assert_eq!(ClImageChannelOrder::from_raw(0x10B5), ClImageChannelOrder::RGBA);
    assert_eq!(ClImageChannelOrder::RGBA.as_raw(), 0x10B5);
    assert_eq!(
        ClImageChannelOrder::from_raw(0xABCD),
        ClImageChannelOrder::Unknown(0xABCD)
    );
    assert_eq!(ClImageChannelOrder::Unknown(0xABCD).as_raw(), 0xABCD);
}

#[test]
fn channel_type_codes_round_trip() {
    assert_eq!(ClImageChannelType::from_raw(0x10DE), ClImageChannelType::Float);
    assert_eq!(ClImageChannelType::Float.as_raw(), 0x10DE);
    assert_eq!(ClImageChannelType::UnormInt8.as_raw(), 0x10D2);
}

#[test]
fn image_format_presets() {
    let f = ClImageFormats::rgba_float();
    assert_eq!(f.image_channel_order, ClImageChannelOrder::RGBA);
    assert_eq!(f.image_channel_data_type, ClImageChannelType::Float);
    let u = ClImageFormats::rgba_unorm_int8();
    assert_eq!(u.image_channel_data_type, ClImageChannelType::UnormInt8);
}

#[test]
fn image_kind_codes() {
    assert_eq!(ClImageType::Image1D.as_raw(), 0x10F4);
    assert_eq!(ClImageType::Image2D.as_raw(), 0x10F1);
    assert_eq!(ClImageType::Image3D.as_raw(), 0x10F2);
}

#[test]
fn build_status_codes() {
    assert_eq!(ProgramBuildStatus::from_raw(0), ProgramBuildStatus::BuildSuccess);
    assert_eq!(ProgramBuildStatus::from_raw(-1), ProgramBuildStatus::BuildNone);
    assert_eq!(ProgramBuildStatus::from_raw(-2), ProgramBuildStatus::BuildError);
    assert_eq!(ProgramBuildStatus::from_raw(-3), ProgramBuildStatus::BuildInProgress);
    assert_eq!(ProgramBuildStatus::from_raw(9), ProgramBuildStatus::Unknown(9));
}

#[test]
fn binary_type_codes() {
    assert_eq!(ProgramBinaryType::from_raw(0), ProgramBinaryType::BinaryTypeNone);
    assert_eq!(ProgramBinaryType::from_raw(4), ProgramBinaryType::BinaryTypeExecutable);
    assert_eq!(
        ProgramBinaryType::from_raw(0x40E1),
        ProgramBinaryType::BinaryTypeIntermediate
    );
    assert_eq!(ProgramBinaryType::from_raw(77), ProgramBinaryType::Unknown(77));
}

#[test]
fn program_parameters_accumulate_options() {
    let mut p = ProgramParameters::default().version("CL2.0").name("fft");
    assert_eq!(p.get_parameters(), String::from("-cl-std=CL2.0-DNAME=fft"));
}

#[test]
fn build_options_pass_caller_text_through() {
    assert_eq!(build_options(Some("-cl-std=CL2.0")), String::from("-cl-std=CL2.0"));
    assert_eq!(build_options(None), String::from(""));
}

#[test]
fn built_program_counts_binaries_per_device() {
    let info = BuiltProgramInfo::new(3, vec![100, 0, 250]).unwrap();
    assert_eq!(info.device_count(), 3);
    assert_eq!(info.binary_sizes(), &vec![100, 0, 250]);
    assert!(BuiltProgramInfo::new(2, vec![100, 0, 250]).is_none());
}

use easy_async_opencl3::opencl_version::OpenCLVersion;

#[test]
fn parses_plain_versions() {
    assert_eq!(OpenCLVersion::parse("OpenCL 1.0"), Some(OpenCLVersion::V1_0));
    assert_eq!(OpenCLVersion::parse("OpenCL 1.1"), Some(OpenCLVersion::V1_1));
    assert_eq!(OpenCLVersion::parse("OpenCL 1.2"), Some(OpenCLVersion::V1_2));
    assert_eq!(OpenCLVersion::parse("OpenCL 2.0"), Some(OpenCLVersion::V2_0));
    assert_eq!(OpenCLVersion::parse("OpenCL 2.1"), Some(OpenCLVersion::V2_1));
    assert_eq!(OpenCLVersion::parse("OpenCL 2.2"), Some(OpenCLVersion::V2_2));
    assert_eq!(OpenCLVersion::parse("OpenCL 3.0"), Some(OpenCLVersion::V3_0));
}

#[test]
fn parses_vendor_suffix() {
    assert_eq!(
        OpenCLVersion::parse("OpenCL 2.0 CUDA 12.2.148"),
        Some(OpenCLVersion::V2_0)
    );
}

#[test]
fn saturates_beyond_newest() {
    assert_eq!(OpenCLVersion::parse("OpenCL 4.0"), Some(OpenCLVersion::V3_0));
    assert_eq!(OpenCLVersion::parse("OpenCL 3.1"), Some(OpenCLVersion::V3_0));
}

#[test]
fn rejects_unknown_pairs() {
    assert_eq!(OpenCLVersion::parse("OpenCL 1.3"), None);
    assert_eq!(OpenCLVersion::parse("OpenCL 0.9"), None);
}

#[test]
fn rejects_missing_prefix() {
    assert_eq!(OpenCLVersion::parse("Vulkan 1.2"), None);
    assert_eq!(OpenCLVersion::parse(""), None);
    assert_eq!(OpenCLVersion::parse("OpenCL"), None);
}

#[test]
fn rejects_empty_token() {
    assert_eq!(OpenCLVersion::parse("OpenCL "), None);
    assert_eq!(OpenCLVersion::parse("OpenCL    "), None);
}

#[test]
fn minor_defaults_to_zero() {
    assert_eq!(OpenCLVersion::parse("OpenCL 2"), Some(OpenCLVersion::V2_0));
    assert_eq!(OpenCLVersion::parse("OpenCL 3 extra"), Some(OpenCLVersion::V3_0));
}

#[test]
fn extra_dot_components_are_ignored() {
    assert_eq!(OpenCLVersion::parse("OpenCL 2.0.1"), Some(OpenCLVersion::V2_0));
}

#[test]
fn rejects_non_numeric_and_overflowing_parts() {
    assert_eq!(OpenCLVersion::parse("OpenCL x.y"), None);
    assert_eq!(OpenCLVersion::parse("OpenCL 2."), None);
    assert_eq!(OpenCLVersion::parse("OpenCL 99999999999"), None);
}

#[test]
fn skips_extra_spaces_before_token() {
    assert_eq!(OpenCLVersion::parse("OpenCL  2.0"), Some(OpenCLVersion::V2_0));
}

#[test]
fn versions_order_by_rank() {
    assert!(OpenCLVersion::V1_0 < OpenCLVersion::V1_1);
    assert!(OpenCLVersion::V1_2 < OpenCLVersion::V2_0);
    assert!(OpenCLVersion::V2_2 < OpenCLVersion::V3_0);
    assert!(OpenCLVersion::V2_0 >= OpenCLVersion::V2_0);
    assert_eq!(OpenCLVersion::V2_1.rank(), 4);
}

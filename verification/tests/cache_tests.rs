use easy_async_opencl3::program_cache::{
    binary_file_name, dec_string, file_stem, select_program_source, underscore_name, ProgramSource,
};

#[test]
fn artifact_name_underscores_device_and_appends_index() {
    let name = binary_file_name("add", "Intel Iris Pro", 0);
    assert_eq!(name, String::from("add_Intel_Iris_Pro_0.bin"));
}

#[test]
fn artifact_name_with_multi_digit_index() {
    let name = binary_file_name("fft", "GPU", 42);
    assert_eq!(name, String::from("fft_GPU_42.bin"));
}

#[test]
fn decimal_rendering() {
    assert_eq!(dec_string(0), String::from("0"));
    assert_eq!(dec_string(7), String::from("7"));
    assert_eq!(dec_string(10), String::from("10"));
    assert_eq!(dec_string(12345), String::from("12345"));
    assert_eq!(dec_string(u64::MAX), String::from("18446744073709551615"));
}

#[test]
fn underscoring_replaces_every_space() {
    assert_eq!(underscore_name("a b  c"), String::from("a_b__c"));
    assert_eq!(underscore_name("nospace"), String::from("nospace"));
    assert_eq!(underscore_name(""), String::from(""));
}

#[test]
fn stem_of_simple_paths() {
    assert_eq!(file_stem("kernels/add.cl"), Some(String::from("add")));
    assert_eq!(file_stem("add.cl"), Some(String::from("add")));
    assert_eq!(file_stem("add"), Some(String::from("add")));
}

#[test]
fn stem_keeps_all_but_last_extension() {
    assert_eq!(file_stem("/x/y/archive.tar.gz"), Some(String::from("archive.tar")));
}

#[test]
fn stem_keeps_leading_dot_names() {
    assert_eq!(file_stem(".bashrc"), Some(String::from(".bashrc")));
}

#[test]
fn stem_of_degenerate_paths_is_none() {
    assert_eq!(file_stem("dir/"), None);
    assert_eq!(file_stem(""), None);
    assert_eq!(file_stem("."), None);
    assert_eq!(file_stem(".."), None);
}

#[test]
fn full_set_of_binaries_takes_binary_path() {
    let reads = vec![Some(vec![1u8, 2]), Some(vec![3u8])];
    match select_program_source(reads) {
        ProgramSource::FromBinaries(b) => {
            assert_eq!(b, vec![vec![1u8, 2], vec![3u8]]);
        }
        ProgramSource::FromSource => panic!("expected the binary path"),
    }
}

#[test]
fn one_missing_binary_falls_back_to_source() {
    let reads = vec![Some(vec![1u8, 2]), None, Some(vec![3u8])];
    assert_eq!(select_program_source(reads), ProgramSource::FromSource);
}

#[test]
fn no_devices_means_trivially_complete_binaries() {
    match select_program_source(Vec::new()) {
        ProgramSource::FromBinaries(b) => assert!(b.is_empty()),
        ProgramSource::FromSource => panic!("expected the binary path"),
    }
}

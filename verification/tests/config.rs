use cpp_build::Config;
use std::path::PathBuf;

fn config() -> Config {
    Config::new(PathBuf::from("/crate"))
}

fn shown(config: &Config) -> String {
    format!("{:?}", config.cc())
}

#[test]
fn a_new_configuration() {
    let text = shown(&config());
    assert!(text.contains("cpp: true"));
    assert!(text.contains("include_directories: [\"/crate\"]"));
    assert!(text.contains(" flags: []"));
    assert!(text.contains(" files: []"));
    assert!(text.contains("cpp_link_stdlib: None"));
    assert!(text.contains("cpp_set_stdlib: None"));
    assert!(text.contains("host: None"));
    assert!(text.contains("opt_level: None"));
    assert!(text.contains("debug: None"));
    assert!(text.contains("compiler: None"));
    assert!(text.contains("archiver: None"));
    assert!(text.contains("metadata: true"));
    assert!(text.contains("pic: None"));
}

#[test]
fn a_preconfigured_driver() {
    let mut driver = cc::Build::new();
    driver.cpp(false).flag("-Wall").opt_level(2);
    driver.file("mine.cpp");
    let config = Config::from(driver, PathBuf::from("/crate"));
    let text = shown(&config);
    assert!(text.contains("cpp: true"));
    assert!(text.contains("include_directories: [\"/crate\"]"));
    assert!(text.contains("flags: [Always(\"-Wall\")]"));
    assert!(text.contains("opt_level: Some(\"2\")"));
    assert!(text.contains("files: [\"mine.cpp\"]"));
}

#[test]
fn every_setting_reaches_the_driver() {
    let mut config = config();
    config
        .include_dir(PathBuf::from("inc"))
        .define("A", None)
        .define("B", Some("1"))
        .object(PathBuf::from("x.o"))
        .flag("-g")
        .flag_if_supported("-fast")
        .file(PathBuf::from("y.cpp"))
        .cpp_link_stdlib(Some("c++"))
        .host("some-host")
        .opt_level(3)
        .debug(true)
        .compiler(PathBuf::from("my-cc"))
        .archiver(PathBuf::from("my-ar"))
        .cargo_metadata(false)
        .pic(false);
    let text = shown(&config);
    assert!(text.contains("include_directories: [\"/crate\", \"inc\"]"));
    assert!(text.contains("definitions: [(\"A\", None), (\"B\", Some(\"1\"))]"));
    assert!(text.contains("objects: [\"x.o\"]"));
    assert!(text.contains("flags: [Always(\"-g\"), IfSupported(\"-fast\")]"));
    assert!(text.contains("files: [\"y.cpp\"]"));
    assert!(text.contains("cpp_link_stdlib: Some(Some(\"c++\"))"));
    assert!(text.contains("cpp_set_stdlib: None"));
    assert!(text.contains("host: Some(\"some-host\")"));
    assert!(text.contains("opt_level: Some(\"3\")"));
    assert!(text.contains("debug: Some(\"true\")"));
    assert!(text.contains("compiler: Some(\"my-cc\")"));
    assert!(text.contains("archiver: Some(\"my-ar\")"));
    assert!(text.contains("metadata: false"));
    assert!(text.contains("pic: Some(false)"));
}

#[test]
fn a_forced_standard_library_is_linked() {
    let mut config = config();
    config.cpp_link_stdlib(Some("stdc++")).cpp_set_stdlib(Some("c++"));
    let text = shown(&config);
    assert!(text.contains("cpp_link_stdlib: Some(Some(\"c++\"))"));
    assert!(text.contains("cpp_set_stdlib: Some(\"c++\")"));
    config.cpp_set_stdlib(None);
    let text = shown(&config);
    assert!(text.contains("cpp_link_stdlib: Some(None)"));
    assert!(text.contains("cpp_set_stdlib: None"));
}

#[test]
fn optimization_levels_by_number_and_by_name() {
    let mut config = config();
    config.opt_level(17);
    assert!(shown(&config).contains("opt_level: Some(\"17\")"));
    config.opt_level_str("s");
    assert!(shown(&config).contains("opt_level: Some(\"s\")"));
    config.opt_level(u32::MAX);
    assert!(shown(&config).contains("opt_level: Some(\"4294967295\")"));
    config.debug(false);
    assert!(shown(&config).contains("debug: Some(\"false\")"));
}

#[test]
fn cpp11_is_the_default_standard() {
    let mut config = config();
    config.flag("-Wall").add_generated_source(PathBuf::from("gen.cpp"));
    let text = shown(&config);
    assert!(text.contains("flags: [Always(\"-Wall\"), IfSupported(\"-std=c++11\")]"));
    assert!(text.contains("files: [\"gen.cpp\"]"));
}

#[test]
fn a_chosen_standard_is_kept() {
    let mut always = config();
    always.flag("-std=c++17").add_generated_source(PathBuf::from("gen.cpp"));
    assert!(shown(&always).contains("flags: [Always(\"-std=c++17\")]"));
    let mut supported = config();
    supported.flag_if_supported("-std=c++20").flag("-O3");
    supported.add_generated_source(PathBuf::from("gen.cpp"));
    assert!(shown(&supported)
        .contains("flags: [IfSupported(\"-std=c++20\"), Always(\"-O3\")]"));
}

#[test]
fn only_flags_that_start_so_choose_a_standard() {
    for flag in ["-std", "-std:c++17", "x-std=c++17", "-stdlib=libc++", "", "-st\u{e9}=c++17"] {
        let mut config = config();
        config.flag(flag).flag_if_supported(flag);
        config.add_generated_source(PathBuf::from("gen.cpp"));
        assert!(shown(&config).contains("IfSupported(\"-std=c++11\")]"));
    }
    let mut config = config();
    config.flag("-std=").add_generated_source(PathBuf::from("gen.cpp"));
    assert!(!shown(&config).contains("c++11"));
}

#[test]
fn a_standard_of_a_preconfigured_driver_is_not_seen() {
    let mut driver = cc::Build::new();
    driver.flag("-std=c++14");
    let mut config = Config::from(driver, PathBuf::from("/crate"));
    config.add_generated_source(PathBuf::from("gen.cpp"));
    assert!(shown(&config)
        .contains("flags: [Always(\"-std=c++14\"), IfSupported(\"-std=c++11\")]"));
}

#[test]
fn other_settings_of_a_preconfigured_driver_are_kept() {
    let mut driver = cc::Build::new();
    driver
        .target("some-target")
        .out_dir("/out")
        .warnings(false)
        .env("NAME", "value")
        .static_crt(true)
        .ar_flag("-x")
        .std("c++14")
        .cargo_debug(true)
        .ccbin(false);
    let mut config = Config::from(driver, PathBuf::from("/crate"));
    config.flag("-g").opt_level(1).pic(true).add_generated_source(PathBuf::from("gen.cpp"));
    let text = shown(&config);
    assert!(text.contains(" target: Some(\"some-target\")"));
    assert!(text.contains("out_dir: Some(\"/out\")"));
    assert!(text.contains(" warnings: Some(false), extra_warnings: Some(false)"));
    assert!(text.contains("(\"NAME\", \"value\")"));
    assert!(text.contains("static_crt: Some(true)"));
    assert!(text.contains("ar_flags: [\"-x\"]"));
    assert!(text.contains(" std: Some(\"c++14\")"));
    assert!(text.contains("debug: true"));
    assert!(text.contains("ccbin: false"));
}

#[test]
fn other_settings_of_a_new_configuration() {
    let text = shown(&config());
    assert!(text.contains("ar_flags: [], asm_flags: [], no_default_flags: false"));
    assert!(text.contains("source_root: None, source_path_remaps: []"));
    assert!(text.contains("cpp_link_stdlib_static: false"));
    assert!(text.contains("cuda: false, cudart: None, ccbin: true, std: None, target: None"));
    assert!(text.contains("out_dir: None"));
    assert!(text.contains("force_frame_pointer: None"));
    assert!(text.contains("explicit: []"));
    assert!(text.contains("ranlib: None"));
    assert!(text.contains("warnings: true"));
    assert!(text.contains("output: Forward, logger: None"));
    assert!(text.contains("link_lib_modifiers: []"));
    assert!(text.contains("use_plt: None, static_crt: None, shared_flag: None, static_flag: None"));
    assert!(text.contains("warnings_into_errors: false, warnings: None, extra_warnings: None"));
    assert!(text.contains("emit_rerun_if_env_changed: true, shell_escaped_flags: None"));
    assert!(text.contains("inherit_rustflags: true, inherit_trim_paths: true"));
    assert!(text.contains("reproducible_codeview: false, prefer_clang_cl_over_msvc: false"));
}

use verilated::verilator::{
    lib_name, make_args, parse_u32, parse_verilator_version, to_ascii_lower, version_from_groups, ResolvedFile,
    Standard, Verilator, VERSION_PATTERN,
};

fn resolved(path: &str, ext: Option<&str>) -> ResolvedFile {
    ResolvedFile { path: path.to_string(), extension: ext.map(|e| e.to_string()) }
}

#[test]
fn compiler_arguments() {
    let mut v = Verilator::new();
    v.with_coverage(true)
        .with_trace(true)
        .no_warn("UNUSED")
        .warn_width(false)
        .warn_width(true)
        .module("rtl/lib")
        .file_with_standard("rtl/counter.v", Standard::Verilog2001)
        .file("out/top.cpp");
    let res = vec![resolved("/abs/rtl/counter.v", Some("v")), resolved("/abs/out/top.cpp", Some("cpp"))];
    let args = v.command_args("top", "/out", &res);
    assert_eq!(
        args,
        vec![
            "--cc", "-Mdir", "/out", "--top-module", "top", "--lib-create", "_top", "--coverage", "--trace",
            "-Wno-unused", "-Wno-width", "-y", "rtl/lib", "+1364-2001ext+v", "/abs/rtl/counter.v",
            "/abs/out/top.cpp",
        ]
    );
}

#[test]
fn optimized_without_extension() {
    let mut v = Verilator::new();
    v.with_performance_optimizations(true)
        .files(&vec!["a.sv".to_string(), "b.sv".to_string()])
        .file_with_standard("Makefile", Standard::SystemVerilog2012);
    let res = vec![resolved("/a.sv", Some("sv")), resolved("/b.sv", Some("sv")), resolved("/Makefile", None)];
    let args = v.command_args("t", "d", &res);
    assert_eq!(
        args,
        vec!["--cc", "-Mdir", "d", "--top-module", "t", "--lib-create", "_t", "-O3", "/a.sv", "/b.sv", "/Makefile"]
    );
    assert_eq!(v.source_files().len(), 3);
}

#[test]
fn builder_paths() {
    let mut v = Verilator::new();
    assert!(v.configured_out_dir().is_none());
    v.out_dir("build").root("/opt/verilator");
    assert_eq!(v.configured_out_dir().unwrap(), "build");
    assert_eq!(v.configured_root().unwrap(), "/opt/verilator");
}

#[test]
fn make_and_library_names() {
    assert_eq!(make_args("top"), vec!["-f", "Vtop.mk"]);
    assert_eq!(lib_name("top"), "_top");
}

#[test]
fn version_banner() {
    assert_eq!(parse_verilator_version("Verilator 4.106 2020-12-02 rev v4.106\n"), Some((4, 106)));
    assert_eq!(parse_verilator_version("Verilator 5.020"), Some((5, 20)));
    assert_eq!(parse_verilator_version("verilator 4.106"), None);
    assert_eq!(parse_verilator_version("Verilator 10.1"), None);
    assert_eq!(parse_verilator_version(""), None);
}

#[test]
fn version_groups_parse() {
    assert_eq!(version_from_groups("4", "106"), Some((4, 106)));
    assert_eq!(version_from_groups("+4", "007"), Some((4, 7)));
    assert_eq!(version_from_groups("x", "106"), None);
    assert_eq!(version_from_groups("4", "99999999999"), None);
}

#[test]
fn decimal_parsing_matches_std() {
    for t in ["0", "7", "+12", "4294967295", "4294967296", "", "+", "-1", "1a", " 1", "007", "99999999999"] {
        assert_eq!(parse_u32(t), t.parse::<u32>().ok(), "{}", t);
    }
}

#[test]
fn ascii_lowercasing() {
    assert_eq!(to_ascii_lower("UNUSED-Width_Z9"), "unused-width_z9");
    assert_eq!(to_ascii_lower("ÄBC"), "Äbc");
    assert_eq!(VERSION_PATTERN, "^Verilator (\\d{1}).(\\d{3})");
}

use verilated::generator::{Artifact, ModuleGenerator, StructDecl};
use verilated::ports::{AttrMeta, ConfigError, ElemType, FieldDecl, FieldType, LenExpr, MetaItem};

fn port_attr(role: &str) -> AttrMeta {
    AttrMeta::List("port".to_string(), vec![MetaItem::Word(role.to_string())])
}

fn field(name: &str, ty: FieldType, role: &str) -> FieldDecl {
    FieldDecl { name: name.to_string(), public: true, ty, attrs: vec![port_attr(role)] }
}

fn bool_ty() -> FieldType {
    FieldType::Path("bool".to_string())
}

fn arr(n: u128) -> FieldType {
    FieldType::Array(ElemType::Path("bool".to_string()), LenExpr::Int(n))
}

fn module_struct(name: &str, module: Option<&str>, fields: Vec<FieldDecl>) -> StructDecl {
    let attr = match module {
        Some(m) => AttrMeta::List("module".to_string(), vec![MetaItem::Word(m.to_string())]),
        None => AttrMeta::Word("module".to_string()),
    };
    StructDecl {
        name: name.to_string(),
        public: true,
        has_generics: false,
        attrs: vec![attr],
        named: true,
        fields,
    }
}

fn counter(native: Option<&str>) -> StructDecl {
    module_struct(
        "Top",
        native,
        vec![
            field("clk_i", bool_ty(), "clock"),
            field("rst_i", bool_ty(), "reset"),
            field("count_o", arr(4), "output"),
        ],
    )
}

fn find<'a>(files: &'a [Artifact], name: &str) -> &'a str {
    &files.iter().find(|a| a.file_name == name).unwrap().contents
}

#[test]
fn counter_module_accessors() {
    let gen = ModuleGenerator::new();
    let files = gen.generate(&vec![counter(Some("Top"))]).unwrap();
    assert_eq!(files.len(), 2);
    assert_eq!(files[0].file_name, "Top.rs");
    assert_eq!(files[1].file_name, "Top.cpp");
    let host = find(&files, "Top.rs");
    let native = find(&files, "Top.cpp");
    assert!(host.contains("        pub fn Top_get_count_o(Top: *mut Top) -> ::std::os::raw::c_uchar;\n"));
    assert!(host.contains("    pub fn count_o(&self) -> u8 {\n        unsafe { ffi::Top_get_count_o(self.0) }\n"));
    assert!(host.contains("        pub fn Top_clk_i_toggle(Top: *mut Top);\n"));
    assert!(host.contains("        pub fn Top_rst_i_toggle(Top: *mut Top);\n"));
    assert!(host.contains("pub struct Top(*mut ffi::Top, Option<(*mut ffi::VcdC, ::verilated::trace::Vcd)>);"));
    assert!(host.contains("let mut vcd = ::verilated::trace::Vcd::new();"));
    assert!(host.contains("        pub fn Top_vcd_open(vcd: *mut VcdC, path: *const ::std::os::raw::c_char) -> bool;\n"));
    assert!(native.contains("  bool\n  Top_vcd_open(VerilatedVcdC* __tfp, const char* __path) {\n"));
    assert!(native.contains("Verilated::traceEverOn(true);"));
    assert!(!host.contains("verilated::vcd"));
    assert!(native.contains("  vluint8_t\n  Top_get_count_o(VTop* __ptr) {\n    return __ptr->count_o;\n  }\n"));
    assert!(native.contains("    ptr->clk_i = 0;\n    ptr->rst_i = 0;\n    return ptr;\n"));
    assert!(native.contains("  void\n  Top_clk_i_toggle(VTop* __ptr) {\n    __ptr->clk_i = !__ptr->clk_i;\n  }\n"));
    assert!(native.starts_with("#include <VTop.h>\n"));
    assert!(native.ends_with("}\n"));
    assert!(host.ends_with("}\n"));
}

#[test]
fn generation_is_deterministic() {
    let input = vec![counter(Some("top")), counter(None)];
    let gen = ModuleGenerator::new();
    let a = gen.generate(&input).unwrap();
    let b = gen.generate(&input).unwrap();
    assert_eq!(a, b);
    assert_eq!(a.len(), 4);
}

#[test]
fn module_name_defaults_to_lowercased_struct_name() {
    let files = ModuleGenerator::new().generate(&vec![counter(None)]).unwrap();
    assert_eq!(files[0].file_name, "Top.rs");
    assert_eq!(files[1].file_name, "top.cpp");
    assert!(files[1].contents.starts_with("#include <Vtop.h>\n"));
    assert!(files[0].contents.contains("pub struct Top(*mut ffi::top, "));
}

#[test]
fn emission_order_of_ports() {
    let s = module_struct(
        "Alu",
        Some("alu"),
        vec![
            field("b", arr(16), "input"),
            field("y", arr(17), "output"),
            field("a", arr(9), "input"),
            field("bus", arr(64), "inout"),
            field("x", bool_ty(), "output"),
        ],
    );
    let files = ModuleGenerator::new().generate(&vec![s]).unwrap();
    let host = &files[0].contents;
    let native = &files[1].contents;
    let pos = |t: &str, p: &str| t.find(p).unwrap();
    assert!(pos(host, "alu_set_b(") < pos(host, "alu_set_a("));
    assert!(pos(host, "alu_set_a(") < pos(host, "alu_get_y("));
    assert!(pos(host, "alu_get_y(") < pos(host, "alu_get_x("));
    assert!(pos(host, "alu_get_x(") < pos(host, "alu_set_bus("));
    assert!(pos(host, "alu_set_bus(") < pos(host, "alu_get_bus("));
    assert!(pos(native, "alu_set_b(") < pos(native, "alu_set_a("));
    assert!(pos(native, "alu_get_y(") < pos(native, "alu_get_x("));
    assert!(host.contains("pub fn set_b(&mut self, v: u16)"));
    assert!(host.contains("pub fn y(&self) -> u32"));
    assert!(host.contains("pub fn bus(&self) -> u64"));
    assert!(native.contains("alu_set_bus(Valu* __ptr, vluint64_t __v)"));
    assert!(host.contains("alu_set_bus(alu: *mut alu, v: ::std::os::raw::c_ulong);"));
}

#[test]
fn missing_clock_and_reset_reported() {
    let s = module_struct("Comb", Some("comb"), vec![field("a", bool_ty(), "input")]);
    let files = ModuleGenerator::new().generate(&vec![s]).unwrap();
    let host = &files[0].contents;
    assert!(host.contains("Err(::verilated::MissingPortError::Clock)"));
    assert!(host.contains("Err(::verilated::MissingPortError::Reset)"));
    assert!(!host.contains("_toggle(comb: *mut comb)"));
    assert!(!files[1].contents.contains("_toggle("));
}

#[test]
fn errors_abort_whole_pass() {
    let good = counter(Some("top"));
    let bad = module_struct(
        "Bad",
        Some("bad"),
        vec![field("c1", bool_ty(), "clock"), field("c2", bool_ty(), "clock")],
    );
    let r = ModuleGenerator::new().generate(&vec![good, bad]);
    assert_eq!(r, Err(ConfigError::DuplicateRole(verilated::ports::PortRole::Clock)));
}

#[test]
fn non_module_and_private_structs_skipped() {
    let mut private = counter(Some("top"));
    private.public = false;
    let mut plain = counter(Some("top"));
    plain.attrs = vec![AttrMeta::Word("derive".to_string())];
    let r = ModuleGenerator::new().generate(&vec![private, plain]).unwrap();
    assert!(r.is_empty());
}

#[test]
fn generic_and_tuple_structs_rejected() {
    let mut g = counter(Some("top"));
    g.has_generics = true;
    assert_eq!(ModuleGenerator::new().generate(&vec![g]), Err(ConfigError::GenericStruct("Top".to_string())));
    let mut t = counter(Some("top"));
    t.named = false;
    assert_eq!(ModuleGenerator::new().generate(&vec![t]), Err(ConfigError::TupleStruct("Top".to_string())));
}

#[test]
fn generator_configuration() {
    let mut g = ModuleGenerator::new();
    assert!(g.configured_out_dir().is_none());
    g.out_dir("gen/out").target("x86_64-unknown-linux-gnu");
    assert_eq!(g.configured_out_dir().unwrap(), "gen/out");
}

use verilated::ports::{
    extract_ports, find_port_attr, AttrMeta, ConfigError, ElemType, FieldDecl, FieldType, LenExpr,
    MetaItem, PortRole,
};
use verilated::width::WidthClass;

fn port_attr(role: &str) -> AttrMeta {
    AttrMeta::List("port".to_string(), vec![MetaItem::Word(role.to_string())])
}

fn bool_field(name: &str, public: bool, attrs: Vec<AttrMeta>) -> FieldDecl {
    FieldDecl { name: name.to_string(), public, ty: FieldType::Path("bool".to_string()), attrs }
}

fn array_field(name: &str, len: u128, role: &str) -> FieldDecl {
    FieldDecl {
        name: name.to_string(),
        public: true,
        ty: FieldType::Array(ElemType::Path("bool".to_string()), LenExpr::Int(len)),
        attrs: vec![port_attr(role)],
    }
}

#[test]
fn counter_module_ports() {
    let fields = vec![
        bool_field("clk_i", true, vec![port_attr("clock")]),
        bool_field("rst_i", true, vec![port_attr("reset")]),
        array_field("count_o", 4, "output"),
    ];
    let ps = extract_ports(&fields).unwrap();
    assert_eq!(ps.clock.as_ref().unwrap().name, "clk_i");
    assert_eq!(ps.clock.as_ref().unwrap().width, 1);
    assert_eq!(ps.reset.as_ref().unwrap().name, "rst_i");
    assert!(ps.inputs.is_empty());
    assert!(ps.inouts.is_empty());
    assert_eq!(ps.outputs.len(), 1);
    assert_eq!(ps.outputs[0].name, "count_o");
    assert_eq!(ps.outputs[0].width, 4);
    assert_eq!(ps.outputs[0].class, WidthClass::U8);
}

#[test]
fn two_clocks_rejected_in_any_order() {
    let a = vec![
        bool_field("clk_a", true, vec![port_attr("clock")]),
        array_field("data", 8, "input"),
        bool_field("clk_b", true, vec![port_attr("clock")]),
    ];
    assert_eq!(extract_ports(&a), Err(ConfigError::DuplicateRole(PortRole::Clock)));
    let b = vec![
        bool_field("clk_b", true, vec![port_attr("clock")]),
        bool_field("clk_a", true, vec![port_attr("clock")]),
        array_field("data", 8, "input"),
    ];
    assert_eq!(extract_ports(&b), Err(ConfigError::DuplicateRole(PortRole::Clock)));
}

#[test]
fn two_resets_rejected() {
    let f = vec![
        bool_field("r1", true, vec![port_attr("reset")]),
        bool_field("r2", true, vec![port_attr("reset")]),
    ];
    assert_eq!(extract_ports(&f), Err(ConfigError::DuplicateRole(PortRole::Reset)));
}

#[test]
fn private_and_untagged_fields_ignored() {
    let fields = vec![
        bool_field("hidden", false, vec![port_attr("input")]),
        FieldDecl {
            name: "scratch".to_string(),
            public: false,
            ty: FieldType::Path("u32".to_string()),
            attrs: vec![],
        },
        bool_field("plain", true, vec![AttrMeta::Word("allow".to_string())]),
        bool_field("a", true, vec![port_attr("input")]),
    ];
    let ps = extract_ports(&fields).unwrap();
    assert_eq!(ps.inputs.len(), 1);
    assert_eq!(ps.inputs[0].name, "a");
    assert!(ps.clock.is_none());
    assert!(ps.reset.is_none());
}

#[test]
fn declaration_order_kept_per_role() {
    let fields = vec![
        array_field("o2", 16, "output"),
        array_field("i1", 3, "input"),
        bool_field("skip", false, vec![port_attr("output")]),
        array_field("o1", 33, "output"),
        array_field("io1", 20, "inout"),
        array_field("i0", 9, "input"),
        array_field("o3", 1, "output"),
    ];
    let ps = extract_ports(&fields).unwrap();
    let names = |v: &Vec<verilated::ports::Port>| v.iter().map(|p| p.name.clone()).collect::<Vec<_>>();
    assert_eq!(names(&ps.outputs), vec!["o2", "o1", "o3"]);
    assert_eq!(names(&ps.inputs), vec!["i1", "i0"]);
    assert_eq!(names(&ps.inouts), vec!["io1"]);
    assert_eq!(ps.outputs[1].class, WidthClass::U64);
    assert_eq!(ps.inouts[0].class, WidthClass::U32);
    assert_eq!(ps.inputs[1].class, WidthClass::U16);
}

#[test]
fn unsupported_types_rejected() {
    let f = vec![FieldDecl {
        name: "n".to_string(),
        public: true,
        ty: FieldType::Path("u8".to_string()),
        attrs: vec![port_attr("input")],
    }];
    assert_eq!(extract_ports(&f), Err(ConfigError::UnsupportedType("n".to_string())));
    let g = vec![FieldDecl {
        name: "m".to_string(),
        public: true,
        ty: FieldType::Array(ElemType::Path("u8".to_string()), LenExpr::Int(4)),
        attrs: vec![port_attr("output")],
    }];
    assert_eq!(extract_ports(&g), Err(ConfigError::UnsupportedType("m".to_string())));
    let h = vec![FieldDecl {
        name: "t".to_string(),
        public: true,
        ty: FieldType::Other,
        attrs: vec![port_attr("output")],
    }];
    assert_eq!(extract_ports(&h), Err(ConfigError::UnsupportedType("t".to_string())));
}

#[test]
fn width_errors() {
    assert_eq!(
        extract_ports(&vec![array_field("wide", 65, "output")]),
        Err(ConfigError::WidthOverflow("wide".to_string(), 65))
    );
    assert_eq!(
        extract_ports(&vec![array_field("empty", 0, "output")]),
        Err(ConfigError::ZeroWidth("empty".to_string()))
    );
    let f = vec![FieldDecl {
        name: "k".to_string(),
        public: true,
        ty: FieldType::Array(ElemType::Path("bool".to_string()), LenExpr::NotLiteral),
        attrs: vec![port_attr("input")],
    }];
    assert_eq!(extract_ports(&f), Err(ConfigError::InvalidWidthExpression("k".to_string())));
    assert!(extract_ports(&vec![array_field("full", 64, "output")]).is_ok());
    assert_eq!(
        extract_ports(&vec![array_field("huge", 1u128 << 70, "output")]),
        Err(ConfigError::WidthOverflow("huge".to_string(), 1u128 << 70))
    );
}

#[test]
fn malformed_port_attributes() {
    let none = vec![bool_field("a", true, vec![AttrMeta::List("port".to_string(), vec![])])];
    assert_eq!(extract_ports(&none), Err(ConfigError::MissingRoleArgument("a".to_string())));
    let two = vec![bool_field(
        "b",
        true,
        vec![AttrMeta::List(
            "port".to_string(),
            vec![MetaItem::Word("input".to_string()), MetaItem::Word("output".to_string())],
        )],
    )];
    assert_eq!(extract_ports(&two), Err(ConfigError::MissingRoleArgument("b".to_string())));
    let unknown = vec![bool_field("c", true, vec![port_attr("sideways")])];
    assert_eq!(extract_ports(&unknown), Err(ConfigError::MissingRoleArgument("c".to_string())));
    let bare = vec![bool_field("d", true, vec![AttrMeta::Word("port".to_string())])];
    assert_eq!(extract_ports(&bare), Err(ConfigError::MissingRoleArgument("d".to_string())));
    let literal = vec![bool_field(
        "e",
        true,
        vec![AttrMeta::List("port".to_string(), vec![MetaItem::Other])],
    )];
    assert_eq!(extract_ports(&literal), Err(ConfigError::MissingRoleArgument("e".to_string())));
}

#[test]
fn last_port_attribute_wins() {
    let attrs = vec![port_attr("input"), AttrMeta::Other, port_attr("inout")];
    assert_eq!(find_port_attr(&attrs), Ok(Some(PortRole::InOut)));
    assert_eq!(find_port_attr(&vec![]), Ok(None));
    assert_eq!(find_port_attr(&vec![AttrMeta::Word("inline".to_string())]), Ok(None));
}

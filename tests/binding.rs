use verilated::binding::{convert, ExpandError, VerilatedAttr, VerilatedAttrs};
use verilated::doc::DocAttr;

#[test]
fn convert_with_defaults() {
    let attrs = VerilatedAttrs { attrs: vec![] };
    let doc = vec![DocAttr { is_doc: true, literals: vec!["\" The top.\"".to_string()] }];
    let m = convert(&"TopCore".to_string(), false, false, &attrs, &doc).unwrap();
    assert_eq!(m.rust_name, "TopCore");
    assert_eq!(m.verilog_name, "topcore");
    assert_eq!(m.comments, vec![" The top.".to_string()]);
    assert!(!m.eval_end_step);
    assert!(m.calls_eval_end_step());
    assert_eq!(m.binding_mod(), "vtopcore");
    assert_eq!(m.binding_file(), "/Vtopcore.rs");
    assert_eq!(m.ffi_struct(), "Vtopcore");
    assert_eq!(m.ffi_constructor(), "Vtopcore_Vtopcore");
}

#[test]
fn convert_with_options() {
    let attrs = VerilatedAttrs {
        attrs: vec![
            VerilatedAttr::EvalEndStep,
            VerilatedAttr::Module("counter".to_string()),
            VerilatedAttr::Module("other".to_string()),
        ],
    };
    let m = convert(&"Top".to_string(), false, false, &attrs, &vec![]).unwrap();
    assert_eq!(m.verilog_name, "counter");
    assert!(m.eval_end_step);
    assert!(!m.calls_eval_end_step());
}

#[test]
fn convert_rejections() {
    let attrs = VerilatedAttrs { attrs: vec![] };
    assert_eq!(convert(&"T".to_string(), true, true, &attrs, &vec![]), Err(ExpandError::Generics));
    assert_eq!(convert(&"T".to_string(), false, true, &attrs, &vec![]), Err(ExpandError::Fields));
    assert_eq!(
        ExpandError::Fields.message(),
        "structs with #[verilated] cannot have fields currently"
    );
}

#[test]
fn attribute_options() {
    assert_eq!(VerilatedAttr::from_parts(&"eval_end_step".to_string(), None), Some(VerilatedAttr::EvalEndStep));
    assert_eq!(
        VerilatedAttr::from_parts(&"module".to_string(), Some("top".to_string())),
        Some(VerilatedAttr::Module("top".to_string()))
    );
    assert_eq!(VerilatedAttr::from_parts(&"module".to_string(), None), None);
    assert_eq!(VerilatedAttr::from_parts(&"modul".to_string(), Some("x".to_string())), None);
}

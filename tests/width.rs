use verilated::width::{class_for_width, WidthClass};

#[test]
fn width_classes_concrete() {
    assert_eq!(class_for_width(1), Some(WidthClass::U8));
    assert_eq!(class_for_width(8), Some(WidthClass::U8));
    assert_eq!(class_for_width(9), Some(WidthClass::U16));
    assert_eq!(class_for_width(16), Some(WidthClass::U16));
    assert_eq!(class_for_width(17), Some(WidthClass::U32));
    assert_eq!(class_for_width(32), Some(WidthClass::U32));
    assert_eq!(class_for_width(33), Some(WidthClass::U64));
    assert_eq!(class_for_width(64), Some(WidthClass::U64));
    assert_eq!(class_for_width(65), None);
    assert_eq!(class_for_width(0), None);
}

#[test]
fn width_class_is_smallest_for_all_widths() {
    for w in 1..=64u64 {
        let c = class_for_width(w).unwrap();
        assert!(c.bits() as u64 >= w);
        for other in [WidthClass::U8, WidthClass::U16, WidthClass::U32, WidthClass::U64] {
            if other.bits() as u64 >= w {
                assert!(c.bits() <= other.bits());
            }
        }
    }
}

#[test]
fn width_class_type_names() {
    assert_eq!(WidthClass::U8.host_name(), "u8");
    assert_eq!(WidthClass::U64.host_name(), "u64");
    assert_eq!(WidthClass::U16.ffi_name(), "::std::os::raw::c_ushort");
    assert_eq!(WidthClass::U32.ffi_name(), "::std::os::raw::c_uint");
    assert_eq!(WidthClass::U8.native_name(), "vluint8_t");
    assert_eq!(WidthClass::U64.native_name(), "vluint64_t");
}

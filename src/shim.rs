//! Rendering of the two generated artifacts for one module: the Rust host
//! file (foreign declarations plus the owning wrapper) and the C++ shim.

use vstd::prelude::*;
use vstd::string::*;
use crate::ports::{Port, Ports, PortsModel};

verus! {

/// Error reported by a generated wrapper when a clock or reset method is
/// called on a module that has no such port.
#[derive(Clone, Copy, Debug, PartialEq, Eq, Structural)]
pub enum MissingPortError {
    Clock,
    Reset,
}

/// Start of one foreign declaration: `pub fn <c>_<a><b>(<c>: *mut <c>`.
pub open spec fn decl_head(c: Seq<char>, a: Seq<char>, b: Seq<char>) -> Seq<char> {
    "        pub fn "@ + c + "_"@ + a + b + "("@ + c + ": *mut "@ + c
}

fn push_decl_head(out: &mut String, c: &str, a: &str, b: &str)
    ensures
        final(out)@ == old(out)@ + decl_head(c@, a@, b@),
{
    out.append("        pub fn ");
    out.append(c);
    out.append("_");
    out.append(a);
    out.append(b);
    out.append("(");
    out.append(c);
    out.append(": *mut ");
    out.append(c);
    assert(out@ =~= old(out)@ + decl_head(c@, a@, b@));
}

/// Opening of the host file: the `ffi` module with the model-wide foreign functions.
pub open spec fn ffi_head(c: Seq<char>) -> Seq<char> {
    "use std::path::Path;\n\nmod ffi {\n    #[allow(non_camel_case_types)]\n    pub enum "@ + c
        + " {}\n\n    pub enum VcdC {}\n\n    extern {\n        pub fn "@ + c + "_new() -> *mut "@
        + c + ";\n"@ + decl_head(c, "delete"@, ""@) + ");\n"@ + decl_head(c, "eval"@, ""@) + ");\n"@
        + decl_head(c, "trace"@, ""@) + ", vcd: *mut VcdC, levels: ::std::os::raw::c_int);\n"@
        + decl_head(c, "final"@, ""@) + ");\n        pub fn "@ + c
        + "_vcd_new() -> *mut VcdC;\n        pub fn "@ + c
        + "_vcd_open(vcd: *mut VcdC, path: *const ::std::os::raw::c_char) -> bool;\n        pub fn "@
        + c + "_vcd_dump(vcd: *mut VcdC, time: u64);\n        pub fn "@ + c
        + "_vcd_close(vcd: *mut VcdC);\n"@
}

fn push_ffi_head(out: &mut String, c: &str)
    ensures
        final(out)@ == old(out)@ + ffi_head(c@),
{
    out.append("use std::path::Path;\n\nmod ffi {\n    #[allow(non_camel_case_types)]\n    pub enum ");
    out.append(c);
    out.append(" {}\n\n    pub enum VcdC {}\n\n    extern {\n        pub fn ");
    out.append(c);
    out.append("_new() -> *mut ");
    out.append(c);
    out.append(";\n");
    push_decl_head(out, c, "delete", "");
    out.append(");\n");
    push_decl_head(out, c, "eval", "");
    out.append(");\n");
    push_decl_head(out, c, "trace", "");
    out.append(", vcd: *mut VcdC, levels: ::std::os::raw::c_int);\n");
    push_decl_head(out, c, "final", "");
    out.append(");\n        pub fn ");
    out.append(c);
    out.append("_vcd_new() -> *mut VcdC;\n        pub fn ");
    out.append(c);
    out.append("_vcd_open(vcd: *mut VcdC, path: *const ::std::os::raw::c_char) -> bool;\n        pub fn ");
    out.append(c);
    out.append("_vcd_dump(vcd: *mut VcdC, time: u64);\n        pub fn ");
    out.append(c);
    out.append("_vcd_close(vcd: *mut VcdC);\n");
    assert(out@ =~= old(out)@ + ffi_head(c@));
}

/// Foreign declaration of the toggle function of a clock or reset port.
pub open spec fn toggle_decl(c: Seq<char>, n: Seq<char>) -> Seq<char> {
    decl_head(c, n, "_toggle"@) + ");\n"@
}

fn push_toggle_decl(out: &mut String, c: &str, n: &str)
    ensures
        final(out)@ == old(out)@ + toggle_decl(c@, n@),
{
    push_decl_head(out, c, n, "_toggle");
    out.append(");\n");
    assert(out@ =~= old(out)@ + toggle_decl(c@, n@));
}

/// Foreign declaration of the setter of a port.
pub open spec fn ffi_setter(c: Seq<char>, p: Port) -> Seq<char> {
    decl_head(c, "set_"@, p.name@) + ", v: "@ + p.class.spec_ffi_name() + ");\n"@
}

fn push_ffi_setter(out: &mut String, c: &str, p: &Port)
    ensures
        final(out)@ == old(out)@ + ffi_setter(c@, *p),
{
    push_decl_head(out, c, "set_", p.name.as_str());
    out.append(", v: ");
    out.append(p.class.ffi_name());
    out.append(");\n");
    assert(out@ =~= old(out)@ + ffi_setter(c@, *p));
}

/// Foreign declaration of the getter of a port.
pub open spec fn ffi_getter(c: Seq<char>, p: Port) -> Seq<char> {
    decl_head(c, "get_"@, p.name@) + ") -> "@ + p.class.spec_ffi_name() + ";\n"@
}

fn push_ffi_getter(out: &mut String, c: &str, p: &Port)
    ensures
        final(out)@ == old(out)@ + ffi_getter(c@, *p),
{
    push_decl_head(out, c, "get_", p.name.as_str());
    out.append(") -> ");
    out.append(p.class.ffi_name());
    out.append(";\n");
    assert(out@ =~= old(out)@ + ffi_getter(c@, *p));
}

/// Opening of the wrapper: the owning struct, its constructor and destructor.
pub open spec fn wrapper_head(c: Seq<char>, r: Seq<char>) -> Seq<char> {
    "pub struct "@ + r + "(*mut ffi::"@ + c
        + ", Option<(*mut ffi::VcdC, ::verilated::trace::Vcd)>);\n\nimpl Default for "@ + r
        + " {\n    fn default() -> Self {\n        let ptr = unsafe { ffi::"@ + c
        + "_new() };\n        assert!(!ptr.is_null());\n        "@ + r
        + "(ptr, None)\n    }\n}\n\nimpl Drop for "@ + r
        + " {\n    fn drop(&mut self) {\n        if let Some((sink, vcd)) = self.1.as_mut() {\n            if vcd.close() {\n                unsafe { ffi::"@
        + c + "_vcd_close(*sink); }\n            }\n        }\n        unsafe {\n            ffi::"@
        + c + "_delete(self.0);\n        }\n    }\n}\n\n#[allow(dead_code, non_snake_case)]\nimpl "@
        + r + " {\n"@
}

#[verifier::rlimit(40)]
fn push_wrapper_head(out: &mut String, c: &str, r: &str)
    ensures
        final(out)@ == old(out)@ + wrapper_head(c@, r@),
{
    out.append("pub struct ");
    out.append(r);
    out.append("(*mut ffi::");
    out.append(c);
    out.append(", Option<(*mut ffi::VcdC, ::verilated::trace::Vcd)>);\n\nimpl Default for ");
    out.append(r);
    out.append(" {\n    fn default() -> Self {\n        let ptr = unsafe { ffi::");
    out.append(c);
    out.append("_new() };\n        assert!(!ptr.is_null());\n        ");
    out.append(r);
    out.append("(ptr, None)\n    }\n}\n\nimpl Drop for ");
    out.append(r);
    out.append(" {\n    fn drop(&mut self) {\n        if let Some((sink, vcd)) = self.1.as_mut() {\n            if vcd.close() {\n                unsafe { ffi::");
    out.append(c);
    out.append("_vcd_close(*sink); }\n            }\n        }\n        unsafe {\n            ffi::");
    out.append(c);
    out.append("_delete(self.0);\n        }\n    }\n}\n\n#[allow(dead_code, non_snake_case)]\nimpl ");
    out.append(r);
    out.append(" {\n");
    assert(out@ =~= old(out)@ + wrapper_head(c@, r@));
}

/// Wrapper method setting a port.
pub open spec fn wrap_setter(c: Seq<char>, p: Port) -> Seq<char> {
    "    pub fn set_"@ + p.name@ + "(&mut self, v: "@ + p.class.spec_host_name()
        + ") {\n        unsafe { ffi::"@ + c + "_set_"@ + p.name@ + "(self.0, v); }\n    }\n\n"@
}

fn push_wrap_setter(out: &mut String, c: &str, p: &Port)
    ensures
        final(out)@ == old(out)@ + wrap_setter(c@, *p),
{
    out.append("    pub fn set_");
    out.append(p.name.as_str());
    out.append("(&mut self, v: ");
    out.append(p.class.host_name());
    out.append(") {\n        unsafe { ffi::");
    out.append(c);
    out.append("_set_");
    out.append(p.name.as_str());
    out.append("(self.0, v); }\n    }\n\n");
    assert(out@ =~= old(out)@ + wrap_setter(c@, *p));
}

/// Wrapper method reading a port.
pub open spec fn wrap_getter(c: Seq<char>, p: Port) -> Seq<char> {
    "    pub fn "@ + p.name@ + "(&self) -> "@ + p.class.spec_host_name()
        + " {\n        unsafe { ffi::"@ + c + "_get_"@ + p.name@ + "(self.0) }\n    }\n\n"@
}

fn push_wrap_getter(out: &mut String, c: &str, p: &Port)
    ensures
        final(out)@ == old(out)@ + wrap_getter(c@, *p),
{
    out.append("    pub fn ");
    out.append(p.name.as_str());
    out.append("(&self) -> ");
    out.append(p.class.host_name());
    out.append(" {\n        unsafe { ffi::");
    out.append(c);
    out.append("_get_");
    out.append(p.name.as_str());
    out.append("(self.0) }\n    }\n\n");
    assert(out@ =~= old(out)@ + wrap_getter(c@, *p));
}

/// Wrapper methods `eval` and `finish`.
pub open spec fn eval_finish(c: Seq<char>) -> Seq<char> {
    "\n    pub fn eval(&mut self) {\n        unsafe {\n            ffi::"@ + c
        + "_eval(self.0);\n        }\n    }\n\n    pub fn finish(&mut self) {\n        unsafe {\n            ffi::"@
        + c + "_final(self.0);\n        }\n    }\n\n"@
}

fn push_eval_finish(out: &mut String, c: &str)
    ensures
        final(out)@ == old(out)@ + eval_finish(c@),
{
    out.append("\n    pub fn eval(&mut self) {\n        unsafe {\n            ffi::");
    out.append(c);
    out.append("_eval(self.0);\n        }\n    }\n\n    pub fn finish(&mut self) {\n        unsafe {\n            ffi::");
    out.append(c);
    out.append("_final(self.0);\n        }\n    }\n\n");
    assert(out@ =~= old(out)@ + eval_finish(c@));
}

/// Wrapper methods `open_trace` and `trace_at`.
pub open spec fn trace_api(c: Seq<char>) -> Seq<char> {
    "    pub fn open_trace<P: AsRef<Path>>(&mut self, path: P, levels: i32) -> std::io::Result<()> {\n        if self.1.is_some() {\n            return Err(std::io::Error::new(std::io::ErrorKind::Other, \"trace already opened\"));\n        }\n        let path = ::std::ffi::CString::new(path.as_ref().to_string_lossy().into_owned())\n            .map_err(|e| std::io::Error::new(std::io::ErrorKind::InvalidInput, e))?;\n        let sink = unsafe { ffi::"@
        + c
        + "_vcd_new() };\n        assert!(!sink.is_null());\n        unsafe {\n            ffi::"@
        + c
        + "_trace(self.0, sink, levels);\n        }\n        let mut vcd = ::verilated::trace::Vcd::new();\n        let opened = unsafe { ffi::"@
        + c
        + "_vcd_open(sink, path.as_ptr()) };\n        if let Err(e) = vcd.open(opened) {\n            unsafe { ffi::"@
        + c
        + "_vcd_close(sink); }\n            return Err(std::io::Error::new(std::io::ErrorKind::Other, format!(\"{:?}\", e)));\n        }\n        self.1 = Some((sink, vcd));\n        Ok(())\n    }\n\n    pub fn trace_at(&mut self, nanos: ::std::time::Duration) {\n        if let Some((sink, vcd)) = self.1.as_mut() {\n            let timeui = nanos.as_secs() * 1_000_000_000 + u64::from(nanos.subsec_nanos());\n            if vcd.dump(timeui).is_ok() {\n                unsafe { ffi::"@
        + c + "_vcd_dump(*sink, timeui); }\n            }\n        }\n    }\n\n"@
}

fn push_trace_api(out: &mut String, c: &str)
    ensures
        final(out)@ == old(out)@ + trace_api(c@),
{
    out.append("    pub fn open_trace<P: AsRef<Path>>(&mut self, path: P, levels: i32) -> std::io::Result<()> {\n        if self.1.is_some() {\n            return Err(std::io::Error::new(std::io::ErrorKind::Other, \"trace already opened\"));\n        }\n        let path = ::std::ffi::CString::new(path.as_ref().to_string_lossy().into_owned())\n            .map_err(|e| std::io::Error::new(std::io::ErrorKind::InvalidInput, e))?;\n        let sink = unsafe { ffi::");
    out.append(c);
    out.append("_vcd_new() };\n        assert!(!sink.is_null());\n        unsafe {\n            ffi::");
    out.append(c);
    out.append("_trace(self.0, sink, levels);\n        }\n        let mut vcd = ::verilated::trace::Vcd::new();\n        let opened = unsafe { ffi::");
    out.append(c);
    out.append("_vcd_open(sink, path.as_ptr()) };\n        if let Err(e) = vcd.open(opened) {\n            unsafe { ffi::");
    out.append(c);
    out.append("_vcd_close(sink); }\n            return Err(std::io::Error::new(std::io::ErrorKind::Other, format!(\"{:?}\", e)));\n        }\n        self.1 = Some((sink, vcd));\n        Ok(())\n    }\n\n    pub fn trace_at(&mut self, nanos: ::std::time::Duration) {\n        if let Some((sink, vcd)) = self.1.as_mut() {\n            let timeui = nanos.as_secs() * 1_000_000_000 + u64::from(nanos.subsec_nanos());\n            if vcd.dump(timeui).is_ok() {\n                unsafe { ffi::");
    out.append(c);
    out.append("_vcd_dump(*sink, timeui); }\n            }\n        }\n    }\n\n");
    assert(out@ =~= old(out)@ + trace_api(c@));
}

/// Wrapper toggle method `m` for a port `n` that the module has.
pub open spec fn toggle_present(c: Seq<char>, m: Seq<char>, n: Seq<char>) -> Seq<char> {
    "    pub fn "@ + m
        + "(&mut self) -> Result<(), ::verilated::MissingPortError> {\n        unsafe {\n            ffi::"@
        + c + "_"@ + n + "_toggle(self.0);\n        }\n        Ok(())\n    }\n\n"@
}

fn push_toggle_present(out: &mut String, c: &str, m: &str, n: &str)
    ensures
        final(out)@ == old(out)@ + toggle_present(c@, m@, n@),
{
    out.append("    pub fn ");
    out.append(m);
    out.append("(&mut self) -> Result<(), ::verilated::MissingPortError> {\n        unsafe {\n            ffi::");
    out.append(c);
    out.append("_");
    out.append(n);
    out.append("_toggle(self.0);\n        }\n        Ok(())\n    }\n\n");
    assert(out@ =~= old(out)@ + toggle_present(c@, m@, n@));
}

/// Wrapper toggle method `m` for a role the module lacks: it reports the missing port `k`.
pub open spec fn toggle_missing(m: Seq<char>, k: Seq<char>) -> Seq<char> {
    "    pub fn "@ + m
        + "(&mut self) -> Result<(), ::verilated::MissingPortError> {\n        Err(::verilated::MissingPortError::"@
        + k + ")\n    }\n\n"@
}

fn push_toggle_missing(out: &mut String, m: &str, k: &str)
    ensures
        final(out)@ == old(out)@ + toggle_missing(m@, k@),
{
    out.append("    pub fn ");
    out.append(m);
    out.append("(&mut self) -> Result<(), ::verilated::MissingPortError> {\n        Err(::verilated::MissingPortError::");
    out.append(k);
    out.append(")\n    }\n\n");
    assert(out@ =~= old(out)@ + toggle_missing(m@, k@));
}

/// Start of one shim function: `<ret> <c>_<a><b>(V<c>* __ptr`.
pub open spec fn native_fn_head(c: Seq<char>, ret: Seq<char>, a: Seq<char>, b: Seq<char>) -> Seq<char> {
    "  "@ + ret + "\n  "@ + c + "_"@ + a + b + "(V"@ + c + "* __ptr"@
}

fn push_native_fn_head(out: &mut String, c: &str, ret: &str, a: &str, b: &str)
    ensures
        final(out)@ == old(out)@ + native_fn_head(c@, ret@, a@, b@),
{
    out.append("  ");
    out.append(ret);
    out.append("\n  ");
    out.append(c);
    out.append("_");
    out.append(a);
    out.append(b);
    out.append("(V");
    out.append(c);
    out.append("* __ptr");
    assert(out@ =~= old(out)@ + native_fn_head(c@, ret@, a@, b@));
}

/// Opening of the shim: the header include and the start of the constructor.
pub open spec fn native_head(c: Seq<char>) -> Seq<char> {
    "#include <V"@ + c
        + ".h>\n#include <verilated_vcd_c.h>\n\nextern \"C\" {\n  // CONSTRUCTORS\n  V"@ + c
        + "*\n  "@ + c + "_new() {\n    V"@ + c + "*ptr = new V"@ + c + "();\n"@
}

fn push_native_head(out: &mut String, c: &str)
    ensures
        final(out)@ == old(out)@ + native_head(c@),
{
    out.append("#include <V");
    out.append(c);
    out.append(".h>\n#include <verilated_vcd_c.h>\n\nextern \"C\" {\n  // CONSTRUCTORS\n  V");
    out.append(c);
    out.append("*\n  ");
    out.append(c);
    out.append("_new() {\n    V");
    out.append(c);
    out.append("*ptr = new V");
    out.append(c);
    out.append("();\n");
    assert(out@ =~= old(out)@ + native_head(c@));
}

/// Constructor line clearing a clock or reset port.
pub open spec fn port_init(n: Seq<char>) -> Seq<char> {
    "    ptr->"@ + n + " = 0;\n"@
}

fn push_port_init(out: &mut String, n: &str)
    ensures
        final(out)@ == old(out)@ + port_init(n@),
{
    out.append("    ptr->");
    out.append(n);
    out.append(" = 0;\n");
    assert(out@ =~= old(out)@ + port_init(n@));
}

/// End of the constructor and the model-wide shim functions.
pub open spec fn native_api(c: Seq<char>) -> Seq<char> {
    "    return ptr;\n  }\n\n"@ + native_fn_head(c, "void"@, "delete"@, ""@)
        + ") {\n    delete __ptr;\n  }\n\n  // API METHODS\n"@
        + native_fn_head(c, "void"@, "eval"@, ""@) + ") {\n    __ptr->eval();\n  }\n\n"@
        + native_fn_head(c, "void"@, "trace"@, ""@)
        + ", VerilatedVcdC* __tfp, int __levels) {\n    __ptr->trace(__tfp, __levels);\n  }\n\n"@
        + native_fn_head(c, "void"@, "final"@, ""@)
        + ") {\n    __ptr->final();\n  }\n\n  VerilatedVcdC*\n  "@ + c
        + "_vcd_new() {\n    Verilated::traceEverOn(true);\n    return new VerilatedVcdC();\n  }\n\n  bool\n  "@
        + c
        + "_vcd_open(VerilatedVcdC* __tfp, const char* __path) {\n    __tfp->open(__path);\n    return __tfp->isOpen();\n  }\n\n  void\n  "@
        + c
        + "_vcd_dump(VerilatedVcdC* __tfp, vluint64_t __time) {\n    __tfp->dump(__time);\n  }\n\n  void\n  "@
        + c + "_vcd_close(VerilatedVcdC* __tfp) {\n    __tfp->close();\n    delete __tfp;\n  }\n\n"@
}

fn push_native_api(out: &mut String, c: &str)
    ensures
        final(out)@ == old(out)@ + native_api(c@),
{
    out.append("    return ptr;\n  }\n\n");
    push_native_fn_head(out, c, "void", "delete", "");
    out.append(") {\n    delete __ptr;\n  }\n\n  // API METHODS\n");
    push_native_fn_head(out, c, "void", "eval", "");
    out.append(") {\n    __ptr->eval();\n  }\n\n");
    push_native_fn_head(out, c, "void", "trace", "");
    out.append(", VerilatedVcdC* __tfp, int __levels) {\n    __ptr->trace(__tfp, __levels);\n  }\n\n");
    push_native_fn_head(out, c, "void", "final", "");
    out.append(") {\n    __ptr->final();\n  }\n\n  VerilatedVcdC*\n  ");
    out.append(c);
    out.append("_vcd_new() {\n    Verilated::traceEverOn(true);\n    return new VerilatedVcdC();\n  }\n\n  bool\n  ");
    out.append(c);
    out.append("_vcd_open(VerilatedVcdC* __tfp, const char* __path) {\n    __tfp->open(__path);\n    return __tfp->isOpen();\n  }\n\n  void\n  ");
    out.append(c);
    out.append("_vcd_dump(VerilatedVcdC* __tfp, vluint64_t __time) {\n    __tfp->dump(__time);\n  }\n\n  void\n  ");
    out.append(c);
    out.append("_vcd_close(VerilatedVcdC* __tfp) {\n    __tfp->close();\n    delete __tfp;\n  }\n\n");
    assert(out@ =~= old(out)@ + native_api(c@));
}

/// Shim function toggling a clock or reset port.
pub open spec fn native_toggle(c: Seq<char>, n: Seq<char>) -> Seq<char> {
    native_fn_head(c, "void"@, n, "_toggle"@) + ") {\n    __ptr->"@ + n + " = !__ptr->"@ + n
        + ";\n  }\n\n"@
}

fn push_native_toggle(out: &mut String, c: &str, n: &str)
    ensures
        final(out)@ == old(out)@ + native_toggle(c@, n@),
{
    push_native_fn_head(out, c, "void", n, "_toggle");
    out.append(") {\n    __ptr->");
    out.append(n);
    out.append(" = !__ptr->");
    out.append(n);
    out.append(";\n  }\n\n");
    assert(out@ =~= old(out)@ + native_toggle(c@, n@));
}

/// Shim function setting a port.
pub open spec fn native_setter(c: Seq<char>, p: Port) -> Seq<char> {
    native_fn_head(c, "void"@, "set_"@, p.name@) + ", "@ + p.class.spec_native_name()
        + " __v) {\n    __ptr->"@ + p.name@ + " = __v;\n  }\n\n"@
}

fn push_native_setter(out: &mut String, c: &str, p: &Port)
    ensures
        final(out)@ == old(out)@ + native_setter(c@, *p),
{
    push_native_fn_head(out, c, "void", "set_", p.name.as_str());
    out.append(", ");
    out.append(p.class.native_name());
    out.append(" __v) {\n    __ptr->");
    out.append(p.name.as_str());
    out.append(" = __v;\n  }\n\n");
    assert(out@ =~= old(out)@ + native_setter(c@, *p));
}

/// Shim function reading a port.
pub open spec fn native_getter(c: Seq<char>, p: Port) -> Seq<char> {
    native_fn_head(c, p.class.spec_native_name(), "get_"@, p.name@) + ") {\n    return __ptr->"@
        + p.name@ + ";\n  }\n\n"@
}

fn push_native_getter(out: &mut String, c: &str, p: &Port)
    ensures
        final(out)@ == old(out)@ + native_getter(c@, *p),
{
    push_native_fn_head(out, c, p.class.native_name(), "get_", p.name.as_str());
    out.append(") {\n    return __ptr->");
    out.append(p.name.as_str());
    out.append(";\n  }\n\n");
    assert(out@ =~= old(out)@ + native_getter(c@, *p));
}

/// The per-port templates, one for each section of the two artifacts.
#[derive(Clone, Copy, Debug, PartialEq, Eq, Structural)]
pub enum PortTemplate {
    FfiSetter,
    FfiGetter,
    FfiInOut,
    WrapSetter,
    WrapGetter,
    WrapInOut,
    NativeSetter,
    NativeGetter,
    NativeInOut,
}

/// The text one template gives for one port.
pub open spec fn port_piece(t: PortTemplate, c: Seq<char>, p: Port) -> Seq<char> {
    match t {
        PortTemplate::FfiSetter => ffi_setter(c, p),
        PortTemplate::FfiGetter => ffi_getter(c, p),
        PortTemplate::FfiInOut => ffi_setter(c, p) + ffi_getter(c, p),
        PortTemplate::WrapSetter => wrap_setter(c, p),
        PortTemplate::WrapGetter => wrap_getter(c, p),
        PortTemplate::WrapInOut => wrap_setter(c, p) + wrap_getter(c, p),
        PortTemplate::NativeSetter => native_setter(c, p),
        PortTemplate::NativeGetter => native_getter(c, p),
        PortTemplate::NativeInOut => native_setter(c, p) + native_getter(c, p),
    }
}

fn push_port_piece(out: &mut String, t: PortTemplate, c: &str, p: &Port)
    ensures
        final(out)@ == old(out)@ + port_piece(t, c@, *p),
{
    match t {
        PortTemplate::FfiSetter => push_ffi_setter(out, c, p),
        PortTemplate::FfiGetter => push_ffi_getter(out, c, p),
        PortTemplate::FfiInOut => {
            push_ffi_setter(out, c, p);
            push_ffi_getter(out, c, p);
        },
        PortTemplate::WrapSetter => push_wrap_setter(out, c, p),
        PortTemplate::WrapGetter => push_wrap_getter(out, c, p),
        PortTemplate::WrapInOut => {
            push_wrap_setter(out, c, p);
            push_wrap_getter(out, c, p);
        },
        PortTemplate::NativeSetter => push_native_setter(out, c, p),
        PortTemplate::NativeGetter => push_native_getter(out, c, p),
        PortTemplate::NativeInOut => {
            push_native_setter(out, c, p);
            push_native_getter(out, c, p);
        },
    }
    assert(out@ =~= old(out)@ + port_piece(t, c@, *p));
}

/// One template applied to each port in turn, in the order given.
pub open spec fn port_list(t: PortTemplate, c: Seq<char>, ports: Seq<Port>) -> Seq<char>
    decreases ports.len(),
{
    if ports.len() == 0 {
        Seq::empty()
    } else {
        port_list(t, c, ports.drop_last()) + port_piece(t, c, ports.last())
    }
}

fn push_port_list(out: &mut String, t: PortTemplate, c: &str, ports: &Vec<Port>)
    ensures
        final(out)@ == old(out)@ + port_list(t, c@, ports@),
{
    let mut i: usize = 0;
    assert(ports@.subrange(0, 0) =~= Seq::<Port>::empty());
    assert(out@ =~= old(out)@ + port_list(t, c@, ports@.subrange(0, 0)));
    while i < ports.len()
        invariant
            0 <= i <= ports.len(),
            out@ == old(out)@ + port_list(t, c@, ports@.subrange(0, i as int)),
        decreases ports.len() - i,
    {
        assert(ports@.subrange(0, i + 1).drop_last() =~= ports@.subrange(0, i as int));
        push_port_piece(out, t, c, &ports[i]);
        i = i + 1;
        assert(out@ =~= old(out)@ + port_list(t, c@, ports@.subrange(0, i as int)));
    }
    assert(ports@.subrange(0, ports.len() as int) =~= ports@);
}

/// The foreign declaration of a toggle function, if the port exists.
pub open spec fn opt_toggle_decl(c: Seq<char>, o: Option<Port>) -> Seq<char> {
    match o {
        Some(p) => toggle_decl(c, p.name@),
        None => Seq::empty(),
    }
}

fn push_opt_toggle_decl(out: &mut String, c: &str, o: &Option<Port>)
    ensures
        final(out)@ == old(out)@ + opt_toggle_decl(c@, *o),
{
    match o {
        Some(p) => push_toggle_decl(out, c, p.name.as_str()),
        None => {
            assert(out@ =~= old(out)@ + opt_toggle_decl(c@, *o));
        },
    }
}

/// The wrapper's toggle method `m`: it drives the port if present, and
/// reports the missing port `k` otherwise.
pub open spec fn toggle_method(c: Seq<char>, m: Seq<char>, k: Seq<char>, o: Option<Port>) -> Seq<char> {
    match o {
        Some(p) => toggle_present(c, m, p.name@),
        None => toggle_missing(m, k),
    }
}

fn push_toggle_method(out: &mut String, c: &str, m: &str, k: &str, o: &Option<Port>)
    ensures
        final(out)@ == old(out)@ + toggle_method(c@, m@, k@, *o),
{
    match o {
        Some(p) => push_toggle_present(out, c, m, p.name.as_str()),
        None => push_toggle_missing(out, m, k),
    }
}

/// The constructor line clearing a port, if it exists.
pub open spec fn opt_port_init(o: Option<Port>) -> Seq<char> {
    match o {
        Some(p) => port_init(p.name@),
        None => Seq::empty(),
    }
}

fn push_opt_port_init(out: &mut String, o: &Option<Port>)
    ensures
        final(out)@ == old(out)@ + opt_port_init(*o),
{
    match o {
        Some(p) => push_port_init(out, p.name.as_str()),
        None => {
            assert(out@ =~= old(out)@ + opt_port_init(*o));
        },
    }
}

/// The shim's toggle function, if the port exists.
pub open spec fn opt_native_toggle(c: Seq<char>, o: Option<Port>) -> Seq<char> {
    match o {
        Some(p) => native_toggle(c, p.name@),
        None => Seq::empty(),
    }
}

fn push_opt_native_toggle(out: &mut String, c: &str, o: &Option<Port>)
    ensures
        final(out)@ == old(out)@ + opt_native_toggle(c@, *o),
{
    match o {
        Some(p) => push_native_toggle(out, c, p.name.as_str()),
        None => {
            assert(out@ =~= old(out)@ + opt_native_toggle(c@, *o));
        },
    }
}

/// The foreign declarations of the host file, in emission order: model-wide
/// functions, clock, reset, input setters, output getters, inout accessors.
pub open spec fn host_decls(c: Seq<char>, ps: PortsModel) -> Seq<char> {
    ffi_head(c) + opt_toggle_decl(c, ps.clock) + opt_toggle_decl(c, ps.reset)
        + port_list(PortTemplate::FfiSetter, c, ps.inputs)
        + port_list(PortTemplate::FfiGetter, c, ps.outputs)
        + port_list(PortTemplate::FfiInOut, c, ps.inouts) + "    }\n}\n\n"@
}

/// The wrapper struct `r` over the native model `c`, with its methods.
pub open spec fn host_wrapper(c: Seq<char>, r: Seq<char>, ps: PortsModel) -> Seq<char> {
    wrapper_head(c, r) + port_list(PortTemplate::WrapSetter, c, ps.inputs)
        + port_list(PortTemplate::WrapGetter, c, ps.outputs)
        + port_list(PortTemplate::WrapInOut, c, ps.inouts) + eval_finish(c) + trace_api(c)
        + toggle_method(c, "clock_toggle"@, "Clock"@, ps.clock)
        + toggle_method(c, "reset_toggle"@, "Reset"@, ps.reset) + "}\n"@
}

/// The whole host file for wrapper type `r` over native model `c`.
#[verifier::opaque]
pub open spec fn host_text(c: Seq<char>, r: Seq<char>, ps: PortsModel) -> Seq<char> {
    host_decls(c, ps) + host_wrapper(c, r, ps)
}

/// The whole C++ shim for native model `c`, in the same order as the host
/// declarations.
#[verifier::opaque]
pub open spec fn native_text(c: Seq<char>, ps: PortsModel) -> Seq<char> {
    native_head(c) + opt_port_init(ps.clock) + opt_port_init(ps.reset) + native_api(c)
        + opt_native_toggle(c, ps.clock) + opt_native_toggle(c, ps.reset) + "  // PORTS\n"@
        + port_list(PortTemplate::NativeSetter, c, ps.inputs)
        + port_list(PortTemplate::NativeGetter, c, ps.outputs)
        + port_list(PortTemplate::NativeInOut, c, ps.inouts) + "}\n"@
}

fn push_host_decls(out: &mut String, c: &str, ps: &Ports)
    ensures
        final(out)@ == old(out)@ + host_decls(c@, ps@),
{
    push_ffi_head(out, c);
    push_opt_toggle_decl(out, c, &ps.clock);
    push_opt_toggle_decl(out, c, &ps.reset);
    push_port_list(out, PortTemplate::FfiSetter, c, &ps.inputs);
    push_port_list(out, PortTemplate::FfiGetter, c, &ps.outputs);
    push_port_list(out, PortTemplate::FfiInOut, c, &ps.inouts);
    out.append("    }\n}\n\n");
    assert(out@ =~= old(out)@ + host_decls(c@, ps@));
}

fn push_host_wrapper(out: &mut String, c: &str, r: &str, ps: &Ports)
    ensures
        final(out)@ == old(out)@ + host_wrapper(c@, r@, ps@),
{
    push_wrapper_head(out, c, r);
    push_port_list(out, PortTemplate::WrapSetter, c, &ps.inputs);
    push_port_list(out, PortTemplate::WrapGetter, c, &ps.outputs);
    push_port_list(out, PortTemplate::WrapInOut, c, &ps.inouts);
    push_eval_finish(out, c);
    push_trace_api(out, c);
    push_toggle_method(out, c, "clock_toggle", "Clock", &ps.clock);
    push_toggle_method(out, c, "reset_toggle", "Reset", &ps.reset);
    out.append("}\n");
    assert(out@ =~= old(out)@ + host_wrapper(c@, r@, ps@));
}

/// Renders the host file: foreign declarations of every shim function of
/// native model `c_ty`, then the wrapper type `rs_ty` that owns the model.
pub fn render_host(c_ty: &str, rs_ty: &str, ports: &Ports) -> (r: String)
    ensures
        r@ == host_text(c_ty@, rs_ty@, ports@),
{
    let mut out = String::new();
    push_host_decls(&mut out, c_ty, ports);
    push_host_wrapper(&mut out, c_ty, rs_ty, ports);
    reveal(host_text);
    assert(out@ =~= host_text(c_ty@, rs_ty@, ports@));
    out
}

/// Renders the C++ shim exposing native model `c_ty` through C functions.
pub fn render_native(c_ty: &str, ports: &Ports) -> (r: String)
    ensures
        r@ == native_text(c_ty@, ports@),
{
    let mut out = String::new();
    push_native_head(&mut out, c_ty);
    push_opt_port_init(&mut out, &ports.clock);
    push_opt_port_init(&mut out, &ports.reset);
    push_native_api(&mut out, c_ty);
    push_opt_native_toggle(&mut out, c_ty, &ports.clock);
    push_opt_native_toggle(&mut out, c_ty, &ports.reset);
    out.append("  // PORTS\n");
    push_port_list(&mut out, PortTemplate::NativeSetter, c_ty, &ports.inputs);
    push_port_list(&mut out, PortTemplate::NativeGetter, c_ty, &ports.outputs);
    push_port_list(&mut out, PortTemplate::NativeInOut, c_ty, &ports.inouts);
    out.append("}\n");
    reveal(native_text);
    assert(out@ =~= native_text(c_ty@, ports@));
    out
}

} // verus!

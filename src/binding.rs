//! The `#[verilated]` attribute: binding a Rust struct to the model that
//! Verilator generated for a Verilog module, and the names of the generated
//! items it refers to.

use vstd::prelude::*;
use vstd::string::*;
use crate::doc::{doc_lines, extract_doc_comments, DocAttr};
use crate::text::{is_word, lower_of, lowercase};

verus! {

/// One option of the `#[verilated(...)]` attribute.
#[derive(Clone, Debug, PartialEq, Eq)]
pub enum VerilatedAttr {
    /// `eval_end_step`
    EvalEndStep,
    /// `module = name`: the Verilog module's name.
    Module(String),
}

impl VerilatedAttr {
    /// The option named `name`, with the value after `=` if one was given;
    /// `None` for an unknown option or a `module` without a value.
    pub fn from_parts(name: &String, value: Option<String>) -> (r: Option<VerilatedAttr>)
        ensures
            name@ == "eval_end_step"@ ==> r == Some(VerilatedAttr::EvalEndStep),
            name@ == "module"@ ==> (r is None <==> value is None),
            name@ == "module"@ && r is Some ==> r == Some(VerilatedAttr::Module(value->Some_0)),
            name@ != "eval_end_step"@ && name@ != "module"@ ==> r is None,
    {
        proof {
            reveal_strlit("module");
            reveal_strlit("eval_end_step");
            assert("module"@.len() != "eval_end_step"@.len());
        }
        if is_word(name, "eval_end_step") {
            Some(VerilatedAttr::EvalEndStep)
        } else if is_word(name, "module") {
            match value {
                Some(v) => Some(VerilatedAttr::Module(v)),
                None => None,
            }
        } else {
            None
        }
    }
}

/// All options of one `#[verilated(...)]` attribute, in order.
#[derive(Clone, Debug, PartialEq, Eq)]
pub struct VerilatedAttrs {
    pub attrs: Vec<VerilatedAttr>,
}

/// The first `module = name` value among the options.
pub open spec fn first_module(attrs: Seq<VerilatedAttr>) -> Option<Seq<char>>
    decreases attrs.len(),
{
    if attrs.len() == 0 {
        None
    } else {
        match attrs[0] {
            VerilatedAttr::Module(n) => Some(n@),
            VerilatedAttr::EvalEndStep => first_module(attrs.skip(1)),
        }
    }
}

impl VerilatedAttrs {
    /// Whether `eval_end_step` is among the options.
    pub fn eval_end_step(&self) -> (r: bool)
        ensures
            r == exists|i: int| 0 <= i < self.attrs@.len() && #[trigger] self.attrs@[i] == VerilatedAttr::EvalEndStep,
    {
        let mut i: usize = 0;
        while i < self.attrs.len()
            invariant
                0 <= i <= self.attrs.len(),
                forall|j: int| 0 <= j < i ==> #[trigger] self.attrs@[j] != VerilatedAttr::EvalEndStep,
            decreases self.attrs.len() - i,
        {
            match &self.attrs[i] {
                VerilatedAttr::EvalEndStep => {
                    return true;
                },
                VerilatedAttr::Module(_) => {},
            }
            i = i + 1;
        }
        false
    }

    /// The Verilog module name given by the first `module = name` option.
    pub fn module(&self) -> (r: Option<&String>)
        ensures
            r matches Some(n) ==> first_module(self.attrs@) == Some(n@),
            r is None ==> first_module(self.attrs@) is None,
    {
        let mut i: usize = 0;
        assert(self.attrs@.skip(0) =~= self.attrs@);
        while i < self.attrs.len()
            invariant
                0 <= i <= self.attrs.len(),
                first_module(self.attrs@) == first_module(self.attrs@.skip(i as int)),
            decreases self.attrs.len() - i,
        {
            assert(self.attrs@.skip(i as int).skip(1) =~= self.attrs@.skip(i + 1));
            match &self.attrs[i] {
                VerilatedAttr::Module(n) => {
                    return Some(n);
                },
                VerilatedAttr::EvalEndStep => {},
            }
            i = i + 1;
        }
        None
    }
}

/// Why a struct cannot carry `#[verilated]`.
#[derive(Clone, Copy, Debug, PartialEq, Eq, Structural)]
pub enum ExpandError {
    /// It has lifetime or type parameters.
    Generics,
    /// It declares fields.
    Fields,
}

impl ExpandError {
    /// The diagnostic shown at the offending item.
    pub fn message(&self) -> (r: &'static str)
        ensures
            *self == ExpandError::Generics ==> r@
                == "structs with #[verilated] cannot have lifetime or type parameters currently"@,
            *self == ExpandError::Fields ==> r@ == "structs with #[verilated] cannot have fields currently"@,
    {
        match self {
            ExpandError::Generics => "structs with #[verilated] cannot have lifetime or type parameters currently",
            ExpandError::Fields => "structs with #[verilated] cannot have fields currently",
        }
    }
}

/// A struct bound to a Verilated model.
#[derive(Clone, Debug, PartialEq, Eq)]
pub struct VerilatedModule {
    /// The name of the struct in Rust code.
    pub rust_name: String,
    /// The name of the module in Verilog code.
    pub verilog_name: String,
    /// The doc comments of the struct.
    pub comments: Vec<String>,
    /// Whether the `eval_end_step` option was given.
    pub eval_end_step: bool,
}

/// The Verilog name of a struct: the `module` option, else its lower-cased name.
pub open spec fn verilog_name_of(attrs: Seq<VerilatedAttr>, rust_name: Seq<char>) -> Seq<char> {
    match first_module(attrs) {
        Some(n) => n,
        None => lower_of(rust_name),
    }
}

/// Binds a struct named `rust_name` carrying `#[verilated(attrs)]`: the struct
/// must have no generics and no fields.
pub fn convert(
    rust_name: &String,
    has_generics: bool,
    has_fields: bool,
    attrs: &VerilatedAttrs,
    doc_attrs: &Vec<DocAttr>,
) -> (r: Result<VerilatedModule, ExpandError>)
    ensures
        has_generics ==> r == Err::<VerilatedModule, ExpandError>(ExpandError::Generics),
        !has_generics && has_fields ==> r == Err::<VerilatedModule, ExpandError>(ExpandError::Fields),
        !has_generics && !has_fields ==> r is Ok,
        r matches Ok(m) ==> {
            &&& m.rust_name@ == rust_name@
            &&& m.verilog_name@ == verilog_name_of(attrs.attrs@, rust_name@)
            &&& m.comments@.map_values(|s: String| s@) == doc_lines(doc_attrs@)
            &&& m.eval_end_step == exists|i: int|
                0 <= i < attrs.attrs@.len() && #[trigger] attrs.attrs@[i] == VerilatedAttr::EvalEndStep
        },
{
    if has_generics {
        return Err(ExpandError::Generics);
    }
    if has_fields {
        return Err(ExpandError::Fields);
    }
    let verilog_name = match attrs.module() {
        Some(n) => n.clone(),
        None => lowercase(rust_name.as_str()),
    };
    let comments = extract_doc_comments(doc_attrs);
    let eval_end_step = attrs.eval_end_step();
    Ok(VerilatedModule { rust_name: rust_name.clone(), verilog_name, comments, eval_end_step })
}

fn join3(a: &str, b: &str, c: &str) -> (r: String)
    ensures
        r@ == a@ + b@ + c@,
{
    let mut r = String::from_str(a);
    r.append(b);
    r.append(c);
    r
}

impl VerilatedModule {
    /// Whether the wrapper's `eval_end_step` forwards to the model. The
    /// `eval_end_step` option leaves the end-of-step evaluation to the
    /// caller's own code, so with it the wrapper's method does nothing.
    pub fn calls_eval_end_step(&self) -> (r: bool)
        ensures
            r == !self.eval_end_step,
    {
        !self.eval_end_step
    }

    /// The module holding the generated bindings: `v<name>`.
    pub fn binding_mod(&self) -> (r: String)
        ensures
            r@ == "v"@ + self.verilog_name@,
    {
        let mut r = String::from_str("v");
        r.append(self.verilog_name.as_str());
        r
    }

    /// The generated bindings file, relative to the build's output
    /// directory: `/V<name>.rs`.
    pub fn binding_file(&self) -> (r: String)
        ensures
            r@ == "/V"@ + self.verilog_name@ + ".rs"@,
    {
        join3("/V", self.verilog_name.as_str(), ".rs")
    }

    /// The model's struct in the bindings: `V<name>`.
    pub fn ffi_struct(&self) -> (r: String)
        ensures
            r@ == "V"@ + self.verilog_name@,
    {
        let mut r = String::from_str("V");
        r.append(self.verilog_name.as_str());
        r
    }

    /// The model's constructor in the bindings: `V<name>_V<name>`.
    pub fn ffi_constructor(&self) -> (r: String)
        ensures
            r@ == "V"@ + self.verilog_name@ + "_V"@ + self.verilog_name@,
    {
        let mut r = join3("V", self.verilog_name.as_str(), "_V");
        r.append(self.verilog_name.as_str());
        r
    }
}

} // verus!

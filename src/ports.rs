//! The port model: classification of a module struct's fields into clock,
//! reset, inputs, outputs and inouts.

use vstd::prelude::*;
use crate::text::is_word;
use crate::width::{class_for_width, class_of, WidthClass, MAX_WIDTH};

verus! {

/// One argument inside an attribute list such as `#[port(clock)]`.
#[derive(Clone, Debug, PartialEq, Eq)]
pub enum MetaItem {
    /// A bare identifier.
    Word(String),
    /// A literal, a `name = value` pair or a nested list.
    Other,
}

/// An attribute attached to a struct or a field, as far as the generator reads it.
#[derive(Clone, Debug, PartialEq, Eq)]
pub enum AttrMeta {
    /// `#[name]`
    Word(String),
    /// `#[name(items, ...)]`
    List(String, Vec<MetaItem>),
    /// `#[name = value]`, a doc comment, or anything not in meta form.
    Other,
}

/// The length expression of an array type.
#[derive(Clone, Debug, PartialEq, Eq)]
pub enum LenExpr {
    /// An integer literal (Rust's integer literals fit in 128 bits).
    Int(u128),
    /// Anything else: a constant, an arithmetic expression, a non-integer literal.
    NotLiteral,
}

/// The element type of an array type.
#[derive(Clone, Debug, PartialEq, Eq)]
pub enum ElemType {
    /// A type path, given by its last segment.
    Path(String),
    /// Any other form of type, nested arrays included.
    Other,
}

/// The declared type of a field.
#[derive(Clone, Debug, PartialEq, Eq)]
pub enum FieldType {
    /// A type path, given by its last segment (`bool`, `u8`, `Foo`).
    Path(String),
    /// `[elem; len]`
    Array(ElemType, LenExpr),
    /// Any other form of type.
    Other,
}

/// A named field of a module struct.
#[derive(Clone, Debug, PartialEq, Eq)]
pub struct FieldDecl {
    pub name: String,
    pub public: bool,
    pub ty: FieldType,
    pub attrs: Vec<AttrMeta>,
}

/// The five roles a port can play.
#[derive(Clone, Copy, Debug, PartialEq, Eq, Structural)]
pub enum PortRole {
    Clock,
    Reset,
    Input,
    Output,
    InOut,
}

/// A misconfigured module declaration.
#[derive(Clone, Debug, PartialEq, Eq)]
pub enum ConfigError {
    /// A second field is marked as clock (or as reset).
    DuplicateRole(PortRole),
    /// The named field is neither `bool` nor an array of `bool`.
    UnsupportedType(String),
    /// The named field's `port` attribute has no argument, several, or an unknown one.
    MissingRoleArgument(String),
    /// The named field is a `bool` array of zero length.
    ZeroWidth(String),
    /// The named field is a `bool` array longer than 64.
    WidthOverflow(String, u128),
    /// The named field's array length is not an integer literal.
    InvalidWidthExpression(String),
    /// The module struct has unnamed fields or none at all.
    TupleStruct(String),
    /// The module struct has type or lifetime parameters.
    GenericStruct(String),
}

/// One port: its name, declared width in bits, and the class carrying it.
#[derive(Clone, Debug, PartialEq, Eq)]
pub struct Port {
    pub name: String,
    pub width: u64,
    pub class: WidthClass,
}

impl Port {
    /// The width is supported and the class is the one chosen for it.
    pub open spec fn wf(self) -> bool {
        &&& 1 <= self.width <= MAX_WIDTH
        &&& self.class == class_of(self.width as nat)
    }
}

/// The classified ports of one module, each list in declaration order.
#[derive(Clone, Debug, PartialEq, Eq)]
pub struct Ports {
    pub clock: Option<Port>,
    pub reset: Option<Port>,
    pub inputs: Vec<Port>,
    pub outputs: Vec<Port>,
    pub inouts: Vec<Port>,
}

/// Mathematical view of [`Ports`].
pub struct PortsModel {
    pub clock: Option<Port>,
    pub reset: Option<Port>,
    pub inputs: Seq<Port>,
    pub outputs: Seq<Port>,
    pub inouts: Seq<Port>,
}

impl View for Ports {
    type V = PortsModel;

    open spec fn view(&self) -> PortsModel {
        PortsModel {
            clock: self.clock,
            reset: self.reset,
            inputs: self.inputs@,
            outputs: self.outputs@,
            inouts: self.inouts@,
        }
    }
}

impl PortsModel {
    pub open spec fn empty() -> PortsModel {
        PortsModel {
            clock: None,
            reset: None,
            inputs: Seq::empty(),
            outputs: Seq::empty(),
            inouts: Seq::empty(),
        }
    }

    /// Every port has a supported width and its matching class.
    pub open spec fn wf(self) -> bool {
        &&& (self.clock matches Some(p) ==> p.wf())
        &&& (self.reset matches Some(p) ==> p.wf())
        &&& forall|i: int| 0 <= i < self.inputs.len() ==> (#[trigger] self.inputs[i]).wf()
        &&& forall|i: int| 0 <= i < self.outputs.len() ==> (#[trigger] self.outputs[i]).wf()
        &&& forall|i: int| 0 <= i < self.inouts.len() ==> (#[trigger] self.inouts[i]).wf()
    }
}

/// The role named by a role word, if it is one of the vocabulary.
pub open spec fn role_of_word(w: Seq<char>) -> Option<PortRole> {
    if w == "clock"@ {
        Some(PortRole::Clock)
    } else if w == "reset"@ {
        Some(PortRole::Reset)
    } else if w == "input"@ {
        Some(PortRole::Input)
    } else if w == "output"@ {
        Some(PortRole::Output)
    } else if w == "inout"@ {
        Some(PortRole::InOut)
    } else {
        None
    }
}

/// What one attribute does to the role found so far: a `port(...)` list with
/// one known word sets it, a malformed `port` attribute is an error, anything
/// else leaves it.
pub open spec fn attr_step(prev: Option<PortRole>, a: AttrMeta) -> Result<Option<PortRole>, ()> {
    match a {
        AttrMeta::Word(n) => if n@ == "port"@ {
            Err(())
        } else {
            Ok(prev)
        },
        AttrMeta::List(n, items) => if n@ != "port"@ {
            Ok(prev)
        } else if items@.len() != 1 {
            Err(())
        } else {
            match items@[0] {
                MetaItem::Word(w) => match role_of_word(w@) {
                    Some(r) => Ok(Some(r)),
                    None => Err(()),
                },
                MetaItem::Other => Err(()),
            }
        },
        AttrMeta::Other => Ok(prev),
    }
}

/// The role the attributes give a field, read left to right; the last `port`
/// attribute wins.
pub open spec fn port_attr(attrs: Seq<AttrMeta>) -> Result<Option<PortRole>, ()>
    decreases attrs.len(),
{
    if attrs.len() == 0 {
        Ok(None)
    } else {
        match port_attr(attrs.drop_last()) {
            Err(()) => Err(()),
            Ok(prev) => attr_step(prev, attrs.last()),
        }
    }
}

/// Why a field's type has no width.
pub enum WidthFault {
    Unsupported,
    Zero,
    Overflow(u128),
    NotLiteral,
}

/// Whether an element type is the path `bool`.
pub open spec fn is_bool_elem(ty: ElemType) -> bool {
    ty matches ElemType::Path(n) && n@ == "bool"@
}

/// The declared width of a field type: 1 for `bool`, `N` for `[bool; N]` with
/// `N` a literal in `1..=64`.
pub open spec fn type_width(ty: FieldType) -> Result<u64, WidthFault> {
    match ty {
        FieldType::Path(n) => if n@ == "bool"@ {
            Ok(1u64)
        } else {
            Err(WidthFault::Unsupported)
        },
        FieldType::Array(elem, len) => if !is_bool_elem(elem) {
            Err(WidthFault::Unsupported)
        } else {
            match len {
                LenExpr::Int(v) => if v == 0 {
                    Err(WidthFault::Zero)
                } else if v > MAX_WIDTH as u128 {
                    Err(WidthFault::Overflow(v))
                } else {
                    Ok(v as u64)
                },
                LenExpr::NotLiteral => Err(WidthFault::NotLiteral),
            }
        },
        FieldType::Other => Err(WidthFault::Unsupported),
    }
}

/// The configuration error for a width fault on the named field.
pub open spec fn width_error(name: String, f: WidthFault) -> ConfigError {
    match f {
        WidthFault::Unsupported => ConfigError::UnsupportedType(name),
        WidthFault::Zero => ConfigError::ZeroWidth(name),
        WidthFault::Overflow(v) => ConfigError::WidthOverflow(name, v),
        WidthFault::NotLiteral => ConfigError::InvalidWidthExpression(name),
    }
}

/// The port a field becomes, once its type is known to have width `w`.
pub open spec fn port_of(name: String, w: u64) -> Port {
    Port { name, width: w, class: class_of(w as nat) }
}

/// Whether a field is a public field whose attributes tag it with `role`.
pub open spec fn tagged(f: FieldDecl, role: PortRole) -> bool {
    f.public && port_attr(f.attrs@) == Ok::<Option<PortRole>, ()>(Some(role))
}

/// What a single field contributes: nothing (private or untagged), a role
/// and a port, or an error.
pub open spec fn field_port(f: FieldDecl) -> Result<Option<(PortRole, Port)>, ConfigError> {
    if !f.public {
        Ok(None)
    } else {
        match port_attr(f.attrs@) {
            Err(()) => Err(ConfigError::MissingRoleArgument(f.name)),
            Ok(None) => Ok(None),
            Ok(Some(role)) => match type_width(f.ty) {
                Err(fault) => Err(width_error(f.name, fault)),
                Ok(w) => Ok(Some((role, port_of(f.name, w)))),
            },
        }
    }
}

/// Adds one field to the ports collected so far.
pub open spec fn add_field(ps: PortsModel, f: FieldDecl) -> Result<PortsModel, ConfigError> {
    match field_port(f) {
        Err(e) => Err(e),
        Ok(None) => Ok(ps),
        Ok(Some((role, p))) => match role {
            PortRole::Clock => if ps.clock is Some {
                Err(ConfigError::DuplicateRole(PortRole::Clock))
            } else {
                Ok(PortsModel { clock: Some(p), ..ps })
            },
            PortRole::Reset => if ps.reset is Some {
                Err(ConfigError::DuplicateRole(PortRole::Reset))
            } else {
                Ok(PortsModel { reset: Some(p), ..ps })
            },
            PortRole::Input => Ok(PortsModel { inputs: ps.inputs.push(p), ..ps }),
            PortRole::Output => Ok(PortsModel { outputs: ps.outputs.push(p), ..ps }),
            PortRole::InOut => Ok(PortsModel { inouts: ps.inouts.push(p), ..ps }),
        },
    }
}

/// The ports of a sequence of fields, processed in declaration order; the
/// first error met is the result.
pub open spec fn extract(fields: Seq<FieldDecl>) -> Result<PortsModel, ConfigError>
    decreases fields.len(),
{
    if fields.len() == 0 {
        Ok(PortsModel::empty())
    } else {
        match extract(fields.drop_last()) {
            Err(e) => Err(e),
            Ok(ps) => add_field(ps, fields.last()),
        }
    }
}

fn role_of_word_exec(w: &String) -> (r: Option<PortRole>)
    ensures
        r == role_of_word(w@),
{
    if is_word(w, "clock") {
        Some(PortRole::Clock)
    } else if is_word(w, "reset") {
        Some(PortRole::Reset)
    } else if is_word(w, "input") {
        Some(PortRole::Input)
    } else if is_word(w, "output") {
        Some(PortRole::Output)
    } else if is_word(w, "inout") {
        Some(PortRole::InOut)
    } else {
        None
    }
}

/// The port role that a field's attributes declare: `Ok(None)` when no `port`
/// attribute is present, `Err(())` when one is malformed.
pub fn find_port_attr(attrs: &Vec<AttrMeta>) -> (r: Result<Option<PortRole>, ()>)
    ensures
        r == port_attr(attrs@),
{
    let mut role: Option<PortRole> = None;
    let mut i: usize = 0;
    while i < attrs.len()
        invariant
            0 <= i <= attrs.len(),
            port_attr(attrs@.subrange(0, i as int)) == Ok::<Option<PortRole>, ()>(role),
        decreases attrs.len() - i,
    {
        assert(attrs@.subrange(0, i + 1).drop_last() =~= attrs@.subrange(0, i as int));
        match &attrs[i] {
            AttrMeta::Word(n) => {
                if is_word(n, "port") {
                    assert(attrs@.subrange(0, attrs.len() as int) =~= attrs@);
                    proof {
                        lemma_port_attr_err_sticky(attrs@, i as int + 1);
                    }
                    return Err(());
                }
            },
            AttrMeta::List(n, items) => {
                if is_word(n, "port") {
                    if items.len() != 1 {
                        proof {
                            lemma_port_attr_err_sticky(attrs@, i as int + 1);
                        }
                        return Err(());
                    }
                    match &items[0] {
                        MetaItem::Word(w) => {
                            match role_of_word_exec(w) {
                                Some(r) => {
                                    role = Some(r);
                                },
                                None => {
                                    proof {
                                        lemma_port_attr_err_sticky(attrs@, i as int + 1);
                                    }
                                    return Err(());
                                },
                            }
                        },
                        MetaItem::Other => {
                            proof {
                                lemma_port_attr_err_sticky(attrs@, i as int + 1);
                            }
                            return Err(());
                        },
                    }
                }
            },
            AttrMeta::Other => {},
        }
        i = i + 1;
    }
    assert(attrs@.subrange(0, attrs.len() as int) =~= attrs@);
    Ok(role)
}

/// Once a prefix of the attributes is malformed, so is every longer prefix.
proof fn lemma_port_attr_err_sticky(attrs: Seq<AttrMeta>, k: int)
    requires
        0 <= k <= attrs.len(),
        port_attr(attrs.subrange(0, k)) == Err::<Option<PortRole>, ()>(()),
    ensures
        port_attr(attrs) == Err::<Option<PortRole>, ()>(()),
    decreases attrs.len() - k,
{
    if k == attrs.len() {
        assert(attrs.subrange(0, k) =~= attrs);
    } else {
        assert(attrs.subrange(0, k + 1).drop_last() =~= attrs.subrange(0, k));
        lemma_port_attr_err_sticky(attrs, k + 1);
    }
}

/// The declared width of a field type, or why it has none.
pub fn field_width(ty: &FieldType) -> (r: Result<u64, WidthFault>)
    ensures
        r == type_width(*ty),
{
    match ty {
        FieldType::Path(n) => {
            if is_word(n, "bool") {
                Ok(1)
            } else {
                Err(WidthFault::Unsupported)
            }
        },
        FieldType::Array(elem, len) => {
            let elem_is_bool = match elem {
                ElemType::Path(n) => is_word(n, "bool"),
                ElemType::Other => false,
            };
            if !elem_is_bool {
                Err(WidthFault::Unsupported)
            } else {
                match len {
                    LenExpr::Int(v) => {
                        if *v == 0 {
                            Err(WidthFault::Zero)
                        } else if *v > MAX_WIDTH as u128 {
                            Err(WidthFault::Overflow(*v))
                        } else {
                            Ok(*v as u64)
                        }
                    },
                    LenExpr::NotLiteral => Err(WidthFault::NotLiteral),
                }
            }
        },
        FieldType::Other => Err(WidthFault::Unsupported),
    }
}

fn fault_to_error(name: String, fault: WidthFault) -> (r: ConfigError)
    ensures
        r == width_error(name, fault),
{
    match fault {
        WidthFault::Unsupported => ConfigError::UnsupportedType(name),
        WidthFault::Zero => ConfigError::ZeroWidth(name),
        WidthFault::Overflow(v) => ConfigError::WidthOverflow(name, v),
        WidthFault::NotLiteral => ConfigError::InvalidWidthExpression(name),
    }
}

/// The role and port one field contributes, if any.
pub fn classify_field(f: &FieldDecl) -> (r: Result<Option<(PortRole, Port)>, ConfigError>)
    ensures
        r == field_port(*f),
{
    if !f.public {
        return Ok(None);
    }
    match find_port_attr(&f.attrs) {
        Err(()) => Err(ConfigError::MissingRoleArgument(f.name.clone())),
        Ok(None) => Ok(None),
        Ok(Some(role)) => match field_width(&f.ty) {
            Err(fault) => Err(fault_to_error(f.name.clone(), fault)),
            Ok(w) => {
                let class = class_for_width(w);
                let class = class.unwrap();
                Ok(Some((role, Port { name: f.name.clone(), width: w, class })))
            },
        },
    }
}

/// Classifies the fields of a module struct, in declaration order, into its
/// ports. Private and untagged fields are skipped; the first misconfigured
/// field, or a second clock or reset, is reported.
pub fn extract_ports(fields: &Vec<FieldDecl>) -> (r: Result<Ports, ConfigError>)
    ensures
        r matches Ok(ps) ==> extract(fields@) == Ok::<PortsModel, ConfigError>(ps@) && ps@.wf(),
        r matches Err(e) ==> extract(fields@) == Err::<PortsModel, ConfigError>(e),
{
    let mut ps = Ports {
        clock: None,
        reset: None,
        inputs: Vec::new(),
        outputs: Vec::new(),
        inouts: Vec::new(),
    };
    assert(ps@ == PortsModel::empty());
    assert(fields@.subrange(0, 0) =~= Seq::<FieldDecl>::empty());
    let mut i: usize = 0;
    while i < fields.len()
        invariant
            0 <= i <= fields.len(),
            extract(fields@.subrange(0, i as int)) == Ok::<PortsModel, ConfigError>(ps@),
        decreases fields.len() - i,
    {
        assert(fields@.subrange(0, i + 1).drop_last() =~= fields@.subrange(0, i as int));
        match classify_field(&fields[i]) {
            Err(e) => {
                proof {
                    lemma_extract_err_sticky(fields@, i as int + 1);
                }
                return Err(e);
            },
            Ok(None) => {},
            Ok(Some((role, p))) => {
                match role {
                    PortRole::Clock => {
                        if ps.clock.is_some() {
                            proof {
                                lemma_extract_err_sticky(fields@, i as int + 1);
                            }
                            return Err(ConfigError::DuplicateRole(PortRole::Clock));
                        }
                        ps.clock = Some(p);
                    },
                    PortRole::Reset => {
                        if ps.reset.is_some() {
                            proof {
                                lemma_extract_err_sticky(fields@, i as int + 1);
                            }
                            return Err(ConfigError::DuplicateRole(PortRole::Reset));
                        }
                        ps.reset = Some(p);
                    },
                    PortRole::Input => {
                        ps.inputs.push(p);
                    },
                    PortRole::Output => {
                        ps.outputs.push(p);
                    },
                    PortRole::InOut => {
                        ps.inouts.push(p);
                    },
                }
            },
        }
        i = i + 1;
    }
    assert(fields@.subrange(0, fields.len() as int) =~= fields@);
    proof {
        lemma_extract_shape(fields@);
    }
    Ok(ps)
}

/// Once a prefix of the fields fails, the whole sequence fails the same way.
proof fn lemma_extract_err_sticky(fields: Seq<FieldDecl>, k: int)
    requires
        0 <= k <= fields.len(),
        extract(fields.subrange(0, k)) is Err,
    ensures
        extract(fields) == extract(fields.subrange(0, k)),
    decreases fields.len() - k,
{
    if k == fields.len() {
        assert(fields.subrange(0, k) =~= fields);
    } else {
        assert(fields.subrange(0, k + 1).drop_last() =~= fields.subrange(0, k));
        lemma_extract_err_sticky(fields, k + 1);
    }
}

/// Number of public fields whose attributes tag them with `role`.
pub open spec fn count_tagged(fields: Seq<FieldDecl>, role: PortRole) -> nat
    decreases fields.len(),
{
    if fields.len() == 0 {
        0
    } else {
        count_tagged(fields.drop_last(), role) + if tagged(fields.last(), role) {
            1nat
        } else {
            0nat
        }
    }
}

/// The port a field of supported type becomes.
pub open spec fn field_as_port(f: FieldDecl) -> Port {
    match type_width(f.ty) {
        Ok(w) => port_of(f.name, w),
        Err(_) => port_of(f.name, 0),
    }
}

/// The ports of the fields tagged with `role`, in declaration order.
pub open spec fn ports_tagged(fields: Seq<FieldDecl>, role: PortRole) -> Seq<Port>
    decreases fields.len(),
{
    if fields.len() == 0 {
        Seq::empty()
    } else if tagged(fields.last(), role) {
        ports_tagged(fields.drop_last(), role).push(field_as_port(fields.last()))
    } else {
        ports_tagged(fields.drop_last(), role)
    }
}

/// What a successful extraction is, field by field: inputs, outputs and
/// inouts are exactly the tagged fields in declaration order, and the clock
/// (reset) is present exactly when one field is tagged so.
proof fn lemma_extract_shape(fields: Seq<FieldDecl>)
    requires
        extract(fields) is Ok,
    ensures
        ({
            let ps = extract(fields)->Ok_0;
            &&& count_tagged(fields, PortRole::Clock) <= 1
            &&& count_tagged(fields, PortRole::Reset) <= 1
            &&& (ps.clock is Some <==> count_tagged(fields, PortRole::Clock) == 1)
            &&& (ps.reset is Some <==> count_tagged(fields, PortRole::Reset) == 1)
            &&& ps.inputs == ports_tagged(fields, PortRole::Input)
            &&& ps.outputs == ports_tagged(fields, PortRole::Output)
            &&& ps.inouts == ports_tagged(fields, PortRole::InOut)
            &&& ps.wf()
        }),
    decreases fields.len(),
{
    if fields.len() > 0 {
        let f = fields.last();
        lemma_extract_shape(fields.drop_last());
        let prev = extract(fields.drop_last())->Ok_0;
        match port_attr(f.attrs@) {
            Ok(Some(role)) => {
                if f.public {
                    assert(tagged(f, role));
                }
            },
            _ => {},
        }
        let ps = extract(fields)->Ok_0;
        assert forall|i: int| 0 <= i < ps.inputs.len() implies (#[trigger] ps.inputs[i]).wf() by {
            if i < prev.inputs.len() {
                assert(prev.inputs[i].wf());
            }
        }
        assert forall|i: int| 0 <= i < ps.outputs.len() implies (#[trigger] ps.outputs[i]).wf() by {
            if i < prev.outputs.len() {
                assert(prev.outputs[i].wf());
            }
        }
        assert forall|i: int| 0 <= i < ps.inouts.len() implies (#[trigger] ps.inouts[i]).wf() by {
            if i < prev.inouts.len() {
                assert(prev.inouts[i].wf());
            }
        }
    }
}

/// A module has at most one clock and at most one reset: fields that tag two
/// clocks, or two resets, are rejected whatever their order, and a successful
/// extraction saw at most one of each.
pub proof fn lemma_role_uniqueness(fields: Seq<FieldDecl>)
    ensures
        count_tagged(fields, PortRole::Clock) >= 2 ==> extract(fields) is Err,
        count_tagged(fields, PortRole::Reset) >= 2 ==> extract(fields) is Err,
        extract(fields) is Ok ==> count_tagged(fields, PortRole::Clock) <= 1
            && count_tagged(fields, PortRole::Reset) <= 1,
{
    if extract(fields) is Ok {
        lemma_extract_shape(fields);
    }
}

/// Inputs, outputs and inouts come out in source declaration order, holding
/// exactly the public fields tagged with that role.
pub proof fn lemma_order_preserved(fields: Seq<FieldDecl>)
    requires
        extract(fields) is Ok,
    ensures
        extract(fields)->Ok_0.inputs == ports_tagged(fields, PortRole::Input),
        extract(fields)->Ok_0.outputs == ports_tagged(fields, PortRole::Output),
        extract(fields)->Ok_0.inouts == ports_tagged(fields, PortRole::InOut),
{
    lemma_extract_shape(fields);
}

} // verus!

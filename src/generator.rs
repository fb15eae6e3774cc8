//! The generation pass: finds the module structs of a source file and
//! produces the host file and the C++ shim of each.

use vstd::prelude::*;
use vstd::string::*;
use crate::ports::{
    extract, extract_ports, lemma_order_preserved, ports_tagged, AttrMeta, ConfigError, FieldDecl, MetaItem,
    PortRole, Ports, PortsModel,
};
use crate::shim::{host_text, native_text, render_host, render_native};
use crate::text::{is_word, lower_of, lowercase};

verus! {

/// A struct declaration of the scanned source file.
#[derive(Clone, Debug, PartialEq, Eq)]
pub struct StructDecl {
    pub name: String,
    pub public: bool,
    /// It has type or lifetime parameters, or a `where` clause.
    pub has_generics: bool,
    pub attrs: Vec<AttrMeta>,
    /// Its fields are named (`struct S { a: T }`), as opposed to a tuple or unit struct.
    pub named: bool,
    pub fields: Vec<FieldDecl>,
}

/// A generated file: its name inside the output directory and its text.
#[derive(Clone, Debug, PartialEq, Eq)]
pub struct Artifact {
    pub file_name: String,
    pub contents: String,
}

impl View for Artifact {
    type V = (Seq<char>, Seq<char>);

    open spec fn view(&self) -> (Seq<char>, Seq<char>) {
        (self.file_name@, self.contents@)
    }
}

/// The first bare word among attribute arguments.
pub open spec fn first_word(items: Seq<MetaItem>) -> Option<Seq<char>>
    decreases items.len(),
{
    if items.len() == 0 {
        None
    } else {
        match items[0] {
            MetaItem::Word(w) => Some(w@),
            MetaItem::Other => first_word(items.skip(1)),
        }
    }
}

/// The native model name that attribute `a` declares for the struct named
/// `ty`: `#[module(name)]` names it, `#[module]` defaults to the lower-cased
/// struct name; other attributes declare none.
pub open spec fn module_attr_name(a: AttrMeta, ty: Seq<char>) -> Option<Seq<char>> {
    match a {
        AttrMeta::Word(n) => if n@ == "module"@ {
            Some(lower_of(ty))
        } else {
            None
        },
        AttrMeta::List(n, items) => if n@ != "module"@ {
            None
        } else {
            match first_word(items@) {
                Some(w) => Some(w),
                None => Some(lower_of(ty)),
            }
        },
        AttrMeta::Other => None,
    }
}

/// The native names that a struct's attributes declare, in order.
pub open spec fn module_names(attrs: Seq<AttrMeta>, ty: Seq<char>) -> Seq<Seq<char>>
    decreases attrs.len(),
{
    if attrs.len() == 0 {
        Seq::empty()
    } else {
        let prev = module_names(attrs.drop_last(), ty);
        match module_attr_name(attrs.last(), ty) {
            Some(n) => prev.push(n),
            None => prev,
        }
    }
}

/// The two files of one module: `<rs>.rs` and `<c>.cpp`.
pub open spec fn module_files(c: Seq<char>, rs: Seq<char>, ps: PortsModel) -> Seq<(Seq<char>, Seq<char>)> {
    seq![(rs + ".rs"@, host_text(c, rs, ps)), (c + ".cpp"@, native_text(c, ps))]
}

/// The files of a struct for each native name it declares, in order.
pub open spec fn files_for_names(names: Seq<Seq<char>>, rs: Seq<char>, ps: PortsModel) -> Seq<(Seq<char>, Seq<char>)>
    decreases names.len(),
{
    if names.len() == 0 {
        Seq::empty()
    } else {
        files_for_names(names.drop_last(), rs, ps) + module_files(names.last(), rs, ps)
    }
}

/// The files one struct yields. Private structs and structs without a
/// `module` attribute yield none; a module struct must be non-generic, with
/// named fields whose ports extract cleanly.
pub open spec fn struct_files(s: StructDecl) -> Result<Seq<(Seq<char>, Seq<char>)>, ConfigError> {
    let names = module_names(s.attrs@, s.name@);
    if !s.public || names.len() == 0 {
        Ok(Seq::empty())
    } else if s.has_generics {
        Err(ConfigError::GenericStruct(s.name))
    } else if !s.named {
        Err(ConfigError::TupleStruct(s.name))
    } else {
        match extract(s.fields@) {
            Err(e) => Err(e),
            Ok(ps) => Ok(files_for_names(names, s.name@, ps)),
        }
    }
}

/// The files of a whole source file, struct by struct; the first error
/// aborts the pass.
pub open spec fn generated(structs: Seq<StructDecl>) -> Result<Seq<(Seq<char>, Seq<char>)>, ConfigError>
    decreases structs.len(),
{
    if structs.len() == 0 {
        Ok(Seq::empty())
    } else {
        match generated(structs.drop_last()) {
            Err(e) => Err(e),
            Ok(prev) => match struct_files(structs.last()) {
                Err(e) => Err(e),
                Ok(fs) => Ok(prev + fs),
            },
        }
    }
}

fn first_word_exec(items: &Vec<MetaItem>) -> (r: Option<&String>)
    ensures
        r matches Some(w) ==> first_word(items@) == Some(w@),
        r is None ==> first_word(items@) is None,
{
    let mut i: usize = 0;
    assert(items@.skip(0) =~= items@);
    while i < items.len()
        invariant
            0 <= i <= items.len(),
            first_word(items@) == first_word(items@.skip(i as int)),
        decreases items.len() - i,
    {
        assert(items@.skip(i as int).skip(1) =~= items@.skip(i + 1));
        match &items[i] {
            MetaItem::Word(w) => {
                return Some(w);
            },
            MetaItem::Other => {},
        }
        i = i + 1;
    }
    None
}

/// The native model name an attribute declares for the struct named `ty`,
/// if it is a `module` attribute.
pub fn find_module_attr(a: &AttrMeta, ty: &String) -> (r: Option<String>)
    ensures
        r matches Some(n) ==> module_attr_name(*a, ty@) == Some(n@),
        r is None ==> module_attr_name(*a, ty@) is None,
{
    match a {
        AttrMeta::Word(n) => {
            if is_word(n, "module") {
                Some(lowercase(ty.as_str()))
            } else {
                None
            }
        },
        AttrMeta::List(n, items) => {
            if !is_word(n, "module") {
                None
            } else {
                match first_word_exec(items) {
                    Some(w) => Some(w.clone()),
                    None => Some(lowercase(ty.as_str())),
                }
            }
        },
        AttrMeta::Other => None,
    }
}

fn find_module_names(attrs: &Vec<AttrMeta>, ty: &String) -> (r: Vec<String>)
    ensures
        r@.map_values(|n: String| n@) == module_names(attrs@, ty@),
{
    let mut names: Vec<String> = Vec::new();
    let mut i: usize = 0;
    assert(attrs@.subrange(0, 0) =~= Seq::<AttrMeta>::empty());
    assert(names@.map_values(|n: String| n@) =~= Seq::<Seq<char>>::empty());
    while i < attrs.len()
        invariant
            0 <= i <= attrs.len(),
            names@.map_values(|n: String| n@) == module_names(attrs@.subrange(0, i as int), ty@),
        decreases attrs.len() - i,
    {
        assert(attrs@.subrange(0, i + 1).drop_last() =~= attrs@.subrange(0, i as int));
        match find_module_attr(&attrs[i], ty) {
            Some(n) => {
                let ghost before = names@;
                names.push(n);
                assert(names@.map_values(|n: String| n@) =~= before.map_values(|n: String| n@).push(n@));
            },
            None => {},
        }
        i = i + 1;
    }
    assert(attrs@.subrange(0, attrs.len() as int) =~= attrs@);
    names
}

/// Renders the files of every module struct in a source file, or reports the
/// first misconfigured one; on error nothing is to be written.
pub fn generate_files(structs: &Vec<StructDecl>) -> (r: Result<Vec<Artifact>, ConfigError>)
    ensures
        r matches Ok(v) ==> generated(structs@) == Ok::<Seq<(Seq<char>, Seq<char>)>, ConfigError>(
            v@.map_values(|a: Artifact| a@),
        ),
        r matches Err(e) ==> generated(structs@) == Err::<Seq<(Seq<char>, Seq<char>)>, ConfigError>(e),
{
    let mut out: Vec<Artifact> = Vec::new();
    let mut i: usize = 0;
    assert(structs@.subrange(0, 0) =~= Seq::<StructDecl>::empty());
    assert(out@.map_values(|a: Artifact| a@) =~= Seq::<(Seq<char>, Seq<char>)>::empty());
    while i < structs.len()
        invariant
            0 <= i <= structs.len(),
            generated(structs@.subrange(0, i as int)) == Ok::<Seq<(Seq<char>, Seq<char>)>, ConfigError>(
                out@.map_values(|a: Artifact| a@),
            ),
        decreases structs.len() - i,
    {
        assert(structs@.subrange(0, i + 1).drop_last() =~= structs@.subrange(0, i as int));
        let s = &structs[i];
        match struct_artifacts(s) {
            Err(e) => {
                proof {
                    lemma_generated_err_sticky(structs@, i as int + 1);
                }
                return Err(e);
            },
            Ok(fs) => {
                let ghost before = out@;
                let ghost added = fs@;
                let mut fs = fs;
                out.append(&mut fs);
                assert(out@.map_values(|a: Artifact| a@) =~= before.map_values(|a: Artifact| a@)
                    + added.map_values(|a: Artifact| a@));
            },
        }
        i = i + 1;
    }
    assert(structs@.subrange(0, structs.len() as int) =~= structs@);
    Ok(out)
}

/// Once a prefix of the structs fails, the whole pass fails the same way.
proof fn lemma_generated_err_sticky(structs: Seq<StructDecl>, k: int)
    requires
        0 <= k <= structs.len(),
        generated(structs.subrange(0, k)) is Err,
    ensures
        generated(structs) == generated(structs.subrange(0, k)),
    decreases structs.len() - k,
{
    if k == structs.len() {
        assert(structs.subrange(0, k) =~= structs);
    } else {
        assert(structs.subrange(0, k + 1).drop_last() =~= structs.subrange(0, k));
        lemma_generated_err_sticky(structs, k + 1);
    }
}

/// The host file and the shim of native model `c` wrapped as `rs`.
fn module_artifacts(c: &str, rs: &str, ports: &Ports) -> (r: Vec<Artifact>)
    ensures
        r@.map_values(|a: Artifact| a@) == module_files(c@, rs@, ports@),
{
    let mut rs_file = String::from_str(rs);
    rs_file.append(".rs");
    let mut cpp_file = String::from_str(c);
    cpp_file.append(".cpp");
    let host = render_host(c, rs, ports);
    let native = render_native(c, ports);
    let mut out: Vec<Artifact> = Vec::new();
    out.push(Artifact { file_name: rs_file, contents: host });
    out.push(Artifact { file_name: cpp_file, contents: native });
    assert(out@.map_values(|a: Artifact| a@) =~= module_files(c@, rs@, ports@));
    out
}

/// The files of one struct.
fn struct_artifacts(s: &StructDecl) -> (r: Result<Vec<Artifact>, ConfigError>)
    ensures
        r matches Ok(v) ==> struct_files(*s) == Ok::<Seq<(Seq<char>, Seq<char>)>, ConfigError>(
            v@.map_values(|a: Artifact| a@),
        ),
        r matches Err(e) ==> struct_files(*s) == Err::<Seq<(Seq<char>, Seq<char>)>, ConfigError>(e),
{
    let names = find_module_names(&s.attrs, &s.name);
    let ghost nm = names@.map_values(|n: String| n@);
    assert(nm.len() == names.len());
    if !s.public || names.len() == 0 {
        let v: Vec<Artifact> = Vec::new();
        assert(v@.map_values(|a: Artifact| a@) =~= Seq::<(Seq<char>, Seq<char>)>::empty());
        return Ok(v);
    }
    if s.has_generics {
        return Err(ConfigError::GenericStruct(s.name.clone()));
    }
    if !s.named {
        return Err(ConfigError::TupleStruct(s.name.clone()));
    }
    let ports = match extract_ports(&s.fields) {
        Err(e) => {
            return Err(e);
        },
        Ok(ps) => ps,
    };
    let mut out: Vec<Artifact> = Vec::new();
    let mut j: usize = 0;
    assert(nm.subrange(0, 0) =~= Seq::<Seq<char>>::empty());
    assert(out@.map_values(|a: Artifact| a@) =~= Seq::<(Seq<char>, Seq<char>)>::empty());
    while j < names.len()
        invariant
            0 <= j <= names.len(),
            nm == names@.map_values(|n: String| n@),
            out@.map_values(|a: Artifact| a@) == files_for_names(nm.subrange(0, j as int), s.name@, ports@),
        decreases names.len() - j,
    {
        assert(nm.subrange(0, j + 1).drop_last() =~= nm.subrange(0, j as int));
        let ghost before = out@;
        let mut files = module_artifacts(names[j].as_str(), s.name.as_str(), &ports);
        let ghost added = files@;
        out.append(&mut files);
        assert(out@.map_values(|a: Artifact| a@) =~= before.map_values(|a: Artifact| a@)
            + added.map_values(|a: Artifact| a@));
        j = j + 1;
    }
    assert(nm.subrange(0, names.len() as int) =~= nm);
    Ok(out)
}

/// Generation is deterministic: the same declarations always give the same
/// files, byte for byte, or the same error.
pub proof fn lemma_generation_deterministic(a: Seq<StructDecl>, b: Seq<StructDecl>)
    requires
        a == b,
    ensures
        generated(a) == generated(b),
{
}

/// Accessors are emitted in source declaration order: the files of a module
/// struct are rendered from inputs, outputs and inouts that are exactly its
/// public fields tagged so, in the order they are declared.
pub proof fn lemma_emission_order(s: StructDecl)
    requires
        s.public,
        !s.has_generics,
        s.named,
        module_names(s.attrs@, s.name@).len() > 0,
        struct_files(s) is Ok,
    ensures
        extract(s.fields@) is Ok,
        struct_files(s)->Ok_0 == files_for_names(
            module_names(s.attrs@, s.name@),
            s.name@,
            PortsModel {
                inputs: ports_tagged(s.fields@, PortRole::Input),
                outputs: ports_tagged(s.fields@, PortRole::Output),
                inouts: ports_tagged(s.fields@, PortRole::InOut),
                ..extract(s.fields@)->Ok_0
            },
        ),
{
    lemma_order_preserved(s.fields@);
    let ps = extract(s.fields@)->Ok_0;
    assert(ps == PortsModel {
        inputs: ports_tagged(s.fields@, PortRole::Input),
        outputs: ports_tagged(s.fields@, PortRole::Output),
        inouts: ports_tagged(s.fields@, PortRole::InOut),
        ..ps
    });
}

/// Builder for a generation pass over one source file.
pub struct ModuleGenerator {
    out_dir: Option<String>,
    target: Option<String>,
}

/// Mathematical view of [`ModuleGenerator`]: the configured output directory
/// and target.
pub struct ModuleGeneratorView {
    pub out_dir: Option<Seq<char>>,
    pub target: Option<Seq<char>>,
}

pub open spec fn opt_view(o: Option<String>) -> Option<Seq<char>> {
    match o {
        Some(s) => Some(s@),
        None => None,
    }
}

impl View for ModuleGenerator {
    type V = ModuleGeneratorView;

    closed spec fn view(&self) -> ModuleGeneratorView {
        ModuleGeneratorView { out_dir: opt_view(self.out_dir), target: opt_view(self.target) }
    }
}

impl ModuleGenerator {
    /// A generator with no output directory and no target configured.
    pub fn new() -> (r: ModuleGenerator)
        ensures
            r@.out_dir is None,
            r@.target is None,
    {
        ModuleGenerator { out_dir: None, target: None }
    }

    /// Sets the directory the generated files go to; without it they go to
    /// the build's `OUT_DIR`.
    pub fn out_dir(&mut self, p: &str) -> (r: &mut ModuleGenerator)
        ensures
            r@ == (ModuleGeneratorView { out_dir: Some(p@), ..old(self)@ }),
            final(self)@ == final(r)@,
    {
        self.out_dir = Some(String::from_str(p));
        self
    }

    /// Records the target triple the generated code is meant for.
    pub fn target(&mut self, target: &str) -> (r: &mut ModuleGenerator)
        ensures
            r@ == (ModuleGeneratorView { target: Some(target@), ..old(self)@ }),
            final(self)@ == final(r)@,
    {
        self.target = Some(String::from_str(target));
        self
    }

    /// The configured output directory, if any.
    pub fn configured_out_dir(&self) -> (r: Option<&String>)
        ensures
            r matches Some(d) ==> self@.out_dir == Some(d@),
            r is None ==> self@.out_dir is None,
    {
        match &self.out_dir {
            Some(d) => Some(d),
            None => None,
        }
    }

    /// Generates the host file and C++ shim of every module struct among the
    /// declarations of one source file, or reports the first misconfigured
    /// module; on error no file is to be written.
    pub fn generate(&self, structs: &Vec<StructDecl>) -> (r: Result<Vec<Artifact>, ConfigError>)
        ensures
            r matches Ok(v) ==> generated(structs@) == Ok::<Seq<(Seq<char>, Seq<char>)>, ConfigError>(
                v@.map_values(|a: Artifact| a@),
            ),
            r matches Err(e) ==> generated(structs@) == Err::<Seq<(Seq<char>, Seq<char>)>, ConfigError>(e),
    {
        generate_files(structs)
    }
}

} // verus!

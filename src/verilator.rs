//! The command-line contract of the Verilator compiler: the builder that
//! collects sources and options, the arguments it is invoked with, and the
//! reading of its version banner.

use vstd::prelude::*;
use vstd::string::*;
use crate::text::push_char;

verus! {

/// Language standard a source file is written in.
#[derive(Clone, Copy, Debug, PartialEq, Eq, Structural)]
pub enum Standard {
    Verilog1995,
    Verilog2001,
    Verilog2005,
    SystemVerilog2005,
    SystemVerilog2009,
    SystemVerilog2012,
}

impl Standard {
    /// The language-extension flag stem for the standard.
    pub open spec fn spec_flag(self) -> Seq<char> {
        match self {
            Standard::Verilog1995 => "+1364-1995ext"@,
            Standard::Verilog2001 => "+1364-2001ext"@,
            Standard::Verilog2005 => "+1364-2005ext"@,
            Standard::SystemVerilog2005 => "+1800-2005ext"@,
            Standard::SystemVerilog2009 => "+1800-2009ext"@,
            Standard::SystemVerilog2012 => "+1800-2012ext"@,
        }
    }

    /// The language-extension flag stem for the standard.
    pub fn flag(&self) -> (r: &'static str)
        ensures
            r@ == self.spec_flag(),
    {
        match self {
            Standard::Verilog1995 => "+1364-1995ext",
            Standard::Verilog2001 => "+1364-2001ext",
            Standard::Verilog2005 => "+1364-2005ext",
            Standard::SystemVerilog2005 => "+1800-2005ext",
            Standard::SystemVerilog2009 => "+1800-2009ext",
            Standard::SystemVerilog2012 => "+1800-2012ext",
        }
    }
}

/// ASCII lower-casing of one character.
pub open spec fn ascii_lower(c: char) -> char {
    if 'A' <= c && c <= 'Z' {
        ((c as u32) + 32) as char
    } else {
        c
    }
}

/// ASCII lower-casing of a text, as `str::to_ascii_lowercase` does it.
pub fn to_ascii_lower(s: &str) -> (r: String)
    ensures
        r@ == s@.map_values(|c: char| ascii_lower(c)),
{
    let len = s.unicode_len();
    let mut r = String::new();
    let mut i: usize = 0;
    while i < len
        invariant
            len == s@.len(),
            0 <= i <= len,
            r@ == s@.subrange(0, i as int).map_values(|c: char| ascii_lower(c)),
        decreases len - i,
    {
        let c = s.get_char(i);
        let l = if 'A' <= c && c <= 'Z' {
            ((c as u8) + 32) as char
        } else {
            c
        };
        assert(l == ascii_lower(c));
        push_char(&mut r, l);
        assert(s@.subrange(0, i + 1).map_values(|c: char| ascii_lower(c)) =~= s@.subrange(
            0,
            i as int,
        ).map_values(|c: char| ascii_lower(c)).push(ascii_lower(c)));
        i = i + 1;
    }
    assert(s@.subrange(0, len as int) =~= s@);
    r
}

/// A source file handed to the compiler and its language standard, if stated.
pub struct SourceFile {
    pub path: String,
    pub standard: Option<Standard>,
}

/// Builder for one run of the Verilator compiler.
pub struct Verilator {
    out_dir: Option<String>,
    root: Option<String>,
    files: Vec<SourceFile>,
    module_directories: Vec<String>,
    coverage: bool,
    trace: bool,
    optimized: bool,
    suppress_warnings: Vec<String>,
}

/// Mathematical view of [`Verilator`].
pub struct VerilatorView {
    pub out_dir: Option<Seq<char>>,
    pub root: Option<Seq<char>>,
    pub files: Seq<(Seq<char>, Option<Standard>)>,
    pub module_directories: Seq<Seq<char>>,
    pub coverage: bool,
    pub trace: bool,
    pub optimized: bool,
    pub suppress_warnings: Seq<Seq<char>>,
}

pub open spec fn opt_str_view(o: Option<String>) -> Option<Seq<char>> {
    match o {
        Some(s) => Some(s@),
        None => None,
    }
}

pub open spec fn strings_view(v: Seq<String>) -> Seq<Seq<char>> {
    v.map_values(|s: String| s@)
}

pub open spec fn files_view(v: Seq<SourceFile>) -> Seq<(Seq<char>, Option<Standard>)> {
    v.map_values(|f: SourceFile| (f.path@, f.standard))
}

impl View for Verilator {
    type V = VerilatorView;

    closed spec fn view(&self) -> VerilatorView {
        VerilatorView {
            out_dir: opt_str_view(self.out_dir),
            root: opt_str_view(self.root),
            files: files_view(self.files@),
            module_directories: strings_view(self.module_directories@),
            coverage: self.coverage,
            trace: self.trace,
            optimized: self.optimized,
            suppress_warnings: strings_view(self.suppress_warnings@),
        }
    }
}

fn push_string(v: &mut Vec<String>, s: String)
    ensures
        strings_view(final(v)@) == strings_view(old(v)@).push(s@),
{
    v.push(s);
    assert(strings_view(v@) =~= strings_view(old(v)@).push(s@));
}

impl Verilator {
    /// A builder with no sources, no options and nothing suppressed.
    pub fn new() -> (r: Verilator)
        ensures
            r@.out_dir is None,
            r@.root is None,
            r@.files.len() == 0,
            r@.module_directories.len() == 0,
            !r@.coverage && !r@.trace && !r@.optimized,
            r@.suppress_warnings.len() == 0,
    {
        let r = Verilator {
            out_dir: None,
            root: None,
            files: Vec::new(),
            module_directories: Vec::new(),
            coverage: false,
            trace: false,
            optimized: false,
            suppress_warnings: Vec::new(),
        };
        assert(r@.files =~= Seq::<(Seq<char>, Option<Standard>)>::empty());
        assert(r@.module_directories =~= Seq::<Seq<char>>::empty());
        assert(r@.suppress_warnings =~= Seq::<Seq<char>>::empty());
        r
    }

    /// Sets the directory the compiler writes into.
    pub fn out_dir(&mut self, out: &str) -> (r: &mut Verilator)
        ensures
            r@ == (VerilatorView { out_dir: Some(out@), ..old(self)@ }),
            final(self)@ == final(r)@,
    {
        self.out_dir = Some(String::from_str(out));
        self
    }

    /// Sets the Verilator installation root.
    pub fn root(&mut self, root: &str) -> (r: &mut Verilator)
        ensures
            r@ == (VerilatorView { root: Some(root@), ..old(self)@ }),
            final(self)@ == final(r)@,
    {
        self.root = Some(String::from_str(root));
        self
    }

    fn add_file(&mut self, p: &str, s: Option<Standard>) -> (r: &mut Verilator)
        ensures
            r@ == (VerilatorView { files: old(self)@.files.push((p@, s)), ..old(self)@ }),
            final(self)@ == final(r)@,
    {
        self.files.push(SourceFile { path: String::from_str(p), standard: s });
        assert(files_view(self.files@) =~= files_view(old(self).files@).push((p@, s)));
        self
    }

    /// Adds a source file in the default language standard.
    pub fn file(&mut self, p: &str) -> (r: &mut Verilator)
        ensures
            r@ == (VerilatorView { files: old(self)@.files.push((p@, None)), ..old(self)@ }),
            final(self)@ == final(r)@,
    {
        self.add_file(p, None)
    }

    /// Adds a source file written in standard `s`.
    pub fn file_with_standard(&mut self, p: &str, s: Standard) -> (r: &mut Verilator)
        ensures
            r@ == (VerilatorView { files: old(self)@.files.push((p@, Some(s))), ..old(self)@ }),
            final(self)@ == final(r)@,
    {
        self.add_file(p, Some(s))
    }

    /// Adds several source files in the default standard, in order.
    pub fn files(&mut self, ps: &Vec<String>) -> (r: &mut Verilator)
        ensures
            r@ == (VerilatorView {
                files: old(self)@.files + strings_view(ps@).map_values(|p: Seq<char>| (p, None::<Standard>)),
                ..old(self)@
            }),
            final(self)@ == final(r)@,
    {
        let mut i: usize = 0;
        while i < ps.len()
            invariant
                0 <= i <= ps.len(),
                self@ == (VerilatorView {
                    files: old(self)@.files + strings_view(ps@.subrange(0, i as int)).map_values(
                        |p: Seq<char>| (p, None::<Standard>),
                    ),
                    ..old(self)@
                }),
            decreases ps.len() - i,
        {
            let ghost before = self.files@;
            let p = ps[i].clone();
            self.files.push(SourceFile { path: p, standard: None });
            assert(files_view(self.files@) =~= files_view(before).push((ps@[i as int]@, None)));
            assert(strings_view(ps@.subrange(0, i + 1)) =~= strings_view(ps@.subrange(0, i as int)).push(
                ps@[i as int]@,
            ));
            assert(files_view(self.files@) =~= old(self)@.files + strings_view(
                ps@.subrange(0, i + 1),
            ).map_values(|p: Seq<char>| (p, None::<Standard>)));
            i = i + 1;
        }
        assert(ps@.subrange(0, ps.len() as int) =~= ps@);
        self
    }

    /// Adds a directory searched for modules (`-y`).
    pub fn module(&mut self, dir: &str) -> (r: &mut Verilator)
        ensures
            r@ == (VerilatorView {
                module_directories: old(self)@.module_directories.push(dir@),
                ..old(self)@
            }),
            final(self)@ == final(r)@,
    {
        push_string(&mut self.module_directories, String::from_str(dir));
        self
    }

    /// Turns coverage instrumentation on or off.
    pub fn with_coverage(&mut self, t: bool) -> (r: &mut Verilator)
        ensures
            r@ == (VerilatorView { coverage: t, ..old(self)@ }),
            final(self)@ == final(r)@,
    {
        self.coverage = t;
        self
    }

    /// Turns waveform tracing support on or off.
    pub fn with_trace(&mut self, t: bool) -> (r: &mut Verilator)
        ensures
            r@ == (VerilatorView { trace: t, ..old(self)@ }),
            final(self)@ == final(r)@,
    {
        self.trace = t;
        self
    }

    /// Turns the compiler's `-O3` optimizations on or off.
    pub fn with_performance_optimizations(&mut self, t: bool) -> (r: &mut Verilator)
        ensures
            r@ == (VerilatorView { optimized: t, ..old(self)@ }),
            final(self)@ == final(r)@,
    {
        self.optimized = t;
        self
    }

    /// With `false`, suppresses width warnings; `true` changes nothing.
    pub fn warn_width(&mut self, t: bool) -> (r: &mut Verilator)
        ensures
            r@ == (VerilatorView {
                suppress_warnings: if t {
                    old(self)@.suppress_warnings
                } else {
                    old(self)@.suppress_warnings.push("width"@)
                },
                ..old(self)@
            }),
            final(self)@ == final(r)@,
    {
        if !t {
            push_string(&mut self.suppress_warnings, String::from_str("width"));
        }
        self
    }

    /// Suppresses a warning, named in any case.
    pub fn no_warn(&mut self, warning: &str) -> (r: &mut Verilator)
        ensures
            r@ == (VerilatorView {
                suppress_warnings: old(self)@.suppress_warnings.push(
                    warning@.map_values(|c: char| ascii_lower(c)),
                ),
                ..old(self)@
            }),
            final(self)@ == final(r)@,
    {
        push_string(&mut self.suppress_warnings, to_ascii_lower(warning));
        self
    }

    /// The configured output directory, if any.
    pub fn configured_out_dir(&self) -> (r: Option<&String>)
        ensures
            r matches Some(d) ==> self@.out_dir == Some(d@),
            r is None ==> self@.out_dir is None,
    {
        match &self.out_dir {
            Some(d) => Some(d),
            None => None,
        }
    }

    /// The configured installation root, if any.
    pub fn configured_root(&self) -> (r: Option<&String>)
        ensures
            r matches Some(d) ==> self@.root == Some(d@),
            r is None ==> self@.root is None,
    {
        match &self.root {
            Some(d) => Some(d),
            None => None,
        }
    }

    /// The source files, in the order added.
    pub fn source_files(&self) -> (r: &Vec<SourceFile>)
        ensures
            files_view(r@) == self@.files,
    {
        &self.files
    }
}

/// A source file as found on disk: its canonical path, and the extension of
/// the path it was given under, if it has one.
pub struct ResolvedFile {
    pub path: String,
    pub extension: Option<String>,
}

pub open spec fn resolved_view(v: Seq<ResolvedFile>) -> Seq<(Seq<char>, Option<Seq<char>>)> {
    v.map_values(|f: ResolvedFile| (f.path@, opt_str_view(f.extension)))
}

/// Name of the library the compiler creates for top module `top`.
pub open spec fn spec_lib_name(top: Seq<char>) -> Seq<char> {
    "_"@ + top
}

/// Arguments that select the output directory, the top module and the library.
pub open spec fn base_args(top: Seq<char>, dst: Seq<char>) -> Seq<Seq<char>> {
    seq!["--cc"@, "-Mdir"@, dst, "--top-module"@, top, "--lib-create"@, spec_lib_name(top)]
}

/// Arguments for the coverage, trace and optimization switches.
pub open spec fn option_args(coverage: bool, trace: bool, optimized: bool) -> Seq<Seq<char>> {
    (if coverage { seq!["--coverage"@] } else { Seq::empty() })
        + (if trace { seq!["--trace"@] } else { Seq::empty() })
        + (if optimized { seq!["-O3"@] } else { Seq::empty() })
}

/// One `-Wno-<name>` argument per suppressed warning, in order.
pub open spec fn warning_args(ws: Seq<Seq<char>>) -> Seq<Seq<char>>
    decreases ws.len(),
{
    if ws.len() == 0 {
        Seq::empty()
    } else {
        warning_args(ws.drop_last()).push("-Wno-"@ + ws.last())
    }
}

/// One `-y <dir>` pair per module directory, in order.
pub open spec fn dir_args(ds: Seq<Seq<char>>) -> Seq<Seq<char>>
    decreases ds.len(),
{
    if ds.len() == 0 {
        Seq::empty()
    } else {
        dir_args(ds.drop_last()) + seq!["-y"@, ds.last()]
    }
}

/// The arguments of one source file: the standard flag with the file's
/// extension when both are known, then the canonical path.
pub open spec fn one_file_args(s: Option<Standard>, f: (Seq<char>, Option<Seq<char>>)) -> Seq<Seq<char>> {
    match (s, f.1) {
        (Some(st), Some(ext)) => seq![st.spec_flag() + "+"@ + ext, f.0],
        _ => seq![f.0],
    }
}

/// The arguments of the first `n` source files.
pub open spec fn file_args(
    files: Seq<(Seq<char>, Option<Standard>)>,
    res: Seq<(Seq<char>, Option<Seq<char>>)>,
    n: nat,
) -> Seq<Seq<char>>
    decreases n,
{
    if n == 0 {
        Seq::empty()
    } else {
        file_args(files, res, (n - 1) as nat) + one_file_args(files[n - 1].1, res[n - 1])
    }
}

/// The whole argument list of a compiler run for top module `top` into `dst`.
pub open spec fn command_args_spec(
    v: VerilatorView,
    top: Seq<char>,
    dst: Seq<char>,
    res: Seq<(Seq<char>, Option<Seq<char>>)>,
) -> Seq<Seq<char>> {
    base_args(top, dst) + option_args(v.coverage, v.trace, v.optimized) + warning_args(
        v.suppress_warnings,
    ) + dir_args(v.module_directories) + file_args(v.files, res, v.files.len())
}

fn push_str(v: &mut Vec<String>, s: &str)
    ensures
        strings_view(final(v)@) == strings_view(old(v)@).push(s@),
{
    push_string(v, String::from_str(s));
}

fn concat(a: &str, b: &str) -> (r: String)
    ensures
        r@ == a@ + b@,
{
    let mut r = String::from_str(a);
    r.append(b);
    r
}

/// Name of the library the compiler creates for top module `top`.
pub fn lib_name(top: &str) -> (r: String)
    ensures
        r@ == spec_lib_name(top@),
{
    concat("_", top)
}

/// Arguments of the `make` run that builds the compiler's output for `top`:
/// `-f V<top>.mk`.
pub fn make_args(top: &str) -> (r: Vec<String>)
    ensures
        strings_view(r@) == seq!["-f"@, "V"@ + top@ + ".mk"@],
{
    let mut r: Vec<String> = Vec::new();
    push_str(&mut r, "-f");
    let mut mk = concat("V", top);
    mk.append(".mk");
    push_string(&mut r, mk);
    assert(strings_view(r@) =~= seq!["-f"@, "V"@ + top@ + ".mk"@]);
    r
}

impl Verilator {
    /// The arguments the compiler is run with for top module `top`, writing
    /// into `dst`; `resolved` gives, for each source file in order, its
    /// canonical path and extension.
    pub fn command_args(&self, top: &str, dst: &str, resolved: &Vec<ResolvedFile>) -> (r: Vec<String>)
        requires
            resolved@.len() == self@.files.len(),
        ensures
            strings_view(r@) == command_args_spec(self@, top@, dst@, resolved_view(resolved@)),
    {
        let mut r: Vec<String> = Vec::new();
        push_str(&mut r, "--cc");
        push_str(&mut r, "-Mdir");
        push_str(&mut r, dst);
        push_str(&mut r, "--top-module");
        push_str(&mut r, top);
        push_str(&mut r, "--lib-create");
        push_string(&mut r, lib_name(top));
        assert(strings_view(r@) =~= base_args(top@, dst@));
        let ghost after_base = strings_view(r@);
        if self.coverage {
            push_str(&mut r, "--coverage");
        }
        if self.trace {
            push_str(&mut r, "--trace");
        }
        if self.optimized {
            push_str(&mut r, "-O3");
        }
        assert(strings_view(r@) =~= after_base + option_args(self.coverage, self.trace, self.optimized));
        let ghost prefix = strings_view(r@);
        let ghost ws = strings_view(self.suppress_warnings@);
        let mut i: usize = 0;
        assert(ws.subrange(0, 0) =~= Seq::<Seq<char>>::empty());
        assert(strings_view(r@) =~= prefix + warning_args(ws.subrange(0, 0)));
        while i < self.suppress_warnings.len()
            invariant
                0 <= i <= self.suppress_warnings.len(),
                ws == strings_view(self.suppress_warnings@),
                strings_view(r@) == prefix + warning_args(ws.subrange(0, i as int)),
            decreases self.suppress_warnings.len() - i,
        {
            assert(ws.subrange(0, i + 1).drop_last() =~= ws.subrange(0, i as int));
            push_string(&mut r, concat("-Wno-", self.suppress_warnings[i].as_str()));
            i = i + 1;
            assert(strings_view(r@) =~= prefix + warning_args(ws.subrange(0, i as int)));
        }
        assert(ws.subrange(0, ws.len() as int) =~= ws);
        let ghost prefix = strings_view(r@);
        let ghost ds = strings_view(self.module_directories@);
        let mut i: usize = 0;
        assert(ds.subrange(0, 0) =~= Seq::<Seq<char>>::empty());
        assert(strings_view(r@) =~= prefix + dir_args(ds.subrange(0, 0)));
        while i < self.module_directories.len()
            invariant
                0 <= i <= self.module_directories.len(),
                ds == strings_view(self.module_directories@),
                strings_view(r@) == prefix + dir_args(ds.subrange(0, i as int)),
            decreases self.module_directories.len() - i,
        {
            assert(ds.subrange(0, i + 1).drop_last() =~= ds.subrange(0, i as int));
            push_str(&mut r, "-y");
            push_string(&mut r, self.module_directories[i].clone());
            i = i + 1;
            assert(strings_view(r@) =~= prefix + dir_args(ds.subrange(0, i as int)));
        }
        assert(ds.subrange(0, ds.len() as int) =~= ds);
        let ghost prefix = strings_view(r@);
        let ghost fs = files_view(self.files@);
        let ghost rs = resolved_view(resolved@);
        let mut i: usize = 0;
        assert(strings_view(r@) =~= prefix + file_args(fs, rs, 0));
        while i < self.files.len()
            invariant
                0 <= i <= self.files.len(),
                resolved@.len() == self.files@.len(),
                fs == files_view(self.files@),
                rs == resolved_view(resolved@),
                strings_view(r@) == prefix + file_args(fs, rs, i as nat),
            decreases self.files.len() - i,
        {
            let ghost before = strings_view(r@);
            let f = &resolved[i];
            match (self.files[i].standard, &f.extension) {
                (Some(st), Some(ext)) => {
                    let mut flag = concat(st.flag(), "+");
                    flag.append(ext.as_str());
                    push_string(&mut r, flag);
                },
                _ => {},
            }
            push_string(&mut r, f.path.clone());
            assert(strings_view(r@) =~= before + one_file_args(fs[i as int].1, rs[i as int]));
            i = i + 1;
            assert(strings_view(r@) =~= prefix + file_args(fs, rs, i as nat));
        }
        assert(strings_view(r@) =~= command_args_spec(self@, top@, dst@, resolved_view(resolved@)));
        r
    }
}

/// The pattern of the compiler's version banner: one major digit, any
/// separator, three minor digits.
pub const VERSION_PATTERN: &'static str = "^Verilator (\\d{1}).(\\d{3})";

/// The texts of the first two capture groups of the leftmost match of
/// regular expression `pattern` in `s`, when there is a match and both
/// groups took part in it.
pub uninterp spec fn regex_groups(pattern: Seq<char>, s: Seq<char>) -> Option<(Seq<char>, Seq<char>)>;

/// Relies on `regex::Regex::new`, `regex::Regex::captures` and
/// `regex::Captures::get`: the first two groups of the leftmost match.
#[verifier::external_body]
fn first_two_groups(pattern: &str, s: &str) -> (r: Option<(String, String)>)
    ensures
        r matches Some(g) ==> regex_groups(pattern@, s@) == Some((g.0@, g.1@)),
        r is None ==> regex_groups(pattern@, s@) is None,
{
    let re = regex::Regex::new(pattern).ok()?;
    let caps = re.captures(s)?;
    Some((caps.get(1)?.as_str().to_string(), caps.get(2)?.as_str().to_string()))
}

/// Value of a sequence of decimal digits.
pub open spec fn digits_value(s: Seq<char>) -> int
    decreases s.len(),
{
    if s.len() == 0 {
        0
    } else {
        digits_value(s.drop_last()) * 10 + (s.last() as int - '0' as int)
    }
}

/// A text without its leading `+`, if it has one.
pub open spec fn unsigned_part(s: Seq<char>) -> Seq<char> {
    if s.len() > 0 && s[0] == '+' {
        s.skip(1)
    } else {
        s
    }
}

/// Whether every character is an ASCII digit.
pub open spec fn all_digits(t: Seq<char>) -> bool {
    forall|i: int| 0 <= i < t.len() ==> '0' <= #[trigger] t[i] <= '9'
}

/// The `u32` that `str::parse` reads from a text: an optional `+`, then one
/// or more ASCII digits whose value fits.
pub open spec fn u32_of(s: Seq<char>) -> Option<u32> {
    let d = unsigned_part(s);
    if d.len() > 0 && all_digits(d) && digits_value(d) <= u32::MAX {
        Some(digits_value(d) as u32)
    } else {
        None
    }
}

/// Digits never have a negative value.
proof fn lemma_digits_nonneg(s: Seq<char>)
    requires
        forall|i: int| 0 <= i < s.len() ==> '0' <= #[trigger] s[i] <= '9',
    ensures
        digits_value(s) >= 0,
    decreases s.len(),
{
    if s.len() > 0 {
        lemma_digits_nonneg(s.drop_last());
    }
}

/// Appending digits never lowers the value.
proof fn lemma_digits_prefix(s: Seq<char>, k: int)
    requires
        0 <= k <= s.len(),
        all_digits(s),
    ensures
        digits_value(s.subrange(0, k)) <= digits_value(s),
    decreases s.len() - k,
{
    if k == s.len() {
        assert(s.subrange(0, k) =~= s);
    } else {
        let t = s.drop_last();
        lemma_digits_prefix(t, k);
        lemma_digits_nonneg(t);
        assert(t.subrange(0, k) =~= s.subrange(0, k));
    }
}

/// Reads a `u32` the way `str::parse::<u32>` does: an optional `+`, then one
/// or more ASCII digits whose value fits.
pub fn parse_u32(s: &str) -> (r: Option<u32>)
    ensures
        r == u32_of(s@),
{
    let len = s.unicode_len();
    let start: usize = if len > 0 && s.get_char(0) == '+' { 1 } else { 0 };
    let ghost d = unsigned_part(s@);
    assert(d =~= s@.subrange(start as int, len as int));
    if start == len {
        return None;
    }
    let mut value: u64 = 0;
    let mut i: usize = start;
    assert(s@.subrange(start as int, start as int) =~= Seq::<char>::empty());
    while i < len
        invariant
            len == s@.len(),
            start < len,
            start <= i <= len,
            d == s@.subrange(start as int, len as int),
            d == unsigned_part(s@),
            forall|j: int| start <= j < i ==> '0' <= #[trigger] s@[j] <= '9',
            value == digits_value(s@.subrange(start as int, i as int)),
            value <= u32::MAX,
        decreases len - i,
    {
        let c = s.get_char(i);
        assert(d[i - start] == c);
        if !('0' <= c && c <= '9') {
            assert(!('0' <= d[i - start] <= '9'));
            assert(!all_digits(d));
            return None;
        }
        let digit = (c as u32 - '0' as u32) as u64;
        let next = value * 10 + digit;
        assert(s@.subrange(start as int, i + 1).drop_last() =~= s@.subrange(start as int, i as int));
        assert(next == digits_value(s@.subrange(start as int, i + 1)));
        if next > u32::MAX as u64 {
            proof {
                if all_digits(d) {
                    lemma_digits_prefix(d, i + 1 - start);
                    assert(d.subrange(0, i + 1 - start) =~= s@.subrange(start as int, i + 1));
                    assert(digits_value(d) > u32::MAX);
                }
                assert(u32_of(s@) is None);
            }
            return None;
        }
        value = next;
        i = i + 1;
    }
    assert(s@.subrange(start as int, len as int) =~= d);
    assert forall|j: int| 0 <= j < d.len() implies '0' <= #[trigger] d[j] <= '9' by {
        assert(d[j] == s@[start + j]);
    }
    assert(all_digits(d));
    Some(value as u32)
}

/// The version that the captured major and minor digit groups give.
pub fn version_from_groups(major: &str, minor: &str) -> (r: Option<(u32, u32)>)
    ensures
        r == match (u32_of(major@), u32_of(minor@)) {
            (Some(a), Some(b)) => Some((a, b)),
            _ => None::<(u32, u32)>,
        },
{
    let a = parse_u32(major);
    let b = parse_u32(minor);
    match (a, b) {
        (Some(a), Some(b)) => Some((a, b)),
        _ => None,
    }
}

/// The `(major, minor)` version announced at the start of the compiler's
/// `--version` output, e.g. `Verilator 4.106 2020-12-02`.
pub fn parse_verilator_version(stdout: &str) -> (r: Option<(u32, u32)>)
    ensures
        r == match regex_groups(VERSION_PATTERN@, stdout@) {
            Some((a, b)) => match (u32_of(a), u32_of(b)) {
                (Some(x), Some(y)) => Some((x, y)),
                _ => None::<(u32, u32)>,
            },
            None => None,
        },
{
    match first_two_groups(VERSION_PATTERN, stdout) {
        Some((a, b)) => version_from_groups(a.as_str(), b.as_str()),
        None => None,
    }
}

} // verus!

//! Codes of the simulator's procedural interface (VPI) that the bindings
//! exchange with it, and the decoding of its time and error reports.

use vstd::prelude::*;

verus! {

/// Reason a VPI callback is called for.
#[derive(Clone, Copy, Debug, PartialEq, Eq, Structural)]
pub enum Reason {
    ValueChange,
    Stmt,
    Force,
    Release,
    AtStartOfSimTime,
    ReadWriteSynch,
    ReadOnlySynch,
    NextSimTime,
    AfterDelay,
    EndOfCompile,
    StartOfSimulation,
    EndOfSimulation,
    Error,
    TchkViolation,
    StartOfSave,
    EndOfSave,
    StartOfRestart,
    EndOfRestart,
    StartOfReset,
    EndOfReset,
    EnterInteractive,
    ExitInteractive,
    InteractiveScopeChange,
    UnresolvedSystf,
    Assign,
    Deassign,
    Disable,
    PLIError,
    Signal,
    NBASynch,
    AtEndOfSimTime,
}

impl Reason {
    /// The `cb...` constant of the reason.
    pub open spec fn spec_code(self) -> i32 {
        match self {
            Reason::ValueChange => 1,
            Reason::Stmt => 2,
            Reason::Force => 3,
            Reason::Release => 4,
            Reason::AtStartOfSimTime => 5,
            Reason::ReadWriteSynch => 6,
            Reason::ReadOnlySynch => 7,
            Reason::NextSimTime => 8,
            Reason::AfterDelay => 9,
            Reason::EndOfCompile => 10,
            Reason::StartOfSimulation => 11,
            Reason::EndOfSimulation => 12,
            Reason::Error => 13,
            Reason::TchkViolation => 14,
            Reason::StartOfSave => 15,
            Reason::EndOfSave => 16,
            Reason::StartOfRestart => 17,
            Reason::EndOfRestart => 18,
            Reason::StartOfReset => 19,
            Reason::EndOfReset => 20,
            Reason::EnterInteractive => 21,
            Reason::ExitInteractive => 22,
            Reason::InteractiveScopeChange => 23,
            Reason::UnresolvedSystf => 24,
            Reason::Assign => 25,
            Reason::Deassign => 26,
            Reason::Disable => 27,
            Reason::PLIError => 28,
            Reason::Signal => 29,
            Reason::NBASynch => 30,
            Reason::AtEndOfSimTime => 31,
        }
    }

    /// The `cb...` constant of the reason.
    pub fn code(&self) -> (r: i32)
        ensures
            r == self.spec_code(),
    {
        match self {
            Reason::ValueChange => 1,
            Reason::Stmt => 2,
            Reason::Force => 3,
            Reason::Release => 4,
            Reason::AtStartOfSimTime => 5,
            Reason::ReadWriteSynch => 6,
            Reason::ReadOnlySynch => 7,
            Reason::NextSimTime => 8,
            Reason::AfterDelay => 9,
            Reason::EndOfCompile => 10,
            Reason::StartOfSimulation => 11,
            Reason::EndOfSimulation => 12,
            Reason::Error => 13,
            Reason::TchkViolation => 14,
            Reason::StartOfSave => 15,
            Reason::EndOfSave => 16,
            Reason::StartOfRestart => 17,
            Reason::EndOfRestart => 18,
            Reason::StartOfReset => 19,
            Reason::EndOfReset => 20,
            Reason::EnterInteractive => 21,
            Reason::ExitInteractive => 22,
            Reason::InteractiveScopeChange => 23,
            Reason::UnresolvedSystf => 24,
            Reason::Assign => 25,
            Reason::Deassign => 26,
            Reason::Disable => 27,
            Reason::PLIError => 28,
            Reason::Signal => 29,
            Reason::NBASynch => 30,
            Reason::AtEndOfSimTime => 31,
        }
    }
}

/// Relationship followed from one VPI object to another.
#[derive(Clone, Copy, Debug, PartialEq, Eq, Structural)]
pub enum HandleKind {
    LeftRange,
    RightRange,
    Index,
    Scope,
    Parent,
}

impl HandleKind {
    /// The `vpi...` constant of the relationship.
    pub open spec fn spec_code(self) -> i32 {
        match self {
            HandleKind::LeftRange => 79,
            HandleKind::RightRange => 83,
            HandleKind::Index => 78,
            HandleKind::Scope => 84,
            HandleKind::Parent => 81,
        }
    }

    /// The `vpi...` constant of the relationship.
    pub fn code(&self) -> (r: i32)
        ensures
            r == self.spec_code(),
    {
        match self {
            HandleKind::LeftRange => 79,
            HandleKind::RightRange => 83,
            HandleKind::Index => 78,
            HandleKind::Scope => 84,
            HandleKind::Parent => 81,
        }
    }
}

/// Kind of objects a VPI iteration walks.
#[derive(Clone, Copy, Debug, PartialEq, Eq, Structural)]
pub enum IterKind {
    MemoryWord,
    Range,
    Reg,
    Module,
}

impl IterKind {
    /// The `vpi...` constant of the object kind.
    pub open spec fn spec_code(self) -> i32 {
        match self {
            IterKind::MemoryWord => 30,
            IterKind::Range => 115,
            IterKind::Reg => 48,
            IterKind::Module => 32,
        }
    }

    /// The `vpi...` constant of the object kind.
    pub fn code(&self) -> (r: i32)
        ensures
            r == self.spec_code(),
    {
        match self {
            IterKind::MemoryWord => 30,
            IterKind::Range => 115,
            IterKind::Reg => 48,
            IterKind::Module => 32,
        }
    }
}

/// Severity of a VPI error report.
#[derive(Clone, Copy, Debug, PartialEq, Eq, Structural)]
pub enum ErrorLevel {
    Notice,
    Warning,
    Error,
    System,
    Internal,
}

impl ErrorLevel {
    /// The `vpi...` severity constant.
    pub open spec fn spec_code(self) -> i32 {
        match self {
            ErrorLevel::Notice => 1,
            ErrorLevel::Warning => 2,
            ErrorLevel::Error => 3,
            ErrorLevel::System => 4,
            ErrorLevel::Internal => 5,
        }
    }

    /// The `vpi...` severity constant.
    pub fn code(&self) -> (r: i32)
        ensures
            r == self.spec_code(),
    {
        match self {
            ErrorLevel::Notice => 1,
            ErrorLevel::Warning => 2,
            ErrorLevel::Error => 3,
            ErrorLevel::System => 4,
            ErrorLevel::Internal => 5,
        }
    }
}

impl ErrorLevel {
    /// The severity a code stands for, for codes 1 to 5.
    pub fn from_code(code: i32) -> (r: Option<ErrorLevel>)
        ensures
            r matches Some(l) ==> l.spec_code() == code,
            r is None <==> !(1 <= code <= 5),
    {
        match code {
            1 => Some(ErrorLevel::Notice),
            2 => Some(ErrorLevel::Warning),
            3 => Some(ErrorLevel::Error),
            4 => Some(ErrorLevel::System),
            5 => Some(ErrorLevel::Internal),
            _ => None,
        }
    }

    /// Whether a report of this severity fails the operation; notices and
    /// warnings are only logged.
    pub fn is_failure(&self) -> (r: bool)
        ensures
            r == (self.spec_code() >= 3),
    {
        match self {
            ErrorLevel::Notice | ErrorLevel::Warning => false,
            _ => true,
        }
    }
}

/// The outcome of an error check, from the level the interface reported:
/// 0 means no error.
pub fn check_error(level: i32) -> (r: Result<(), ErrorLevel>)
    requires
        0 <= level <= 5,
    ensures
        level == 0 <==> r is Ok,
        r matches Err(l) ==> l.spec_code() == level,
{
    if level == 0 {
        Ok(())
    } else {
        match ErrorLevel::from_code(level) {
            Some(l) => Err(l),
            None => Ok(()),
        }
    }
}

/// The simulation time from the high and low 32-bit halves the interface
/// reports.
pub fn sim_time(high: u32, low: u32) -> (r: u64)
    ensures
        r == high as nat * 0x1_0000_0000 + low as nat,
{
    let h = high as u64;
    let l = low as u64;
    let r = (h << 32u64) | l;
    assert(r == h * 0x1_0000_0000 + l) by (bit_vector)
        requires
            h < 0x1_0000_0000,
            l < 0x1_0000_0000,
            r == (h << 32u64) | l,
    ;
    r
}

/// Logic value of a scalar signal.
#[derive(Clone, Copy, Debug, PartialEq, Eq, Structural)]
pub enum Scalar {
    _0,
    _1,
    Z,
    X,
    H,
    L,
    DontCare,
}

/// A reported VPI error: message, source file and line.
#[derive(Clone, Debug, PartialEq, Eq)]
pub struct Error {
    pub message: String,
    pub file: String,
    pub line: i32,
}

impl Error {
    /// An error from the parts of a report; missing texts read `<null>`.
    pub fn new(message: Option<String>, file: Option<String>, line: i32) -> (r: Error)
        ensures
            r.message@ == (match message {
                Some(m) => m@,
                None => "<null>"@,
            }),
            r.file@ == (match file {
                Some(f) => f@,
                None => "<null>"@,
            }),
            r.line == line,
    {
        Error { message: string_or(message, "<null>"), file: string_or(file, "<null>"), line }
    }
}

/// Product information of the running simulator.
#[derive(Clone, Debug, PartialEq, Eq)]
pub struct VlogInfo {
    pub args: Vec<String>,
    pub product: String,
    pub version: String,
}

impl VlogInfo {
    /// Product information from the parts of a report; a missing product or
    /// version reads `unknown`, a missing argument `<null>`.
    pub fn new(args: Vec<Option<String>>, product: Option<String>, version: Option<String>) -> (r: VlogInfo)
        ensures
            r.args@.len() == args@.len(),
            forall|i: int| 0 <= i < args@.len() ==> (#[trigger] r.args@[i])@ == (match args@[i] {
                Some(a) => a@,
                None => "<null>"@,
            }),
            r.product@ == (match product {
                Some(p) => p@,
                None => "unknown"@,
            }),
            r.version@ == (match version {
                Some(v) => v@,
                None => "unknown"@,
            }),
    {
        let mut out: Vec<String> = Vec::new();
        let mut i: usize = 0;
        while i < args.len()
            invariant
                0 <= i <= args.len(),
                out@.len() == i,
                forall|j: int| 0 <= j < i ==> (#[trigger] out@[j])@ == (match args@[j] {
                    Some(a) => a@,
                    None => "<null>"@,
                }),
            decreases args.len() - i,
        {
            out.push(string_or(args[i].clone(), "<null>"));
            i = i + 1;
        }
        VlogInfo { args: out, product: string_or(product, "unknown"), version: string_or(version, "unknown") }
    }
}

/// The text if present, else the default.
fn string_or(s: Option<String>, default: &str) -> (r: String)
    ensures
        r@ == (match s {
            Some(t) => t@,
            None => default@,
        }),
{
    match s {
        Some(t) => t,
        None => String::from_str(default),
    }
}

} // verus!

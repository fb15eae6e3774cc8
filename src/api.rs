//! Simulator-wide settings: time units and the reset randomization policy.

use vstd::prelude::*;

verus! {

/// Initial value policy for otherwise uninitialized signals.
#[derive(Clone, Copy, Debug, PartialEq, Eq, Hash, Structural)]
pub enum RandomMode {
    AllZeros,
    AllBits,
    Randomize,
}

impl RandomMode {
    /// The simulator's code for the policy: 0 zeros, 1 all ones, 2 random.
    pub open spec fn spec_code(self) -> i32 {
        match self {
            RandomMode::AllZeros => 0,
            RandomMode::AllBits => 1,
            RandomMode::Randomize => 2,
        }
    }

    /// The simulator's code for the policy: 0 zeros, 1 all ones, 2 random.
    pub fn code(&self) -> (r: i32)
        ensures
            r == self.spec_code(),
    {
        match self {
            RandomMode::AllZeros => 0,
            RandomMode::AllBits => 1,
            RandomMode::Randomize => 2,
        }
    }

    /// The policy a simulator code stands for, if any.
    pub fn from_code(code: i32) -> (r: Option<RandomMode>)
        ensures
            r matches Some(m) ==> m.spec_code() == code,
            r is None <==> !(0 <= code <= 2),
    {
        match code {
            0 => Some(RandomMode::AllZeros),
            1 => Some(RandomMode::AllBits),
            2 => Some(RandomMode::Randomize),
            _ => None,
        }
    }
}

/// Time units and precisions, from 100 s down to 1 fs.
#[derive(Clone, Copy, Debug, PartialEq, Eq, Hash, Structural)]
pub enum TimeUnit {
    _100s,
    _10s,
    _1s,
    _100ms,
    _10ms,
    _1ms,
    _100us,
    _10us,
    _1us,
    _100ns,
    _10ns,
    _1ns,
    _100ps,
    _10ps,
    _1ps,
    _100fs,
    _10fs,
    _1fs,
}

impl TimeUnit {
    /// The power of ten, in seconds, that the unit stands for (2 for 100 s,
    /// -15 for 1 fs).
    pub open spec fn spec_exponent(self) -> int {
        match self {
            TimeUnit::_100s => 2,
            TimeUnit::_10s => 1,
            TimeUnit::_1s => 0,
            TimeUnit::_100ms => -1,
            TimeUnit::_10ms => -2,
            TimeUnit::_1ms => -3,
            TimeUnit::_100us => -4,
            TimeUnit::_10us => -5,
            TimeUnit::_1us => -6,
            TimeUnit::_100ns => -7,
            TimeUnit::_10ns => -8,
            TimeUnit::_1ns => -9,
            TimeUnit::_100ps => -10,
            TimeUnit::_10ps => -11,
            TimeUnit::_1ps => -12,
            TimeUnit::_100fs => -13,
            TimeUnit::_10fs => -14,
            TimeUnit::_1fs => -15,
        }
    }

    /// The power of ten, in seconds, that the unit stands for (2 for 100 s,
    /// -15 for 1 fs).
    pub fn exponent(&self) -> (r: i32)
        ensures
            r == self.spec_exponent(),
    {
        match self {
            TimeUnit::_100s => 2,
            TimeUnit::_10s => 1,
            TimeUnit::_1s => 0,
            TimeUnit::_100ms => -1,
            TimeUnit::_10ms => -2,
            TimeUnit::_1ms => -3,
            TimeUnit::_100us => -4,
            TimeUnit::_10us => -5,
            TimeUnit::_1us => -6,
            TimeUnit::_100ns => -7,
            TimeUnit::_10ns => -8,
            TimeUnit::_1ns => -9,
            TimeUnit::_100ps => -10,
            TimeUnit::_10ps => -11,
            TimeUnit::_1ps => -12,
            TimeUnit::_100fs => -13,
            TimeUnit::_10fs => -14,
            TimeUnit::_1fs => -15,
        }
    }

    /// The unit whose power of ten is `e`, for `e` in `-15..=2`.
    pub fn from_exponent(e: i8) -> (r: Option<TimeUnit>)
        ensures
            r matches Some(u) ==> u.spec_exponent() == e as int,
            r is None <==> !(-15 <= e <= 2),
    {
        match e {
            2 => Some(TimeUnit::_100s),
            1 => Some(TimeUnit::_10s),
            0 => Some(TimeUnit::_1s),
            -1 => Some(TimeUnit::_100ms),
            -2 => Some(TimeUnit::_10ms),
            -3 => Some(TimeUnit::_1ms),
            -4 => Some(TimeUnit::_100us),
            -5 => Some(TimeUnit::_10us),
            -6 => Some(TimeUnit::_1us),
            -7 => Some(TimeUnit::_100ns),
            -8 => Some(TimeUnit::_10ns),
            -9 => Some(TimeUnit::_1ns),
            -10 => Some(TimeUnit::_100ps),
            -11 => Some(TimeUnit::_10ps),
            -12 => Some(TimeUnit::_1ps),
            -13 => Some(TimeUnit::_100fs),
            -14 => Some(TimeUnit::_10fs),
            -15 => Some(TimeUnit::_1fs),
            _ => None,
        }
    }
}

impl From<TimeUnit> for i32 {
    fn from(u: TimeUnit) -> (r: i32) {
        u.exponent()
    }
}

impl vstd::std_specs::convert::FromSpecImpl<TimeUnit> for i32 {
    open spec fn obeys_from_spec() -> bool {
        true
    }

    open spec fn from_spec(u: TimeUnit) -> i32 {
        u.spec_exponent() as i32
    }
}

/// Every unit's exponent lies in `-15..=2` and no two units share one, so
/// `from_exponent` gives back the unit an exponent came from.
pub proof fn lemma_exponent_injective(u: TimeUnit, v: TimeUnit)
    ensures
        -15 <= u.spec_exponent() <= 2,
        u.spec_exponent() == v.spec_exponent() ==> u == v,
{
}

/// Name of the file coverage data is written to by default.
pub fn default_filename() -> (r: &'static str)
    ensures
        r@ == "coverage.dat"@,
{
    "coverage.dat"
}

/// The internal debug level of a release build, where the simulator's debug
/// output is compiled out.
pub fn debug() -> (r: i32)
    ensures
        r == 0,
{
    0
}

/// The process-wide simulator state that the drivers share: the one-shot
/// `$finish` flag and whether unused signals must be computed. A program
/// holds one value of it and hands it to each driver that reads or sets it.
#[derive(Clone, Copy, Debug, PartialEq, Eq)]
pub struct SimState {
    got_finish: bool,
    calc_unused_sigs: bool,
}

/// Mathematical view of [`SimState`].
pub struct SimView {
    pub got_finish: bool,
    pub calc_unused_sigs: bool,
}

impl View for SimState {
    type V = SimView;

    closed spec fn view(&self) -> SimView {
        SimView { got_finish: self.got_finish, calc_unused_sigs: self.calc_unused_sigs }
    }
}

impl SimState {
    /// The state at process start: not finished, unused signals not computed.
    pub fn new() -> (r: SimState)
        ensures
            !r@.got_finish,
            !r@.calc_unused_sigs,
    {
        SimState { got_finish: false, calc_unused_sigs: false }
    }

    /// Whether the simulation reached `$finish`.
    pub fn got_finish(&self) -> (r: bool)
        ensures
            r == self@.got_finish,
    {
        self.got_finish
    }

    /// Raises or clears the `$finish` flag, e.g. when the simulated design
    /// itself executed `$finish`.
    pub fn set_finish(&mut self, flag: bool)
        ensures
            final(self)@ == (SimView { got_finish: flag, ..old(self)@ }),
    {
        self.got_finish = flag;
    }

    /// Whether unused signals are computed.
    pub fn calc_unused_sigs(&self) -> (r: bool)
        ensures
            r == self@.calc_unused_sigs,
    {
        self.calc_unused_sigs
    }

    /// Allows traces to be switched on later: with `on`, unused signals
    /// must be computed from now on; `false` changes nothing.
    pub fn trace_ever_on(&mut self, on: bool)
        ensures
            final(self)@ == (SimView { calc_unused_sigs: old(self)@.calc_unused_sigs || on, ..old(self)@ }),
    {
        if on {
            self.calc_unused_sigs = true;
        }
    }
}

} // verus!

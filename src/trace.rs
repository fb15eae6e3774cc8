//! The trace adapter: the life cycle of a waveform sink (VCD or FST) kept in
//! step with simulation time. The adapter decides which native calls are
//! allowed; the caller performs them on the native sink and reports back
//! what the native layer said.

use vstd::prelude::*;
use crate::api::TimeUnit;

verus! {

/// Life-cycle phase of a trace sink.
#[derive(Clone, Copy, Debug, PartialEq, Eq, Structural)]
pub enum TraceState {
    Unopened,
    Open,
    Closed,
}

/// A refused trace operation.
#[derive(Clone, Copy, Debug, PartialEq, Eq, Structural)]
pub enum TraceError {
    /// The native open call left the file closed.
    Io,
    /// The sink was already opened once; a fresh one is needed.
    AlreadyOpened,
    /// The operation needs an open sink.
    NotOpen,
    /// The dump time is earlier than the last dumped time.
    TimeWentBackwards { last: u64, requested: u64 },
}

/// State shared by every trace format.
#[derive(Clone, Copy, Debug, PartialEq, Eq)]
pub struct TraceAdapter {
    state: TraceState,
    last_dump: Option<u64>,
    time_unit: TimeUnit,
    time_resolution: TimeUnit,
}

/// Mathematical view of [`TraceAdapter`].
pub struct TraceView {
    pub state: TraceState,
    pub last_dump: Option<u64>,
    pub time_unit: TimeUnit,
    pub time_resolution: TimeUnit,
}

impl View for TraceAdapter {
    type V = TraceView;

    closed spec fn view(&self) -> TraceView {
        TraceView {
            state: self.state,
            last_dump: self.last_dump,
            time_unit: self.time_unit,
            time_resolution: self.time_resolution,
        }
    }
}

/// Result of `open` when the native open left the file open exactly when `opened`.
pub open spec fn open_spec(s: TraceView, opened: bool) -> (TraceView, Result<(), TraceError>) {
    if s.state !is Unopened {
        (s, Err(TraceError::AlreadyOpened))
    } else if !opened {
        (s, Err(TraceError::Io))
    } else {
        (TraceView { state: TraceState::Open, ..s }, Ok(()))
    }
}

/// Result of `dump(time)`: only on an open sink, never earlier than the last
/// dumped time.
pub open spec fn dump_spec(s: TraceView, time: u64) -> (TraceView, Result<(), TraceError>) {
    if s.state !is Open {
        (s, Err(TraceError::NotOpen))
    } else {
        match s.last_dump {
            Some(last) => if time < last {
                (s, Err(TraceError::TimeWentBackwards { last, requested: time }))
            } else {
                (TraceView { last_dump: Some(time), ..s }, Ok(()))
            },
            None => (TraceView { last_dump: Some(time), ..s }, Ok(())),
        }
    }
}

impl TraceAdapter {
    /// The state of a fresh sink: not opened, nothing dumped, 1 ns unit and
    /// resolution.
    pub open spec fn new_view() -> TraceView {
        TraceView {
            state: TraceState::Unopened,
            last_dump: None,
            time_unit: TimeUnit::_1ns,
            time_resolution: TimeUnit::_1ns,
        }
    }

    /// A sink not yet opened, with time unit and resolution of 1 ns.
    pub fn new() -> (r: TraceAdapter)
        ensures
            r@ == Self::new_view(),
    {
        TraceAdapter {
            state: TraceState::Unopened,
            last_dump: None,
            time_unit: TimeUnit::_1ns,
            time_resolution: TimeUnit::_1ns,
        }
    }

    /// The current phase.
    pub fn state(&self) -> (r: TraceState)
        ensures
            r == self@.state,
    {
        self.state
    }

    /// Whether the sink is open.
    pub fn is_open(&self) -> (r: bool)
        ensures
            r == (self@.state is Open),
    {
        match self.state {
            TraceState::Open => true,
            _ => false,
        }
    }

    /// The last dumped time, if any.
    pub fn last_dump(&self) -> (r: Option<u64>)
        ensures
            r == self@.last_dump,
    {
        self.last_dump
    }

    /// The time unit in effect.
    pub fn time_unit(&self) -> (r: TimeUnit)
        ensures
            r == self@.time_unit,
    {
        self.time_unit
    }

    /// The time resolution in effect.
    pub fn time_resolution(&self) -> (r: TimeUnit)
        ensures
            r == self@.time_resolution,
    {
        self.time_resolution
    }

    /// Whether the native open may be attempted: only once per sink.
    pub fn may_open(&self) -> (r: bool)
        ensures
            r == (self@.state is Unopened),
    {
        match self.state {
            TraceState::Unopened => true,
            _ => false,
        }
    }

    /// Records the outcome of the native open: `opened` is the native
    /// layer's open flag after the call.
    pub fn open(&mut self, opened: bool) -> (r: Result<(), TraceError>)
        ensures
            (final(self)@, r) == open_spec(old(self)@, opened),
    {
        match self.state {
            TraceState::Unopened => {
                if opened {
                    self.state = TraceState::Open;
                    Ok(())
                } else {
                    Err(TraceError::Io)
                }
            },
            _ => Err(TraceError::AlreadyOpened),
        }
    }

    /// Checks a dump at `time`; on `Ok` the caller forwards it to the native
    /// sink and the time becomes the last dumped one.
    pub fn dump(&mut self, time: u64) -> (r: Result<(), TraceError>)
        ensures
            (final(self)@, r) == dump_spec(old(self)@, time),
    {
        match self.state {
            TraceState::Open => {
                match self.last_dump {
                    Some(last) => {
                        if time < last {
                            return Err(TraceError::TimeWentBackwards { last, requested: time });
                        }
                    },
                    None => {},
                }
                self.last_dump = Some(time);
                Ok(())
            },
            _ => Err(TraceError::NotOpen),
        }
    }

    /// `Ok` on an open sink, `NotOpen` otherwise.
    pub fn check_open(&self) -> (r: Result<(), TraceError>)
        ensures
            r is Ok <==> self@.state is Open,
            r is Err ==> r == Err::<(), TraceError>(TraceError::NotOpen),
    {
        match self.state {
            TraceState::Open => Ok(()),
            _ => Err(TraceError::NotOpen),
        }
    }

    /// Checks a flush: allowed on an open sink only.
    pub fn flush(&self) -> (r: Result<(), TraceError>)
        ensures
            r is Ok <==> self@.state is Open,
            r is Err ==> r == Err::<(), TraceError>(TraceError::NotOpen),
    {
        self.check_open()
    }

    /// Closes the sink. Returns whether the native close is to be called:
    /// only for a sink that is open, so that closing twice releases nothing
    /// twice. A closed sink never opens again.
    pub fn close(&mut self) -> (r: bool)
        ensures
            r == (old(self)@.state is Open),
            final(self)@ == (TraceView { state: TraceState::Closed, ..old(self)@ }),
    {
        let was_open = match self.state {
            TraceState::Open => true,
            _ => false,
        };
        self.state = TraceState::Closed;
        was_open
    }

    /// Sets the time unit.
    pub fn set_time_unit(&mut self, unit: TimeUnit)
        ensures
            final(self)@ == (TraceView { time_unit: unit, ..old(self)@ }),
    {
        self.time_unit = unit;
    }

    /// Sets the time resolution.
    pub fn set_time_resolution(&mut self, unit: TimeUnit)
        ensures
            final(self)@ == (TraceView { time_resolution: unit, ..old(self)@ }),
    {
        self.time_resolution = unit;
    }
}

/// Dumps are accepted in non-decreasing time order only: once a time has
/// been dumped, an earlier time is refused and leaves the sink unchanged, and
/// a later or equal one becomes the last dumped time.
pub proof fn lemma_dump_monotonic(s: TraceView, t: u64)
    requires
        s.last_dump is Some,
    ensures
        t < s.last_dump->Some_0 ==> dump_spec(s, t).0 == s && dump_spec(s, t).1 is Err,
        dump_spec(s, t).1 is Ok ==> dump_spec(s, t).0.last_dump == Some(t)
            && s.last_dump->Some_0 <= t,
{
}

/// A VCD (value change dump) sink, which can roll over to new files.
#[derive(Clone, Copy, Debug, PartialEq, Eq)]
pub struct Vcd {
    trace: TraceAdapter,
    rollover_mb: usize,
}

/// Mathematical view of [`Vcd`]: the life cycle and the rollover size in
/// megabytes (0 for none).
pub struct VcdView {
    pub trace: TraceView,
    pub rollover_mb: nat,
}

impl View for Vcd {
    type V = VcdView;

    closed spec fn view(&self) -> VcdView {
        VcdView { trace: self.trace@, rollover_mb: self.rollover_mb as nat }
    }
}

impl Vcd {
    /// A VCD sink not yet opened, without rollover.
    pub fn new() -> (r: Vcd)
        ensures
            r@.trace == TraceAdapter::new_view(),
            r@.rollover_mb == 0,
    {
        Vcd { trace: TraceAdapter::new(), rollover_mb: 0 }
    }

    /// Whether the sink is open.
    pub fn is_open(&self) -> (r: bool)
        ensures
            r == (self@.trace.state is Open),
    {
        self.trace.is_open()
    }

    /// The trace life cycle state.
    pub fn trace(&self) -> (r: &TraceAdapter)
        ensures
            r@ == self@.trace,
    {
        &self.trace
    }

    /// Records the outcome of the native open; see [`TraceAdapter::open`].
    pub fn open(&mut self, opened: bool) -> (r: Result<(), TraceError>)
        ensures
            (final(self)@.trace, r) == open_spec(old(self)@.trace, opened),
            final(self)@.rollover_mb == old(self)@.rollover_mb,
    {
        self.trace.open(opened)
    }

    /// Checks a dump at `time`; see [`TraceAdapter::dump`].
    pub fn dump(&mut self, time: u64) -> (r: Result<(), TraceError>)
        ensures
            (final(self)@.trace, r) == dump_spec(old(self)@.trace, time),
            final(self)@.rollover_mb == old(self)@.rollover_mb,
    {
        self.trace.dump(time)
    }

    /// Checks a flush: allowed on an open sink only.
    pub fn flush(&self) -> (r: Result<(), TraceError>)
        ensures
            r is Ok <==> self@.trace.state is Open,
            r is Err ==> r == Err::<(), TraceError>(TraceError::NotOpen),
    {
        self.trace.flush()
    }

    /// Closes the sink; returns whether the native close is to be called.
    pub fn close(&mut self) -> (r: bool)
        ensures
            r == (old(self)@.trace.state is Open),
            final(self)@.trace == (TraceView { state: TraceState::Closed, ..old(self)@.trace }),
            final(self)@.rollover_mb == old(self)@.rollover_mb,
    {
        self.trace.close()
    }

    /// Sets the time unit (1 ns unless set).
    pub fn set_time_unit(&mut self, unit: TimeUnit)
        ensures
            final(self)@.trace == (TraceView { time_unit: unit, ..old(self)@.trace }),
            final(self)@.rollover_mb == old(self)@.rollover_mb,
    {
        self.trace.set_time_unit(unit)
    }

    /// Sets the time resolution (1 ns unless set).
    pub fn set_time_resolution(&mut self, unit: TimeUnit)
        ensures
            final(self)@.trace == (TraceView { time_resolution: unit, ..old(self)@.trace }),
            final(self)@.rollover_mb == old(self)@.rollover_mb,
    {
        self.trace.set_time_resolution(unit)
    }

    /// Checks a rotation to the next file: allowed on an open sink only. The
    /// structural header stays in the first file, so the files concatenate
    /// into one dump.
    pub fn open_next(&self) -> (r: Result<(), TraceError>)
        ensures
            r is Ok <==> self@.trace.state is Open,
            r is Err ==> r == Err::<(), TraceError>(TraceError::NotOpen),
    {
        self.trace.check_open()
    }

    /// Sets the size in megabytes after which a new file is started.
    pub fn rollover_mb(&mut self, rollover_mb: usize)
        ensures
            final(self)@ == (VcdView { rollover_mb: rollover_mb as nat, ..old(self)@ }),
    {
        self.rollover_mb = rollover_mb;
    }

    /// The rollover size in megabytes.
    pub fn rollover(&self) -> (r: usize)
        ensures
            r == self@.rollover_mb,
    {
        self.rollover_mb
    }
}

/// An FST (fast signal trace) sink.
#[derive(Clone, Copy, Debug, PartialEq, Eq)]
pub struct Fst {
    trace: TraceAdapter,
}

/// Mathematical view of [`Fst`].
pub struct FstView {
    pub trace: TraceView,
}

impl View for Fst {
    type V = FstView;

    closed spec fn view(&self) -> FstView {
        FstView { trace: self.trace@ }
    }
}

impl Fst {
    /// An FST sink not yet opened.
    pub fn new() -> (r: Fst)
        ensures
            r@.trace == TraceAdapter::new_view(),
    {
        Fst { trace: TraceAdapter::new() }
    }

    /// Whether the sink is open.
    pub fn is_open(&self) -> (r: bool)
        ensures
            r == (self@.trace.state is Open),
    {
        self.trace.is_open()
    }

    /// The trace life cycle state.
    pub fn trace(&self) -> (r: &TraceAdapter)
        ensures
            r@ == self@.trace,
    {
        &self.trace
    }

    /// Records the outcome of the native open; see [`TraceAdapter::open`].
    pub fn open(&mut self, opened: bool) -> (r: Result<(), TraceError>)
        ensures
            (final(self)@.trace, r) == open_spec(old(self)@.trace, opened),
    {
        self.trace.open(opened)
    }

    /// Checks a dump at `time`; see [`TraceAdapter::dump`].
    pub fn dump(&mut self, time: u64) -> (r: Result<(), TraceError>)
        ensures
            (final(self)@.trace, r) == dump_spec(old(self)@.trace, time),
    {
        self.trace.dump(time)
    }

    /// Checks a flush: allowed on an open sink only.
    pub fn flush(&self) -> (r: Result<(), TraceError>)
        ensures
            r is Ok <==> self@.trace.state is Open,
            r is Err ==> r == Err::<(), TraceError>(TraceError::NotOpen),
    {
        self.trace.flush()
    }

    /// Closes the sink; returns whether the native close is to be called.
    pub fn close(&mut self) -> (r: bool)
        ensures
            r == (old(self)@.trace.state is Open),
            final(self)@.trace == (TraceView { state: TraceState::Closed, ..old(self)@.trace }),
    {
        self.trace.close()
    }

    /// Sets the time unit (1 ns unless set).
    pub fn set_time_unit(&mut self, unit: TimeUnit)
        ensures
            final(self)@.trace == (TraceView { time_unit: unit, ..old(self)@.trace }),
    {
        self.trace.set_time_unit(unit)
    }

    /// Sets the time resolution (1 ns unless set).
    pub fn set_time_resolution(&mut self, unit: TimeUnit)
        ensures
            final(self)@.trace == (TraceView { time_resolution: unit, ..old(self)@.trace }),
    {
        self.trace.set_time_resolution(unit)
    }
}

} // verus!

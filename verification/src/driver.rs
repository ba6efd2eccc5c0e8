//! What the host does on each tick, and the life of one attachment.
//!
//! The host owns the waiting: it attaches to the process, reads memory,
//! sleeps until the next tick and talks to the timer. Everything it decides
//! on the way, it asks here.

use vstd::prelude::*;
use crate::evaluator::{
    is_loading, is_loading_spec, level_advanced, split, split_spec, start, start_spec, Settings,
};
use crate::layout::{resolve_spec, Memory, ModuleBases};
use crate::sample::{main_loop, RawSample, Reads, Watchers};

verus! {

/// Ticks per second at the usual cadence.
pub const NORMAL_TICK_RATE: u32 = 60;

/// Ticks per second in slow mode.
pub const SLOW_TICK_RATE: u32 = 30;

/// What the timer reports of itself.
#[derive(Clone, Copy, Debug, PartialEq, Eq, Structural)]
pub enum TimerState {
    NotRunning,
    Running,
    Paused,
    /// The run is over, or the timer is in a state this library has no name
    /// for. Nothing is signalled to it.
    Ended,
}

/// One call on the timer.
#[derive(Clone, Copy, Debug, PartialEq, Eq, Structural)]
pub enum TimerSignal {
    Start,
    PauseClock,
    ResumeClock,
    Split,
}

/// The clock signal of a tick: hold game time while loading, release it
/// while not, none while that is undecided.
pub open spec fn clock_signals(w: Watchers) -> Seq<TimerSignal> {
    match is_loading_spec(w) {
        Some(true) => seq![TimerSignal::PauseClock],
        Some(false) => seq![TimerSignal::ResumeClock],
        None => seq![],
    }
}

/// The split signal of a tick, if it has one.
pub open spec fn split_signals(w: Watchers, settings: Settings) -> Seq<TimerSignal> {
    if split_spec(w, settings) {
        seq![TimerSignal::Split]
    } else {
        seq![]
    }
}

/// The signals of one tick, in the order in which they go to the timer.
///
/// A timer that runs or is paused gets the clock signal, then the split. A
/// timer that is not running gets a start when the run begins, behind a
/// clock hold so that game time does not accrue before the first loading
/// check. An ended timer gets nothing.
pub open spec fn signals_spec(state: TimerState, w: Watchers, settings: Settings) -> Seq<
    TimerSignal,
> {
    match state {
        TimerState::Running | TimerState::Paused => clock_signals(w) + split_signals(w, settings),
        TimerState::NotRunning => if start_spec(w) {
            seq![TimerSignal::PauseClock, TimerSignal::Start]
        } else {
            seq![]
        },
        TimerState::Ended => seq![],
    }
}

/// Decides what to tell the timer after the watchers took this tick's
/// sample.
pub fn signals(state: TimerState, watchers: &Watchers, settings: &Settings) -> (out: Vec<
    TimerSignal,
>)
    ensures
        out@ == signals_spec(state, *watchers, *settings),
{
    let mut out: Vec<TimerSignal> = Vec::new();
    match state {
        TimerState::Running | TimerState::Paused => {
            match is_loading(watchers) {
                Some(true) => out.push(TimerSignal::PauseClock),
                Some(false) => out.push(TimerSignal::ResumeClock),
                None => {},
            }
            if split(watchers, settings) {
                out.push(TimerSignal::Split);
            }
        },
        TimerState::NotRunning => {
            if start(watchers) {
                out.push(TimerSignal::PauseClock);
                out.push(TimerSignal::Start);
            }
        },
        TimerState::Ended => {},
    }
    assert(out@ =~= signals_spec(state, *watchers, *settings));
    out
}

/// Which cadence the host was last told to tick at. It outlives
/// attachments.
#[derive(Clone, Copy, Debug, PartialEq, Eq, Structural)]
pub struct Cadence {
    pub slowed: bool,
}

impl Cadence {
    /// The usual cadence.
    pub fn new() -> (c: Self)
        ensures
            !c.slowed,
    {
        Cadence { slowed: false }
    }

    /// The tick rate to switch to when the slow-mode setting reads
    /// `slow_pc_mode` and the cadence is `slowed`; `None` while they agree.
    pub open spec fn change(slowed: bool, slow_pc_mode: bool) -> Option<u32> {
        if slow_pc_mode == slowed {
            None
        } else if slow_pc_mode {
            Some(SLOW_TICK_RATE)
        } else {
            Some(NORMAL_TICK_RATE)
        }
    }

    /// Follows the slow-mode setting. Returns the new tick rate where the
    /// setting was toggled since the last call.
    pub fn poll(&mut self, settings: &Settings) -> (rate: Option<u32>)
        ensures
            final(self).slowed == settings.slow_pc_mode,
            rate == Self::change(old(self).slowed, settings.slow_pc_mode),
    {
        if settings.slow_pc_mode && !self.slowed {
            self.slowed = true;
            Some(SLOW_TICK_RATE)
        } else if !settings.slow_pc_mode && self.slowed {
            self.slowed = false;
            Some(NORMAL_TICK_RATE)
        } else {
            None
        }
    }
}

/// Everything that belongs to one attached process.
#[derive(Clone, Copy, Debug)]
pub struct Session {
    pub memory: Memory,
    pub watchers: Watchers,
}

/// The host's place in the attach loop.
#[derive(Clone, Copy, Debug)]
pub enum Driver {
    /// No process is attached.
    WaitingForAttach,
    /// A process is attached and the host is finding its modules.
    Resolving,
    /// The process is sampled tick by tick.
    Polling(Session),
}

impl Driver {
    /// This is the state in which polling of a process with these modules
    /// and this image size begins: its addresses resolved, no history.
    pub open spec fn fresh(self, modules: ModuleBases, image_size: u32) -> bool {
        match self {
            Driver::Polling(s) => s.memory.bound_to(modules, resolve_spec(image_size))
                && s.watchers == Watchers::empty(),
            _ => false,
        }
    }

    /// The state after one tick that sampled `raw`: while polling the
    /// watchers take it, while waiting nothing changes.
    pub open spec fn ticked(self, raw: RawSample) -> Driver {
        match self {
            Driver::Polling(s) => Driver::Polling(
                Session { memory: s.memory, watchers: s.watchers.updated(raw) },
            ),
            _ => self,
        }
    }

    /// The signals of a tick that left the driver in this state.
    pub open spec fn tick_signals(self, state: TimerState, settings: Settings) -> Seq<
        TimerSignal,
    > {
        match self {
            Driver::Polling(s) => signals_spec(state, s.watchers, settings),
            _ => seq![],
        }
    }

    pub fn new() -> (d: Self)
        ensures
            d == Driver::WaitingForAttach,
    {
        Driver::WaitingForAttach
    }

    /// The process appeared. Whatever the driver held of an earlier one is
    /// dropped.
    pub fn attach(&mut self)
        ensures
            *final(self) == Driver::Resolving,
    {
        *self = Driver::Resolving;
    }

    /// The host found the modules and the image size of the attached
    /// process: polling begins, with fresh addresses and no history. The
    /// result is `false`, and nothing changes, where no process is being
    /// resolved or its addresses would lie beyond the address space.
    pub fn resolve(&mut self, modules: &ModuleBases, image_size: u32) -> (ok: bool)
        ensures
            ok == (*old(self) is Resolving && Memory::fits(*modules, resolve_spec(image_size))),
            ok ==> final(self).fresh(*modules, image_size),
            !ok ==> *final(self) == *old(self),
    {
        match self {
            Driver::Resolving => match Memory::init(modules, image_size) {
                Some(memory) => {
                    *self = Driver::Polling(Session { memory, watchers: Watchers::new() });
                    true
                },
                None => false,
            },
            _ => false,
        }
    }

    /// The process is gone: addresses and history go with it.
    pub fn detach(&mut self)
        ensures
            *final(self) == Driver::WaitingForAttach,
    {
        *self = Driver::WaitingForAttach;
    }

    /// One tick while polling: records what was read and decides the
    /// signals. In the other states nothing changes and nothing is
    /// signalled.
    pub fn tick(&mut self, reads: &Reads, state: TimerState, settings: &Settings) -> (out: Vec<
        TimerSignal,
    >)
        ensures
            *final(self) == old(self).ticked(RawSample::of(*reads)),
            out@ == final(self).tick_signals(state, *settings),
    {
        match self {
            Driver::Polling(session) => {
                main_loop(reads, &mut session.watchers);
                signals(state, &session.watchers, settings)
            },
            _ => Vec::new(),
        }
    }
}

/// Which signal goes out in which timer state: a start only to a timer that
/// is not running, on the tick the run begins; a split only to a timer that
/// runs or is paused, on a tick that crosses a boundary; a clock release
/// only to such a timer, while the game is known not to load.
pub proof fn law_signals_by_state(state: TimerState, w: Watchers, settings: Settings)
    ensures
        signals_spec(state, w, settings).contains(TimerSignal::Start) <==> (state
            == TimerState::NotRunning && start_spec(w)),
        signals_spec(state, w, settings).contains(TimerSignal::Split) <==> ((state
            == TimerState::Running || state == TimerState::Paused) && split_spec(w, settings)),
        signals_spec(state, w, settings).contains(TimerSignal::ResumeClock) <==> ((state
            == TimerState::Running || state == TimerState::Paused) && is_loading_spec(w) == Some(
            false,
        )),
{
    let out = signals_spec(state, w, settings);
    let running = state == TimerState::Running || state == TimerState::Paused;
    if state == TimerState::NotRunning && start_spec(w) {
        assert(out[1] == TimerSignal::Start);
    }
    if running {
        let clock = clock_signals(w);
        let tail = split_signals(w, settings);
        assert(out =~= clock + tail);
        if split_spec(w, settings) {
            assert(out[clock.len() as int] == TimerSignal::Split);
        }
        if is_loading_spec(w) == Some(false) {
            assert(out[0] == TimerSignal::ResumeClock);
        }
    }
}

/// A new attachment starts without history, whatever the process before
/// it left behind: no watcher reports a prior value, and the first tick can
/// neither begin a run nor advance a level.
pub proof fn law_reattach_forgets(
    attached: Driver,
    modules: ModuleBases,
    image_size: u32,
    first: RawSample,
)
    requires
        attached.fresh(modules, image_size),
    ensures
        attached is Polling,
        attached->Polling_0.watchers == Watchers::after(Seq::empty()),
        attached->Polling_0.watchers.level.pair is None,
        !attached->Polling_0.watchers.sampled(),
        !start_spec(attached->Polling_0.watchers.updated(first)),
        !level_advanced(attached->Polling_0.watchers.updated(first)),
{
}

} // verus!

//! The shift scheduler: Idle or Running, driven by start, timer ticks and stop.
//! The caller owns the timer and the tool; the scheduler decides what each does.

use vstd::prelude::*;
use crate::display::{DisplayInfo, DisplayView};
use crate::pattern::{advance, ShiftPattern, PatternView};
use crate::reset::{reset_start, ResetProtocol, ResetView};
use crate::strategy::{shift_args, ShiftStrategy};

verus! {

/// Shortest period between two ticks, in seconds.
pub const MIN_INTERVAL_SECS: u64 = 5;

/// Delay before the reset that follows a single test shift, in seconds.
pub const ONE_SHOT_RESET_DELAY_SECS: u64 = 3;

/// How the next offset is chosen while running.
#[derive(Debug, Clone)]
pub enum Motion {
    /// Alternate between the full shift and none; the flag says whether the last tick shifted.
    Toggle(bool),
    /// Walk the ring of nine offsets.
    Pattern(ShiftPattern),
}

/// What the scheduler holds while it runs.
#[derive(Debug, Clone)]
pub struct Session {
    /// The token of the timer that drives this run.
    pub timer: u64,
    pub display: DisplayInfo,
    pub shift_amount: i32,
    pub period_secs: u64,
    pub strategy: ShiftStrategy,
    pub motion: Motion,
}

#[derive(Debug, Clone)]
pub enum SchedulerState {
    Idle,
    Running(Session),
}

pub ghost enum MotionView {
    Toggle(bool),
    Pattern(PatternView),
}

pub ghost struct SessionView {
    pub timer: u64,
    pub display: DisplayView,
    pub shift_amount: i32,
    pub period_secs: u64,
    pub strategy: ShiftStrategy,
    pub motion: MotionView,
}

pub ghost struct SchedulerView {
    pub running: Option<SessionView>,
    pub next_timer: u64,
}

impl View for Session {
    type V = SessionView;

    open spec fn view(&self) -> SessionView {
        SessionView {
            timer: self.timer,
            display: self.display@,
            shift_amount: self.shift_amount,
            period_secs: self.period_secs,
            strategy: self.strategy,
            motion: match self.motion {
                Motion::Toggle(b) => MotionView::Toggle(b),
                Motion::Pattern(p) => MotionView::Pattern(p@),
            },
        }
    }
}

/// One shift for the caller to perform: the strategy, the display and the offset.
#[derive(Debug, Clone)]
pub struct ShiftCommand {
    pub display: DisplayInfo,
    pub strategy: ShiftStrategy,
    pub dx: i32,
    pub dy: i32,
}

impl ShiftCommand {
    /// The tool's arguments for this shift.
    pub fn arguments(&self) -> (r: Vec<String>)
        requires
            self.display.wf(),
        ensures
            r.deep_view() == shift_args(self.strategy, self.display@, self.dx as int, self.dy as int),
    {
        self.strategy.arguments(&self.display, self.dx, self.dy)
    }
}

/// The answer to `start`.
#[derive(Debug, Clone, Copy, PartialEq, Eq, Structural)]
pub enum StartOutcome {
    /// Arm a repeating timer with this token and period.
    Started { timer: u64, period_secs: u64 },
    /// A run is in progress; nothing changed.
    AlreadyRunning,
    /// No display was selected; nothing changed.
    NoDisplay,
}

/// The answer to `stop`: the timer to cancel, if one ran, and the reset chain to run,
/// if a display is selected.
#[derive(Debug, Clone)]
pub struct StopOutcome {
    pub cancel_timer: Option<u64>,
    pub reset: Option<ResetProtocol>,
}

/// The period of a run asked for every `interval_secs` seconds.
pub open spec fn period_of(interval_secs: u64) -> u64 {
    if interval_secs < MIN_INTERVAL_SECS {
        MIN_INTERVAL_SECS
    } else {
        interval_secs
    }
}

/// The token after `t`, wrapping.
pub open spec fn following_timer(t: u64) -> u64 {
    if t == u64::MAX {
        0
    } else {
        (t + 1) as u64
    }
}

/// The scheduler after `stop`: idle, with the token counter kept.
pub open spec fn after_stop(v: SchedulerView) -> SchedulerView {
    SchedulerView { running: None, next_timer: v.next_timer }
}

/// The timer that `stop` cancels.
pub open spec fn timer_cancelled_by_stop(v: SchedulerView) -> Option<u64> {
    match v.running {
        Some(s) => Some(s.timer),
        None => None,
    }
}

/// The reset chain that `stop` hands out when `selected` is the selected display.
pub open spec fn reset_for(selected: Option<DisplayView>) -> Option<ResetView> {
    match selected {
        Some(d) => Some(reset_start(d)),
        None => None,
    }
}

/// The view of a stop's answer: the timer cancelled and the reset chain handed out.
pub open spec fn stop_answer(r: StopOutcome) -> (Option<u64>, Option<ResetView>) {
    (
        r.cancel_timer,
        match r.reset {
            Some(p) => Some(p@),
            None => None,
        },
    )
}

/// What `stop` does on scheduler `v` with display `selected`: the scheduler after it,
/// the timer it cancels, and the reset chain it hands out.
pub open spec fn stop_effect(v: SchedulerView, selected: Option<DisplayView>) -> (
    SchedulerView,
    Option<u64>,
    Option<ResetView>,
) {
    (after_stop(v), timer_cancelled_by_stop(v), reset_for(selected))
}

/// The offset of the tick after `toggle`: the full shift when the flag turns on.
pub open spec fn toggle_offset(toggle: bool, amount: i32) -> (int, int) {
    if !toggle {
        (amount as int, amount as int)
    } else {
        (0, 0)
    }
}

/// The single-owner shift scheduler.
#[derive(Debug, Clone)]
pub struct Scheduler {
    state: SchedulerState,
    next_timer: u64,
}

impl View for Scheduler {
    type V = SchedulerView;

    closed spec fn view(&self) -> SchedulerView {
        SchedulerView {
            running: match self.state {
                SchedulerState::Idle => None,
                SchedulerState::Running(s) => Some(s@),
            },
            next_timer: self.next_timer,
        }
    }
}

impl Scheduler {
    pub closed spec fn wf(&self) -> bool {
        match self.state {
            SchedulerState::Idle => true,
            SchedulerState::Running(s) => {
                &&& s.display.wf()
                &&& s.motion matches Motion::Pattern(p) ==> p.wf()
            },
        }
    }

    /// An idle scheduler.
    pub fn new() -> (r: Scheduler)
        ensures
            r.wf(),
            r@ == (SchedulerView { running: None, next_timer: 0 }),
    {
        Scheduler { state: SchedulerState::Idle, next_timer: 0 }
    }

    pub fn is_running(&self) -> (r: bool)
        ensures
            r == self@.running is Some,
    {
        match &self.state {
            SchedulerState::Idle => false,
            SchedulerState::Running(_) => true,
        }
    }

    /// Starts shifting `display` every `interval_secs` seconds (at least
    /// `MIN_INTERVAL_SECS`), walking the pattern when `use_pattern` is set and
    /// alternating between shifted and unshifted otherwise. Does nothing while running
    /// or when no display is selected.
    pub fn start(
        &mut self,
        display: Option<&DisplayInfo>,
        shift_amount: i32,
        interval_secs: u64,
        strategy: ShiftStrategy,
        use_pattern: bool,
    ) -> (r: StartOutcome)
        requires
            old(self).wf(),
            old(self)@.running is None && display is Some && use_pattern ==> shift_amount
                > i32::MIN,
            old(self)@.running is None && display is Some ==> display.unwrap().wf(),
        ensures
            final(self).wf(),
            old(self)@.running is Some ==> r == StartOutcome::AlreadyRunning && *final(self)
                == *old(self),
            old(self)@.running is None && display is None ==> r == StartOutcome::NoDisplay
                && *final(self) == *old(self),
            old(self)@.running is None && display is Some ==> {
                &&& r == (StartOutcome::Started {
                    timer: old(self)@.next_timer,
                    period_secs: period_of(interval_secs),
                })
                &&& final(self)@.next_timer == following_timer(old(self)@.next_timer)
                &&& final(self)@.running matches Some(s) && s.timer == old(self)@.next_timer
                    && s.display == display.unwrap()@ && s.shift_amount == shift_amount
                    && s.period_secs == period_of(interval_secs) && s.strategy == strategy
                    && (use_pattern ==> s.motion == MotionView::Pattern(
                    PatternView {
                        positions: crate::pattern::pattern_offsets(shift_amount as int),
                        cursor: 0,
                    },
                )) && (!use_pattern ==> s.motion == MotionView::Toggle(false))
            },
    {
        if self.is_running() {
            return StartOutcome::AlreadyRunning;
        }
        let d = match display {
            Some(d) => d,
            None => {
                return StartOutcome::NoDisplay;
            },
        };
        let period_secs = if interval_secs < MIN_INTERVAL_SECS {
            MIN_INTERVAL_SECS
        } else {
            interval_secs
        };
        let motion = if use_pattern {
            Motion::Pattern(ShiftPattern::new(shift_amount))
        } else {
            Motion::Toggle(false)
        };
        let timer = self.next_timer;
        self.next_timer = if timer == u64::MAX {
            0
        } else {
            timer + 1
        };
        self.state = SchedulerState::Running(
            Session {
                timer,
                display: d.duplicate(),
                shift_amount,
                period_secs,
                strategy,
                motion,
            },
        );
        StartOutcome::Started { timer, period_secs }
    }

    /// One firing of the timer `timer`. While that timer's run is in progress,
    /// returns the shift to perform and moves the pattern or the toggle on; a tick of
    /// any other timer, or while idle, is ignored.
    pub fn tick(&mut self, timer: u64) -> (r: Option<ShiftCommand>)
        requires
            old(self).wf(),
        ensures
            final(self).wf(),
            final(self)@.next_timer == old(self)@.next_timer,
            match old(self)@.running {
                Some(s) if s.timer == timer => {
                    &&& r matches Some(c) && c.display@ == s.display && c.strategy == s.strategy
                        && c.display.wf()
                    &&& final(self)@.running matches Some(t) && t == (SessionView {
                        motion: t.motion,
                        ..s
                    })
                    &&& match s.motion {
                        MotionView::Toggle(b) => {
                            &&& final(self)@.running->0.motion == MotionView::Toggle(!b)
                            &&& (r->0.dx as int, r->0.dy as int) == toggle_offset(
                                b,
                                s.shift_amount,
                            )
                        },
                        MotionView::Pattern(p) => {
                            &&& final(self)@.running->0.motion == MotionView::Pattern(advance(p))
                            &&& (r->0.dx as int, r->0.dy as int) == p.positions[p.cursor as int]
                        },
                    }
                },
                _ => r is None && *final(self) == *old(self),
            },
    {
        match &mut self.state {
            SchedulerState::Idle => None,
            SchedulerState::Running(s) => {
                if s.timer != timer {
                    return None;
                }
                let (dx, dy) = match &mut s.motion {
                    Motion::Toggle(b) => {
                        *b = !*b;
                        if *b {
                            (s.shift_amount, s.shift_amount)
                        } else {
                            (0, 0)
                        }
                    },
                    Motion::Pattern(p) => p.next(),
                };
                Some(ShiftCommand { display: s.display.duplicate(), strategy: s.strategy, dx, dy })
            },
        }
    }

    /// Stops any run and resets the selected display. Cancels the run's timer when
    /// one ran; the reset chain is handed out whenever a display is selected, also
    /// when the scheduler was already idle.
    pub fn stop(&mut self, selected: Option<&DisplayInfo>) -> (r: StopOutcome)
        requires
            old(self).wf(),
        ensures
            final(self).wf(),
            (final(self)@, stop_answer(r).0, stop_answer(r).1) == stop_effect(
                old(self)@,
                match selected {
                    Some(d) => Some(d@),
                    None => None,
                },
            ),
            r.reset matches Some(p) ==> p.wf(),
    {
        let cancel_timer = match &self.state {
            SchedulerState::Idle => None,
            SchedulerState::Running(s) => Some(s.timer),
        };
        self.state = SchedulerState::Idle;
        let reset = match selected {
            Some(d) => Some(ResetProtocol::new(d.duplicate())),
            None => None,
        };
        StopOutcome { cancel_timer, reset }
    }
}

/// The single test shift: `display` moved by the shift amount on both axes, outside any
/// run; `None` when no display is selected.
pub fn shift_once(display: Option<&DisplayInfo>, shift_amount: i32, strategy: ShiftStrategy) -> (r:
    Option<ShiftCommand>)
    ensures
        display is None ==> r is None,
        display matches Some(d) ==> r matches Some(c) && c.display@ == d@ && c.strategy == strategy
            && c.dx == shift_amount && c.dy == shift_amount,
{
    match display {
        Some(d) => Some(ShiftCommand { display: d.duplicate(), strategy, dx: shift_amount, dy: shift_amount }),
        None => None,
    }
}

/// After a test shift, the delay before its reset: only a shift that took effect is undone.
pub fn reset_delay_after_test(succeeded: bool) -> (r: Option<u64>)
    ensures
        succeeded ==> r == Some(ONE_SHOT_RESET_DELAY_SECS),
        !succeeded ==> r is None,
{
    if succeeded {
        Some(ONE_SHOT_RESET_DELAY_SECS)
    } else {
        None
    }
}

/// Stopping twice in a row is harmless: the second stop leaves the scheduler idle as
/// the first left it, cancels no timer, and hands out the same reset chain as the first,
/// so a selected display is reset again.
pub proof fn stop_is_idempotent(v: SchedulerView, selected: Option<DisplayView>)
    ensures
        ({
            let (v1, _, r1) = stop_effect(v, selected);
            let (v2, c2, r2) = stop_effect(v1, selected);
            &&& v2 == v1
            &&& v2.running is None
            &&& c2 is None
            &&& r2 == r1
            &&& (selected is Some ==> r2 is Some)
        }),
{
}

} // verus!

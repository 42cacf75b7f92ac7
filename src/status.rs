//! Status lines for the operator: what is being done, and how it went.

use vstd::prelude::*;
use crate::display::DisplayView;
use crate::scheduler::{ShiftCommand, StartOutcome};
use crate::strategy::{option_text, position_text, value_text, ShiftStrategy};
use crate::text::{int_text, nat_text, push_int, push_nat, push_str, string_from_chars};

verus! {

/// How a run of the display tool ended.
#[derive(Debug, Clone)]
pub enum ToolOutcome {
    /// It exited with success.
    Succeeded,
    /// It ran and exited with failure; what it wrote to its error stream.
    Failed { stderr: String },
    /// It could not be started; why.
    NotLaunched { error: String },
}

/// The name of a strategy in an outcome line.
pub open spec fn strategy_title(s: ShiftStrategy) -> Seq<char> {
    match s {
        ShiftStrategy::TransformMatrix => "Transform"@,
        ShiftStrategy::PanningSmooth => "Smooth panning"@,
        ShiftStrategy::PositionOffset => "Position shift"@,
        ShiftStrategy::PanningBasic => "Panning"@,
    }
}

/// The name of a strategy in an announcement.
pub open spec fn strategy_action(s: ShiftStrategy) -> Seq<char> {
    match s {
        ShiftStrategy::TransformMatrix => "transform shift"@,
        ShiftStrategy::PanningSmooth => "smooth panning"@,
        ShiftStrategy::PositionOffset => "position shift"@,
        ShiftStrategy::PanningBasic => "panning"@,
    }
}

/// What a successful shift reports of its offset.
pub open spec fn applied_detail(s: ShiftStrategy, dx: int, dy: int) -> Seq<char> {
    match s {
        ShiftStrategy::TransformMatrix => int_text(
            if dx != 0 {
                dx
            } else {
                dy
            },
        ) + "px offset"@,
        ShiftStrategy::PositionOffset => position_text(dx, dy),
        _ => seq!['+'] + int_text(dx) + seq!['+'] + int_text(dy),
    }
}

/// The line that announces a shift, with the command it runs.
pub open spec fn announcement_text(s: ShiftStrategy, d: DisplayView, dx: int, dy: int) -> Seq<char> {
    "Applying "@ + strategy_action(s) + ": xrandr --output "@ + d.name + seq![' '] + option_text(s)
        + seq![' '] + value_text(s, d, dx, dy)
}

/// The line that reports how a shift went.
pub open spec fn outcome_text(s: ShiftStrategy, dx: int, dy: int, o: ToolOutcome) -> Seq<char> {
    match o {
        ToolOutcome::Succeeded => "\u{2713} "@ + strategy_title(s) + " applied: "@ + applied_detail(
            s,
            dx,
            dy,
        ),
        ToolOutcome::Failed { stderr } => "\u{2717} "@ + strategy_title(s) + " failed: "@ + stderr@,
        ToolOutcome::NotLaunched { error } => "\u{2717} Command failed: "@ + error@,
    }
}

/// The line that answers `start`.
pub open spec fn start_text(o: StartOutcome, name: Seq<char>) -> Seq<char> {
    match o {
        StartOutcome::Started { period_secs, .. } => "Starting auto-shift for "@ + name + " every "@
            + nat_text(period_secs as nat) + "s"@,
        StartOutcome::AlreadyRunning => "Auto-shift is already running"@,
        StartOutcome::NoDisplay => "No display selected"@,
    }
}

impl ToolOutcome {
    pub fn succeeded(&self) -> (r: bool)
        ensures
            r == (*self is Succeeded),
    {
        match self {
            ToolOutcome::Succeeded => true,
            _ => false,
        }
    }
}

fn push_title(v: &mut Vec<char>, s: ShiftStrategy)
    ensures
        final(v)@ == old(v)@ + strategy_title(s),
{
    match s {
        ShiftStrategy::TransformMatrix => push_str(v, "Transform"),
        ShiftStrategy::PanningSmooth => push_str(v, "Smooth panning"),
        ShiftStrategy::PositionOffset => push_str(v, "Position shift"),
        ShiftStrategy::PanningBasic => push_str(v, "Panning"),
    }
}

impl ShiftCommand {
    /// The line to show before running the shift.
    pub fn announcement(&self) -> (r: String)
        requires
            self.display.wf(),
        ensures
            r@ == announcement_text(self.strategy, self.display@, self.dx as int, self.dy as int),
    {
        let mut v: Vec<char> = Vec::new();
        push_str(&mut v, "Applying ");
        match self.strategy {
            ShiftStrategy::TransformMatrix => push_str(&mut v, "transform shift"),
            ShiftStrategy::PanningSmooth => push_str(&mut v, "smooth panning"),
            ShiftStrategy::PositionOffset => push_str(&mut v, "position shift"),
            ShiftStrategy::PanningBasic => push_str(&mut v, "panning"),
        }
        push_str(&mut v, ": xrandr --output ");
        push_str(&mut v, self.display.name.as_str());
        v.push(' ');
        match self.strategy {
            ShiftStrategy::TransformMatrix => push_str(&mut v, "--transform"),
            ShiftStrategy::PanningSmooth => push_str(&mut v, "--panning"),
            ShiftStrategy::PositionOffset => push_str(&mut v, "--pos"),
            ShiftStrategy::PanningBasic => push_str(&mut v, "--panning"),
        }
        v.push(' ');
        let value = self.strategy.value(&self.display, self.dx, self.dy);
        push_str(&mut v, value.as_str());
        assert(v@ =~= announcement_text(self.strategy, self.display@, self.dx as int, self.dy as int));
        string_from_chars(&v)
    }

    /// The line that reports how the shift went.
    pub fn outcome_message(&self, outcome: &ToolOutcome) -> (r: String)
        ensures
            r@ == outcome_text(self.strategy, self.dx as int, self.dy as int, *outcome),
    {
        let mut v: Vec<char> = Vec::new();
        match outcome {
            ToolOutcome::Succeeded => {
                push_str(&mut v, "\u{2713} ");
                push_title(&mut v, self.strategy);
                push_str(&mut v, " applied: ");
                match self.strategy {
                    ShiftStrategy::TransformMatrix => {
                        push_int(&mut v, if self.dx != 0 {
                            self.dx as i64
                        } else {
                            self.dy as i64
                        });
                        push_str(&mut v, "px offset");
                    },
                    ShiftStrategy::PositionOffset => {
                        push_int(&mut v, self.dx as i64);
                        if self.dy >= 0 {
                            v.push('+');
                        }
                        push_int(&mut v, self.dy as i64);
                    },
                    _ => {
                        v.push('+');
                        push_int(&mut v, self.dx as i64);
                        v.push('+');
                        push_int(&mut v, self.dy as i64);
                    },
                }
            },
            ToolOutcome::Failed { stderr } => {
                push_str(&mut v, "\u{2717} ");
                push_title(&mut v, self.strategy);
                push_str(&mut v, " failed: ");
                push_str(&mut v, stderr.as_str());
            },
            ToolOutcome::NotLaunched { error } => {
                push_str(&mut v, "\u{2717} Command failed: ");
                push_str(&mut v, error.as_str());
            },
        }
        assert(v@ =~= outcome_text(self.strategy, self.dx as int, self.dy as int, *outcome));
        string_from_chars(&v)
    }
}

/// The line that answers `start` for the display named `name`.
pub fn start_message(outcome: StartOutcome, name: &str) -> (r: String)
    ensures
        r@ == start_text(outcome, name@),
{
    let mut v: Vec<char> = Vec::new();
    match outcome {
        StartOutcome::Started { period_secs, .. } => {
            push_str(&mut v, "Starting auto-shift for ");
            push_str(&mut v, name);
            push_str(&mut v, " every ");
            push_nat(&mut v, period_secs);
            push_str(&mut v, "s");
        },
        StartOutcome::AlreadyRunning => push_str(&mut v, "Auto-shift is already running"),
        StartOutcome::NoDisplay => push_str(&mut v, "No display selected"),
    }
    assert(v@ =~= start_text(outcome, name@));
    string_from_chars(&v)
}

/// The line that closes a stop.
pub fn stop_message() -> (r: String)
    ensures
        r@ == "Auto-shift stopped and display reset."@,
{
    String::from_str("Auto-shift stopped and display reset.")
}

} // verus!

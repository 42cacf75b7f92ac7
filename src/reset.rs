//! The reset fallback chain: four ever coarser ways of undoing a shift, tried in
//! order until one succeeds. The caller runs each command and reports its result.

use vstd::prelude::*;
use crate::display::{DisplayInfo, DisplayView};
use crate::text::{push_str, string_from_chars};

verus! {

/// Number of reset methods in the chain.
pub const RESET_METHODS: usize = 4;

/// Where the chain stands.
#[derive(Debug, Clone, Copy, PartialEq, Eq, Structural)]
pub enum ResetOutcome {
    /// A method is still to be tried.
    Pending,
    /// The method at the current attempt succeeded.
    Succeeded,
    /// All four methods failed.
    Exhausted,
}

/// The state of one run of the chain on one display.
#[derive(Debug, Clone)]
pub struct ResetProtocol {
    display: DisplayInfo,
    attempt: usize,
    outcome: ResetOutcome,
}

pub ghost struct ResetView {
    pub display: DisplayView,
    pub attempt: nat,
    pub outcome: ResetOutcome,
}

impl View for ResetProtocol {
    type V = ResetView;

    closed spec fn view(&self) -> ResetView {
        ResetView { display: self.display@, attempt: self.attempt as nat, outcome: self.outcome }
    }
}

/// A run that has tried nothing yet.
pub open spec fn reset_start(d: DisplayView) -> ResetView {
    ResetView { display: d, attempt: 0, outcome: ResetOutcome::Pending }
}

/// The chain after the current attempt's result `ok`; a finished chain stays as it is.
pub open spec fn reset_step(v: ResetView, ok: bool) -> ResetView {
    if v.outcome != ResetOutcome::Pending {
        v
    } else if ok {
        ResetView { outcome: ResetOutcome::Succeeded, ..v }
    } else if v.attempt + 1 >= 4 {
        ResetView { attempt: 4, outcome: ResetOutcome::Exhausted, ..v }
    } else {
        ResetView { attempt: v.attempt + 1, ..v }
    }
}

/// The chain after being fed the results `oks`, in order.
pub open spec fn reset_run(d: DisplayView, oks: Seq<bool>) -> ResetView
    decreases oks.len(),
{
    if oks.len() == 0 {
        reset_start(d)
    } else {
        reset_step(reset_run(d, oks.drop_last()), oks.last())
    }
}

/// How many commands the chain hands out while it is fed the results `oks`.
pub open spec fn reset_commands_issued(d: DisplayView, oks: Seq<bool>) -> nat
    decreases oks.len(),
{
    if oks.len() == 0 {
        0
    } else {
        reset_commands_issued(d, oks.drop_last()) + if reset_run(d, oks.drop_last()).outcome
            == ResetOutcome::Pending {
            1nat
        } else {
            0nat
        }
    }
}

/// The tool's arguments for reset method `k` (0 to 3) on output `name`.
pub open spec fn reset_args(k: nat, name: Seq<char>) -> Seq<Seq<char>> {
    if k == 0 {
        seq!["--output"@, name, "--transform"@, "1,0,0,0,1,0,0,0,1"@]
    } else if k == 1 {
        seq!["--output"@, name, "--panning"@, "0x0"@]
    } else if k == 2 {
        seq!["--output"@, name, "--pos"@, "0x0"@]
    } else {
        seq!["--output"@, name, "--auto"@]
    }
}

/// What the chain reports once it has finished.
pub open spec fn reset_message(v: ResetView) -> Seq<char> {
    if v.outcome == ResetOutcome::Succeeded {
        let what = if v.attempt == 0 {
            "Transform"@
        } else if v.attempt == 1 {
            "Panning"@
        } else if v.attempt == 2 {
            "Position"@
        } else {
            "Auto"@
        };
        "\u{2713} "@ + what + " reset successful for "@ + v.display.name
    } else if v.outcome == ResetOutcome::Exhausted {
        "\u{2717} All reset methods failed for "@ + v.display.name
    } else {
        "Resetting "@ + v.display.name
    }
}

impl ResetProtocol {
    pub closed spec fn wf(&self) -> bool {
        &&& self.attempt <= 4
        &&& (self.outcome == ResetOutcome::Exhausted <==> self.attempt == 4)
    }

    /// A run of the chain on `display`, about to try the identity transform.
    pub fn new(display: DisplayInfo) -> (r: ResetProtocol)
        ensures
            r.wf(),
            r@ == reset_start(display@),
    {
        ResetProtocol { display, attempt: 0, outcome: ResetOutcome::Pending }
    }

    /// The arguments of the next method to try, or `None` once the chain has finished.
    pub fn next_command(&self) -> (r: Option<Vec<String>>)
        requires
            self.wf(),
        ensures
            self@.outcome == ResetOutcome::Pending <==> r is Some,
            r matches Some(a) ==> a.deep_view() == reset_args(self@.attempt, self@.display.name),
    {
        if self.outcome != ResetOutcome::Pending {
            return None;
        }
        let mut a: Vec<String> = Vec::new();
        a.push(String::from_str("--output"));
        a.push(self.display.name.clone());
        if self.attempt == 0 {
            a.push(String::from_str("--transform"));
            a.push(String::from_str("1,0,0,0,1,0,0,0,1"));
        } else if self.attempt == 1 {
            a.push(String::from_str("--panning"));
            a.push(String::from_str("0x0"));
        } else if self.attempt == 2 {
            a.push(String::from_str("--pos"));
            a.push(String::from_str("0x0"));
        } else {
            a.push(String::from_str("--auto"));
        }
        assert(a.deep_view() =~= reset_args(self@.attempt, self@.display.name));
        Some(a)
    }

    /// Takes the result of the command that `next_command` handed out.
    pub fn record(&mut self, succeeded: bool)
        requires
            old(self).wf(),
        ensures
            final(self).wf(),
            final(self)@ == reset_step(old(self)@, succeeded),
    {
        if self.outcome != ResetOutcome::Pending {
            return;
        }
        if succeeded {
            self.outcome = ResetOutcome::Succeeded;
        } else if self.attempt + 1 >= RESET_METHODS {
            self.attempt = RESET_METHODS;
            self.outcome = ResetOutcome::Exhausted;
        } else {
            self.attempt = self.attempt + 1;
        }
    }

    pub fn outcome(&self) -> (r: ResetOutcome)
        ensures
            r == self@.outcome,
    {
        self.outcome
    }

    /// Index of the method being tried, or of the one that succeeded; 4 once exhausted.
    pub fn attempt(&self) -> (r: usize)
        ensures
            r as nat == self@.attempt,
    {
        self.attempt
    }

    /// The status line for where the chain stands.
    pub fn message(&self) -> (r: String)
        ensures
            r@ == reset_message(self@),
    {
        let mut v: Vec<char> = Vec::new();
        if self.outcome == ResetOutcome::Succeeded {
            push_str(&mut v, "\u{2713} ");
            if self.attempt == 0 {
                push_str(&mut v, "Transform");
            } else if self.attempt == 1 {
                push_str(&mut v, "Panning");
            } else if self.attempt == 2 {
                push_str(&mut v, "Position");
            } else {
                push_str(&mut v, "Auto");
            }
            push_str(&mut v, " reset successful for ");
        } else if self.outcome == ResetOutcome::Exhausted {
            push_str(&mut v, "\u{2717} All reset methods failed for ");
        } else {
            push_str(&mut v, "Resetting ");
        }
        push_str(&mut v, self.display.name.as_str());
        assert(v@ =~= reset_message(self@));
        string_from_chars(&v)
    }
}

/// Once a method succeeds nothing more is tried: a chain whose first success is at
/// attempt `k`, after any results at all beyond it, has succeeded at `k` and has
/// handed out exactly `k + 1` commands.
pub proof fn reset_stops_at_first_success(d: DisplayView, oks: Seq<bool>, k: nat)
    requires
        k < 4,
        k < oks.len(),
        oks[k as int],
        forall|j: int| 0 <= j < k ==> !oks[j],
    ensures
        reset_run(d, oks).outcome == ResetOutcome::Succeeded,
        reset_run(d, oks).attempt == k,
        reset_commands_issued(d, oks) == k + 1,
    decreases oks.len(),
{
    if oks.len() == k + 1 {
        reset_before_success(d, oks.drop_last());
    } else {
        let pre = oks.drop_last();
        assert(pre[k as int] == oks[k as int]);
        reset_stops_at_first_success(d, pre, k);
    }
}

/// While every result so far has failed, the chain stands pending at the next attempt.
proof fn reset_before_success(d: DisplayView, oks: Seq<bool>)
    requires
        oks.len() < 4,
        forall|j: int| 0 <= j < oks.len() ==> !oks[j],
    ensures
        reset_run(d, oks) == (ResetView { display: d, attempt: oks.len(), outcome: ResetOutcome::Pending }),
        reset_commands_issued(d, oks) == oks.len(),
    decreases oks.len(),
{
    if oks.len() > 0 {
        let pre = oks.drop_last();
        assert forall|j: int| 0 <= j < pre.len() implies !pre[j] by {
            assert(pre[j] == oks[j]);
        }
        reset_before_success(d, pre);
    }
}

} // verus!

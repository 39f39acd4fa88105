//! The open/close decision of the noise suppressor.
//!
//! The suppressor measures an envelope and compares it with its threshold;
//! this module decides, from that comparison, whether sound passes.  It opens
//! at once when the envelope is above the threshold and stays open for a hold
//! time after it falls below.

use vstd::prelude::*;

verus! {

/// Open/closed state and remaining hold time.
pub struct GateView {
    pub open: bool,
    pub hold: nat,
}

/// One sample: above the threshold it opens and the hold time starts over;
/// below it the hold time runs down, and it closes once the hold is out.
pub open spec fn gate_step(s: GateView, above_threshold: bool, hold_samples: nat) -> GateView {
    if above_threshold {
        GateView { open: true, hold: hold_samples }
    } else if s.hold > 0 {
        GateView { open: s.open, hold: (s.hold - 1) as nat }
    } else {
        GateView { open: false, hold: 0 }
    }
}

/// The state after `k` samples below the threshold.
pub open spec fn gate_run_below(s: GateView, k: nat) -> GateView
    decreases k,
{
    if k == 0 {
        s
    } else {
        gate_step(gate_run_below(s, (k - 1) as nat), false, 0)
    }
}

/// Hold-time bookkeeping of the noise suppressor.
pub struct GateHold {
    is_open: bool,
    hold_counter: usize,
}

impl View for GateHold {
    type V = GateView;

    closed spec fn view(&self) -> GateView {
        GateView { open: self.is_open, hold: self.hold_counter as nat }
    }
}

impl GateHold {
    /// Closed, with no hold time left.
    pub fn new() -> (g: GateHold)
        ensures
            g@ == (GateView { open: false, hold: 0 }),
    {
        GateHold { is_open: false, hold_counter: 0 }
    }

    /// Decide one sample; returns whether the sample passes.
    /// `hold_samples` is the hold time in samples.
    pub fn step(&mut self, above_threshold: bool, hold_samples: usize) -> (open: bool)
        ensures
            final(self)@ == gate_step(old(self)@, above_threshold, hold_samples as nat),
            open == final(self)@.open,
    {
        if above_threshold {
            self.is_open = true;
            self.hold_counter = hold_samples;
        } else if self.hold_counter > 0 {
            self.hold_counter = self.hold_counter - 1;
        } else {
            self.is_open = false;
        }
        self.is_open
    }

    /// Whether sound passes.
    pub fn is_open(&self) -> (b: bool)
        ensures
            b == self@.open,
    {
        self.is_open
    }

    /// Close and clear the hold time.
    pub fn reset(&mut self)
        ensures
            final(self)@ == (GateView { open: false, hold: 0 }),
    {
        self.hold_counter = 0;
        self.is_open = false;
    }
}

/// Law: once the signal drops below the threshold after having been above
/// it, sound keeps passing for exactly `hold` more samples and then stops.
pub proof fn lemma_gate_holds_then_closes(hold: nat, k: nat)
    ensures
        k <= hold ==> gate_run_below(GateView { open: true, hold }, k) == (GateView {
            open: true,
            hold: (hold - k) as nat,
        }),
        k > hold ==> gate_run_below(GateView { open: true, hold }, k) == (GateView {
            open: false,
            hold: 0,
        }),
    decreases k,
{
    if k > 0 {
        lemma_gate_holds_then_closes(hold, (k - 1) as nat);
    }
}

/// Law: a sample above the threshold opens the suppressor and restarts the full
/// hold time, whatever the state before (open or closed, any hold left).
pub proof fn lemma_gate_rise_restarts_hold(s: GateView, hold_samples: nat)
    ensures
        gate_step(s, true, hold_samples) == (GateView { open: true, hold: hold_samples }),
{
}

/// Law: after a sample above the threshold the state no longer depends on
/// what came before: two suppressors that see the same rise agree.
pub proof fn lemma_gate_rise_forgets_past(s: GateView, t: GateView, hold_samples: nat)
    ensures
        gate_step(s, true, hold_samples) == gate_step(t, true, hold_samples),
{
    lemma_gate_rise_restarts_hold(s, hold_samples);
    lemma_gate_rise_restarts_hold(t, hold_samples);
}

/// Law: a sample below the threshold spends one sample of hold time while
/// any is left, staying open or closed as it was, and closes once none is left.
pub proof fn lemma_gate_fall_spends_hold(s: GateView, hold_samples: nat)
    ensures
        s.hold > 0 ==> gate_step(s, false, hold_samples) == (GateView { open: s.open, hold: (s.hold - 1) as nat }),
        s.hold == 0 ==> gate_step(s, false, hold_samples) == (GateView { open: false, hold: 0 }),
{
}

/// Law: a signal above the threshold always passes.
pub proof fn lemma_gate_opens_above(s: GateView, hold_samples: nat)
    ensures
        gate_step(s, true, hold_samples).open,
{
}

} // verus!

//! Switch-like utility processors: mute/solo and phase inversion.
//!
//! Their processing only chooses between the input and a replacement the
//! caller supplies (silence, or the negated sample).

use vstd::prelude::*;

verus! {

/// Mute/solo switch of one channel strip.
#[derive(Clone, Copy, Debug)]
pub struct MuteSolo {
    muted: bool,
    soloed: bool,
    any_solo_active: bool,
}

impl MuteSolo {
    pub closed spec fn spec_muted(&self) -> bool {
        self.muted
    }

    pub closed spec fn spec_soloed(&self) -> bool {
        self.soloed
    }

    pub closed spec fn spec_any_solo_active(&self) -> bool {
        self.any_solo_active
    }

    /// The strip is heard: not muted, and not silenced by another strip's solo.
    pub open spec fn audible(&self) -> bool {
        !self.spec_muted() && !(self.spec_any_solo_active() && !self.spec_soloed())
    }

    pub fn new() -> (m: MuteSolo)
        ensures
            !m.spec_muted(),
            !m.spec_soloed(),
            !m.spec_any_solo_active(),
    {
        MuteSolo { muted: false, soloed: false, any_solo_active: false }
    }

    pub fn set_mute(&mut self, v: bool)
        ensures
            final(self).spec_muted() == v,
            final(self).spec_soloed() == old(self).spec_soloed(),
            final(self).spec_any_solo_active() == old(self).spec_any_solo_active(),
    {
        self.muted = v;
    }

    pub fn set_solo(&mut self, v: bool)
        ensures
            final(self).spec_soloed() == v,
            final(self).spec_muted() == old(self).spec_muted(),
            final(self).spec_any_solo_active() == old(self).spec_any_solo_active(),
    {
        self.soloed = v;
    }

    /// Tell the strip whether some strip of the mix is soloed.
    pub fn set_any_solo_active(&mut self, v: bool)
        ensures
            final(self).spec_any_solo_active() == v,
            final(self).spec_muted() == old(self).spec_muted(),
            final(self).spec_soloed() == old(self).spec_soloed(),
    {
        self.any_solo_active = v;
    }

    pub fn is_muted(&self) -> (b: bool)
        ensures
            b == self.spec_muted(),
    {
        self.muted
    }

    pub fn is_soloed(&self) -> (b: bool)
        ensures
            b == self.spec_soloed(),
    {
        self.soloed
    }

    /// Whether the strip is heard.
    pub fn is_audible(&self) -> (b: bool)
        ensures
            b == self.audible(),
    {
        !self.muted && !(self.any_solo_active && !self.soloed)
    }

    /// Pass `sample` when the strip is heard, `silence` otherwise.
    pub fn process<T>(&mut self, sample: T, silence: T) -> (out: T)
        ensures
            out == if old(self).audible() { sample } else { silence },
            *final(self) == *old(self),
    {
        if self.muted {
            return silence;
        }
        if self.any_solo_active && !self.soloed {
            return silence;
        }
        sample
    }

    /// Nothing to clear: the switches keep their positions.
    pub fn reset(&mut self)
        ensures
            *final(self) == *old(self),
    {
    }
}

impl Default for MuteSolo {
    fn default() -> (m: MuteSolo)
        ensures
            !m.spec_muted(),
            !m.spec_soloed(),
            !m.spec_any_solo_active(),
    {
        MuteSolo::new()
    }
}

/// Law: a muted strip is silent whatever the solo switches say, and while
/// some strip is soloed only the soloed strips are heard.
pub proof fn lemma_mute_solo_rules(m: MuteSolo)
    ensures
        m.spec_muted() ==> !m.audible(),
        m.spec_any_solo_active() ==> (m.audible() <==> m.spec_soloed() && !m.spec_muted()),
        !m.spec_any_solo_active() ==> (m.audible() <==> !m.spec_muted()),
{
}

/// Polarity switch.
#[derive(Clone, Copy, Debug)]
pub struct PhaseInverter {
    inverted_val: bool,
}

impl PhaseInverter {
    pub closed spec fn spec_inverted(&self) -> bool {
        self.inverted_val
    }

    pub fn new() -> (p: PhaseInverter)
        ensures
            !p.spec_inverted(),
    {
        PhaseInverter { inverted_val: false }
    }

    pub fn set_inverted(&mut self, v: bool)
        ensures
            final(self).spec_inverted() == v,
    {
        self.inverted_val = v;
    }

    pub fn is_inverted(&self) -> (b: bool)
        ensures
            b == self.spec_inverted(),
    {
        self.inverted_val
    }

    /// Pass `negated` (the sample with its sign flipped) when inverting,
    /// `sample` otherwise.
    pub fn process<T>(&mut self, sample: T, negated: T) -> (out: T)
        ensures
            out == if old(self).spec_inverted() { negated } else { sample },
            *final(self) == *old(self),
    {
        if self.inverted_val {
            negated
        } else {
            sample
        }
    }

    /// Nothing to clear: the switch keeps its position.
    pub fn reset(&mut self)
        ensures
            *final(self) == *old(self),
    {
    }
}

impl Default for PhaseInverter {
    fn default() -> (p: PhaseInverter)
        ensures
            !p.spec_inverted(),
    {
        PhaseInverter::new()
    }
}

} // verus!

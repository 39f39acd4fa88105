//! Frequency bands the visualizer reports on.

use vstd::prelude::*;

verus! {

/// Frequency bands and instrument ranges; each variant knows its range.
#[derive(Clone, Copy, Debug, PartialEq, Eq, Hash, Structural)]
pub enum BandKind {
    // Standard / detailed bands
    SubBass,
    Bass,
    UpperBass,
    LowMid,
    Mid,
    UpperMid,
    Presence,
    High,
    Brilliance,
    Air,
    // Instrument bands
    Kick,
    SnareBody,
    SnareCrack,
    Toms,
    Vocal,
    HiHat,
    Cymbals,
}

/// The band's range in hertz, `(min, max)`.
pub open spec fn band_range(k: BandKind) -> (u32, u32) {
    match k {
        BandKind::SubBass => (20, 60),
        BandKind::Bass => (60, 250),
        BandKind::UpperBass => (150, 300),
        BandKind::LowMid => (250, 500),
        BandKind::Mid => (500, 2000),
        BandKind::UpperMid => (2000, 4000),
        BandKind::Presence => (4000, 6000),
        BandKind::High => (4800, 8000),
        BandKind::Brilliance => (6000, 12000),
        BandKind::Air => (12000, 20000),
        BandKind::Kick => (40, 100),
        BandKind::SnareBody => (150, 300),
        BandKind::SnareCrack => (2000, 5000),
        BandKind::Toms => (80, 350),
        BandKind::Vocal => (300, 3400),
        BandKind::HiHat => (6000, 15000),
        BandKind::Cymbals => (5000, 18000),
    }
}

/// Bands laid end to end: each band ends where the next one starts.
pub open spec fn contiguous(bands: Seq<BandKind>) -> bool {
    forall|i: int| 0 <= i < bands.len() - 1 ==> #[trigger] band_range(bands[i]).1 == band_range(bands[i + 1]).0
}

/// The standard bands.
pub open spec fn standard_bands() -> Seq<BandKind> {
    seq![BandKind::SubBass, BandKind::Bass, BandKind::LowMid, BandKind::Mid, BandKind::UpperMid, BandKind::Presence, BandKind::Brilliance, BandKind::Air]
}

/// The instrument-approximation bands.
pub open spec fn instrument_bands() -> Seq<BandKind> {
    seq![BandKind::Kick, BandKind::Bass, BandKind::SnareBody, BandKind::SnareCrack, BandKind::Toms, BandKind::Vocal, BandKind::HiHat, BandKind::Cymbals]
}

/// The detailed bands.
pub open spec fn detailed_bands() -> Seq<BandKind> {
    seq![BandKind::SubBass, BandKind::Bass, BandKind::UpperBass, BandKind::LowMid, BandKind::Mid, BandKind::UpperMid, BandKind::Presence, BandKind::High, BandKind::Brilliance, BandKind::Air]
}

/// The bands whose beats make up the drum beat.
pub open spec fn drum_bands() -> Seq<BandKind> {
    seq![BandKind::Kick, BandKind::SnareBody, BandKind::SnareCrack, BandKind::Toms]
}

/// The bands whose beats make up the bass beat.
pub open spec fn bass_bands() -> Seq<BandKind> {
    seq![BandKind::Kick, BandKind::Bass]
}

impl BandKind {
    /// The `(min_hz, max_hz)` frequency range of this band.
    pub fn freq_range_hz(&self) -> (r: (u32, u32))
        ensures
            r == band_range(*self),
            r.0 < r.1,
    {
        match self {
            BandKind::SubBass => (20, 60),
            BandKind::Bass => (60, 250),
            BandKind::UpperBass => (150, 300),
            BandKind::LowMid => (250, 500),
            BandKind::Mid => (500, 2000),
            BandKind::UpperMid => (2000, 4000),
            BandKind::Presence => (4000, 6000),
            BandKind::High => (4800, 8000),
            BandKind::Brilliance => (6000, 12000),
            BandKind::Air => (12000, 20000),
            BandKind::Kick => (40, 100),
            BandKind::SnareBody => (150, 300),
            BandKind::SnareCrack => (2000, 5000),
            BandKind::Toms => (80, 350),
            BandKind::Vocal => (300, 3400),
            BandKind::HiHat => (6000, 15000),
            BandKind::Cymbals => (5000, 18000),
        }
    }

    /// Standard frequency bands covering the full audible spectrum,
    /// 20 Hz to 20 kHz, end to end.
    pub fn standard() -> (v: Vec<BandKind>)
        ensures
            v@ == standard_bands(),
            contiguous(v@),
            band_range(v@[0]).0 == 20,
            band_range(v@[v@.len() - 1]).1 == 20000,
    {
        let v = vec![BandKind::SubBass, BandKind::Bass, BandKind::LowMid, BandKind::Mid, BandKind::UpperMid, BandKind::Presence, BandKind::Brilliance, BandKind::Air];
        assert(contiguous(v@)) by {
            assert forall|i: int| 0 <= i < v@.len() - 1 implies #[trigger] band_range(v@[i]).1 == band_range(v@[i + 1]).0 by {
                assert(v@ == standard_bands());
            }
        }
        v
    }

    /// Instrument-approximation bands (overlapping ranges).
    pub fn instrument() -> (v: Vec<BandKind>)
        ensures
            v@ == instrument_bands(),
    {
        vec![BandKind::Kick, BandKind::Bass, BandKind::SnareBody, BandKind::SnareCrack, BandKind::Toms, BandKind::Vocal, BandKind::HiHat, BandKind::Cymbals]
    }

    /// Detailed 10-band breakdown with finer mid-range resolution; it
    /// contains every standard band.
    pub fn detailed() -> (v: Vec<BandKind>)
        ensures
            v@ == detailed_bands(),
            v@.len() == 10,
            forall|i: int| 0 <= i < standard_bands().len() ==> v@.contains(#[trigger] standard_bands()[i]),
    {
        let v = vec![BandKind::SubBass, BandKind::Bass, BandKind::UpperBass, BandKind::LowMid, BandKind::Mid, BandKind::UpperMid, BandKind::Presence, BandKind::High, BandKind::Brilliance, BandKind::Air];
        assert forall|i: int| 0 <= i < standard_bands().len() implies v@.contains(#[trigger] standard_bands()[i]) by {
            if i == 0 { assert(v@[0] == standard_bands()[0]); }
            if i == 1 { assert(v@[1] == standard_bands()[1]); }
            if i == 2 { assert(v@[3] == standard_bands()[2]); }
            if i == 3 { assert(v@[4] == standard_bands()[3]); }
            if i == 4 { assert(v@[5] == standard_bands()[4]); }
            if i == 5 { assert(v@[6] == standard_bands()[5]); }
            if i == 6 { assert(v@[8] == standard_bands()[6]); }
            if i == 7 { assert(v@[9] == standard_bands()[7]); }
        }
        v
    }

    /// The bands combined into the drum beat (kick, snare body, snare crack, toms).
    pub fn drum_kinds() -> (v: Vec<BandKind>)
        ensures
            v@ == drum_bands(),
    {
        vec![BandKind::Kick, BandKind::SnareBody, BandKind::SnareCrack, BandKind::Toms]
    }

    /// The bands combined into the bass beat (kick, bass).
    pub fn bass_kinds() -> (v: Vec<BandKind>)
        ensures
            v@ == bass_bands(),
    {
        vec![BandKind::Kick, BandKind::Bass]
    }
}

/// Law: the documented range of every band, in hertz.  Standard and detailed
/// bands: sub-bass 20-60, bass 60-250, upper bass 150-300, low mids 250-500,
/// mids 500-2k, upper mids 2k-4k, presence 4k-6k, highs 4.8k-8k, brilliance
/// 6k-12k, air 12k-20k.  Instruments: kick 40-100, snare body 150-300, snare
/// crack 2k-5k, toms 80-350, vocals 300-3.4k, hi-hat 6k-15k, cymbals 5k-18k.
pub proof fn lemma_band_table()
    ensures
        band_range(BandKind::SubBass) == (20u32, 60u32),
        band_range(BandKind::Bass) == (60u32, 250u32),
        band_range(BandKind::UpperBass) == (150u32, 300u32),
        band_range(BandKind::LowMid) == (250u32, 500u32),
        band_range(BandKind::Mid) == (500u32, 2000u32),
        band_range(BandKind::UpperMid) == (2000u32, 4000u32),
        band_range(BandKind::Presence) == (4000u32, 6000u32),
        band_range(BandKind::High) == (4800u32, 8000u32),
        band_range(BandKind::Brilliance) == (6000u32, 12000u32),
        band_range(BandKind::Air) == (12000u32, 20000u32),
        band_range(BandKind::Kick) == (40u32, 100u32),
        band_range(BandKind::SnareBody) == (150u32, 300u32),
        band_range(BandKind::SnareCrack) == (2000u32, 5000u32),
        band_range(BandKind::Toms) == (80u32, 350u32),
        band_range(BandKind::Vocal) == (300u32, 3400u32),
        band_range(BandKind::HiHat) == (6000u32, 15000u32),
        band_range(BandKind::Cymbals) == (5000u32, 18000u32),
{
}

/// Law: every band is a non-empty range inside the audible spectrum,
/// 20 Hz to 20 kHz.
pub proof fn lemma_bands_audible(k: BandKind)
    ensures
        20 <= band_range(k).0 < band_range(k).1 <= 20000,
{
}

/// Law: the hi-hat and cymbal bands lie wholly in the high range (4 kHz and
/// up), and kick and bass wholly at or below 250 Hz.
pub proof fn lemma_band_registers()
    ensures
        band_range(BandKind::HiHat).0 >= 4000,
        band_range(BandKind::Cymbals).0 >= 4000,
        band_range(BandKind::Kick).1 <= 250,
        band_range(BandKind::Bass).1 <= 250,
{
}

} // verus!

//! Parameter identifiers and the rules for which processor accepts which
//! parameter.

use vstd::prelude::*;
use vstd::string::StringSliceAdditionalSpecFns;
use vstd::utf8::encode_utf8_decode_utf8;

verus! {

/// All possible parameter identifiers.
#[derive(Clone, Copy, Debug, PartialEq, Eq, Hash, Structural)]
pub enum Param {
    // Filter params
    Coefficient,
    Frequency,
    Resonance,
    Q,
    GainDb,
    FilterLength,

    // Delay params
    DelayMs,
    Feedback,
    Mix,
    LoopPlayback,

    // Dynamics params
    Threshold,
    Ratio,
    Attack,
    Release,
    Hold,
    MakeupGain,

    // Distortion params
    Drive,
    BitDepth,
    RateReduction,
    Amount,
    CurveType,

    // Utility params
    GainLinear,
    Pan,
    Mute,
    Solo,
    AnySoloActive,
    TriggerThreshold,
    Inverted,

    // Special
    SampleRate,
}

/// Wave shape curve types.
#[derive(Clone, Copy, Debug, PartialEq, Eq, Hash, Structural)]
pub enum WaveShapeCurve {
    Soft,
    Hard,
    Asymmetric,
    Sine,
    Quadratic,
}

/// Biquad filter types.
#[derive(Clone, Copy, Debug, PartialEq, Eq, Hash, Structural)]
pub enum BiquadType {
    LowPass,
    HighPass,
    BandPass,
    Notch,
    Peaking,
    LowShelf,
    HighShelf,
    AllPass,
}

/// Error type for parameter operations.
#[derive(Clone, Copy, Debug, PartialEq, Eq, Structural)]
pub enum ParamError {
    InvalidParam,
    InvalidValue,
}

/// The kind of an audio processor: which variant of the processor enum it is.
#[derive(Clone, Copy, Debug, PartialEq, Eq, Hash, Structural)]
pub enum ProcessorKind {
    // Filters
    OnePoleLowPass,
    OnePoleHighPass,
    BiquadFilter,
    StateVariableFilter,
    MovingAverage,

    // Delay
    DelayLine,
    FractionalDelay,
    RevertBuffer,

    // Dynamics
    Compressor,
    Limiter,
    EnvelopeFollower,
    NoiseGate,

    // Distortion
    SoftClipper,
    HardClipper,
    BitCrusher,
    WaveShaper,
    Foldback,

    // Utilities
    Gain,
    DCRemover,
    Panner,
    MuteSolo,
    SampleAndHold,
    PhaseInverter,

    // Routing
    Chain,
    Parallel,
    Bypass,
}

/// The display name of a parameter.
pub open spec fn param_name(p: Param) -> &'static str {
    match p {
        Param::Coefficient => "Coefficient",
        Param::Frequency => "Frequency",
        Param::Resonance => "Resonance",
        Param::Q => "Q",
        Param::GainDb => "GainDb",
        Param::FilterLength => "FilterLength",
        Param::DelayMs => "DelayMs",
        Param::Feedback => "Feedback",
        Param::Mix => "Mix",
        Param::LoopPlayback => "LoopPlayback",
        Param::Threshold => "Threshold",
        Param::Ratio => "Ratio",
        Param::Attack => "Attack",
        Param::Release => "Release",
        Param::Hold => "Hold",
        Param::MakeupGain => "MakeupGain",
        Param::Drive => "Drive",
        Param::BitDepth => "BitDepth",
        Param::RateReduction => "RateReduction",
        Param::Amount => "Amount",
        Param::CurveType => "CurveType",
        Param::GainLinear => "GainLinear",
        Param::Pan => "Pan",
        Param::Mute => "Mute",
        Param::Solo => "Solo",
        Param::AnySoloActive => "AnySoloActive",
        Param::TriggerThreshold => "TriggerThreshold",
        Param::Inverted => "Inverted",
        Param::SampleRate => "SampleRate",
    }
}

impl Param {
    /// The parameter's name as it is displayed.
    pub fn name(&self) -> (s: &'static str)
        ensures
            s == param_name(*self),
    {
        match self {
            Param::Coefficient => "Coefficient",
            Param::Frequency => "Frequency",
            Param::Resonance => "Resonance",
            Param::Q => "Q",
            Param::GainDb => "GainDb",
            Param::FilterLength => "FilterLength",
            Param::DelayMs => "DelayMs",
            Param::Feedback => "Feedback",
            Param::Mix => "Mix",
            Param::LoopPlayback => "LoopPlayback",
            Param::Threshold => "Threshold",
            Param::Ratio => "Ratio",
            Param::Attack => "Attack",
            Param::Release => "Release",
            Param::Hold => "Hold",
            Param::MakeupGain => "MakeupGain",
            Param::Drive => "Drive",
            Param::BitDepth => "BitDepth",
            Param::RateReduction => "RateReduction",
            Param::Amount => "Amount",
            Param::CurveType => "CurveType",
            Param::GainLinear => "GainLinear",
            Param::Pan => "Pan",
            Param::Mute => "Mute",
            Param::Solo => "Solo",
            Param::AnySoloActive => "AnySoloActive",
            Param::TriggerThreshold => "TriggerThreshold",
            Param::Inverted => "Inverted",
            Param::SampleRate => "SampleRate",
        }
    }

    /// The parameter's name as an owned string.
    pub fn to_display_string(&self) -> (s: String)
        ensures
            s@ == param_name(*self)@,
    {
        self.name().to_owned()
    }

    /// The parameter a snake_case key names (`"gain_db"` names `GainDb`),
    /// or `None` for a key that names no settable parameter.
    pub fn from_key(key: &str) -> (p: Option<Param>)
        ensures
            p == key_param(key.spec_bytes()),
    {
        let k = key.as_bytes();
        if bytes_equal(k, "coefficient".as_bytes()) {
            Some(Param::Coefficient)
        } else if bytes_equal(k, "frequency".as_bytes()) {
            Some(Param::Frequency)
        } else if bytes_equal(k, "q".as_bytes()) {
            Some(Param::Q)
        } else if bytes_equal(k, "gain_db".as_bytes()) {
            Some(Param::GainDb)
        } else if bytes_equal(k, "resonance".as_bytes()) {
            Some(Param::Resonance)
        } else if bytes_equal(k, "delay_ms".as_bytes()) {
            Some(Param::DelayMs)
        } else if bytes_equal(k, "feedback".as_bytes()) {
            Some(Param::Feedback)
        } else if bytes_equal(k, "mix".as_bytes()) {
            Some(Param::Mix)
        } else if bytes_equal(k, "threshold".as_bytes()) {
            Some(Param::Threshold)
        } else if bytes_equal(k, "ratio".as_bytes()) {
            Some(Param::Ratio)
        } else if bytes_equal(k, "attack".as_bytes()) {
            Some(Param::Attack)
        } else if bytes_equal(k, "release".as_bytes()) {
            Some(Param::Release)
        } else if bytes_equal(k, "makeup_gain".as_bytes()) {
            Some(Param::MakeupGain)
        } else if bytes_equal(k, "hold".as_bytes()) {
            Some(Param::Hold)
        } else if bytes_equal(k, "drive".as_bytes()) {
            Some(Param::Drive)
        } else if bytes_equal(k, "bit_depth".as_bytes()) {
            Some(Param::BitDepth)
        } else if bytes_equal(k, "rate_reduction".as_bytes()) {
            Some(Param::RateReduction)
        } else if bytes_equal(k, "amount".as_bytes()) {
            Some(Param::Amount)
        } else if bytes_equal(k, "gain_linear".as_bytes()) {
            Some(Param::GainLinear)
        } else if bytes_equal(k, "pan".as_bytes()) {
            Some(Param::Pan)
        } else if bytes_equal(k, "mute".as_bytes()) {
            Some(Param::Mute)
        } else if bytes_equal(k, "solo".as_bytes()) {
            Some(Param::Solo)
        } else if bytes_equal(k, "trigger_threshold".as_bytes()) {
            Some(Param::TriggerThreshold)
        } else if bytes_equal(k, "inverted".as_bytes()) {
            Some(Param::Inverted)
        } else {
            None
        }
    }
}

/// The parameter that a snake_case key names, by the key's bytes.
pub open spec fn key_param(k: Seq<u8>) -> Option<Param> {
    if k == "coefficient".spec_bytes() {
        Some(Param::Coefficient)
    } else if k == "frequency".spec_bytes() {
        Some(Param::Frequency)
    } else if k == "q".spec_bytes() {
        Some(Param::Q)
    } else if k == "gain_db".spec_bytes() {
        Some(Param::GainDb)
    } else if k == "resonance".spec_bytes() {
        Some(Param::Resonance)
    } else if k == "delay_ms".spec_bytes() {
        Some(Param::DelayMs)
    } else if k == "feedback".spec_bytes() {
        Some(Param::Feedback)
    } else if k == "mix".spec_bytes() {
        Some(Param::Mix)
    } else if k == "threshold".spec_bytes() {
        Some(Param::Threshold)
    } else if k == "ratio".spec_bytes() {
        Some(Param::Ratio)
    } else if k == "attack".spec_bytes() {
        Some(Param::Attack)
    } else if k == "release".spec_bytes() {
        Some(Param::Release)
    } else if k == "makeup_gain".spec_bytes() {
        Some(Param::MakeupGain)
    } else if k == "hold".spec_bytes() {
        Some(Param::Hold)
    } else if k == "drive".spec_bytes() {
        Some(Param::Drive)
    } else if k == "bit_depth".spec_bytes() {
        Some(Param::BitDepth)
    } else if k == "rate_reduction".spec_bytes() {
        Some(Param::RateReduction)
    } else if k == "amount".spec_bytes() {
        Some(Param::Amount)
    } else if k == "gain_linear".spec_bytes() {
        Some(Param::GainLinear)
    } else if k == "pan".spec_bytes() {
        Some(Param::Pan)
    } else if k == "mute".spec_bytes() {
        Some(Param::Mute)
    } else if k == "solo".spec_bytes() {
        Some(Param::Solo)
    } else if k == "trigger_threshold".spec_bytes() {
        Some(Param::TriggerThreshold)
    } else if k == "inverted".spec_bytes() {
        Some(Param::Inverted)
    } else {
        None
    }
}

/// `c` in upper case, for an ASCII lower-case letter; `c` itself otherwise.
pub open spec fn ascii_upper(c: char) -> char {
    if 97 <= (c as u32) && (c as u32) <= 122 {
        ((c as u32) - 32) as char
    } else {
        c
    }
}

/// CamelCase of a snake_case name, from the given position on: underscores
/// are dropped and the letter after one is upper-cased (as is the first
/// letter when `upper` holds).
pub open spec fn camel_from(c: Seq<char>, upper: bool) -> Seq<char>
    decreases c.len(),
{
    if c.len() == 0 {
        Seq::empty()
    } else if c[0] == '_' {
        camel_from(c.drop_first(), true)
    } else {
        seq![if upper { ascii_upper(c[0]) } else { c[0] }] + camel_from(c.drop_first(), false)
    }
}

/// The CamelCase form of a snake_case name (`"gain_db"` becomes `"GainDb"`).
pub open spec fn camel_case(c: Seq<char>) -> Seq<char> {
    camel_from(c, true)
}

/// Law: a key names the parameter whose display name is the key written in
/// CamelCase: `"attack"` names `Attack`, `"gain_db"` names `GainDb`.
pub proof fn lemma_key_is_snake_name(key: &str, p: Param)
    requires
        key_param(key.spec_bytes()) == Some(p),
    ensures
        camel_case(key@) == param_name(p)@,
{
    match p {
        Param::Coefficient => lemma_key_coefficient(key),
        Param::Frequency => lemma_key_frequency(key),
        Param::Q => lemma_key_q(key),
        Param::GainDb => lemma_key_gain_db(key),
        Param::Resonance => lemma_key_resonance(key),
        Param::DelayMs => lemma_key_delay_ms(key),
        Param::Feedback => lemma_key_feedback(key),
        Param::Mix => lemma_key_mix(key),
        Param::Threshold => lemma_key_threshold(key),
        Param::Ratio => lemma_key_ratio(key),
        Param::Attack => lemma_key_attack(key),
        Param::Release => lemma_key_release(key),
        Param::MakeupGain => lemma_key_makeup_gain(key),
        Param::Hold => lemma_key_hold(key),
        Param::Drive => lemma_key_drive(key),
        Param::BitDepth => lemma_key_bit_depth(key),
        Param::RateReduction => lemma_key_rate_reduction(key),
        Param::Amount => lemma_key_amount(key),
        Param::GainLinear => lemma_key_gain_linear(key),
        Param::Pan => lemma_key_pan(key),
        Param::Mute => lemma_key_mute(key),
        Param::Solo => lemma_key_solo(key),
        Param::TriggerThreshold => lemma_key_trigger_threshold(key),
        Param::Inverted => lemma_key_inverted(key),
        _ => {},
    }
}

proof fn lemma_key_coefficient(key: &str)
    requires
        key_param(key.spec_bytes()) == Some(Param::Coefficient),
    ensures
        camel_case(key@) == param_name(Param::Coefficient)@,
{
    lemma_same_key(key, "coefficient");
    reveal_strlit("coefficient");
    reveal_strlit("Coefficient");
    reveal_with_fuel(camel_from, 12);
    assert(camel_case(key@) =~= "Coefficient"@);
}

proof fn lemma_key_frequency(key: &str)
    requires
        key_param(key.spec_bytes()) == Some(Param::Frequency),
    ensures
        camel_case(key@) == param_name(Param::Frequency)@,
{
    lemma_same_key(key, "frequency");
    reveal_strlit("frequency");
    reveal_strlit("Frequency");
    reveal_with_fuel(camel_from, 10);
    assert(camel_case(key@) =~= "Frequency"@);
}

proof fn lemma_key_q(key: &str)
    requires
        key_param(key.spec_bytes()) == Some(Param::Q),
    ensures
        camel_case(key@) == param_name(Param::Q)@,
{
    lemma_same_key(key, "q");
    reveal_strlit("q");
    reveal_strlit("Q");
    reveal_with_fuel(camel_from, 2);
    assert(camel_case(key@) =~= "Q"@);
}

proof fn lemma_key_gain_db(key: &str)
    requires
        key_param(key.spec_bytes()) == Some(Param::GainDb),
    ensures
        camel_case(key@) == param_name(Param::GainDb)@,
{
    lemma_same_key(key, "gain_db");
    reveal_strlit("gain_db");
    reveal_strlit("GainDb");
    reveal_with_fuel(camel_from, 8);
    assert(camel_case(key@) =~= "GainDb"@);
}

proof fn lemma_key_resonance(key: &str)
    requires
        key_param(key.spec_bytes()) == Some(Param::Resonance),
    ensures
        camel_case(key@) == param_name(Param::Resonance)@,
{
    lemma_same_key(key, "resonance");
    reveal_strlit("resonance");
    reveal_strlit("Resonance");
    reveal_with_fuel(camel_from, 10);
    assert(camel_case(key@) =~= "Resonance"@);
}

proof fn lemma_key_delay_ms(key: &str)
    requires
        key_param(key.spec_bytes()) == Some(Param::DelayMs),
    ensures
        camel_case(key@) == param_name(Param::DelayMs)@,
{
    lemma_same_key(key, "delay_ms");
    reveal_strlit("delay_ms");
    reveal_strlit("DelayMs");
    reveal_with_fuel(camel_from, 9);
    assert(camel_case(key@) =~= "DelayMs"@);
}

proof fn lemma_key_feedback(key: &str)
    requires
        key_param(key.spec_bytes()) == Some(Param::Feedback),
    ensures
        camel_case(key@) == param_name(Param::Feedback)@,
{
    lemma_same_key(key, "feedback");
    reveal_strlit("feedback");
    reveal_strlit("Feedback");
    reveal_with_fuel(camel_from, 9);
    assert(camel_case(key@) =~= "Feedback"@);
}

proof fn lemma_key_mix(key: &str)
    requires
        key_param(key.spec_bytes()) == Some(Param::Mix),
    ensures
        camel_case(key@) == param_name(Param::Mix)@,
{
    lemma_same_key(key, "mix");
    reveal_strlit("mix");
    reveal_strlit("Mix");
    reveal_with_fuel(camel_from, 4);
    assert(camel_case(key@) =~= "Mix"@);
}

proof fn lemma_key_threshold(key: &str)
    requires
        key_param(key.spec_bytes()) == Some(Param::Threshold),
    ensures
        camel_case(key@) == param_name(Param::Threshold)@,
{
    lemma_same_key(key, "threshold");
    reveal_strlit("threshold");
    reveal_strlit("Threshold");
    reveal_with_fuel(camel_from, 10);
    assert(camel_case(key@) =~= "Threshold"@);
}

proof fn lemma_key_ratio(key: &str)
    requires
        key_param(key.spec_bytes()) == Some(Param::Ratio),
    ensures
        camel_case(key@) == param_name(Param::Ratio)@,
{
    lemma_same_key(key, "ratio");
    reveal_strlit("ratio");
    reveal_strlit("Ratio");
    reveal_with_fuel(camel_from, 6);
    assert(camel_case(key@) =~= "Ratio"@);
}

proof fn lemma_key_attack(key: &str)
    requires
        key_param(key.spec_bytes()) == Some(Param::Attack),
    ensures
        camel_case(key@) == param_name(Param::Attack)@,
{
    lemma_same_key(key, "attack");
    reveal_strlit("attack");
    reveal_strlit("Attack");
    reveal_with_fuel(camel_from, 7);
    assert(camel_case(key@) =~= "Attack"@);
}

proof fn lemma_key_release(key: &str)
    requires
        key_param(key.spec_bytes()) == Some(Param::Release),
    ensures
        camel_case(key@) == param_name(Param::Release)@,
{
    lemma_same_key(key, "release");
    reveal_strlit("release");
    reveal_strlit("Release");
    reveal_with_fuel(camel_from, 8);
    assert(camel_case(key@) =~= "Release"@);
}

proof fn lemma_key_makeup_gain(key: &str)
    requires
        key_param(key.spec_bytes()) == Some(Param::MakeupGain),
    ensures
        camel_case(key@) == param_name(Param::MakeupGain)@,
{
    lemma_same_key(key, "makeup_gain");
    reveal_strlit("makeup_gain");
    reveal_strlit("MakeupGain");
    reveal_with_fuel(camel_from, 12);
    assert(camel_case(key@) =~= "MakeupGain"@);
}

proof fn lemma_key_hold(key: &str)
    requires
        key_param(key.spec_bytes()) == Some(Param::Hold),
    ensures
        camel_case(key@) == param_name(Param::Hold)@,
{
    lemma_same_key(key, "hold");
    reveal_strlit("hold");
    reveal_strlit("Hold");
    reveal_with_fuel(camel_from, 5);
    assert(camel_case(key@) =~= "Hold"@);
}

proof fn lemma_key_drive(key: &str)
    requires
        key_param(key.spec_bytes()) == Some(Param::Drive),
    ensures
        camel_case(key@) == param_name(Param::Drive)@,
{
    lemma_same_key(key, "drive");
    reveal_strlit("drive");
    reveal_strlit("Drive");
    reveal_with_fuel(camel_from, 6);
    assert(camel_case(key@) =~= "Drive"@);
}

proof fn lemma_key_bit_depth(key: &str)
    requires
        key_param(key.spec_bytes()) == Some(Param::BitDepth),
    ensures
        camel_case(key@) == param_name(Param::BitDepth)@,
{
    lemma_same_key(key, "bit_depth");
    reveal_strlit("bit_depth");
    reveal_strlit("BitDepth");
    reveal_with_fuel(camel_from, 10);
    assert(camel_case(key@) =~= "BitDepth"@);
}

proof fn lemma_key_rate_reduction(key: &str)
    requires
        key_param(key.spec_bytes()) == Some(Param::RateReduction),
    ensures
        camel_case(key@) == param_name(Param::RateReduction)@,
{
    lemma_same_key(key, "rate_reduction");
    reveal_strlit("rate_reduction");
    reveal_strlit("RateReduction");
    reveal_with_fuel(camel_from, 15);
    assert(camel_case(key@) =~= "RateReduction"@);
}

proof fn lemma_key_amount(key: &str)
    requires
        key_param(key.spec_bytes()) == Some(Param::Amount),
    ensures
        camel_case(key@) == param_name(Param::Amount)@,
{
    lemma_same_key(key, "amount");
    reveal_strlit("amount");
    reveal_strlit("Amount");
    reveal_with_fuel(camel_from, 7);
    assert(camel_case(key@) =~= "Amount"@);
}

proof fn lemma_key_gain_linear(key: &str)
    requires
        key_param(key.spec_bytes()) == Some(Param::GainLinear),
    ensures
        camel_case(key@) == param_name(Param::GainLinear)@,
{
    lemma_same_key(key, "gain_linear");
    reveal_strlit("gain_linear");
    reveal_strlit("GainLinear");
    reveal_with_fuel(camel_from, 12);
    assert(camel_case(key@) =~= "GainLinear"@);
}

proof fn lemma_key_pan(key: &str)
    requires
        key_param(key.spec_bytes()) == Some(Param::Pan),
    ensures
        camel_case(key@) == param_name(Param::Pan)@,
{
    lemma_same_key(key, "pan");
    reveal_strlit("pan");
    reveal_strlit("Pan");
    reveal_with_fuel(camel_from, 4);
    assert(camel_case(key@) =~= "Pan"@);
}

proof fn lemma_key_mute(key: &str)
    requires
        key_param(key.spec_bytes()) == Some(Param::Mute),
    ensures
        camel_case(key@) == param_name(Param::Mute)@,
{
    lemma_same_key(key, "mute");
    reveal_strlit("mute");
    reveal_strlit("Mute");
    reveal_with_fuel(camel_from, 5);
    assert(camel_case(key@) =~= "Mute"@);
}

proof fn lemma_key_solo(key: &str)
    requires
        key_param(key.spec_bytes()) == Some(Param::Solo),
    ensures
        camel_case(key@) == param_name(Param::Solo)@,
{
    lemma_same_key(key, "solo");
    reveal_strlit("solo");
    reveal_strlit("Solo");
    reveal_with_fuel(camel_from, 5);
    assert(camel_case(key@) =~= "Solo"@);
}

proof fn lemma_key_trigger_threshold(key: &str)
    requires
        key_param(key.spec_bytes()) == Some(Param::TriggerThreshold),
    ensures
        camel_case(key@) == param_name(Param::TriggerThreshold)@,
{
    lemma_same_key(key, "trigger_threshold");
    reveal_strlit("trigger_threshold");
    reveal_strlit("TriggerThreshold");
    reveal_with_fuel(camel_from, 18);
    assert(camel_case(key@) =~= "TriggerThreshold"@);
}

proof fn lemma_key_inverted(key: &str)
    requires
        key_param(key.spec_bytes()) == Some(Param::Inverted),
    ensures
        camel_case(key@) == param_name(Param::Inverted)@,
{
    lemma_same_key(key, "inverted");
    reveal_strlit("inverted");
    reveal_strlit("Inverted");
    reveal_with_fuel(camel_from, 9);
    assert(camel_case(key@) =~= "Inverted"@);
}

/// Law: every parameter that can be set by name has a key: all of them but
/// `FilterLength`, `LoopPlayback`, `CurveType`, `AnySoloActive` and
/// `SampleRate`, which are set through their own calls.
pub proof fn lemma_every_settable_param_has_key(p: Param)
    requires
        p != Param::FilterLength,
        p != Param::LoopPlayback,
        p != Param::CurveType,
        p != Param::AnySoloActive,
        p != Param::SampleRate,
    ensures
        exists|key: &str| #[trigger] key_param(key.spec_bytes()) == Some(p),
{
    match p {
        Param::Coefficient => lemma_key_reaches_coefficient(),
        Param::Frequency => lemma_key_reaches_frequency(),
        Param::Q => lemma_key_reaches_q(),
        Param::GainDb => lemma_key_reaches_gain_db(),
        Param::Resonance => lemma_key_reaches_resonance(),
        Param::DelayMs => lemma_key_reaches_delay_ms(),
        Param::Feedback => lemma_key_reaches_feedback(),
        Param::Mix => lemma_key_reaches_mix(),
        Param::Threshold => lemma_key_reaches_threshold(),
        Param::Ratio => lemma_key_reaches_ratio(),
        Param::Attack => lemma_key_reaches_attack(),
        Param::Release => lemma_key_reaches_release(),
        Param::MakeupGain => lemma_key_reaches_makeup_gain(),
        Param::Hold => lemma_key_reaches_hold(),
        Param::Drive => lemma_key_reaches_drive(),
        Param::BitDepth => lemma_key_reaches_bit_depth(),
        Param::RateReduction => lemma_key_reaches_rate_reduction(),
        Param::Amount => lemma_key_reaches_amount(),
        Param::GainLinear => lemma_key_reaches_gain_linear(),
        Param::Pan => lemma_key_reaches_pan(),
        Param::Mute => lemma_key_reaches_mute(),
        Param::Solo => lemma_key_reaches_solo(),
        Param::TriggerThreshold => lemma_key_reaches_trigger_threshold(),
        Param::Inverted => lemma_key_reaches_inverted(),
        _ => {},
    }
}

/// Strings with different characters have different bytes.
proof fn lemma_different_key(a: &str, b: &str)
    requires
        a@ != b@,
    ensures
        a.spec_bytes() != b.spec_bytes(),
{
    encode_utf8_decode_utf8(a@);
    encode_utf8_decode_utf8(b@);
}

proof fn lemma_key_reaches_coefficient()
    ensures
        key_param("coefficient".spec_bytes()) == Some(Param::Coefficient),
{
    reveal_strlit("coefficient");
}

proof fn lemma_key_reaches_frequency()
    ensures
        key_param("frequency".spec_bytes()) == Some(Param::Frequency),
{
    reveal_strlit("frequency");
    reveal_strlit("coefficient");
    lemma_different_key("frequency", "coefficient");
}

proof fn lemma_key_reaches_q()
    ensures
        key_param("q".spec_bytes()) == Some(Param::Q),
{
    reveal_strlit("q");
    reveal_strlit("coefficient");
    lemma_different_key("q", "coefficient");
    reveal_strlit("frequency");
    lemma_different_key("q", "frequency");
}

proof fn lemma_key_reaches_gain_db()
    ensures
        key_param("gain_db".spec_bytes()) == Some(Param::GainDb),
{
    reveal_strlit("gain_db");
    reveal_strlit("coefficient");
    lemma_different_key("gain_db", "coefficient");
    reveal_strlit("frequency");
    lemma_different_key("gain_db", "frequency");
    reveal_strlit("q");
    lemma_different_key("gain_db", "q");
}

proof fn lemma_key_reaches_resonance()
    ensures
        key_param("resonance".spec_bytes()) == Some(Param::Resonance),
{
    reveal_strlit("resonance");
    reveal_strlit("coefficient");
    lemma_different_key("resonance", "coefficient");
    reveal_strlit("frequency");
    assert("resonance"@[0] != "frequency"@[0]);
    lemma_different_key("resonance", "frequency");
    reveal_strlit("q");
    lemma_different_key("resonance", "q");
    reveal_strlit("gain_db");
    lemma_different_key("resonance", "gain_db");
}

proof fn lemma_key_reaches_delay_ms()
    ensures
        key_param("delay_ms".spec_bytes()) == Some(Param::DelayMs),
{
    reveal_strlit("delay_ms");
    reveal_strlit("coefficient");
    lemma_different_key("delay_ms", "coefficient");
    reveal_strlit("frequency");
    lemma_different_key("delay_ms", "frequency");
    reveal_strlit("q");
    lemma_different_key("delay_ms", "q");
    reveal_strlit("gain_db");
    lemma_different_key("delay_ms", "gain_db");
    reveal_strlit("resonance");
    lemma_different_key("delay_ms", "resonance");
}

proof fn lemma_key_reaches_feedback()
    ensures
        key_param("feedback".spec_bytes()) == Some(Param::Feedback),
{
    reveal_strlit("feedback");
    reveal_strlit("coefficient");
    lemma_different_key("feedback", "coefficient");
    reveal_strlit("frequency");
    lemma_different_key("feedback", "frequency");
    reveal_strlit("q");
    lemma_different_key("feedback", "q");
    reveal_strlit("gain_db");
    lemma_different_key("feedback", "gain_db");
    reveal_strlit("resonance");
    lemma_different_key("feedback", "resonance");
    reveal_strlit("delay_ms");
    assert("feedback"@[0] != "delay_ms"@[0]);
    lemma_different_key("feedback", "delay_ms");
}

proof fn lemma_key_reaches_mix()
    ensures
        key_param("mix".spec_bytes()) == Some(Param::Mix),
{
    reveal_strlit("mix");
    reveal_strlit("coefficient");
    lemma_different_key("mix", "coefficient");
    reveal_strlit("frequency");
    lemma_different_key("mix", "frequency");
    reveal_strlit("q");
    lemma_different_key("mix", "q");
    reveal_strlit("gain_db");
    lemma_different_key("mix", "gain_db");
    reveal_strlit("resonance");
    lemma_different_key("mix", "resonance");
    reveal_strlit("delay_ms");
    lemma_different_key("mix", "delay_ms");
    reveal_strlit("feedback");
    lemma_different_key("mix", "feedback");
}

proof fn lemma_key_reaches_threshold()
    ensures
        key_param("threshold".spec_bytes()) == Some(Param::Threshold),
{
    reveal_strlit("threshold");
    reveal_strlit("coefficient");
    lemma_different_key("threshold", "coefficient");
    reveal_strlit("frequency");
    assert("threshold"@[0] != "frequency"@[0]);
    lemma_different_key("threshold", "frequency");
    reveal_strlit("q");
    lemma_different_key("threshold", "q");
    reveal_strlit("gain_db");
    lemma_different_key("threshold", "gain_db");
    reveal_strlit("resonance");
    assert("threshold"@[0] != "resonance"@[0]);
    lemma_different_key("threshold", "resonance");
    reveal_strlit("delay_ms");
    lemma_different_key("threshold", "delay_ms");
    reveal_strlit("feedback");
    lemma_different_key("threshold", "feedback");
    reveal_strlit("mix");
    lemma_different_key("threshold", "mix");
}

proof fn lemma_key_reaches_ratio()
    ensures
        key_param("ratio".spec_bytes()) == Some(Param::Ratio),
{
    reveal_strlit("ratio");
    reveal_strlit("coefficient");
    lemma_different_key("ratio", "coefficient");
    reveal_strlit("frequency");
    lemma_different_key("ratio", "frequency");
    reveal_strlit("q");
    lemma_different_key("ratio", "q");
    reveal_strlit("gain_db");
    lemma_different_key("ratio", "gain_db");
    reveal_strlit("resonance");
    lemma_different_key("ratio", "resonance");
    reveal_strlit("delay_ms");
    lemma_different_key("ratio", "delay_ms");
    reveal_strlit("feedback");
    lemma_different_key("ratio", "feedback");
    reveal_strlit("mix");
    lemma_different_key("ratio", "mix");
    reveal_strlit("threshold");
    lemma_different_key("ratio", "threshold");
}

proof fn lemma_key_reaches_attack()
    ensures
        key_param("attack".spec_bytes()) == Some(Param::Attack),
{
    reveal_strlit("attack");
    reveal_strlit("coefficient");
    lemma_different_key("attack", "coefficient");
    reveal_strlit("frequency");
    lemma_different_key("attack", "frequency");
    reveal_strlit("q");
    lemma_different_key("attack", "q");
    reveal_strlit("gain_db");
    lemma_different_key("attack", "gain_db");
    reveal_strlit("resonance");
    lemma_different_key("attack", "resonance");
    reveal_strlit("delay_ms");
    lemma_different_key("attack", "delay_ms");
    reveal_strlit("feedback");
    lemma_different_key("attack", "feedback");
    reveal_strlit("mix");
    lemma_different_key("attack", "mix");
    reveal_strlit("threshold");
    lemma_different_key("attack", "threshold");
    reveal_strlit("ratio");
    lemma_different_key("attack", "ratio");
}

proof fn lemma_key_reaches_release()
    ensures
        key_param("release".spec_bytes()) == Some(Param::Release),
{
    reveal_strlit("release");
    reveal_strlit("coefficient");
    lemma_different_key("release", "coefficient");
    reveal_strlit("frequency");
    lemma_different_key("release", "frequency");
    reveal_strlit("q");
    lemma_different_key("release", "q");
    reveal_strlit("gain_db");
    assert("release"@[0] != "gain_db"@[0]);
    lemma_different_key("release", "gain_db");
    reveal_strlit("resonance");
    lemma_different_key("release", "resonance");
    reveal_strlit("delay_ms");
    lemma_different_key("release", "delay_ms");
    reveal_strlit("feedback");
    lemma_different_key("release", "feedback");
    reveal_strlit("mix");
    lemma_different_key("release", "mix");
    reveal_strlit("threshold");
    lemma_different_key("release", "threshold");
    reveal_strlit("ratio");
    lemma_different_key("release", "ratio");
    reveal_strlit("attack");
    lemma_different_key("release", "attack");
}

proof fn lemma_key_reaches_makeup_gain()
    ensures
        key_param("makeup_gain".spec_bytes()) == Some(Param::MakeupGain),
{
    reveal_strlit("makeup_gain");
    reveal_strlit("coefficient");
    assert("makeup_gain"@[0] != "coefficient"@[0]);
    lemma_different_key("makeup_gain", "coefficient");
    reveal_strlit("frequency");
    lemma_different_key("makeup_gain", "frequency");
    reveal_strlit("q");
    lemma_different_key("makeup_gain", "q");
    reveal_strlit("gain_db");
    lemma_different_key("makeup_gain", "gain_db");
    reveal_strlit("resonance");
    lemma_different_key("makeup_gain", "resonance");
    reveal_strlit("delay_ms");
    lemma_different_key("makeup_gain", "delay_ms");
    reveal_strlit("feedback");
    lemma_different_key("makeup_gain", "feedback");
    reveal_strlit("mix");
    lemma_different_key("makeup_gain", "mix");
    reveal_strlit("threshold");
    lemma_different_key("makeup_gain", "threshold");
    reveal_strlit("ratio");
    lemma_different_key("makeup_gain", "ratio");
    reveal_strlit("attack");
    lemma_different_key("makeup_gain", "attack");
    reveal_strlit("release");
    lemma_different_key("makeup_gain", "release");
}

proof fn lemma_key_reaches_hold()
    ensures
        key_param("hold".spec_bytes()) == Some(Param::Hold),
{
    reveal_strlit("hold");
    reveal_strlit("coefficient");
    lemma_different_key("hold", "coefficient");
    reveal_strlit("frequency");
    lemma_different_key("hold", "frequency");
    reveal_strlit("q");
    lemma_different_key("hold", "q");
    reveal_strlit("gain_db");
    lemma_different_key("hold", "gain_db");
    reveal_strlit("resonance");
    lemma_different_key("hold", "resonance");
    reveal_strlit("delay_ms");
    lemma_different_key("hold", "delay_ms");
    reveal_strlit("feedback");
    lemma_different_key("hold", "feedback");
    reveal_strlit("mix");
    lemma_different_key("hold", "mix");
    reveal_strlit("threshold");
    lemma_different_key("hold", "threshold");
    reveal_strlit("ratio");
    lemma_different_key("hold", "ratio");
    reveal_strlit("attack");
    lemma_different_key("hold", "attack");
    reveal_strlit("release");
    lemma_different_key("hold", "release");
    reveal_strlit("makeup_gain");
    lemma_different_key("hold", "makeup_gain");
}

proof fn lemma_key_reaches_drive()
    ensures
        key_param("drive".spec_bytes()) == Some(Param::Drive),
{
    reveal_strlit("drive");
    reveal_strlit("coefficient");
    lemma_different_key("drive", "coefficient");
    reveal_strlit("frequency");
    lemma_different_key("drive", "frequency");
    reveal_strlit("q");
    lemma_different_key("drive", "q");
    reveal_strlit("gain_db");
    lemma_different_key("drive", "gain_db");
    reveal_strlit("resonance");
    lemma_different_key("drive", "resonance");
    reveal_strlit("delay_ms");
    lemma_different_key("drive", "delay_ms");
    reveal_strlit("feedback");
    lemma_different_key("drive", "feedback");
    reveal_strlit("mix");
    lemma_different_key("drive", "mix");
    reveal_strlit("threshold");
    lemma_different_key("drive", "threshold");
    reveal_strlit("ratio");
    assert("drive"@[0] != "ratio"@[0]);
    lemma_different_key("drive", "ratio");
    reveal_strlit("attack");
    lemma_different_key("drive", "attack");
    reveal_strlit("release");
    lemma_different_key("drive", "release");
    reveal_strlit("makeup_gain");
    lemma_different_key("drive", "makeup_gain");
    reveal_strlit("hold");
    lemma_different_key("drive", "hold");
}

proof fn lemma_key_reaches_bit_depth()
    ensures
        key_param("bit_depth".spec_bytes()) == Some(Param::BitDepth),
{
    reveal_strlit("bit_depth");
    reveal_strlit("coefficient");
    lemma_different_key("bit_depth", "coefficient");
    reveal_strlit("frequency");
    assert("bit_depth"@[0] != "frequency"@[0]);
    lemma_different_key("bit_depth", "frequency");
    reveal_strlit("q");
    lemma_different_key("bit_depth", "q");
    reveal_strlit("gain_db");
    lemma_different_key("bit_depth", "gain_db");
    reveal_strlit("resonance");
    assert("bit_depth"@[0] != "resonance"@[0]);
    lemma_different_key("bit_depth", "resonance");
    reveal_strlit("delay_ms");
    lemma_different_key("bit_depth", "delay_ms");
    reveal_strlit("feedback");
    lemma_different_key("bit_depth", "feedback");
    reveal_strlit("mix");
    lemma_different_key("bit_depth", "mix");
    reveal_strlit("threshold");
    assert("bit_depth"@[0] != "threshold"@[0]);
    lemma_different_key("bit_depth", "threshold");
    reveal_strlit("ratio");
    lemma_different_key("bit_depth", "ratio");
    reveal_strlit("attack");
    lemma_different_key("bit_depth", "attack");
    reveal_strlit("release");
    lemma_different_key("bit_depth", "release");
    reveal_strlit("makeup_gain");
    lemma_different_key("bit_depth", "makeup_gain");
    reveal_strlit("hold");
    lemma_different_key("bit_depth", "hold");
    reveal_strlit("drive");
    lemma_different_key("bit_depth", "drive");
}

proof fn lemma_key_reaches_rate_reduction()
    ensures
        key_param("rate_reduction".spec_bytes()) == Some(Param::RateReduction),
{
    reveal_strlit("rate_reduction");
    reveal_strlit("coefficient");
    lemma_different_key("rate_reduction", "coefficient");
    reveal_strlit("frequency");
    lemma_different_key("rate_reduction", "frequency");
    reveal_strlit("q");
    lemma_different_key("rate_reduction", "q");
    reveal_strlit("gain_db");
    lemma_different_key("rate_reduction", "gain_db");
    reveal_strlit("resonance");
    lemma_different_key("rate_reduction", "resonance");
    reveal_strlit("delay_ms");
    lemma_different_key("rate_reduction", "delay_ms");
    reveal_strlit("feedback");
    lemma_different_key("rate_reduction", "feedback");
    reveal_strlit("mix");
    lemma_different_key("rate_reduction", "mix");
    reveal_strlit("threshold");
    lemma_different_key("rate_reduction", "threshold");
    reveal_strlit("ratio");
    lemma_different_key("rate_reduction", "ratio");
    reveal_strlit("attack");
    lemma_different_key("rate_reduction", "attack");
    reveal_strlit("release");
    lemma_different_key("rate_reduction", "release");
    reveal_strlit("makeup_gain");
    lemma_different_key("rate_reduction", "makeup_gain");
    reveal_strlit("hold");
    lemma_different_key("rate_reduction", "hold");
    reveal_strlit("drive");
    lemma_different_key("rate_reduction", "drive");
    reveal_strlit("bit_depth");
    lemma_different_key("rate_reduction", "bit_depth");
}

proof fn lemma_key_reaches_amount()
    ensures
        key_param("amount".spec_bytes()) == Some(Param::Amount),
{
    reveal_strlit("amount");
    reveal_strlit("coefficient");
    lemma_different_key("amount", "coefficient");
    reveal_strlit("frequency");
    lemma_different_key("amount", "frequency");
    reveal_strlit("q");
    lemma_different_key("amount", "q");
    reveal_strlit("gain_db");
    lemma_different_key("amount", "gain_db");
    reveal_strlit("resonance");
    lemma_different_key("amount", "resonance");
    reveal_strlit("delay_ms");
    lemma_different_key("amount", "delay_ms");
    reveal_strlit("feedback");
    lemma_different_key("amount", "feedback");
    reveal_strlit("mix");
    lemma_different_key("amount", "mix");
    reveal_strlit("threshold");
    lemma_different_key("amount", "threshold");
    reveal_strlit("ratio");
    lemma_different_key("amount", "ratio");
    reveal_strlit("attack");
    assert("amount"@[1] != "attack"@[1]);
    lemma_different_key("amount", "attack");
    reveal_strlit("release");
    lemma_different_key("amount", "release");
    reveal_strlit("makeup_gain");
    lemma_different_key("amount", "makeup_gain");
    reveal_strlit("hold");
    lemma_different_key("amount", "hold");
    reveal_strlit("drive");
    lemma_different_key("amount", "drive");
    reveal_strlit("bit_depth");
    lemma_different_key("amount", "bit_depth");
    reveal_strlit("rate_reduction");
    lemma_different_key("amount", "rate_reduction");
}

proof fn lemma_key_reaches_gain_linear()
    ensures
        key_param("gain_linear".spec_bytes()) == Some(Param::GainLinear),
{
    reveal_strlit("gain_linear");
    reveal_strlit("coefficient");
    assert("gain_linear"@[0] != "coefficient"@[0]);
    lemma_different_key("gain_linear", "coefficient");
    reveal_strlit("frequency");
    lemma_different_key("gain_linear", "frequency");
    reveal_strlit("q");
    lemma_different_key("gain_linear", "q");
    reveal_strlit("gain_db");
    lemma_different_key("gain_linear", "gain_db");
    reveal_strlit("resonance");
    lemma_different_key("gain_linear", "resonance");
    reveal_strlit("delay_ms");
    lemma_different_key("gain_linear", "delay_ms");
    reveal_strlit("feedback");
    lemma_different_key("gain_linear", "feedback");
    reveal_strlit("mix");
    lemma_different_key("gain_linear", "mix");
    reveal_strlit("threshold");
    lemma_different_key("gain_linear", "threshold");
    reveal_strlit("ratio");
    lemma_different_key("gain_linear", "ratio");
    reveal_strlit("attack");
    lemma_different_key("gain_linear", "attack");
    reveal_strlit("release");
    lemma_different_key("gain_linear", "release");
    reveal_strlit("makeup_gain");
    assert("gain_linear"@[0] != "makeup_gain"@[0]);
    lemma_different_key("gain_linear", "makeup_gain");
    reveal_strlit("hold");
    lemma_different_key("gain_linear", "hold");
    reveal_strlit("drive");
    lemma_different_key("gain_linear", "drive");
    reveal_strlit("bit_depth");
    lemma_different_key("gain_linear", "bit_depth");
    reveal_strlit("rate_reduction");
    lemma_different_key("gain_linear", "rate_reduction");
    reveal_strlit("amount");
    lemma_different_key("gain_linear", "amount");
}

proof fn lemma_key_reaches_pan()
    ensures
        key_param("pan".spec_bytes()) == Some(Param::Pan),
{
    reveal_strlit("pan");
    reveal_strlit("coefficient");
    lemma_different_key("pan", "coefficient");
    reveal_strlit("frequency");
    lemma_different_key("pan", "frequency");
    reveal_strlit("q");
    lemma_different_key("pan", "q");
    reveal_strlit("gain_db");
    lemma_different_key("pan", "gain_db");
    reveal_strlit("resonance");
    lemma_different_key("pan", "resonance");
    reveal_strlit("delay_ms");
    lemma_different_key("pan", "delay_ms");
    reveal_strlit("feedback");
    lemma_different_key("pan", "feedback");
    reveal_strlit("mix");
    assert("pan"@[0] != "mix"@[0]);
    lemma_different_key("pan", "mix");
    reveal_strlit("threshold");
    lemma_different_key("pan", "threshold");
    reveal_strlit("ratio");
    lemma_different_key("pan", "ratio");
    reveal_strlit("attack");
    lemma_different_key("pan", "attack");
    reveal_strlit("release");
    lemma_different_key("pan", "release");
    reveal_strlit("makeup_gain");
    lemma_different_key("pan", "makeup_gain");
    reveal_strlit("hold");
    lemma_different_key("pan", "hold");
    reveal_strlit("drive");
    lemma_different_key("pan", "drive");
    reveal_strlit("bit_depth");
    lemma_different_key("pan", "bit_depth");
    reveal_strlit("rate_reduction");
    lemma_different_key("pan", "rate_reduction");
    reveal_strlit("amount");
    lemma_different_key("pan", "amount");
    reveal_strlit("gain_linear");
    lemma_different_key("pan", "gain_linear");
}

proof fn lemma_key_reaches_mute()
    ensures
        key_param("mute".spec_bytes()) == Some(Param::Mute),
{
    reveal_strlit("mute");
    reveal_strlit("coefficient");
    lemma_different_key("mute", "coefficient");
    reveal_strlit("frequency");
    lemma_different_key("mute", "frequency");
    reveal_strlit("q");
    lemma_different_key("mute", "q");
    reveal_strlit("gain_db");
    lemma_different_key("mute", "gain_db");
    reveal_strlit("resonance");
    lemma_different_key("mute", "resonance");
    reveal_strlit("delay_ms");
    lemma_different_key("mute", "delay_ms");
    reveal_strlit("feedback");
    lemma_different_key("mute", "feedback");
    reveal_strlit("mix");
    lemma_different_key("mute", "mix");
    reveal_strlit("threshold");
    lemma_different_key("mute", "threshold");
    reveal_strlit("ratio");
    lemma_different_key("mute", "ratio");
    reveal_strlit("attack");
    lemma_different_key("mute", "attack");
    reveal_strlit("release");
    lemma_different_key("mute", "release");
    reveal_strlit("makeup_gain");
    lemma_different_key("mute", "makeup_gain");
    reveal_strlit("hold");
    assert("mute"@[0] != "hold"@[0]);
    lemma_different_key("mute", "hold");
    reveal_strlit("drive");
    lemma_different_key("mute", "drive");
    reveal_strlit("bit_depth");
    lemma_different_key("mute", "bit_depth");
    reveal_strlit("rate_reduction");
    lemma_different_key("mute", "rate_reduction");
    reveal_strlit("amount");
    lemma_different_key("mute", "amount");
    reveal_strlit("gain_linear");
    lemma_different_key("mute", "gain_linear");
    reveal_strlit("pan");
    lemma_different_key("mute", "pan");
}

proof fn lemma_key_reaches_solo()
    ensures
        key_param("solo".spec_bytes()) == Some(Param::Solo),
{
    reveal_strlit("solo");
    reveal_strlit("coefficient");
    lemma_different_key("solo", "coefficient");
    reveal_strlit("frequency");
    lemma_different_key("solo", "frequency");
    reveal_strlit("q");
    lemma_different_key("solo", "q");
    reveal_strlit("gain_db");
    lemma_different_key("solo", "gain_db");
    reveal_strlit("resonance");
    lemma_different_key("solo", "resonance");
    reveal_strlit("delay_ms");
    lemma_different_key("solo", "delay_ms");
    reveal_strlit("feedback");
    lemma_different_key("solo", "feedback");
    reveal_strlit("mix");
    lemma_different_key("solo", "mix");
    reveal_strlit("threshold");
    lemma_different_key("solo", "threshold");
    reveal_strlit("ratio");
    lemma_different_key("solo", "ratio");
    reveal_strlit("attack");
    lemma_different_key("solo", "attack");
    reveal_strlit("release");
    lemma_different_key("solo", "release");
    reveal_strlit("makeup_gain");
    lemma_different_key("solo", "makeup_gain");
    reveal_strlit("hold");
    assert("solo"@[0] != "hold"@[0]);
    lemma_different_key("solo", "hold");
    reveal_strlit("drive");
    lemma_different_key("solo", "drive");
    reveal_strlit("bit_depth");
    lemma_different_key("solo", "bit_depth");
    reveal_strlit("rate_reduction");
    lemma_different_key("solo", "rate_reduction");
    reveal_strlit("amount");
    lemma_different_key("solo", "amount");
    reveal_strlit("gain_linear");
    lemma_different_key("solo", "gain_linear");
    reveal_strlit("pan");
    lemma_different_key("solo", "pan");
    reveal_strlit("mute");
    assert("solo"@[0] != "mute"@[0]);
    lemma_different_key("solo", "mute");
}

proof fn lemma_key_reaches_trigger_threshold()
    ensures
        key_param("trigger_threshold".spec_bytes()) == Some(Param::TriggerThreshold),
{
    reveal_strlit("trigger_threshold");
    reveal_strlit("coefficient");
    lemma_different_key("trigger_threshold", "coefficient");
    reveal_strlit("frequency");
    lemma_different_key("trigger_threshold", "frequency");
    reveal_strlit("q");
    lemma_different_key("trigger_threshold", "q");
    reveal_strlit("gain_db");
    lemma_different_key("trigger_threshold", "gain_db");
    reveal_strlit("resonance");
    lemma_different_key("trigger_threshold", "resonance");
    reveal_strlit("delay_ms");
    lemma_different_key("trigger_threshold", "delay_ms");
    reveal_strlit("feedback");
    lemma_different_key("trigger_threshold", "feedback");
    reveal_strlit("mix");
    lemma_different_key("trigger_threshold", "mix");
    reveal_strlit("threshold");
    lemma_different_key("trigger_threshold", "threshold");
    reveal_strlit("ratio");
    lemma_different_key("trigger_threshold", "ratio");
    reveal_strlit("attack");
    lemma_different_key("trigger_threshold", "attack");
    reveal_strlit("release");
    lemma_different_key("trigger_threshold", "release");
    reveal_strlit("makeup_gain");
    lemma_different_key("trigger_threshold", "makeup_gain");
    reveal_strlit("hold");
    lemma_different_key("trigger_threshold", "hold");
    reveal_strlit("drive");
    lemma_different_key("trigger_threshold", "drive");
    reveal_strlit("bit_depth");
    lemma_different_key("trigger_threshold", "bit_depth");
    reveal_strlit("rate_reduction");
    lemma_different_key("trigger_threshold", "rate_reduction");
    reveal_strlit("amount");
    lemma_different_key("trigger_threshold", "amount");
    reveal_strlit("gain_linear");
    lemma_different_key("trigger_threshold", "gain_linear");
    reveal_strlit("pan");
    lemma_different_key("trigger_threshold", "pan");
    reveal_strlit("mute");
    lemma_different_key("trigger_threshold", "mute");
    reveal_strlit("solo");
    lemma_different_key("trigger_threshold", "solo");
}

proof fn lemma_key_reaches_inverted()
    ensures
        key_param("inverted".spec_bytes()) == Some(Param::Inverted),
{
    reveal_strlit("inverted");
    reveal_strlit("coefficient");
    lemma_different_key("inverted", "coefficient");
    reveal_strlit("frequency");
    lemma_different_key("inverted", "frequency");
    reveal_strlit("q");
    lemma_different_key("inverted", "q");
    reveal_strlit("gain_db");
    lemma_different_key("inverted", "gain_db");
    reveal_strlit("resonance");
    lemma_different_key("inverted", "resonance");
    reveal_strlit("delay_ms");
    assert("inverted"@[0] != "delay_ms"@[0]);
    lemma_different_key("inverted", "delay_ms");
    reveal_strlit("feedback");
    assert("inverted"@[0] != "feedback"@[0]);
    lemma_different_key("inverted", "feedback");
    reveal_strlit("mix");
    lemma_different_key("inverted", "mix");
    reveal_strlit("threshold");
    lemma_different_key("inverted", "threshold");
    reveal_strlit("ratio");
    lemma_different_key("inverted", "ratio");
    reveal_strlit("attack");
    lemma_different_key("inverted", "attack");
    reveal_strlit("release");
    lemma_different_key("inverted", "release");
    reveal_strlit("makeup_gain");
    lemma_different_key("inverted", "makeup_gain");
    reveal_strlit("hold");
    lemma_different_key("inverted", "hold");
    reveal_strlit("drive");
    lemma_different_key("inverted", "drive");
    reveal_strlit("bit_depth");
    lemma_different_key("inverted", "bit_depth");
    reveal_strlit("rate_reduction");
    lemma_different_key("inverted", "rate_reduction");
    reveal_strlit("amount");
    lemma_different_key("inverted", "amount");
    reveal_strlit("gain_linear");
    lemma_different_key("inverted", "gain_linear");
    reveal_strlit("pan");
    lemma_different_key("inverted", "pan");
    reveal_strlit("mute");
    lemma_different_key("inverted", "mute");
    reveal_strlit("solo");
    lemma_different_key("inverted", "solo");
    reveal_strlit("trigger_threshold");
    lemma_different_key("inverted", "trigger_threshold");
}

/// Strings with the same bytes have the same characters.
proof fn lemma_same_key(a: &str, b: &str)
    requires
        a.spec_bytes() == b.spec_bytes(),
    ensures
        a@ == b@,
{
    encode_utf8_decode_utf8(a@);
    encode_utf8_decode_utf8(b@);
}

/// Whether two byte strings are equal.
fn bytes_equal(a: &[u8], b: &[u8]) -> (r: bool)
    ensures
        r == (a@ == b@),
{
    if a.len() != b.len() {
        return false;
    }
    let mut i: usize = 0;
    while i < a.len()
        invariant
            i <= a@.len(),
            a@.len() == b@.len(),
            forall|j: int| 0 <= j < i ==> a@[j] == b@[j],
        decreases a@.len() - i,
    {
        if a[i] != b[i] {
            return false;
        }
        i = i + 1;
    }
    assert(a@ =~= b@);
    true
}

/// The display name of a processor kind.
pub open spec fn kind_name(k: ProcessorKind) -> &'static str {
    match k {
        ProcessorKind::OnePoleLowPass => "OnePoleLowPass",
        ProcessorKind::OnePoleHighPass => "OnePoleHighPass",
        ProcessorKind::BiquadFilter => "BiquadFilter",
        ProcessorKind::StateVariableFilter => "StateVariableFilter",
        ProcessorKind::MovingAverage => "MovingAverage",
        ProcessorKind::DelayLine => "DelayLine",
        ProcessorKind::FractionalDelay => "FractionalDelay",
        ProcessorKind::RevertBuffer => "RevertBuffer",
        ProcessorKind::Compressor => "Compressor",
        ProcessorKind::Limiter => "Limiter",
        ProcessorKind::EnvelopeFollower => "EnvelopeFollower",
        ProcessorKind::NoiseGate => "NoiseGate",
        ProcessorKind::SoftClipper => "SoftClipper",
        ProcessorKind::HardClipper => "HardClipper",
        ProcessorKind::BitCrusher => "BitCrusher",
        ProcessorKind::WaveShaper => "WaveShaper",
        ProcessorKind::Foldback => "Foldback",
        ProcessorKind::Gain => "Gain",
        ProcessorKind::DCRemover => "DCRemover",
        ProcessorKind::Panner => "Panner",
        ProcessorKind::MuteSolo => "MuteSolo",
        ProcessorKind::SampleAndHold => "SampleAndHold",
        ProcessorKind::PhaseInverter => "PhaseInverter",
        ProcessorKind::Chain => "Chain",
        ProcessorKind::Parallel => "Parallel",
        ProcessorKind::Bypass => "Bypass",
    }
}

/// The parameters a processor of kind `k` lists as valid.
pub open spec fn valid_params_of(k: ProcessorKind) -> Seq<Param> {
    match k {
        ProcessorKind::OnePoleLowPass => seq![Param::Coefficient],
        ProcessorKind::OnePoleHighPass => seq![Param::Coefficient],
        ProcessorKind::BiquadFilter => seq![Param::Frequency, Param::Q, Param::GainDb],
        ProcessorKind::StateVariableFilter => seq![Param::Frequency, Param::Resonance],
        ProcessorKind::MovingAverage => Seq::<Param>::empty(),
        ProcessorKind::DelayLine => seq![Param::DelayMs, Param::Feedback, Param::Mix],
        ProcessorKind::FractionalDelay => seq![Param::DelayMs, Param::Feedback, Param::Mix],
        ProcessorKind::RevertBuffer => seq![Param::Mix],
        ProcessorKind::Compressor => seq![Param::Threshold, Param::Ratio, Param::Attack, Param::Release, Param::MakeupGain],
        ProcessorKind::Limiter => seq![Param::Threshold, Param::Release],
        ProcessorKind::EnvelopeFollower => seq![Param::Attack, Param::Release],
        ProcessorKind::NoiseGate => seq![Param::Threshold, Param::Attack, Param::Hold, Param::Release],
        ProcessorKind::SoftClipper => seq![Param::Drive, Param::Mix],
        ProcessorKind::HardClipper => seq![Param::Threshold, Param::Mix],
        ProcessorKind::BitCrusher => seq![Param::BitDepth, Param::RateReduction],
        ProcessorKind::WaveShaper => seq![Param::Amount],
        ProcessorKind::Foldback => seq![Param::Threshold],
        ProcessorKind::Gain => seq![Param::GainDb, Param::GainLinear],
        ProcessorKind::DCRemover => Seq::<Param>::empty(),
        ProcessorKind::Panner => seq![Param::Pan],
        ProcessorKind::MuteSolo => seq![Param::Mute, Param::Solo, Param::AnySoloActive],
        ProcessorKind::SampleAndHold => seq![Param::TriggerThreshold],
        ProcessorKind::PhaseInverter => seq![Param::Inverted],
        ProcessorKind::Chain => Seq::<Param>::empty(),
        ProcessorKind::Parallel => seq![Param::Mix],
        ProcessorKind::Bypass => Seq::<Param>::empty(),
    }
}

/// Whether a processor of kind `k` reports the value of parameter `p`.
pub open spec fn gettable(k: ProcessorKind, p: Param) -> bool {
    match k {
        ProcessorKind::OnePoleLowPass => p == Param::Coefficient,
        ProcessorKind::OnePoleHighPass => p == Param::Coefficient,
        ProcessorKind::BiquadFilter => p == Param::Frequency || p == Param::Q || p == Param::GainDb,
        ProcessorKind::StateVariableFilter => p == Param::Frequency || p == Param::Resonance,
        ProcessorKind::MovingAverage => false,
        ProcessorKind::DelayLine => p == Param::Feedback || p == Param::Mix,
        ProcessorKind::FractionalDelay => p == Param::Feedback || p == Param::Mix,
        ProcessorKind::RevertBuffer => p == Param::Mix,
        ProcessorKind::Compressor => p == Param::Threshold || p == Param::Ratio || p == Param::Attack || p == Param::Release || p == Param::MakeupGain,
        ProcessorKind::Limiter => p == Param::Threshold || p == Param::Release,
        ProcessorKind::EnvelopeFollower => p == Param::Attack || p == Param::Release,
        ProcessorKind::NoiseGate => p == Param::Threshold || p == Param::Attack || p == Param::Hold || p == Param::Release,
        ProcessorKind::SoftClipper => p == Param::Drive || p == Param::Mix,
        ProcessorKind::HardClipper => p == Param::Threshold || p == Param::Mix,
        ProcessorKind::BitCrusher => p == Param::BitDepth || p == Param::RateReduction,
        ProcessorKind::WaveShaper => p == Param::Amount,
        ProcessorKind::Foldback => p == Param::Threshold,
        ProcessorKind::Gain => p == Param::GainDb || p == Param::GainLinear,
        ProcessorKind::DCRemover => false,
        ProcessorKind::Panner => p == Param::Pan,
        ProcessorKind::MuteSolo => p == Param::Mute || p == Param::Solo,
        ProcessorKind::SampleAndHold => p == Param::TriggerThreshold,
        ProcessorKind::PhaseInverter => p == Param::Inverted,
        ProcessorKind::Chain => false,
        ProcessorKind::Parallel => p == Param::Mix,
        ProcessorKind::Bypass => false,
    }
}

impl ProcessorKind {
    /// The processor's name.
    pub fn name(&self) -> (s: &'static str)
        ensures
            s == kind_name(*self),
    {
        match self {
            ProcessorKind::OnePoleLowPass => "OnePoleLowPass",
            ProcessorKind::OnePoleHighPass => "OnePoleHighPass",
            ProcessorKind::BiquadFilter => "BiquadFilter",
            ProcessorKind::StateVariableFilter => "StateVariableFilter",
            ProcessorKind::MovingAverage => "MovingAverage",
            ProcessorKind::DelayLine => "DelayLine",
            ProcessorKind::FractionalDelay => "FractionalDelay",
            ProcessorKind::RevertBuffer => "RevertBuffer",
            ProcessorKind::Compressor => "Compressor",
            ProcessorKind::Limiter => "Limiter",
            ProcessorKind::EnvelopeFollower => "EnvelopeFollower",
            ProcessorKind::NoiseGate => "NoiseGate",
            ProcessorKind::SoftClipper => "SoftClipper",
            ProcessorKind::HardClipper => "HardClipper",
            ProcessorKind::BitCrusher => "BitCrusher",
            ProcessorKind::WaveShaper => "WaveShaper",
            ProcessorKind::Foldback => "Foldback",
            ProcessorKind::Gain => "Gain",
            ProcessorKind::DCRemover => "DCRemover",
            ProcessorKind::Panner => "Panner",
            ProcessorKind::MuteSolo => "MuteSolo",
            ProcessorKind::SampleAndHold => "SampleAndHold",
            ProcessorKind::PhaseInverter => "PhaseInverter",
            ProcessorKind::Chain => "Chain",
            ProcessorKind::Parallel => "Parallel",
            ProcessorKind::Bypass => "Bypass",
        }
    }

    /// The parameters this kind of processor accepts.
    pub fn valid_params(&self) -> (v: Vec<Param>)
        ensures
            v@ == valid_params_of(*self),
    {
        match self {
            ProcessorKind::OnePoleLowPass | ProcessorKind::OnePoleHighPass => vec![Param::Coefficient],
            ProcessorKind::BiquadFilter => vec![Param::Frequency, Param::Q, Param::GainDb],
            ProcessorKind::StateVariableFilter => vec![Param::Frequency, Param::Resonance],
            ProcessorKind::MovingAverage | ProcessorKind::DCRemover | ProcessorKind::Chain | ProcessorKind::Bypass => Vec::new(),
            ProcessorKind::DelayLine | ProcessorKind::FractionalDelay => vec![Param::DelayMs, Param::Feedback, Param::Mix],
            ProcessorKind::RevertBuffer | ProcessorKind::Parallel => vec![Param::Mix],
            ProcessorKind::Compressor => vec![Param::Threshold, Param::Ratio, Param::Attack, Param::Release, Param::MakeupGain],
            ProcessorKind::Limiter => vec![Param::Threshold, Param::Release],
            ProcessorKind::EnvelopeFollower => vec![Param::Attack, Param::Release],
            ProcessorKind::NoiseGate => vec![Param::Threshold, Param::Attack, Param::Hold, Param::Release],
            ProcessorKind::SoftClipper => vec![Param::Drive, Param::Mix],
            ProcessorKind::HardClipper => vec![Param::Threshold, Param::Mix],
            ProcessorKind::BitCrusher => vec![Param::BitDepth, Param::RateReduction],
            ProcessorKind::WaveShaper => vec![Param::Amount],
            ProcessorKind::Foldback => vec![Param::Threshold],
            ProcessorKind::Gain => vec![Param::GainDb, Param::GainLinear],
            ProcessorKind::Panner => vec![Param::Pan],
            ProcessorKind::MuteSolo => vec![Param::Mute, Param::Solo, Param::AnySoloActive],
            ProcessorKind::SampleAndHold => vec![Param::TriggerThreshold],
            ProcessorKind::PhaseInverter => vec![Param::Inverted],
        }
    }

    /// Whether setting `param` on this kind of processor is accepted; the
    /// answer `AudioProcessor::set` gives before it stores the value.
    ///
    /// Accepted exactly for the parameters `valid_params` lists.
    pub fn check_set(&self, param: Param) -> (r: Result<(), ParamError>)
        ensures
            r is Ok <==> valid_params_of(*self).contains(param),
            r is Err ==> r == Err::<(), ParamError>(ParamError::InvalidParam),
    {
        let ok = match self {
            ProcessorKind::OnePoleLowPass | ProcessorKind::OnePoleHighPass => matches!(param, Param::Coefficient),
            ProcessorKind::BiquadFilter => matches!(param, Param::Frequency | Param::Q | Param::GainDb),
            ProcessorKind::StateVariableFilter => matches!(param, Param::Frequency | Param::Resonance),
            ProcessorKind::MovingAverage | ProcessorKind::DCRemover | ProcessorKind::Chain | ProcessorKind::Bypass => false,
            ProcessorKind::DelayLine | ProcessorKind::FractionalDelay => matches!(param, Param::DelayMs | Param::Feedback | Param::Mix),
            ProcessorKind::RevertBuffer | ProcessorKind::Parallel => matches!(param, Param::Mix),
            ProcessorKind::Compressor => matches!(param, Param::Threshold | Param::Ratio | Param::Attack | Param::Release | Param::MakeupGain),
            ProcessorKind::Limiter => matches!(param, Param::Threshold | Param::Release),
            ProcessorKind::EnvelopeFollower => matches!(param, Param::Attack | Param::Release),
            ProcessorKind::NoiseGate => matches!(param, Param::Threshold | Param::Attack | Param::Hold | Param::Release),
            ProcessorKind::SoftClipper => matches!(param, Param::Drive | Param::Mix),
            ProcessorKind::HardClipper => matches!(param, Param::Threshold | Param::Mix),
            ProcessorKind::BitCrusher => matches!(param, Param::BitDepth | Param::RateReduction),
            ProcessorKind::WaveShaper => matches!(param, Param::Amount),
            ProcessorKind::Foldback => matches!(param, Param::Threshold),
            ProcessorKind::Gain => matches!(param, Param::GainDb | Param::GainLinear),
            ProcessorKind::Panner => matches!(param, Param::Pan),
            ProcessorKind::MuteSolo => matches!(param, Param::Mute | Param::Solo | Param::AnySoloActive),
            ProcessorKind::SampleAndHold => matches!(param, Param::TriggerThreshold),
            ProcessorKind::PhaseInverter => matches!(param, Param::Inverted),
        };
        proof {
            lemma_valid_params_membership(*self, param);
        }
        if ok {
            Ok(())
        } else {
            Err(ParamError::InvalidParam)
        }
    }

    /// Whether reading `param` from this kind of processor is answered; the
    /// answer `AudioProcessor::get` gives before it reads the value.
    /// The parameter that a snake_case `key` names, when this processor
    /// accepts it for setting; `None` when the key names no parameter or one
    /// this processor does not take.
    pub fn settable_key(&self, key: &str) -> (r: Option<Param>)
        ensures
            r == (match key_param(key.spec_bytes()) {
                Some(p) => if valid_params_of(*self).contains(p) { Some(p) } else { None },
                None => None,
            }),
    {
        match Param::from_key(key) {
            Some(p) => match self.check_set(p) {
                Ok(()) => Some(p),
                Err(_) => None,
            },
            None => None,
        }
    }

    pub fn check_get(&self, param: Param) -> (r: Result<(), ParamError>)
        ensures
            r is Ok <==> gettable(*self, param),
            r is Err ==> r == Err::<(), ParamError>(ParamError::InvalidParam),
    {
        let ok = match self {
            ProcessorKind::OnePoleLowPass | ProcessorKind::OnePoleHighPass => matches!(param, Param::Coefficient),
            ProcessorKind::BiquadFilter => matches!(param, Param::Frequency | Param::Q | Param::GainDb),
            ProcessorKind::StateVariableFilter => matches!(param, Param::Frequency | Param::Resonance),
            ProcessorKind::MovingAverage | ProcessorKind::DCRemover | ProcessorKind::Chain | ProcessorKind::Bypass => false,
            ProcessorKind::DelayLine | ProcessorKind::FractionalDelay => matches!(param, Param::Feedback | Param::Mix),
            ProcessorKind::RevertBuffer | ProcessorKind::Parallel => matches!(param, Param::Mix),
            ProcessorKind::Compressor => matches!(param, Param::Threshold | Param::Ratio | Param::Attack | Param::Release | Param::MakeupGain),
            ProcessorKind::Limiter => matches!(param, Param::Threshold | Param::Release),
            ProcessorKind::EnvelopeFollower => matches!(param, Param::Attack | Param::Release),
            ProcessorKind::NoiseGate => matches!(param, Param::Threshold | Param::Attack | Param::Hold | Param::Release),
            ProcessorKind::SoftClipper => matches!(param, Param::Drive | Param::Mix),
            ProcessorKind::HardClipper => matches!(param, Param::Threshold | Param::Mix),
            ProcessorKind::BitCrusher => matches!(param, Param::BitDepth | Param::RateReduction),
            ProcessorKind::WaveShaper => matches!(param, Param::Amount),
            ProcessorKind::Foldback => matches!(param, Param::Threshold),
            ProcessorKind::Gain => matches!(param, Param::GainDb | Param::GainLinear),
            ProcessorKind::Panner => matches!(param, Param::Pan),
            ProcessorKind::MuteSolo => matches!(param, Param::Mute | Param::Solo),
            ProcessorKind::SampleAndHold => matches!(param, Param::TriggerThreshold),
            ProcessorKind::PhaseInverter => matches!(param, Param::Inverted),
        };
        if ok {
            Ok(())
        } else {
            Err(ParamError::InvalidParam)
        }
    }
}

/// Membership in the list of valid parameters, spelled out.
proof fn lemma_valid_params_membership(k: ProcessorKind, p: Param)
    ensures
        valid_params_of(k).contains(p) <==> match k {
            ProcessorKind::OnePoleLowPass => p == Param::Coefficient,
            ProcessorKind::OnePoleHighPass => p == Param::Coefficient,
            ProcessorKind::BiquadFilter => p == Param::Frequency || p == Param::Q || p == Param::GainDb,
            ProcessorKind::StateVariableFilter => p == Param::Frequency || p == Param::Resonance,
            ProcessorKind::MovingAverage => false,
            ProcessorKind::DelayLine => p == Param::DelayMs || p == Param::Feedback || p == Param::Mix,
            ProcessorKind::FractionalDelay => p == Param::DelayMs || p == Param::Feedback || p == Param::Mix,
            ProcessorKind::RevertBuffer => p == Param::Mix,
            ProcessorKind::Compressor => p == Param::Threshold || p == Param::Ratio || p == Param::Attack || p == Param::Release || p == Param::MakeupGain,
            ProcessorKind::Limiter => p == Param::Threshold || p == Param::Release,
            ProcessorKind::EnvelopeFollower => p == Param::Attack || p == Param::Release,
            ProcessorKind::NoiseGate => p == Param::Threshold || p == Param::Attack || p == Param::Hold || p == Param::Release,
            ProcessorKind::SoftClipper => p == Param::Drive || p == Param::Mix,
            ProcessorKind::HardClipper => p == Param::Threshold || p == Param::Mix,
            ProcessorKind::BitCrusher => p == Param::BitDepth || p == Param::RateReduction,
            ProcessorKind::WaveShaper => p == Param::Amount,
            ProcessorKind::Foldback => p == Param::Threshold,
            ProcessorKind::Gain => p == Param::GainDb || p == Param::GainLinear,
            ProcessorKind::DCRemover => false,
            ProcessorKind::Panner => p == Param::Pan,
            ProcessorKind::MuteSolo => p == Param::Mute || p == Param::Solo || p == Param::AnySoloActive,
            ProcessorKind::SampleAndHold => p == Param::TriggerThreshold,
            ProcessorKind::PhaseInverter => p == Param::Inverted,
            ProcessorKind::Chain => false,
            ProcessorKind::Parallel => p == Param::Mix,
            ProcessorKind::Bypass => false,
        },
{
    let s = valid_params_of(k);
    if s.contains(p) {
        let i = choose|i: int| 0 <= i < s.len() && s[i] == p;
        assert(s[i] == p);
    }
    match k {
        ProcessorKind::OnePoleLowPass => {
            assert(s[0] == Param::Coefficient);
        },
        ProcessorKind::OnePoleHighPass => {
            assert(s[0] == Param::Coefficient);
        },
        ProcessorKind::BiquadFilter => {
            assert(s[0] == Param::Frequency);
            assert(s[1] == Param::Q);
            assert(s[2] == Param::GainDb);
        },
        ProcessorKind::StateVariableFilter => {
            assert(s[0] == Param::Frequency);
            assert(s[1] == Param::Resonance);
        },
        ProcessorKind::MovingAverage => {},
        ProcessorKind::DelayLine => {
            assert(s[0] == Param::DelayMs);
            assert(s[1] == Param::Feedback);
            assert(s[2] == Param::Mix);
        },
        ProcessorKind::FractionalDelay => {
            assert(s[0] == Param::DelayMs);
            assert(s[1] == Param::Feedback);
            assert(s[2] == Param::Mix);
        },
        ProcessorKind::RevertBuffer => {
            assert(s[0] == Param::Mix);
        },
        ProcessorKind::Compressor => {
            assert(s[0] == Param::Threshold);
            assert(s[1] == Param::Ratio);
            assert(s[2] == Param::Attack);
            assert(s[3] == Param::Release);
            assert(s[4] == Param::MakeupGain);
        },
        ProcessorKind::Limiter => {
            assert(s[0] == Param::Threshold);
            assert(s[1] == Param::Release);
        },
        ProcessorKind::EnvelopeFollower => {
            assert(s[0] == Param::Attack);
            assert(s[1] == Param::Release);
        },
        ProcessorKind::NoiseGate => {
            assert(s[0] == Param::Threshold);
            assert(s[1] == Param::Attack);
            assert(s[2] == Param::Hold);
            assert(s[3] == Param::Release);
        },
        ProcessorKind::SoftClipper => {
            assert(s[0] == Param::Drive);
            assert(s[1] == Param::Mix);
        },
        ProcessorKind::HardClipper => {
            assert(s[0] == Param::Threshold);
            assert(s[1] == Param::Mix);
        },
        ProcessorKind::BitCrusher => {
            assert(s[0] == Param::BitDepth);
            assert(s[1] == Param::RateReduction);
        },
        ProcessorKind::WaveShaper => {
            assert(s[0] == Param::Amount);
        },
        ProcessorKind::Foldback => {
            assert(s[0] == Param::Threshold);
        },
        ProcessorKind::Gain => {
            assert(s[0] == Param::GainDb);
            assert(s[1] == Param::GainLinear);
        },
        ProcessorKind::DCRemover => {},
        ProcessorKind::Panner => {
            assert(s[0] == Param::Pan);
        },
        ProcessorKind::MuteSolo => {
            assert(s[0] == Param::Mute);
            assert(s[1] == Param::Solo);
            assert(s[2] == Param::AnySoloActive);
        },
        ProcessorKind::SampleAndHold => {
            assert(s[0] == Param::TriggerThreshold);
        },
        ProcessorKind::PhaseInverter => {
            assert(s[0] == Param::Inverted);
        },
        ProcessorKind::Chain => {},
        ProcessorKind::Parallel => {
            assert(s[0] == Param::Mix);
        },
        ProcessorKind::Bypass => {},
    }
}

/// Law: a processor reports the value of every parameter it accepts, except
/// the write-only ones: the delay time of the two delay lines and the
/// any-solo switch of mute/solo.
pub proof fn lemma_readable_params(k: ProcessorKind, p: Param)
    ensures
        gettable(k, p) <==> (valid_params_of(k).contains(p)
            && !(p == Param::DelayMs && (k == ProcessorKind::DelayLine || k == ProcessorKind::FractionalDelay))
            && !(p == Param::AnySoloActive && k == ProcessorKind::MuteSolo)),
{
    lemma_valid_params_membership(k, p);
}

/// Law: every parameter a processor reports is one it lists as valid.
pub proof fn lemma_gettable_is_valid(k: ProcessorKind, p: Param)
    requires
        gettable(k, p),
    ensures
        valid_params_of(k).contains(p),
{
    lemma_valid_params_membership(k, p);
}

} // verus!

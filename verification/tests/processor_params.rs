use audiopc::params::{BiquadType, Param, ParamError, ProcessorKind, WaveShapeCurve};

const ALL_PARAMS: [Param; 29] = [
    Param::Coefficient,
    Param::Frequency,
    Param::Resonance,
    Param::Q,
    Param::GainDb,
    Param::FilterLength,
    Param::DelayMs,
    Param::Feedback,
    Param::Mix,
    Param::LoopPlayback,
    Param::Threshold,
    Param::Ratio,
    Param::Attack,
    Param::Release,
    Param::Hold,
    Param::MakeupGain,
    Param::Drive,
    Param::BitDepth,
    Param::RateReduction,
    Param::Amount,
    Param::CurveType,
    Param::GainLinear,
    Param::Pan,
    Param::Mute,
    Param::Solo,
    Param::AnySoloActive,
    Param::TriggerThreshold,
    Param::Inverted,
    Param::SampleRate,
];

const ALL_KINDS: [ProcessorKind; 26] = [
    ProcessorKind::OnePoleLowPass,
    ProcessorKind::OnePoleHighPass,
    ProcessorKind::BiquadFilter,
    ProcessorKind::StateVariableFilter,
    ProcessorKind::MovingAverage,
    ProcessorKind::DelayLine,
    ProcessorKind::FractionalDelay,
    ProcessorKind::RevertBuffer,
    ProcessorKind::Compressor,
    ProcessorKind::Limiter,
    ProcessorKind::EnvelopeFollower,
    ProcessorKind::NoiseGate,
    ProcessorKind::SoftClipper,
    ProcessorKind::HardClipper,
    ProcessorKind::BitCrusher,
    ProcessorKind::WaveShaper,
    ProcessorKind::Foldback,
    ProcessorKind::Gain,
    ProcessorKind::DCRemover,
    ProcessorKind::Panner,
    ProcessorKind::MuteSolo,
    ProcessorKind::SampleAndHold,
    ProcessorKind::PhaseInverter,
    ProcessorKind::Chain,
    ProcessorKind::Parallel,
    ProcessorKind::Bypass,
];

#[test]
fn valid_params_of_some_kinds() {
    assert_eq!(ProcessorKind::BiquadFilter.valid_params(), vec![Param::Frequency, Param::Q, Param::GainDb]);
    assert_eq!(
        ProcessorKind::Compressor.valid_params(),
        vec![Param::Threshold, Param::Ratio, Param::Attack, Param::Release, Param::MakeupGain]
    );
    assert_eq!(
        ProcessorKind::MuteSolo.valid_params(),
        vec![Param::Mute, Param::Solo, Param::AnySoloActive]
    );
    assert!(ProcessorKind::Chain.valid_params().is_empty());
    assert!(ProcessorKind::DCRemover.valid_params().is_empty());
    assert_eq!(ProcessorKind::Parallel.valid_params(), vec![Param::Mix]);
}

#[test]
fn set_accepted_exactly_for_valid_params() {
    for k in ALL_KINDS {
        let valid = k.valid_params();
        for p in ALL_PARAMS {
            let r = k.check_set(p);
            assert_eq!(r.is_ok(), valid.contains(&p), "{:?} {:?}", k, p);
            if r.is_err() {
                assert_eq!(r, Err(ParamError::InvalidParam));
            }
        }
    }
}

#[test]
fn get_answers_a_subset_of_valid_params() {
    for k in ALL_KINDS {
        let valid = k.valid_params();
        for p in ALL_PARAMS {
            if k.check_get(p).is_ok() {
                assert!(valid.contains(&p), "{:?} {:?}", k, p);
            }
        }
    }
    assert_eq!(ProcessorKind::DelayLine.check_get(Param::DelayMs), Err(ParamError::InvalidParam));
    assert_eq!(ProcessorKind::DelayLine.check_get(Param::Feedback), Ok(()));
    assert_eq!(ProcessorKind::MuteSolo.check_get(Param::AnySoloActive), Err(ParamError::InvalidParam));
    assert_eq!(ProcessorKind::MuteSolo.check_set(Param::AnySoloActive), Ok(()));
    assert_eq!(ProcessorKind::Bypass.check_get(Param::Mix), Err(ParamError::InvalidParam));
}

#[test]
fn names_of_kinds_and_params() {
    assert_eq!(ProcessorKind::OnePoleLowPass.name(), "OnePoleLowPass");
    assert_eq!(ProcessorKind::Parallel.name(), "Parallel");
    assert_eq!(ProcessorKind::Bypass.name(), "Bypass");
    assert_eq!(Param::GainDb.name(), "GainDb");
    assert_eq!(Param::AnySoloActive.to_display_string(), "AnySoloActive".to_string());
    for k in ALL_KINDS {
        assert_eq!(k.name(), format!("{:?}", k));
    }
    for p in ALL_PARAMS {
        assert_eq!(p.name(), format!("{:?}", p));
    }
}

#[test]
fn keys_name_params() {
    assert_eq!(Param::from_key("coefficient"), Some(Param::Coefficient));
    assert_eq!(Param::from_key("gain_db"), Some(Param::GainDb));
    assert_eq!(Param::from_key("q"), Some(Param::Q));
    assert_eq!(Param::from_key("rate_reduction"), Some(Param::RateReduction));
    assert_eq!(Param::from_key("trigger_threshold"), Some(Param::TriggerThreshold));
    assert_eq!(Param::from_key("inverted"), Some(Param::Inverted));
    assert_eq!(Param::from_key("any_solo_active"), None);
    assert_eq!(Param::from_key("Mix"), None);
    assert_eq!(Param::from_key(""), None);
    assert_eq!(Param::from_key("mixx"), None);
}

#[test]
fn enums_are_copyable_and_comparable() {
    let a = BiquadType::LowShelf;
    let b = a;
    assert_eq!(a, b);
    assert_ne!(WaveShapeCurve::Soft, WaveShapeCurve::Hard);
}

#[test]
fn settable_key_names_only_accepted_params() {
    assert_eq!(ProcessorKind::BiquadFilter.settable_key("q"), Some(Param::Q));
    assert_eq!(ProcessorKind::BiquadFilter.settable_key("gain_db"), Some(Param::GainDb));
    assert_eq!(ProcessorKind::BiquadFilter.settable_key("mix"), None);
    assert_eq!(ProcessorKind::DelayLine.settable_key("delay_ms"), Some(Param::DelayMs));
    assert_eq!(ProcessorKind::DelayLine.settable_key("no_such_key"), None);
    assert_eq!(ProcessorKind::Bypass.settable_key("mix"), None);
}

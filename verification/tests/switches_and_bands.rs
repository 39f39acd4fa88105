use audiopc::bands::BandKind;
use audiopc::dynamics::GateHold;
use audiopc::utilities::{MuteSolo, PhaseInverter};

#[test]
fn mute_solo_switches() {
    let mut m = MuteSolo::new();
    assert!(!m.is_muted() && !m.is_soloed());
    assert_eq!(m.process(0.7f32, 0.0), 0.7);
    m.set_any_solo_active(true);
    assert_eq!(m.process(0.7f32, 0.0), 0.0);
    m.set_solo(true);
    assert!(m.is_soloed());
    assert_eq!(m.process(0.7f32, 0.0), 0.7);
    m.set_mute(true);
    assert!(m.is_muted());
    assert!(!m.is_audible());
    assert_eq!(m.process(0.7f32, 0.0), 0.0);
    m.reset();
    assert!(m.is_muted() && m.is_soloed());
    let d = MuteSolo::default();
    assert!(d.is_audible());
}

#[test]
fn phase_inverter_switch() {
    let mut p = PhaseInverter::new();
    assert!(!p.is_inverted());
    assert_eq!(p.process(0.5f32, -0.5), 0.5);
    p.set_inverted(true);
    assert!(p.is_inverted());
    assert_eq!(p.process(0.5f32, -0.5), -0.5);
    p.reset();
    assert!(p.is_inverted());
    assert!(!PhaseInverter::default().is_inverted());
}

#[test]
fn hold_keeps_open_then_closes() {
    let mut g = GateHold::new();
    assert!(!g.is_open());
    assert!(!g.step(false, 3));
    assert!(g.step(true, 2));
    assert!(g.step(false, 2));
    assert!(g.step(false, 2));
    assert!(!g.step(false, 2));
    assert!(g.step(true, 0));
    assert!(!g.step(false, 0));
    g.step(true, 5);
    g.reset();
    assert!(!g.is_open());
    assert!(!g.step(false, 5));
}

#[test]
fn standard_bands_cover_audible_range() {
    let bands = BandKind::standard();
    assert_eq!(bands.len(), 8);
    assert_eq!(bands[0].freq_range_hz().0, 20);
    assert_eq!(bands[7].freq_range_hz().1, 20_000);
    for pair in bands.windows(2) {
        assert_eq!(pair[0].freq_range_hz().1, pair[1].freq_range_hz().0);
    }
}

#[test]
fn detailed_and_instrument_bands() {
    let detailed = BandKind::detailed();
    assert_eq!(detailed.len(), 10);
    for b in BandKind::standard() {
        assert!(detailed.contains(&b));
    }
    let inst = BandKind::instrument();
    assert_eq!(inst[0], BandKind::Kick);
    assert_eq!(inst.len(), 8);
    assert_eq!(BandKind::Vocal.freq_range_hz(), (300, 3400));
    assert_eq!(BandKind::Cymbals.freq_range_hz(), (5000, 18000));
}

#[test]
fn band_groups() {
    assert_eq!(
        BandKind::drum_kinds(),
        vec![BandKind::Kick, BandKind::SnareBody, BandKind::SnareCrack, BandKind::Toms]
    );
    assert_eq!(BandKind::bass_kinds(), vec![BandKind::Kick, BandKind::Bass]);
}

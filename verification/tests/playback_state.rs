use audiopc::queue::{SampleQueue, SampleRing};
use audiopc::state::{
    buffer_config, buffer_samples, AudioState, BuffConfig, PlaybackState,
    DEFAULT_MAX_QUEUE_SECONDS,
};

fn playing_state(max: usize, vmax: usize, channels: usize) -> AudioState<f32> {
    let mut s = AudioState::new(
        BuffConfig::new(max, DEFAULT_MAX_QUEUE_SECONDS, 48_000),
        BuffConfig::new(vmax, 1, 48_000),
        channels,
    );
    s.set_playback_state(PlaybackState::Playing);
    s
}

#[test]
fn playback_state_ids() {
    let all = [
        PlaybackState::Idle,
        PlaybackState::Buffering,
        PlaybackState::Playing,
        PlaybackState::Paused,
        PlaybackState::Stopped,
        PlaybackState::Completed,
    ];
    let ids: Vec<i32> = all.iter().map(|s| s.id()).collect();
    assert_eq!(ids, vec![0, 1, 2, 3, 4, 5]);
}

#[test]
fn buff_config_new_keeps_fields() {
    let c = BuffConfig::new(960_000, 10, 48_000);
    assert_eq!(c.max_samples, 960_000);
    assert_eq!(c.m_queue_sec, 10);
    assert_eq!(c.sample_rate, 48_000);
}

#[test]
fn buffer_samples_multiplies_and_saturates() {
    assert_eq!(buffer_samples(48_000, 2, 20), 1_920_000);
    assert_eq!(buffer_samples(44_100, 1, 1), 44_100);
    assert_eq!(buffer_samples(u32::MAX, usize::MAX, 2), usize::MAX);
    let c = buffer_config(44_100, 2, 20);
    assert_eq!(c.max_samples, 1_764_000);
    assert_eq!(c.m_queue_sec, 20);
    assert_eq!(c.sample_rate, 44_100);
}

#[test]
fn queue_accepts_only_what_fits() {
    let mut q: SampleQueue<f32> = SampleQueue::new(4);
    assert_eq!(q.push_samples_bounded(&[0.1, 0.2, 0.3]), 3);
    assert_eq!(q.push_samples_bounded(&[0.4, 0.5, 0.6]), 1);
    assert_eq!(q.len(), 4);
    assert_eq!(q.push_samples_bounded(&[0.7]), 0);
    assert_eq!(q.pop_front(), Some(0.1));
    assert_eq!(q.pop_front(), Some(0.2));
    assert_eq!(q.pop_front(), Some(0.3));
    assert_eq!(q.pop_front(), Some(0.4));
    assert_eq!(q.pop_front(), None);
    q.push_samples_bounded(&[1.0]);
    q.clear();
    assert_eq!(q.len(), 0);
    assert_eq!(q.max_samples(), 4);
}

#[test]
fn ring_keeps_latest_samples() {
    let mut r: SampleRing<i32> = SampleRing::new(3);
    for x in 1..=5 {
        r.push(x);
    }
    assert_eq!(r.to_vec(), vec![3, 4, 5]);
    assert_eq!(r.len(), 3);
    let mut z: SampleRing<i32> = SampleRing::new(0);
    z.push(7);
    assert_eq!(z.len(), 0);
    r.clear();
    assert_eq!(r.to_vec(), Vec::<i32>::new());
}

#[test]
fn silence_unless_playing() {
    let mut s: AudioState<f32> = AudioState::new(
        BuffConfig::new(8, 20, 48_000),
        BuffConfig::new(8, 1, 48_000),
        2,
    );
    assert_eq!(s.push_samples_bounded(&[0.5, 0.25]), 2);
    assert_eq!(s.next_sample(2), None);
    assert_eq!(s.queued_samples(), 2);
    s.set_playback_state(PlaybackState::Paused);
    assert_eq!(s.next_sample(2), None);
    assert_eq!(s.emitted_samples(), 0);
}

#[test]
fn samples_come_out_in_order_with_channel_slots() {
    let mut s = playing_state(8, 8, 2);
    assert_eq!(s.push_samples_bounded(&[0.1, 0.2, 0.3]), 3);
    assert_eq!(s.next_sample(2), Some((0.1, 1)));
    assert_eq!(s.next_sample(2), Some((0.2, 0)));
    assert_eq!(s.next_sample(2), Some((0.3, 1)));
    assert_eq!(s.emitted_samples(), 3);
    assert_eq!(s.playback_state(), PlaybackState::Playing);
}

#[test]
fn clear_audio_state_drops_queued_and_visualizer_samples() {
    let mut s = playing_state(8, 8, 1);
    s.push_samples_bounded(&[0.1, 0.2, 0.3]);
    s.push_visualizer_sample(0.5);
    s.clear_audio_state();
    assert_eq!(s.queued_samples(), 0);
    assert!(s.visualizer_samples().is_empty());
    assert_eq!(s.next_sample(1), None);
    assert_eq!(s.playback_state(), PlaybackState::Completed);
    assert_eq!(s.sample_rate(), 48_000);
}

#[test]
fn buffer_sizes_survive_playback() {
    let mut s = playing_state(2, 2, 2);
    assert_eq!(s.sample_rate(), 48_000);
    assert_eq!(s.push_samples_bounded(&[0.1, 0.2, 0.3]), 2);
    s.next_sample(2);
    s.restart_at(100);
    s.set_stream_ended(true);
    assert_eq!(s.sample_rate(), 48_000);
    assert_eq!(s.push_samples_bounded(&[0.4, 0.5, 0.6]), 2);
}

#[test]
fn empty_queue_counts_underrun_until_stream_ends() {
    let mut s = playing_state(8, 8, 1);
    assert_eq!(s.next_sample(1), None);
    assert_eq!(s.underrun_count(), 1);
    assert_eq!(s.playback_state(), PlaybackState::Playing);
    s.set_stream_ended(true);
    assert_eq!(s.next_sample(1), None);
    assert_eq!(s.underrun_count(), 1);
    assert_eq!(s.playback_state(), PlaybackState::Completed);
}

#[test]
fn clear_audio_state_resets_counters() {
    let mut s = playing_state(8, 8, 1);
    s.push_samples_bounded(&[0.1, 0.2]);
    s.next_sample(1);
    s.next_sample(1);
    s.next_sample(1);
    s.clear_audio_state();
    assert_eq!(s.emitted_samples(), 0);
    assert_eq!(s.underrun_count(), 0);
    assert!(s.stream_ended());
    assert_eq!(s.playback_state(), PlaybackState::Playing);
}

#[test]
fn visualizer_keeps_recent_played_samples() {
    let mut s = playing_state(8, 2, 1);
    s.push_visualizer_sample(0.1f32);
    s.push_visualizer_sample(0.2);
    s.push_visualizer_sample(0.3);
    assert_eq!(s.visualizer_samples(), vec![0.2, 0.3]);
}

#[test]
fn restart_at_drops_buffers() {
    let mut s = playing_state(8, 4, 1);
    s.push_samples_bounded(&[0.1, 0.2]);
    s.push_visualizer_sample(0.9f32);
    s.next_sample(1);
    s.set_stream_ended(true);
    s.restart_at(1500);
    assert_eq!(s.start_millis(), 1500);
    assert_eq!(s.queued_samples(), 0);
    assert_eq!(s.visualizer_samples(), Vec::<f32>::new());
    assert_eq!(s.emitted_samples(), 0);
    assert!(!s.stream_ended());
    assert_eq!(s.channels(), 1);
    assert_eq!(s.sample_rate(), 48_000);
}

use audiopc::ffi::{
    c_message_bytes, outcome_status, EngineOutcome, STATUS_ENGINE_INIT_FAILED,
    STATUS_ENGINE_MISSING, STATUS_FAILED, clear_last_error, engine_queue_capacity, memory_source_is_valid,
    set_last_error, STATUS_ENGINE_POISONED, STATUS_INVALID_ARGUMENT, STATUS_OK,
};
use audiopc::player::{plan_seek, SeekPlan};
use audiopc::resample::{channel_source, skip_leading, ChannelSource};
use audiopc::visual::{analysis_window, band_bins, bar_bins, MIN_BAR_SLOTS, MIN_FFT_SIZE};

#[test]
fn seek_is_clamped_and_resumes() {
    assert_eq!(plan_seek(5_000, 10_000, false, true), SeekPlan::NoSource);
    assert_eq!(plan_seek(-20, 10_000, true, false), SeekPlan::Restart { target: 0, resume: true });
    assert_eq!(
        plan_seek(12_000, 10_000, true, false),
        SeekPlan::Restart { target: 10_000, resume: false }
    );
    assert_eq!(
        plan_seek(12_000, 10_000, true, true),
        SeekPlan::Restart { target: 10_000, resume: true }
    );
    assert_eq!(plan_seek(3_000, -1, true, false), SeekPlan::Restart { target: 3_000, resume: false });
    assert_eq!(plan_seek(3_000, -1, true, true), SeekPlan::Restart { target: 3_000, resume: true });
}

#[test]
fn channel_routing() {
    assert_eq!(channel_source(0, 0, 2), ChannelSource::Silence);
    assert_eq!(channel_source(2, 0, 1), ChannelSource::Mix);
    assert_eq!(channel_source(1, 1, 2), ChannelSource::Channel(0));
    assert_eq!(channel_source(2, 1, 2), ChannelSource::Channel(1));
    assert_eq!(channel_source(2, 5, 6), ChannelSource::Channel(1));
    assert_eq!(channel_source(6, 3, 2), ChannelSource::Channel(3));
}

#[test]
fn skipping_spans_packets() {
    assert_eq!(skip_leading(0, 10), (0, 0));
    assert_eq!(skip_leading(25, 10), (15, 10));
    assert_eq!(skip_leading(4, 10), (0, 4));
    assert_eq!(skip_leading(10, 10), (0, 10));
}

#[test]
fn error_message_copy_fits_buffer() {
    assert_eq!(c_message_bytes(b"hello", 0), None);
    assert_eq!(c_message_bytes(b"hello", -3), None);
    assert_eq!(c_message_bytes(b"hello", 1), Some(vec![0]));
    assert_eq!(c_message_bytes(b"hello", 3), Some(b"he\0".to_vec()));
    assert_eq!(c_message_bytes(b"hello", 64), Some(b"hello\0".to_vec()));
}

#[test]
fn last_error_slot() {
    let mut last = String::new();
    set_last_error(&mut last, "No default output device available".to_string());
    assert_eq!(last, "No default output device available");
    clear_last_error(&mut last);
    assert!(last.is_empty());
}

#[test]
fn memory_source_arguments() {
    assert!(memory_source_is_valid(false, 10));
    assert!(!memory_source_is_valid(true, 10));
    assert!(!memory_source_is_valid(false, 0));
    assert!(!memory_source_is_valid(false, -1));
    assert_eq!(STATUS_OK, 0);
    assert_eq!(STATUS_INVALID_ARGUMENT, -2);
    assert_eq!(STATUS_ENGINE_POISONED, -500);
}

#[test]
fn engine_queue_capacity_in_u32() {
    assert_eq!(engine_queue_capacity(48_000, 2), 1_920_000);
    assert_eq!(engine_queue_capacity(u32::MAX, 2), u32::MAX as usize);
    assert_eq!(engine_queue_capacity(44_100, 0), 0);
}

#[test]
fn visualizer_windows_and_bins() {
    assert_eq!(analysis_window(4096, 10_000), (5_904, 4096));
    assert_eq!(analysis_window(4096, 100), (0, 100));
    assert_eq!(bar_bins(0, 0, 100), (1, 2));
    assert_eq!(bar_bins(5, 9, 100), (5, 9));
    assert_eq!(bar_bins(150, 160, 100), (99, 100));
    assert_eq!(bar_bins(3, 7, 0), (0, 0));
    assert_eq!(band_bins(10, 20, 100), (10, 20));
    assert_eq!(band_bins(10, 10, 100), (10, 11));
    assert_eq!(band_bins(200, 300, 100), (100, 100));
    assert_eq!(MIN_BAR_SLOTS, 24);
    assert_eq!(MIN_FFT_SIZE, 512);
}

#[test]
fn engine_outcome_status_codes() {
    assert_eq!(outcome_status(EngineOutcome::Succeeded), (STATUS_OK, true));
    assert_eq!(outcome_status(EngineOutcome::Failed), (STATUS_FAILED, false));
    assert_eq!(outcome_status(EngineOutcome::Poisoned), (STATUS_ENGINE_POISONED, false));
    assert_eq!(outcome_status(EngineOutcome::InitFailed), (STATUS_ENGINE_INIT_FAILED, false));
    assert_eq!(outcome_status(EngineOutcome::Missing), (STATUS_ENGINE_MISSING, false));
    assert_eq!(STATUS_ENGINE_INIT_FAILED, -501);
}

//! Shared playback state: what the output callback plays next, and the
//! bookkeeping that the player and the decoder read and reset.
//!
//! The sample type is a parameter: this module decides *which* sample is
//! played and when playback ends, while gain, effects and clipping are applied
//! by the caller to the sample it is handed.

use vstd::prelude::*;
use crate::queue::{SampleQueue, SampleRing, accepted_count, ring_push};

verus! {

/// Seconds of decoded audio the playback queue holds ahead of the output.
pub const DEFAULT_MAX_QUEUE_SECONDS: usize = 20;

/// Seconds of played audio kept for the visualizer.
pub const DEFAULT_VISUALIZER_SECONDS: usize = 1;

/// Where the player is in its life cycle.
#[derive(Clone, Copy, Debug, PartialEq, Eq, Structural)]
pub enum PlaybackState {
    Idle,
    Buffering,
    Playing,
    Paused,
    Stopped,
    Completed,
}

/// The number that identifies each playback state across the bridge.
pub open spec fn state_id(s: PlaybackState) -> i32 {
    match s {
        PlaybackState::Idle => 0,
        PlaybackState::Buffering => 1,
        PlaybackState::Playing => 2,
        PlaybackState::Paused => 3,
        PlaybackState::Stopped => 4,
        PlaybackState::Completed => 5,
    }
}

impl PlaybackState {
    /// Numeric identifier of the state (0 = idle ... 5 = completed).
    pub fn id(&self) -> (id: i32)
        ensures
            id == state_id(*self),
    {
        match self {
            PlaybackState::Idle => 0,
            PlaybackState::Buffering => 1,
            PlaybackState::Playing => 2,
            PlaybackState::Paused => 3,
            PlaybackState::Stopped => 4,
            PlaybackState::Completed => 5,
        }
    }
}

/// Law: distinct playback states have distinct identifiers, each in `0..6`.
pub proof fn lemma_state_ids_distinct(a: PlaybackState, b: PlaybackState)
    ensures
        0 <= state_id(a) < 6,
        state_id(a) == state_id(b) <==> a == b,
{
}

/// Sizes of one sample buffer.
#[derive(Clone, Copy, Debug)]
pub struct BuffConfig {
    pub sample_rate: u32,
    pub max_samples: usize,
    pub m_queue_sec: usize,
}

impl BuffConfig {
    pub fn new(max_samples: usize, m_queue_sec: usize, sample_rate: u32) -> (c: BuffConfig)
        ensures
            c.max_samples == max_samples,
            c.m_queue_sec == m_queue_sec,
            c.sample_rate == sample_rate,
    {
        BuffConfig { sample_rate, max_samples, m_queue_sec }
    }
}

/// `a * b`, or `usize::MAX` when the product does not fit.
pub open spec fn saturating_mul_usize(a: int, b: int) -> int {
    if a * b > usize::MAX {
        usize::MAX as int
    } else {
        a * b
    }
}

/// Samples in `seconds` of interleaved audio, saturating at `usize::MAX`.
pub open spec fn spec_buffer_samples(sample_rate: u32, channels: usize, seconds: usize) -> int {
    saturating_mul_usize(saturating_mul_usize(sample_rate as int, channels as int), seconds as int)
}

fn saturating_mul(a: usize, b: usize) -> (r: usize)
    ensures
        r == saturating_mul_usize(a as int, b as int),
{
    match a.checked_mul(b) {
        Some(p) => p,
        None => usize::MAX,
    }
}

/// Number of interleaved samples in `seconds` of output audio
/// (`sample_rate * channels * seconds`, saturating).
pub fn buffer_samples(sample_rate: u32, channels: usize, seconds: usize) -> (n: usize)
    ensures
        n == spec_buffer_samples(sample_rate, channels, seconds),
{
    saturating_mul(saturating_mul(sample_rate as usize, channels), seconds)
}

/// Buffer sizes for a queue of `seconds` seconds of output audio.
pub fn buffer_config(sample_rate: u32, channels: usize, seconds: usize) -> (c: BuffConfig)
    ensures
        c.max_samples == spec_buffer_samples(sample_rate, channels, seconds),
        c.m_queue_sec == seconds,
        c.sample_rate == sample_rate,
{
    BuffConfig::new(buffer_samples(sample_rate, channels, seconds), seconds, sample_rate)
}

/// The abstract state that `AudioState` stands for.
pub struct AudioStateView<T> {
    pub pl_state: PlaybackState,
    pub queue: Seq<T>,
    pub visualizer: Seq<T>,
    pub emitted_samples: u64,
    pub underrun_count: u32,
    pub stream_ended: bool,
    pub start_millis: i32,
    pub config: BuffConfig,
    pub v_config: BuffConfig,
    pub channels: usize,
}

pub open spec fn sat_inc_u64(x: u64) -> u64 {
    if x == u64::MAX { x } else { (x + 1) as u64 }
}

pub open spec fn sat_inc_u32(x: u32) -> u32 {
    if x == u32::MAX { x } else { (x + 1) as u32 }
}

impl<T> AudioStateView<T> {
    /// Capacity of the playback queue.
    pub open spec fn max_samples(self) -> nat {
        self.config.max_samples as nat
    }

    /// Capacity of the visualizer ring.
    pub open spec fn v_max_samples(self) -> nat {
        self.v_config.max_samples as nat
    }

    /// The state after the output callback asks for one sample, and what it
    /// is handed: the next queued sample together with the index of the
    /// effect slot it goes through, or nothing (the callback plays silence).
    pub open spec fn next(self, channels: usize) -> (AudioStateView<T>, Option<(T, usize)>) {
        if self.pl_state != PlaybackState::Playing {
            (self, None)
        } else if self.queue.len() == 0 {
            if self.stream_ended {
                (AudioStateView { pl_state: PlaybackState::Completed, ..self }, None)
            } else {
                (AudioStateView { underrun_count: sat_inc_u32(self.underrun_count), ..self }, None)
            }
        } else {
            let emitted = sat_inc_u64(self.emitted_samples);
            (
                AudioStateView { queue: self.queue.drop_first(), emitted_samples: emitted, ..self },
                Some((self.queue[0], ((emitted as usize) as int % channels as int) as usize)),
            )
        }
    }

    /// The state after the decoder offers `samples`.
    pub open spec fn after_push(self, samples: Seq<T>) -> AudioStateView<T> {
        let n = accepted_count(self.queue.len(), self.max_samples(), samples.len());
        AudioStateView { queue: self.queue + samples.take(n as int), ..self }
    }
}

/// Playback state shared between the player, the decoder and the output.
pub struct AudioState<T> {
    pl_state: PlaybackState,
    queue: SampleQueue<T>,
    visualizer: SampleRing<T>,
    emitted_samples: u64,
    underrun_count: u32,
    stream_ended: bool,
    start_millis: i32,
    config: BuffConfig,
    v_config: BuffConfig,
    channels: usize,
}

impl<T> View for AudioState<T> {
    type V = AudioStateView<T>;

    closed spec fn view(&self) -> AudioStateView<T> {
        AudioStateView {
            pl_state: self.pl_state,
            queue: self.queue@,
            visualizer: self.visualizer@,
            emitted_samples: self.emitted_samples,
            underrun_count: self.underrun_count,
            stream_ended: self.stream_ended,
            start_millis: self.start_millis,
            config: self.config,
            v_config: self.v_config,
            channels: self.channels,
        }
    }
}

impl<T> AudioState<T> {
    /// The queue and the visualizer stay within their capacities.
    pub closed spec fn wf(&self) -> bool {
        &&& self.queue.wf()
        &&& self.visualizer.wf()
        &&& self.queue.capacity() == self.config.max_samples
        &&& self.visualizer.capacity() == self.v_config.max_samples
    }

    /// Law: the queues never exceed their capacities.
    pub proof fn lemma_wf_bounds(&self)
        requires
            self.wf(),
        ensures
            self@.queue.len() <= self@.max_samples(),
            self@.visualizer.len() <= self@.v_max_samples(),
    {
    }

    pub fn new(config: BuffConfig, v_config: BuffConfig, channels: usize) -> (s: AudioState<T>)
        ensures
            s.wf(),
            s@ == (AudioStateView::<T> {
                pl_state: PlaybackState::Idle,
                queue: Seq::empty(),
                visualizer: Seq::empty(),
                emitted_samples: 0,
                underrun_count: 0,
                stream_ended: false,
                start_millis: 0,
                config,
                v_config,
                channels,
            }),
    {
        AudioState {
            pl_state: PlaybackState::Idle,
            queue: SampleQueue::new(config.max_samples),
            visualizer: SampleRing::new(v_config.max_samples),
            emitted_samples: 0,
            underrun_count: 0,
            stream_ended: false,
            start_millis: 0,
            config,
            v_config,
            channels,
        }
    }

    /// Take the next sample for the output callback.
    ///
    /// Returns nothing (silence) unless playing.  When the queue is empty the
    /// state becomes `Completed` if the decoder has finished, and an underrun
    /// is counted otherwise.  A returned sample comes with the index
    /// (`emitted_samples % channels`) of the effect slot it goes through.
    pub fn next_sample(&mut self, channels: usize) -> (r: Option<(T, usize)>)
        requires
            old(self).wf(),
            channels > 0 || old(self)@.pl_state != PlaybackState::Playing || old(self)@.queue.len() == 0,
        ensures
            final(self).wf(),
            (final(self)@, r) == old(self)@.next(channels),
    {
        if self.pl_state != PlaybackState::Playing {
            return None;
        }
        match self.queue.pop_front() {
            Some(s) => {
                self.emitted_samples = self.emitted_samples.saturating_add(1);
                let channel_index = (self.emitted_samples as usize) % channels;
                Some((s, channel_index))
            },
            None => {
                if self.stream_ended {
                    self.pl_state = PlaybackState::Completed;
                } else {
                    self.underrun_count = self.underrun_count.saturating_add(1);
                }
                None
            },
        }
    }

    /// Record a played sample for the visualizer.
    pub fn push_visualizer_sample(&mut self, sample: T)
        requires
            old(self).wf(),
        ensures
            final(self).wf(),
            final(self)@ == (AudioStateView {
                visualizer: ring_push(old(self)@.visualizer, sample, old(self)@.v_max_samples()),
                ..old(self)@
            }),
    {
        self.visualizer.push(sample);
    }

    /// Clear all transient audio state: the queued and visualizer samples and
    /// the per-source counters, and mark the stream as ended.  The playback
    /// state, the start offset and the buffer sizes are untouched.
    pub fn clear_audio_state(&mut self)
        requires
            old(self).wf(),
        ensures
            final(self).wf(),
            final(self)@ == (AudioStateView {
                queue: Seq::empty(),
                visualizer: Seq::empty(),
                emitted_samples: 0,
                stream_ended: true,
                underrun_count: 0,
                ..old(self)@
            }),
    {
        self.queue.clear();
        self.visualizer.clear();
        self.emitted_samples = 0;
        self.stream_ended = true;
        self.underrun_count = 0;
    }

    /// Drop all buffered audio and restart counting at `start_millis`, as a
    /// seek does before decoding resumes.
    pub fn restart_at(&mut self, start_millis: i32)
        requires
            old(self).wf(),
        ensures
            final(self).wf(),
            final(self)@ == (AudioStateView {
                start_millis,
                queue: Seq::empty(),
                visualizer: Seq::empty(),
                emitted_samples: 0,
                stream_ended: false,
                ..old(self)@
            }),
    {
        self.start_millis = start_millis;
        self.queue.clear();
        self.visualizer.clear();
        self.emitted_samples = 0;
        self.stream_ended = false;
    }

    pub fn set_playback_state(&mut self, state: PlaybackState)
        requires
            old(self).wf(),
        ensures
            final(self).wf(),
            final(self)@ == (AudioStateView { pl_state: state, ..old(self)@ }),
    {
        self.pl_state = state;
    }

    pub fn set_stream_ended(&mut self, ended: bool)
        requires
            old(self).wf(),
        ensures
            final(self).wf(),
            final(self)@ == (AudioStateView { stream_ended: ended, ..old(self)@ }),
    {
        self.stream_ended = ended;
    }

    pub fn playback_state(&self) -> (s: PlaybackState)
        ensures
            s == self@.pl_state,
    {
        self.pl_state
    }

    pub fn stream_ended(&self) -> (b: bool)
        ensures
            b == self@.stream_ended,
    {
        self.stream_ended
    }

    pub fn start_millis(&self) -> (m: i32)
        ensures
            m == self@.start_millis,
    {
        self.start_millis
    }

    pub fn emitted_samples(&self) -> (n: u64)
        ensures
            n == self@.emitted_samples,
    {
        self.emitted_samples
    }

    pub fn underrun_count(&self) -> (n: u32)
        ensures
            n == self@.underrun_count,
    {
        self.underrun_count
    }

    pub fn queued_samples(&self) -> (n: usize)
        ensures
            n == self@.queue.len(),
    {
        self.queue.len()
    }

    pub fn channels(&self) -> (n: usize)
        ensures
            n == self@.channels,
    {
        self.channels
    }

    pub fn sample_rate(&self) -> (r: u32)
        ensures
            r == self@.config.sample_rate,
    {
        self.config.sample_rate
    }
}

impl<T: Copy> AudioState<T> {
    /// Push up to `max_samples - queued` samples and return the count pushed;
    /// the caller retries the rest after sleeping.
    pub fn push_samples_bounded(&mut self, samples: &[T]) -> (pushed: usize)
        requires
            old(self).wf(),
        ensures
            final(self).wf(),
            pushed == accepted_count(old(self)@.queue.len(), old(self)@.max_samples(), samples@.len()),
            final(self)@ == old(self)@.after_push(samples@),
    {
        self.queue.push_samples_bounded(samples)
    }

    /// The samples kept for the visualizer, oldest first.
    pub fn visualizer_samples(&self) -> (v: Vec<T>)
        ensures
            v@ == self@.visualizer,
    {
        self.visualizer.to_vec()
    }
}

/// Law: while the player is not playing the output gets silence and nothing
/// changes.
pub proof fn lemma_silent_unless_playing<T>(s: AudioStateView<T>, channels: usize)
    requires
        s.pl_state != PlaybackState::Playing,
    ensures
        s.next(channels) == (s, None::<(T, usize)>),
{
}

/// Law: playback completes exactly when the queue has run dry after the
/// decoder finished; running dry earlier counts an underrun instead.
pub proof fn lemma_completion<T>(s: AudioStateView<T>, channels: usize)
    requires
        s.pl_state == PlaybackState::Playing,
        s.queue.len() == 0,
    ensures
        s.next(channels).1 is None,
        s.stream_ended ==> s.next(channels).0.pl_state == PlaybackState::Completed,
        !s.stream_ended ==> s.next(channels).0.pl_state == PlaybackState::Playing
            && s.next(channels).0.underrun_count == sat_inc_u32(s.underrun_count),
{
}

/// The state after `k` requests of the output callback, and the samples
/// handed out (oldest request first).
pub open spec fn run_next<T>(s: AudioStateView<T>, k: nat, channels: usize) -> (AudioStateView<T>, Seq<Option<(T, usize)>>)
    decreases k,
{
    if k == 0 {
        (s, Seq::empty())
    } else {
        let (prev, outs) = run_next(s, (k - 1) as nat, channels);
        let (next, out) = prev.next(channels);
        (next, outs.push(out))
    }
}

/// Law: a playing state hands out its queued samples in order, one per
/// request, and keeps the rest queued.
pub proof fn lemma_plays_queue_in_order<T>(s: AudioStateView<T>, k: nat, channels: usize)
    requires
        s.pl_state == PlaybackState::Playing,
        k <= s.queue.len(),
        channels > 0,
    ensures
        run_next(s, k, channels).1.len() == k,
        forall|i: int| 0 <= i < k ==> #[trigger] run_next(s, k, channels).1[i] is Some
            && run_next(s, k, channels).1[i].unwrap().0 == s.queue[i],
        run_next(s, k, channels).0.queue == s.queue.skip(k as int),
        run_next(s, k, channels).0.pl_state == PlaybackState::Playing,
    decreases k,
{
    if k > 0 {
        lemma_plays_queue_in_order(s, (k - 1) as nat, channels);
        let (prev, outs) = run_next(s, (k - 1) as nat, channels);
        assert(prev.queue.len() > 0);
        assert(prev.queue[0] == s.queue[k - 1]);
        assert(prev.queue.drop_first() =~= s.queue.skip(k as int));
        let all = run_next(s, k, channels).1;
        assert forall|i: int| 0 <= i < k implies #[trigger] all[i] is Some && all[i].unwrap().0 == s.queue[i] by {
            if i < k - 1 {
                assert(all[i] == outs[i]);
            }
        }
    }
}

/// Law: what the decoder pushes is played back unchanged and in order,
/// after what was already queued.
pub proof fn lemma_pushed_samples_play_in_order<T>(s: AudioStateView<T>, samples: Seq<T>, channels: usize)
    requires
        s.pl_state == PlaybackState::Playing,
        s.queue.len() <= s.max_samples(),
        channels > 0,
    ensures
        ({
            let n = accepted_count(s.queue.len(), s.max_samples(), samples.len());
            let k = s.queue.len() + n;
            let outs = run_next(s.after_push(samples), k, channels).1;
            &&& forall|i: int| 0 <= i < s.queue.len() ==> #[trigger] outs[i] is Some && outs[i].unwrap().0 == s.queue[i]
            &&& forall|j: int| 0 <= j < n ==> #[trigger] outs[s.queue.len() + j] is Some
                && outs[s.queue.len() + j].unwrap().0 == samples[j]
        }),
{
    let n = accepted_count(s.queue.len(), s.max_samples(), samples.len());
    let t = s.after_push(samples);
    lemma_plays_queue_in_order(t, s.queue.len() + n, channels);
    let outs = run_next(t, s.queue.len() + n, channels).1;
    assert forall|j: int| 0 <= j < n implies #[trigger] outs[s.queue.len() + j] is Some
        && outs[s.queue.len() + j].unwrap().0 == samples[j] by {
        assert(t.queue[s.queue.len() + j] == samples[j]);
    }
    assert forall|i: int| 0 <= i < s.queue.len() implies #[trigger] outs[i] is Some && outs[i].unwrap().0 == s.queue[i] by {
        assert(t.queue[i] == s.queue[i]);
    }
}

} // verus!

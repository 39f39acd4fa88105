//! Sample memories behind the delay effects.
//!
//! `RingBuffer` is the circular buffer of the delay lines and the moving
//! average: each push overwrites the oldest sample, and a tap reads the sample
//! written a given number of pushes ago.  `RevertBuffer` records a stretch of
//! audio and plays it back reversed.  Both hold any sample type; the effects
//! mix the samples they return.

use vstd::prelude::*;

verus! {

/// Position in the buffer of the `i`-th oldest sample when the next write
/// goes to `w`.
pub open spec fn ring_slot(w: int, i: int, len: int) -> int {
    if w + i < len {
        w + i
    } else {
        w + i - len
    }
}

/// Index, oldest first, of the sample a tap `delay` pushes back reads.
/// A tap of 0 reads the oldest sample, the one the next push overwrites.
pub open spec fn tap_index(delay: nat, len: nat) -> int {
    if delay == 0 {
        0
    } else {
        len - delay
    }
}

/// The contents after one push: the oldest sample leaves, `x` is newest.
pub open spec fn ring_shift<T>(s: Seq<T>, x: T) -> Seq<T> {
    s.drop_first().push(x)
}

/// The contents after pushing every sample of `xs` in order.
pub open spec fn ring_shift_all<T>(s: Seq<T>, xs: Seq<T>) -> Seq<T>
    decreases xs.len(),
{
    if xs.len() == 0 {
        s
    } else {
        ring_shift(ring_shift_all(s, xs.drop_last()), xs.last())
    }
}

/// Fixed-length circular buffer of samples.
pub struct RingBuffer<T> {
    buffer: Vec<T>,
    write_pos: usize,
}

impl<T> View for RingBuffer<T> {
    type V = Seq<T>;

    /// The stored samples, oldest first.
    closed spec fn view(&self) -> Seq<T> {
        Seq::new(
            self.buffer@.len(),
            |i: int| self.buffer@[ring_slot(self.write_pos as int, i, self.buffer@.len() as int)],
        )
    }
}

impl<T> RingBuffer<T> {
    /// The buffer is not empty and the write position lies inside it.
    pub closed spec fn wf(&self) -> bool {
        &&& self.buffer@.len() >= 1
        &&& self.write_pos < self.buffer@.len()
    }

    /// Law: a well-formed ring holds at least one sample.
    pub proof fn lemma_wf_nonempty(&self)
        requires
            self.wf(),
        ensures
            self@.len() >= 1,
    {
    }

    /// Number of samples the buffer holds.
    pub fn len(&self) -> (n: usize)
        requires
            self.wf(),
        ensures
            n == self@.len(),
    {
        self.buffer.len()
    }

    /// The largest delay a delay line over this buffer can use: `delay`
    /// limited to `len - 1`.
    pub fn clamp_delay(&self, delay: usize) -> (d: usize)
        requires
            self.wf(),
        ensures
            d == if delay < self@.len() { delay as int } else { self@.len() - 1 },
    {
        let max = self.buffer.len() - 1;
        if delay > max {
            max
        } else {
            delay
        }
    }

    /// The sample written `delay` pushes ago (`1 <= delay <= len`); a delay
    /// of 0 reads the oldest sample.
    pub fn tap(&self, delay: usize) -> (x: &T)
        requires
            self.wf(),
            delay <= self@.len(),
        ensures
            *x == self@[tap_index(delay as nat, self@.len())],
    {
        let len = self.buffer.len();
        let read_pos = if self.write_pos >= delay {
            self.write_pos - delay
        } else {
            len - (delay - self.write_pos)
        };
        &self.buffer[read_pos]
    }

    /// Write `sample` over the oldest sample and return the one it replaced.
    pub fn push(&mut self, sample: T) -> (evicted: T)
        requires
            old(self).wf(),
        ensures
            final(self).wf(),
            evicted == old(self)@[0],
            final(self)@ == ring_shift(old(self)@, sample),
    {
        let len = self.buffer.len();
        let pos = self.write_pos;
        let ghost old_buf = self.buffer@;
        let mut evicted = sample;
        std::mem::swap(&mut self.buffer[pos], &mut evicted);
        self.write_pos = if pos + 1 == len { 0 } else { pos + 1 };
        proof {
            let n = len as int;
            let w = pos as int;
            assert forall|i: int| 0 <= i < n implies #[trigger] self@[i] == ring_shift(
                old(self)@,
                sample,
            )[i] by {
                if i < n - 1 {
                    assert(ring_slot(self.write_pos as int, i, n) == ring_slot(w, i + 1, n));
                } else {
                    assert(ring_slot(self.write_pos as int, i, n) == w);
                }
            }
            assert(self@ =~= ring_shift(old(self)@, sample));
        }
        evicted
    }
}

impl<T: Copy> RingBuffer<T> {
    /// A buffer of `max(len, 1)` samples, all equal to `fill`.
    pub fn new(len: usize, fill: T) -> (r: Self)
        ensures
            r.wf(),
            r@ == Seq::new(if len == 0 { 1 } else { len as nat }, |i: int| fill),
    {
        let n = if len == 0 { 1 } else { len };
        let mut buffer: Vec<T> = Vec::with_capacity(n);
        let mut i: usize = 0;
        while i < n
            invariant
                i <= n,
                buffer@.len() == i,
                forall|j: int| 0 <= j < i ==> buffer@[j] == fill,
            decreases n - i,
        {
            buffer.push(fill);
            i = i + 1;
        }
        let r = RingBuffer { buffer, write_pos: 0 };
        assert(r@ =~= Seq::new(n as nat, |i: int| fill));
        r
    }

    /// Overwrite every sample with `fill` and start writing at the front.
    pub fn reset(&mut self, fill: T)
        requires
            old(self).wf(),
        ensures
            final(self).wf(),
            final(self)@ == Seq::new(old(self)@.len(), |i: int| fill),
    {
        let n = self.buffer.len();
        let mut i: usize = 0;
        while i < n
            invariant
                i <= n,
                n >= 1,
                self.buffer@.len() == n,
                self.write_pos < n,
                forall|j: int| 0 <= j < i ==> self.buffer@[j] == fill,
            decreases n - i,
        {
            self.buffer.set(i, fill);
            i = i + 1;
        }
        self.write_pos = 0;
        assert(self@ =~= Seq::new(n as nat, |i: int| fill));
    }
}

/// The contents after a run of pushes: the first `|xs|` samples have left
/// and `xs` fills the back.
pub proof fn lemma_ring_shift_all<T>(s: Seq<T>, xs: Seq<T>)
    requires
        xs.len() <= s.len(),
    ensures
        ring_shift_all(s, xs) == s.subrange(xs.len() as int, s.len() as int) + xs,
    decreases xs.len(),
{
    if xs.len() == 0 {
        assert(s.subrange(0, s.len() as int) + xs =~= s);
    } else {
        lemma_ring_shift_all(s, xs.drop_last());
        let prev = ring_shift_all(s, xs.drop_last());
        assert(ring_shift(prev, xs.last()) =~= s.subrange(xs.len() as int, s.len() as int) + xs);
    }
}

/// Law: a delay line reads back what it wrote.  After `x` is pushed and
/// `delay - 1` further samples follow it, a tap of `delay` reads `x`
/// (for every delay from 1 to the buffer length).
pub proof fn lemma_tap_reads_back<T>(s: Seq<T>, x: T, later: Seq<T>, delay: nat)
    requires
        s.len() >= 1,
        1 <= delay <= s.len(),
        later.len() == delay - 1,
    ensures
        ring_shift_all(ring_shift(s, x), later)[tap_index(delay, s.len())] == x,
{
    let s1 = ring_shift(s, x);
    assert(s1.len() == s.len());
    assert(s1[s.len() - 1] == x);
    lemma_ring_shift_all(s1, later);
    let r = ring_shift_all(s1, later);
    assert(r[s.len() - delay] == s1[s.len() - 1]);
}

/// The abstract state of a reverse buffer.
pub struct RevertView<T> {
    pub record: Seq<T>,
    pub playback: Seq<T>,
    pub record_pos: nat,
    pub playback_pos: nat,
    pub recording: bool,
    pub playing: bool,
    pub looping: bool,
}

impl<T> RevertView<T> {
    /// Switching to playback: the recorded samples, reversed, become the
    /// playback buffer.  Nothing happens when nothing was recorded.
    pub open spec fn start_playback(self) -> RevertView<T> {
        if self.record_pos > 0 {
            RevertView {
                playback: self.record.take(self.record_pos as int).reverse(),
                recording: false,
                playing: true,
                playback_pos: 0,
                ..self
            }
        } else {
            self
        }
    }

    /// The state after one input sample, and the playback sample to mix in
    /// (none when not playing).  A full recording switches to playback.
    pub open spec fn process(self, sample: T) -> (RevertView<T>, Option<T>) {
        let v = if self.recording {
            if self.record_pos < self.record.len() {
                RevertView {
                    record: self.record.update(self.record_pos as int, sample),
                    record_pos: self.record_pos + 1,
                    ..self
                }
            } else {
                self.start_playback()
            }
        } else {
            self
        };
        if v.playing && v.playback.len() > 0 {
            let out = v.playback[v.playback_pos as int];
            let next = v.playback_pos + 1;
            let w = if next >= v.playback.len() {
                if v.looping {
                    RevertView { playback_pos: 0, ..v }
                } else {
                    RevertView { playback_pos: next, playing: false, ..v }
                }
            } else {
                RevertView { playback_pos: next, ..v }
            };
            (w, Some(out))
        } else {
            (v, None)
        }
    }

    /// The state after feeding `xs` one sample at a time.
    pub open spec fn run(self, xs: Seq<T>) -> RevertView<T>
        decreases xs.len(),
    {
        if xs.len() == 0 {
            self
        } else {
            self.run(xs.drop_last()).process(xs.last()).0
        }
    }

    /// The playback samples handed out while feeding `xs`, one per input.
    pub open spec fn outputs(self, xs: Seq<T>) -> Seq<Option<T>>
        decreases xs.len(),
    {
        if xs.len() == 0 {
            Seq::empty()
        } else {
            self.outputs(xs.drop_last()).push(self.run(xs.drop_last()).process(xs.last()).1)
        }
    }

    pub open spec fn wf(self) -> bool {
        &&& self.record.len() >= 1
        &&& self.record_pos <= self.record.len()
        &&& self.playing ==> self.playback_pos < self.playback.len()
    }
}

/// Records audio, then plays it back reversed.
pub struct RevertBuffer<T> {
    record_buffer: Vec<T>,
    playback_buffer: Vec<T>,
    record_pos: usize,
    playback_pos: usize,
    length: usize,
    is_recording: bool,
    is_playing: bool,
    loop_playback: bool,
}

impl<T> View for RevertBuffer<T> {
    type V = RevertView<T>;

    closed spec fn view(&self) -> RevertView<T> {
        RevertView {
            record: self.record_buffer@,
            playback: self.playback_buffer@,
            record_pos: self.record_pos as nat,
            playback_pos: self.playback_pos as nat,
            recording: self.is_recording,
            playing: self.is_playing,
            looping: self.loop_playback,
        }
    }
}

impl<T> RevertBuffer<T> {
    pub closed spec fn wf(&self) -> bool {
        &&& self@.wf()
        &&& self.length == self.record_buffer@.len()
    }

    /// Law: a well-formed reverse buffer satisfies the view's invariant.
    pub proof fn lemma_wf_view(&self)
        requires
            self.wf(),
        ensures
            self@.wf(),
    {
    }

    /// Start a new recording from the beginning of the buffer.
    pub fn start_recording(&mut self)
        requires
            old(self).wf(),
        ensures
            final(self).wf(),
            final(self)@ == (RevertView {
                recording: true,
                playing: false,
                record_pos: 0,
                playback_pos: 0,
                ..old(self)@
            }),
    {
        self.is_recording = true;
        self.is_playing = false;
        self.record_pos = 0;
        self.playback_pos = 0;
    }

    /// Stop recording and playing.
    pub fn stop(&mut self)
        requires
            old(self).wf(),
        ensures
            final(self).wf(),
            final(self)@ == (RevertView { recording: false, playing: false, ..old(self)@ }),
    {
        self.is_recording = false;
        self.is_playing = false;
    }

    /// Whether playback starts over when it reaches the end.
    pub fn set_loop(&mut self, loop_playback: bool)
        requires
            old(self).wf(),
        ensures
            final(self).wf(),
            final(self)@ == (RevertView { looping: loop_playback, ..old(self)@ }),
    {
        self.loop_playback = loop_playback;
    }

    pub fn is_recording(&self) -> (b: bool)
        ensures
            b == self@.recording,
    {
        self.is_recording
    }

    pub fn is_playing(&self) -> (b: bool)
        ensures
            b == self@.playing,
    {
        self.is_playing
    }
}

impl<T: Copy> RevertBuffer<T> {
    /// A buffer recording up to `max(length, 1)` samples, initially `fill`.
    pub fn new(length: usize, fill: T) -> (b: Self)
        ensures
            b.wf(),
            b@ == (RevertView {
                record: Seq::new(if length == 0 { 1 } else { length as nat }, |i: int| fill),
                playback: Seq::<T>::empty(),
                record_pos: 0,
                playback_pos: 0,
                recording: true,
                playing: false,
                looping: false,
            }),
    {
        let n = if length == 0 { 1 } else { length };
        let mut record_buffer: Vec<T> = Vec::with_capacity(n);
        let mut i: usize = 0;
        while i < n
            invariant
                i <= n,
                record_buffer@.len() == i,
                forall|j: int| 0 <= j < i ==> record_buffer@[j] == fill,
            decreases n - i,
        {
            record_buffer.push(fill);
            i = i + 1;
        }
        assert(record_buffer@ =~= Seq::new(n as nat, |i: int| fill));
        RevertBuffer {
            record_buffer,
            playback_buffer: Vec::new(),
            record_pos: 0,
            playback_pos: 0,
            length: n,
            is_recording: true,
            is_playing: false,
            loop_playback: false,
        }
    }

    /// Play back what was recorded so far, last sample first.  Does nothing
    /// when nothing was recorded.
    pub fn start_playback(&mut self)
        requires
            old(self).wf(),
        ensures
            final(self).wf(),
            final(self)@ == old(self)@.start_playback(),
    {
        if self.record_pos > 0 {
            let rp = self.record_pos;
            let mut reversed: Vec<T> = Vec::with_capacity(rp);
            let mut i: usize = rp;
            while i > 0
                invariant
                    i <= rp,
                    rp <= self.record_buffer@.len(),
                    reversed@ =~= self.record_buffer@.subrange(i as int, rp as int).reverse(),
                decreases i,
            {
                i = i - 1;
                let ghost before = reversed@;
                reversed.push(self.record_buffer[i]);
                assert(reversed@ =~= self.record_buffer@.subrange(i as int, rp as int).reverse());
            }
            assert(self.record_buffer@.subrange(0, rp as int) =~= self.record_buffer@.take(rp as int));
            self.playback_buffer = reversed;
            self.is_recording = false;
            self.is_playing = true;
            self.playback_pos = 0;
        }
    }

    /// Feed one input sample.  Returns the playback sample to mix with it,
    /// or nothing when not playing (the input passes through unchanged).
    pub fn process(&mut self, sample: T) -> (out: Option<T>)
        requires
            old(self).wf(),
        ensures
            final(self).wf(),
            (final(self)@, out) == old(self)@.process(sample),
    {
        if self.is_recording {
            if self.record_pos < self.length {
                self.record_buffer.set(self.record_pos, sample);
                self.record_pos = self.record_pos + 1;
            } else {
                self.start_playback();
            }
        }
        if self.is_playing && self.playback_buffer.len() > 0 {
            let out = self.playback_buffer[self.playback_pos];
            self.playback_pos = self.playback_pos + 1;
            if self.playback_pos >= self.playback_buffer.len() {
                if self.loop_playback {
                    self.playback_pos = 0;
                } else {
                    self.is_playing = false;
                }
            }
            Some(out)
        } else {
            None
        }
    }

    /// Clear the recording (to `fill`) and start recording again.
    pub fn reset(&mut self, fill: T)
        requires
            old(self).wf(),
        ensures
            final(self).wf(),
            final(self)@ == (RevertView {
                record: Seq::new(old(self)@.record.len(), |i: int| fill),
                playback: Seq::<T>::empty(),
                record_pos: 0,
                playback_pos: 0,
                recording: true,
                playing: false,
                ..old(self)@
            }),
    {
        let n = self.record_buffer.len();
        let mut i: usize = 0;
        while i < n
            invariant
                i <= n,
                n >= 1,
                self.record_buffer@.len() == n,
                self.length == n,
                self.loop_playback == old(self).loop_playback,
                forall|j: int| 0 <= j < i ==> self.record_buffer@[j] == fill,
            decreases n - i,
        {
            self.record_buffer.set(i, fill);
            i = i + 1;
        }
        assert(self.record_buffer@ =~= Seq::new(n as nat, |i: int| fill));
        self.playback_buffer = Vec::new();
        self.record_pos = 0;
        self.playback_pos = 0;
        self.is_recording = true;
        self.is_playing = false;
    }
}

/// Feeding `a` then `b` is feeding `a + b`.
pub proof fn lemma_run_concat<T>(v: RevertView<T>, a: Seq<T>, b: Seq<T>)
    ensures
        v.run(a + b) == v.run(a).run(b),
        v.outputs(a + b) == v.outputs(a) + v.run(a).outputs(b),
        v.outputs(a).len() == a.len(),
    decreases b.len(),
{
    lemma_outputs_len(v, a);
    if b.len() == 0 {
        assert(a + b =~= a);
        assert(v.outputs(a) + v.run(a).outputs(b) =~= v.outputs(a));
    } else {
        assert((a + b).drop_last() =~= a + b.drop_last());
        assert((a + b).last() == b.last());
        lemma_run_concat(v, a, b.drop_last());
        assert(v.outputs(a + b) =~= v.outputs(a) + v.run(a).outputs(b));
    }
}

/// One output per input.
pub proof fn lemma_outputs_len<T>(v: RevertView<T>, xs: Seq<T>)
    ensures
        v.outputs(xs).len() == xs.len(),
    decreases xs.len(),
{
    if xs.len() > 0 {
        lemma_outputs_len(v, xs.drop_last());
    }
}

/// Recording phase: the first `k` inputs (up to the buffer length) are
/// stored in order and nothing is played.
proof fn lemma_recording_phase<T>(v: RevertView<T>, xs: Seq<T>, k: nat)
    requires
        v.wf(),
        v.recording,
        !v.playing,
        v.record_pos == 0,
        k <= xs.len(),
        k <= v.record.len(),
    ensures
        ({
            let r = v.run(xs.take(k as int));
            &&& r.recording
            &&& !r.playing
            &&& r.record_pos == k
            &&& r.record.len() == v.record.len()
            &&& r.record.take(k as int) == xs.take(k as int)
            &&& r.looping == v.looping
        }),
        v.outputs(xs.take(k as int)) == Seq::new(k, |i: int| None::<T>),
    decreases k,
{
    if k == 0 {
        assert(xs.take(0) =~= Seq::<T>::empty());
        assert(v.outputs(xs.take(0)) =~= Seq::new(0, |i: int| None::<T>));
        assert(v.record.take(0) =~= Seq::<T>::empty());
    } else {
        lemma_recording_phase(v, xs, (k - 1) as nat);
        let prev = xs.take(k - 1);
        assert(xs.take(k as int).drop_last() =~= prev);
        assert(xs.take(k as int).last() == xs[k - 1]);
        let r = v.run(prev);
        let r2 = r.process(xs[k - 1]).0;
        assert(r2.record.take(k as int) =~= xs.take(k as int)) by {
            assert(r.record.take(k - 1) =~= prev);
        }
        assert(v.outputs(xs.take(k as int)) =~= Seq::new(k, |i: int| None::<T>));
    }
}

/// Playback phase: while the end is not passed, each input hands out the
/// next playback sample.
proof fn lemma_playback_phase<T>(w: RevertView<T>, zs: Seq<T>)
    requires
        !w.recording,
        w.playing,
        w.playback_pos + zs.len() <= w.playback.len(),
    ensures
        ({
            let r = w.run(zs);
            &&& !r.recording
            &&& r.playback == w.playback
            &&& w.playback_pos + zs.len() < w.playback.len() ==> r.playing && r.playback_pos == w.playback_pos + zs.len()
        }),
        w.outputs(zs) == Seq::new(zs.len(), |i: int| Some(w.playback[w.playback_pos + i])),
    decreases zs.len(),
{
    if zs.len() == 0 {
        assert(w.outputs(zs) =~= Seq::new(0, |i: int| Some(w.playback[w.playback_pos + i])));
    } else {
        lemma_playback_phase(w, zs.drop_last());
        assert(w.outputs(zs) =~= Seq::new(zs.len(), |i: int| Some(w.playback[w.playback_pos + i])));
    }
}

/// Law: the buffer plays back what it recorded, reversed.  From the start of
/// a recording, the first `len` inputs are recorded and pass through; from
/// then on the outputs are the recorded samples, last one first.
pub proof fn lemma_plays_back_reversed<T>(v: RevertView<T>, xs: Seq<T>, ys: Seq<T>)
    requires
        v.wf(),
        v.recording,
        !v.playing,
        v.record_pos == 0,
        xs.len() == v.record.len(),
        1 <= ys.len() <= xs.len(),
    ensures
        v.outputs(xs + ys).len() == xs.len() + ys.len(),
        forall|i: int| 0 <= i < xs.len() ==> #[trigger] v.outputs(xs + ys)[i] == None::<T>,
        forall|j: int|
            0 <= j < ys.len() ==> #[trigger] v.outputs(xs + ys)[xs.len() + j] == Some(
                xs[xs.len() - 1 - j],
            ),
{
    let n = xs.len();
    lemma_recording_phase(v, xs, n);
    assert(xs.take(n as int) =~= xs);
    lemma_run_concat(v, xs, ys);
    lemma_outputs_len(v, xs + ys);
    let s = v.run(xs);
    let y0 = seq![ys[0]];
    let rest = ys.drop_first();
    assert(y0 + rest =~= ys);
    lemma_run_concat(s, y0, rest);
    lemma_outputs_len(s, y0);
    lemma_outputs_len(s.run(y0), rest);
    assert(y0.drop_last() =~= Seq::<T>::empty());
    let started = s.start_playback();
    assert(s.record.take(n as int) =~= xs);
    assert(started.playback =~= xs.reverse());
    let s1 = s.run(y0);
    assert(s.outputs(y0) =~= seq![Some(xs[n - 1])]);
    if n >= 2 {
        assert(s1.playing && s1.playback_pos == 1 && !s1.recording);
        lemma_playback_phase(s1, rest);
    } else {
        assert(rest.len() == 0);
        assert(s1.outputs(rest) =~= Seq::<Option<T>>::empty());
    }
    assert forall|j: int| 0 <= j < ys.len() implies #[trigger] v.outputs(xs + ys)[n + j] == Some(
        xs[n - 1 - j],
    ) by {
        assert(v.outputs(xs + ys)[n + j] == s.outputs(ys)[j]);
        if j == 0 {
            assert(s.outputs(ys)[0] == s.outputs(y0)[0]);
        } else {
            assert(s.outputs(ys)[j] == s1.outputs(rest)[j - 1]);
        }
    }
}

} // verus!

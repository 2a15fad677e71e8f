//! Sample buffering and speech gating for the capture side of the pipeline.
//! The buffers hold samples of any copyable type; the pipeline stores `f32`.
use vstd::prelude::*;

verus! {

/// Standard sample rate for ASR (Whisper standard).
pub const ASR_SAMPLE_RATE: u32 = 16000;

/// Default chunk duration in milliseconds.
pub const DEFAULT_CHUNK_DURATION_MS: u32 = 600;

/// VAD frame duration in milliseconds.
pub const VAD_FRAME_DURATION_MS: u32 = 30;

/// Number of whole samples in `duration_ms` milliseconds of audio at
/// `sample_rate` Hz (saturating at `usize::MAX`).
pub open spec fn samples_in(sample_rate: int, duration_ms: int) -> int {
    if (sample_rate * duration_ms) / 1000 > usize::MAX as int {
        usize::MAX as int
    } else {
        (sample_rate * duration_ms) / 1000
    }
}

/// Calculate chunk size from sample rate and duration.
pub fn chunk_size_from_duration(sample_rate: u32, duration_ms: u32) -> (size: usize)
    ensures
        size as int == samples_in(sample_rate as int, duration_ms as int),
{
    assert(sample_rate as u64 * duration_ms as u64 <= u32::MAX as u64 * u32::MAX as u64)
        by (nonlinear_arith);
    let product: u64 = sample_rate as u64 * duration_ms as u64;
    let samples: u64 = product / 1000;
    if samples > usize::MAX as u64 {
        usize::MAX
    } else {
        samples as usize
    }
}

/// The last `keep` elements of `s` (all of `s` when it is shorter).
pub open spec fn tail<T>(s: Seq<T>, keep: nat) -> Seq<T> {
    if s.len() <= keep {
        s
    } else {
        s.subrange(s.len() - keep, s.len() as int)
    }
}

/// The number of samples a buffer of `capacity` keeps (at least one).
pub open spec fn kept(capacity: usize) -> nat {
    if capacity == 0 {
        1
    } else {
        capacity as nat
    }
}

/// A bounded FIFO of samples that hands them out in fixed-size chunks; when
/// full, the oldest samples are dropped.
pub struct AudioBuffer<T> {
    buffer: std::collections::VecDeque<T>,
    capacity: usize,
    chunk_size: usize,
}

impl<T: Copy> AudioBuffer<T> {
    /// The buffered samples, oldest first.
    pub closed spec fn samples(&self) -> Seq<T> {
        self.buffer@
    }

    /// The most samples the buffer keeps when it is not given a zero capacity.
    pub closed spec fn capacity(&self) -> usize {
        self.capacity
    }

    /// The number of samples in a chunk.
    pub closed spec fn chunk_size(&self) -> usize {
        self.chunk_size
    }

    /// The buffer never holds more samples than it keeps.
    pub closed spec fn wf(&self) -> bool {
        self.buffer@.len() <= kept(self.capacity)
    }

    pub fn new(capacity: usize, chunk_size: usize) -> (b: Self)
        ensures
            b.wf(),
            b.samples() == Seq::<T>::empty(),
            b.capacity() == capacity,
            b.chunk_size() == chunk_size,
    {
        AudioBuffer { buffer: std::collections::VecDeque::new(), capacity, chunk_size }
    }

    /// Appends `samples`, dropping the oldest ones beyond the capacity.
    pub fn push(&mut self, samples: &[T])
        requires
            old(self).wf(),
        ensures
            final(self).wf(),
            final(self).capacity() == old(self).capacity(),
            final(self).chunk_size() == old(self).chunk_size(),
            final(self).samples() == tail(
                old(self).samples() + samples@,
                kept(old(self).capacity()),
            ),
    {
        let ghost start = self.buffer@;
        let ghost m = kept(self.capacity);
        assert(tail(start + samples@.subrange(0, 0), m) == start) by {
            assert(start + samples@.subrange(0, 0) == start);
        }
        let mut i: usize = 0;
        while i < samples.len()
            invariant
                i <= samples@.len(),
                m == kept(self.capacity),
                self.capacity == old(self).capacity,
                self.chunk_size == old(self).chunk_size,
                self.buffer@ == tail(start + samples@.subrange(0, i as int), m),
                self.buffer@.len() <= m,
            decreases samples.len() - i,
        {
            let ghost a = start + samples@.subrange(0, i as int);
            let ghost c = self.buffer@;
            let x = samples[i];
            if self.buffer.len() >= self.capacity {
                let _ = self.buffer.pop_front();
            }
            self.buffer.push_back(x);
            proof {
                let a2 = start + samples@.subrange(0, i + 1);
                assert(a2 == a.push(x));
                if a.len() + 1 <= m {
                    assert(tail(a2, m) == a2);
                } else {
                    assert(tail(a2, m) =~= tail(a, m).subrange(
                        tail(a, m).len() - (m - 1),
                        tail(a, m).len() as int,
                    ).push(x));
                }
                assert(self.buffer@ =~= tail(a2, m));
            }
            i = i + 1;
        }
        assert(samples@.subrange(0, samples@.len() as int) == samples@);
    }

    /// Takes the oldest `chunk_size` samples, when that many are buffered.
    pub fn get_chunk(&mut self) -> (r: Option<Vec<T>>)
        requires
            old(self).wf(),
        ensures
            final(self).wf(),
            final(self).capacity() == old(self).capacity(),
            final(self).chunk_size() == old(self).chunk_size(),
            match r {
                Some(chunk) => {
                    &&& old(self).samples().len() >= old(self).chunk_size()
                    &&& chunk@ == old(self).samples().subrange(0, old(self).chunk_size() as int)
                    &&& final(self).samples() == old(self).samples().subrange(
                        old(self).chunk_size() as int,
                        old(self).samples().len() as int,
                    )
                },
                None => {
                    &&& old(self).samples().len() < old(self).chunk_size()
                    &&& final(self).samples() == old(self).samples()
                },
            },
    {
        if self.buffer.len() >= self.chunk_size {
            let chunk = drain_front(&mut self.buffer, self.chunk_size);
            Some(chunk)
        } else {
            None
        }
    }

    /// The oldest `chunk_size` samples, when that many are buffered, without
    /// removing them.
    pub fn peek_chunk(&self) -> (r: Option<Vec<T>>)
        ensures
            match r {
                Some(chunk) => {
                    &&& self.samples().len() >= self.chunk_size()
                    &&& chunk@ == self.samples().subrange(0, self.chunk_size() as int)
                },
                None => self.samples().len() < self.chunk_size(),
            },
    {
        if self.buffer.len() >= self.chunk_size {
            let mut chunk: Vec<T> = Vec::new();
            let mut i: usize = 0;
            while i < self.chunk_size
                invariant
                    self.chunk_size <= self.buffer@.len(),
                    i <= self.chunk_size,
                    chunk@ == self.buffer@.subrange(0, i as int),
                decreases self.chunk_size - i,
            {
                chunk.push(self.buffer[i]);
                assert(self.buffer@.subrange(0, i + 1) == self.buffer@.subrange(0, i as int).push(
                    self.buffer@[i as int],
                ));
                i = i + 1;
            }
            Some(chunk)
        } else {
            None
        }
    }

    pub fn len(&self) -> (n: usize)
        ensures
            n == self.samples().len(),
    {
        self.buffer.len()
    }

    pub fn is_empty(&self) -> (b: bool)
        ensures
            b == (self.samples().len() == 0),
    {
        self.buffer.len() == 0
    }

    pub fn clear(&mut self)
        ensures
            final(self).wf(),
            final(self).samples() == Seq::<T>::empty(),
            final(self).capacity() == old(self).capacity(),
            final(self).chunk_size() == old(self).chunk_size(),
    {
        self.buffer.clear();
    }

    pub fn set_chunk_size(&mut self, size: usize)
        ensures
            final(self).wf() == old(self).wf(),
            final(self).samples() == old(self).samples(),
            final(self).capacity() == old(self).capacity(),
            final(self).chunk_size() == size,
    {
        self.chunk_size = size;
    }
}

/// Removes the first `n` elements of `q` and returns them in order.
pub fn drain_front<T>(q: &mut std::collections::VecDeque<T>, n: usize) -> (out: Vec<T>)
    requires
        n <= old(q)@.len(),
    ensures
        out@ == old(q)@.subrange(0, n as int),
        final(q)@ == old(q)@.subrange(n as int, old(q)@.len() as int),
{
    let ghost start = q@;
    let mut out: Vec<T> = Vec::new();
    let mut i: usize = 0;
    while i < n
        invariant
            n <= start.len(),
            i <= n,
            out@ == start.subrange(0, i as int),
            q@ == start.subrange(i as int, start.len() as int),
        decreases n - i,
    {
        match q.pop_front() {
            Some(x) => {
                out.push(x);
                assert(start.subrange(0, i + 1) == start.subrange(0, i as int).push(x));
                assert(q@ =~= start.subrange(i + 1, start.len() as int));
            },
            None => {
                assert(false);
            },
        }
        i = i + 1;
    }
    out
}

/// Splits continuous audio into fixed-size chunks; when the rest of the
/// buffer after a chunk is shorter than the overlap, the last samples of the
/// chunk are kept in front of it.
pub struct AudioChunker<T> {
    buffer: std::collections::VecDeque<T>,
    chunk_size: usize,
    overlap_size: usize,
}

/// The buffered samples after taking the chunk `chunk` off the front and
/// leaving `rest`.
pub open spec fn after_chunk<T>(chunk: Seq<T>, rest: Seq<T>, overlap: nat) -> Seq<T> {
    if overlap > 0 && rest.len() < overlap {
        tail(chunk, overlap) + rest
    } else {
        rest
    }
}

impl<T: Copy> AudioChunker<T> {
    pub closed spec fn samples(&self) -> Seq<T> {
        self.buffer@
    }

    pub closed spec fn chunk_size(&self) -> usize {
        self.chunk_size
    }

    pub closed spec fn overlap_size(&self) -> usize {
        self.overlap_size
    }

    /// A chunker of `chunk_size` samples whose overlap is `overlap_ms`
    /// milliseconds at `sample_rate` Hz (in whole samples).
    pub fn new(chunk_size: usize, overlap_ms: u32, sample_rate: u32) -> (c: Self)
        ensures
            c.samples() == Seq::<T>::empty(),
            c.chunk_size() == chunk_size,
            c.overlap_size() as int == samples_in(sample_rate as int, overlap_ms as int),
    {
        let overlap_size = chunk_size_from_duration(sample_rate, overlap_ms);
        AudioChunker { buffer: std::collections::VecDeque::new(), chunk_size, overlap_size }
    }

    /// Appends samples.
    pub fn push(&mut self, samples: &[T])
        ensures
            final(self).samples() == old(self).samples() + samples@,
            final(self).chunk_size() == old(self).chunk_size(),
            final(self).overlap_size() == old(self).overlap_size(),
    {
        let ghost start = self.buffer@;
        let mut i: usize = 0;
        while i < samples.len()
            invariant
                i <= samples@.len(),
                self.chunk_size == old(self).chunk_size,
                self.overlap_size == old(self).overlap_size,
                self.buffer@ == start + samples@.subrange(0, i as int),
            decreases samples.len() - i,
        {
            self.buffer.push_back(samples[i]);
            assert(start + samples@.subrange(0, i + 1) == (start + samples@.subrange(
                0,
                i as int,
            )).push(samples@[i as int]));
            i = i + 1;
        }
        assert(samples@.subrange(0, samples@.len() as int) == samples@);
    }

    /// Takes the next chunk, when a whole one is buffered.
    pub fn get_chunk(&mut self) -> (r: Option<Vec<T>>)
        ensures
            final(self).chunk_size() == old(self).chunk_size(),
            final(self).overlap_size() == old(self).overlap_size(),
            match r {
                Some(chunk) => {
                    &&& old(self).samples().len() >= old(self).chunk_size()
                    &&& chunk@ == old(self).samples().subrange(0, old(self).chunk_size() as int)
                    &&& final(self).samples() == after_chunk(
                        chunk@,
                        old(self).samples().subrange(
                            old(self).chunk_size() as int,
                            old(self).samples().len() as int,
                        ),
                        old(self).overlap_size() as nat,
                    )
                },
                None => {
                    &&& old(self).samples().len() < old(self).chunk_size()
                    &&& final(self).samples() == old(self).samples()
                },
            },
    {
        if self.buffer.len() >= self.chunk_size {
            let chunk = drain_front(&mut self.buffer, self.chunk_size);
            if self.overlap_size > 0 && self.buffer.len() < self.overlap_size {
                let overlap_start = if chunk.len() >= self.overlap_size {
                    chunk.len() - self.overlap_size
                } else {
                    0
                };
                let ghost rest = self.buffer@;
                let mut k = chunk.len();
                while k > overlap_start
                    invariant
                        overlap_start <= k <= chunk.len(),
                        self.chunk_size == old(self).chunk_size,
                        self.overlap_size == old(self).overlap_size,
                        self.buffer@ == chunk@.subrange(k as int, chunk@.len() as int) + rest,
                    decreases k,
                {
                    k = k - 1;
                    self.buffer.push_front(chunk[k]);
                    assert(seq![chunk@[k as int]] + (chunk@.subrange(k + 1, chunk@.len() as int)
                        + rest) =~= chunk@.subrange(k as int, chunk@.len() as int) + rest);
                }
                if chunk.len() >= self.overlap_size {
                    assert(chunk@.subrange(overlap_start as int, chunk@.len() as int) =~= tail(
                        chunk@,
                        self.overlap_size as nat,
                    ));
                } else {
                    assert(chunk@.subrange(0, chunk@.len() as int) =~= chunk@);
                }
            }
            Some(chunk)
        } else {
            None
        }
    }

    /// Takes all buffered samples.
    pub fn drain_remaining(&mut self) -> (out: Vec<T>)
        ensures
            out@ == old(self).samples(),
            final(self).samples() == Seq::<T>::empty(),
            final(self).chunk_size() == old(self).chunk_size(),
            final(self).overlap_size() == old(self).overlap_size(),
    {
        let n = self.buffer.len();
        let out = drain_front(&mut self.buffer, n);
        assert(self.buffer@ =~= Seq::<T>::empty());
        out
    }

    pub fn has_chunk(&self) -> (b: bool)
        ensures
            b == (self.samples().len() >= self.chunk_size()),
    {
        self.buffer.len() >= self.chunk_size
    }

    pub fn len(&self) -> (n: usize)
        ensures
            n == self.samples().len(),
    {
        self.buffer.len()
    }

    pub fn is_empty(&self) -> (b: bool)
        ensures
            b == (self.samples().len() == 0),
    {
        self.buffer.len() == 0
    }

    pub fn clear(&mut self)
        ensures
            final(self).samples() == Seq::<T>::empty(),
            final(self).chunk_size() == old(self).chunk_size(),
            final(self).overlap_size() == old(self).overlap_size(),
    {
        self.buffer.clear();
    }
}

/// What the voice activity detector reports for one frame.
#[derive(Clone, Copy, PartialEq, Eq, Structural, Debug)]
pub enum VadResult {
    Silence,
    SpeechStart,
    Speech,
    SpeechEnd,
}

/// The hangover logic of the voice activity detector: speech starts after
/// `min_speech_frames` consecutive loud frames and ends after
/// `min_silence_frames` consecutive quiet frames.
pub struct VadGate {
    pub speech_frames: usize,
    pub silence_frames: usize,
    pub min_speech_frames: usize,
    pub min_silence_frames: usize,
    pub is_speech: bool,
}

/// One frame through the detector: its next state and the frame's verdict.
pub open spec fn vad_step(g: VadGate, loud: bool) -> (VadGate, VadResult) {
    if g.is_speech {
        if loud {
            (VadGate { silence_frames: 0, ..g }, VadResult::Speech)
        } else if g.silence_frames + 1 >= g.min_silence_frames {
            (
                VadGate {
                    silence_frames: (g.silence_frames + 1) as usize,
                    is_speech: false,
                    speech_frames: 0,
                    ..g
                },
                VadResult::SpeechEnd,
            )
        } else {
            (VadGate { silence_frames: (g.silence_frames + 1) as usize, ..g }, VadResult::Speech)
        }
    } else if loud {
        if g.speech_frames + 1 >= g.min_speech_frames {
            (
                VadGate {
                    speech_frames: (g.speech_frames + 1) as usize,
                    is_speech: true,
                    silence_frames: 0,
                    ..g
                },
                VadResult::SpeechStart,
            )
        } else {
            (VadGate { speech_frames: (g.speech_frames + 1) as usize, ..g }, VadResult::Silence)
        }
    } else {
        (VadGate { speech_frames: 0, ..g }, VadResult::Silence)
    }
}

/// The detector after a run of frames, with the verdict on each frame.
pub open spec fn vad_run(g: VadGate, frames: Seq<bool>) -> (VadGate, Seq<VadResult>)
    decreases frames.len(),
{
    if frames.len() == 0 {
        (g, Seq::empty())
    } else {
        let (h, rs) = vad_run(g, frames.drop_last());
        let (k, r) = vad_step(h, frames.last());
        (k, rs.push(r))
    }
}

/// A threshold, but at least one.
pub open spec fn gate_bound(min_frames: usize) -> int {
    if min_frames == 0 {
        1
    } else {
        min_frames as int
    }
}

impl VadGate {
    /// The counters stay within the thresholds.
    pub open spec fn wf(&self) -> bool {
        &&& self.min_speech_frames < usize::MAX
        &&& self.min_silence_frames < usize::MAX
        &&& self.speech_frames <= gate_bound(self.min_speech_frames)
        &&& self.silence_frames <= gate_bound(self.min_silence_frames)
        &&& !self.is_speech ==> self.speech_frames < gate_bound(self.min_speech_frames)
        &&& self.is_speech ==> self.silence_frames < gate_bound(self.min_silence_frames)
    }

    /// A silent gate with the detector's thresholds (3 loud frames to start,
    /// 15 quiet frames to end).
    pub fn new() -> (g: Self)
        ensures
            g.wf(),
            g.speech_frames == 0,
            g.silence_frames == 0,
            g.min_speech_frames == 3,
            g.min_silence_frames == 15,
            !g.is_speech,
    {
        VadGate {
            speech_frames: 0,
            silence_frames: 0,
            min_speech_frames: 3,
            min_silence_frames: 15,
            is_speech: false,
        }
    }

    /// Feeds one frame, loud or quiet.
    pub fn step(&mut self, loud: bool) -> (r: VadResult)
        requires
            old(self).wf(),
        ensures
            final(self).wf(),
            (*final(self), r) == vad_step(*old(self), loud),
    {
        if self.is_speech {
            if loud {
                self.silence_frames = 0;
                VadResult::Speech
            } else {
                self.silence_frames = self.silence_frames + 1;
                if self.silence_frames >= self.min_silence_frames {
                    self.is_speech = false;
                    self.speech_frames = 0;
                    VadResult::SpeechEnd
                } else {
                    VadResult::Speech
                }
            }
        } else if loud {
            self.speech_frames = self.speech_frames + 1;
            if self.speech_frames >= self.min_speech_frames {
                self.is_speech = true;
                self.silence_frames = 0;
                VadResult::SpeechStart
            } else {
                VadResult::Silence
            }
        } else {
            self.speech_frames = 0;
            VadResult::Silence
        }
    }

    pub fn is_speech(&self) -> (b: bool)
        ensures
            b == self.is_speech,
    {
        self.is_speech
    }
}

/// `k` frames, all loud or all quiet.
pub open spec fn frames_of(k: nat, loud: bool) -> Seq<bool> {
    Seq::new(k, |i: int| loud)
}

/// `k` reports, all the same.
pub open spec fn results_of(k: nat, r: VadResult) -> Seq<VadResult> {
    Seq::new(k, |i: int| r)
}

/// A fresh gate reports speech exactly once `min_speech_frames` loud frames
/// have arrived in a row: after `k` loud frames it is in speech iff
/// `k >= min_speech_frames`, and it has counted `k` of them until then.
pub proof fn lemma_vad_loud_run(g: VadGate, k: nat)
    requires
        !g.is_speech,
        g.speech_frames == 0,
        g.min_speech_frames > 0,
        k <= g.min_speech_frames,
    ensures
        vad_run(g, frames_of(k, true)).0.min_speech_frames == g.min_speech_frames,
        vad_run(g, frames_of(k, true)).0.is_speech == (k >= g.min_speech_frames),
        k < g.min_speech_frames ==> vad_run(g, frames_of(k, true)).0.speech_frames == k,
        k < g.min_speech_frames ==> vad_run(g, frames_of(k, true)).1 == results_of(k, VadResult::Silence),
        k == g.min_speech_frames ==> vad_run(g, frames_of(k, true)).1.last()
            == VadResult::SpeechStart,
    decreases k,
{
    if k > 0 {
        let frames = frames_of(k, true);
        assert(frames.drop_last() =~= frames_of((k - 1) as nat, true));
        lemma_vad_loud_run(g, (k - 1) as nat);
        let (h, rs) = vad_run(g, frames.drop_last());
        assert(frames.last() == true);
        assert(vad_run(g, frames) == (vad_step(h, true).0, rs.push(vad_step(h, true).1)));
        assert(!h.is_speech);
        assert(h.speech_frames == k - 1);
        assert(rs.push(VadResult::Silence) =~= results_of(k, VadResult::Silence)) by {
            if k < g.min_speech_frames {
                assert(rs =~= results_of((k - 1) as nat, VadResult::Silence));
            }
        }
    } else {
        assert(frames_of(0, true) =~= Seq::<bool>::empty());
        assert(results_of(0, VadResult::Silence) =~= Seq::<VadResult>::empty());
    }
}

/// A gate in speech ends it exactly once `min_silence_frames` quiet frames have
/// arrived in a row, and reports speech until then.
pub proof fn lemma_vad_quiet_run(g: VadGate, k: nat)
    requires
        g.is_speech,
        g.silence_frames == 0,
        g.min_silence_frames > 0,
        k <= g.min_silence_frames,
    ensures
        vad_run(g, frames_of(k, false)).0.min_silence_frames == g.min_silence_frames,
        vad_run(g, frames_of(k, false)).0.is_speech == (k < g.min_silence_frames),
        k < g.min_silence_frames ==> vad_run(g, frames_of(k, false)).0.silence_frames
            == k,
        k < g.min_silence_frames ==> vad_run(g, frames_of(k, false)).1 == results_of(k, VadResult::Speech),
        k == g.min_silence_frames ==> vad_run(g, frames_of(k, false)).1.last()
            == VadResult::SpeechEnd,
    decreases k,
{
    if k > 0 {
        let frames = frames_of(k, false);
        assert(frames.drop_last() =~= frames_of((k - 1) as nat, false));
        lemma_vad_quiet_run(g, (k - 1) as nat);
        let (h, rs) = vad_run(g, frames.drop_last());
        assert(frames.last() == false);
        assert(vad_run(g, frames) == (vad_step(h, false).0, rs.push(vad_step(h, false).1)));
        assert(rs.push(VadResult::Speech) =~= results_of(k, VadResult::Speech)) by {
            if k < g.min_silence_frames {
                assert(rs =~= results_of((k - 1) as nat, VadResult::Speech));
            }
        }
    } else {
        assert(frames_of(0, false) =~= Seq::<bool>::empty());
        assert(results_of(0, VadResult::Speech) =~= Seq::<VadResult>::empty());
    }
}

/// In speech, a loud frame is speech and resets the run of quiet frames to
/// zero: the detector stays in speech, and speech ends exactly when
/// `min_silence_frames` quiet frames in a row have come after that loud frame.
pub proof fn lemma_vad_loud_frame_restarts_silence(g: VadGate, k: nat)
    requires
        g.is_speech,
        g.min_silence_frames > 0,
        k <= g.min_silence_frames,
    ensures
        vad_step(g, true).1 == VadResult::Speech,
        vad_step(g, true).0.is_speech,
        vad_step(g, true).0.silence_frames == 0,
        vad_run(vad_step(g, true).0, frames_of(k, false)).0.is_speech == (k < g.min_silence_frames),
        k < g.min_silence_frames ==> vad_run(vad_step(g, true).0, frames_of(k, false)).1
            == results_of(k, VadResult::Speech),
        k == g.min_silence_frames ==> vad_run(vad_step(g, true).0, frames_of(k, false)).1.last()
            == VadResult::SpeechEnd,
{
    let h = vad_step(g, true).0;
    assert(h.is_speech && h.silence_frames == 0 && h.min_silence_frames == g.min_silence_frames);
    lemma_vad_quiet_run(h, k);
}

} // verus!

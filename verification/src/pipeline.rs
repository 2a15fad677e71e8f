//! Pipeline life cycle, error classification, streaming ASR state and the
//! bounded session history.
use vstd::prelude::*;

use crate::audio::VadResult;
use crate::text::owned;

verus! {

/// Pipeline operational state.
#[derive(Clone, Copy, PartialEq, Eq, Structural, Debug)]
pub enum PipelineState {
    /// Pipeline is idle, not processing
    Idle,
    /// Pipeline is actively running
    Running,
    /// Pipeline is paused
    Paused,
    /// Pipeline encountered an error
    Error,
    /// Pipeline is initializing
    Initializing,
    /// Pipeline is stopping
    Stopping,
}

/// The display name of a pipeline state.
pub open spec fn pipeline_state_name(s: PipelineState) -> Seq<char> {
    match s {
        PipelineState::Idle => "Idle"@,
        PipelineState::Running => "Running"@,
        PipelineState::Paused => "Paused"@,
        PipelineState::Error => "Error"@,
        PipelineState::Initializing => "Initializing"@,
        PipelineState::Stopping => "Stopping"@,
    }
}

impl PipelineState {
    /// The display name of the state (what `Display` prints).
    pub fn to_string(&self) -> (s: String)
        ensures
            s@ == pipeline_state_name(*self),
    {
        match self {
            PipelineState::Idle => owned("Idle"),
            PipelineState::Running => owned("Running"),
            PipelineState::Paused => owned("Paused"),
            PipelineState::Error => owned("Error"),
            PipelineState::Initializing => owned("Initializing"),
            PipelineState::Stopping => owned("Stopping"),
        }
    }
}

/// Whether `start` may proceed from `state`: everything but a running pipeline
/// may be (re)started.
pub fn start_gate(state: PipelineState) -> (r: Result<(), String>)
    ensures
        r is Ok <==> state != PipelineState::Running,
        r matches Err(m) ==> m@ == "Pipeline is already running"@,
{
    if state == PipelineState::Running {
        Err(owned("Pipeline is already running"))
    } else {
        Ok(())
    }
}

/// Whether `stop` has anything to stop: only a running or paused pipeline.
pub fn stop_needed(state: PipelineState) -> (b: bool)
    ensures
        b <==> (state == PipelineState::Running || state == PipelineState::Paused),
{
    state == PipelineState::Running || state == PipelineState::Paused
}

/// The state `pause` leads to, if it is allowed: only a running pipeline can be paused.
pub open spec fn paused_from(state: PipelineState) -> Option<PipelineState> {
    if state == PipelineState::Running {
        Some(PipelineState::Paused)
    } else {
        None
    }
}

/// The state `resume` leads to, if it is allowed: only a paused pipeline can be resumed.
pub open spec fn resumed_from(state: PipelineState) -> Option<PipelineState> {
    if state == PipelineState::Paused {
        Some(PipelineState::Running)
    } else {
        None
    }
}

/// The state after `pause`: only a running pipeline can be paused.
pub fn pause_transition(state: PipelineState) -> (r: Result<PipelineState, String>)
    ensures
        match r {
            Ok(next) => paused_from(state) == Some(next),
            Err(m) => paused_from(state) is None && m@ == "Can only pause a running pipeline"@,
        },
{
    if state != PipelineState::Running {
        Err(owned("Can only pause a running pipeline"))
    } else {
        Ok(PipelineState::Paused)
    }
}

/// The state after `resume`: only a paused pipeline can be resumed.
pub fn resume_transition(state: PipelineState) -> (r: Result<PipelineState, String>)
    ensures
        match r {
            Ok(next) => resumed_from(state) == Some(next),
            Err(m) => resumed_from(state) is None && m@ == "Can only resume a paused pipeline"@,
        },
{
    if state != PipelineState::Paused {
        Err(owned("Can only resume a paused pipeline"))
    } else {
        Ok(PipelineState::Running)
    }
}

/// Pauses the pipeline state in place: a running pipeline becomes paused; any
/// other state is refused and left as it was. The state changes before the
/// state-change event is sent, so it holds whatever the sending gives.
pub fn pause_state(state: &mut PipelineState) -> (r: Result<(), String>)
    ensures
        match r {
            Ok(()) => *old(state) == PipelineState::Running && *final(state) == PipelineState::Paused,
            Err(m) => *old(state) != PipelineState::Running && *final(state) == *old(state) && m@
                == "Can only pause a running pipeline"@,
        },
{
    match pause_transition(*state) {
        Ok(next) => {
            *state = next;
            Ok(())
        },
        Err(m) => Err(m),
    }
}

/// Resumes the pipeline state in place: a paused pipeline runs again; any
/// other state is refused and left as it was.
pub fn resume_state(state: &mut PipelineState) -> (r: Result<(), String>)
    ensures
        match r {
            Ok(()) => *old(state) == PipelineState::Paused && *final(state) == PipelineState::Running,
            Err(m) => *old(state) != PipelineState::Paused && *final(state) == *old(state) && m@
                == "Can only resume a paused pipeline"@,
        },
{
    match resume_transition(*state) {
        Ok(next) => {
            *state = next;
            Ok(())
        },
        Err(m) => Err(m),
    }
}

/// The law of `pause`: it succeeds exactly on a running pipeline and leaves it
/// paused; on every other state it is refused and the state stays.
pub proof fn lemma_pause_only_when_running(state: PipelineState)
    ensures
        state == PipelineState::Running <==> paused_from(state) == Some(PipelineState::Paused),
        state != PipelineState::Running <==> paused_from(state) is None,
        state == PipelineState::Paused <==> resumed_from(state) == Some(PipelineState::Running),
        state != PipelineState::Paused <==> resumed_from(state) is None,
{
}

/// Whether the configuration may be updated: not while running.
pub fn config_update_gate(state: PipelineState) -> (r: Result<(), String>)
    ensures
        r is Ok <==> state != PipelineState::Running,
        r matches Err(m) ==> m@ == "Cannot update config while pipeline is running"@,
{
    if state == PipelineState::Running {
        Err(owned("Cannot update config while pipeline is running"))
    } else {
        Ok(())
    }
}

/// Pausing a running pipeline and resuming it brings it back to running;
/// pausing twice, or resuming what was not paused, is refused.
pub proof fn lemma_pause_resume_round_trip(state: PipelineState)
    ensures
        paused_from(state) matches Some(p) ==> resumed_from(p) == Some(state),
        paused_from(state) matches Some(p) ==> paused_from(p) is None,
        resumed_from(state) matches Some(r) ==> paused_from(r) == Some(state),
        resumed_from(state) matches Some(r) ==> resumed_from(r) is None,
{
}

/// Error codes for pipeline errors.
#[derive(Clone, Copy, PartialEq, Eq, Structural, Debug)]
pub enum ErrorCode {
    /// Audio capture failed
    AudioCaptureFailed,
    /// Audio device not found
    AudioDeviceNotFound,
    /// ASR model not loaded
    AsrModelNotLoaded,
    /// ASR transcription failed
    AsrTranscriptionFailed,
    /// Translation model not loaded
    TranslationModelNotLoaded,
    /// Translation failed
    TranslationFailed,
    /// VAD initialization failed
    VadInitFailed,
    /// Pipeline not initialized
    PipelineNotInitialized,
    /// Pipeline already running
    PipelineAlreadyRunning,
    /// Pipeline state invalid for operation
    InvalidState,
    /// Memory allocation failed
    MemoryError,
    /// Internal error
    InternalError,
    /// Timeout
    Timeout,
    /// Model download failed
    ModelDownloadFailed,
}

/// The transient errors, which the pipeline recovers from by itself.
pub open spec fn recoverable(c: ErrorCode) -> bool {
    c == ErrorCode::AudioCaptureFailed || c == ErrorCode::AsrTranscriptionFailed || c
        == ErrorCode::TranslationFailed || c == ErrorCode::Timeout
}

impl ErrorCode {
    /// Check if the error is recoverable without user intervention.
    pub fn is_recoverable(&self) -> (b: bool)
        ensures
            b == recoverable(*self),
    {
        match self {
            ErrorCode::AudioCaptureFailed => true,
            ErrorCode::AsrTranscriptionFailed => true,
            ErrorCode::TranslationFailed => true,
            ErrorCode::Timeout => true,
            _ => false,
        }
    }
}

/// The kind of a pipeline event, which names the frontend channel it goes to.
#[derive(Clone, Copy, PartialEq, Eq, Structural, Debug)]
pub enum PipelineEventKind {
    SpeechDetected,
    PartialTranscription,
    FinalTranscription,
    Translation,
    BidirectionalTranslation,
    Error,
    StateChanged,
    AudioLevel,
    Stats,
}

/// The channel suffix of an event kind.
pub open spec fn event_suffix(k: PipelineEventKind) -> Seq<char> {
    match k {
        PipelineEventKind::SpeechDetected => "speech-detected"@,
        PipelineEventKind::PartialTranscription => "partial-transcription"@,
        PipelineEventKind::FinalTranscription => "final-transcription"@,
        PipelineEventKind::Translation => "translation"@,
        PipelineEventKind::BidirectionalTranslation => "bidirectional-translation"@,
        PipelineEventKind::Error => "error"@,
        PipelineEventKind::StateChanged => "state-changed"@,
        PipelineEventKind::AudioLevel => "audio-level"@,
        PipelineEventKind::Stats => "stats"@,
    }
}

/// The event channel name: the broadcaster's prefix, then the kind's suffix.
pub fn event_name(prefix: &str, kind: PipelineEventKind) -> (name: String)
    ensures
        name@ == prefix@ + event_suffix(kind),
{
    let suffix = match kind {
        PipelineEventKind::SpeechDetected => "speech-detected",
        PipelineEventKind::PartialTranscription => "partial-transcription",
        PipelineEventKind::FinalTranscription => "final-transcription",
        PipelineEventKind::Translation => "translation",
        PipelineEventKind::BidirectionalTranslation => "bidirectional-translation",
        PipelineEventKind::Error => "error",
        PipelineEventKind::StateChanged => "state-changed",
        PipelineEventKind::AudioLevel => "audio-level",
        PipelineEventKind::Stats => "stats",
    };
    let mut name = owned(prefix);
    crate::text::push_str(&mut name, suffix);
    name
}

/// The default event channel prefix.
pub fn default_event_prefix() -> (p: String)
    ensures
        p@ == "pipeline:"@,
{
    owned("pipeline:")
}

/// A bounded history: it keeps the most recent `max_items` items, oldest first.
pub struct HistoryManager<T> {
    items: Vec<T>,
    max_items: usize,
}

/// The history after adding `item` to `items` with room for `max` items.
pub open spec fn history_after_add<T>(items: Seq<T>, max: usize, item: T) -> Seq<T> {
    if items.len() >= max {
        items.drop_first().push(item)
    } else {
        items.push(item)
    }
}

/// The `count` most recent items, most recent first.
pub open spec fn recent<T>(items: Seq<T>, count: nat) -> Seq<T> {
    let n = if count < items.len() {
        count
    } else {
        items.len()
    };
    Seq::new(n, |i: int| items[items.len() - 1 - i])
}

impl<T> HistoryManager<T> {
    pub closed spec fn items(&self) -> Seq<T> {
        self.items@
    }

    pub closed spec fn max_items(&self) -> usize {
        self.max_items
    }

    pub fn new(max_items: usize) -> (h: Self)
        ensures
            h.items() == Seq::<T>::empty(),
            h.max_items() == max_items,
    {
        HistoryManager { items: Vec::new(), max_items }
    }

    /// Appends `item`, dropping the oldest item when the history is full.
    /// (An empty history with no room at all cannot take an item.)
    pub fn add(&mut self, item: T)
        requires
            old(self).max_items() > 0 || old(self).items().len() > 0,
        ensures
            final(self).max_items() == old(self).max_items(),
            final(self).items() == history_after_add(old(self).items(), old(self).max_items(), item),
    {
        if self.items.len() >= self.max_items {
            self.items.remove(0);
        }
        self.items.push(item);
        proof {
            let old_items = old(self).items@;
            if old_items.len() >= old(self).max_items {
                assert(old_items.remove(0) =~= old_items.drop_first());
            }
        }
    }

    pub fn get_all(&self) -> (s: &[T])
        ensures
            s@ == self.items(),
    {
        self.items.as_slice()
    }

    /// The `count` most recent items, most recent first.
    pub fn get_recent(&self, count: usize) -> (r: Vec<&T>)
        ensures
            r@.len() == recent(self.items(), count as nat).len(),
            forall|i: int| 0 <= i < r@.len() ==> *r@[i] == recent(self.items(), count as nat)[i],
    {
        let n = self.items.len();
        let mut r: Vec<&T> = Vec::new();
        let mut i: usize = 0;
        while i < count && i < n
            invariant
                n == self.items@.len(),
                i <= n,
                i <= count,
                r@.len() == i,
                forall|k: int| 0 <= k < i ==> *r@[k] == self.items@[n - 1 - k],
            decreases n - i,
        {
            r.push(&self.items[n - 1 - i]);
            i = i + 1;
        }
        r
    }

    pub fn clear(&mut self)
        ensures
            final(self).items() == Seq::<T>::empty(),
            final(self).max_items() == old(self).max_items(),
    {
        self.items.clear();
    }

    pub fn len(&self) -> (n: usize)
        ensures
            n == self.items().len(),
    {
        self.items.len()
    }

    pub fn is_empty(&self) -> (b: bool)
        ensures
            b == (self.items().len() == 0),
    {
        self.items.len() == 0
    }

    /// Replaces the whole history (as an import does).
    pub fn replace_all(&mut self, items: Vec<T>)
        ensures
            final(self).items() == items@,
            final(self).max_items() == old(self).max_items(),
    {
        self.items = items;
    }
}

impl<T> Default for HistoryManager<T> {
    fn default() -> (h: Self)
        ensures
            h.items() == Seq::<T>::empty(),
            h.max_items() == 500,
    {
        Self::new(500)
    }
}

/// A history with room for at least one item never holds more than it has
/// room for, and keeps the newest item last.
pub proof fn lemma_history_bounded<T>(items: Seq<T>, max: usize, item: T)
    requires
        max > 0,
        items.len() <= max,
    ensures
        history_after_add(items, max, item).len() <= max,
        history_after_add(items, max, item).last() == item,
        history_after_add(items, max, item).len() == if items.len() < max {
            items.len() + 1
        } else {
            max as nat
        },
{
}

/// Streaming ASR state.
#[derive(Clone, Copy, PartialEq, Eq, Structural, Debug)]
pub enum StreamingState {
    /// Idle, waiting for speech
    Idle,
    /// Speech detected, accumulating audio
    SpeechDetected,
    /// Processing speech
    Processing,
    /// Speech ended, finalizing
    Finalizing,
    /// Error state
    Error,
}

/// The display name of a streaming state.
pub open spec fn streaming_state_name(s: StreamingState) -> Seq<char> {
    match s {
        StreamingState::Idle => "idle"@,
        StreamingState::SpeechDetected => "speech_detected"@,
        StreamingState::Processing => "processing"@,
        StreamingState::Finalizing => "finalizing"@,
        StreamingState::Error => "error"@,
    }
}

/// The streaming state after a voice activity report.
pub open spec fn streaming_after_vad(s: StreamingState, v: VadResult) -> StreamingState {
    match v {
        VadResult::SpeechStart => StreamingState::SpeechDetected,
        VadResult::Speech => if s == StreamingState::Idle {
            StreamingState::SpeechDetected
        } else {
            s
        },
        VadResult::SpeechEnd => if s == StreamingState::SpeechDetected || s
            == StreamingState::Processing {
            StreamingState::Finalizing
        } else {
            s
        },
        VadResult::Silence => s,
    }
}

impl StreamingState {
    /// The display name of the state (what `Display` prints).
    pub fn to_string(&self) -> (s: String)
        ensures
            s@ == streaming_state_name(*self),
    {
        match self {
            StreamingState::Idle => owned("idle"),
            StreamingState::SpeechDetected => owned("speech_detected"),
            StreamingState::Processing => owned("processing"),
            StreamingState::Finalizing => owned("finalizing"),
            StreamingState::Error => owned("error"),
        }
    }

    /// The state after a voice activity report, and whether a new speech
    /// segment starts with it (which restarts the speech timer).
    pub fn after_vad(self, v: VadResult) -> (r: (StreamingState, bool))
        ensures
            r.0 == streaming_after_vad(self, v),
            r.1 == (v == VadResult::SpeechStart || (v == VadResult::Speech && self
                == StreamingState::Idle)),
            r.1 ==> r.0 == StreamingState::SpeechDetected,
    {
        match v {
            VadResult::SpeechStart => (StreamingState::SpeechDetected, true),
            VadResult::Speech => if self == StreamingState::Idle {
                (StreamingState::SpeechDetected, true)
            } else {
                (self, false)
            },
            VadResult::SpeechEnd => if self == StreamingState::SpeechDetected || self
                == StreamingState::Processing {
                (StreamingState::Finalizing, false)
            } else {
                (self, false)
            },
            VadResult::Silence => (self, false),
        }
    }

    /// Whether audio of this state belongs to the current speech segment.
    pub fn accumulates_speech(self) -> (b: bool)
        ensures
            b == (self == StreamingState::SpeechDetected || self == StreamingState::Processing),
    {
        self == StreamingState::SpeechDetected || self == StreamingState::Processing
    }
}

impl Default for StreamingState {
    fn default() -> (s: Self)
        ensures
            s == StreamingState::Idle,
    {
        StreamingState::Idle
    }
}

/// Speech that ends is always finalized, and silence never changes the state.
pub proof fn lemma_speech_end_finalizes(s: StreamingState)
    ensures
        (s == StreamingState::SpeechDetected || s == StreamingState::Processing)
            ==> streaming_after_vad(s, VadResult::SpeechEnd) == StreamingState::Finalizing,
        streaming_after_vad(s, VadResult::Silence) == s,
        streaming_after_vad(s, VadResult::SpeechStart) == StreamingState::SpeechDetected,
{
}

/// A report of speech never leaves the recognizer idle: speech that starts,
/// or continues while idle, opens a segment that accumulates audio, and speech
/// that continues keeps a segment that accumulates audio accumulating.
pub proof fn lemma_speech_opens_segment(s: StreamingState, v: VadResult)
    ensures
        (v == VadResult::SpeechStart || v == VadResult::Speech) ==> streaming_after_vad(s, v)
            != StreamingState::Idle,
        (v == VadResult::SpeechStart || (v == VadResult::Speech && s == StreamingState::Idle))
            ==> (streaming_after_vad(s, v) == StreamingState::SpeechDetected),
        (v == VadResult::Speech && (s == StreamingState::SpeechDetected || s
            == StreamingState::Processing)) ==> streaming_after_vad(s, v) == s,
{
}

/// The least speech (in samples) before a partial result is attempted: half a
/// second, or five chunks if that is more.
pub fn min_partial_samples(sample_rate: u32, chunk_size: usize) -> (n: usize)
    requires
        chunk_size as int * 5 <= usize::MAX,
    ensures
        n as int == if sample_rate as int / 2 >= chunk_size as int * 5 {
            sample_rate as int / 2
        } else {
            chunk_size as int * 5
        },
{
    let half: usize = (sample_rate / 2) as usize;
    let five = chunk_size * 5;
    if half >= five {
        half
    } else {
        five
    }
}

/// The least new speech (in samples) since the last partial result before
/// another is decoded: a quarter second, or one chunk if that is more.
pub fn min_delta_samples(sample_rate: u32, chunk_size: usize) -> (n: usize)
    ensures
        n as int == if sample_rate as int / 4 >= chunk_size as int {
            sample_rate as int / 4
        } else {
            chunk_size as int
        },
{
    let quarter: usize = (sample_rate / 4) as usize;
    if quarter >= chunk_size {
        quarter
    } else {
        chunk_size
    }
}

/// Whole milliseconds of `samples` samples at `sample_rate` Hz (saturating;
/// no rate at all counts as the longest duration).
pub open spec fn duration_ms(samples: int, sample_rate: int) -> int {
    if sample_rate == 0 {
        u32::MAX as int
    } else if samples * 1000 / sample_rate > u32::MAX as int {
        u32::MAX as int
    } else {
        samples * 1000 / sample_rate
    }
}

/// Whole milliseconds of `samples` samples at `sample_rate` Hz.
pub fn speech_duration_ms(samples: usize, sample_rate: u32) -> (ms: u32)
    ensures
        ms as int == duration_ms(samples as int, sample_rate as int),
{
    if sample_rate == 0 {
        return u32::MAX;
    }
    assert(samples as int * 1000 <= usize::MAX as int * 1000) by (nonlinear_arith)
        requires
            samples <= usize::MAX,
    ;
    let ms: u128 = (samples as u128 * 1000) / sample_rate as u128;
    if ms > u32::MAX as u128 {
        u32::MAX
    } else {
        ms as u32
    }
}

/// Whether a finished speech segment is too short to transcribe.
pub fn is_too_short(samples: usize, sample_rate: u32, min_speech_duration_ms: u32) -> (b: bool)
    ensures
        b == (duration_ms(samples as int, sample_rate as int) < min_speech_duration_ms),
{
    speech_duration_ms(samples, sample_rate) < min_speech_duration_ms
}

/// The samples per ASR chunk: the VAD frame length (kept within 10..=200 ms)
/// at the pipeline's sample rate, or the configured chunk size when that comes
/// to nothing; at least one sample.
pub open spec fn asr_chunk_samples(sample_rate: int, vad_frame_ms: int, fallback: int) -> int {
    let ms = if vad_frame_ms < 10 {
        10
    } else if vad_frame_ms > 200 {
        200
    } else {
        vad_frame_ms
    };
    let from_ms = sample_rate * ms / 1000;
    let n = if from_ms > 0 {
        from_ms
    } else {
        fallback
    };
    if n >= 1 {
        n
    } else {
        1
    }
}

/// The samples per ASR chunk for the pipeline.
pub fn asr_chunk_size(sample_rate: u32, vad_frame_ms: u32, fallback: usize) -> (n: usize)
    ensures
        n as int == asr_chunk_samples(sample_rate as int, vad_frame_ms as int, fallback as int),
{
    let ms: u64 = if vad_frame_ms < 10 {
        10
    } else if vad_frame_ms > 200 {
        200
    } else {
        vad_frame_ms as u64
    };
    assert(sample_rate as u64 * ms <= 4294967295u64 * 200) by (nonlinear_arith)
        requires
            sample_rate <= 4294967295u32,
            ms <= 200,
    ;
    let from_ms = (sample_rate as u64 * ms) / 1000;
    assert(from_ms <= 858993459);
    let n: usize = if from_ms > 0 {
        from_ms as usize
    } else {
        fallback
    };
    if n >= 1 {
        n
    } else {
        1
    }
}

/// A partial transcription is translated while it streams when, trimmed, it
/// has at least `min_chars` UTF-8 bytes, the interval since the last streamed
/// translation has passed, and it differs from the text last translated.
pub open spec fn streams_translation(
    partial: Seq<char>,
    min_chars: nat,
    elapsed_ms: nat,
    interval_ms: nat,
    last_source: Seq<char>,
) -> bool {
    let t = crate::text::trim(partial);
    &&& (vstd::utf8::encode_utf8(t).len() as usize) as nat >= min_chars
    &&& elapsed_ms >= interval_ms
    &&& t != last_source
}

/// Whether a partial transcription is translated now.
pub fn should_stream_translate(
    partial: &str,
    min_chars: usize,
    elapsed_ms: u64,
    interval_ms: u64,
    last_source: &str,
) -> (b: bool)
    ensures
        b == streams_translation(partial@, min_chars as nat, elapsed_ms as nat, interval_ms as nat, last_source@),
{
    let t = crate::text::string_of(&crate::text::trim_chars(&crate::text::chars_of(partial)));
    let bytes = t.as_str().len();
    bytes >= min_chars && elapsed_ms >= interval_ms && !crate::text::str_eq(t.as_str(), last_source)
}

/// A streamed translation is spoken when speech output and auto-play are on,
/// it has, trimmed, at least `min_chars` bytes, the interval since the last
/// streamed speech has passed, and it differs from the text last spoken.
pub open spec fn streams_speech(
    tts_enabled: bool,
    auto_play: bool,
    translated: Seq<char>,
    min_chars: nat,
    elapsed_ms: nat,
    interval_ms: nat,
    last_spoken: Seq<char>,
) -> bool {
    let t = crate::text::trim(translated);
    &&& tts_enabled
    &&& auto_play
    &&& (vstd::utf8::encode_utf8(t).len() as usize) as nat >= min_chars
    &&& elapsed_ms >= interval_ms
    &&& t != last_spoken
}

/// Whether a streamed translation is spoken now.
pub fn should_stream_speak(
    tts_enabled: bool,
    auto_play: bool,
    translated: &str,
    min_chars: usize,
    elapsed_ms: u64,
    interval_ms: u64,
    last_spoken: &str,
) -> (b: bool)
    ensures
        b == streams_speech(
            tts_enabled,
            auto_play,
            translated@,
            min_chars as nat,
            elapsed_ms as nat,
            interval_ms as nat,
            last_spoken@,
        ),
{
    if !(tts_enabled && auto_play) {
        return false;
    }
    let t = crate::text::string_of(&crate::text::trim_chars(&crate::text::chars_of(translated)));
    let bytes = t.as_str().len();
    bytes >= min_chars && elapsed_ms >= interval_ms && !crate::text::str_eq(t.as_str(), last_spoken)
}

/// Counters of one pipeline run.
#[derive(Clone, Debug, Default)]
pub struct PipelineStats {
    pub total_audio_duration_ms: u64,
    pub speech_duration_ms: u64,
    pub transcription_count: u64,
    pub translation_count: u64,
    pub total_latency_ms: u64,
    pub error_count: u64,
    pub retry_count: u64,
    pub start_time: Option<std::time::Instant>,
}

/// `std::time::Instant`, carried through as an opaque value: nothing is
/// claimed of what it holds.
#[verifier::external_type_specification]
#[verifier::external_body]
pub struct ExInstant(std::time::Instant);

/// The current instant (`Instant::now`); nothing is known of its value.
#[verifier::external_body]
fn instant_now() -> (t: std::time::Instant) {
    std::time::Instant::now()
}

impl PipelineStats {
    /// Zeroes every counter and starts the run clock now.
    pub fn reset(&mut self)
        ensures
            final(self).total_audio_duration_ms == 0,
            final(self).speech_duration_ms == 0,
            final(self).transcription_count == 0,
            final(self).translation_count == 0,
            final(self).total_latency_ms == 0,
            final(self).error_count == 0,
            final(self).retry_count == 0,
            final(self).start_time is Some,
    {
        *self = PipelineStats {
            total_audio_duration_ms: 0,
            speech_duration_ms: 0,
            transcription_count: 0,
            translation_count: 0,
            total_latency_ms: 0,
            error_count: 0,
            retry_count: 0,
            start_time: Some(instant_now()),
        };
    }
}

/// What the pipeline does with a final transcription of `text`, given the
/// outcome of its translation (`translation` is the translated text, or
/// `None` when translating failed), and the last text spoken.
pub open spec fn final_result_step_of(
    text: Seq<char>,
    translation: Option<Seq<char>>,
    bidirectional: bool,
    tts_enabled: bool,
    tts_auto_play: bool,
    last_spoken: Seq<char>,
) -> (bool, bool, bool, bool, bool, Seq<char>) {
    let translate = crate::text::trim(text).len() > 0;
    if !translate {
        (false, false, false, false, false, last_spoken)
    } else {
        match translation {
            None => (true, false, false, false, true, last_spoken),
            Some(t) => {
                let tt = crate::text::trim(t);
                let speak = tts_enabled && tts_auto_play && tt.len() > 0 && tt != last_spoken;
                (true, true, bidirectional, speak, false, if speak {
                    tt
                } else {
                    last_spoken
                })
            },
        }
    }
}

/// The decisions on a final transcription.
pub struct FinalResultStep {
    /// Whether the text is translated at all (it is not blank once trimmed).
    pub translate: bool,
    /// Whether the pair is added to the history (and counted as a translation).
    pub record: bool,
    /// Whether the translation is translated back (bidirectional sessions).
    pub translate_back: bool,
    /// Whether the translation is spoken.
    pub speak: bool,
    /// Whether a translation error is counted.
    pub count_error: bool,
    /// The last text spoken after this step.
    pub last_spoken: String,
}

impl FinalResultStep {
    pub open spec fn view_tuple(self) -> (bool, bool, bool, bool, bool, Seq<char>) {
        (self.translate, self.record, self.translate_back, self.speak, self.count_error, self.last_spoken@)
    }
}

/// What the pipeline does with a final transcription: translate it when,
/// trimmed, it is not blank; on a translation, add the pair to the history,
/// translate back when bidirectional, and speak it when TTS and auto-play are
/// on and the trimmed translation is not blank and differs from the last text
/// spoken; on a failed translation, count an error.
pub fn final_result_step(
    text: &str,
    translation: Option<&str>,
    bidirectional: bool,
    tts_enabled: bool,
    tts_auto_play: bool,
    last_spoken: &str,
) -> (s: FinalResultStep)
    ensures
        s.view_tuple() == final_result_step_of(
            text@,
            crate::governance::opt_ref_view(translation),
            bidirectional,
            tts_enabled,
            tts_auto_play,
            last_spoken@,
        ),
        s.speak ==> tts_enabled && tts_auto_play && s.record,
        !s.speak ==> s.last_spoken@ == last_spoken@,
        s.speak ==> s.last_spoken@ != last_spoken@,
{
    let trimmed = crate::text::trim_chars(&crate::text::chars_of(text));
    if trimmed.len() == 0 {
        return FinalResultStep {
            translate: false,
            record: false,
            translate_back: false,
            speak: false,
            count_error: false,
            last_spoken: owned(last_spoken),
        };
    }
    match translation {
        None => FinalResultStep {
            translate: true,
            record: false,
            translate_back: false,
            speak: false,
            count_error: true,
            last_spoken: owned(last_spoken),
        },
        Some(t) => {
            let tt = crate::text::trim_chars(&crate::text::chars_of(t));
            let ts = crate::text::string_of(&tt);
            let speak = tts_enabled && tts_auto_play && tt.len() > 0 && !crate::text::str_eq(
                ts.as_str(),
                last_spoken,
            );
            FinalResultStep {
                translate: true,
                record: true,
                translate_back: bidirectional,
                speak,
                count_error: false,
                last_spoken: if speak {
                    ts
                } else {
                    owned(last_spoken)
                },
            }
        },
    }
}

/// What happens to a final transcription: nothing is spoken unless TTS and
/// auto-play are both on; what is spoken is the trimmed translation, never
/// blank and never the text spoken last, which it then becomes; otherwise the
/// last text spoken stays. A blank transcription is not translated; a
/// translation is recorded, and translated back exactly in bidirectional
/// sessions; a failed one counts an error and is not recorded.
pub proof fn lemma_final_result_step(
    text: Seq<char>,
    translation: Option<Seq<char>>,
    bidirectional: bool,
    tts_enabled: bool,
    tts_auto_play: bool,
    last_spoken: Seq<char>,
)
    ensures
        ({
            let (translate, record, back, speak, error, last) = final_result_step_of(
                text,
                translation,
                bidirectional,
                tts_enabled,
                tts_auto_play,
                last_spoken,
            );
            &&& !tts_enabled ==> !speak && last == last_spoken
            &&& !tts_auto_play ==> !speak && last == last_spoken
            &&& speak ==> (translation matches Some(t) && last == crate::text::trim(t) && last.len()
                > 0 && last != last_spoken)
            &&& !speak ==> last == last_spoken
            &&& translate == (crate::text::trim(text).len() > 0)
            &&& record == (translate && translation is Some)
            &&& error == (translate && translation is None)
            &&& back == (record && bidirectional)
            &&& (speak ==> record)
        }),
{
}

} // verus!

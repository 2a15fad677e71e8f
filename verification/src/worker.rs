//! The decisions of the background session worker: how it reacts to a control
//! command, how it cuts the captured audio into utterances, and the records it
//! writes on the session bus. The capture, recognition, translation and
//! playback around them run on the host.
use vstd::prelude::*;

use crate::governance::opt_view;
use crate::session::{
    alive, control_action, control_action_of, is_session_alive, ControlAction, SessionControl,
    SessionRuntimeState,
};
use crate::text::owned;

verus! {

/// What the worker does after reading a pending control command.
#[derive(Clone, Copy, PartialEq, Eq, Structural, Debug)]
pub enum ControlOutcome {
    /// Leave the loop; the command is cleared when the worker exits.
    Stop,
    /// The state changed: write it and clear the command.
    Applied,
    /// An unknown command: nothing changes and the command stays.
    Ignored,
}

/// Everything but the status and the languages is unchanged.
pub open spec fn keeps_record(after: SessionRuntimeState, before: SessionRuntimeState) -> bool {
    &&& after.same_session(before)
    &&& after.last_heartbeat_unix_ms == before.last_heartbeat_unix_ms
}

/// Applies a pending control command to the worker's state: `pause` and
/// `resume` set the status, `update_languages` takes each language that the
/// command names, `stop` ends the loop, and anything else is ignored.
pub fn apply_worker_control(state: &mut SessionRuntimeState, control: &SessionControl) -> (r: ControlOutcome)
    ensures
        match control_action_of(control.command@) {
            ControlAction::Stop => r == ControlOutcome::Stop && *final(state) == *old(state),
            ControlAction::Ignore => r == ControlOutcome::Ignored && *final(state) == *old(state),
            ControlAction::Pause => r == ControlOutcome::Applied && keeps_record(*final(state), *old(state))
                && final(state).status@ == "paused"@ && final(state).source_lang@ == old(state).source_lang@
                && final(state).target_lang@ == old(state).target_lang@,
            ControlAction::Resume => r == ControlOutcome::Applied && keeps_record(*final(state), *old(state))
                && final(state).status@ == "running"@ && final(state).source_lang@ == old(state).source_lang@
                && final(state).target_lang@ == old(state).target_lang@,
            ControlAction::UpdateLanguages => r == ControlOutcome::Applied && keeps_record(
                *final(state),
                *old(state),
            ) && final(state).status@ == old(state).status@ && final(state).source_lang@ == match opt_view(
                control.source_lang,
            ) {
                Some(v) => v,
                None => old(state).source_lang@,
            } && final(state).target_lang@ == match opt_view(control.target_lang) {
                Some(v) => v,
                None => old(state).target_lang@,
            },
        },
{
    match control_action(control.command.as_str()) {
        ControlAction::Stop => ControlOutcome::Stop,
        ControlAction::Pause => {
            state.status = owned("paused");
            ControlOutcome::Applied
        },
        ControlAction::Resume => {
            state.status = owned("running");
            ControlOutcome::Applied
        },
        ControlAction::UpdateLanguages => {
            match &control.source_lang {
                Some(s) => {
                    state.source_lang = s.clone();
                },
                None => {},
            }
            match &control.target_lang {
                Some(t) => {
                    state.target_lang = t.clone();
                },
                None => {},
            }
            ControlOutcome::Applied
        },
        ControlAction::Ignore => ControlOutcome::Ignored,
    }
}

/// Starting a worker is refused while the session on the bus is alive and
/// running or paused (a worker still starting does not block).
pub fn check_worker_start(persisted: &Option<SessionRuntimeState>, now_ms: u64) -> (r: Result<(), String>)
    ensures
        match persisted {
            Some(st) => if alive(*st, now_ms) && (st.status@ == "running"@ || st.status@ == "paused"@) {
                r matches Err(m) && m@ == "session worker is already running"@
            } else {
                r is Ok
            },
            None => r is Ok,
        },
{
    match persisted {
        Some(st) => {
            let s = crate::text::chars_of(st.status.as_str());
            if is_session_alive(st, now_ms) && (crate::text::chars_eq_str(&s, "running")
                || crate::text::chars_eq_str(&s, "paused")) {
                Err(owned("session worker is already running"))
            } else {
                Ok(())
            }
        },
        None => Ok(()),
    }
}

/// The state the worker writes when it starts (`starting`) and once its
/// capture and recognizer are up (`running`).
pub fn worker_state_record(
    status: &str,
    source_lang: String,
    target_lang: String,
    bidirectional: bool,
    tts_enabled: bool,
    pid: u32,
    now_ms: u64,
) -> (s: SessionRuntimeState)
    ensures
        s.pid == pid,
        s.status@ == status@,
        s.source_lang@ == source_lang@,
        s.target_lang@ == target_lang@,
        s.bidirectional == bidirectional,
        s.tts_enabled == tts_enabled,
        s.start_unix_ms == now_ms,
        s.last_heartbeat_unix_ms == now_ms,
        s.utterance_count == 0,
        s.error_count == 0,
        s.last_error is None,
{
    SessionRuntimeState {
        pid,
        status: owned(status),
        source_lang,
        target_lang,
        bidirectional,
        tts_enabled,
        start_unix_ms: now_ms,
        last_heartbeat_unix_ms: now_ms,
        utterance_count: 0,
        error_count: 0,
        last_error: None,
    }
}

/// The state the worker leaves behind: idle, with the reason it stopped as its
/// last error and a last heartbeat at `now_ms`.
pub fn finish_worker_state(state: &mut SessionRuntimeState, reason: String, now_ms: u64)
    ensures
        final(state).status@ == "idle"@,
        opt_view(final(state).last_error) == Some(reason@),
        final(state).last_heartbeat_unix_ms == now_ms,
        final(state).pid == old(state).pid,
        final(state).source_lang@ == old(state).source_lang@,
        final(state).target_lang@ == old(state).target_lang@,
        final(state).utterance_count == old(state).utterance_count,
        final(state).error_count == old(state).error_count,
{
    state.status = owned("idle");
    state.last_error = Some(reason);
    state.last_heartbeat_unix_ms = now_ms;
}

/// The milliseconds of audio that `samples` samples at 16 kHz make, rounded
/// down.
pub fn audio_ms_at_16k(samples: usize) -> (ms: u64)
    requires
        samples * 1000 <= u64::MAX,
    ensures
        ms == samples * 1000 / 16000,
{
    (samples as u64) * 1000 / 16000
}

/// The silence that ends an utterance, in milliseconds.
pub const UTTERANCE_END_SILENCE_MS: u64 = 360;

/// The duration of one capture tick, in milliseconds.
pub const CAPTURE_TICK_MS: u64 = 120;

/// The fewest samples (a quarter second at 16 kHz) that make an utterance
/// worth recognizing.
pub const MIN_UTTERANCE_SAMPLES: usize = 4000;

/// What a capture tick did to the utterance being collected.
#[derive(Clone, Copy, PartialEq, Eq, Structural, Debug)]
pub enum SegmentEvent {
    /// Nothing ended.
    Nothing,
    /// An utterance of this many samples ended and is to be recognized.
    Utterance(usize),
    /// An utterance ended but is too short; it is dropped.
    TooShort,
}

/// The outcome of a capture tick: whether the tick's samples join the buffer,
/// and what ended (the buffer is emptied after anything ends).
#[derive(Clone, Copy, PartialEq, Eq, Structural, Debug)]
pub struct SegmentStep {
    pub keep: bool,
    pub event: SegmentEvent,
}

/// The utterance being collected: whether speech is on, the silence heard
/// since the last loud tick, and the number of samples buffered.
#[derive(Clone, Copy, PartialEq, Eq, Structural, Debug)]
pub struct SpeechSegmenter {
    pub in_speech: bool,
    pub silence_ms: u64,
    pub buffered: usize,
}

/// The segmenter with no utterance under way.
pub open spec fn idle_segmenter() -> SpeechSegmenter {
    SpeechSegmenter { in_speech: false, silence_ms: 0, buffered: 0 }
}

/// One capture tick of `n` samples, loud or quiet: an empty tick changes
/// nothing; a loud one starts or continues speech; a quiet one during speech
/// adds 120 ms of silence and, once 360 ms have passed, ends the utterance.
pub open spec fn segment_next(s: SpeechSegmenter, n: nat, loud: bool) -> (SpeechSegmenter, SegmentStep) {
    let nothing = SegmentStep { keep: false, event: SegmentEvent::Nothing };
    if n == 0 {
        (s, nothing)
    } else if loud {
        (
            SpeechSegmenter { in_speech: true, silence_ms: 0, buffered: (s.buffered + n) as usize },
            SegmentStep { keep: true, event: SegmentEvent::Nothing },
        )
    } else if s.in_speech {
        let total = s.buffered + n;
        let silence = s.silence_ms + 120;
        if silence >= 360 {
            (
                idle_segmenter(),
                SegmentStep {
                    keep: true,
                    event: if total >= 4000 {
                        SegmentEvent::Utterance(total as usize)
                    } else {
                        SegmentEvent::TooShort
                    },
                },
            )
        } else {
            (
                SpeechSegmenter { in_speech: true, silence_ms: silence as u64, buffered: total as usize },
                SegmentStep { keep: true, event: SegmentEvent::Nothing },
            )
        }
    } else {
        (s, nothing)
    }
}

impl SpeechSegmenter {
    /// The silence stays below the end threshold, and outside speech nothing
    /// is buffered.
    pub open spec fn wf(self) -> bool {
        &&& self.silence_ms < 360
        &&& !self.in_speech ==> self.silence_ms == 0 && self.buffered == 0
    }

    /// A segmenter with no utterance under way.
    pub fn new() -> (s: Self)
        ensures
            s == idle_segmenter(),
            s.wf(),
    {
        SpeechSegmenter { in_speech: false, silence_ms: 0, buffered: 0 }
    }

    /// Takes one capture tick of `chunk_len` samples, `loud` when its energy
    /// reached the threshold.
    pub fn step(&mut self, chunk_len: usize, loud: bool) -> (r: SegmentStep)
        requires
            old(self).wf(),
            old(self).buffered + chunk_len <= usize::MAX,
        ensures
            final(self).wf(),
            (*final(self), r) == segment_next(*old(self), chunk_len as nat, loud),
    {
        if chunk_len == 0 {
            return SegmentStep { keep: false, event: SegmentEvent::Nothing };
        }
        if loud {
            self.in_speech = true;
            self.silence_ms = 0;
            self.buffered = self.buffered + chunk_len;
            return SegmentStep { keep: true, event: SegmentEvent::Nothing };
        }
        if !self.in_speech {
            return SegmentStep { keep: false, event: SegmentEvent::Nothing };
        }
        let total = self.buffered + chunk_len;
        let silence = self.silence_ms + CAPTURE_TICK_MS;
        if silence >= UTTERANCE_END_SILENCE_MS {
            self.in_speech = false;
            self.silence_ms = 0;
            self.buffered = 0;
            let event = if total >= MIN_UTTERANCE_SAMPLES {
                SegmentEvent::Utterance(total)
            } else {
                SegmentEvent::TooShort
            };
            SegmentStep { keep: true, event }
        } else {
            self.silence_ms = silence;
            self.buffered = total;
            SegmentStep { keep: true, event: SegmentEvent::Nothing }
        }
    }
}

/// Speech followed by three quiet ticks ends exactly at the third: from an
/// idle segmenter, a loud tick of `n` samples and quiet ticks of `q1`, `q2`,
/// `q3` samples (none empty) keep every sample, report nothing until the third
/// quiet tick, which ends the utterance of all `n + q1 + q2 + q3` samples (or
/// drops it when it is shorter than a quarter second) and leaves the segmenter
/// idle.
pub proof fn lemma_utterance_ends_after_silence(n: nat, q1: nat, q2: nat, q3: nat)
    requires
        n > 0,
        q1 > 0,
        q2 > 0,
        q3 > 0,
        n + q1 + q2 + q3 <= usize::MAX,
    ensures
        ({
            let (s1, r1) = segment_next(idle_segmenter(), n, true);
            let (s2, r2) = segment_next(s1, q1, false);
            let (s3, r3) = segment_next(s2, q2, false);
            let (s4, r4) = segment_next(s3, q3, false);
            &&& r1 == SegmentStep { keep: true, event: SegmentEvent::Nothing }
            &&& r2 == SegmentStep { keep: true, event: SegmentEvent::Nothing }
            &&& r3 == SegmentStep { keep: true, event: SegmentEvent::Nothing }
            &&& r4.keep
            &&& r4.event == (if n + q1 + q2 + q3 >= 4000 {
                SegmentEvent::Utterance((n + q1 + q2 + q3) as usize)
            } else {
                SegmentEvent::TooShort
            })
            &&& s4 == idle_segmenter()
        }),
{
}

/// How recognition in a separate process is attempted for a language: straight
/// with the Chinese model when English was found unstable on this machine;
/// otherwise with the language's model, retrying with the Chinese one after a
/// failure (unless the language is Chinese), and remembering a failure of
/// English as instability.
pub struct AsrIsolationPlan {
    pub direct_zh: bool,
    pub retry_zh: bool,
    pub mark_en_unstable: bool,
}

/// The plan for `lang` (compared ASCII-case-insensitively).
pub fn asr_isolation_plan(lang: &str, en_unstable: bool) -> (r: AsrIsolationPlan)
    ensures
        r.direct_zh == (crate::text::lower(lang@) == "en"@ && en_unstable),
        r.retry_zh == (!r.direct_zh && crate::text::lower(lang@) != "zh"@),
        r.mark_en_unstable == (!r.direct_zh && crate::text::lower(lang@) == "en"@),
{
    let l = crate::text::lower_chars(&crate::text::chars_of(lang));
    let en = crate::text::chars_eq_str(&l, "en");
    let zh = crate::text::chars_eq_str(&l, "zh");
    let direct_zh = en && en_unstable;
    AsrIsolationPlan { direct_zh, retry_zh: !direct_zh && !zh, mark_en_unstable: !direct_zh && en }
}

/// Whether Loci may run, given the time until which it was marked unhealthy.
#[derive(Clone, Copy, PartialEq, Eq, Structural, Debug)]
pub enum LociGate {
    /// Still marked unhealthy, for this many whole seconds.
    Blocked(u64),
    /// Loci may run; `true` when an expired time is to be removed.
    Open(bool),
}

/// Whether Loci may run at `now_ms` when it was put off until `until_ms`.
pub open spec fn loci_gate_at(until_ms: Option<u64>, now_ms: u64) -> LociGate {
    match until_ms {
        Some(u) => if now_ms < u {
            LociGate::Blocked(((u - now_ms) / 1000) as u64)
        } else {
            LociGate::Open(true)
        },
        None => LociGate::Open(false),
    }
}

/// Whether Loci may run at `now_ms`.
pub fn loci_gate(until_ms: Option<u64>, now_ms: u64) -> (g: LociGate)
    ensures
        g == loci_gate_at(until_ms, now_ms),
{
    match until_ms {
        Some(u) => if now_ms < u {
            LociGate::Blocked((u - now_ms) / 1000)
        } else {
            LociGate::Open(true)
        },
        None => LociGate::Open(false),
    }
}

/// Until when a Loci failure at `now_ms` keeps Loci off: five minutes later
/// (saturating).
pub fn loci_unhealthy_until(now_ms: u64) -> (u: u64)
    ensures
        u == if now_ms + 300_000 <= u64::MAX {
            (now_ms + 300_000) as u64
        } else {
            u64::MAX
        },
{
    now_ms.saturating_add(300_000)
}

/// A Loci failure keeps Loci off for exactly five minutes: after a failure at
/// `failed_ms`, every later moment before `failed_ms + 300000` is blocked, and
/// from then on Loci may run again (and the stored time is removed).
pub proof fn lemma_loci_mark_lasts_five_minutes(failed_ms: u64, now_ms: u64)
    requires
        failed_ms + 300_000 <= u64::MAX,
        failed_ms <= now_ms,
    ensures
        now_ms < failed_ms + 300_000 ==> loci_gate_at(Some((failed_ms + 300_000) as u64), now_ms) is Blocked,
        now_ms >= failed_ms + 300_000 ==> loci_gate_at(Some((failed_ms + 300_000) as u64), now_ms)
            == LociGate::Open(true),
{
}

} // verus!

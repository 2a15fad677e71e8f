use localtrans::session::{control_record, SessionRuntimeState};
use localtrans::worker::{
    apply_worker_control, asr_isolation_plan, audio_ms_at_16k, check_worker_start, loci_gate,
    loci_unhealthy_until, LociGate, finish_worker_state, worker_state_record, ControlOutcome,
    SegmentEvent, SegmentStep, SpeechSegmenter,
};

fn running() -> SessionRuntimeState {
    worker_state_record("running", "zh".to_string(), "en".to_string(), true, false, 42, 1_000)
}

#[test]
fn worker_records() {
    let s = running();
    assert_eq!(s.pid, 42);
    assert_eq!(s.status, "running");
    assert_eq!(s.source_lang, "zh");
    assert!(s.bidirectional);
    assert!(!s.tts_enabled);
    assert_eq!(s.start_unix_ms, 1_000);
    assert_eq!(s.utterance_count, 0);

    let mut t = running();
    t.utterance_count = 3;
    finish_worker_state(&mut t, "control:stop".to_string(), 9_000);
    assert_eq!(t.status, "idle");
    assert_eq!(t.last_error.as_deref(), Some("control:stop"));
    assert_eq!(t.last_heartbeat_unix_ms, 9_000);
    assert_eq!(t.utterance_count, 3);
}

#[test]
fn worker_control_commands() {
    let mut s = running();
    assert_eq!(apply_worker_control(&mut s, &control_record("pause", None, None, 5)), ControlOutcome::Applied);
    assert_eq!(s.status, "paused");
    assert_eq!(apply_worker_control(&mut s, &control_record("resume", None, None, 6)), ControlOutcome::Applied);
    assert_eq!(s.status, "running");
    assert_eq!(
        apply_worker_control(&mut s, &control_record("update_languages", None, Some("ja"), 7)),
        ControlOutcome::Applied
    );
    assert_eq!(s.source_lang, "zh");
    assert_eq!(s.target_lang, "ja");
    assert_eq!(apply_worker_control(&mut s, &control_record("Stop", None, None, 8)), ControlOutcome::Ignored);
    assert_eq!(apply_worker_control(&mut s, &control_record("stop", None, None, 9)), ControlOutcome::Stop);
    assert_eq!(s.status, "running");
    assert_eq!(s.last_heartbeat_unix_ms, 1_000);
}

#[test]
fn audio_duration_at_16k() {
    assert_eq!(audio_ms_at_16k(16_000), 1_000);
    assert_eq!(audio_ms_at_16k(1_920), 120);
    assert_eq!(audio_ms_at_16k(15), 0);
}

#[test]
fn utterance_ends_after_three_quiet_ticks() {
    let nothing_kept = SegmentStep { keep: true, event: SegmentEvent::Nothing };
    let mut seg = SpeechSegmenter::new();
    assert_eq!(seg.step(1_920, false), SegmentStep { keep: false, event: SegmentEvent::Nothing });
    assert_eq!(seg.step(1_920, true), nothing_kept);
    assert_eq!(seg.step(0, false), SegmentStep { keep: false, event: SegmentEvent::Nothing });
    assert_eq!(seg.step(1_920, false), nothing_kept);
    assert_eq!(seg.step(1_920, true), nothing_kept);
    assert_eq!(seg.step(1_920, false), nothing_kept);
    assert_eq!(seg.step(1_920, false), nothing_kept);
    assert_eq!(seg.step(1_920, false), SegmentStep { keep: true, event: SegmentEvent::Utterance(11_520) });
    assert!(!seg.in_speech);
    assert_eq!(seg.buffered, 0);

    let mut short = SpeechSegmenter::new();
    short.step(500, true);
    short.step(500, false);
    short.step(500, false);
    assert_eq!(short.step(500, false), SegmentStep { keep: true, event: SegmentEvent::TooShort });
}

#[test]
fn worker_start_is_refused_while_one_runs() {
    let s = running();
    assert_eq!(check_worker_start(&Some(s), 3_000), Err("session worker is already running".to_string()));
    assert_eq!(check_worker_start(&Some(running()), 9_000), Ok(()));
    let starting = worker_state_record("starting", "zh".to_string(), "en".to_string(), false, true, 1, 1_000);
    assert_eq!(check_worker_start(&Some(starting), 2_000), Ok(()));
    assert_eq!(check_worker_start(&None, 0), Ok(()));
}

#[test]
fn asr_isolation_plans() {
    let p = asr_isolation_plan("EN", true);
    assert!(p.direct_zh && !p.retry_zh && !p.mark_en_unstable);
    let p = asr_isolation_plan("en", false);
    assert!(!p.direct_zh && p.retry_zh && p.mark_en_unstable);
    let p = asr_isolation_plan("Zh", true);
    assert!(!p.direct_zh && !p.retry_zh && !p.mark_en_unstable);
    let p = asr_isolation_plan("ja", true);
    assert!(!p.direct_zh && p.retry_zh && !p.mark_en_unstable);
}

#[test]
fn loci_unhealthy_mark_lasts_five_minutes() {
    let until = loci_unhealthy_until(1_000);
    assert_eq!(until, 301_000);
    assert_eq!(loci_gate(Some(until), 1_000), LociGate::Blocked(300));
    assert_eq!(loci_gate(Some(until), 300_999), LociGate::Blocked(0));
    assert_eq!(loci_gate(Some(until), 301_000), LociGate::Open(true));
    assert_eq!(loci_gate(None, 5), LociGate::Open(false));
    assert_eq!(loci_unhealthy_until(u64::MAX - 5), u64::MAX);
}

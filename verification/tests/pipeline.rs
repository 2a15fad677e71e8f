use localtrans::audio::VadResult;
use localtrans::pipeline::{
    final_result_step, pause_state, resume_state,
    asr_chunk_size, should_stream_speak, should_stream_translate,
    config_update_gate, default_event_prefix, event_name, is_too_short, min_delta_samples,
    min_partial_samples, pause_transition, resume_transition, speech_duration_ms, start_gate,
    stop_needed, ErrorCode, HistoryManager, PipelineEventKind, PipelineState, PipelineStats,
    StreamingState,
};

#[test]
fn test_streaming_state_display() {
    assert_eq!(StreamingState::Idle.to_string(), "idle");
    assert_eq!(StreamingState::SpeechDetected.to_string(), "speech_detected");
    assert_eq!(StreamingState::Processing.to_string(), "processing");
}

#[test]
fn test_error_code_recoverable() {
    assert!(ErrorCode::AudioCaptureFailed.is_recoverable());
    assert!(!ErrorCode::AsrModelNotLoaded.is_recoverable());
}

#[test]
fn test_history_manager() {
    let mut manager: HistoryManager<String> = HistoryManager::new(5);
    for i in 0..7 {
        manager.add(format!("source {}", i));
    }
    assert_eq!(manager.len(), 5);
    assert_eq!(manager.get_all().first().unwrap(), "source 2");
}

#[test]
fn history_recent_is_most_recent_first() {
    let mut manager: HistoryManager<i32> = HistoryManager::new(3);
    for i in 1..=4 {
        manager.add(i);
    }
    assert_eq!(manager.get_all(), &[2, 3, 4]);
    assert_eq!(manager.get_recent(2), vec![&4, &3]);
    assert_eq!(manager.get_recent(10), vec![&4, &3, &2]);
    manager.clear();
    assert!(manager.is_empty());
}

#[test]
fn remaining_states_and_labels() {
    assert_eq!(StreamingState::Finalizing.to_string(), "finalizing");
    assert_eq!(StreamingState::Error.to_string(), "error");
    assert_eq!(PipelineState::Running.to_string(), "Running");
    assert_eq!(PipelineState::Paused.to_string(), "Paused");
}

#[test]
fn streaming_state_follows_voice_activity() {
    let (s, started) = StreamingState::Idle.after_vad(VadResult::SpeechStart);
    assert_eq!(s, StreamingState::SpeechDetected);
    assert!(started);
    let (s, _) = StreamingState::Processing.after_vad(VadResult::SpeechEnd);
    assert_eq!(s, StreamingState::Finalizing);
    let (s, _) = StreamingState::Idle.after_vad(VadResult::Silence);
    assert_eq!(s, StreamingState::Idle);
}

#[test]
fn pause_then_resume_returns_to_running() {
    let paused = pause_transition(PipelineState::Running).unwrap();
    assert_eq!(paused, PipelineState::Paused);
    assert_eq!(resume_transition(paused).unwrap(), PipelineState::Running);
    assert!(pause_transition(PipelineState::Idle).is_err());
    assert!(resume_transition(PipelineState::Running).is_err());
}

#[test]
fn start_and_stop_gates() {
    assert!(start_gate(PipelineState::Idle).is_ok());
    assert!(start_gate(PipelineState::Running).is_err());
    assert!(stop_needed(PipelineState::Running));
    assert!(!stop_needed(PipelineState::Idle));
    assert!(config_update_gate(PipelineState::Idle).is_ok());
    assert!(config_update_gate(PipelineState::Running).is_err());
}

#[test]
fn event_names_carry_the_prefix() {
    let prefix = default_event_prefix();
    assert_eq!(prefix, "pipeline:");
    assert_eq!(event_name(&prefix, PipelineEventKind::FinalTranscription), "pipeline:final-transcription");
    assert_eq!(event_name("x:", PipelineEventKind::Stats), "x:stats");
}

#[test]
fn sample_thresholds() {
    assert_eq!(min_partial_samples(16000, 480), 8000);
    assert_eq!(min_partial_samples(16000, 2000), 10000);
    assert_eq!(min_delta_samples(16000, 480), 4000);
    assert_eq!(min_delta_samples(16000, 8000), 8000);
}

#[test]
fn speech_durations() {
    assert_eq!(speech_duration_ms(16000, 16000), 1000);
    assert_eq!(speech_duration_ms(8, 16000), 0);
    assert_eq!(speech_duration_ms(5, 0), u32::MAX);
    assert!(is_too_short(3200, 16000, 300));
    assert!(!is_too_short(4800, 16000, 300));
}

#[test]
fn stats_reset_zeroes_counters() {
    let mut stats = PipelineStats::default();
    stats.transcription_count = 10;
    stats.total_latency_ms = 500;
    stats.reset();
    assert_eq!(stats.transcription_count, 0);
    assert_eq!(stats.total_latency_ms, 0);
    assert!(stats.start_time.is_some());
}

#[test]
fn asr_chunk_sizes() {
    assert_eq!(asr_chunk_size(16_000, 30, 1_600), 480);
    assert_eq!(asr_chunk_size(16_000, 5, 1_600), 160);
    assert_eq!(asr_chunk_size(16_000, 999, 1_600), 3_200);
    assert_eq!(asr_chunk_size(0, 30, 1_600), 1_600);
    assert_eq!(asr_chunk_size(0, 30, 0), 1);
    assert_eq!(asr_chunk_size(50, 10, 7), 7);
}

#[test]
fn streaming_translation_and_speech_decisions() {
    assert!(should_stream_translate("  你好 ", 6, 800, 800, "你"));
    assert!(!should_stream_translate("  你好 ", 7, 800, 800, ""));
    assert!(!should_stream_translate("你好", 2, 799, 800, ""));
    assert!(!should_stream_translate(" 你好", 2, 900, 800, "你好"));
    assert!(should_stream_speak(true, true, " hello ", 5, 1_000, 1_000, "hell"));
    assert!(!should_stream_speak(false, true, "hello", 1, 1_000, 0, ""));
    assert!(!should_stream_speak(true, false, "hello", 1, 1_000, 0, ""));
    assert!(!should_stream_speak(true, true, "hello", 6, 1_000, 0, ""));
    assert!(!should_stream_speak(true, true, "hello ", 1, 1_000, 0, "hello"));
}

#[test]
fn pause_state_only_from_running() {
    let mut s = PipelineState::Running;
    assert!(pause_state(&mut s).is_ok());
    assert_eq!(s, PipelineState::Paused);
    assert_eq!(pause_state(&mut s), Err("Can only pause a running pipeline".to_string()));
    assert_eq!(s, PipelineState::Paused);
    assert!(resume_state(&mut s).is_ok());
    assert_eq!(s, PipelineState::Running);
    assert_eq!(resume_state(&mut s), Err("Can only resume a paused pipeline".to_string()));
    assert_eq!(s, PipelineState::Running);
    let mut idle = PipelineState::Idle;
    assert!(pause_state(&mut idle).is_err());
    assert_eq!(idle, PipelineState::Idle);
}

#[test]
fn final_result_blank_is_not_translated() {
    let s = final_result_step("   ", Some("x"), true, true, true, "prev");
    assert!(!s.translate && !s.record && !s.translate_back && !s.speak && !s.count_error);
    assert_eq!(s.last_spoken, "prev");
}

#[test]
fn final_result_translated_is_recorded_and_spoken() {
    let s = final_result_step(" hello ", Some(" 你好 "), true, true, true, "prev");
    assert!(s.translate && s.record && s.translate_back && s.speak && !s.count_error);
    assert_eq!(s.last_spoken, "你好");
    // the same translation again is not spoken twice
    let again = final_result_step("hello", Some("你好"), false, true, true, &s.last_spoken);
    assert!(again.record && !again.translate_back && !again.speak);
    assert_eq!(again.last_spoken, "你好");
    // TTS off: recorded, not spoken
    let quiet = final_result_step("hello", Some("你好"), false, true, false, "");
    assert!(quiet.record && !quiet.speak);
    assert_eq!(quiet.last_spoken, "");
}

#[test]
fn final_result_failed_translation_counts_an_error() {
    let s = final_result_step("hello", None, true, true, true, "prev");
    assert!(s.translate && !s.record && !s.translate_back && !s.speak && s.count_error);
    assert_eq!(s.last_spoken, "prev");
}

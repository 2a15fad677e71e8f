use localtrans::pipeline::PipelineState;
use localtrans::session::{
    control_action, control_record, ensure_not_running, is_session_alive, pause_session_cli,
    resume_session_cli, runtime_state_record, runtime_status_label, session_status_cli,
    start_session_cli, stop_session_cli, stream_translation_interval_ms,
    stream_translation_min_chars, to_status, tts_pitch_setting, update_languages_cli,
    update_runtime_status, vad_frame_ms_setting,
    ControlAction,
};
use localtrans::transcription::{SessionStatus, TranscriptionSession};

#[test]
fn status_labels() {
    let s = to_status(PipelineState::Running);
    assert_eq!(s.state, "running");
    assert_eq!(s.label, "实时转译中");
    assert!(s.is_running);
    let s = to_status(PipelineState::Error);
    assert_eq!(s.state, "error");
    assert!(!s.is_running);
}

#[test]
fn session_liveness_uses_the_heartbeat() {
    let st = runtime_state_record("running", "zh".to_string(), "en".to_string(), false, 7, 10_000);
    assert!(is_session_alive(&st, 15_000));
    assert!(!is_session_alive(&st, 15_001));
    assert!(is_session_alive(&st, 9_000));
    let idle = runtime_state_record("idle", String::new(), String::new(), false, 7, 10_000);
    assert!(!is_session_alive(&idle, 10_000));
}

#[test]
fn cli_status_prefers_the_pipeline_then_the_bus() {
    let st = runtime_state_record("paused", "zh".to_string(), "en".to_string(), false, 7, 10_000);
    let s = session_status_cli(Some(PipelineState::Running), &Some(st), 10_000).unwrap();
    assert_eq!(s.state, "running");
    let st = runtime_state_record("paused", "zh".to_string(), "en".to_string(), false, 7, 10_000);
    let s = session_status_cli(None, &Some(st), 10_000).unwrap();
    assert_eq!(s.state, "paused");
    let st = runtime_state_record("paused", "zh".to_string(), "en".to_string(), false, 7, 10_000);
    let s = session_status_cli(None, &Some(st), 99_000).unwrap();
    assert_eq!(s.state, "idle");
    assert_eq!(session_status_cli(None, &None, 0).unwrap().state, "idle");
}

#[test]
fn cli_commands_write_the_bus() {
    let u = start_session_cli("zh".to_string(), "en".to_string(), true, 42, 1000);
    assert!(u.control.is_none());
    let st = u.state.unwrap();
    assert_eq!(st.status, "running");
    assert_eq!(st.pid, 42);
    assert!(st.tts_enabled);
    assert_eq!(st.start_unix_ms, 1000);
    assert_eq!(st.utterance_count, 0);
    assert_eq!(st.error_count, 0);
    assert!(st.last_error.is_none());
    let u = stop_session_cli(42, 2000);
    assert_eq!(u.control.unwrap().command, "stop");
    assert_eq!(u.state.unwrap().status, "idle");
    let u = pause_session_cli(Some(st), 3000);
    assert_eq!(u.control.unwrap().command, "pause");
    let paused = u.state.unwrap();
    assert_eq!(paused.status, "paused");
    assert_eq!(paused.last_heartbeat_unix_ms, 3000);
    assert_eq!(paused.start_unix_ms, 1000);
    assert_eq!(paused.source_lang, "zh");
    assert_eq!(paused.target_lang, "en");
    let u = resume_session_cli(Some(paused), 3500);
    let c = u.control.unwrap();
    assert_eq!(c.command, "resume");
    assert!(c.source_lang.is_none() && c.target_lang.is_none());
    let resumed = u.state.unwrap();
    assert_eq!(resumed.status, "running");
    assert_eq!(resumed.source_lang, "zh");
    assert_eq!(resumed.target_lang, "en");
    let u = resume_session_cli(None, 4000);
    assert!(u.state.is_none());
    assert_eq!(u.status.state, "running");
}

#[test]
fn language_update_from_the_cli() {
    let st = runtime_state_record("running", "zh".to_string(), "en".to_string(), false, 1, 1000);
    let u = update_languages_cli(Some(st), None, "ja".to_string(), "ko".to_string(), 2000).unwrap();
    let c = u.control.unwrap();
    assert_eq!(c.command, "update_languages");
    assert_eq!(c.source_lang.as_deref(), Some("ja"));
    let st = u.state.unwrap();
    assert_eq!(st.source_lang, "ja");
    assert_eq!(st.target_lang, "ko");
    assert_eq!(st.status, "running");
    assert_eq!(u.status.state, "running");
}

#[test]
fn control_commands_and_status_updates() {
    assert_eq!(control_action("pause"), ControlAction::Pause);
    assert_eq!(control_action("update_languages"), ControlAction::UpdateLanguages);
    assert_eq!(control_action("PAUSE"), ControlAction::Ignore);
    let c = control_record("stop", None, None, 5);
    assert_eq!(c.ts_unix_ms, 5);
    assert_eq!(runtime_status_label(PipelineState::Initializing), Some("starting"));
    assert_eq!(runtime_status_label(PipelineState::Idle), None);
    let st = runtime_state_record("running", "zh".to_string(), "en".to_string(), false, 1, 1000);
    let st = update_runtime_status(Some(st), "paused", 2000).unwrap();
    assert_eq!(st.status, "paused");
    assert!(update_runtime_status(None, "paused", 2000).is_none());
}

#[test]
fn running_session_blocks_a_start() {
    assert!(ensure_not_running(Some(PipelineState::Running)).is_err());
    assert!(ensure_not_running(Some(PipelineState::Initializing)).is_err());
    assert!(ensure_not_running(Some(PipelineState::Paused)).is_ok());
    assert!(ensure_not_running(None).is_ok());
}

#[test]
fn streaming_translation_limits() {
    assert_eq!(stream_translation_interval_ms(100), 300);
    assert_eq!(stream_translation_interval_ms(1200), 1200);
    assert_eq!(stream_translation_interval_ms(9000), 5000);
    assert_eq!(stream_translation_min_chars(0), 2);
    assert_eq!(stream_translation_min_chars(8), 8);
    assert_eq!(stream_translation_min_chars(100), 64);
}

#[test]
fn cli_setting_limits() {
    assert_eq!(vad_frame_ms_setting(5), 10);
    assert_eq!(vad_frame_ms_setting(30), 30);
    assert_eq!(vad_frame_ms_setting(999), 200);
    assert_eq!(tts_pitch_setting(-80), -50);
    assert_eq!(tts_pitch_setting(12), 12);
    assert_eq!(tts_pitch_setting(51), 50);
}

#[test]
fn transcription_session_lifecycle() {
    let mut s = TranscriptionSession::new("en".to_string(), "zh".to_string(), None).unwrap();
    assert_eq!(s.get_status(), SessionStatus::Idle);
    s.start().unwrap();
    assert_eq!(s.get_status(), SessionStatus::Running);
    s.pause();
    assert_eq!(s.get_status(), SessionStatus::Paused);
    s.resume();
    assert_eq!(s.get_status(), SessionStatus::Running);
    s.stop().unwrap();
    assert_eq!(s.get_status(), SessionStatus::Idle);
    assert!(s.get_history().is_empty());
}

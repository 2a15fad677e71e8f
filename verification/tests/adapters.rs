use localtrans::adapters::{
    qwen_asr_unavailable, realtime_asr_adapter_kind, tts_adapter_kind, AsrAdapterKind, QwenTtsAdapter,
    TtsAdapterKind,
};
use localtrans::pipeline::{HistoryManager, StreamingState};
use localtrans::transcription::TranscriptionSession;
use localtrans::translation_service::{DeterministicMtAdapter, NllbTranslator};
use localtrans::voice::{build_tts_doctor_reason_text, push_doctor_check, TtsDoctorCheck};

#[test]
fn asr_adapter_selection() {
    assert!(matches!(realtime_asr_adapter_kind(" Sherpa "), Ok(AsrAdapterKind::Streaming)));
    assert!(matches!(realtime_asr_adapter_kind(""), Ok(AsrAdapterKind::Streaming)));
    assert!(matches!(realtime_asr_adapter_kind("QWEN3-ASR"), Ok(AsrAdapterKind::Qwen)));
    match realtime_asr_adapter_kind(" Foo ") {
        Err(m) => assert_eq!(m, "Unsupported ASR engine: foo"),
        Ok(_) => panic!("an unknown engine is refused"),
    }
    assert!(qwen_asr_unavailable().starts_with("qwen3-asr adapter slot is scaffolded"));
}

#[test]
fn tts_adapter_selection() {
    assert!(matches!(tts_adapter_kind("Edge-TTS"), Ok(TtsAdapterKind::Command)));
    assert!(matches!(tts_adapter_kind("qwen3-tts"), Ok(TtsAdapterKind::Qwen)));
    match tts_adapter_kind("espeak") {
        Err(m) => assert_eq!(m, "Unsupported TTS engine: espeak"),
        Ok(_) => panic!("an unknown engine is refused"),
    }
    match QwenTtsAdapter::new() {
        Err(m) => assert!(m.contains("qwen3-tts-rs")),
        Ok(_) => panic!("the Qwen3-TTS slot has no backend"),
    }
}

#[test]
fn speech_accumulation_and_history_import() {
    assert!(StreamingState::SpeechDetected.accumulates_speech());
    assert!(StreamingState::Processing.accumulates_speech());
    assert!(!StreamingState::Idle.accumulates_speech());
    assert!(!StreamingState::Finalizing.accumulates_speech());

    let mut h: HistoryManager<u32> = HistoryManager::new(2);
    h.add(1);
    h.replace_all(vec![7, 8, 9]);
    assert_eq!(h.get_all(), &[7, 8, 9]);
}

#[test]
fn fresh_transcription_session_is_empty() {
    let s = TranscriptionSession::new("zh".to_string(), "en".to_string(), None).unwrap();
    assert_eq!(s.get_current_source(), "");
    assert_eq!(s.get_current_translation(), "");
    assert!(s.get_history().is_empty());
}

#[test]
fn deterministic_mt_adapter_name() {
    let t = NllbTranslator::new(None, None, None, None, None, None);
    let a = DeterministicMtAdapter::new(t);
    assert_eq!(a.adapter_name(), "deterministic-mt");
}

#[test]
fn doctor_checks_and_reason() {
    let mut checks: Vec<TtsDoctorCheck> = Vec::new();
    let mut ok = true;
    push_doctor_check(&mut checks, "voices", Ok("2 voices".to_string()), &mut ok);
    assert!(ok);
    push_doctor_check(&mut checks, "speak", Err("access denied\nline two".to_string()), &mut ok);
    assert!(!ok);
    assert_eq!(checks.len(), 2);
    assert!(checks[0].ok);
    assert_eq!(checks[0].detail, "2 voices");
    assert!(!checks[1].ok);
    assert_eq!(checks[1].detail, "access denied | line two");

    let recs = vec!["Enable speech".to_string(), "Reboot".to_string(), "Ignored".to_string()];
    assert_eq!(
        build_tts_doctor_reason_text(false, &checks, &recs),
        "System TTS doctor detected host issues. Failed checks: speak: access denied | line two. Recommended actions: Enable speech; Reboot."
    );
    assert_eq!(
        build_tts_doctor_reason_text(true, &checks, &recs),
        "System TTS doctor result: all checks passed. Windows system speech runtime appears healthy."
    );
}

use localtrans::devices::{check_virtual_audio_driver, get_tts_output_devices, AudioDevice, TtsOutputDevice};
use localtrans::error::AppError;
use localtrans::loci_runtime::{
    activate_loci_rewriter, configured_loci_model_path, configured_plugin_dirs_snapshot,
    configured_rewriter_targets_snapshot, get_loci_governance_snapshot, parse_component,
    parse_source_kind, resolve_loci_model_path, resolve_model_path, ActivateLociRewriterRequest,
    CoreComponent, PluginDirsSetting, PluginLoadSourceKind,
};
use localtrans::misc::{file_stats, hello, register_for_gui_mode};
use localtrans::models::{download_opened_message, model_download_page};
use localtrans::translation_service::{translate_loci, translation_route, NllbTranslator, TranslateRequest, TranslationRoute};
use localtrans::user_path::{add_dir_to_user_path, autorun_with_call, profile_with_shim, remove_dir_from_user_path};
use localtrans::voice::{
    custom_voice_type, doctor_verdict_text, doctor_voice_and_language, infer_lang_from_voice,
    sherpa_speaker_id_from_voice, summarize_reason, tts_backend_order, CustomVoiceType,
};

fn out(id: &str, name: &str) -> TtsOutputDevice {
    TtsOutputDevice { id: id.to_string(), name: name.to_string(), is_default: false }
}

#[test]
fn outputs_exclude_inputs() {
    let devices = vec![
        AudioDevice { id: "1".to_string(), name: "Mic".to_string(), is_input: true, is_default: true },
        AudioDevice { id: "2".to_string(), name: "Speakers".to_string(), is_input: false, is_default: true },
    ];
    let outs = get_tts_output_devices(&devices).unwrap();
    assert_eq!(outs.len(), 1);
    assert_eq!(outs[0].name, "Speakers");
    assert!(outs[0].is_default);
}

#[test]
fn virtual_drivers_are_detected() {
    let outs = vec![out("a", "Speakers"), out("b", "CABLE Input (VB-Audio)"), out("c", "VoiceMeeter Aux")];
    let r = check_virtual_audio_driver(&outs).unwrap();
    assert!(r.has_virtual_driver);
    assert_eq!(r.detected_drivers.len(), 2);
    assert_eq!(r.detected_drivers[0].driver_type, "vb-audio");
    assert_eq!(r.detected_drivers[1].driver_type, "voicemeeter");
    assert_eq!(r.recommendation, "已检测到虚拟音频设备: CABLE Input (VB-Audio), VoiceMeeter Aux");
    assert!(r.download_url.is_none());
    let r = check_virtual_audio_driver(&vec![out("a", "Speakers")]).unwrap();
    assert!(!r.has_virtual_driver);
    assert_eq!(r.download_url.as_deref(), Some("https://vb-audio.com/Cable/"));
}

#[test]
fn greeting_and_file_stats() {
    assert_eq!(hello("Ada".to_string()).unwrap().message, "Hello, Ada!");
    let s = file_stats("/tmp/a.txt".to_string(), "a\r\nb\nçd").unwrap();
    assert_eq!(s.line_count, 3);
    assert_eq!(s.char_count, 6);
    assert_eq!(s.byte_count, 7);
    let s = file_stats("/tmp/b.txt".to_string(), "x\n").unwrap();
    assert_eq!(s.line_count, 1);
    let s = file_stats("/tmp/c.txt".to_string(), "").unwrap();
    assert_eq!(s.line_count, 0);
    let _guard = register_for_gui_mode();
}

#[test]
fn model_download_pages() {
    assert_eq!(model_download_page("tts:piper").unwrap(), "https://github.com/rhasspy/piper");
    match model_download_page("x") {
        Err(AppError::NotFound(m)) => assert_eq!(m, "No download URL for model id: x"),
        _ => panic!("expected NotFound"),
    }
    assert!(download_opened_message("u").contains('u'));
}

#[test]
fn user_path_editing() {
    assert_eq!(add_dir_to_user_path("C:\\a;C:\\b", "C:\\c").as_deref(), Some("C:\\a;C:\\b;C:\\c"));
    assert_eq!(add_dir_to_user_path("C:\\a;C:\\B\\", "c:\\b"), None);
    assert_eq!(remove_dir_from_user_path("C:\\a; \"C:\\B\" ;C:\\c", "c:\\b\\"), "C:\\a;C:\\c");
}

#[test]
fn user_path_add_then_remove_restores_entries() {
    let current = " C:\\a ;;C:\\b";
    let added = add_dir_to_user_path(current, "D:\\app").unwrap();
    assert_eq!(added, "C:\\a;C:\\b;D:\\app");
    assert_eq!(remove_dir_from_user_path(&added, "D:\\app"), "C:\\a;C:\\b");
    assert_eq!(add_dir_to_user_path(&added, "D:\\app"), None);
    assert_eq!(add_dir_to_user_path(&added, " d:\\APP\\ "), None);
}

#[test]
fn loci_runtime_settings() {
    let dirs = configured_plugin_dirs_snapshot(Some(PluginDirsSetting::Text(" a ;b\n\n;c ".to_string())));
    assert_eq!(dirs, vec!["a", "b", "c"]);
    let dirs = configured_plugin_dirs_snapshot(Some(PluginDirsSetting::List(vec![Some(" x ".to_string()), None, Some("  ".to_string())])));
    assert_eq!(dirs, vec!["x"]);
    assert!(configured_plugin_dirs_snapshot(None).is_empty());
    let values = vec![None, Some(" m ".to_string()), None, Some("".to_string()), None, None, Some("ui".to_string())];
    let t = configured_rewriter_targets_snapshot(&values);
    assert_eq!(t.len(), 2);
    assert_eq!(t[0].component, "model");
    assert_eq!(t[0].plugin_name, "m");
    assert_eq!(t[1].component, "ui_host");
}

#[test]
fn loci_model_resolution() {
    assert_eq!(configured_loci_model_path(Some("  ".to_string())), None);
    assert_eq!(resolve_loci_model_path(Some(" /r.gguf "), Some("/c.gguf".to_string()), None).as_deref(), Some("/r.gguf"));
    assert_eq!(resolve_loci_model_path(None, Some("/c.gguf".to_string()), Some("/d.gguf".to_string())).as_deref(), Some("/c.gguf"));
    assert_eq!(resolve_loci_model_path(Some(""), None, Some("/d.gguf".to_string())).as_deref(), Some("/d.gguf"));
    match resolve_model_path(None, None, None, "/models/loci") {
        Err(AppError::InvalidState(m)) => assert_eq!(m, "Loci model not found under /models/loci"),
        _ => panic!("expected an error"),
    }
}

#[test]
fn loci_commands_without_backend() {
    assert!(matches!(parse_source_kind(Some(" Bundle ")), PluginLoadSourceKind::BundleFile));
    assert!(matches!(parse_source_kind(None), PluginLoadSourceKind::Directory));
    assert!(matches!(parse_component("EventBus"), Ok(CoreComponent::EventBus)));
    match parse_component(" Foo ") {
        Err(AppError::InvalidState(m)) => assert_eq!(m, "unsupported Loci core component: foo"),
        _ => panic!("expected an error"),
    }
    let r = activate_loci_rewriter(ActivateLociRewriterRequest { model_path: None, component: "model".to_string(), plugin_name: "p".to_string() });
    match r {
        Err(AppError::InvalidState(m)) => assert_eq!(m, "loci-backend feature is not enabled"),
        _ => panic!("expected an error"),
    }
    let values = vec![None, None, None, None, None, None, None];
    let s = get_loci_governance_snapshot(Some("loci".to_string()), None, "/d".to_string(), &values, None).unwrap();
    assert!(s.loci_selected);
    assert!(!s.runtime_ready);
    assert_eq!(s.status_message, "loci-backend feature is not enabled in this build");
}

#[test]
fn translation_routes() {
    assert!(matches!(translation_route(Some("argos"), None), Ok(TranslationRoute::Nllb)));
    assert!(matches!(translation_route(None, Some("LOCI".to_string())), Ok(TranslationRoute::Loci)));
    assert_eq!(translation_route(Some("deepl"), None).err(), Some("Unsupported translation engine: deepl".to_string()));
    let req = TranslateRequest { text: "x".to_string(), source_lang: "en".to_string(), target_lang: "zh".to_string(), engine: None, model_path: Some("/m.gguf".to_string()) };
    assert_eq!(translate_loci(&req, None, None, "/d").err(), Some("failed to initialize Loci model (/m.gguf): loci-backend feature is not enabled".to_string()));
    let req = TranslateRequest { model_path: None, ..req };
    assert_eq!(translate_loci(&req, None, None, "/d").err(), Some("Loci model not found under /d".to_string()));
}

#[test]
fn nllb_translator_setup() {
    let t = NllbTranslator::new(None, Some(" /py ".to_string()), None, Some("/home/py".to_string()), None, Some("  ".to_string()));
    assert_eq!(t.python_exe, "/py");
    assert_eq!(t.conda_env_name, "localtrans");
    let t = NllbTranslator::new(None, None, None, None, None, Some("mt".to_string()));
    assert_eq!(t.python_exe, "python");
    assert_eq!(t.conda_env_name, "mt");
    assert_eq!(NllbTranslator::passthrough("hi", "EN", "en").as_deref(), Some("hi"));
    assert!(NllbTranslator::passthrough("hi", "en", "zh").is_none());
    assert_eq!(NllbTranslator::failure_message("en", "zh", "  "), "Argos MT failed for en->zh: unknown error");
    assert_eq!(NllbTranslator::failure_message("en", "zh", " boom\n"), "Argos MT failed for en->zh: boom");
}

#[test]
fn voice_helpers() {
    assert_eq!(infer_lang_from_voice("en-US-JennyNeural"), "en");
    assert_eq!(infer_lang_from_voice("zh-CN-XiaoxiaoNeural"), "zh");
    assert_eq!(sherpa_speaker_id_from_voice("zh-CN-YunxiNeural"), 1);
    assert_eq!(sherpa_speaker_id_from_voice("zh-CN-XiaoxiaoNeural"), 0);
    assert_eq!(sherpa_speaker_id_from_voice("sherpa-melo-female"), 0);
    assert_eq!(sherpa_speaker_id_from_voice("sherpa-melo-male"), 1);
    assert_eq!(summarize_reason("abcdef", 3), "abc...");
    assert_eq!(summarize_reason("abc", 3), "abc");
    assert!(matches!(custom_voice_type("rvc"), Ok(CustomVoiceType::Rvc)));
    assert!(custom_voice_type("RVC").is_err());
    assert_eq!(tts_backend_order("piper").unwrap(), vec!["piper", "edge", "system"]);
    assert!(tts_backend_order("robot").is_err());
    let (v, l) = doctor_voice_and_language(None, None);
    assert_eq!(v, "en-US-JennyNeural");
    assert_eq!(l, "en");
    assert_eq!(doctor_verdict_text(true, "", "zh"), "系统 TTS 检查通过。");
    assert_eq!(doctor_verdict_text(false, "no voice", "en-US"), "System TTS is currently unavailable. Reason: no voice. Recommended: use Edge voice fallback.");
}

#[test]
fn shell_shims_are_installed_once() {
    let p = profile_with_shim("Set-Location C:\\").unwrap();
    assert!(p.starts_with("Set-Location C:\\\n\n# >>> localtrans shim >>>\nfunction localtrans {"));
    assert!(p.ends_with("# <<< localtrans shim <<<\n"));
    assert_eq!(profile_with_shim(&p), None);
    let fresh = profile_with_shim("").unwrap();
    assert!(fresh.starts_with("\n\n# >>> localtrans shim >>>"));
    let ends_nl = profile_with_shim("a\n").unwrap();
    assert!(ends_nl.starts_with("a\n\n# >>>"));

    assert_eq!(autorun_with_call("  ", "C:\\rt\\d.cmd").as_deref(), Some("\"C:\\rt\\d.cmd\""));
    let v = autorun_with_call("echo hi", "C:\\rt\\d.cmd").unwrap();
    assert_eq!(v, "echo hi & \"C:\\rt\\d.cmd\"");
    assert_eq!(autorun_with_call(&v, "C:\\rt\\d.cmd"), None);
}

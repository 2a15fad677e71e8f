use localtrans::asr::{
    get_language_name, is_language_supported, model_download_url, sensevoice_language, ModelSize,
    MockAsrEngine, SenseVoiceConfig, SenseVoiceEngine,
};
use localtrans::asr_models::{
    has_paraformer_files, has_prefix_onnx, has_required_asr_files, has_zipformer_files,
    is_english_only_asr_model, is_valid_asr_model_dir, pick_preferred_asr_model_dir,
    resolve_asr_model_dir, AsrModelDir, DirEntryInfo,
};

fn file(name: &str) -> DirEntryInfo {
    DirEntryInfo { name: name.to_string(), is_file: true }
}

fn dir(path: &str, name: &str, files: &[&str], size: u64) -> AsrModelDir {
    AsrModelDir {
        path: path.to_string(),
        name: name.to_string(),
        entries: files.iter().map(|f| file(f)).collect(),
        size,
    }
}

#[test]
fn test_language_support() {
    assert!(is_language_supported("en"));
    assert!(is_language_supported("zh"));
    assert!(is_language_supported("ja"));
    assert!(!is_language_supported("xx"));

    assert_eq!(get_language_name("en"), Some("English"));
    assert_eq!(get_language_name("zh"), Some("Chinese"));
}

#[test]
fn test_sensevoice_config_default() {
    let config = SenseVoiceConfig::default();
    assert_eq!(config.num_threads, 4);
    assert!(!config.use_gpu);
    assert_eq!(config.execution_provider, "cpu");
}

#[test]
fn test_model_filename() {
    assert_eq!(ModelSize::Tiny.model_filename(), "ggml-tiny.bin");
    assert_eq!(ModelSize::LargeV3.model_filename(), "ggml-large-v3.bin");
}

#[test]
fn model_filename_depends_on_size_only() {
    assert_eq!(ModelSize::Medium.model_filename(), "ggml-medium.bin");
    assert_eq!(ModelSize::MediumEn.model_filename(), "ggml-medium.en.bin");
}

#[test]
fn test_memory_estimation() {
    assert_eq!(ModelSize::Tiny.estimated_memory_mb(), 150);
    assert_eq!(ModelSize::LargeV3.estimated_memory_mb(), 3000);
}

#[test]
fn default_model_size_is_base() {
    assert_eq!(ModelSize::default(), ModelSize::Base);
    assert_eq!(ModelSize::default().model_filename(), "ggml-base.bin");
}

#[test]
fn unknown_language_has_no_name() {
    assert_eq!(get_language_name("xx"), None);
    assert_eq!(get_language_name("ja"), Some("Japanese"));
}

#[test]
fn download_url_points_at_the_model_repository() {
    let url = model_download_url("ggml-tiny.bin");
    assert!(url.ends_with("/ggml-tiny.bin"));
    assert!(url.starts_with("https://"));
}

#[test]
fn sensevoice_falls_back_to_auto() {
    assert_eq!(sensevoice_language("zh"), "zh");
    assert_eq!(sensevoice_language("en"), "en");
    assert_eq!(sensevoice_language("fr"), "auto");
}

#[test]
fn zipformer_and_paraformer_files_are_recognized() {
    let zip = vec![file("tokens.txt"), file("encoder-epoch-99.onnx"), file("decoder-epoch-99.onnx"), file("joiner-epoch-99.onnx")];
    assert!(has_zipformer_files(&zip));
    assert!(has_required_asr_files(&zip));
    assert!(is_valid_asr_model_dir(&zip));
    assert!(!has_paraformer_files(&zip));

    let para = vec![file("tokens.txt"), file("model.int8.onnx")];
    assert!(has_paraformer_files(&para));
    assert!(!has_zipformer_files(&para));
    assert!(is_valid_asr_model_dir(&para));

    let missing_tokens = vec![file("model.onnx")];
    assert!(!is_valid_asr_model_dir(&missing_tokens));
}

#[test]
fn onnx_prefix_needs_a_regular_file() {
    let entries = vec![DirEntryInfo { name: "encoder.onnx".to_string(), is_file: false }];
    assert!(!has_prefix_onnx(&entries, "encoder"));
    let entries = vec![file("encoder.onnx")];
    assert!(has_prefix_onnx(&entries, "encoder"));
    assert!(!has_prefix_onnx(&entries, "decoder"));
}

#[test]
fn chinese_prefers_paraformer_models() {
    let base = dir("/m/asr", "asr", &[], 0);
    let subdirs = vec![
        dir("/m/asr/sherpa-en-zipformer", "sherpa-en-zipformer", &["tokens.txt", "encoder.onnx", "decoder.onnx", "joiner.onnx"], 500),
        dir("/m/asr/paraformer-zh", "paraformer-zh", &["tokens.txt", "model.onnx"], 100),
    ];
    assert_eq!(pick_preferred_asr_model_dir(&base, &subdirs, "zh", None), "/m/asr/paraformer-zh");
    assert_eq!(pick_preferred_asr_model_dir(&base, &subdirs, "fr", None), "/m/asr/sherpa-en-zipformer");
}

#[test]
fn no_usable_model_picks_the_base_directory() {
    let base = dir("/m/asr", "asr", &[], 0);
    let subdirs = vec![dir("/m/asr/empty", "empty", &["readme.txt"], 10)];
    assert_eq!(pick_preferred_asr_model_dir(&base, &subdirs, "en", None), "/m/asr");
}

#[test]
fn resolve_prefers_base_then_largest() {
    let files = ["tokens.txt", "encoder.onnx", "decoder.onnx", "joiner.onnx"];
    let base = dir("/m/asr", "asr", &files, 10);
    assert_eq!(resolve_asr_model_dir(&base, &vec![]), Some("/m/asr".to_string()));
    let base = dir("/m/asr", "asr", &[], 0);
    let subdirs = vec![dir("/m/asr/a", "a", &files, 10), dir("/m/asr/b", "b", &files, 30), dir("/m/asr/c", "c", &files, 30)];
    assert_eq!(resolve_asr_model_dir(&base, &subdirs), Some("/m/asr/b".to_string()));
    assert_eq!(resolve_asr_model_dir(&base, &vec![]), None);
}

#[test]
fn english_only_models_are_detected() {
    let d = dir("/m/asr/sherpa-onnx-streaming-zipformer-en-2023", "sherpa-onnx-streaming-zipformer-en-2023", &[], 0);
    assert!(is_english_only_asr_model(Some(&d)));
    let d = dir("/m/asr/multi", "multi", &["encoder.en.onnx"], 0);
    assert!(is_english_only_asr_model(Some(&d)));
    let d = dir("/m/asr/multi", "multi", &["encoder.onnx"], 0);
    assert!(!is_english_only_asr_model(Some(&d)));
    assert!(!is_english_only_asr_model(None));
}

#[test]
fn test_sensevoice_init() {
    let engine = SenseVoiceEngine::new();
    assert!(engine.model_path.is_none());
    assert!(!engine.initialized);
}

#[test]
fn test_sensevoice_language() {
    let mut engine = SenseVoiceEngine::new();

    engine.set_language("zh");
    assert_eq!(engine.get_language(), Some("zh"));

    engine.set_language("en");
    assert_eq!(engine.get_language(), Some("en"));

    engine.set_language("fr");
    assert_eq!(engine.get_language(), Some("auto"));
}

#[test]
fn test_sensevoice_supported_languages() {
    let engine = SenseVoiceEngine::new();
    let languages = engine.get_supported_languages();

    assert!(languages.contains(&"zh".to_string()));
    assert!(languages.contains(&"en".to_string()));
    assert!(!languages.contains(&"fr".to_string()));
}

#[test]
fn sensevoice_reports_its_model() {
    let engine = SenseVoiceEngine::new();
    let info = engine.get_model_info();
    assert_eq!(info.model_size, "sensevoice-small");
    assert_eq!(info.language_count, 4);
    assert!(info.is_multilingual);
    assert!(!info.is_english_only);
    assert!(!engine.is_gpu_enabled());
    assert_eq!(info.memory_usage_mb, 200);
    assert_eq!(engine.get_language(), None);
    assert!(!SenseVoiceEngine::is_onnx_available());
}

#[test]
fn mock_engine_answers_in_turn() {
    let mut engine = MockAsrEngine::new();
    assert_eq!(engine.transcribe_streaming(), "正在识别...");
    assert_eq!(engine.transcribe(), "这是模拟的语音识别结果。");
    assert_eq!(engine.transcribe(), "Hello, this is a mock transcription.");
    assert_eq!(engine.transcribe_streaming(), "Processing...");
    assert_eq!(engine.transcribe(), "今天天气很好，适合出门散步。");
    assert_eq!(engine.transcribe(), "The quick brown fox jumps over the lazy dog.");
    assert_eq!(engine.transcribe(), "欢迎使用实时语音翻译系统。");
    assert_eq!(engine.transcribe(), "这是模拟的语音识别结果。");
    assert_eq!(engine.call_count, 6);
    engine.reset();
    assert_eq!(engine.call_count, 0);
    assert_eq!(engine.transcribe(), "这是模拟的语音识别结果。");
}

#[test]
fn mock_engine_counter_wraps() {
    let mut engine = MockAsrEngine::new();
    engine.call_count = u64::MAX;
    // u64::MAX % 5 == 0
    assert_eq!(engine.transcribe(), "这是模拟的语音识别结果。");
    assert_eq!(engine.call_count, 0);
}

#[test]
fn mock_engine_language() {
    let mut engine = MockAsrEngine::new();
    assert_eq!(engine.get_language(), None);
    assert_eq!(engine.transcription_language(), "zh");
    engine.set_language("fr");
    assert_eq!(engine.get_language(), Some("fr"));
    assert_eq!(engine.transcription_language(), "fr");
    assert_eq!(engine.get_supported_languages(), vec!["zh".to_string(), "en".to_string(), "ja".to_string()]);
    assert!(!engine.is_gpu_enabled());
    let info = engine.get_model_info();
    assert_eq!(info.model_size, "mock");
    assert_eq!(info.language_count, 3);
    assert_eq!(info.memory_usage_mb, 10);
}

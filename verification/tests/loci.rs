use localtrans::loci_text::{
    build_translation_prompt, clean_translation_output, looks_corrupted, normalize_for_compare,
    normalize_lang_name, trim_repetition_tail,
};
use localtrans::loci_translator::{decide_attempt, AttemptDecision, LociTranslator};
use localtrans::wer::{levenshtein_words, normalize_text, word_distance};
use localtrans::loci_runtime::{find_default_loci_model, has_gguf_extension, ModelFileInfo};

#[test]
fn test_build_prompt() {
    let prompt = build_translation_prompt("Hello", "English", "Chinese");
    assert!(prompt.contains("Hello"));
    assert!(prompt.contains("professional translation engine"));
}

#[test]
fn test_clean_output() {
    let out = clean_translation_output("Translation: 你好世界", "", "zh");
    assert_eq!(out, "你好世界");

    let out = clean_translation_output(
        "会议明天上午9:30开始，请携带身份证。 Translation: 会议明天上午9:30开始，请携带身份证。",
        "",
        "zh",
    );
    assert_eq!(out, "会议明天上午9:30开始，请携带身份证。");
}

#[test]
fn test_corrupted_detection() {
    assert!(looks_corrupted("{|<__*/", "zh"));
    assert!(!looks_corrupted("你好，世界", "zh"));
    assert!(looks_corrupted("abc{||//__", "en"));
}

#[test]
fn prompt_names_the_languages() {
    let prompt = build_translation_prompt("Hi", "en", "zh-CN");
    assert!(prompt.starts_with("You are a professional translation engine.\nTranslate from English to Chinese (Simplified).\n"));
    assert!(prompt.ends_with("Source text:\nHi\nTranslation:"));
    assert_eq!(normalize_lang_name("ZH-TW"), "Chinese (Traditional)");
    assert_eq!(normalize_lang_name("xx"), "the target language");
}

#[test]
fn compare_key_drops_spacing_punctuation_and_case() {
    assert_eq!(normalize_for_compare("Hello, World!"), "helloworld");
    assert_eq!(normalize_for_compare("  ..  "), "");
}

#[test]
fn clean_output_drops_echo_and_chatter() {
    let raw = "<|im_start|>assistant\nHello world.\n你好，世界。";
    assert_eq!(clean_translation_output(raw, "Hello world.", "zh"), "你好，世界。");
    let raw = "```\n\"Bonjour\"\n```";
    assert_eq!(clean_translation_output(raw, "Hello", "fr"), "Bonjour");
}

#[test]
fn clean_output_falls_back_to_the_output_when_everything_echoes() {
    assert_eq!(clean_translation_output("\"Hello\"", "hello", "zh"), "Hello");
}

#[test]
fn clean_output_keeps_one_sentence_per_source_sentence() {
    let out = clean_translation_output("你好。你好。再见。", "Hello.", "zh");
    assert_eq!(out, "你好。");
    let out = clean_translation_output("你好。你好。再见。", "Hello. Bye.", "zh");
    assert_eq!(out, "你好。 再见。");
}

#[test]
fn repetition_tail_is_trimmed() {
    assert_eq!(trim_repetition_tail("  A. A. B. C.", "x. y."), "A. B.");
    assert_eq!(trim_repetition_tail("no terminator", ""), "no terminator");
    assert_eq!(trim_repetition_tail("   ", "a."), "");
}

#[test]
fn english_target_needs_letters() {
    assert!(looks_corrupted("1234567", "en-US"));
    assert!(!looks_corrupted("Good morning", "en"));
    assert!(looks_corrupted("   ", "fr"));
    assert!(looks_corrupted("a%%%%%b", "fr"));
}

#[test]
fn attempt_decisions() {
    assert!(matches!(decide_attempt(0, "{|<__*/", "hello", "zh"), AttemptDecision::RetryGarbled));
    assert!(matches!(decide_attempt(1, "{|<__*/", "hello", "zh"), AttemptDecision::AcceptLowQuality));
    assert!(matches!(decide_attempt(0, "Hello!", "hello", "en"), AttemptDecision::RetryEcho));
    assert!(matches!(decide_attempt(1, "Hello!", "hello", "en"), AttemptDecision::Accept));
    assert!(matches!(decide_attempt(0, "你好", "hello", "zh"), AttemptDecision::Accept));
}

#[test]
fn circuit_opens_after_three_failures() {
    let mut t = LociTranslator::new();
    assert!(!t.circuit_open(0));
    t.on_failure(1000);
    t.on_failure(2000);
    assert!(!t.circuit_open(2000));
    t.on_failure(3000);
    assert_eq!(t.consecutive_failures, 0);
    assert_eq!(t.circuit_open_until, Some(303000));
    assert!(t.circuit_open(300000));
    assert!(!t.circuit_open(303000));
    t.on_success();
    assert!(!t.circuit_open(3001));
}

#[test]
fn loci_backend_is_missing_in_this_build() {
    let r = LociTranslator::init("/models/x.gguf");
    assert_eq!(r.err(), Some("loci-backend feature is not enabled".to_string()));
    let t = LociTranslator::new();
    let langs = t.get_supported_languages();
    assert_eq!(langs.len(), 8);
    assert_eq!(langs[1], ("zh".to_string(), "Chinese".to_string()));
}

#[test]
fn word_distances() {
    assert_eq!(levenshtein_words(&["a", "b", "c"], &["a", "x", "c"]), 1);
    assert_eq!(levenshtein_words(&["a", "b"], &[]), 2);
    assert_eq!(levenshtein_words(&[], &["a"]), 1);
    assert_eq!(levenshtein_words(&["kitten", "sat"], &["kitten", "sat"]), 0);
    assert_eq!(levenshtein_words(&["a", "b", "c", "d"], &["b", "c", "d", "e"]), 2);
}

#[test]
fn normalized_text_and_word_distance() {
    assert_eq!(normalize_text("Hello, World!"), "hello  world ");
    assert_eq!(word_distance("Hello, world!", "hello there world"), (1, 2));
    assert_eq!(word_distance("", "x"), (1, 0));
}

fn model_file(path: &str, name: &str, size: u64) -> ModelFileInfo {
    ModelFileInfo { path: path.to_string(), name: name.to_string(), size }
}

#[test]
fn gguf_extension_follows_path_rules() {
    assert!(has_gguf_extension("model.gguf"));
    assert!(has_gguf_extension("Model.GGUF"));
    assert!(has_gguf_extension("a.b.gguf"));
    assert!(!has_gguf_extension(".gguf"));
    assert!(!has_gguf_extension("model.gguf.part"));
    assert!(!has_gguf_extension("gguf"));
}

#[test]
fn default_model_is_first_largest_gguf() {
    let entries = vec![
        model_file("m/small.gguf", "small.gguf", 5),
        model_file("m/big.bin", "big.bin", 500),
        model_file("m/first.GGUF", "first.GGUF", 40),
        model_file("m/second.gguf", "second.gguf", 40),
        model_file("m/.gguf", ".gguf", 90),
    ];
    assert_eq!(find_default_loci_model(&entries).as_deref(), Some("m/first.GGUF"));
    assert_eq!(find_default_loci_model(&vec![model_file("m/x.txt", "x.txt", 1)]), None);
    assert_eq!(find_default_loci_model(&Vec::new()), None);
}

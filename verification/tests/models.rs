use localtrans::asr_models::DirEntryInfo;
use localtrans::error::AppError;
use localtrans::models::{
    asr_placeholder, file_stem_of, has_extension_ci, has_ready_model, list_asr_models,
    list_loci_models, list_mt_models, list_tts_models, loci_placeholder, model_path_to_delete,
    models_of_type, tts_placeholder, ListedDir, ListedFile, ModelInfo,
};

fn file(path: &str, name: &str, is_file: bool, size: &str) -> ListedFile {
    ListedFile { path: path.to_string(), name: name.to_string(), is_file, size: size.to_string() }
}

fn entry(name: &str) -> DirEntryInfo {
    DirEntryInfo { name: name.to_string(), is_file: true }
}

#[test]
fn file_names_and_extensions() {
    assert!(has_extension_ci("voice.ONNX", "onnx"));
    assert!(has_extension_ci("a.b.gguf", "GGUF"));
    assert!(!has_extension_ci(".onnx", "onnx"));
    assert!(!has_extension_ci("onnx", "onnx"));
    assert!(!has_extension_ci("voice.onnx.json", "onnx"));
    assert_eq!(file_stem_of("zh_CN-huayan.onnx"), "zh_CN-huayan");
    assert_eq!(file_stem_of("a.b.onnx"), "a.b");
    assert_eq!(file_stem_of(".hidden"), ".hidden");
    assert_eq!(file_stem_of("plain"), "plain");
}

#[test]
fn loci_models_listing() {
    let entries = vec![
        file("L/q.gguf", "q.gguf", true, "1.0 GB"),
        file("L/readme.txt", "readme.txt", true, "1 B"),
        file("L/dir.gguf", "dir.gguf", false, "0 B"),
        file("L/R.GGUF", "R.GGUF", true, "2.0 KB"),
    ];
    let models = list_loci_models("L", &entries);
    assert_eq!(models.len(), 2);
    assert_eq!(models[0].id, "loci:q.gguf");
    assert_eq!(models[0].name, "q.gguf");
    assert_eq!(models[0].model_type, "loci");
    assert_eq!(models[0].size, "1.0 GB");
    assert_eq!(models[0].status, "ready");
    assert_eq!(models[0].path.as_deref(), Some("L/q.gguf"));
    assert_eq!(models[0].download_url, None);
    assert_eq!(models[1].id, "loci:R.GGUF");

    let empty = list_loci_models("L", &vec![file("L/x.bin", "x.bin", true, "1 B")]);
    assert_eq!(empty.len(), 1);
    assert_eq!(empty[0].id, "loci:gguf");
    assert_eq!(empty[0].status, "not_downloaded");
    assert_eq!(empty[0].path.as_deref(), Some("L"));
    assert_eq!(empty[0].download_url.as_deref(), Some("https://huggingface.co/models?library=gguf&sort=downloads"));
    assert_eq!(loci_placeholder("L").id, "loci:gguf");
}

#[test]
fn tts_models_listing() {
    let sherpa = vec![entry("model.onnx"), entry("tokens.txt"), entry("lexicon.txt")];
    let piper = vec![file("P/zh.onnx", "zh.onnx", true, "60.0 MB"), file("P/zh.onnx.json", "zh.onnx.json", true, "5 KB")];
    let models = list_tts_models("S", &sherpa, "150.0 MB", &piper);
    assert_eq!(models.len(), 2);
    assert_eq!(models[0].id, "tts:sherpa-melo-local");
    assert_eq!(models[0].name, "Sherpa Melo 离线音色（本地已就绪）");
    assert_eq!(models[0].size, "150.0 MB");
    assert_eq!(models[0].path.as_deref(), Some("S"));
    assert_eq!(models[1].id, "tts:zh");
    assert_eq!(models[1].name, "zh");
    assert_eq!(models[1].path.as_deref(), Some("P/zh.onnx"));

    let none = list_tts_models("S", &vec![entry("tokens.txt")], "1 B", &Vec::new());
    assert_eq!(none.len(), 1);
    assert_eq!(none[0].id, "tts:sherpa-melo");
    assert_eq!(none[0].size, "~100 MB");
    assert_eq!(none[0].path.as_deref(), Some("S"));
    assert_eq!(tts_placeholder("S").name, "Sherpa Melo 离线 TTS（推荐）");
}

#[test]
fn asr_models_listing() {
    let base = vec![entry("tokens.txt"), entry("model.int8.onnx")];
    let sub = vec![
        ListedDir {
            path: "A/zip".to_string(),
            name: "zip".to_string(),
            entries: vec![entry("tokens.txt"), entry("encoder-epoch.onnx"), entry("decoder-epoch.onnx"), entry("joiner-epoch.onnx")],
            size: "300.0 MB".to_string(),
        },
        ListedDir { path: "A/empty".to_string(), name: "empty".to_string(), entries: Vec::new(), size: "0 B".to_string() },
    ];
    let models = list_asr_models("A", &base, "200.0 MB", &sub);
    assert_eq!(models.len(), 2);
    assert_eq!(models[0].id, "asr:default");
    assert_eq!(models[0].name, "ASR (sherpa，本地已就绪)");
    assert_eq!(models[0].path.as_deref(), Some("A"));
    assert_eq!(models[1].id, "asr:zip");
    assert_eq!(models[1].size, "300.0 MB");

    let none = list_asr_models("A", &Vec::new(), "0 B", &Vec::new());
    assert_eq!(none.len(), 1);
    assert_eq!(none[0].id, "asr:sherpa-multi-zipformer");
    assert_eq!(asr_placeholder("A").size, "~300-600 MB");
}

#[test]
fn catalogue_queries_and_deletion_target() {
    let mut all: Vec<ModelInfo> = list_mt_models("M");
    all.extend(list_loci_models("L", &vec![file("L/q.gguf", "q.gguf", true, "1 B")]));
    assert_eq!(all.len(), 3);
    assert_eq!(all[0].id, "mt:builtin");
    assert_eq!(all[1].id, "mt:nllb");
    assert!(has_ready_model("loci", &all).unwrap());
    assert!(!has_ready_model("tts", &all).unwrap());
    assert_eq!(models_of_type(&all, "mt").len(), 2);

    assert_eq!(model_path_to_delete(&all, "loci:q.gguf").unwrap(), "L/q.gguf");
    assert_eq!(model_path_to_delete(&all, "mt:nllb").unwrap(), "M");
    match model_path_to_delete(&all, "tts:none") {
        Err(AppError::NotFound(m)) => assert_eq!(m, "Model not found"),
        other => panic!("unexpected {:?}", other.is_ok()),
    }
    all[2].path = None;
    match model_path_to_delete(&all, "loci:q.gguf") {
        Err(AppError::InvalidPath(m)) => assert_eq!(m, "Model path is not available"),
        other => panic!("unexpected {:?}", other.is_ok()),
    }
}

//! Speech recognition vocabulary: Whisper model sizes and the languages
//! Whisper recognizes, plus the configuration records of the ASR engines.
use vstd::prelude::*;

use crate::text::{chars_eq_str, chars_of, owned, push_str, seq_eq};

verus! {

/// Whisper model size variants.
#[derive(Clone, Copy, PartialEq, Eq, Structural, Debug, Default)]
pub enum ModelSize {
    Tiny,
    TinyEn,
    #[default]
    Base,
    BaseEn,
    Small,
    SmallEn,
    Medium,
    MediumEn,
    LargeV1,
    LargeV2,
    LargeV3,
}

/// The ggml file name of a model size: it depends on the size alone.
pub open spec fn model_file_name(size: ModelSize) -> Seq<char> {
    match size {
        ModelSize::Tiny => "ggml-tiny.bin"@,
        ModelSize::TinyEn => "ggml-tiny.en.bin"@,
        ModelSize::Base => "ggml-base.bin"@,
        ModelSize::BaseEn => "ggml-base.en.bin"@,
        ModelSize::Small => "ggml-small.bin"@,
        ModelSize::SmallEn => "ggml-small.en.bin"@,
        ModelSize::Medium => "ggml-medium.bin"@,
        ModelSize::MediumEn => "ggml-medium.en.bin"@,
        ModelSize::LargeV1 => "ggml-large-v1.bin"@,
        ModelSize::LargeV2 => "ggml-large-v2.bin"@,
        ModelSize::LargeV3 => "ggml-large-v3.bin"@,
    }
}

/// Estimated memory need of a model size, in MB.
pub open spec fn model_memory_mb(size: ModelSize) -> usize {
    match size {
        ModelSize::Tiny | ModelSize::TinyEn => 150,
        ModelSize::Base | ModelSize::BaseEn => 250,
        ModelSize::Small | ModelSize::SmallEn => 500,
        ModelSize::Medium | ModelSize::MediumEn => 1500,
        ModelSize::LargeV1 | ModelSize::LargeV2 | ModelSize::LargeV3 => 3000,
    }
}

impl ModelSize {
    /// The ggml file name of this model size (see [`model_file_name`]).
    pub fn model_filename(self) -> (s: String)
        ensures
            s@ == model_file_name(self),
    {
        match self {
            ModelSize::Tiny => owned("ggml-tiny.bin"),
            ModelSize::TinyEn => owned("ggml-tiny.en.bin"),
            ModelSize::Base => owned("ggml-base.bin"),
            ModelSize::BaseEn => owned("ggml-base.en.bin"),
            ModelSize::Small => owned("ggml-small.bin"),
            ModelSize::SmallEn => owned("ggml-small.en.bin"),
            ModelSize::Medium => owned("ggml-medium.bin"),
            ModelSize::MediumEn => owned("ggml-medium.en.bin"),
            ModelSize::LargeV1 => owned("ggml-large-v1.bin"),
            ModelSize::LargeV2 => owned("ggml-large-v2.bin"),
            ModelSize::LargeV3 => owned("ggml-large-v3.bin"),
        }
    }

    /// Estimated memory need of this model size, in MB.
    pub fn estimated_memory_mb(self) -> (mb: usize)
        ensures
            mb == model_memory_mb(self),
    {
        match self {
            ModelSize::Tiny | ModelSize::TinyEn => 150,
            ModelSize::Base | ModelSize::BaseEn => 250,
            ModelSize::Small | ModelSize::SmallEn => 500,
            ModelSize::Medium | ModelSize::MediumEn => 1500,
            ModelSize::LargeV1 | ModelSize::LargeV2 | ModelSize::LargeV3 => 3000,
        }
    }
}

/// The download URL of a ggml model file.
pub fn model_download_url(filename: &str) -> (url: String)
    ensures
        url@ == "https://huggingface.co/ggerganov/whisper.cpp/resolve/main/"@ + filename@,
{
    let mut url = owned("https://huggingface.co/ggerganov/whisper.cpp/resolve/main/");
    push_str(&mut url, filename);
    url
}

/// The number of languages Whisper recognizes.
pub const LANGUAGE_COUNT: usize = 100;

/// Entry `i` of the table of languages Whisper recognizes, as (code, English name).
pub open spec fn language_entry(i: usize) -> (Seq<char>, Seq<char>) {
    match i {
        0 => ("en"@, "English"@),
        1 => ("zh"@, "Chinese"@),
        2 => ("de"@, "German"@),
        3 => ("es"@, "Spanish"@),
        4 => ("ru"@, "Russian"@),
        5 => ("ko"@, "Korean"@),
        6 => ("fr"@, "French"@),
        7 => ("ja"@, "Japanese"@),
        8 => ("pt"@, "Portuguese"@),
        9 => ("tr"@, "Turkish"@),
        10 => ("pl"@, "Polish"@),
        11 => ("ca"@, "Catalan"@),
        12 => ("nl"@, "Dutch"@),
        13 => ("ar"@, "Arabic"@),
        14 => ("sv"@, "Swedish"@),
        15 => ("it"@, "Italian"@),
        16 => ("id"@, "Indonesian"@),
        17 => ("hi"@, "Hindi"@),
        18 => ("fi"@, "Finnish"@),
        19 => ("vi"@, "Vietnamese"@),
        20 => ("he"@, "Hebrew"@),
        21 => ("uk"@, "Ukrainian"@),
        22 => ("el"@, "Greek"@),
        23 => ("ms"@, "Malay"@),
        24 => ("cs"@, "Czech"@),
        25 => ("ro"@, "Romanian"@),
        26 => ("da"@, "Danish"@),
        27 => ("hu"@, "Hungarian"@),
        28 => ("ta"@, "Tamil"@),
        29 => ("no"@, "Norwegian"@),
        30 => ("th"@, "Thai"@),
        31 => ("ur"@, "Urdu"@),
        32 => ("hr"@, "Croatian"@),
        33 => ("bg"@, "Bulgarian"@),
        34 => ("lt"@, "Lithuanian"@),
        35 => ("la"@, "Latin"@),
        36 => ("mi"@, "Maori"@),
        37 => ("ml"@, "Malayalam"@),
        38 => ("cy"@, "Welsh"@),
        39 => ("sk"@, "Slovak"@),
        40 => ("te"@, "Telugu"@),
        41 => ("fa"@, "Persian"@),
        42 => ("lv"@, "Latvian"@),
        43 => ("bn"@, "Bengali"@),
        44 => ("sr"@, "Serbian"@),
        45 => ("az"@, "Azerbaijani"@),
        46 => ("sl"@, "Slovenian"@),
        47 => ("kn"@, "Kannada"@),
        48 => ("et"@, "Estonian"@),
        49 => ("mk"@, "Macedonian"@),
        50 => ("br"@, "Breton"@),
        51 => ("eu"@, "Basque"@),
        52 => ("is"@, "Icelandic"@),
        53 => ("hy"@, "Armenian"@),
        54 => ("ne"@, "Nepali"@),
        55 => ("mn"@, "Mongolian"@),
        56 => ("bs"@, "Bosnian"@),
        57 => ("kk"@, "Kazakh"@),
        58 => ("sq"@, "Albanian"@),
        59 => ("sw"@, "Swahili"@),
        60 => ("gl"@, "Galician"@),
        61 => ("mr"@, "Marathi"@),
        62 => ("pa"@, "Punjabi"@),
        63 => ("si"@, "Sinhala"@),
        64 => ("km"@, "Khmer"@),
        65 => ("sn"@, "Shona"@),
        66 => ("yo"@, "Yoruba"@),
        67 => ("so"@, "Somali"@),
        68 => ("af"@, "Afrikaans"@),
        69 => ("oc"@, "Occitan"@),
        70 => ("ka"@, "Georgian"@),
        71 => ("be"@, "Belarusian"@),
        72 => ("tg"@, "Tajik"@),
        73 => ("sd"@, "Sindhi"@),
        74 => ("gu"@, "Gujarati"@),
        75 => ("am"@, "Amharic"@),
        76 => ("yi"@, "Yiddish"@),
        77 => ("lo"@, "Lao"@),
        78 => ("uz"@, "Uzbek"@),
        79 => ("fo"@, "Faroese"@),
        80 => ("ht"@, "Haitian Creole"@),
        81 => ("ps"@, "Pashto"@),
        82 => ("tk"@, "Turkmen"@),
        83 => ("nn"@, "Nynorsk"@),
        84 => ("mt"@, "Maltese"@),
        85 => ("sa"@, "Sanskrit"@),
        86 => ("lb"@, "Luxembourgish"@),
        87 => ("my"@, "Myanmar"@),
        88 => ("bo"@, "Tibetan"@),
        89 => ("tl"@, "Tagalog"@),
        90 => ("mg"@, "Malagasy"@),
        91 => ("as"@, "Assamese"@),
        92 => ("tt"@, "Tatar"@),
        93 => ("haw"@, "Hawaiian"@),
        94 => ("ln"@, "Lingala"@),
        95 => ("ha"@, "Hausa"@),
        96 => ("ba"@, "Bashkir"@),
        97 => ("jw"@, "Javanese"@),
        98 => ("su"@, "Sundanese"@),
        99 => ("yue"@, "Cantonese"@),
        _ => (""@, ""@),
    }
}

/// The languages Whisper recognizes, as (code, English name), in table order.
pub open spec fn language_table() -> Seq<(Seq<char>, Seq<char>)> {
    Seq::new(LANGUAGE_COUNT as nat, |i: int| language_entry(i as usize))
}

/// Entry `i` of the language table.
pub fn language_at(i: usize) -> (r: (&'static str, &'static str))
    requires
        i < LANGUAGE_COUNT,
    ensures
        (r.0@, r.1@) == language_entry(i),
{
    match i {
        0 => ("en", "English"),
        1 => ("zh", "Chinese"),
        2 => ("de", "German"),
        3 => ("es", "Spanish"),
        4 => ("ru", "Russian"),
        5 => ("ko", "Korean"),
        6 => ("fr", "French"),
        7 => ("ja", "Japanese"),
        8 => ("pt", "Portuguese"),
        9 => ("tr", "Turkish"),
        10 => ("pl", "Polish"),
        11 => ("ca", "Catalan"),
        12 => ("nl", "Dutch"),
        13 => ("ar", "Arabic"),
        14 => ("sv", "Swedish"),
        15 => ("it", "Italian"),
        16 => ("id", "Indonesian"),
        17 => ("hi", "Hindi"),
        18 => ("fi", "Finnish"),
        19 => ("vi", "Vietnamese"),
        20 => ("he", "Hebrew"),
        21 => ("uk", "Ukrainian"),
        22 => ("el", "Greek"),
        23 => ("ms", "Malay"),
        24 => ("cs", "Czech"),
        25 => ("ro", "Romanian"),
        26 => ("da", "Danish"),
        27 => ("hu", "Hungarian"),
        28 => ("ta", "Tamil"),
        29 => ("no", "Norwegian"),
        30 => ("th", "Thai"),
        31 => ("ur", "Urdu"),
        32 => ("hr", "Croatian"),
        33 => ("bg", "Bulgarian"),
        34 => ("lt", "Lithuanian"),
        35 => ("la", "Latin"),
        36 => ("mi", "Maori"),
        37 => ("ml", "Malayalam"),
        38 => ("cy", "Welsh"),
        39 => ("sk", "Slovak"),
        40 => ("te", "Telugu"),
        41 => ("fa", "Persian"),
        42 => ("lv", "Latvian"),
        43 => ("bn", "Bengali"),
        44 => ("sr", "Serbian"),
        45 => ("az", "Azerbaijani"),
        46 => ("sl", "Slovenian"),
        47 => ("kn", "Kannada"),
        48 => ("et", "Estonian"),
        49 => ("mk", "Macedonian"),
        50 => ("br", "Breton"),
        51 => ("eu", "Basque"),
        52 => ("is", "Icelandic"),
        53 => ("hy", "Armenian"),
        54 => ("ne", "Nepali"),
        55 => ("mn", "Mongolian"),
        56 => ("bs", "Bosnian"),
        57 => ("kk", "Kazakh"),
        58 => ("sq", "Albanian"),
        59 => ("sw", "Swahili"),
        60 => ("gl", "Galician"),
        61 => ("mr", "Marathi"),
        62 => ("pa", "Punjabi"),
        63 => ("si", "Sinhala"),
        64 => ("km", "Khmer"),
        65 => ("sn", "Shona"),
        66 => ("yo", "Yoruba"),
        67 => ("so", "Somali"),
        68 => ("af", "Afrikaans"),
        69 => ("oc", "Occitan"),
        70 => ("ka", "Georgian"),
        71 => ("be", "Belarusian"),
        72 => ("tg", "Tajik"),
        73 => ("sd", "Sindhi"),
        74 => ("gu", "Gujarati"),
        75 => ("am", "Amharic"),
        76 => ("yi", "Yiddish"),
        77 => ("lo", "Lao"),
        78 => ("uz", "Uzbek"),
        79 => ("fo", "Faroese"),
        80 => ("ht", "Haitian Creole"),
        81 => ("ps", "Pashto"),
        82 => ("tk", "Turkmen"),
        83 => ("nn", "Nynorsk"),
        84 => ("mt", "Maltese"),
        85 => ("sa", "Sanskrit"),
        86 => ("lb", "Luxembourgish"),
        87 => ("my", "Myanmar"),
        88 => ("bo", "Tibetan"),
        89 => ("tl", "Tagalog"),
        90 => ("mg", "Malagasy"),
        91 => ("as", "Assamese"),
        92 => ("tt", "Tatar"),
        93 => ("haw", "Hawaiian"),
        94 => ("ln", "Lingala"),
        95 => ("ha", "Hausa"),
        96 => ("ba", "Bashkir"),
        97 => ("jw", "Javanese"),
        98 => ("su", "Sundanese"),
        99 => ("yue", "Cantonese"),
        _ => ("", ""),
    }
}

/// The position of the first table entry with this code, if any.
pub open spec fn first_language_index(code: Seq<char>, i: int) -> bool {
    &&& 0 <= i < language_table().len()
    &&& language_table()[i].0 == code
    &&& forall|j: int| 0 <= j < i ==> language_table()[j].0 != code
}

/// Whether `code` is a supported language code.
pub open spec fn language_supported(code: Seq<char>) -> bool {
    exists|i: int| 0 <= i < language_table().len() && language_table()[i].0 == code
}

fn find_language(code: &str) -> (r: Option<usize>)
    ensures
        match r {
            Some(i) => first_language_index(code@, i as int),
            None => !language_supported(code@),
        },
{
    let c = chars_of(code);
    let mut i: usize = 0;
    while i < LANGUAGE_COUNT
        invariant
            c@ == code@,
            i <= LANGUAGE_COUNT,
            forall|j: int| 0 <= j < i ==> language_table()[j].0 != code@,
        decreases LANGUAGE_COUNT - i,
    {
        let entry = chars_of(language_at(i).0);
        if seq_eq(&entry, &c) {
            return Some(i);
        }
        i = i + 1;
    }
    None
}

/// Check if a language code is supported.
pub fn is_language_supported(lang: &str) -> (b: bool)
    ensures
        b == language_supported(lang@),
{
    find_language(lang).is_some()
}

/// The name of the language with this code, if it is supported.
pub fn get_language_name(code: &str) -> (r: Option<&'static str>)
    ensures
        match r {
            Some(name) => exists|i: int| first_language_index(code@, i) && language_table()[i].1 == name@,
            None => !language_supported(code@),
        },
{
    match find_language(code) {
        Some(i) => {
            Some(language_at(i).1)
        },
        None => None,
    }
}

/// ASR module specific errors.
pub enum AsrError {
    ModelNotFound(std::path::PathBuf),
    InitializationFailed(String),
    TranscriptionFailed(String),
    InvalidAudioFormat(String),
    DownloadFailed(String),
    GpuNotAvailable(String),
    UnsupportedLanguage(String),
    StreamingError(String),
}

/// `std::path::PathBuf`, carried through as an opaque value: nothing is
/// claimed of what it holds.
#[verifier::external_type_specification]
#[verifier::external_body]
pub struct ExPathBuf(std::path::PathBuf);

/// Information about a loaded model.
pub struct ModelInfo {
    pub model_size: String,
    pub language_count: usize,
    pub is_multilingual: bool,
    pub is_english_only: bool,
    pub gpu_enabled: bool,
    pub memory_usage_mb: usize,
}

/// Whisper-specific error type.
pub enum WhisperError {
    ModelLoadFailed(String),
    TranscriptionFailed(String),
    InvalidAudio(String),
    NotInitialized,
}

/// The message of a Whisper error (what `Display` prints).
pub open spec fn whisper_error_message(e: WhisperError) -> Seq<char> {
    match e {
        WhisperError::ModelLoadFailed(m) => "Model load failed: "@ + m@,
        WhisperError::TranscriptionFailed(m) => "Transcription failed: "@ + m@,
        WhisperError::InvalidAudio(m) => "Invalid audio: "@ + m@,
        WhisperError::NotInitialized => "Engine not initialized"@,
    }
}

impl WhisperError {
    /// The message of the error (what `Display` prints).
    pub fn to_string(&self) -> (s: String)
        ensures
            s@ == whisper_error_message(*self),
    {
        match self {
            WhisperError::ModelLoadFailed(m) => {
                let mut s = owned("Model load failed: ");
                push_str(&mut s, m.as_str());
                s
            },
            WhisperError::TranscriptionFailed(m) => {
                let mut s = owned("Transcription failed: ");
                push_str(&mut s, m.as_str());
                s
            },
            WhisperError::InvalidAudio(m) => {
                let mut s = owned("Invalid audio: ");
                push_str(&mut s, m.as_str());
                s
            },
            WhisperError::NotInitialized => owned("Engine not initialized"),
        }
    }
}

/// SenseVoice engine configuration.
pub struct SenseVoiceConfig {
    /// Path to the ONNX model
    pub model_path: String,
    /// Number of inference threads
    pub num_threads: usize,
    /// Enable GPU acceleration
    pub use_gpu: bool,
    /// Execution provider ("cpu", "cuda", "dml")
    pub execution_provider: String,
}

impl Default for SenseVoiceConfig {
    fn default() -> (c: Self)
        ensures
            c.model_path@.len() == 0,
            c.num_threads == 4,
            !c.use_gpu,
            c.execution_provider@ == "cpu"@,
    {
        SenseVoiceConfig {
            model_path: String::new(),
            num_threads: 4,
            use_gpu: false,
            execution_provider: owned("cpu"),
        }
    }
}

/// The language SenseVoice runs with when asked for `lang`: one of its own
/// (`zh`, `en`, `ja`, `ko`, `auto`), or else auto-detection.
pub open spec fn sensevoice_language_for(lang: Seq<char>) -> Seq<char> {
    if lang == "zh"@ || lang == "en"@ || lang == "ja"@ || lang == "ko"@ || lang == "auto"@ {
        lang
    } else {
        "auto"@
    }
}

/// The language SenseVoice runs with when asked for `lang`.
pub fn sensevoice_language(lang: &str) -> (s: String)
    ensures
        s@ == sensevoice_language_for(lang@),
{
    let l = chars_of(lang);
    if chars_eq_str(&l, "zh") || chars_eq_str(&l, "en") || chars_eq_str(&l, "ja")
        || chars_eq_str(&l, "ko") || chars_eq_str(&l, "auto") {
        owned(lang)
    } else {
        owned("auto")
    }
}

/// The SenseVoice engine's state that the library reads: the model it was
/// loaded from, the language it runs with, and whether it is initialized. The
/// audio it buffers for streaming is float data and stays with the audio path.
pub struct SenseVoiceEngine {
    pub model_path: Option<String>,
    pub language: Option<String>,
    pub initialized: bool,
}

impl SenseVoiceEngine {
    /// A fresh engine: no model, no language, not initialized.
    pub fn new() -> (e: Self)
        ensures
            e.model_path is None,
            e.language is None,
            !e.initialized,
    {
        SenseVoiceEngine { model_path: None, language: None, initialized: false }
    }

    /// ONNX Runtime is not part of this build.
    pub fn is_onnx_available() -> (b: bool)
        ensures
            !b,
    {
        false
    }

    /// Selects the language: one SenseVoice supports, or auto-detection.
    pub fn set_language(&mut self, lang: &str)
        ensures
            final(self).language matches Some(l) && l@ == sensevoice_language_for(lang@),
            final(self).model_path == old(self).model_path,
            final(self).initialized == old(self).initialized,
    {
        self.language = Some(sensevoice_language(lang));
    }

    /// The language the engine runs with, if one was set.
    pub fn get_language(&self) -> (r: Option<&str>)
        ensures
            match (r, self.language) {
                (Some(a), Some(b)) => a@ == b@,
                (None, None) => true,
                _ => false,
            },
    {
        match &self.language {
            Some(l) => Some(l.as_str()),
            None => None,
        }
    }

    /// The languages SenseVoice recognizes: `zh`, `en`, `ja`, `ko`.
    pub fn get_supported_languages(&self) -> (v: Vec<String>)
        ensures
            v@.len() == 4,
            v@[0]@ == "zh"@,
            v@[1]@ == "en"@,
            v@[2]@ == "ja"@,
            v@[3]@ == "ko"@,
    {
        let mut v: Vec<String> = Vec::new();
        v.push(owned("zh"));
        v.push(owned("en"));
        v.push(owned("ja"));
        v.push(owned("ko"));
        v
    }

    /// No GPU provider is used.
    pub fn is_gpu_enabled(&self) -> (b: bool)
        ensures
            !b,
    {
        false
    }

    /// What the engine reports of its model.
    pub fn get_model_info(&self) -> (m: ModelInfo)
        ensures
            m.model_size@ == "sensevoice-small"@,
            m.language_count == 4,
            m.is_multilingual,
            !m.is_english_only,
            !m.gpu_enabled,
            m.memory_usage_mb == 200,
    {
        ModelInfo {
            model_size: owned("sensevoice-small"),
            language_count: 4,
            is_multilingual: true,
            is_english_only: false,
            gpu_enabled: false,
            memory_usage_mb: 200,
        }
    }
}

/// The text the mock engine gives for its `i`-th transcription (taken modulo
/// five).
pub open spec fn mock_text(i: int) -> Seq<char> {
    if i == 0 {
        "这是模拟的语音识别结果。"@
    } else if i == 1 {
        "Hello, this is a mock transcription."@
    } else if i == 2 {
        "今天天气很好，适合出门散步。"@
    } else if i == 3 {
        "The quick brown fox jumps over the lazy dog."@
    } else {
        "欢迎使用实时语音翻译系统。"@
    }
}

/// The partial text the mock engine shows after `i` transcriptions (taken
/// modulo four).
pub open spec fn mock_partial_text(i: int) -> Seq<char> {
    if i == 0 {
        "正在识别..."@
    } else if i == 1 {
        "识别中..."@
    } else if i == 2 {
        "Processing..."@
    } else {
        "听取中..."@
    }
}

/// The mock ASR engine for development: it answers each call with the next of
/// five fixed texts. The timing and confidence of its segments are float data
/// and stay with the audio path.
pub struct MockAsrEngine {
    pub language: Option<String>,
    pub call_count: u64,
}

impl MockAsrEngine {
    /// A fresh mock engine: no language, no call counted.
    pub fn new() -> (e: Self)
        ensures
            e.language is None,
            e.call_count == 0,
    {
        MockAsrEngine { language: None, call_count: 0 }
    }

    /// The text of one transcription: the text of this call's turn; the call
    /// is counted (the counter wraps).
    pub fn transcribe(&mut self) -> (t: String)
        ensures
            t@ == mock_text((old(self).call_count % 5) as int),
            final(self).call_count == (if old(self).call_count == u64::MAX {
                0
            } else {
                old(self).call_count + 1
            }),
            final(self).language == old(self).language,
    {
        let turn = self.call_count % 5;
        self.call_count = self.call_count.wrapping_add(1);
        if turn == 0 {
            owned("这是模拟的语音识别结果。")
        } else if turn == 1 {
            owned("Hello, this is a mock transcription.")
        } else if turn == 2 {
            owned("今天天气很好，适合出门散步。")
        } else if turn == 3 {
            owned("The quick brown fox jumps over the lazy dog.")
        } else {
            owned("欢迎使用实时语音翻译系统。")
        }
    }

    /// The partial text shown while listening, by the number of calls so far.
    pub fn transcribe_streaming(&self) -> (t: String)
        ensures
            t@ == mock_partial_text((self.call_count % 4) as int),
    {
        let turn = self.call_count % 4;
        if turn == 0 {
            owned("正在识别...")
        } else if turn == 1 {
            owned("识别中...")
        } else if turn == 2 {
            owned("Processing...")
        } else {
            owned("听取中...")
        }
    }

    /// The language a transcription reports: the one set, else `zh`.
    pub fn transcription_language(&self) -> (l: String)
        ensures
            match self.language {
                Some(s) => l@ == s@,
                None => l@ == "zh"@,
            },
    {
        match &self.language {
            Some(s) => owned(s.as_str()),
            None => owned("zh"),
        }
    }

    /// Sets the language, whatever it is.
    pub fn set_language(&mut self, lang: &str)
        ensures
            final(self).language matches Some(l) && l@ == lang@,
            final(self).call_count == old(self).call_count,
    {
        self.language = Some(owned(lang));
    }

    /// The language set, if any.
    pub fn get_language(&self) -> (r: Option<&str>)
        ensures
            match (r, self.language) {
                (Some(a), Some(b)) => a@ == b@,
                (None, None) => true,
                _ => false,
            },
    {
        match &self.language {
            Some(l) => Some(l.as_str()),
            None => None,
        }
    }

    /// The languages the mock claims: `zh`, `en`, `ja`.
    pub fn get_supported_languages(&self) -> (v: Vec<String>)
        ensures
            v@.len() == 3,
            v@[0]@ == "zh"@,
            v@[1]@ == "en"@,
            v@[2]@ == "ja"@,
    {
        let mut v: Vec<String> = Vec::new();
        v.push(owned("zh"));
        v.push(owned("en"));
        v.push(owned("ja"));
        v
    }

    /// Starts the turns over.
    pub fn reset(&mut self)
        ensures
            final(self).call_count == 0,
            final(self).language == old(self).language,
    {
        self.call_count = 0;
    }

    /// The mock uses no GPU.
    pub fn is_gpu_enabled(&self) -> (b: bool)
        ensures
            !b,
    {
        false
    }

    /// What the mock reports of its model.
    pub fn get_model_info(&self) -> (m: ModelInfo)
        ensures
            m.model_size@ == "mock"@,
            m.language_count == 3,
            m.is_multilingual,
            !m.is_english_only,
            !m.gpu_enabled,
            m.memory_usage_mb == 10,
    {
        ModelInfo {
            model_size: owned("mock"),
            language_count: 3,
            is_multilingual: true,
            is_english_only: false,
            gpu_enabled: false,
            memory_usage_mb: 10,
        }
    }
}

} // verus!

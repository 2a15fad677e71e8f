//! The model catalogue: installed and downloadable models per stage, and the
//! pages from which models are downloaded.
use vstd::prelude::*;

use crate::error::{AppError, AppResult};
use crate::asr_models::{paraformer_files, zipformer_files, DirEntryInfo};
use crate::text::{chars_eq_str, chars_of, lower, owned, push_str};

verus! {

/// One model of the catalogue.
pub struct ModelInfo {
    pub id: String,
    pub name: String,
    pub model_type: String,
    pub size: String,
    pub status: String,
    pub path: Option<String>,
    pub download_url: Option<String>,
}

/// Progress of a model download, as reported to the frontend.
pub struct ModelDownloadProgress {
    pub model_id: String,
    pub model_type: String,
    pub progress: u8,
    pub status: String,
}

/// Download page of the Sherpa ASR models.
pub open spec fn url_sherpa_models() -> Seq<char> {
    "https://k2-fsa.github.io/sherpa/onnx/pretrained_models/index.html"@
}

/// Download page of the Sherpa TTS models.
pub open spec fn url_sherpa_tts() -> Seq<char> {
    "https://k2-fsa.github.io/sherpa/onnx/tts/pretrained_models/index.html"@
}

/// Download page of GGUF models for Loci.
pub open spec fn url_loci_gguf() -> Seq<char> {
    "https://huggingface.co/models?library=gguf&sort=downloads"@
}

/// Download page of Piper voices.
pub open spec fn url_piper() -> Seq<char> {
    "https://github.com/rhasspy/piper"@
}

/// Download page of the NLLB model.
pub open spec fn url_nllb() -> Seq<char> {
    "https://huggingface.co/facebook/nllb-200-distilled-600M"@
}

/// The download page of a model id, if the catalogue knows one.
pub open spec fn download_page_of(id: Seq<char>) -> Option<Seq<char>> {
    if id == "asr:sherpa"@ || id == "asr:sherpa-zh-paraformer"@ || id
        == "asr:sherpa-en-zipformer"@ || id == "asr:sherpa-multi-zipformer"@ {
        Some(url_sherpa_models())
    } else if id == "loci:gguf"@ || id == "loci:qwen2.5-0.5b"@ {
        Some(url_loci_gguf())
    } else if id == "tts:sherpa-melo"@ || id == "tts:sherpa-melo-local"@ {
        Some(url_sherpa_tts())
    } else if id == "tts:piper"@ {
        Some(url_piper())
    } else if id == "mt:nllb"@ || id == "mt:nllb-distilled"@ {
        Some(url_nllb())
    } else {
        None
    }
}

/// The download page of a model id; an unknown id is `NotFound`.
pub fn model_download_page(model_id: &str) -> (r: AppResult<&'static str>)
    ensures
        match r {
            Ok(url) => download_page_of(model_id@) == Some(url@),
            Err(e) => download_page_of(model_id@) is None && (e matches AppError::NotFound(m)
                && m@ == "No download URL for model id: "@ + model_id@),
        },
{
    let id = chars_of(model_id);
    if chars_eq_str(&id, "asr:sherpa") || chars_eq_str(&id, "asr:sherpa-zh-paraformer")
        || chars_eq_str(&id, "asr:sherpa-en-zipformer") || chars_eq_str(
        &id,
        "asr:sherpa-multi-zipformer",
    ) {
        Ok("https://k2-fsa.github.io/sherpa/onnx/pretrained_models/index.html")
    } else if chars_eq_str(&id, "loci:gguf") || chars_eq_str(&id, "loci:qwen2.5-0.5b") {
        Ok("https://huggingface.co/models?library=gguf&sort=downloads")
    } else if chars_eq_str(&id, "tts:sherpa-melo") || chars_eq_str(&id, "tts:sherpa-melo-local") {
        Ok("https://k2-fsa.github.io/sherpa/onnx/tts/pretrained_models/index.html")
    } else if chars_eq_str(&id, "tts:piper") {
        Ok("https://github.com/rhasspy/piper")
    } else if chars_eq_str(&id, "mt:nllb") || chars_eq_str(&id, "mt:nllb-distilled") {
        Ok("https://huggingface.co/facebook/nllb-200-distilled-600M")
    } else {
        let mut m = owned("No download URL for model id: ");
        push_str(&mut m, model_id);
        Err(AppError::NotFound(m))
    }
}

/// The message reported after opening a download page.
pub fn download_opened_message(url: &str) -> (m: String)
    ensures
        m@ == "Opened download page: "@ + url@,
{
    let mut m = owned("Opened download page: ");
    push_str(&mut m, url);
    m
}

/// Whether some model of this type is ready.
pub open spec fn some_ready(model_type: Seq<char>, models: Seq<ModelInfo>) -> bool {
    exists|i: int|
        0 <= i < models.len() && models[i].model_type@ == model_type && models[i].status@
            == "ready"@
}

/// Whether the catalogue holds a ready model of this type.
pub fn has_ready_model(model_type: &str, models: &Vec<ModelInfo>) -> (r: AppResult<bool>)
    ensures
        r matches Ok(b) && b == some_ready(model_type@, models@),
{
    let t = chars_of(model_type);
    let mut i: usize = 0;
    while i < models.len()
        invariant
            i <= models@.len(),
            t@ == model_type@,
            forall|k: int|
                0 <= k < i ==> !(models@[k].model_type@ == model_type@ && models@[k].status@
                    == "ready"@),
        decreases models.len() - i,
    {
        let mt = chars_of(models[i].model_type.as_str());
        let st = chars_of(models[i].status.as_str());
        if crate::text::seq_eq(&mt, &t) && chars_eq_str(&st, "ready") {
            return Ok(true);
        }
        i = i + 1;
    }
    Ok(false)
}

/// The models of one type, in catalogue order (moved out of `models`).
pub open spec fn of_type(models: Seq<ModelInfo>, model_type: Seq<char>) -> Seq<ModelInfo>
    decreases models.len(),
{
    if models.len() == 0 {
        Seq::empty()
    } else {
        let rest = of_type(models.drop_last(), model_type);
        if models.last().model_type@ == model_type {
            rest.push(models.last())
        } else {
            rest
        }
    }
}

/// The models of one type, in catalogue order.
pub fn models_of_type(models: &Vec<ModelInfo>, model_type: &str) -> (r: Vec<ModelInfo>)
    ensures
        r@ == of_type(models@, model_type@),
{
    let t = chars_of(model_type);
    let mut out: Vec<ModelInfo> = Vec::new();
    let mut i: usize = 0;
    while i < models.len()
        invariant
            i <= models@.len(),
            t@ == model_type@,
            out@ == of_type(models@.subrange(0, i as int), model_type@),
        decreases models.len() - i,
    {
        proof {
            assert(models@.subrange(0, i + 1).drop_last() == models@.subrange(0, i as int));
        }
        let mt = chars_of(models[i].model_type.as_str());
        if crate::text::seq_eq(&mt, &t) {
            out.push(models[i].clone());
        }
        i = i + 1;
    }
    assert(models@.subrange(0, models@.len() as int) == models@);
    out
}

/// The position of the first model with this id.
pub open spec fn first_with_id(models: Seq<ModelInfo>, id: Seq<char>) -> Option<int>
    decreases models.len(),
{
    if models.len() == 0 {
        None
    } else {
        match first_with_id(models.drop_last(), id) {
            Some(k) => Some(k),
            None => if models.last().id@ == id {
                Some(models.len() - 1)
            } else {
                None
            },
        }
    }
}

/// The path that deleting the model `model_id` removes: that of the first
/// model listed with the id. Fails with `NotFound` when no model has the id,
/// and with `InvalidPath` when that model has no path.
pub fn model_path_to_delete(models: &Vec<ModelInfo>, model_id: &str) -> (r: AppResult<String>)
    ensures
        match first_with_id(models@, model_id@) {
            None => r matches Err(AppError::NotFound(m)) && m@ == "Model not found"@,
            Some(k) => match models@[k].path {
                Some(p) => r matches Ok(s) && s@ == p@,
                None => r matches Err(AppError::InvalidPath(m)) && m@
                    == "Model path is not available"@,
            },
        },
{
    let mut i: usize = 0;
    while i < models.len()
        invariant
            i <= models@.len(),
            first_with_id(models@.subrange(0, i as int), model_id@) is None,
        decreases models.len() - i,
    {
        proof {
            assert(models@.subrange(0, i + 1).drop_last() == models@.subrange(0, i as int));
        }
        if crate::text::str_eq(models[i].id.as_str(), model_id) {
            proof {
                assert(first_with_id(models@.subrange(0, i + 1), model_id@) == Some(i as int));
                lemma_first_with_id_prefix(models@, model_id@, i + 1);
            }
            return match &models[i].path {
                Some(p) => Ok(p.clone()),
                None => Err(AppError::InvalidPath(owned("Model path is not available"))),
            };
        }
        i = i + 1;
    }
    assert(models@.subrange(0, models@.len() as int) == models@);
    Err(AppError::NotFound(owned("Model not found")))
}

proof fn lemma_first_with_id_prefix(models: Seq<ModelInfo>, id: Seq<char>, k: int)
    requires
        0 <= k <= models.len(),
        first_with_id(models.subrange(0, k), id) is Some,
    ensures
        first_with_id(models, id) == first_with_id(models.subrange(0, k), id),
    decreases models.len() - k,
{
    if k < models.len() {
        assert(models.subrange(0, k + 1).drop_last() == models.subrange(0, k));
        lemma_first_with_id_prefix(models, id, k + 1);
    } else {
        assert(models.subrange(0, k) == models);
    }
}

/// An exact copy of an optional string.
pub fn copy_opt(o: &Option<String>) -> (r: Option<String>)
    ensures
        r == *o,
{
    match o {
        Some(s) => Some(s.clone()),
        None => None,
    }
}

impl Clone for ModelInfo {
    fn clone(&self) -> (c: Self)
        ensures
            c == *self,
    {
        ModelInfo {
            id: self.id.clone(),
            name: self.name.clone(),
            model_type: self.model_type.clone(),
            size: self.size.clone(),
            status: self.status.clone(),
            path: copy_opt(&self.path),
            download_url: copy_opt(&self.download_url),
        }
    }
}

fn catalogue_entry(
    id: &str,
    name: &str,
    model_type: &str,
    size: &str,
    status: &str,
    path: &str,
    download_url: Option<&str>,
) -> (m: ModelInfo)
    ensures
        m.id@ == id@,
        m.name@ == name@,
        m.model_type@ == model_type@,
        m.size@ == size@,
        m.status@ == status@,
        crate::governance::opt_view(m.path) == Some(path@),
        crate::governance::opt_view(m.download_url) == crate::governance::opt_ref_view(download_url),
{
    ModelInfo {
        id: owned(id),
        name: owned(name),
        model_type: owned(model_type),
        size: owned(size),
        status: owned(status),
        path: Some(owned(path)),
        download_url: match download_url {
            Some(u) => Some(owned(u)),
            None => None,
        },
    }
}

/// The translation models: the built-in engine (ready) and the optional NLLB
/// model (to be downloaded), both under the `mt` models directory `dir`.
pub fn list_mt_models(dir: &str) -> (r: Vec<ModelInfo>)
    ensures
        r@.len() == 2,
        r@[0].id@ == "mt:builtin"@ && r@[0].name@ == "内置翻译引擎（开箱即用）"@ && r@[0].model_type@
            == "mt"@ && r@[0].size@ == "-"@ && r@[0].status@ == "ready"@ && crate::governance::opt_view(
            r@[0].path,
        ) == Some(dir@) && r@[0].download_url is None,
        r@[1].id@ == "mt:nllb"@ && r@[1].name@ == "NLLB-200 600M（可选）"@ && r@[1].model_type@
            == "mt"@ && r@[1].size@ == "~1.3 GB"@ && r@[1].status@ == "not_downloaded"@
            && crate::governance::opt_view(r@[1].path) == Some(dir@) && crate::governance::opt_view(
            r@[1].download_url,
        ) == Some(url_nllb()),
{
    let mut v: Vec<ModelInfo> = Vec::new();
    v.push(catalogue_entry("mt:builtin", "内置翻译引擎（开箱即用）", "mt", "-", "ready", dir, None));
    v.push(
        catalogue_entry(
            "mt:nllb",
            "NLLB-200 600M（可选）",
            "mt",
            "~1.3 GB",
            "not_downloaded",
            dir,
            Some("https://huggingface.co/facebook/nllb-200-distilled-600M"),
        ),
    );
    v
}

/// `m` is the catalogue entry with these fields.
pub open spec fn entry_is(
    m: ModelInfo,
    id: Seq<char>,
    name: Seq<char>,
    model_type: Seq<char>,
    size: Seq<char>,
    status: Seq<char>,
    path: Seq<char>,
    download_url: Option<Seq<char>>,
) -> bool {
    &&& m.id@ == id
    &&& m.name@ == name
    &&& m.model_type@ == model_type
    &&& m.size@ == size
    &&& m.status@ == status
    &&& crate::governance::opt_view(m.path) == Some(path)
    &&& crate::governance::opt_view(m.download_url) == download_url
}

/// `m` is the entry of an installed model: id `<type>:<name>`, ready, with its
/// path and no download page.
pub open spec fn ready_entry(m: ModelInfo, model_type: Seq<char>, name: Seq<char>, size: Seq<char>, path: Seq<char>) -> bool {
    entry_is(m, model_type + ":"@ + name, name, model_type, size, "ready"@, path, None)
}

/// The entry shown for the Loci stage when no GGUF model is installed.
pub open spec fn loci_placeholder_at(m: ModelInfo, dir: Seq<char>) -> bool {
    entry_is(m, "loci:gguf"@, "Loci GGUF 模型索引（推荐）"@, "loci"@, "-"@, "not_downloaded"@, dir, Some(url_loci_gguf()))
}

/// The entry shown for the ASR stage when no model is installed.
pub open spec fn asr_placeholder_at(m: ModelInfo, dir: Seq<char>) -> bool {
    entry_is(
        m,
        "asr:sherpa-multi-zipformer"@,
        "多语 Zipformer（通用）"@,
        "asr"@,
        "~300-600 MB"@,
        "not_downloaded"@,
        dir,
        Some(url_sherpa_models()),
    )
}

/// The entry shown for the TTS stage when no voice is installed.
pub open spec fn tts_placeholder_at(m: ModelInfo, dir: Seq<char>) -> bool {
    entry_is(
        m,
        "tts:sherpa-melo"@,
        "Sherpa Melo 离线 TTS（推荐）"@,
        "tts"@,
        "~100 MB"@,
        "not_downloaded"@,
        dir,
        Some(url_sherpa_tts()),
    )
}

/// The catalogue entry shown for the Loci stage when no GGUF model is installed.
pub fn loci_placeholder(dir: &str) -> (m: ModelInfo)
    ensures
        loci_placeholder_at(m, dir@),
{
    catalogue_entry(
        "loci:gguf",
        "Loci GGUF 模型索引（推荐）",
        "loci",
        "-",
        "not_downloaded",
        dir,
        Some("https://huggingface.co/models?library=gguf&sort=downloads"),
    )
}

/// The catalogue entry shown for the ASR stage when no model is installed.
pub fn asr_placeholder(dir: &str) -> (m: ModelInfo)
    ensures
        asr_placeholder_at(m, dir@),
{
    catalogue_entry(
        "asr:sherpa-multi-zipformer",
        "多语 Zipformer（通用）",
        "asr",
        "~300-600 MB",
        "not_downloaded",
        dir,
        Some("https://k2-fsa.github.io/sherpa/onnx/pretrained_models/index.html"),
    )
}

/// The catalogue entry shown for the TTS stage when no voice is installed.
pub fn tts_placeholder(dir: &str) -> (m: ModelInfo)
    ensures
        tts_placeholder_at(m, dir@),
{
    catalogue_entry(
        "tts:sherpa-melo",
        "Sherpa Melo 离线 TTS（推荐）",
        "tts",
        "~100 MB",
        "not_downloaded",
        dir,
        Some("https://k2-fsa.github.io/sherpa/onnx/tts/pretrained_models/index.html"),
    )
}

/// The position of the last `.` of a file name, or -1 when it has none.
pub open spec fn last_dot(name: Seq<char>) -> int
    decreases name.len(),
{
    if name.len() == 0 {
        -1
    } else if name.last() == '.' {
        name.len() - 1
    } else {
        last_dot(name.drop_last())
    }
}

/// The file name's extension is `ext` in any ASCII case: the text after its
/// last `.`, where something comes before that dot (as `Path::extension`
/// compared with `eq_ignore_ascii_case`).
pub open spec fn has_extension(name: Seq<char>, ext: Seq<char>) -> bool {
    last_dot(name) > 0 && lower(name.subrange(last_dot(name) + 1, name.len() as int)) == lower(ext)
}

/// The file name without its extension (as `Path::file_stem` for a name that
/// has one).
pub open spec fn file_stem(name: Seq<char>) -> Seq<char> {
    if last_dot(name) > 0 {
        name.subrange(0, last_dot(name))
    } else {
        name
    }
}

proof fn lemma_last_dot_prefix(name: Seq<char>, i: int)
    requires
        0 <= i <= name.len(),
        forall|q: int| i <= q < name.len() ==> name[q] != '.',
    ensures
        last_dot(name) == last_dot(name.subrange(0, i)),
    decreases name.len() - i,
{
    if i < name.len() {
        assert(name.drop_last() == name.subrange(0, name.len() - 1));
        lemma_last_dot_prefix(name.drop_last(), i);
        assert(name.drop_last().subrange(0, i) == name.subrange(0, i));
    } else {
        assert(name.subrange(0, i) == name);
    }
}

/// One past the position of the last `.` of `v` (0 when there is none).
fn after_last_dot(v: &Vec<char>) -> (i: usize)
    ensures
        i == last_dot(v@) + 1,
        i <= v@.len(),
{
    let mut i: usize = v.len();
    while i > 0 && v[i - 1] != '.'
        invariant
            i <= v@.len(),
            forall|q: int| i <= q < v@.len() ==> v@[q] != '.',
        decreases i,
    {
        i = i - 1;
    }
    proof {
        lemma_last_dot_prefix(v@, i as int);
        if i > 0 {
            assert(v@.subrange(0, i as int).last() == '.');
        } else {
            assert(v@.subrange(0, 0).len() == 0);
        }
    }
    i
}

/// Whether the file name has the extension `ext`, in any ASCII case.
pub fn has_extension_ci(name: &str, ext: &str) -> (b: bool)
    ensures
        b == has_extension(name@, ext@),
{
    let v = chars_of(name);
    let i = after_last_dot(&v);
    if i <= 1 {
        return false;
    }
    let tail = crate::text::sub_chars(&v, i, v.len());
    let a = crate::text::lower_chars(&tail);
    let b = crate::text::lower_chars(&chars_of(ext));
    crate::text::seq_eq(&a, &b)
}

/// The file name without its extension.
pub fn file_stem_of(name: &str) -> (r: String)
    ensures
        r@ == file_stem(name@),
{
    let v = chars_of(name);
    let i = after_last_dot(&v);
    if i <= 1 {
        return crate::text::string_of(&v);
    }
    crate::text::string_of_range(&v, 0, i - 1)
}

/// A file listed in a model directory: its path as displayed, its file name,
/// whether it is a regular file, and its size as displayed.
pub struct ListedFile {
    pub path: String,
    pub name: String,
    pub is_file: bool,
    pub size: String,
}

/// The GGUF model files among the entries, in order.
pub open spec fn gguf_files(es: Seq<ListedFile>) -> Seq<ListedFile>
    decreases es.len(),
{
    if es.len() == 0 {
        Seq::empty()
    } else {
        let rest = gguf_files(es.drop_last());
        if es.last().is_file && has_extension(es.last().name@, "gguf"@) {
            rest.push(es.last())
        } else {
            rest
        }
    }
}

/// The Piper voices (`.onnx` files) among the entries, in order.
pub open spec fn onnx_files(es: Seq<ListedFile>) -> Seq<ListedFile>
    decreases es.len(),
{
    if es.len() == 0 {
        Seq::empty()
    } else {
        let rest = onnx_files(es.drop_last());
        if has_extension(es.last().name@, "onnx"@) {
            rest.push(es.last())
        } else {
            rest
        }
    }
}

fn ready_model(model_type: &str, name: &str, size: &str, path: &str) -> (m: ModelInfo)
    ensures
        ready_entry(m, model_type@, name@, size@, path@),
{
    let mut id = owned(model_type);
    push_str(&mut id, ":");
    push_str(&mut id, name);
    proof {
        reveal_strlit(":");
    }
    ModelInfo {
        id,
        name: owned(name),
        model_type: owned(model_type),
        size: owned(size),
        status: owned("ready"),
        path: Some(owned(path)),
        download_url: None,
    }
}

/// The Loci models of the directory `dir`: one ready entry per GGUF file (named
/// after the file), or the placeholder when there is none.
pub fn list_loci_models(dir: &str, entries: &Vec<ListedFile>) -> (r: Vec<ModelInfo>)
    ensures
        gguf_files(entries@).len() == 0 ==> r@.len() == 1 && loci_placeholder_at(r@[0], dir@),
        gguf_files(entries@).len() > 0 ==> r@.len() == gguf_files(entries@).len() && forall|k: int|
            0 <= k < r@.len() ==> ready_entry(
                #[trigger] r@[k],
                "loci"@,
                gguf_files(entries@)[k].name@,
                gguf_files(entries@)[k].size@,
                gguf_files(entries@)[k].path@,
            ),
{
    let mut out: Vec<ModelInfo> = Vec::new();
    let mut i: usize = 0;
    while i < entries.len()
        invariant
            i <= entries@.len(),
            out@.len() == gguf_files(entries@.subrange(0, i as int)).len(),
            forall|k: int|
                0 <= k < out@.len() ==> ready_entry(
                    #[trigger] out@[k],
                    "loci"@,
                    gguf_files(entries@.subrange(0, i as int))[k].name@,
                    gguf_files(entries@.subrange(0, i as int))[k].size@,
                    gguf_files(entries@.subrange(0, i as int))[k].path@,
                ),
        decreases entries.len() - i,
    {
        let ghost pre = gguf_files(entries@.subrange(0, i as int));
        proof {
            assert(entries@.subrange(0, i + 1).drop_last() == entries@.subrange(0, i as int));
            assert(entries@.subrange(0, i + 1).last() == entries@[i as int]);
        }
        let e = &entries[i];
        if e.is_file && has_extension_ci(e.name.as_str(), "gguf") {
            let m = ready_model("loci", e.name.as_str(), e.size.as_str(), e.path.as_str());
            out.push(m);
            proof {
                let now = gguf_files(entries@.subrange(0, i + 1));
                assert(now == pre.push(entries@[i as int]));
                assert forall|k: int| 0 <= k < out@.len() implies ready_entry(
                    #[trigger] out@[k],
                    "loci"@,
                    now[k].name@,
                    now[k].size@,
                    now[k].path@,
                ) by {
                    if k < pre.len() {
                        assert(now[k] == pre[k]);
                    }
                }
            }
        }
        i = i + 1;
    }
    assert(entries@.subrange(0, entries@.len() as int) == entries@);
    if out.len() == 0 {
        out.push(loci_placeholder(dir));
    }
    out
}

/// How many bundled Sherpa Melo voices are listed: one when its directory
/// holds a model and tokens.
pub open spec fn tts_sherpa_count(sherpa_entries: Seq<DirEntryInfo>) -> int {
    if paraformer_files(sherpa_entries) {
        1
    } else {
        0
    }
}

/// The TTS voices: the bundled Sherpa Melo voice when its directory holds a
/// model and tokens, then one ready entry per Piper `.onnx` voice (named after
/// the file without extension); the placeholder when there is none.
pub fn list_tts_models(
    sherpa_dir: &str,
    sherpa_entries: &Vec<DirEntryInfo>,
    sherpa_size: &str,
    piper_entries: &Vec<ListedFile>,
) -> (r: Vec<ModelInfo>)
    ensures
        tts_sherpa_count(sherpa_entries@) + onnx_files(piper_entries@).len() == 0 ==> r@.len() == 1
            && tts_placeholder_at(r@[0], sherpa_dir@),
        tts_sherpa_count(sherpa_entries@) + onnx_files(piper_entries@).len() > 0 ==> r@.len()
            == tts_sherpa_count(sherpa_entries@) + onnx_files(piper_entries@).len(),
        paraformer_files(sherpa_entries@) ==> entry_is(
            r@[0],
            "tts:sherpa-melo-local"@,
            "Sherpa Melo 离线音色（本地已就绪）"@,
            "tts"@,
            sherpa_size@,
            "ready"@,
            sherpa_dir@,
            None,
        ),
        forall|k: int|
            0 <= k < onnx_files(piper_entries@).len() ==> ready_entry(
                #[trigger] r@[tts_sherpa_count(sherpa_entries@) + k],
                "tts"@,
                file_stem(onnx_files(piper_entries@)[k].name@),
                onnx_files(piper_entries@)[k].size@,
                onnx_files(piper_entries@)[k].path@,
            ),
{
    let mut out: Vec<ModelInfo> = Vec::new();
    let sherpa_ready = crate::asr_models::has_paraformer_files(sherpa_entries);
    if sherpa_ready {
        out.push(
            catalogue_entry(
                "tts:sherpa-melo-local",
                "Sherpa Melo 离线音色（本地已就绪）",
                "tts",
                sherpa_size,
                "ready",
                sherpa_dir,
                None,
            ),
        );
        assert(entry_is(
            out@[0],
            "tts:sherpa-melo-local"@,
            "Sherpa Melo 离线音色（本地已就绪）"@,
            "tts"@,
            sherpa_size@,
            "ready"@,
            sherpa_dir@,
            None,
        ));
    }
    let base = out.len();
    let ghost first = out@;
    let mut i: usize = 0;
    while i < piper_entries.len()
        invariant
            i <= piper_entries@.len(),
            base == (if sherpa_ready { 1usize } else { 0usize }),
            out@.len() == base + onnx_files(piper_entries@.subrange(0, i as int)).len(),
            forall|k: int| 0 <= k < base ==> out@[k] == first[k],
            first.len() == base,
            forall|k: int|
                0 <= k < onnx_files(piper_entries@.subrange(0, i as int)).len() ==> ready_entry(
                    #[trigger] out@[base + k],
                    "tts"@,
                    file_stem(onnx_files(piper_entries@.subrange(0, i as int))[k].name@),
                    onnx_files(piper_entries@.subrange(0, i as int))[k].size@,
                    onnx_files(piper_entries@.subrange(0, i as int))[k].path@,
                ),
        decreases piper_entries.len() - i,
    {
        let ghost pre = onnx_files(piper_entries@.subrange(0, i as int));
        proof {
            assert(piper_entries@.subrange(0, i + 1).drop_last() == piper_entries@.subrange(0, i as int));
            assert(piper_entries@.subrange(0, i + 1).last() == piper_entries@[i as int]);
        }
        let e = &piper_entries[i];
        if has_extension_ci(e.name.as_str(), "onnx") {
            let stem = file_stem_of(e.name.as_str());
            let m = ready_model("tts", stem.as_str(), e.size.as_str(), e.path.as_str());
            out.push(m);
            proof {
                let now = onnx_files(piper_entries@.subrange(0, i + 1));
                assert(now == pre.push(piper_entries@[i as int]));
                assert forall|k: int| 0 <= k < now.len() implies ready_entry(
                    #[trigger] out@[base + k],
                    "tts"@,
                    file_stem(now[k].name@),
                    now[k].size@,
                    now[k].path@,
                ) by {
                    if k < pre.len() {
                        assert(now[k] == pre[k]);
                    }
                }
            }
        }
        i = i + 1;
    }
    assert(piper_entries@.subrange(0, piper_entries@.len() as int) == piper_entries@);
    let ghost voices = onnx_files(piper_entries@);
    let ghost sherpa: int = tts_sherpa_count(sherpa_entries@);
    assert(base == sherpa);
    assert(forall|k: int| 0 <= k < voices.len() ==> ready_entry(
        #[trigger] out@[sherpa + k],
        "tts"@,
        file_stem(voices[k].name@),
        voices[k].size@,
        voices[k].path@,
    ));
    if out.len() == 0 {
        out.push(tts_placeholder(sherpa_dir));
    }
    out
}

/// A subdirectory of the ASR models directory: its path as displayed, its
/// name, its entries and its size as displayed.
pub struct ListedDir {
    pub path: String,
    pub name: String,
    pub entries: Vec<DirEntryInfo>,
    pub size: String,
}

/// The entries hold a Sherpa ASR model (zipformer or paraformer).
pub open spec fn sherpa_asr(es: Seq<DirEntryInfo>) -> bool {
    zipformer_files(es) || paraformer_files(es)
}

/// The subdirectories that hold a Sherpa ASR model, in order.
pub open spec fn asr_model_dirs(ds: Seq<ListedDir>) -> Seq<ListedDir>
    decreases ds.len(),
{
    if ds.len() == 0 {
        Seq::empty()
    } else {
        let rest = asr_model_dirs(ds.drop_last());
        if sherpa_asr(ds.last().entries@) {
            rest.push(ds.last())
        } else {
            rest
        }
    }
}

/// How many entries stand for the ASR models directory itself: one when it
/// holds a model.
pub open spec fn asr_base_count(base_entries: Seq<DirEntryInfo>) -> int {
    if sherpa_asr(base_entries) {
        1
    } else {
        0
    }
}

/// The ASR models: the models directory `dir` itself when it holds a model,
/// then one ready entry per subdirectory that holds one (named after it); the
/// placeholder when there is none.
pub fn list_asr_models(
    dir: &str,
    base_entries: &Vec<DirEntryInfo>,
    base_size: &str,
    subdirs: &Vec<ListedDir>,
) -> (r: Vec<ModelInfo>)
    ensures
        asr_base_count(base_entries@) + asr_model_dirs(subdirs@).len() == 0 ==> r@.len() == 1
            && asr_placeholder_at(r@[0], dir@),
        asr_base_count(base_entries@) + asr_model_dirs(subdirs@).len() > 0 ==> r@.len()
            == asr_base_count(base_entries@) + asr_model_dirs(subdirs@).len(),
        sherpa_asr(base_entries@) ==> entry_is(
            r@[0],
            "asr:default"@,
            "ASR (sherpa，本地已就绪)"@,
            "asr"@,
            base_size@,
            "ready"@,
            dir@,
            None,
        ),
        forall|k: int|
            0 <= k < asr_model_dirs(subdirs@).len() ==> ready_entry(
                #[trigger] r@[asr_base_count(base_entries@) + k],
                "asr"@,
                asr_model_dirs(subdirs@)[k].name@,
                asr_model_dirs(subdirs@)[k].size@,
                asr_model_dirs(subdirs@)[k].path@,
            ),
{
    let mut out: Vec<ModelInfo> = Vec::new();
    let base_ready = crate::asr_models::has_sherpa_any_asr_files(base_entries);
    if base_ready {
        out.push(catalogue_entry("asr:default", "ASR (sherpa，本地已就绪)", "asr", base_size, "ready", dir, None));
        assert(entry_is(
            out@[0],
            "asr:default"@,
            "ASR (sherpa，本地已就绪)"@,
            "asr"@,
            base_size@,
            "ready"@,
            dir@,
            None,
        ));
    }
    let base = out.len();
    let ghost first = out@;
    let mut i: usize = 0;
    while i < subdirs.len()
        invariant
            i <= subdirs@.len(),
            base == (if base_ready { 1usize } else { 0usize }),
            out@.len() == base + asr_model_dirs(subdirs@.subrange(0, i as int)).len(),
            forall|k: int| 0 <= k < base ==> out@[k] == first[k],
            first.len() == base,
            forall|k: int|
                0 <= k < asr_model_dirs(subdirs@.subrange(0, i as int)).len() ==> ready_entry(
                    #[trigger] out@[base + k],
                    "asr"@,
                    asr_model_dirs(subdirs@.subrange(0, i as int))[k].name@,
                    asr_model_dirs(subdirs@.subrange(0, i as int))[k].size@,
                    asr_model_dirs(subdirs@.subrange(0, i as int))[k].path@,
                ),
        decreases subdirs.len() - i,
    {
        let ghost pre = asr_model_dirs(subdirs@.subrange(0, i as int));
        proof {
            assert(subdirs@.subrange(0, i + 1).drop_last() == subdirs@.subrange(0, i as int));
            assert(subdirs@.subrange(0, i + 1).last() == subdirs@[i as int]);
        }
        let d = &subdirs[i];
        if crate::asr_models::has_sherpa_any_asr_files(&d.entries) {
            let m = ready_model("asr", d.name.as_str(), d.size.as_str(), d.path.as_str());
            out.push(m);
            proof {
                let now = asr_model_dirs(subdirs@.subrange(0, i + 1));
                assert(now == pre.push(subdirs@[i as int]));
                assert forall|k: int| 0 <= k < now.len() implies ready_entry(
                    #[trigger] out@[base + k],
                    "asr"@,
                    now[k].name@,
                    now[k].size@,
                    now[k].path@,
                ) by {
                    if k < pre.len() {
                        assert(now[k] == pre[k]);
                    }
                }
            }
        }
        i = i + 1;
    }
    assert(subdirs@.subrange(0, subdirs@.len() as int) == subdirs@);
    let ghost dirs = asr_model_dirs(subdirs@);
    let ghost b: int = asr_base_count(base_entries@);
    assert(base == b);
    assert(forall|k: int| 0 <= k < dirs.len() ==> ready_entry(
        #[trigger] out@[b + k],
        "asr"@,
        dirs[k].name@,
        dirs[k].size@,
        dirs[k].path@,
    ));
    if out.len() == 0 {
        out.push(asr_placeholder(dir));
    }
    out
}

} // verus!

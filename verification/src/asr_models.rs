//! Sherpa ASR model directories: which files make a usable model, which
//! directory to load for a language, and whether a model only knows English.
use vstd::prelude::*;

use crate::text::{chars_of, contains, contains_str, ends_with_str, has_prefix, has_suffix, lower, lower_chars, starts_with_str};

verus! {

/// An entry of a directory: its file name, and whether it is a regular file.
pub struct DirEntryInfo {
    pub name: String,
    pub is_file: bool,
}

/// A directory that may hold an ASR model: its path as displayed, its own
/// name, its entries (none when it cannot be read) and the total size of its
/// files.
pub struct AsrModelDir {
    pub path: String,
    pub name: String,
    pub entries: Vec<DirEntryInfo>,
    pub size: u64,
}

/// The directory has an entry with this name.
pub open spec fn has_entry(es: Seq<DirEntryInfo>, name: Seq<char>) -> bool {
    exists|i: int| 0 <= i < es.len() && (#[trigger] es[i]).name@ == name
}

/// The directory has a file `<prefix>*.onnx`.
pub open spec fn has_onnx_with_prefix(es: Seq<DirEntryInfo>, prefix: Seq<char>) -> bool {
    exists|i: int|
        0 <= i < es.len() && (#[trigger] es[i]).is_file && has_prefix(es[i].name@, prefix) && has_suffix(
            es[i].name@,
            ".onnx"@,
        )
}

/// A streaming zipformer model: tokens and encoder, decoder and joiner networks.
pub open spec fn zipformer_files(es: Seq<DirEntryInfo>) -> bool {
    has_entry(es, "tokens.txt"@) && has_onnx_with_prefix(es, "encoder"@) && has_onnx_with_prefix(
        es,
        "decoder"@,
    ) && has_onnx_with_prefix(es, "joiner"@)
}

/// A paraformer model: tokens and one model network.
pub open spec fn paraformer_files(es: Seq<DirEntryInfo>) -> bool {
    has_entry(es, "tokens.txt"@) && (has_entry(es, "model.int8.onnx"@) || has_entry(es, "model.onnx"@))
}

fn has_entry_named(es: &Vec<DirEntryInfo>, name: &str) -> (b: bool)
    ensures
        b == has_entry(es@, name@),
{
    let mut i: usize = 0;
    while i < es.len()
        invariant
            i <= es@.len(),
            forall|k: int| 0 <= k < i ==> (#[trigger] es@[k]).name@ != name@,
        decreases es.len() - i,
    {
        if crate::text::str_eq(es[i].name.as_str(), name) {
            return true;
        }
        i = i + 1;
    }
    false
}

/// Whether the directory has a file `<prefix>*.onnx`.
pub fn has_prefix_onnx(es: &Vec<DirEntryInfo>, prefix: &str) -> (b: bool)
    ensures
        b == has_onnx_with_prefix(es@, prefix@),
{
    let mut i: usize = 0;
    while i < es.len()
        invariant
            i <= es@.len(),
            forall|k: int|
                0 <= k < i ==> !((#[trigger] es@[k]).is_file && has_prefix(es@[k].name@, prefix@)
                    && has_suffix(es@[k].name@, ".onnx"@)),
        decreases es.len() - i,
    {
        let n = chars_of(es[i].name.as_str());
        if es[i].is_file && starts_with_str(&n, prefix) && ends_with_str(&n, ".onnx") {
            return true;
        }
        i = i + 1;
    }
    false
}

/// Whether the directory holds a streaming zipformer model.
pub fn has_zipformer_files(es: &Vec<DirEntryInfo>) -> (b: bool)
    ensures
        b == zipformer_files(es@),
{
    has_entry_named(es, "tokens.txt") && has_prefix_onnx(es, "encoder") && has_prefix_onnx(es, "decoder")
        && has_prefix_onnx(es, "joiner")
}

/// Whether the directory holds a paraformer model.
pub fn has_paraformer_files(es: &Vec<DirEntryInfo>) -> (b: bool)
    ensures
        b == paraformer_files(es@),
{
    has_entry_named(es, "tokens.txt") && (has_entry_named(es, "model.int8.onnx") || has_entry_named(
        es,
        "model.onnx",
    ))
}

/// Whether the directory holds a usable ASR model of either kind.
pub fn is_valid_asr_model_dir(es: &Vec<DirEntryInfo>) -> (b: bool)
    ensures
        b == (zipformer_files(es@) || paraformer_files(es@)),
{
    has_zipformer_files(es) || has_paraformer_files(es)
}

/// Whether the directory holds the files the session's ASR needs (a streaming
/// zipformer model).
pub fn has_required_asr_files(es: &Vec<DirEntryInfo>) -> (b: bool)
    ensures
        b == zipformer_files(es@),
{
    has_zipformer_files(es)
}

/// Whether the directory holds a Sherpa ASR model of either kind.
pub fn has_sherpa_any_asr_files(es: &Vec<DirEntryInfo>) -> (b: bool)
    ensures
        b == (zipformer_files(es@) || paraformer_files(es@)),
{
    has_sherpa_zipformer_asr_files(es) || has_sherpa_paraformer_asr_files(es)
}

/// Whether the directory holds a Sherpa streaming zipformer model.
pub fn has_sherpa_zipformer_asr_files(es: &Vec<DirEntryInfo>) -> (b: bool)
    ensures
        b == zipformer_files(es@),
{
    has_zipformer_files(es)
}

/// Whether the directory holds a Sherpa paraformer model.
pub fn has_sherpa_paraformer_asr_files(es: &Vec<DirEntryInfo>) -> (b: bool)
    ensures
        b == paraformer_files(es@),
{
    has_paraformer_files(es)
}

/// A path that names English models (`-en` or `_en` in it).
pub open spec fn english_tag(name: Seq<char>) -> bool {
    contains(name, "-en"@) || contains(name, "_en"@)
}

/// A path that names Chinese or multilingual models.
pub open spec fn chinese_tag(name: Seq<char>) -> bool {
    contains(name, "zh"@) || contains(name, "trilingual"@) || contains(name, "multi"@)
}

/// The score of a model directory for a language (higher is better): for
/// Chinese, paraformer models and Chinese or multilingual packs; otherwise
/// zipformer models and English packs, and, where stable models are preferred
/// for English, what Chinese gets too.
pub open spec fn dir_score(name: Seq<char>, para: bool, zip: bool, prefer_zh: bool, stable_en: bool) -> int {
    let chinese_part = (if para {
        8int
    } else {
        0int
    }) + (if chinese_tag(name) {
        4int
    } else {
        0int
    }) - (if english_tag(name) {
        4int
    } else {
        0int
    });
    if prefer_zh {
        chinese_part
    } else {
        (if stable_en {
            chinese_part
        } else {
            0int
        }) + (if zip {
            4int
        } else {
            0int
        }) + (if english_tag(name) {
            2int
        } else {
            0int
        })
    }
}

/// The language codes that prefer Chinese models.
pub open spec fn prefers_zh(lang: Seq<char>) -> bool {
    lang == "zh"@ || lang == "zh-cn"@ || lang == "zh-tw"@ || lang == "yue"@
}

/// Whether stable models are preferred for an English language code: unless the
/// setting says `0` or `false` (any case).
pub open spec fn stable_for_en(lang: Seq<char>, setting: Option<Seq<char>>) -> bool {
    (lang == "en"@ || lang == "en-us"@ || lang == "en-gb"@) && match setting {
        Some(v) => v != "0"@ && lower(v) != "false"@,
        None => true,
    }
}

/// The best-scoring usable directory so far: score, size, path. A later
/// directory replaces the best one only with a higher score, or the same score
/// and a larger size.
pub open spec fn best_dir(ds: Seq<AsrModelDir>, zh: bool, st: bool) -> Option<(int, u64, Seq<char>)>
    decreases ds.len(),
{
    if ds.len() == 0 {
        None
    } else {
        let b = best_dir(ds.drop_last(), zh, st);
        let d = ds.last();
        let es = d.entries@;
        if !(zipformer_files(es) || paraformer_files(es)) {
            b
        } else {
            let c = (
                dir_score(lower(d.path@), paraformer_files(es), zipformer_files(es), zh, st),
                d.size,
                d.path@,
            );
            match b {
                Some(x) => if x.0 > c.0 || (x.0 == c.0 && x.1 >= c.1) {
                    b
                } else {
                    Some(c)
                },
                None => Some(c),
            }
        }
    }
}

/// The model directory to load for a language: the best-scoring usable one
/// among the base directory and its subdirectories (in the order listed); the
/// base directory when none is usable.
pub open spec fn preferred_dir(
    base: AsrModelDir,
    subdirs: Seq<AsrModelDir>,
    lang: Seq<char>,
    setting: Option<Seq<char>>,
) -> Seq<char> {
    let l = lower(lang);
    match best_dir(seq![base] + subdirs, prefers_zh(l), stable_for_en(l, setting)) {
        Some(x) => x.2,
        None => base.path@,
    }
}

/// English prefers stable models unless told otherwise: with no setting the
/// choice for an English code is the one made with stable models asked for
/// (the setting `true`), and it differs from the choice with stable models
/// turned off (the setting `0`) only through the stable preference. Only a
/// setting of `0` or `false` turns the preference off.
pub proof fn lemma_english_prefers_stable_by_default(
    base: AsrModelDir,
    subdirs: Seq<AsrModelDir>,
    lang: Seq<char>,
)
    requires
        lower(lang) == "en"@ || lower(lang) == "en-us"@ || lower(lang) == "en-gb"@,
    ensures
        stable_for_en(lower(lang), None),
        !stable_for_en(lower(lang), Some("0"@)),
        !stable_for_en(lower(lang), Some("false"@)),
        preferred_dir(base, subdirs, lang, None) == preferred_dir(base, subdirs, lang, Some("true"@)),
        preferred_dir(base, subdirs, lang, Some("0"@)) == preferred_dir(
            base,
            subdirs,
            lang,
            Some("false"@),
        ),
{
    reveal_strlit("true");
    reveal_strlit("0");
    reveal_strlit("false");
    assert(lower("true"@).len() == 4);
    assert(lower("false"@) =~= "false"@);
    assert(lower("true"@) != "false"@);
    assert("true"@ != "0"@);
}

fn score_of(d: &AsrModelDir, zh: bool, st: bool) -> (s: i32)
    ensures
        s == dir_score(lower(d.path@), paraformer_files(d.entries@), zipformer_files(d.entries@), zh, st),
{
    let name = lower_chars(&chars_of(d.path.as_str()));
    let para = has_paraformer_files(&d.entries);
    let zip = has_zipformer_files(&d.entries);
    let en = contains_str(&name, "-en") || contains_str(&name, "_en");
    let cn = contains_str(&name, "zh") || contains_str(&name, "trilingual") || contains_str(&name, "multi");
    let chinese_part: i32 = (if para {
        8i32
    } else {
        0i32
    }) + (if cn {
        4i32
    } else {
        0i32
    }) - (if en {
        4i32
    } else {
        0i32
    });
    if zh {
        chinese_part
    } else {
        (if st {
            chinese_part
        } else {
            0i32
        }) + (if zip {
            4i32
        } else {
            0i32
        }) + (if en {
            2i32
        } else {
            0i32
        })
    }
}

/// The model directory to load for a language.
pub fn pick_preferred_asr_model_dir(
    base: &AsrModelDir,
    subdirs: &Vec<AsrModelDir>,
    preferred_lang: &str,
    stable_setting: Option<&str>,
) -> (r: String)
    ensures
        r@ == preferred_dir(*base, subdirs@, preferred_lang@, crate::governance::opt_ref_view(stable_setting)),
{
    let lang = lower_chars(&chars_of(preferred_lang));
    let zh = crate::text::chars_eq_str(&lang, "zh") || crate::text::chars_eq_str(&lang, "zh-cn")
        || crate::text::chars_eq_str(&lang, "zh-tw") || crate::text::chars_eq_str(&lang, "yue");
    let en = crate::text::chars_eq_str(&lang, "en") || crate::text::chars_eq_str(&lang, "en-us")
        || crate::text::chars_eq_str(&lang, "en-gb");
    let st = en && match stable_setting {
        Some(v) => !crate::text::str_eq(v, "0") && !crate::text::chars_eq_str(
            &lower_chars(&chars_of(v)),
            "false",
        ),
        None => true,
    };
    let ghost all = seq![*base] + subdirs@;
    let n = subdirs.len();
    assert(all.subrange(0, 1).drop_last() =~= Seq::<AsrModelDir>::empty());
    assert(all[0] == *base);
    assert(best_dir(Seq::<AsrModelDir>::empty(), zh, st) is None);
    assert(all.subrange(0, 1).last() == *base);
    let mut best: Option<(i32, u64, usize)> = None;
    if is_valid_asr_model_dir(&base.entries) {
        best = Some((score_of(base, zh, st), base.size, 0));
    }
    let mut i: usize = 0;
    while i < n
        invariant
            i <= n,
            n == subdirs@.len(),
            all == seq![*base] + subdirs@,
            match best {
                Some(b) => b.2 <= i && best_dir(all.subrange(0, i + 1), zh, st) == Some(
                    (b.0 as int, b.1, all[b.2 as int].path@),
                ),
                None => best_dir(all.subrange(0, i + 1), zh, st) is None,
            },
        decreases n - i,
    {
        let d: &AsrModelDir = &subdirs[i];
        assert(*d == all[i + 1]);
        assert(all.subrange(0, i + 2).drop_last() =~= all.subrange(0, i + 1));
        if is_valid_asr_model_dir(&d.entries) {
            let s = score_of(d, zh, st);
            let keep = match best {
                Some(b) => b.0 > s || (b.0 == s && b.1 >= d.size),
                None => false,
            };
            if !keep {
                best = Some((s, d.size, i + 1));
            }
        }
        i = i + 1;
    }
    assert(all.subrange(0, n + 1) =~= all);
    match best {
        Some(b) => {
            if b.2 == 0 {
                base.path.clone()
            } else {
                subdirs[b.2 - 1].path.clone()
            }
        },
        None => base.path.clone(),
    }
}

/// The largest directory (the first of equal ones) among `ds` that holds a
/// streaming zipformer model: size and path.
pub open spec fn largest_zipformer(ds: Seq<AsrModelDir>) -> Option<(u64, Seq<char>)>
    decreases ds.len(),
{
    if ds.len() == 0 {
        None
    } else {
        let b = largest_zipformer(ds.drop_last());
        let d = ds.last();
        if !zipformer_files(d.entries@) {
            b
        } else {
            match b {
                Some(x) => if x.0 >= d.size {
                    b
                } else {
                    Some((d.size, d.path@))
                },
                None => Some((d.size, d.path@)),
            }
        }
    }
}

/// The session's ASR model directory: the base directory when it holds a
/// streaming zipformer model, else the largest subdirectory that does.
pub fn resolve_asr_model_dir(base: &AsrModelDir, subdirs: &Vec<AsrModelDir>) -> (r: Option<String>)
    ensures
        zipformer_files(base.entries@) ==> (r matches Some(p) && p@ == base.path@),
        !zipformer_files(base.entries@) ==> match largest_zipformer(subdirs@) {
            Some(x) => (r matches Some(p) && p@ == x.1),
            None => r is None,
        },
{
    if has_required_asr_files(&base.entries) {
        return Some(base.path.clone());
    }
    let mut best: Option<(u64, usize)> = None;
    let mut i: usize = 0;
    assert(subdirs@.subrange(0, 0) =~= Seq::<AsrModelDir>::empty());
    while i < subdirs.len()
        invariant
            i <= subdirs@.len(),
            match best {
                Some(b) => b.1 < i && largest_zipformer(subdirs@.subrange(0, i as int)) == Some(
                    (b.0, subdirs@[b.1 as int].path@),
                ),
                None => largest_zipformer(subdirs@.subrange(0, i as int)) is None,
            },
        decreases subdirs.len() - i,
    {
        assert(subdirs@.subrange(0, i + 1).drop_last() =~= subdirs@.subrange(0, i as int));
        let d = &subdirs[i];
        if has_required_asr_files(&d.entries) {
            let keep = match best {
                Some(b) => b.0 >= d.size,
                None => false,
            };
            if !keep {
                best = Some((d.size, i));
            }
        }
        i = i + 1;
    }
    assert(subdirs@.subrange(0, subdirs@.len() as int) =~= subdirs@);
    match best {
        Some(b) => Some(subdirs[b.1].path.clone()),
        None => None,
    }
}

/// An entry name that marks an English-only model.
pub open spec fn english_entry(name: Seq<char>) -> bool {
    let l = lower(name);
    contains(l, "-en-"@) || contains(l, ".en."@) || contains(l, "_en_"@)
}

/// Whether the session's ASR model only knows English: its directory's name
/// ends in or carries an `en` tag, or one of its entries does.
pub open spec fn english_only(dir: Option<AsrModelDir>) -> bool {
    match dir {
        Some(d) => {
            let n = lower(d.name@);
            english_tag(n) || has_suffix(n, "en"@) || exists|i: int|
                0 <= i < d.entries@.len() && english_entry((#[trigger] d.entries@[i]).name@)
        },
        None => false,
    }
}

/// Whether the session's ASR model (the directory `resolve_asr_model_dir`
/// found, if any) only knows English.
pub fn is_english_only_asr_model(dir: Option<&AsrModelDir>) -> (b: bool)
    ensures
        b == english_only(match dir {
            Some(d) => Some(*d),
            None => None,
        }),
{
    let d = match dir {
        Some(d) => d,
        None => {
            return false;
        },
    };
    let n = lower_chars(&chars_of(d.name.as_str()));
    if contains_str(&n, "-en") || contains_str(&n, "_en") || ends_with_str(&n, "en") {
        return true;
    }
    let mut i: usize = 0;
    while i < d.entries.len()
        invariant
            i <= d.entries@.len(),
            dir matches Some(x) && *x == *d,
            !(english_tag(lower(d.name@)) || has_suffix(lower(d.name@), "en"@)),
            forall|k: int| 0 <= k < i ==> !english_entry((#[trigger] d.entries@[k]).name@),
        decreases d.entries.len() - i,
    {
        let l = lower_chars(&chars_of(d.entries[i].name.as_str()));
        if contains_str(&l, "-en-") || contains_str(&l, ".en.") || contains_str(&l, "_en_") {
            assert(english_entry(d.entries@[i as int].name@));
            return true;
        }
        i = i + 1;
    }
    false
}

/// The file of a network to load: the first of `<prefix>-epoch-99-avg-1.int8.onnx`,
/// `<prefix>-epoch-99-avg-1.onnx`, `<prefix>.int8.onnx` and `<prefix>.onnx`
/// that the directory has, else `<prefix>.onnx`.
pub open spec fn model_file_for(es: Seq<DirEntryInfo>, prefix: Seq<char>) -> Seq<char> {
    let c1 = prefix + "-epoch-99-avg-1.int8.onnx"@;
    let c2 = prefix + "-epoch-99-avg-1.onnx"@;
    let c3 = prefix + ".int8.onnx"@;
    let c4 = prefix + ".onnx"@;
    if has_entry(es, c1) {
        c1
    } else if has_entry(es, c2) {
        c2
    } else if has_entry(es, c3) {
        c3
    } else {
        c4
    }
}

fn with_suffix(prefix: &str, suffix: &str) -> (r: String)
    ensures
        r@ == prefix@ + suffix@,
{
    let mut r = crate::text::owned(prefix);
    crate::text::push_str(&mut r, suffix);
    r
}

/// The file name of a network to load from a model directory.
pub fn find_model_file(es: &Vec<DirEntryInfo>, prefix: &str) -> (r: String)
    ensures
        r@ == model_file_for(es@, prefix@),
{
    let c1 = with_suffix(prefix, "-epoch-99-avg-1.int8.onnx");
    let c2 = with_suffix(prefix, "-epoch-99-avg-1.onnx");
    let c3 = with_suffix(prefix, ".int8.onnx");
    let c4 = with_suffix(prefix, ".onnx");
    if has_entry_named(es, c1.as_str()) {
        c1
    } else if has_entry_named(es, c2.as_str()) {
        c2
    } else if has_entry_named(es, c3.as_str()) {
        c3
    } else {
        c4
    }
}

/// The largest directory (the first of equal ones) among `ds` that holds a
/// usable model of either kind: size and path.
pub open spec fn largest_valid(ds: Seq<AsrModelDir>) -> Option<(u64, Seq<char>)>
    decreases ds.len(),
{
    if ds.len() == 0 {
        None
    } else {
        let b = largest_valid(ds.drop_last());
        let d = ds.last();
        if !(zipformer_files(d.entries@) || paraformer_files(d.entries@)) {
            b
        } else {
            match b {
                Some(x) => if x.0 >= d.size {
                    b
                } else {
                    Some((d.size, d.path@))
                },
                None => Some((d.size, d.path@)),
            }
        }
    }
}

/// The directory the Sherpa engine loads: the base directory when it holds a
/// usable model, else the largest subdirectory that does, else the base
/// directory.
pub fn resolve_sherpa_model_dir(base: &AsrModelDir, subdirs: &Vec<AsrModelDir>) -> (r: String)
    ensures
        (zipformer_files(base.entries@) || paraformer_files(base.entries@)) ==> r@ == base.path@,
        !(zipformer_files(base.entries@) || paraformer_files(base.entries@)) ==> r@ == match largest_valid(subdirs@) {
            Some(x) => x.1,
            None => base.path@,
        },
{
    if is_valid_asr_model_dir(&base.entries) {
        return base.path.clone();
    }
    let mut best: Option<(u64, usize)> = None;
    let mut i: usize = 0;
    assert(subdirs@.subrange(0, 0) =~= Seq::<AsrModelDir>::empty());
    while i < subdirs.len()
        invariant
            i <= subdirs@.len(),
            match best {
                Some(b) => b.1 < i && largest_valid(subdirs@.subrange(0, i as int)) == Some(
                    (b.0, subdirs@[b.1 as int].path@),
                ),
                None => largest_valid(subdirs@.subrange(0, i as int)) is None,
            },
        decreases subdirs.len() - i,
    {
        assert(subdirs@.subrange(0, i + 1).drop_last() =~= subdirs@.subrange(0, i as int));
        let d = &subdirs[i];
        if is_valid_asr_model_dir(&d.entries) {
            let keep = match best {
                Some(b) => b.0 >= d.size,
                None => false,
            };
            if !keep {
                best = Some((d.size, i));
            }
        }
        i = i + 1;
    }
    assert(subdirs@.subrange(0, subdirs@.len() as int) =~= subdirs@);
    match best {
        Some(b) => subdirs[b.1].path.clone(),
        None => base.path.clone(),
    }
}

} // verus!

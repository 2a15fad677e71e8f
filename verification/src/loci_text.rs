//! Text handling around the local LLM translator: the prompt it is given, the
//! comparison key that detects an echoed source, the heuristics that flag a
//! garbled output, and the cleaning that turns raw model output into one
//! translation.
use vstd::prelude::*;

use crate::text::{chars_of, lower, lower_chars, owned, push_str, string_of, trim_lower};

verus! {

/// ASCII punctuation (as `char::is_ascii_punctuation`): `!` to `/`, `:` to `@`,
/// `[` to `` ` `` and `{` to `~`.
pub open spec fn is_ascii_punct(c: char) -> bool {
    let u = c as u32;
    (0x21 <= u && u <= 0x2F) || (0x3A <= u && u <= 0x40) || (0x5B <= u && u <= 0x60) || (0x7B
        <= u && u <= 0x7E)
}

/// Whether `c` is ASCII punctuation.
pub fn char_is_ascii_punct(c: char) -> (b: bool)
    ensures
        b == is_ascii_punct(c),
{
    let u = c as u32;
    (0x21 <= u && u <= 0x2F) || (0x3A <= u && u <= 0x40) || (0x5B <= u && u <= 0x60) || (0x7B <= u
        && u <= 0x7E)
}

/// The characters that `char::to_lowercase` yields for `c` (Unicode lowercase
/// mapping, one to three characters).
pub uninterp spec fn lowercase_of(c: char) -> Seq<char>;

/// `char::to_lowercase`, collected.
#[verifier::external_body]
fn char_to_lowercase(c: char) -> (r: Vec<char>)
    ensures
        r@ == lowercase_of(c),
{
    c.to_lowercase().collect()
}

/// The comparison key of a text: whitespace and ASCII punctuation dropped,
/// every other character lowercased.
pub open spec fn compare_key(s: Seq<char>) -> Seq<char>
    decreases s.len(),
{
    if s.len() == 0 {
        Seq::empty()
    } else {
        let rest = compare_key(s.drop_last());
        let c = s.last();
        if crate::text::is_ws(c) || is_ascii_punct(c) {
            rest
        } else {
            rest + lowercase_of(c)
        }
    }
}

/// The comparison key of `v`.
pub fn compare_key_of(v: &Vec<char>) -> (r: Vec<char>)
    ensures
        r@ == compare_key(v@),
{
    let mut r: Vec<char> = Vec::new();
    let mut i: usize = 0;
    assert(v@.subrange(0, 0) =~= Seq::<char>::empty());
    while i < v.len()
        invariant
            i <= v@.len(),
            r@ == compare_key(v@.subrange(0, i as int)),
        decreases v.len() - i,
    {
        let c = v[i];
        assert(v@.subrange(0, i + 1).drop_last() =~= v@.subrange(0, i as int));
        if !crate::text::char_is_ws(c) && !char_is_ascii_punct(c) {
            let low = char_to_lowercase(c);
            let mut k: usize = 0;
            let ghost r0 = r@;
            while k < low.len()
                invariant
                    k <= low@.len(),
                    r@ == r0 + low@.subrange(0, k as int),
                decreases low.len() - k,
            {
                r.push(low[k]);
                assert(low@.subrange(0, k + 1) =~= low@.subrange(0, k as int).push(low@[k as int]));
                k = k + 1;
            }
            assert(low@.subrange(0, low@.len() as int) =~= low@);
        }
        i = i + 1;
    }
    assert(v@.subrange(0, v@.len() as int) =~= v@);
    r
}

/// The comparison key of a text, as a string.
pub fn normalize_for_compare(text: &str) -> (r: String)
    ensures
        r@ == compare_key(text@),
{
    let v = chars_of(text);
    let k = compare_key_of(&v);
    string_of(&k)
}

/// The language name the prompt uses for a language code (compared
/// ASCII-lowercased).
pub open spec fn lang_name(code: Seq<char>) -> Seq<char> {
    if code == "zh"@ || code == "zh-cn"@ || code == "zh-hans"@ {
        "Chinese (Simplified)"@
    } else if code == "zh-tw"@ || code == "zh-hant"@ {
        "Chinese (Traditional)"@
    } else if code == "en"@ || code == "en-us"@ || code == "en-gb"@ {
        "English"@
    } else if code == "ja"@ {
        "Japanese"@
    } else if code == "ko"@ {
        "Korean"@
    } else if code == "fr"@ {
        "French"@
    } else if code == "de"@ {
        "German"@
    } else if code == "es"@ {
        "Spanish"@
    } else if code == "ru"@ {
        "Russian"@
    } else {
        "the target language"@
    }
}

/// Each supported language code names its own language, whatever its case;
/// any other code names no particular language.
pub proof fn lemma_lang_names(code: Seq<char>)
    ensures
        lang_name("zh"@) == "Chinese (Simplified)"@,
        lang_name("zh-cn"@) == "Chinese (Simplified)"@,
        lang_name("zh-hans"@) == "Chinese (Simplified)"@,
        lang_name("zh-tw"@) == "Chinese (Traditional)"@,
        lang_name("zh-hant"@) == "Chinese (Traditional)"@,
        lang_name("en"@) == "English"@,
        lang_name("en-us"@) == "English"@,
        lang_name("en-gb"@) == "English"@,
        lang_name("ja"@) == "Japanese"@,
        lang_name("ko"@) == "Korean"@,
        lang_name("fr"@) == "French"@,
        lang_name("de"@) == "German"@,
        lang_name("es"@) == "Spanish"@,
        lang_name("ru"@) == "Russian"@,
        lang_name(lower(code)) == "Japanese"@ <==> lower(code) == "ja"@,
        lang_name(lower(code)) == "Korean"@ <==> lower(code) == "ko"@,
        lang_name(lower(code)) == "French"@ <==> lower(code) == "fr"@,
        lang_name(lower(code)) == "German"@ <==> lower(code) == "de"@,
        lang_name(lower(code)) == "Spanish"@ <==> lower(code) == "es"@,
        lang_name(lower(code)) == "Russian"@ <==> lower(code) == "ru"@,
{
    reveal_strlit("zh");
    reveal_strlit("zh-cn");
    reveal_strlit("zh-hans");
    reveal_strlit("zh-tw");
    reveal_strlit("zh-hant");
    reveal_strlit("en");
    reveal_strlit("en-us");
    reveal_strlit("en-gb");
    reveal_strlit("ja");
    reveal_strlit("ko");
    reveal_strlit("fr");
    reveal_strlit("de");
    reveal_strlit("es");
    reveal_strlit("ru");
    reveal_strlit("Chinese (Simplified)");
    reveal_strlit("Chinese (Traditional)");
    reveal_strlit("English");
    reveal_strlit("Japanese");
    reveal_strlit("Korean");
    reveal_strlit("French");
    reveal_strlit("German");
    reveal_strlit("Spanish");
    reveal_strlit("Russian");
    reveal_strlit("the target language");
    assert("zh-cn"@.len() != "zh"@.len());
    assert("zh-hans"@.len() != "zh"@.len());
    assert("zh-hans"@.len() != "zh-cn"@.len());
    assert("zh-tw"@.len() != "zh"@.len());
    assert("zh-tw"@[3] != "zh-cn"@[3]);
    assert("zh-tw"@.len() != "zh-hans"@.len());
    assert("zh-hant"@.len() != "zh"@.len());
    assert("zh-hant"@.len() != "zh-cn"@.len());
    assert("zh-hant"@[6] != "zh-hans"@[6]);
    assert("zh-hant"@.len() != "zh-tw"@.len());
    assert("en"@[0] != "zh"@[0]);
    assert("en"@.len() != "zh-cn"@.len());
    assert("en"@.len() != "zh-hans"@.len());
    assert("en"@.len() != "zh-tw"@.len());
    assert("en"@.len() != "zh-hant"@.len());
    assert("en-us"@.len() != "zh"@.len());
    assert("en-us"@[0] != "zh-cn"@[0]);
    assert("en-us"@.len() != "zh-hans"@.len());
    assert("en-us"@[0] != "zh-tw"@[0]);
    assert("en-us"@.len() != "zh-hant"@.len());
    assert("en-us"@.len() != "en"@.len());
    assert("en-gb"@.len() != "zh"@.len());
    assert("en-gb"@[0] != "zh-cn"@[0]);
    assert("en-gb"@.len() != "zh-hans"@.len());
    assert("en-gb"@[0] != "zh-tw"@[0]);
    assert("en-gb"@.len() != "zh-hant"@.len());
    assert("en-gb"@.len() != "en"@.len());
    assert("en-gb"@[3] != "en-us"@[3]);
    assert("ja"@[0] != "zh"@[0]);
    assert("ja"@.len() != "zh-cn"@.len());
    assert("ja"@.len() != "zh-hans"@.len());
    assert("ja"@.len() != "zh-tw"@.len());
    assert("ja"@.len() != "zh-hant"@.len());
    assert("ja"@[0] != "en"@[0]);
    assert("ja"@.len() != "en-us"@.len());
    assert("ja"@.len() != "en-gb"@.len());
    assert("ko"@[0] != "zh"@[0]);
    assert("ko"@.len() != "zh-cn"@.len());
    assert("ko"@.len() != "zh-hans"@.len());
    assert("ko"@.len() != "zh-tw"@.len());
    assert("ko"@.len() != "zh-hant"@.len());
    assert("ko"@[0] != "en"@[0]);
    assert("ko"@.len() != "en-us"@.len());
    assert("ko"@.len() != "en-gb"@.len());
    assert("ko"@[0] != "ja"@[0]);
    assert("fr"@[0] != "zh"@[0]);
    assert("fr"@.len() != "zh-cn"@.len());
    assert("fr"@.len() != "zh-hans"@.len());
    assert("fr"@.len() != "zh-tw"@.len());
    assert("fr"@.len() != "zh-hant"@.len());
    assert("fr"@[0] != "en"@[0]);
    assert("fr"@.len() != "en-us"@.len());
    assert("fr"@.len() != "en-gb"@.len());
    assert("fr"@[0] != "ja"@[0]);
    assert("fr"@[0] != "ko"@[0]);
    assert("de"@[0] != "zh"@[0]);
    assert("de"@.len() != "zh-cn"@.len());
    assert("de"@.len() != "zh-hans"@.len());
    assert("de"@.len() != "zh-tw"@.len());
    assert("de"@.len() != "zh-hant"@.len());
    assert("de"@[0] != "en"@[0]);
    assert("de"@.len() != "en-us"@.len());
    assert("de"@.len() != "en-gb"@.len());
    assert("de"@[0] != "ja"@[0]);
    assert("de"@[0] != "ko"@[0]);
    assert("de"@[0] != "fr"@[0]);
    assert("es"@[0] != "zh"@[0]);
    assert("es"@.len() != "zh-cn"@.len());
    assert("es"@.len() != "zh-hans"@.len());
    assert("es"@.len() != "zh-tw"@.len());
    assert("es"@.len() != "zh-hant"@.len());
    assert("es"@[1] != "en"@[1]);
    assert("es"@.len() != "en-us"@.len());
    assert("es"@.len() != "en-gb"@.len());
    assert("es"@[0] != "ja"@[0]);
    assert("es"@[0] != "ko"@[0]);
    assert("es"@[0] != "fr"@[0]);
    assert("es"@[0] != "de"@[0]);
    assert("ru"@[0] != "zh"@[0]);
    assert("ru"@.len() != "zh-cn"@.len());
    assert("ru"@.len() != "zh-hans"@.len());
    assert("ru"@.len() != "zh-tw"@.len());
    assert("ru"@.len() != "zh-hant"@.len());
    assert("ru"@[0] != "en"@[0]);
    assert("ru"@.len() != "en-us"@.len());
    assert("ru"@.len() != "en-gb"@.len());
    assert("ru"@[0] != "ja"@[0]);
    assert("ru"@[0] != "ko"@[0]);
    assert("ru"@[0] != "fr"@[0]);
    assert("ru"@[0] != "de"@[0]);
    assert("ru"@[0] != "es"@[0]);
    assert("Chinese (Traditional)"@.len() != "Chinese (Simplified)"@.len());
    assert("English"@.len() != "Chinese (Simplified)"@.len());
    assert("English"@.len() != "Chinese (Traditional)"@.len());
    assert("Japanese"@.len() != "Chinese (Simplified)"@.len());
    assert("Japanese"@.len() != "Chinese (Traditional)"@.len());
    assert("Japanese"@.len() != "English"@.len());
    assert("Korean"@.len() != "Chinese (Simplified)"@.len());
    assert("Korean"@.len() != "Chinese (Traditional)"@.len());
    assert("Korean"@.len() != "English"@.len());
    assert("Korean"@.len() != "Japanese"@.len());
    assert("French"@.len() != "Chinese (Simplified)"@.len());
    assert("French"@.len() != "Chinese (Traditional)"@.len());
    assert("French"@.len() != "English"@.len());
    assert("French"@.len() != "Japanese"@.len());
    assert("French"@[0] != "Korean"@[0]);
    assert("German"@.len() != "Chinese (Simplified)"@.len());
    assert("German"@.len() != "Chinese (Traditional)"@.len());
    assert("German"@.len() != "English"@.len());
    assert("German"@.len() != "Japanese"@.len());
    assert("German"@[0] != "Korean"@[0]);
    assert("German"@[0] != "French"@[0]);
    assert("Spanish"@.len() != "Chinese (Simplified)"@.len());
    assert("Spanish"@.len() != "Chinese (Traditional)"@.len());
    assert("Spanish"@[0] != "English"@[0]);
    assert("Spanish"@.len() != "Japanese"@.len());
    assert("Spanish"@.len() != "Korean"@.len());
    assert("Spanish"@.len() != "French"@.len());
    assert("Spanish"@.len() != "German"@.len());
    assert("Russian"@.len() != "Chinese (Simplified)"@.len());
    assert("Russian"@.len() != "Chinese (Traditional)"@.len());
    assert("Russian"@[0] != "English"@[0]);
    assert("Russian"@.len() != "Japanese"@.len());
    assert("Russian"@.len() != "Korean"@.len());
    assert("Russian"@.len() != "French"@.len());
    assert("Russian"@.len() != "German"@.len());
    assert("Russian"@[0] != "Spanish"@[0]);
    assert("the target language"@.len() != "Chinese (Simplified)"@.len());
    assert("the target language"@.len() != "Chinese (Traditional)"@.len());
    assert("the target language"@.len() != "English"@.len());
    assert("the target language"@.len() != "Japanese"@.len());
    assert("the target language"@.len() != "Korean"@.len());
    assert("the target language"@.len() != "French"@.len());
    assert("the target language"@.len() != "German"@.len());
    assert("the target language"@.len() != "Spanish"@.len());
    assert("the target language"@.len() != "Russian"@.len());
}

/// The language name for a language code.
pub fn normalize_lang_name(lang: &str) -> (r: &'static str)
    ensures
        r@ == lang_name(lower(lang@)),
{
    let v = chars_of(lang);
    let code = lower_chars(&v);
    let c = &code;
    if crate::text::chars_eq_str(c, "zh") || crate::text::chars_eq_str(c, "zh-cn")
        || crate::text::chars_eq_str(c, "zh-hans") {
        "Chinese (Simplified)"
    } else if crate::text::chars_eq_str(c, "zh-tw") || crate::text::chars_eq_str(c, "zh-hant") {
        "Chinese (Traditional)"
    } else if crate::text::chars_eq_str(c, "en") || crate::text::chars_eq_str(c, "en-us")
        || crate::text::chars_eq_str(c, "en-gb") {
        "English"
    } else if crate::text::chars_eq_str(c, "ja") {
        "Japanese"
    } else if crate::text::chars_eq_str(c, "ko") {
        "Korean"
    } else if crate::text::chars_eq_str(c, "fr") {
        "French"
    } else if crate::text::chars_eq_str(c, "de") {
        "German"
    } else if crate::text::chars_eq_str(c, "es") {
        "Spanish"
    } else if crate::text::chars_eq_str(c, "ru") {
        "Russian"
    } else {
        "the target language"
    }
}

/// The prompt that asks the model for a translation of `text`.
pub open spec fn translation_prompt(text: Seq<char>, src: Seq<char>, tgt: Seq<char>) -> Seq<char> {
    "You are a professional translation engine.\nTranslate from "@ + src + " to "@ + tgt
        + ".\nRules:\n1) Output only the final "@ + tgt
        + " translation.\n2) Do NOT repeat the source text.\n3) No explanations, no extra labels.\n4) Preserve names and numbers.\n5) Do not add extra meaning or repeated paraphrases.\nSource text:\n"@
        + text + "\nTranslation:"@
}

/// The translation prompt for `text` from `source_lang` to `target_lang`.
pub fn build_translation_prompt(text: &str, source_lang: &str, target_lang: &str) -> (r: String)
    ensures
        r@ == translation_prompt(text@, lang_name(lower(source_lang@)), lang_name(lower(target_lang@))),
{
    let src = normalize_lang_name(source_lang);
    let tgt = normalize_lang_name(target_lang);
    let mut p = owned("You are a professional translation engine.\nTranslate from ");
    push_str(&mut p, src);
    push_str(&mut p, " to ");
    push_str(&mut p, tgt);
    push_str(&mut p, ".\nRules:\n1) Output only the final ");
    push_str(&mut p, tgt);
    push_str(
        &mut p,
        " translation.\n2) Do NOT repeat the source text.\n3) No explanations, no extra labels.\n4) Preserve names and numbers.\n5) Do not add extra meaning or repeated paraphrases.\nSource text:\n",
    );
    push_str(&mut p, text);
    push_str(&mut p, "\nTranslation:");
    p
}

/// How many characters of `s` satisfy `p`.
pub open spec fn count_where(s: Seq<char>, p: spec_fn(char) -> bool) -> nat
    decreases s.len(),
{
    if s.len() == 0 {
        0
    } else {
        count_where(s.drop_last(), p) + if p(s.last()) {
            1nat
        } else {
            0nat
        }
    }
}

/// A count never exceeds the length.
pub proof fn lemma_count_where_le(s: Seq<char>, p: spec_fn(char) -> bool)
    ensures
        count_where(s, p) <= s.len(),
    decreases s.len(),
{
    if s.len() > 0 {
        lemma_count_where_le(s.drop_last(), p);
    }
}

/// Characters that mark markup or template debris in an output.
pub open spec fn is_noisy(c: char) -> bool {
    c == '{' || c == '}' || c == '|' || c == '<' || c == '>' || c == '/' || c == '\\' || c == '*'
        || c == '_'
}

/// CJK ideographs (unified and extension A) and CJK symbols and punctuation.
pub open spec fn is_cjk(c: char) -> bool {
    let u = c as u32;
    (0x4E00 <= u && u <= 0x9FFF) || (0x3400 <= u && u <= 0x4DBF) || (0x3000 <= u && u <= 0x303F)
}

/// ASCII letters.
pub open spec fn is_ascii_alpha(c: char) -> bool {
    ('a' <= c && c <= 'z') || ('A' <= c && c <= 'Z')
}

/// ASCII punctuation other than the marks ordinary prose uses: `, . ! ? ; : ' " ( ) [ ] -`.
pub open spec fn is_odd_punct(c: char) -> bool {
    is_ascii_punct(c) && !(c == ',' || c == '.' || c == '!' || c == '?' || c == ';' || c == ':'
        || c == '\'' || c == '"' || c == '(' || c == ')' || c == '[' || c == ']' || c == '-')
}

/// A Chinese language code.
pub open spec fn is_chinese_code(t: Seq<char>) -> bool {
    t == "zh"@ || t == "zh-cn"@ || t == "zh-hans"@ || t == "zh-tw"@ || t == "zh-hant"@
}

/// Whether an output looks garbled for the target language: it is empty after
/// trimming; or more than half of it is markup debris; or it is meant to be
/// Chinese and under a tenth of it is CJK; or it is meant to be English and
/// under a fifth of it is ASCII letters; or over a fifth of it is unusual
/// ASCII punctuation.
pub open spec fn corrupted(text: Seq<char>, target_lang: Seq<char>) -> bool {
    let t = crate::text::trim(text);
    let n = t.len();
    let target = lower(target_lang);
    if n == 0 {
        true
    } else if count_where(t, |c: char| is_noisy(c)) * 2 > n {
        true
    } else if is_chinese_code(target) && count_where(t, |c: char| is_cjk(c)) * 10 < n {
        true
    } else if crate::text::has_prefix(target, "en"@) && count_where(t, |c: char| is_ascii_alpha(c))
        * 5 < n {
        true
    } else {
        count_where(t, |c: char| is_odd_punct(c)) * 5 > n
    }
}

/// Whether an output looks garbled for the target language.
pub fn looks_corrupted(text: &str, target_lang: &str) -> (r: bool)
    ensures
        r == corrupted(text@, target_lang@),
{
    let v = chars_of(text);
    let t = crate::text::trim_chars(&v);
    let n = t.len();
    if n == 0 {
        return true;
    }
    let mut noisy: usize = 0;
    let mut cjk: usize = 0;
    let mut alpha: usize = 0;
    let mut punct: usize = 0;
    let mut i: usize = 0;
    assert(t@.subrange(0, 0) =~= Seq::<char>::empty());
    while i < n
        invariant
            n == t@.len(),
            i <= n,
            noisy == count_where(t@.subrange(0, i as int), |c: char| is_noisy(c)),
            cjk == count_where(t@.subrange(0, i as int), |c: char| is_cjk(c)),
            alpha == count_where(t@.subrange(0, i as int), |c: char| is_ascii_alpha(c)),
            punct == count_where(t@.subrange(0, i as int), |c: char| is_odd_punct(c)),
            noisy <= i,
            cjk <= i,
            alpha <= i,
            punct <= i,
        decreases n - i,
    {
        let c = t[i];
        assert(t@.subrange(0, i + 1).drop_last() =~= t@.subrange(0, i as int));
        if c == '{' || c == '}' || c == '|' || c == '<' || c == '>' || c == '/' || c == '\\' || c
            == '*' || c == '_' {
            noisy = noisy + 1;
        }
        let u = c as u32;
        if (0x4E00 <= u && u <= 0x9FFF) || (0x3400 <= u && u <= 0x4DBF) || (0x3000 <= u && u
            <= 0x303F) {
            cjk = cjk + 1;
        }
        if ('a' <= c && c <= 'z') || ('A' <= c && c <= 'Z') {
            alpha = alpha + 1;
        }
        if char_is_ascii_punct(c) && !(c == ',' || c == '.' || c == '!' || c == '?' || c == ';' || c
            == ':' || c == '\'' || c == '"' || c == '(' || c == ')' || c == '[' || c == ']' || c
            == '-') {
            punct = punct + 1;
        }
        i = i + 1;
    }
    assert(t@.subrange(0, n as int) =~= t@);
    let len = n as u128;
    if (noisy as u128) * 2 > len {
        return true;
    }
    let target = trim_lower_code(target_lang);
    let tc = &target;
    let chinese = crate::text::chars_eq_str(tc, "zh") || crate::text::chars_eq_str(tc, "zh-cn")
        || crate::text::chars_eq_str(tc, "zh-hans") || crate::text::chars_eq_str(tc, "zh-tw")
        || crate::text::chars_eq_str(tc, "zh-hant");
    if chinese && (cjk as u128) * 10 < len {
        return true;
    }
    if crate::text::starts_with_str(tc, "en") && (alpha as u128) * 5 < len {
        return true;
    }
    (punct as u128) * 5 > len
}

fn trim_lower_code(s: &str) -> (r: Vec<char>)
    ensures
        r@ == lower(s@),
{
    let v = chars_of(s);
    lower_chars(&v)
}

/// The characters that end a sentence: `.`, `!`, `?` and their full-width
/// forms `。`, `！`, `？`.
pub open spec fn is_terminator(c: char) -> bool {
    c == '.' || c == '!' || c == '?' || c == '。' || c == '！' || c == '？'
}

fn char_is_terminator(c: char) -> (b: bool)
    ensures
        b == is_terminator(c),
{
    c == '.' || c == '!' || c == '?' || c == '。' || c == '！' || c == '？'
}

/// The sentences of `s` read so far: the finished ones (each trimmed, the
/// empty ones left out) and the unfinished rest.
pub open spec fn split_state(s: Seq<char>) -> (Seq<Seq<char>>, Seq<char>)
    decreases s.len(),
{
    if s.len() == 0 {
        (Seq::empty(), Seq::empty())
    } else {
        let (closed, open) = split_state(s.drop_last());
        let c = s.last();
        let open2 = open.push(c);
        if is_terminator(c) {
            (
                if crate::text::trim(open2).len() > 0 {
                    closed.push(crate::text::trim(open2))
                } else {
                    closed
                },
                Seq::empty(),
            )
        } else {
            (closed, open2)
        }
    }
}

/// The sentences of `s`, each ending at a sentence terminator (the last one
/// may run to the end of `s`), trimmed, the empty ones left out.
pub open spec fn sentences(s: Seq<char>) -> Seq<Seq<char>> {
    let (closed, open) = split_state(s);
    if crate::text::trim(open).len() > 0 {
        closed.push(crate::text::trim(open))
    } else {
        closed
    }
}

/// `seg` appended to `acc` unless it repeats the last sentence of `acc` (by
/// comparison key).
pub open spec fn dedup_step(acc: Seq<Seq<char>>, seg: Seq<char>) -> Seq<Seq<char>> {
    if acc.len() > 0 && compare_key(acc.last()) == compare_key(seg) {
        acc
    } else {
        acc.push(seg)
    }
}

/// The sentences `segs` appended to `acc` one by one, immediate repetitions
/// left out, stopping as soon as `limit` sentences are kept.
pub open spec fn dedup_limited(acc: Seq<Seq<char>>, segs: Seq<Seq<char>>, limit: nat) -> Seq<Seq<char>>
    decreases segs.len(),
{
    if segs.len() == 0 {
        acc
    } else {
        let a2 = dedup_step(acc, segs[0]);
        if a2.len() >= limit {
            a2
        } else {
            dedup_limited(a2, segs.drop_first(), limit)
        }
    }
}

/// `text` trimmed, then cut down to its first sentences, one for each sentence
/// of the source (at least one), with a sentence that repeats the one before it
/// dropped; the kept sentences are joined by spaces.
pub open spec fn repetition_trimmed(text: Seq<char>, source: Seq<char>) -> Seq<char> {
    let out = crate::text::trim(text);
    let count = count_where(source, |c: char| is_terminator(c));
    let limit: nat = if count > 1 {
        count
    } else {
        1
    };
    let ss = sentences(out);
    if out.len() == 0 || ss.len() == 0 {
        out
    } else {
        crate::text::trim(crate::text::join(dedup_limited(Seq::empty(), ss, limit), " "@))
    }
}

/// The character sequences of a list of character vectors.
pub open spec fn cviews(v: Seq<Vec<char>>) -> Seq<Seq<char>> {
    v.map_values(|x: Vec<char>| x@)
}

fn push_trimmed_nonempty(out: &mut Vec<Vec<char>>, v: &Vec<char>)
    ensures
        cviews(final(out)@) == if crate::text::trim(v@).len() > 0 {
            cviews(old(out)@).push(crate::text::trim(v@))
        } else {
            cviews(old(out)@)
        },
{
    let t = crate::text::trim_chars(v);
    if t.len() > 0 {
        out.push(t);
        assert(cviews(out@) =~= cviews(old(out)@).push(crate::text::trim(v@)));
    }
}

/// The sentences of `v`.
fn split_sentences(v: &Vec<char>) -> (r: Vec<Vec<char>>)
    ensures
        cviews(r@) == sentences(v@),
{
    let mut closed: Vec<Vec<char>> = Vec::new();
    let mut open: Vec<char> = Vec::new();
    let mut i: usize = 0;
    assert(v@.subrange(0, 0) =~= Seq::<char>::empty());
    assert(cviews(closed@) =~= Seq::<Seq<char>>::empty());
    while i < v.len()
        invariant
            i <= v@.len(),
            (cviews(closed@), open@) == split_state(v@.subrange(0, i as int)),
        decreases v.len() - i,
    {
        let c = v[i];
        assert(v@.subrange(0, i + 1).drop_last() =~= v@.subrange(0, i as int));
        open.push(c);
        if char_is_terminator(c) {
            push_trimmed_nonempty(&mut closed, &open);
            open = Vec::new();
        }
        i = i + 1;
    }
    assert(v@.subrange(0, v@.len() as int) =~= v@);
    push_trimmed_nonempty(&mut closed, &open);
    closed
}

/// `parts` joined with `sep`.
fn join_chars(parts: &Vec<Vec<char>>, sep: &str) -> (r: Vec<char>)
    ensures
        r@ == crate::text::join(cviews(parts@), sep@),
{
    let sv = chars_of(sep);
    let mut r: Vec<char> = Vec::new();
    let mut i: usize = 0;
    while i < parts.len()
        invariant
            i <= parts@.len(),
            sv@ == sep@,
            r@ == crate::text::join(cviews(parts@).subrange(0, i as int), sep@),
        decreases parts.len() - i,
    {
        let ghost ps = cviews(parts@);
        assert(ps.subrange(0, i + 1).drop_last() == ps.subrange(0, i as int));
        assert(ps.subrange(0, i + 1).last() == parts@[i as int]@);
        if i > 0 {
            append_chars(&mut r, &sv);
        } else {
            assert(ps.subrange(0, 1) =~= seq![parts@[0]@]);
        }
        append_chars(&mut r, &parts[i]);
        i = i + 1;
    }
    assert(cviews(parts@).subrange(0, parts@.len() as int) == cviews(parts@));
    r
}

fn append_chars(r: &mut Vec<char>, v: &Vec<char>)
    ensures
        final(r)@ == old(r)@ + v@,
{
    let mut k: usize = 0;
    while k < v.len()
        invariant
            k <= v@.len(),
            r@ == old(r)@ + v@.subrange(0, k as int),
        decreases v.len() - k,
    {
        r.push(v[k]);
        assert(v@.subrange(0, k + 1) =~= v@.subrange(0, k as int).push(v@[k as int]));
        k = k + 1;
    }
    assert(v@.subrange(0, v@.len() as int) =~= v@);
}

fn count_terminators(v: &Vec<char>) -> (n: usize)
    ensures
        n == count_where(v@, |c: char| is_terminator(c)),
{
    let mut n: usize = 0;
    let mut i: usize = 0;
    assert(v@.subrange(0, 0) =~= Seq::<char>::empty());
    while i < v.len()
        invariant
            i <= v@.len(),
            n <= i,
            n == count_where(v@.subrange(0, i as int), |c: char| is_terminator(c)),
        decreases v.len() - i,
    {
        assert(v@.subrange(0, i + 1).drop_last() =~= v@.subrange(0, i as int));
        if char_is_terminator(v[i]) {
            n = n + 1;
        }
        i = i + 1;
    }
    assert(v@.subrange(0, v@.len() as int) =~= v@);
    n
}

fn trim_repetition_tail_chars(text: &Vec<char>, source: &Vec<char>) -> (r: Vec<char>)
    ensures
        r@ == repetition_trimmed(text@, source@),
{
    let out = crate::text::trim_chars(text);
    if out.len() == 0 {
        return out;
    }
    let count = count_terminators(source);
    let limit: usize = if count > 1 {
        count
    } else {
        1
    };
    let ss = split_sentences(&out);
    if ss.len() == 0 {
        return out;
    }
    let ghost target = dedup_limited(Seq::empty(), cviews(ss@), limit as nat);
    let mut dedup: Vec<Vec<char>> = Vec::new();
    let mut j: usize = 0;
    let mut done = false;
    assert(cviews(dedup@) =~= Seq::<Seq<char>>::empty());
    assert(cviews(ss@).subrange(0, cviews(ss@).len() as int) =~= cviews(ss@));
    while !done && j < ss.len()
        invariant
            j <= ss@.len(),
            limit >= 1,
            target == dedup_limited(Seq::empty(), cviews(ss@), limit as nat),
            !done ==> dedup_limited(cviews(dedup@), cviews(ss@).subrange(j as int, ss@.len() as int), limit as nat) == target,
            done ==> cviews(dedup@) == target,
        decreases ss.len() - j,
    {
        let ghost rest = cviews(ss@).subrange(j as int, ss@.len() as int);
        assert(rest[0] == ss@[j as int]@);
        assert(rest.drop_first() =~= cviews(ss@).subrange(j + 1, ss@.len() as int));
        let seg = &ss[j];
        let ghost d0 = cviews(dedup@);
        let key = compare_key_of(seg);
        let dup = if dedup.len() > 0 {
            let last_key = compare_key_of(&dedup[dedup.len() - 1]);
            assert(d0.last() == dedup@[dedup@.len() - 1]@);
            crate::text::seq_eq(&last_key, &key)
        } else {
            false
        };
        if !dup {
            let copy = crate::text::sub_chars(seg, 0, seg.len());
            assert(seg@.subrange(0, seg@.len() as int) =~= seg@);
            dedup.push(copy);
        }
        assert(cviews(dedup@) =~= dedup_step(d0, seg@));
        if dedup.len() >= limit {
            done = true;
        }
        j = j + 1;
    }
    let joined = join_chars(&dedup, " ");
    crate::text::trim_chars(&joined)
}

/// Trims a translation down to as many sentences as its source has, dropping
/// immediate repetitions (the tail a model appends when it repeats itself).
pub fn trim_repetition_tail(text: &str, source_text: &str) -> (r: String)
    ensures
        r@ == repetition_trimmed(text@, source_text@),
{
    let t = chars_of(text);
    let s = chars_of(source_text);
    let r = trim_repetition_tail_chars(&t, &s);
    string_of(&r)
}

/// `s` without the copies of `c` at either end (as `str::trim_matches`).
pub open spec fn strip_char(s: Seq<char>, c: char) -> Seq<char> {
    crate::user_path::strip_trailing(crate::user_path::strip_leading(s, c), c)
}

/// `v` without the copies of `c` at either end.
fn strip_chars(v: &Vec<char>, c: char) -> (r: Vec<char>)
    ensures
        r@ == strip_char(v@, c),
{
    let a = crate::user_path::strip_leading_chars(v, c);
    crate::user_path::strip_trailing_chars(&a, c)
}

/// The first position at or after `i` where `m` occurs in `s`.
pub open spec fn find_from(s: Seq<char>, m: Seq<char>, i: int) -> Option<int>
    decreases s.len() - i,
{
    if i < 0 || i > s.len() {
        None
    } else if crate::text::occurs_at(s, m, i) {
        Some(i)
    } else if i == s.len() {
        None
    } else {
        find_from(s, m, i + 1)
    }
}

/// The position of the first occurrence of `p` in `v`.
pub fn find_first_occurrence(v: &Vec<char>, p: &Vec<char>) -> (r: Option<usize>)
    ensures
        match r {
            Some(i) => find_from(v@, p@, 0) == Some(i as int),
            None => find_from(v@, p@, 0) is None,
        },
{
    let mut at: usize = 0;
    while at <= v.len()
        invariant
            at <= v@.len() + 1,
            find_from(v@, p@, 0) == find_from(v@, p@, at as int),
        decreases v.len() + 1 - at,
    {
        if crate::text::matches_at(v, p, at) {
            return Some(at);
        }
        if at == v.len() {
            return None;
        }
        at = at + 1;
    }
    None
}

/// A first occurrence found is an occurrence.
pub proof fn lemma_find_from_found(s: Seq<char>, m: Seq<char>, i: int)
    ensures
        find_from(s, m, i) matches Some(k) ==> crate::text::occurs_at(s, m, k),
    decreases s.len() - i,
{
    if 0 <= i < s.len() && !crate::text::occurs_at(s, m, i) {
        lemma_find_from_found(s, m, i + 1);
    }
}

/// `line` cut before the first `marker`, where that leaves a non-empty head.
pub open spec fn cut_at(line: Seq<char>, marker: Seq<char>) -> Seq<char> {
    match find_from(line, marker, 0) {
        Some(i) => {
            let head = crate::text::trim(line.subrange(0, i));
            if head.len() > 0 {
                head
            } else {
                line
            }
        },
        None => line,
    }
}

fn cut_at_marker(line: Vec<char>, marker: &str) -> (r: Vec<char>)
    ensures
        r@ == cut_at(line@, marker@),
{
    let m = chars_of(marker);
    match find_first_occurrence(&line, &m) {
        Some(i) => {
            proof {
                if i > line.len() {
                    assert(find_from(line@, marker@, 0) is None) by {
                        lemma_find_from_bounded(line@, marker@, 0);
                    }
                }
            }
            let head = crate::text::sub_chars(&line, 0, i);
            let t = crate::text::trim_chars(&head);
            if t.len() > 0 {
                t
            } else {
                line
            }
        },
        None => line,
    }
}

/// A first occurrence found from `i` lies between `i` and the end.
pub proof fn lemma_find_from_bounded(s: Seq<char>, m: Seq<char>, i: int)
    ensures
        find_from(s, m, i) matches Some(k) ==> i <= k <= s.len(),
    decreases s.len() - i,
{
    if 0 <= i < s.len() && !crate::text::occurs_at(s, m, i) {
        lemma_find_from_bounded(s, m, i + 1);
    }
}

/// A line of model output that is not chatter: not empty, not a chat-template
/// token, not a label line.
pub open spec fn keeps_line(line: Seq<char>) -> bool {
    &&& line.len() > 0
    &&& !crate::text::has_prefix(line, "<|"@)
    &&& !crate::text::contains(line, "im_start"@)
    &&& !crate::text::contains(line, "im_end"@)
    &&& !crate::text::has_prefix(lower(line), "source text"@)
    &&& !crate::text::has_prefix(lower(line), "translation"@)
}

/// A kept line without surrounding quotes, cut before an inline answer label.
pub open spec fn tidy_line(line: Seq<char>) -> Seq<char> {
    let l = crate::text::trim(strip_char(strip_char(line, '"'), '\''));
    let l1 = cut_at(l, " Translation:"@);
    let l2 = cut_at(l1, " TRANSLATION:"@);
    let l3 = cut_at(l2, " 译文："@);
    let l4 = cut_at(l3, " 译文:"@);
    cut_at(l4, " Answer:"@)
}

/// The candidate translations among the (trimmed, non-empty) lines.
pub open spec fn candidates(lines: Seq<Seq<char>>) -> Seq<Seq<char>>
    decreases lines.len(),
{
    if lines.len() == 0 {
        Seq::empty()
    } else {
        let rest = candidates(lines.drop_last());
        let l = lines.last();
        if keeps_line(l) && tidy_line(l).len() > 0 {
            rest.push(tidy_line(l))
        } else {
            rest
        }
    }
}

fn tidy(line: &Vec<char>) -> (r: Vec<char>)
    ensures
        r@ == tidy_line(line@),
{
    let a = strip_chars(line, '"');
    let b = strip_chars(&a, '\'');
    let l = crate::text::trim_chars(&b);
    let l = cut_at_marker(l, " Translation:");
    let l = cut_at_marker(l, " TRANSLATION:");
    let l = cut_at_marker(l, " 译文：");
    let l = cut_at_marker(l, " 译文:");
    cut_at_marker(l, " Answer:")
}

fn keeps(line: &Vec<char>) -> (b: bool)
    ensures
        b == keeps_line(line@),
{
    if line.len() == 0 {
        return false;
    }
    let low = lower_chars(line);
    !crate::text::starts_with_str(line, "<|") && !crate::text::contains_str(line, "im_start")
        && !crate::text::contains_str(line, "im_end") && !crate::text::starts_with_str(
        &low,
        "source text",
    ) && !crate::text::starts_with_str(&low, "translation")
}

fn candidate_lines(lines: &Vec<String>) -> (r: Vec<Vec<char>>)
    ensures
        cviews(r@) == candidates(crate::governance::views(lines@)),
{
    let ghost ls = crate::governance::views(lines@);
    let mut r: Vec<Vec<char>> = Vec::new();
    let mut i: usize = 0;
    assert(ls.subrange(0, 0) =~= Seq::<Seq<char>>::empty());
    assert(cviews(r@) =~= Seq::<Seq<char>>::empty());
    while i < lines.len()
        invariant
            i <= lines@.len(),
            ls == crate::governance::views(lines@),
            cviews(r@) == candidates(ls.subrange(0, i as int)),
        decreases lines.len() - i,
    {
        assert(ls.subrange(0, i + 1).drop_last() =~= ls.subrange(0, i as int));
        assert(ls.subrange(0, i + 1).last() == lines@[i as int]@);
        let line = chars_of(lines[i].as_str());
        if keeps(&line) {
            let t = tidy(&line);
            if t.len() > 0 {
                let ghost r0 = cviews(r@);
                r.push(t);
                assert(cviews(r@) =~= r0.push(tidy_line(line@)));
            }
        }
        i = i + 1;
    }
    assert(ls.subrange(0, ls.len() as int) =~= ls);
    r
}

/// `s` without the label `p` it starts with, trimmed.
pub open spec fn strip_label(s: Seq<char>, p: Seq<char>) -> Seq<char> {
    if crate::text::has_prefix(s, p) {
        crate::text::trim(s.subrange(p.len() as int, s.len() as int))
    } else {
        s
    }
}

/// Raw model output trimmed, without the answer labels it opens with (each
/// checked once, in this order) and without a surrounding code fence.
pub open spec fn unlabelled(raw: Seq<char>) -> Seq<char> {
    let c0 = crate::text::trim(raw);
    let c1 = strip_label(c0, "TRANSLATION:"@);
    let c2 = strip_label(c1, "Translation:"@);
    let c3 = strip_label(c2, "译文："@);
    let c4 = strip_label(c3, "译文:"@);
    let c5 = strip_label(c4, "答案："@);
    let c6 = strip_label(c5, "Answer:"@);
    if crate::text::has_prefix(c6, "```"@) {
        crate::text::trim(
            crate::user_path::strip_trailing(
                crate::text::trim(crate::user_path::strip_leading(c6, '`')),
                '`',
            ),
        )
    } else {
        c6
    }
}

/// The candidates that are not an echo of the source: their comparison key is
/// neither empty nor the source's.
pub open spec fn not_echoes(cands: Seq<Seq<char>>, source_key: Seq<char>) -> Seq<Seq<char>>
    decreases cands.len(),
{
    if cands.len() == 0 {
        Seq::empty()
    } else {
        let rest = not_echoes(cands.drop_last(), source_key);
        let k = compare_key(cands.last());
        if k.len() > 0 && k != source_key {
            rest.push(cands.last())
        } else {
            rest
        }
    }
}

/// The first candidate that does not look garbled.
pub open spec fn first_usable(cands: Seq<Seq<char>>, target: Seq<char>) -> Option<Seq<char>>
    decreases cands.len(),
{
    if cands.len() == 0 {
        None
    } else if !corrupted(cands[0], target) {
        Some(cands[0])
    } else {
        first_usable(cands.drop_first(), target)
    }
}

/// The translation in raw model output. The output is unlabelled; its lines
/// (trimmed, the empty ones dropped, as `str::lines` and `str::trim` give them)
/// are filtered and tidied into candidates, or the whole output is the one
/// candidate if none is left; echoes of the source are dropped. The first
/// candidate that does not look garbled for the target language (else the
/// first) is cut down to the source's number of sentences. If every candidate
/// was an echo, the unlabelled output itself, without surrounding quotes, is
/// the answer.
pub open spec fn cleaned_output(raw: Seq<char>, source: Seq<char>, target: Seq<char>) -> Seq<char> {
    let cleaned = unlabelled(raw);
    let c0 = candidates(crate::text::fields(cleaned, seq!['\n']));
    let c1 = if c0.len() == 0 {
        seq![crate::text::trim(cleaned)]
    } else {
        c0
    };
    let c2 = not_echoes(c1, compare_key(source));
    if c2.len() == 0 {
        crate::text::trim(strip_char(strip_char(cleaned, '"'), '\''))
    } else {
        match first_usable(c2, target) {
            Some(c) => repetition_trimmed(crate::text::trim(c), source),
            None => repetition_trimmed(crate::text::trim(c2[0]), source),
        }
    }
}

fn strip_label_chars(v: Vec<char>, p: &str) -> (r: Vec<char>)
    ensures
        r@ == strip_label(v@, p@),
{
    if crate::text::starts_with_str(&v, p) {
        let pv = chars_of(p);
        let rest = crate::text::sub_chars(&v, pv.len(), v.len());
        crate::text::trim_chars(&rest)
    } else {
        v
    }
}

fn unlabel(raw: &str) -> (r: Vec<char>)
    ensures
        r@ == unlabelled(raw@),
{
    let v = chars_of(raw);
    let c = crate::text::trim_chars(&v);
    let c = strip_label_chars(c, "TRANSLATION:");
    let c = strip_label_chars(c, "Translation:");
    let c = strip_label_chars(c, "译文：");
    let c = strip_label_chars(c, "译文:");
    let c = strip_label_chars(c, "答案：");
    let c = strip_label_chars(c, "Answer:");
    if crate::text::starts_with_str(&c, "```") {
        let a = crate::user_path::strip_leading_chars(&c, '`');
        let b = crate::text::trim_chars(&a);
        let d = crate::user_path::strip_trailing_chars(&b, '`');
        crate::text::trim_chars(&d)
    } else {
        c
    }
}

fn keep_not_echoes(cands: &Vec<Vec<char>>, source_key: &Vec<char>) -> (r: Vec<Vec<char>>)
    ensures
        cviews(r@) == not_echoes(cviews(cands@), source_key@),
{
    let ghost cs = cviews(cands@);
    let mut r: Vec<Vec<char>> = Vec::new();
    let mut i: usize = 0;
    assert(cs.subrange(0, 0) =~= Seq::<Seq<char>>::empty());
    assert(cviews(r@) =~= Seq::<Seq<char>>::empty());
    while i < cands.len()
        invariant
            i <= cands@.len(),
            cs == cviews(cands@),
            cviews(r@) == not_echoes(cs.subrange(0, i as int), source_key@),
        decreases cands.len() - i,
    {
        assert(cs.subrange(0, i + 1).drop_last() =~= cs.subrange(0, i as int));
        assert(cs.subrange(0, i + 1).last() == cands@[i as int]@);
        let k = compare_key_of(&cands[i]);
        if k.len() > 0 && !crate::text::seq_eq(&k, source_key) {
            let ghost r0 = cviews(r@);
            let copy = crate::text::sub_chars(&cands[i], 0, cands[i].len());
            assert(cands@[i as int]@.subrange(0, cands@[i as int]@.len() as int) =~= cands@[i as int]@);
            r.push(copy);
            assert(cviews(r@) =~= r0.push(cands@[i as int]@));
        }
        i = i + 1;
    }
    assert(cs.subrange(0, cs.len() as int) =~= cs);
    r
}

fn pick_usable(cands: &Vec<Vec<char>>, target_lang: &str) -> (r: Option<usize>)
    ensures
        match r {
            Some(k) => k < cands@.len() && first_usable(cviews(cands@), target_lang@) == Some(
                cands@[k as int]@,
            ),
            None => first_usable(cviews(cands@), target_lang@) is None,
        },
{
    let ghost cs = cviews(cands@);
    let mut i: usize = 0;
    assert(cs.subrange(0, cs.len() as int) =~= cs);
    while i < cands.len()
        invariant
            i <= cands@.len(),
            cs == cviews(cands@),
            first_usable(cs, target_lang@) == first_usable(cs.subrange(i as int, cs.len() as int), target_lang@),
        decreases cands.len() - i,
    {
        let ghost rest = cs.subrange(i as int, cs.len() as int);
        assert(rest[0] == cands@[i as int]@);
        assert(rest.drop_first() =~= cs.subrange(i + 1, cs.len() as int));
        let text = string_of(&cands[i]);
        if !looks_corrupted(text.as_str(), target_lang) {
            return Some(i);
        }
        i = i + 1;
    }
    None
}

/// The translation in raw model output; see `cleaned_output`.
pub fn clean_translation_output(raw: &str, source_text: &str, target_lang: &str) -> (r: String)
    ensures
        r@ == cleaned_output(raw@, source_text@, target_lang@),
{
    let cleaned = unlabel(raw);
    let cleaned_str = string_of(&cleaned);
    let mut seps: Vec<char> = Vec::new();
    seps.push('\n');
    assert(seps@ =~= seq!['\n']);
    let lines = crate::text::split_fields(cleaned_str.as_str(), &seps);
    let c0 = candidate_lines(&lines);
    let c1 = if c0.len() == 0 {
        let mut one: Vec<Vec<char>> = Vec::new();
        one.push(crate::text::trim_chars(&cleaned));
        assert(cviews(one@) =~= seq![crate::text::trim(cleaned@)]);
        one
    } else {
        c0
    };
    let src = chars_of(source_text);
    let source_key = compare_key_of(&src);
    let c2 = keep_not_echoes(&c1, &source_key);
    if c2.len() == 0 {
        let a = strip_chars(&cleaned, '"');
        let b = strip_chars(&a, '\'');
        let t = crate::text::trim_chars(&b);
        return string_of(&t);
    }
    let k = match pick_usable(&c2, target_lang) {
        Some(k) => k,
        None => 0,
    };
    proof {
        assert(cviews(c2@)[0] == c2@[0]@);
    }
    let chosen = crate::text::trim_chars(&c2[k]);
    let r = trim_repetition_tail_chars(&chosen, &src);
    string_of(&r)
}

} // verus!

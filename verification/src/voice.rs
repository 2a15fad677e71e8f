//! Voice selection helpers and the text of TTS diagnostics.
use vstd::prelude::*;

use crate::governance::views;
use crate::text::{
    chars_of, contains, contains_str, fields, has_prefix, join, join_strings, lower, lower_chars,
    owned, push_chars, push_str, split_fields, starts_with_str, string_of,
};

verus! {

/// The language a voice id speaks: English for English voices, else Chinese.
pub open spec fn voice_language(voice: Seq<char>) -> Seq<char> {
    let v = lower(voice);
    if contains(v, "en-"@) || contains(v, "jenny"@) || contains(v, "english"@) {
        "en"@
    } else {
        "zh"@
    }
}

/// The language a voice id speaks.
pub fn infer_lang_from_voice(voice: &str) -> (s: String)
    ensures
        s@ == voice_language(voice@),
{
    let v = lower_chars(&chars_of(voice));
    if contains_str(&v, "en-") || contains_str(&v, "jenny") || contains_str(&v, "english") {
        owned("en")
    } else {
        owned("zh")
    }
}

/// Whether a language code is English (`en`, `en-US`, ...).
pub fn is_english_lang(lang: &str) -> (b: bool)
    ensures
        b == has_prefix(lower(lang@), "en"@),
{
    let v = lower_chars(&chars_of(lang));
    starts_with_str(&v, "en")
}

/// Whether a voice id names a male voice: a known male voice name, or the
/// word `male` where it is not part of `female`. A `female` id is never male.
pub open spec fn male_voice(v: Seq<char>) -> bool {
    !contains(v, "female"@) && (contains(v, "sherpa-melo-male"@) || contains(v, "yunxi"@)
        || contains(v, "yunyang"@) || contains(v, "guy"@) || contains(v, "ryan"@) || contains(
        v,
        "keita"@,
    ) || contains(v, "injoon"@) || contains(v, "male"@))
}

/// The Sherpa Melo speaker of a voice id: 1 for male voices, else 0 (female
/// voices, such as the default `sherpa-melo-female`, get speaker 0).
pub fn sherpa_speaker_id_from_voice(voice: &str) -> (id: i32)
    ensures
        id == if male_voice(lower(voice@)) {
            1i32
        } else {
            0i32
        },
{
    let v = lower_chars(&chars_of(voice));
    if contains_str(&v, "female") {
        0
    } else if contains_str(&v, "sherpa-melo-male") || contains_str(&v, "yunxi") || contains_str(
        &v,
        "yunyang",
    ) || contains_str(&v, "guy") || contains_str(&v, "ryan") || contains_str(&v, "keita")
        || contains_str(&v, "injoon") || contains_str(&v, "male") {
        1
    } else {
        0
    }
}

/// At most `max` characters of `s`.
pub open spec fn first_chars(s: Seq<char>, max: nat) -> Seq<char> {
    if s.len() <= max {
        s
    } else {
        s.subrange(0, max as int)
    }
}

/// `s` itself when it has at most `max_chars` characters, else its first
/// `max_chars` characters followed by `...`.
pub open spec fn shortened(s: Seq<char>, max_chars: nat) -> Seq<char> {
    if s.len() <= max_chars {
        s
    } else {
        s.subrange(0, max_chars as int) + "..."@
    }
}

/// `s`, cut to `max_chars` characters with `...` when it is longer.
pub fn summarize_reason(s: &str, max_chars: usize) -> (r: String)
    ensures
        r@ == shortened(s@, max_chars as nat),
{
    let v = chars_of(s);
    if v.len() <= max_chars {
        return string_of(&v);
    }
    let mut out = crate::text::string_of_range(&v, 0, max_chars);
    push_str(&mut out, "...");
    out
}

/// A text compacted to one line: its first six non-blank lines, trimmed and
/// joined with ` | `, cut to `max_chars` characters with `...` when its UTF-8
/// encoding is longer than `max_chars` bytes.
pub open spec fn compact_summary(input: Seq<char>, max_chars: nat) -> Seq<char> {
    let lines = fields(input, seq!['\n']);
    let compact = join(first_lines(lines, 6), " | "@);
    if (vstd::utf8::encode_utf8(compact).len() as usize) as nat <= max_chars {
        compact
    } else {
        first_chars(compact, max_chars) + "..."@
    }
}

/// At most the first `n` lines.
pub open spec fn first_lines(lines: Seq<Seq<char>>, n: nat) -> Seq<Seq<char>> {
    if lines.len() <= n {
        lines
    } else {
        lines.subrange(0, n as int)
    }
}

/// A multi-line text compacted to one line of bounded length.
pub fn summarize_text(input: &str, max_chars: usize) -> (r: String)
    ensures
        r@ == compact_summary(input@, max_chars as nat),
{
    let mut seps: Vec<char> = Vec::new();
    seps.push('\n');
    assert(seps@ =~= seq!['\n']);
    let lines = split_fields(input, &seps);
    let mut first: Vec<String> = Vec::new();
    let mut i: usize = 0;
    while i < lines.len() && i < 6
        invariant
            i <= lines@.len(),
            i <= 6,
            views(first@) == views(lines@).subrange(0, i as int),
        decreases lines.len() - i,
    {
        let ghost before = views(first@);
        first.push(lines[i].clone());
        assert(views(first@) =~= before.push(lines@[i as int]@));
        assert(views(lines@).subrange(0, i + 1) =~= views(lines@).subrange(0, i as int).push(
            lines@[i as int]@,
        ));
        i = i + 1;
    }
    assert(views(first@) == first_lines(views(lines@), 6)) by {
        if views(lines@).len() <= 6 {
            assert(views(lines@).subrange(0, views(lines@).len() as int) == views(lines@));
        }
    }
    let compact = join_strings(&first, " | ");
    if compact.as_str().len() <= max_chars {
        return compact;
    }
    let v = chars_of(compact.as_str());
    let n = if v.len() <= max_chars {
        v.len()
    } else {
        max_chars
    };
    let mut out = crate::text::string_of_range(&v, 0, n);
    push_str(&mut out, "...");
    assert(v@.subrange(0, v@.len() as int) == v@);
    out
}

/// One check of the TTS doctor.
pub struct TtsDoctorCheck {
    pub name: String,
    pub ok: bool,
    pub detail: String,
}

/// Records the outcome of one doctor check; a failure clears `overall_ok` and
/// keeps a short summary of the error.
pub fn push_doctor_check(
    checks: &mut Vec<TtsDoctorCheck>,
    name: &str,
    result: Result<String, String>,
    overall_ok: &mut bool,
)
    ensures
        final(checks)@.len() == old(checks)@.len() + 1,
        final(checks)@.subrange(0, old(checks)@.len() as int) == old(checks)@,
        final(checks)@.last().name@ == name@,
        match result {
            Ok(detail) => {
                &&& final(checks)@.last().ok
                &&& final(checks)@.last().detail@ == detail@
                &&& *final(overall_ok) == *old(overall_ok)
            },
            Err(e) => {
                &&& !final(checks)@.last().ok
                &&& final(checks)@.last().detail@ == compact_summary(e@, 360)
                &&& !*final(overall_ok)
            },
        },
{
    match result {
        Ok(detail) => checks.push(TtsDoctorCheck { name: owned(name), ok: true, detail }),
        Err(e) => {
            *overall_ok = false;
            checks.push(
                TtsDoctorCheck {
                    name: owned(name),
                    ok: false,
                    detail: summarize_text(e.as_str(), 360),
                },
            );
        },
    }
    assert(final(checks)@.subrange(0, old(checks)@.len() as int) =~= old(checks)@);
}

/// The summaries of the first `limit` failed checks, as `name: detail` with
/// the detail compacted to `width` characters.
pub open spec fn failed_lines(checks: Seq<TtsDoctorCheck>, limit: nat, width: nat) -> Seq<Seq<char>>
    decreases checks.len(),
{
    if checks.len() == 0 {
        Seq::empty()
    } else {
        let rest = failed_lines(checks.drop_last(), limit, width);
        let c = checks.last();
        if !c.ok && rest.len() < limit {
            rest.push(c.name@ + ": "@ + compact_summary(c.detail@, width))
        } else {
            rest
        }
    }
}

/// The summaries of the first `limit` failed checks.
fn failed_check_lines(checks: &Vec<TtsDoctorCheck>, limit: usize, width: usize) -> (r: Vec<String>)
    ensures
        views(r@) == failed_lines(checks@, limit as nat, width as nat),
{
    let mut failed: Vec<String> = Vec::new();
    let mut i: usize = 0;
    assert(checks@.subrange(0, 0) =~= Seq::<TtsDoctorCheck>::empty());
    assert(views(failed@) =~= Seq::<Seq<char>>::empty());
    while i < checks.len()
        invariant
            i <= checks@.len(),
            views(failed@) == failed_lines(checks@.subrange(0, i as int), limit as nat, width as nat),
        decreases checks.len() - i,
    {
        proof {
            assert(checks@.subrange(0, i + 1).drop_last() == checks@.subrange(0, i as int));
        }
        if !checks[i].ok && failed.len() < limit {
            let mut line = owned(checks[i].name.as_str());
            push_str(&mut line, ": ");
            let d = summarize_text(checks[i].detail.as_str(), width);
            push_str(&mut line, d.as_str());
            let ghost before = views(failed@);
            failed.push(line);
            assert(views(failed@) =~= before.push(line@));
        }
        i = i + 1;
    }
    assert(checks@.subrange(0, checks@.len() as int) == checks@);
    failed
}

/// The spoken explanation of a doctor run.
pub open spec fn doctor_reason(
    overall_ok: bool,
    checks: Seq<TtsDoctorCheck>,
    recommendations: Seq<Seq<char>>,
) -> Seq<char> {
    if overall_ok {
        "System TTS doctor result: all checks passed. Windows system speech runtime appears healthy."@
    } else {
        let recs = Seq::new(
            first_lines(recommendations, 2).len(),
            |i: int| compact_summary(recommendations[i], 100),
        );
        "System TTS doctor detected host issues. Failed checks: "@ + join(
            failed_lines(checks, 3, 96),
            "; "@,
        ) + ". Recommended actions: "@ + join(recs, "; "@) + "."@
    }
}

/// The spoken explanation of a doctor run: all clear, or the first failed
/// checks and the first recommendations.
pub fn build_tts_doctor_reason_text(
    overall_ok: bool,
    checks: &Vec<TtsDoctorCheck>,
    recommendations: &Vec<String>,
) -> (s: String)
    ensures
        s@ == doctor_reason(overall_ok, checks@, views(recommendations@)),
{
    if overall_ok {
        return owned(
            "System TTS doctor result: all checks passed. Windows system speech runtime appears healthy.",
        );
    }
    let failed = failed_check_lines(checks, 3, 96);
    let ghost rs = views(recommendations@);
    let mut recs: Vec<String> = Vec::new();
    let mut k: usize = 0;
    while k < recommendations.len() && k < 2
        invariant
            k <= recommendations@.len(),
            k <= 2,
            rs == views(recommendations@),
            views(recs@) == Seq::new(k as nat, |j: int| compact_summary(rs[j], 100)),
        decreases recommendations.len() - k,
    {
        let r = summarize_text(recommendations[k].as_str(), 100);
        let ghost before = views(recs@);
        recs.push(r);
        assert(rs[k as int] == recommendations@[k as int]@);
        assert(views(recs@) =~= before.push(r@));
        assert(views(recs@) =~= Seq::new((k + 1) as nat, |j: int| compact_summary(rs[j], 100)));
        k = k + 1;
    }
    let mut s = owned("System TTS doctor detected host issues. Failed checks: ");
    let f = join_strings(&failed, "; ");
    push_str(&mut s, f.as_str());
    push_str(&mut s, ". Recommended actions: ");
    let r = join_strings(&recs, "; ");
    push_str(&mut s, r.as_str());
    push_str(&mut s, ".");
    assert(views(recs@) =~= Seq::new(
        first_lines(rs, 2).len(),
        |i: int| compact_summary(rs[i], 100),
    ));
    s
}

/// A custom voice to speak with.
pub struct CustomVoiceRequest {
    pub model_type: String,
    pub model_path: String,
    pub reference_audio: Option<String>,
    pub reference_text: Option<String>,
}

/// A custom voice model on disk.
pub struct CustomVoiceModelInfo {
    pub name: String,
    pub path: String,
    pub model_type: String,
}

/// The kinds of custom voice model.
pub enum CustomVoiceType {
    GptSoVits,
    Rvc,
    Piper,
    Vits,
}

/// The kind of custom voice model a request names; an unknown kind is an
/// invalid-state error.
pub fn custom_voice_type(model_type: &str) -> (r: crate::error::AppResult<CustomVoiceType>)
    ensures
        model_type@ == "gpt-sovits"@ <==> r matches Ok(CustomVoiceType::GptSoVits),
        model_type@ == "rvc"@ <==> r matches Ok(CustomVoiceType::Rvc),
        model_type@ == "piper"@ <==> r matches Ok(CustomVoiceType::Piper),
        model_type@ == "vits"@ <==> r matches Ok(CustomVoiceType::Vits),
        r matches Err(e) ==> e matches crate::error::AppError::InvalidState(m) && m@
            == "Unknown custom voice model type: "@ + model_type@,
{
    proof {
        reveal_strlit("gpt-sovits");
        reveal_strlit("rvc");
        reveal_strlit("piper");
        reveal_strlit("vits");
        assert("gpt-sovits"@.len() == 10);
        assert("rvc"@.len() == 3);
        assert("piper"@.len() == 5);
        assert("vits"@.len() == 4);
    }
    let v = chars_of(model_type);
    if crate::text::chars_eq_str(&v, "gpt-sovits") {
        Ok(CustomVoiceType::GptSoVits)
    } else if crate::text::chars_eq_str(&v, "rvc") {
        Ok(CustomVoiceType::Rvc)
    } else if crate::text::chars_eq_str(&v, "piper") {
        Ok(CustomVoiceType::Piper)
    } else if crate::text::chars_eq_str(&v, "vits") {
        Ok(CustomVoiceType::Vits)
    } else {
        let mut m = owned("Unknown custom voice model type: ");
        push_str(&mut m, model_type);
        Err(crate::error::AppError::InvalidState(m))
    }
}

/// The backends a TTS engine falls back through, in order; an unknown engine
/// is an invalid-state error.
pub open spec fn backend_order(engine: Seq<char>) -> Option<Seq<Seq<char>>> {
    if engine == "sherpa-melo"@ || engine == "edge-tts"@ {
        Some(seq!["edge"@, "system"@])
    } else if engine == "system"@ {
        Some(seq!["system"@, "edge"@])
    } else if engine == "piper"@ {
        Some(seq!["piper"@, "edge"@, "system"@])
    } else {
        None
    }
}

/// The backends a TTS engine falls back through.
pub fn tts_backend_order(engine_name: &str) -> (r: crate::error::AppResult<Vec<&'static str>>)
    ensures
        match backend_order(engine_name@) {
            Some(o) => r matches Ok(v) && v@.map_values(|b: &'static str| b@) == o,
            None => r matches Err(crate::error::AppError::InvalidState(m)) && m@
                == "Unknown TTS engine: "@ + engine_name@,
        },
{
    let v = chars_of(engine_name);
    let mut order: Vec<&'static str> = Vec::new();
    if crate::text::chars_eq_str(&v, "sherpa-melo") || crate::text::chars_eq_str(&v, "edge-tts") {
        order.push("edge");
        order.push("system");
        assert(order@.map_values(|b: &'static str| b@) =~= seq!["edge"@, "system"@]);
    } else if crate::text::chars_eq_str(&v, "system") {
        order.push("system");
        order.push("edge");
        assert(order@.map_values(|b: &'static str| b@) =~= seq!["system"@, "edge"@]);
    } else if crate::text::chars_eq_str(&v, "piper") {
        order.push("piper");
        order.push("edge");
        order.push("system");
        assert(order@.map_values(|b: &'static str| b@) =~= seq!["piper"@, "edge"@, "system"@]);
    } else {
        let mut m = owned("Unknown TTS engine: ");
        push_str(&mut m, engine_name);
        return Err(crate::error::AppError::InvalidState(m));
    }
    Ok(order)
}

/// A request to check the system voice and play the verdict.
pub struct TtsSystemDoctorPlaybackRequest {
    pub output_device: Option<String>,
    pub voice: Option<String>,
    pub out_wav: Option<String>,
    pub language: Option<String>,
}

/// The verdict of the system voice check, and how it was played.
pub struct TtsSystemDoctorPlaybackResult {
    pub system_ok: bool,
    pub system_detail: String,
    pub reason_text: String,
    pub reason_audio_path: Option<String>,
    pub reason_audio_engine: String,
    pub play_device: Option<String>,
}

/// The voice of a doctor request (the English default when none is named) and
/// its language (inferred from the voice when none is named).
pub fn doctor_voice_and_language(voice: Option<String>, language: Option<String>) -> (r: (String, String))
    ensures
        r.0@ == match voice {
            Some(v) => v@,
            None => "en-US-JennyNeural"@,
        },
        r.1@ == match language {
            Some(l) => l@,
            None => voice_language(r.0@),
        },
{
    let v = match voice {
        Some(v) => v,
        None => owned("en-US-JennyNeural"),
    };
    let l = match language {
        Some(l) => l,
        None => infer_lang_from_voice(v.as_str()),
    };
    (v, l)
}

/// The verdict spoken after the system voice check, in English or Chinese.
pub open spec fn doctor_verdict(system_ok: bool, detail: Seq<char>, language: Seq<char>) -> Seq<char> {
    let english = has_prefix(lower(language), "en"@);
    if system_ok {
        if english {
            "System TTS check passed."@
        } else {
            "系统 TTS 检查通过。"@
        }
    } else if english {
        "System TTS is currently unavailable. Reason: "@ + shortened(detail, 180)
            + ". Recommended: use Edge voice fallback."@
    } else {
        "系统 TTS 当前不可用。原因："@ + shortened(detail, 180) + "。建议使用 Edge 语音作为回退。"@
    }
}

/// The verdict spoken after the system voice check.
pub fn doctor_verdict_text(system_ok: bool, system_detail: &str, language: &str) -> (r: String)
    ensures
        r@ == doctor_verdict(system_ok, system_detail@, language@),
{
    let english = is_english_lang(language);
    if system_ok {
        if english {
            owned("System TTS check passed.")
        } else {
            owned("系统 TTS 检查通过。")
        }
    } else if english {
        let mut m = owned("System TTS is currently unavailable. Reason: ");
        let r = summarize_reason(system_detail, 180);
        push_str(&mut m, r.as_str());
        push_str(&mut m, ". Recommended: use Edge voice fallback.");
        m
    } else {
        let mut m = owned("系统 TTS 当前不可用。原因：");
        let r = summarize_reason(system_detail, 180);
        push_str(&mut m, r.as_str());
        push_str(&mut m, "。建议使用 Edge 语音作为回退。");
        m
    }
}

/// Some check's detail mentions `pat` (compared ASCII-lowercased).
pub open spec fn some_detail_mentions(checks: Seq<TtsDoctorCheck>, pat: Seq<char>) -> bool {
    exists|i: int| 0 <= i < checks.len() && contains(lower((#[trigger] checks[i]).detail@), pat)
}

/// Some check with this name has this outcome.
pub open spec fn some_check(checks: Seq<TtsDoctorCheck>, name: Seq<char>, ok: bool) -> bool {
    exists|i: int| 0 <= i < checks.len() && (#[trigger] checks[i]).name@ == name && checks[i].ok == ok
}

/// What the doctor recommends after its checks: for denied access, running
/// interactively and checking the policies that block speech objects; for a
/// null reference, reinstalling the voice packs; for an unwritable scratch
/// directory, granting write access; without a working speech runtime,
/// installing one; and otherwise that nothing blocks.
pub open spec fn doctor_recommendations(checks: Seq<TtsDoctorCheck>) -> Seq<Seq<char>> {
    let denied = some_detail_mentions(checks, "0x80070005"@) || some_detail_mentions(
        checks,
        "access is denied"@,
    );
    let a: Seq<Seq<char>> = if denied {
        seq![
            "Detected E_ACCESSDENIED from Windows speech runtime. Run terminal/app in an interactive user session (not service/session 0)."@,
            "Check Group Policy / endpoint security controls that block SAPI or COM speech objects."@,
        ]
    } else {
        Seq::empty()
    };
    let b: Seq<Seq<char>> = if some_detail_mentions(checks, "object reference not set"@) {
        seq![
            "Detected NullReference in Windows speech APIs. Reinstall Windows voice packs and Speech runtime, then reboot."@,
        ]
    } else {
        Seq::empty()
    };
    let c: Seq<Seq<char>> = if some_check(checks, "tts_tmp_dir_write"@, false) {
        seq!["Grant write permission to %LOCALAPPDATA%\\LocalTrans\\tts-tmp."@]
    } else {
        Seq::empty()
    };
    let d: Seq<Seq<char>> = if !some_check(checks, "system_speech_init"@, true) {
        seq!["Install/repair Windows speech components and at least one system voice package."@]
    } else {
        Seq::empty()
    };
    let all = a + b + c + d;
    if all.len() == 0 {
        seq!["No obvious environment blocker detected by doctor."@]
    } else {
        all
    }
}

fn any_detail_mentions(checks: &Vec<TtsDoctorCheck>, pat: &str) -> (b: bool)
    ensures
        b == some_detail_mentions(checks@, pat@),
{
    let mut i: usize = 0;
    while i < checks.len()
        invariant
            i <= checks@.len(),
            forall|k: int| 0 <= k < i ==> !contains(lower((#[trigger] checks@[k]).detail@), pat@),
        decreases checks.len() - i,
    {
        let d = lower_chars(&chars_of(checks[i].detail.as_str()));
        if contains_str(&d, pat) {
            return true;
        }
        i = i + 1;
    }
    false
}

fn any_check(checks: &Vec<TtsDoctorCheck>, name: &str, ok: bool) -> (b: bool)
    ensures
        b == some_check(checks@, name@, ok),
{
    let mut i: usize = 0;
    while i < checks.len()
        invariant
            i <= checks@.len(),
            forall|k: int| 0 <= k < i ==> !((#[trigger] checks@[k]).name@ == name@ && checks@[k].ok == ok),
        decreases checks.len() - i,
    {
        if crate::text::str_eq(checks[i].name.as_str(), name) && checks[i].ok == ok {
            return true;
        }
        i = i + 1;
    }
    false
}

/// The recommendations of the system voice doctor.
pub fn system_doctor_recommendations(checks: &Vec<TtsDoctorCheck>) -> (r: Vec<String>)
    ensures
        views(r@) == doctor_recommendations(checks@),
{
    let mut recs: Vec<String> = Vec::new();
    if any_detail_mentions(checks, "0x80070005") || any_detail_mentions(checks, "access is denied") {
        recs.push(
            owned(
                "Detected E_ACCESSDENIED from Windows speech runtime. Run terminal/app in an interactive user session (not service/session 0).",
            ),
        );
        recs.push(
            owned(
                "Check Group Policy / endpoint security controls that block SAPI or COM speech objects.",
            ),
        );
    }
    if any_detail_mentions(checks, "object reference not set") {
        recs.push(
            owned(
                "Detected NullReference in Windows speech APIs. Reinstall Windows voice packs and Speech runtime, then reboot.",
            ),
        );
    }
    if any_check(checks, "tts_tmp_dir_write", false) {
        recs.push(owned("Grant write permission to %LOCALAPPDATA%\\LocalTrans\\tts-tmp."));
    }
    if !any_check(checks, "system_speech_init", true) {
        recs.push(
            owned("Install/repair Windows speech components and at least one system voice package."),
        );
    }
    if recs.len() == 0 {
        recs.push(owned("No obvious environment blocker detected by doctor."));
    }
    assert(views(recs@) =~= doctor_recommendations(checks@));
    recs
}

/// The failure recorded for the system voice after a failed doctor run: its
/// first two failed checks.
pub fn system_doctor_failure(checks: &Vec<TtsDoctorCheck>) -> (r: String)
    ensures
        r@ == "system-doctor failed: "@ + join(failed_lines(checks@, 2, 100), " | "@),
{
    let lines = failed_check_lines(checks, 2, 100);
    let mut r = owned("system-doctor failed: ");
    let j = join_strings(&lines, " | ");
    push_str(&mut r, j.as_str());
    r
}

} // verus!

//! Runtime route governance: which ASR, translation and TTS engines a session
//! uses, given the caller's requests, the persisted configuration and the
//! speech workflows that an active Loci workflow rewriter declares.
use vstd::prelude::*;

use crate::error::{AppError, AppResult};
use crate::text::{
    chars_eq_str, chars_of, has_prefix, lower, lower_chars, owned, push_str, starts_with, starts_with_str, string_of, string_of_range,
    trim, trim_chars, trim_lower,
};

verus! {

/// The `Option<String>` as an optional character sequence.
pub open spec fn opt_view(o: Option<String>) -> Option<Seq<char>> {
    match o {
        Some(s) => Some(s@),
        None => None,
    }
}

/// The views of a sequence of strings.
pub open spec fn views(v: Seq<String>) -> Seq<Seq<char>> {
    v.map_values(|s: String| s@)
}

/// What the Loci workflow governance reports about the current runtime.
pub struct LociWorkflowPolicySnapshot {
    pub translation_engine: String,
    pub governance_enabled: bool,
    pub runtime_ready: bool,
    pub policy_active: bool,
    pub active_workflow_rewriter: Option<String>,
    pub workflows: Vec<String>,
    pub effective_asr_engine: Option<String>,
    pub effective_tts_engine: Option<String>,
    pub effective_tts_enabled: Option<bool>,
    pub preferred_latency_profile: Option<String>,
    pub force_bidirectional: Option<bool>,
    pub force_tts_auto_play: Option<bool>,
    pub supports_streaming: bool,
    pub supports_voice_cloning: bool,
    pub unresolved_workflows: Vec<String>,
    pub status_message: String,
}

/// The route decisions that declared workflows carry, as mathematical values.
pub struct WorkflowEffects {
    pub asr: Option<Seq<char>>,
    pub tts: Option<Seq<char>>,
    pub tts_enabled: Option<bool>,
    pub latency: Option<Seq<char>>,
    pub bidirectional: Option<bool>,
    pub auto_play: Option<bool>,
    pub streaming: bool,
    pub cloning: bool,
    pub unresolved: Seq<Seq<char>>,
}

impl LociWorkflowPolicySnapshot {
    /// The route decisions recorded in this snapshot.
    pub open spec fn effects(self) -> WorkflowEffects {
        WorkflowEffects {
            asr: opt_view(self.effective_asr_engine),
            tts: opt_view(self.effective_tts_engine),
            tts_enabled: self.effective_tts_enabled,
            latency: opt_view(self.preferred_latency_profile),
            bidirectional: self.force_bidirectional,
            auto_play: self.force_tts_auto_play,
            streaming: self.supports_streaming,
            cloning: self.supports_voice_cloning,
            unresolved: views(self.unresolved_workflows@),
        }
    }

    /// Everything but the route decisions is the same in both snapshots.
    pub open spec fn same_identity(self, other: Self) -> bool {
        &&& self.translation_engine@ == other.translation_engine@
        &&& self.governance_enabled == other.governance_enabled
        &&& self.runtime_ready == other.runtime_ready
        &&& self.policy_active == other.policy_active
        &&& opt_view(self.active_workflow_rewriter) == opt_view(other.active_workflow_rewriter)
        &&& views(self.workflows@) == views(other.workflows@)
        &&& self.status_message@ == other.status_message@
    }
}

/// Canonical ASR engine name for a workflow suffix.
pub open spec fn asr_engine_name(v: Seq<char>) -> Option<Seq<char>> {
    if v == "whisper"@ {
        Some("whisper"@)
    } else if v == "sensevoice"@ {
        Some("sensevoice"@)
    } else if v == "vosk"@ {
        Some("vosk"@)
    } else if v == "qwen3"@ || v == "qwen3-asr"@ {
        Some("qwen3-asr"@)
    } else {
        None
    }
}

/// Canonical TTS engine name for a workflow suffix.
pub open spec fn tts_engine_name(v: Seq<char>) -> Option<Seq<char>> {
    if v == "sherpa"@ || v == "sherpa-melo"@ || v == "melo"@ {
        Some("sherpa-melo"@)
    } else if v == "edge"@ || v == "edge-tts"@ {
        Some("edge-tts"@)
    } else if v == "system"@ {
        Some("system"@)
    } else if v == "piper"@ {
        Some("piper"@)
    } else if v == "custom"@ {
        Some("custom"@)
    } else if v == "qwen3"@ || v == "qwen3-tts"@ {
        Some("qwen3-tts"@)
    } else {
        None
    }
}

/// Canonical latency profile name for a workflow suffix.
pub open spec fn latency_profile_name(v: Seq<char>) -> Option<Seq<char>> {
    if v == "low"@ || v == "low-latency"@ || v == "low_latency"@ || v == "realtime"@ {
        Some("low-latency"@)
    } else if v == "balanced"@ || v == "balance"@ || v == "default"@ {
        Some("balanced"@)
    } else if v == "high"@ || v == "high-accuracy"@ || v == "high_accuracy"@ || v == "accuracy"@ {
        Some("high-accuracy"@)
    } else {
        None
    }
}

/// TTS workflow suffixes that are playback modes rather than engines.
pub open spec fn is_tts_mode_word(v: Seq<char>) -> bool {
    v == "autoplay"@ || v == "manual"@ || v == "on-demand"@ || v == "none"@ || v == "disabled"@
}

/// The effect of one declared workflow `w` on the route decisions `e`.
pub open spec fn apply_declaration(e: WorkflowEffects, w: Seq<char>) -> WorkflowEffects {
    let n = lower(trim(w));
    if n.len() == 0 {
        e
    } else if n == "speech.translate.realtime"@ || n == "speech.pipeline.realtime"@ || n
        == "speech.realtime"@ {
        WorkflowEffects { streaming: true, ..e }
    } else if n == "speech.mode.bidirectional"@ {
        WorkflowEffects { bidirectional: Some(true), ..e }
    } else if n == "speech.mode.unidirectional"@ {
        WorkflowEffects { bidirectional: Some(false), ..e }
    } else if n == "speech.tts.autoplay"@ {
        WorkflowEffects { auto_play: Some(true), ..e }
    } else if n == "speech.tts.manual"@ || n == "speech.tts.on-demand"@ {
        WorkflowEffects { auto_play: Some(false), ..e }
    } else if n == "speech.tts.none"@ || n == "speech.tts.disabled"@ {
        WorkflowEffects { tts_enabled: Some(false), ..e }
    } else if n == "speech.voice.clone"@ || n == "speech.voice.zero-shot-clone"@ || n
        == "speech.voice.icl"@ {
        WorkflowEffects { cloning: true, ..e }
    } else if has_prefix(n, "speech.asr."@) {
        match asr_engine_name(n.skip("speech.asr."@.len() as int)) {
            Some(engine) => WorkflowEffects { asr: Some(engine), ..e },
            None => WorkflowEffects { unresolved: e.unresolved.push(w), ..e },
        }
    } else if has_prefix(n, "speech.tts."@) {
        let suffix = n.skip("speech.tts."@.len() as int);
        match tts_engine_name(suffix) {
            Some(engine) => WorkflowEffects { tts_enabled: Some(true), tts: Some(engine), ..e },
            None => if is_tts_mode_word(suffix) {
                e
            } else {
                WorkflowEffects { unresolved: e.unresolved.push(w), ..e }
            },
        }
    } else if has_prefix(n, "speech.latency."@) {
        match latency_profile_name(n.skip("speech.latency."@.len() as int)) {
            Some(profile) => WorkflowEffects { latency: Some(profile), ..e },
            None => WorkflowEffects { unresolved: e.unresolved.push(w), ..e },
        }
    } else if has_prefix(n, "speech."@) {
        WorkflowEffects { unresolved: e.unresolved.push(w), ..e }
    } else {
        e
    }
}

/// The effect of the declared workflows `ws`, applied in order, on `e`.
pub open spec fn apply_declarations(e: WorkflowEffects, ws: Seq<Seq<char>>) -> WorkflowEffects
    decreases ws.len(),
{
    if ws.len() == 0 {
        e
    } else {
        apply_declaration(apply_declarations(e, ws.drop_last()), ws.last())
    }
}

/// Canonical ASR engine name for a workflow suffix, if it names one.
pub fn normalize_asr_engine(value: &str) -> (r: Option<&'static str>)
    ensures
        opt_str_view(r) == asr_engine_name(value@),
{
    let v = chars_of(value);
    if chars_eq_str(&v, "whisper") {
        Some("whisper")
    } else if chars_eq_str(&v, "sensevoice") {
        Some("sensevoice")
    } else if chars_eq_str(&v, "vosk") {
        Some("vosk")
    } else if chars_eq_str(&v, "qwen3") || chars_eq_str(&v, "qwen3-asr") {
        Some("qwen3-asr")
    } else {
        None
    }
}

/// Canonical TTS engine name for a workflow suffix, if it names one.
pub fn normalize_tts_engine(value: &str) -> (r: Option<&'static str>)
    ensures
        opt_str_view(r) == tts_engine_name(value@),
{
    let v = chars_of(value);
    if chars_eq_str(&v, "sherpa") || chars_eq_str(&v, "sherpa-melo") || chars_eq_str(&v, "melo") {
        Some("sherpa-melo")
    } else if chars_eq_str(&v, "edge") || chars_eq_str(&v, "edge-tts") {
        Some("edge-tts")
    } else if chars_eq_str(&v, "system") {
        Some("system")
    } else if chars_eq_str(&v, "piper") {
        Some("piper")
    } else if chars_eq_str(&v, "custom") {
        Some("custom")
    } else if chars_eq_str(&v, "qwen3") || chars_eq_str(&v, "qwen3-tts") {
        Some("qwen3-tts")
    } else {
        None
    }
}

/// Canonical latency profile name for a workflow suffix, if it names one.
pub fn normalize_latency_profile(value: &str) -> (r: Option<&'static str>)
    ensures
        opt_str_view(r) == latency_profile_name(value@),
{
    let v = chars_of(value);
    if chars_eq_str(&v, "low") || chars_eq_str(&v, "low-latency") || chars_eq_str(&v, "low_latency")
        || chars_eq_str(&v, "realtime") {
        Some("low-latency")
    } else if chars_eq_str(&v, "balanced") || chars_eq_str(&v, "balance") || chars_eq_str(
        &v,
        "default",
    ) {
        Some("balanced")
    } else if chars_eq_str(&v, "high") || chars_eq_str(&v, "high-accuracy") || chars_eq_str(
        &v,
        "high_accuracy",
    ) || chars_eq_str(&v, "accuracy") {
        Some("high-accuracy")
    } else {
        None
    }
}

/// The optional static string as an optional character sequence.
pub open spec fn opt_str_view(o: Option<&'static str>) -> Option<Seq<char>> {
    match o {
        Some(s) => Some(s@),
        None => None,
    }
}

fn is_tts_mode(v: &Vec<char>) -> (r: bool)
    ensures
        r == is_tts_mode_word(v@),
{
    chars_eq_str(v, "autoplay") || chars_eq_str(v, "manual") || chars_eq_str(v, "on-demand")
        || chars_eq_str(v, "none") || chars_eq_str(v, "disabled")
}

/// Records in `snapshot` the route decisions of one declared workflow `w`.
fn apply_one_declaration(snapshot: &mut LociWorkflowPolicySnapshot, w: String)
    ensures
        final(snapshot).same_identity(*old(snapshot)),
        final(snapshot).effects() == apply_declaration(old(snapshot).effects(), w@),
{
    let ghost e = old(snapshot).effects();
    let n = trim_lower(w.as_str());
    if n.len() == 0 {
        return;
    }
    if chars_eq_str(&n, "speech.translate.realtime") || chars_eq_str(&n, "speech.pipeline.realtime")
        || chars_eq_str(&n, "speech.realtime") {
        snapshot.supports_streaming = true;
    } else if chars_eq_str(&n, "speech.mode.bidirectional") {
        snapshot.force_bidirectional = Some(true);
    } else if chars_eq_str(&n, "speech.mode.unidirectional") {
        snapshot.force_bidirectional = Some(false);
    } else if chars_eq_str(&n, "speech.tts.autoplay") {
        snapshot.force_tts_auto_play = Some(true);
    } else if chars_eq_str(&n, "speech.tts.manual") || chars_eq_str(&n, "speech.tts.on-demand") {
        snapshot.force_tts_auto_play = Some(false);
    } else if chars_eq_str(&n, "speech.tts.none") || chars_eq_str(&n, "speech.tts.disabled") {
        snapshot.effective_tts_enabled = Some(false);
    } else if chars_eq_str(&n, "speech.voice.clone") || chars_eq_str(
        &n,
        "speech.voice.zero-shot-clone",
    ) || chars_eq_str(&n, "speech.voice.icl") {
        snapshot.supports_voice_cloning = true;
    } else {
        let asr_prefix = chars_of("speech.asr.");
        let tts_prefix = chars_of("speech.tts.");
        let latency_prefix = chars_of("speech.latency.");
        if starts_with(&n, &asr_prefix) {
            let suffix = string_of_range(&n, asr_prefix.len(), n.len());
            match normalize_asr_engine(suffix.as_str()) {
                Some(engine) => {
                    snapshot.effective_asr_engine = Some(owned(engine));
                },
                None => {
                    snapshot.unresolved_workflows.push(w);
                    assert(views(snapshot.unresolved_workflows@) =~= e.unresolved.push(w@));
                },
            }
        } else if starts_with(&n, &tts_prefix) {
            let suffix = string_of_range(&n, tts_prefix.len(), n.len());
            match normalize_tts_engine(suffix.as_str()) {
                Some(engine) => {
                    snapshot.effective_tts_enabled = Some(true);
                    snapshot.effective_tts_engine = Some(owned(engine));
                },
                None => {
                    let suffix_chars = chars_of(suffix.as_str());
                    if !is_tts_mode(&suffix_chars) {
                        snapshot.unresolved_workflows.push(w);
                        assert(views(snapshot.unresolved_workflows@) =~= e.unresolved.push(w@));
                    }
                },
            }
        } else if starts_with(&n, &latency_prefix) {
            let suffix = string_of_range(&n, latency_prefix.len(), n.len());
            match normalize_latency_profile(suffix.as_str()) {
                Some(profile) => {
                    snapshot.preferred_latency_profile = Some(owned(profile));
                },
                None => {
                    snapshot.unresolved_workflows.push(w);
                    assert(views(snapshot.unresolved_workflows@) =~= e.unresolved.push(w@));
                },
            }
        } else if starts_with_str(&n, "speech.") {
            snapshot.unresolved_workflows.push(w);
            assert(views(snapshot.unresolved_workflows@) =~= e.unresolved.push(w@));
        }
    }
}

/// Records in `snapshot` the route decisions of all its declared workflows,
/// in declaration order (a later declaration overrides an earlier one).
pub fn apply_workflow_declarations(snapshot: &mut LociWorkflowPolicySnapshot)
    ensures
        final(snapshot).same_identity(*old(snapshot)),
        final(snapshot).effects() == apply_declarations(
            old(snapshot).effects(),
            views(old(snapshot).workflows@),
        ),
{
    let ghost start = old(snapshot).effects();
    let ghost ws = views(old(snapshot).workflows@);
    let count = snapshot.workflows.len();
    let mut i: usize = 0;
    while i < count
        invariant
            count == snapshot.workflows.len(),
            i <= count,
            snapshot.same_identity(*old(snapshot)),
            ws == views(snapshot.workflows@),
            snapshot.effects() == apply_declarations(start, ws.subrange(0, i as int)),
        decreases count - i,
    {
        let w = snapshot.workflows[i].clone();
        let ghost before = *snapshot;
        apply_one_declaration(snapshot, w);
        proof {
            assert(ws.subrange(0, i + 1).drop_last() == ws.subrange(0, i as int));
            assert(ws.subrange(0, i + 1).last() == w@);
            assert(views(snapshot.workflows@) == views(before.workflows@));
            assert(views(snapshot.workflows@).len() == snapshot.workflows@.len());
            assert(views(before.workflows@).len() == before.workflows@.len());
        }
        i = i + 1;
    }
    assert(ws.subrange(0, count as int) == ws);
}


/// A requested value: the trimmed text, when it is not empty.
pub open spec fn requested(r: Option<Seq<char>>) -> Option<Seq<char>> {
    match r {
        Some(v) => if trim(v).len() > 0 {
            Some(trim(v))
        } else {
            None
        },
        None => None,
    }
}

/// The optional string slice as an optional character sequence.
pub open spec fn opt_ref_view(o: Option<&str>) -> Option<Seq<char>> {
    match o {
        Some(s) => Some(s@),
        None => None,
    }
}

/// The engine id chosen from a request, then the configuration, then a default,
/// lowercased.
pub open spec fn chosen_engine(
    req: Option<Seq<char>>,
    configured: Option<Seq<char>>,
    default: Seq<char>,
) -> Seq<char> {
    match requested(req) {
        Some(v) => lower(v),
        None => match configured {
            Some(c) => lower(c),
            None => default,
        },
    }
}

/// Canonical translation engine for a lowercased engine id.
pub open spec fn translation_engine_name(n: Seq<char>) -> Seq<char> {
    if n == "loci"@ {
        "loci"@
    } else if n == "nllb"@ || n == "argos"@ || n == "mt"@ || n == "m2m"@ {
        "nllb"@
    } else {
        n
    }
}

/// The translation engine chosen from a request, then the configuration, then `nllb`.
pub open spec fn resolved_translation(req: Option<Seq<char>>, configured: Option<Seq<char>>) -> Seq<
    char,
> {
    let selected = match requested(req) {
        Some(v) => v,
        None => match configured {
            Some(c) => c,
            None => "nllb"@,
        },
    };
    translation_engine_name(lower(selected))
}

/// Normalizing a translation engine id is idempotent: a normalized id
/// normalizes to itself.
pub proof fn lemma_normalize_translation_engine_idempotent(engine: Seq<char>)
    ensures
        translation_engine_name(lower(trim(translation_engine_name(lower(trim(engine))))))
            == translation_engine_name(lower(trim(engine))),
{
    let n = lower(trim(engine));
    crate::text::lemma_lower_trimmed(engine);
    crate::text::lemma_lower_trimmed(trim(engine));
    if n == "loci"@ || n == "nllb"@ || n == "argos"@ || n == "mt"@ || n == "m2m"@ {
        reveal_strlit("loci");
        reveal_strlit("nllb");
        let m = translation_engine_name(n);
        assert(trim(m) == m) by {
            crate::text::lemma_trim_fixed(m);
        }
        assert(lower(m) =~= m);
    } else {
        assert(trim(n) == n);
        assert(lower(n) == n);
    }
}

/// Option<&str> → trimmed, non-empty characters.
fn requested_chars(r: Option<&str>) -> (o: Option<Vec<char>>)
    ensures
        match o {
            Some(v) => requested(opt_ref_view(r)) == Some(v@),
            None => requested(opt_ref_view(r)) is None,
        },
{
    match r {
        Some(s) => {
            let v = chars_of(s);
            let t = trim_chars(&v);
            if t.len() > 0 {
                Some(t)
            } else {
                None
            }
        },
        None => None,
    }
}

fn chosen_engine_exec(r: Option<&str>, configured: Option<String>, default: &str) -> (s: String)
    ensures
        s@ == chosen_engine(opt_ref_view(r), opt_view(configured), default@),
{
    match requested_chars(r) {
        Some(t) => string_of(&lower_chars(&t)),
        None => match configured {
            Some(c) => {
                let v = chars_of(c.as_str());
                string_of(&lower_chars(&v))
            },
            None => owned(default),
        },
    }
}

/// The ASR engine id: the request, else the configured `asrEngine`, else `whisper`.
pub fn resolved_asr_engine(requested: Option<&str>, configured: Option<String>) -> (s: String)
    ensures
        s@ == chosen_engine(opt_ref_view(requested), opt_view(configured), "whisper"@),
{
    chosen_engine_exec(requested, configured, "whisper")
}

/// The TTS engine id: the request, else the configured `ttsEngine`, else `sherpa-melo`.
pub fn resolved_tts_engine(requested: Option<&str>, configured: Option<String>) -> (s: String)
    ensures
        s@ == chosen_engine(opt_ref_view(requested), opt_view(configured), "sherpa-melo"@),
{
    chosen_engine_exec(requested, configured, "sherpa-melo")
}

/// Whether TTS is enabled: the request, else the configured `ttsEnabled`, else on.
pub fn resolved_tts_enabled(requested: Option<bool>, configured: Option<bool>) -> (b: bool)
    ensures
        b == match requested {
            Some(v) => v,
            None => match configured {
                Some(c) => c,
                None => true,
            },
        },
{
    match requested {
        Some(v) => v,
        None => match configured {
            Some(c) => c,
            None => true,
        },
    }
}

/// Whether translations are spoken automatically: the request, else the
/// configured `ttsAutoPlay`, else on.
pub fn resolved_tts_auto_play(requested: Option<bool>, configured: Option<bool>) -> (b: bool)
    ensures
        b == match requested {
            Some(v) => v,
            None => match configured {
                Some(c) => c,
                None => true,
            },
        },
{
    resolved_tts_enabled(requested, configured)
}

fn translation_engine_of(n: &Vec<char>) -> (s: String)
    ensures
        s@ == translation_engine_name(n@),
{
    if chars_eq_str(n, "loci") {
        owned("loci")
    } else if chars_eq_str(n, "nllb") || chars_eq_str(n, "argos") || chars_eq_str(n, "mt")
        || chars_eq_str(n, "m2m") {
        owned("nllb")
    } else {
        string_of(n)
    }
}

/// Canonical translation engine id (`loci`, `nllb`, or the lowercased id itself).
pub fn normalize_translation_engine(engine: &str) -> (s: String)
    ensures
        s@ == translation_engine_name(lower(trim(engine@))),
{
    let n = trim_lower(engine);
    translation_engine_of(&n)
}

/// The translation engine: the request, else the configured `translationEngine`,
/// else `nllb`; `argos`, `mt` and `m2m` are served by `nllb`.
pub fn resolved_translation_engine(requested: Option<&str>, configured: Option<String>) -> (s:
    String)
    ensures
        s@ == resolved_translation(opt_ref_view(requested), opt_view(configured)),
{
    let selected: Vec<char> = match requested_chars(requested) {
        Some(t) => t,
        None => match configured {
            Some(c) => chars_of(c.as_str()),
            None => chars_of("nllb"),
        },
    };
    let n = lower_chars(&selected);
    translation_engine_of(&n)
}

/// What the Loci runtime could tell about its workflow inventory.
pub enum WorkflowInventoryLookup {
    /// This build has no Loci backend.
    BackendUnavailable,
    /// No Loci model could be resolved.
    NoModel,
    /// The inventory of the model at this path could not be read.
    Failed(String),
    /// The inventory was read.
    Found { active_workflow_rewriter: Option<String>, workflows: Vec<String> },
}

/// No route decision at all.
pub open spec fn no_effects() -> WorkflowEffects {
    WorkflowEffects {
        asr: None,
        tts: None,
        tts_enabled: None,
        latency: None,
        bidirectional: None,
        auto_play: None,
        streaming: false,
        cloning: false,
        unresolved: Seq::empty(),
    }
}

/// A snapshot with no active policy.
pub open spec fn inactive_policy(
    s: LociWorkflowPolicySnapshot,
    engine: Seq<char>,
    governance: bool,
    message: Seq<char>,
) -> bool {
    &&& s.translation_engine@ == engine
    &&& s.governance_enabled == governance
    &&& !s.runtime_ready
    &&& !s.policy_active
    &&& s.active_workflow_rewriter is None
    &&& s.workflows@.len() == 0
    &&& s.effects() == no_effects()
    &&& s.status_message@ == message
}

/// Status message of a snapshot whose inventory was read.
pub open spec fn governance_message(rewriter: Option<Seq<char>>, workflow_count: nat) -> Seq<char> {
    match rewriter {
        None => "No active Loci workflow rewriter is configured; host runtime stays on local route selection"@,
        Some(name) => if workflow_count == 0 {
            "Active workflow rewriter is configured, but it declares no workflows"@
        } else {
            "Workflow governance is active via "@ + name
                + "; host runtime routes are derived from declared speech workflows"@
        },
    }
}

/// The policy snapshot for a lookup of the workflow inventory.
pub open spec fn policy_for(
    s: LociWorkflowPolicySnapshot,
    engine: Seq<char>,
    lookup: WorkflowInventoryLookup,
) -> bool {
    match lookup {
        WorkflowInventoryLookup::BackendUnavailable => inactive_policy(
            s,
            engine,
            false,
            "loci-backend feature is not enabled in this build"@,
        ),
        _ => if engine != "loci"@ {
            inactive_policy(
                s,
                engine,
                false,
                "translationEngine is not set to loci; workflow governance is inactive"@,
            )
        } else {
            match lookup {
                WorkflowInventoryLookup::NoModel => inactive_policy(
                    s,
                    engine,
                    true,
                    "No Loci model is currently resolvable"@,
                ),
                WorkflowInventoryLookup::Failed(path) => inactive_policy(
                    s,
                    engine,
                    true,
                    "failed to resolve Loci workflow inventory ("@ + path@ + ")"@,
                ),
                WorkflowInventoryLookup::Found { active_workflow_rewriter, workflows } => {
                    &&& s.translation_engine@ == engine
                    &&& s.governance_enabled
                    &&& s.runtime_ready
                    &&& s.policy_active == active_workflow_rewriter is Some
                    &&& opt_view(s.active_workflow_rewriter) == opt_view(active_workflow_rewriter)
                    &&& views(s.workflows@) == views(workflows@)
                    &&& s.effects() == apply_declarations(no_effects(), views(workflows@))
                    &&& s.status_message@ == governance_message(
                        opt_view(active_workflow_rewriter),
                        workflows@.len(),
                    )
                },
                WorkflowInventoryLookup::BackendUnavailable => true,
            }
        },
    }
}

fn blank_policy(engine: String, governance: bool, message: String) -> (s: LociWorkflowPolicySnapshot)
    ensures
        inactive_policy(s, engine@, governance, message@),
{
    let s = LociWorkflowPolicySnapshot {
        translation_engine: engine,
        governance_enabled: governance,
        runtime_ready: false,
        policy_active: false,
        active_workflow_rewriter: None,
        workflows: Vec::new(),
        effective_asr_engine: None,
        effective_tts_engine: None,
        effective_tts_enabled: None,
        preferred_latency_profile: None,
        force_bidirectional: None,
        force_tts_auto_play: None,
        supports_streaming: false,
        supports_voice_cloning: false,
        unresolved_workflows: Vec::new(),
        status_message: message,
    };
    assert(views(s.unresolved_workflows@) =~= Seq::empty());
    s
}

/// The Loci workflow policy for the requested translation engine, given what
/// the Loci runtime reported about its workflow inventory.
pub fn workflow_policy_snapshot(
    requested_translation_engine: Option<&str>,
    configured_translation_engine: Option<String>,
    lookup: WorkflowInventoryLookup,
) -> (r: AppResult<LociWorkflowPolicySnapshot>)
    ensures
        r matches Ok(s) && policy_for(
            s,
            resolved_translation(
                opt_ref_view(requested_translation_engine),
                opt_view(configured_translation_engine),
            ),
            lookup,
        ),
{
    let translation_engine = resolved_translation_engine(
        requested_translation_engine,
        configured_translation_engine,
    );
    if let WorkflowInventoryLookup::BackendUnavailable = lookup {
        return Ok(
            blank_policy(
                translation_engine,
                false,
                owned("loci-backend feature is not enabled in this build"),
            ),
        );
    }
    let engine_chars = chars_of(translation_engine.as_str());
    if !chars_eq_str(&engine_chars, "loci") {
        return Ok(
            blank_policy(
                translation_engine,
                false,
                owned("translationEngine is not set to loci; workflow governance is inactive"),
            ),
        );
    }
    match lookup {
        WorkflowInventoryLookup::BackendUnavailable => Ok(
            blank_policy(
                translation_engine,
                false,
                owned("loci-backend feature is not enabled in this build"),
            ),
        ),
        WorkflowInventoryLookup::NoModel => Ok(
            blank_policy(translation_engine, true, owned("No Loci model is currently resolvable")),
        ),
        WorkflowInventoryLookup::Failed(path) => {
            let mut message = owned("failed to resolve Loci workflow inventory (");
            push_str(&mut message, path.as_str());
            push_str(&mut message, ")");
            Ok(blank_policy(translation_engine, true, message))
        },
        WorkflowInventoryLookup::Found { active_workflow_rewriter, workflows } => {
            let policy_active = active_workflow_rewriter.is_some();
            let mut snapshot = LociWorkflowPolicySnapshot {
                translation_engine,
                governance_enabled: true,
                runtime_ready: true,
                policy_active,
                active_workflow_rewriter,
                workflows,
                effective_asr_engine: None,
                effective_tts_engine: None,
                effective_tts_enabled: None,
                preferred_latency_profile: None,
                force_bidirectional: None,
                force_tts_auto_play: None,
                supports_streaming: false,
                supports_voice_cloning: false,
                unresolved_workflows: Vec::new(),
                status_message: String::new(),
            };
            assert(views(snapshot.unresolved_workflows@) =~= Seq::empty());
            apply_workflow_declarations(&mut snapshot);
            let message = match &snapshot.active_workflow_rewriter {
                None => owned(
                    "No active Loci workflow rewriter is configured; host runtime stays on local route selection",
                ),
                Some(name) => if snapshot.workflows.len() == 0 {
                    owned("Active workflow rewriter is configured, but it declares no workflows")
                } else {
                    let mut m = owned("Workflow governance is active via ");
                    push_str(&mut m, name.as_str());
                    push_str(
                        &mut m,
                        "; host runtime routes are derived from declared speech workflows",
                    );
                    m
                },
            };
            proof {
                assert(views(snapshot.workflows@).len() == snapshot.workflows@.len());
            }
            snapshot.status_message = message;
            Ok(snapshot)
        },
    }
}

/// The engines and modes a session will run with.
pub struct EffectiveRuntimeSelection {
    pub asr_engine: String,
    pub translation_engine: String,
    pub tts_engine: String,
    pub tts_enabled: bool,
    pub tts_auto_play: bool,
    pub bidirectional: bool,
    pub latency_profile: Option<String>,
    pub workflow_policy: LociWorkflowPolicySnapshot,
}

/// The persisted configuration values that route selection reads.
pub struct RuntimeConfig {
    pub translation_engine: Option<String>,
    pub asr_engine: Option<String>,
    pub tts_engine: Option<String>,
    pub tts_enabled: Option<bool>,
    pub tts_auto_play: Option<bool>,
}

/// An override of a default by an active policy.
pub open spec fn overridden<T>(active: bool, forced: Option<T>, default: T) -> T {
    if active {
        match forced {
            Some(v) => v,
            None => default,
        }
    } else {
        default
    }
}

/// What `resolve_effective_runtime_selection` yields for these requests, this
/// persisted configuration and this inventory lookup.
pub open spec fn effective_selection(
    sel: EffectiveRuntimeSelection,
    requested_asr_engine: Option<Seq<char>>,
    requested_translation_engine: Option<Seq<char>>,
    requested_tts_engine: Option<Seq<char>>,
    requested_tts_enabled: Option<bool>,
    requested_latency_profile: Option<Seq<char>>,
    requested_bidirectional: Option<bool>,
    requested_tts_auto_play: Option<bool>,
    config: RuntimeConfig,
    lookup: WorkflowInventoryLookup,
) -> bool {
    let te = resolved_translation(
        requested_translation_engine,
        opt_view(config.translation_engine),
    );
    let p = sel.workflow_policy;
    let active = p.policy_active;
    &&& policy_for(p, resolved_translation(Some(te), opt_view(config.translation_engine)), lookup)
    &&& sel.translation_engine@ == te
    &&& sel.asr_engine@ == overridden(
        active,
        p.effects().asr,
        chosen_engine(requested_asr_engine, opt_view(config.asr_engine), "whisper"@),
    )
    &&& sel.tts_engine@ == overridden(
        active,
        p.effects().tts,
        chosen_engine(
            requested_tts_engine,
            opt_view(config.tts_engine),
            "sherpa-melo"@,
        ),
    )
    &&& sel.tts_enabled == overridden(
        active,
        p.effective_tts_enabled,
        match requested_tts_enabled {
            Some(v) => v,
            None => match config.tts_enabled {
                Some(c) => c,
                None => true,
            },
        },
    )
    &&& sel.tts_auto_play == overridden(
        active,
        p.force_tts_auto_play,
        match requested_tts_auto_play {
            Some(v) => v,
            None => match config.tts_auto_play {
                Some(c) => c,
                None => true,
            },
        },
    )
    &&& sel.bidirectional == overridden(
        active,
        p.force_bidirectional,
        match requested_bidirectional {
            Some(v) => v,
            None => false,
        },
    )
    &&& opt_view(sel.latency_profile) == overridden(
        active,
        match p.effects().latency {
            Some(l) => Some(Some(l)),
            None => None,
        },
        requested(requested_latency_profile),
    )
}

/// The effective runtime: each stage's request resolved against the persisted
/// configuration, then overridden by an active workflow policy where it declares
/// a decision.
pub fn resolve_effective_runtime_selection(
    requested_asr_engine: Option<&str>,
    requested_translation_engine: Option<&str>,
    requested_tts_engine: Option<&str>,
    requested_tts_enabled: Option<bool>,
    requested_latency_profile: Option<&str>,
    requested_bidirectional: Option<bool>,
    requested_tts_auto_play: Option<bool>,
    config: &RuntimeConfig,
    lookup: WorkflowInventoryLookup,
) -> (r: AppResult<EffectiveRuntimeSelection>)
    ensures
        r matches Ok(sel) && effective_selection(
            sel,
            opt_ref_view(requested_asr_engine),
            opt_ref_view(requested_translation_engine),
            opt_ref_view(requested_tts_engine),
            requested_tts_enabled,
            opt_ref_view(requested_latency_profile),
            requested_bidirectional,
            requested_tts_auto_play,
            *config,
            lookup,
        ),
{
    let translation_engine = resolved_translation_engine(
        requested_translation_engine,
        clone_opt(&config.translation_engine),
    );
    let latency_profile = match requested_chars(requested_latency_profile) {
        Some(t) => Some(string_of(&t)),
        None => None,
    };
    let policy = workflow_policy_snapshot(
        Some(translation_engine.as_str()),
        clone_opt(&config.translation_engine),
        lookup,
    );
    let workflow_policy = match policy {
        Ok(p) => p,
        Err(e) => {
            return Err(e);
        },
    };
    let mut selection = EffectiveRuntimeSelection {
        asr_engine: resolved_asr_engine(requested_asr_engine, clone_opt(&config.asr_engine)),
        translation_engine: translation_engine.clone(),
        tts_engine: resolved_tts_engine(requested_tts_engine, clone_opt(&config.tts_engine)),
        tts_enabled: resolved_tts_enabled(requested_tts_enabled, config.tts_enabled),
        tts_auto_play: resolved_tts_auto_play(requested_tts_auto_play, config.tts_auto_play),
        bidirectional: match requested_bidirectional {
            Some(v) => v,
            None => false,
        },
        latency_profile,
        workflow_policy,
    };
    if selection.workflow_policy.policy_active {
        if let Some(engine) = &selection.workflow_policy.effective_asr_engine {
            selection.asr_engine = engine.clone();
        }
        if let Some(engine) = &selection.workflow_policy.effective_tts_engine {
            selection.tts_engine = engine.clone();
        }
        if let Some(enabled) = selection.workflow_policy.effective_tts_enabled {
            selection.tts_enabled = enabled;
        }
        if let Some(profile) = &selection.workflow_policy.preferred_latency_profile {
            selection.latency_profile = Some(profile.clone());
        }
        if let Some(bidirectional) = selection.workflow_policy.force_bidirectional {
            selection.bidirectional = bidirectional;
        }
        if let Some(tts_auto_play) = selection.workflow_policy.force_tts_auto_play {
            selection.tts_auto_play = tts_auto_play;
        }
    }
    Ok(selection)
}

/// A copy of an optional string.
pub fn clone_opt(o: &Option<String>) -> (r: Option<String>)
    ensures
        opt_view(r) == opt_view(*o),
{
    match o {
        Some(s) => Some(s.clone()),
        None => None,
    }
}

} // verus!

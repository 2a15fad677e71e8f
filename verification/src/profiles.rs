//! Workflow profiles: named presets of a whole speech route (engines, modes,
//! latency and the Loci workflow plugin that governs it).
use vstd::prelude::*;

use crate::error::{AppError, AppResult};
use crate::governance::{
    effective_selection, views, EffectiveRuntimeSelection, RuntimeConfig, WorkflowInventoryLookup,
};
use crate::system::{build_preflight, preflight_matches, RuntimeReadiness, SessionPreflightStatus};
use crate::text::{chars_eq_str, lower, owned, push_str, string_of, trim, trim_lower};

verus! {

/// A workflow profile as it is offered to the user.
pub struct WorkflowProfileDescriptor {
    pub id: String,
    pub name: String,
    pub description: String,
    pub target_user: String,
    pub translation_engine: String,
    pub asr_engine: String,
    pub tts_engine: String,
    pub tts_enabled: bool,
    pub tts_auto_play: bool,
    pub bidirectional: bool,
    pub latency_profile: String,
    pub loci_workflow_plugin: String,
    pub workflows: Vec<String>,
}

/// A request to apply the profile with this id.
pub struct ApplyWorkflowProfileRequest {
    pub profile_id: String,
}

/// What applying a profile did: the profile, the configuration keys written,
/// and the preflight of the route it selects.
pub struct ApplyWorkflowProfileResult {
    pub profile: WorkflowProfileDescriptor,
    pub updated_keys: Vec<String>,
    pub preflight: SessionPreflightStatus,
    pub message: String,
}

/// A configuration value that a profile writes.
pub enum ConfigValue {
    Text(String),
    Flag(bool),
}

/// One configuration write of a profile.
pub struct ConfigUpdate {
    pub key: String,
    pub value: ConfigValue,
}

/// A configuration value as a mathematical value: a text or a flag.
pub open spec fn value_view(v: ConfigValue) -> Result<Seq<char>, bool> {
    match v {
        ConfigValue::Text(t) => Ok(t@),
        ConfigValue::Flag(b) => Err(b),
    }
}

/// Whether `d` is the profile with these values.
pub open spec fn profile_is(
    d: WorkflowProfileDescriptor,
    id: Seq<char>,
    name: Seq<char>,
    description: Seq<char>,
    target_user: Seq<char>,
    translation_engine: Seq<char>,
    asr_engine: Seq<char>,
    tts_engine: Seq<char>,
    tts_enabled: bool,
    tts_auto_play: bool,
    bidirectional: bool,
    latency_profile: Seq<char>,
    loci_workflow_plugin: Seq<char>,
    workflows: Seq<Seq<char>>,
) -> bool {
    &&& d.id@ == id
    &&& d.name@ == name
    &&& d.description@ == description
    &&& d.target_user@ == target_user
    &&& d.translation_engine@ == translation_engine
    &&& d.asr_engine@ == asr_engine
    &&& d.tts_engine@ == tts_engine
    &&& d.tts_enabled == tts_enabled
    &&& d.tts_auto_play == tts_auto_play
    &&& d.bidirectional == bidirectional
    &&& d.latency_profile@ == latency_profile
    &&& d.loci_workflow_plugin@ == loci_workflow_plugin
    &&& views(d.workflows@) == workflows
}

/// The low-latency meeting profile.
pub open spec fn is_meeting_profile(d: WorkflowProfileDescriptor) -> bool {
    profile_is(
        d,
        "meeting-low-latency"@,
        "低延迟会议模式"@,
        "优先实时性和自动播报，适合同传会议和销售演示。"@,
        "sales-demo"@,
        "loci"@,
        "whisper"@,
        "sherpa-melo"@,
        true,
        true,
        true,
        "low-latency"@,
        "localtrans-meeting-low-latency"@,
        seq![
            "speech.translate.realtime"@,
            "speech.asr.whisper"@,
            "speech.tts.sherpa-melo"@,
            "speech.latency.low-latency"@,
            "speech.tts.autoplay"@,
            "speech.mode.bidirectional"@,
            "speech.voice.clone"@,
        ],
    )
}

/// The local-only privacy profile.
pub open spec fn is_privacy_profile(d: WorkflowProfileDescriptor) -> bool {
    profile_is(
        d,
        "privacy-local-only"@,
        "隐私本地模式"@,
        "优先本地化语音链路，避免在线 TTS 依赖。"@,
        "private-deployment"@,
        "loci"@,
        "whisper"@,
        "piper"@,
        true,
        false,
        false,
        "balanced"@,
        "localtrans-privacy-local-only"@,
        seq![
            "speech.translate.realtime"@,
            "speech.asr.whisper"@,
            "speech.tts.piper"@,
            "speech.latency.balanced"@,
            "speech.tts.manual"@,
            "speech.mode.unidirectional"@,
        ],
    )
}

/// The high-accuracy caption profile.
pub open spec fn is_caption_profile(d: WorkflowProfileDescriptor) -> bool {
    profile_is(
        d,
        "caption-high-accuracy"@,
        "高精度字幕模式"@,
        "优先字幕稳定性和准确率，默认关闭自动播报。"@,
        "caption-production"@,
        "loci"@,
        "sensevoice"@,
        "piper"@,
        false,
        false,
        false,
        "high-accuracy"@,
        "localtrans-caption-high-accuracy"@,
        seq![
            "speech.translate.realtime"@,
            "speech.asr.sensevoice"@,
            "speech.tts.none"@,
            "speech.latency.high-accuracy"@,
            "speech.mode.unidirectional"@,
        ],
    )
}

/// The profile with this (normalized) id, if there is one.
pub open spec fn profile_with_id(d: WorkflowProfileDescriptor, id: Seq<char>) -> bool {
    if id == "meeting-low-latency"@ {
        is_meeting_profile(d)
    } else if id == "privacy-local-only"@ {
        is_privacy_profile(d)
    } else if id == "caption-high-accuracy"@ {
        is_caption_profile(d)
    } else {
        false
    }
}

/// Whether `id` names one of the profiles.
pub open spec fn known_profile_id(id: Seq<char>) -> bool {
    id == "meeting-low-latency"@ || id == "privacy-local-only"@ || id == "caption-high-accuracy"@
}

fn strings(items: &[&str]) -> (v: Vec<String>)
    ensures
        v@.len() == items@.len(),
        forall|i: int| 0 <= i < items@.len() ==> #[trigger] v@[i]@ == items@[i]@,
{
    let mut v: Vec<String> = Vec::new();
    let mut i: usize = 0;
    while i < items.len()
        invariant
            i <= items@.len(),
            v@.len() == i,
            forall|k: int| 0 <= k < i ==> #[trigger] v@[k]@ == items@[k]@,
        decreases items@.len() - i,
    {
        v.push(owned(items[i]));
        i = i + 1;
    }
    v
}

fn meeting_profile() -> (d: WorkflowProfileDescriptor)
    ensures
        is_meeting_profile(d),
{
    let workflows = strings(
        &[
            "speech.translate.realtime",
            "speech.asr.whisper",
            "speech.tts.sherpa-melo",
            "speech.latency.low-latency",
            "speech.tts.autoplay",
            "speech.mode.bidirectional",
            "speech.voice.clone",
        ],
    );
    let d = WorkflowProfileDescriptor {
        id: owned("meeting-low-latency"),
        name: owned("低延迟会议模式"),
        description: owned("优先实时性和自动播报，适合同传会议和销售演示。"),
        target_user: owned("sales-demo"),
        translation_engine: owned("loci"),
        asr_engine: owned("whisper"),
        tts_engine: owned("sherpa-melo"),
        tts_enabled: true,
        tts_auto_play: true,
        bidirectional: true,
        latency_profile: owned("low-latency"),
        loci_workflow_plugin: owned("localtrans-meeting-low-latency"),
        workflows,
    };
    assert(views(d.workflows@) =~= seq![
        "speech.translate.realtime"@,
        "speech.asr.whisper"@,
        "speech.tts.sherpa-melo"@,
        "speech.latency.low-latency"@,
        "speech.tts.autoplay"@,
        "speech.mode.bidirectional"@,
        "speech.voice.clone"@,
    ]);
    d
}

fn privacy_profile() -> (d: WorkflowProfileDescriptor)
    ensures
        is_privacy_profile(d),
{
    let workflows = strings(
        &[
            "speech.translate.realtime",
            "speech.asr.whisper",
            "speech.tts.piper",
            "speech.latency.balanced",
            "speech.tts.manual",
            "speech.mode.unidirectional",
        ],
    );
    let d = WorkflowProfileDescriptor {
        id: owned("privacy-local-only"),
        name: owned("隐私本地模式"),
        description: owned("优先本地化语音链路，避免在线 TTS 依赖。"),
        target_user: owned("private-deployment"),
        translation_engine: owned("loci"),
        asr_engine: owned("whisper"),
        tts_engine: owned("piper"),
        tts_enabled: true,
        tts_auto_play: false,
        bidirectional: false,
        latency_profile: owned("balanced"),
        loci_workflow_plugin: owned("localtrans-privacy-local-only"),
        workflows,
    };
    assert(views(d.workflows@) =~= seq![
        "speech.translate.realtime"@,
        "speech.asr.whisper"@,
        "speech.tts.piper"@,
        "speech.latency.balanced"@,
        "speech.tts.manual"@,
        "speech.mode.unidirectional"@,
    ]);
    d
}

fn caption_profile() -> (d: WorkflowProfileDescriptor)
    ensures
        is_caption_profile(d),
{
    let workflows = strings(
        &[
            "speech.translate.realtime",
            "speech.asr.sensevoice",
            "speech.tts.none",
            "speech.latency.high-accuracy",
            "speech.mode.unidirectional",
        ],
    );
    let d = WorkflowProfileDescriptor {
        id: owned("caption-high-accuracy"),
        name: owned("高精度字幕模式"),
        description: owned("优先字幕稳定性和准确率，默认关闭自动播报。"),
        target_user: owned("caption-production"),
        translation_engine: owned("loci"),
        asr_engine: owned("sensevoice"),
        tts_engine: owned("piper"),
        tts_enabled: false,
        tts_auto_play: false,
        bidirectional: false,
        latency_profile: owned("high-accuracy"),
        loci_workflow_plugin: owned("localtrans-caption-high-accuracy"),
        workflows,
    };
    assert(views(d.workflows@) =~= seq![
        "speech.translate.realtime"@,
        "speech.asr.sensevoice"@,
        "speech.tts.none"@,
        "speech.latency.high-accuracy"@,
        "speech.mode.unidirectional"@,
    ]);
    d
}

/// The workflow profiles, in the order they are offered: low-latency meeting,
/// local-only privacy, high-accuracy captions.
pub fn list_workflow_profiles() -> (r: AppResult<Vec<WorkflowProfileDescriptor>>)
    ensures
        r matches Ok(v) && {
            &&& v@.len() == 3
            &&& is_meeting_profile(v@[0])
            &&& is_privacy_profile(v@[1])
            &&& is_caption_profile(v@[2])
        },
{
    let mut v: Vec<WorkflowProfileDescriptor> = Vec::new();
    v.push(meeting_profile());
    v.push(privacy_profile());
    v.push(caption_profile());
    Ok(v)
}

/// The profile a request names: its id is compared trimmed and ASCII-lowercased;
/// an unknown id is an invalid-state error that quotes the normalized id.
pub fn find_workflow_profile(profile_id: &str) -> (r: AppResult<WorkflowProfileDescriptor>)
    ensures
        known_profile_id(lower(trim(profile_id@))) <==> r is Ok,
        r matches Ok(d) ==> profile_with_id(d, lower(trim(profile_id@))),
        r matches Err(e) ==> e matches AppError::InvalidState(m) && m@
            == "unknown workflow profile id: "@ + lower(trim(profile_id@)),
{
    let key = trim_lower(profile_id);
    if chars_eq_str(&key, "meeting-low-latency") {
        Ok(meeting_profile())
    } else if chars_eq_str(&key, "privacy-local-only") {
        Ok(privacy_profile())
    } else if chars_eq_str(&key, "caption-high-accuracy") {
        Ok(caption_profile())
    } else {
        let mut m = owned("unknown workflow profile id: ");
        let k = string_of(&key);
        push_str(&mut m, k.as_str());
        Err(AppError::InvalidState(m))
    }
}

/// The configuration keys a profile writes, in the order they are written.
pub open spec fn profile_update_keys() -> Seq<Seq<char>> {
    seq![
        "translationEngine"@,
        "asrEngine"@,
        "ttsEngine"@,
        "ttsEnabled"@,
        "ttsAutoPlay"@,
        "lociWorkflowPlugin"@,
        "bidirectional"@,
        "latencyProfile"@,
    ]
}

/// The values a profile writes, in the order of `profile_update_keys`.
pub open spec fn profile_update_values(d: WorkflowProfileDescriptor) -> Seq<Result<Seq<char>, bool>> {
    seq![
        Ok(d.translation_engine@),
        Ok(d.asr_engine@),
        Ok(d.tts_engine@),
        Err(d.tts_enabled),
        Err(d.tts_auto_play),
        Ok(d.loci_workflow_plugin@),
        Err(d.bidirectional),
        Ok(d.latency_profile@),
    ]
}

fn text_update(key: &str, value: &String) -> (u: ConfigUpdate)
    ensures
        u.key@ == key@,
        value_view(u.value) == Ok::<Seq<char>, bool>(value@),
{
    ConfigUpdate { key: owned(key), value: ConfigValue::Text(value.clone()) }
}

fn flag_update(key: &str, value: bool) -> (u: ConfigUpdate)
    ensures
        u.key@ == key@,
        value_view(u.value) == Err::<Seq<char>, bool>(value),
{
    ConfigUpdate { key: owned(key), value: ConfigValue::Flag(value) }
}

/// The configuration writes that apply a profile.
pub fn profile_config_updates(profile: &WorkflowProfileDescriptor) -> (r: Vec<ConfigUpdate>)
    ensures
        r@.len() == 8,
        forall|i: int|
            0 <= i < 8 ==> #[trigger] r@[i].key@ == profile_update_keys()[i] && value_view(r@[i].value)
                == profile_update_values(*profile)[i],
{
    let mut r: Vec<ConfigUpdate> = Vec::new();
    r.push(text_update("translationEngine", &profile.translation_engine));
    r.push(text_update("asrEngine", &profile.asr_engine));
    r.push(text_update("ttsEngine", &profile.tts_engine));
    r.push(flag_update("ttsEnabled", profile.tts_enabled));
    r.push(flag_update("ttsAutoPlay", profile.tts_auto_play));
    r.push(text_update("lociWorkflowPlugin", &profile.loci_workflow_plugin));
    r.push(flag_update("bidirectional", profile.bidirectional));
    r.push(text_update("latencyProfile", &profile.latency_profile));
    r
}

/// The message that reports an applied profile.
pub open spec fn applied_message(d: WorkflowProfileDescriptor) -> Seq<char> {
    "Applied workflow profile '"@ + d.id@ + "' with plugin '"@ + d.loci_workflow_plugin@ + "'"@
}

/// The result of applying `profile` once its configuration writes are done: the
/// written keys, and the preflight of the route the profile requests, resolved
/// against the configuration and workflow inventory as they now stand.
pub fn apply_workflow_profile(
    profile: WorkflowProfileDescriptor,
    config: &RuntimeConfig,
    lookup: WorkflowInventoryLookup,
    readiness: &RuntimeReadiness,
) -> (r: AppResult<ApplyWorkflowProfileResult>)
    ensures
        r matches Ok(a) && {
            &&& a.profile == profile
            &&& views(a.updated_keys@) == profile_update_keys()
            &&& a.message@ == applied_message(profile)
            &&& exists|sel: EffectiveRuntimeSelection|
                #[trigger] effective_selection(
                    sel,
                    Some(profile.asr_engine@),
                    Some(profile.translation_engine@),
                    Some(profile.tts_engine@),
                    Some(profile.tts_enabled),
                    Some(profile.latency_profile@),
                    Some(profile.bidirectional),
                    Some(profile.tts_auto_play),
                    *config,
                    lookup,
                ) && preflight_matches(a.preflight, sel, *readiness)
        },
{
    let preflight = match build_preflight(
        Some(profile.asr_engine.as_str()),
        Some(profile.translation_engine.as_str()),
        Some(profile.tts_engine.as_str()),
        Some(profile.tts_enabled),
        Some(profile.tts_auto_play),
        Some(profile.bidirectional),
        Some(profile.latency_profile.as_str()),
        config,
        lookup,
        readiness,
    ) {
        Ok(p) => p,
        Err(e) => {
            return Err(e);
        },
    };
    let updates = profile_config_updates(&profile);
    let mut updated_keys: Vec<String> = Vec::new();
    let mut i: usize = 0;
    while i < updates.len()
        invariant
            i <= updates@.len(),
            updates@.len() == 8,
            updated_keys@.len() == i,
            forall|k: int| 0 <= k < i ==> #[trigger] updated_keys@[k]@ == updates@[k].key@,
        decreases updates@.len() - i,
    {
        updated_keys.push(updates[i].key.clone());
        i = i + 1;
    }
    assert forall|k: int| 0 <= k < 8 implies #[trigger] views(updated_keys@)[k]
        == profile_update_keys()[k] by {
        assert(updates@[k].key@ == profile_update_keys()[k]);
    }
    assert(views(updated_keys@) =~= profile_update_keys());
    let mut message = owned("Applied workflow profile '");
    push_str(&mut message, profile.id.as_str());
    push_str(&mut message, "' with plugin '");
    push_str(&mut message, profile.loci_workflow_plugin.as_str());
    push_str(&mut message, "'");
    Ok(ApplyWorkflowProfileResult { profile, updated_keys, preflight, message })
}

/// A text that is already in the form requests are normalized to: trimmed,
/// lowercase, not empty.
pub open spec fn normal_form(t: Seq<char>) -> bool {
    t.len() > 0 && crate::text::trim(t) == t && lower(t) == t
}

proof fn lemma_profile_names_normal(d: WorkflowProfileDescriptor)
    requires
        is_meeting_profile(d) || is_privacy_profile(d) || is_caption_profile(d),
    ensures
        normal_form(d.asr_engine@),
        normal_form(d.translation_engine@),
        normal_form(d.tts_engine@),
        normal_form(d.latency_profile@),
{
    reveal_strlit("whisper");
    reveal_strlit("sensevoice");
    reveal_strlit("sherpa-melo");
    reveal_strlit("piper");
    reveal_strlit("loci");
    reveal_strlit("low-latency");
    reveal_strlit("balanced");
    reveal_strlit("high-accuracy");
    assert forall|t: Seq<char>|
        t == "whisper"@ || t == "sensevoice"@ || t == "sherpa-melo"@ || t == "piper"@ || t
            == "loci"@ || t == "low-latency"@ || t == "balanced"@ || t
            == "high-accuracy"@ implies #[trigger] normal_form(t) by {
        crate::text::lemma_trim_fixed(t);
        assert(lower(t) =~= t);
    }
}

/// The route of a profile: when no workflow policy overrides it, applying a
/// profile selects exactly the profile's engines, modes and latency profile.
pub proof fn lemma_profile_route_applies(
    d: WorkflowProfileDescriptor,
    sel: EffectiveRuntimeSelection,
    config: RuntimeConfig,
    lookup: WorkflowInventoryLookup,
)
    requires
        is_meeting_profile(d) || is_privacy_profile(d) || is_caption_profile(d),
        effective_selection(
            sel,
            Some(d.asr_engine@),
            Some(d.translation_engine@),
            Some(d.tts_engine@),
            Some(d.tts_enabled),
            Some(d.latency_profile@),
            Some(d.bidirectional),
            Some(d.tts_auto_play),
            config,
            lookup,
        ),
        !sel.workflow_policy.policy_active,
    ensures
        sel.asr_engine@ == d.asr_engine@,
        sel.translation_engine@ == d.translation_engine@,
        sel.tts_engine@ == d.tts_engine@,
        sel.tts_enabled == d.tts_enabled,
        sel.tts_auto_play == d.tts_auto_play,
        sel.bidirectional == d.bidirectional,
        crate::governance::opt_view(sel.latency_profile) == Some(d.latency_profile@),
{
    lemma_profile_names_normal(d);
    reveal_strlit("loci");
    reveal_strlit("nllb");
}

} // verus!

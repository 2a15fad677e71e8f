//! Runtime readiness: the session preflight (what blocks a session and what
//! only deserves a warning), the per-stage runtime status, and the workflow
//! profiles that preset a whole route.
use vstd::prelude::*;

use crate::error::{AppError, AppResult};
use crate::adapters::{inventory_for, runtime_adapter_inventory, RuntimeAdapterInventory};
use crate::governance::{
    effective_selection, opt_ref_view, opt_view, resolve_effective_runtime_selection, views,
    EffectiveRuntimeSelection, LociWorkflowPolicySnapshot, RuntimeConfig, WorkflowInventoryLookup,
};
use crate::order::{insert_sorted, strictly_sorted};
use crate::text::{chars_eq_str, chars_of, decimal, join, join_strings, owned, push_str, usize_to_decimal};

verus! {

/// One finding of the session preflight.
pub struct SessionPreflightItem {
    pub code: String,
    pub stage: String,
    pub severity: String,
    pub label: String,
    pub message: String,
    pub action: Option<String>,
}

/// A preflight finding as mathematical values: code, stage, severity, label,
/// message, action.
pub type ItemView = (Seq<char>, Seq<char>, Seq<char>, Seq<char>, Seq<char>, Option<Seq<char>>);

impl SessionPreflightItem {
    pub open spec fn view_tuple(self) -> ItemView {
        (self.code@, self.stage@, self.severity@, self.label@, self.message@, opt_view(self.action))
    }
}

/// The findings as mathematical values.
pub open spec fn item_views(items: Seq<SessionPreflightItem>) -> Seq<ItemView> {
    items.map_values(|i: SessionPreflightItem| i.view_tuple())
}

/// The engines a session would run with.
pub struct EffectiveRuntimeSummary {
    pub asr_engine: String,
    pub translation_engine: String,
    pub tts_engine: String,
    pub tts_enabled: bool,
    pub tts_auto_play: bool,
    pub bidirectional: bool,
    pub latency_profile: Option<String>,
}

/// Whether a session can start, and why not.
pub struct SessionPreflightStatus {
    pub can_start: bool,
    pub summary: String,
    pub blockers: Vec<SessionPreflightItem>,
    pub warnings: Vec<SessionPreflightItem>,
    pub effective_runtime: EffectiveRuntimeSummary,
    pub workflow_policy: LociWorkflowPolicySnapshot,
}

/// What the host knows of its installed runtime pieces.
pub struct RuntimeReadiness {
    pub asr_ready: bool,
    pub loci_ready: bool,
    pub bundled_tts_ready: bool,
    pub mt_ready: bool,
    pub custom_voice_enabled: bool,
    pub custom_voice_profile_id: Option<String>,
    pub custom_voice_model_path: Option<String>,
}

impl RuntimeReadiness {
    /// A custom voice is enabled and has a profile or a model path.
    pub open spec fn custom_voice_ready(self) -> bool {
        self.custom_voice_enabled && (self.custom_voice_profile_id is Some
            || self.custom_voice_model_path is Some)
    }
}

/// A finding.
pub open spec fn finding(
    code: Seq<char>,
    stage: Seq<char>,
    severity: Seq<char>,
    label: Seq<char>,
    message: Seq<char>,
    action: Option<Seq<char>>,
) -> ItemView {
    (code, stage, severity, label, message, action)
}

/// The blocking finding of the ASR stage, if any.
pub open spec fn asr_blockers(sel: EffectiveRuntimeSelection, r: RuntimeReadiness) -> Seq<ItemView> {
    if sel.asr_engine@ == "qwen3-asr"@ {
        seq![
            finding(
                "asr.qwen3_unavailable"@,
                "asr"@,
                "blocker"@,
                "Qwen3-ASR 尚未接入"@,
                "当前构建只暴露 qwen3-asr 适配器槽位，尚未包含可执行后端。请切换到 Whisper、SenseVoice 或 Vosk。"@,
                Some("open_settings_page"@),
            ),
        ]
    } else if !r.asr_ready {
        seq![
            finding(
                "asr.model_missing"@,
                "asr"@,
                "blocker"@,
                "缺少 ASR 模型"@,
                "实时会话需要本地 ASR 模型才能启动。"@,
                Some("open_model_page"@),
            ),
        ]
    } else {
        Seq::empty()
    }
}

/// The blocking finding of the translation stage, if any.
pub open spec fn translation_blockers(sel: EffectiveRuntimeSelection, r: RuntimeReadiness) -> Seq<
    ItemView,
> {
    if sel.translation_engine@ == "loci"@ {
        if !r.loci_ready {
            seq![
                finding(
                    "translation.loci_model_missing"@,
                    "translation"@,
                    "blocker"@,
                    "缺少 Loci 模型"@,
                    "选择 Loci 翻译时，必须先准备本地 GGUF 模型。"@,
                    Some("download_loci_model"@),
                ),
            ]
        } else {
            Seq::empty()
        }
    } else if !r.mt_ready {
        seq![
            finding(
                "translation.mt_runtime_missing"@,
                "translation"@,
                "blocker"@,
                "机翻运行时未就绪"@,
                "当前确定性 MT 运行时不完整，无法启动会话。"@,
                Some("prepare_mt_runtime"@),
            ),
        ]
    } else {
        Seq::empty()
    }
}

/// The blocking finding of the TTS stage, if any.
pub open spec fn tts_blockers(sel: EffectiveRuntimeSelection, r: RuntimeReadiness) -> Seq<ItemView> {
    if !sel.tts_enabled {
        Seq::empty()
    } else if sel.tts_engine@ == "qwen3-tts"@ {
        seq![
            finding(
                "tts.qwen3_unavailable"@,
                "tts"@,
                "blocker"@,
                "Qwen3-TTS 尚未接入"@,
                "当前构建只暴露 qwen3-tts 适配器槽位，尚未包含可执行后端。"@,
                Some("open_settings_page"@),
            ),
        ]
    } else if (sel.tts_engine@ == "sherpa-melo"@ || sel.tts_engine@ == "piper"@)
        && !r.bundled_tts_ready {
        seq![
            finding(
                "tts.assets_missing"@,
                "tts"@,
                "blocker"@,
                "缺少本地 TTS 资源"@,
                "当前 TTS 引擎需要本地语音资源，尚未安装。"@,
                Some("download_tts_model"@),
            ),
        ]
    } else if sel.tts_engine@ == "custom"@ && !r.custom_voice_ready() {
        seq![
            finding(
                "tts.custom_not_configured"@,
                "tts"@,
                "blocker"@,
                "自定义音色未配置"@,
                "当前选择了自定义音色，但没有可用的 profile 或模型路径。"@,
                Some("open_settings_page"@),
            ),
        ]
    } else {
        Seq::empty()
    }
}

/// The blocking findings for a selection, in the order they are reported:
/// ASR, then translation, then TTS.
pub open spec fn preflight_blockers(sel: EffectiveRuntimeSelection, r: RuntimeReadiness) -> Seq<ItemView> {
    asr_blockers(sel, r) + translation_blockers(sel, r) + tts_blockers(sel, r)
}

/// The warnings of workflow governance, which only a Loci route gets.
pub open spec fn workflow_warnings(sel: EffectiveRuntimeSelection) -> Seq<ItemView> {
    let p = sel.workflow_policy;
    let inactive = if sel.translation_engine@ == "loci"@ && !p.policy_active {
        seq![
            finding(
                "workflow.inactive"@,
                "workflow"@,
                "warning"@,
                "Workflow 治理未接管"@,
                "当前 Loci 运行时没有激活 workflow rewriter，会退回宿主默认路由选择。"@,
                Some("open_settings_page"@),
            ),
        ]
    } else {
        Seq::empty()
    };
    let unresolved = if sel.translation_engine@ == "loci"@ && p.unresolved_workflows@.len() > 0 {
        seq![
            finding(
                "workflow.unresolved"@,
                "workflow"@,
                "warning"@,
                "存在未识别的 speech workflow 声明"@,
                join(views(p.unresolved_workflows@), ", "@),
                Some("open_diagnostics_page"@),
            ),
        ]
    } else {
        Seq::empty()
    };
    inactive + unresolved
}

/// The warning of the TTS stage, if any.
pub open spec fn tts_warnings(sel: EffectiveRuntimeSelection) -> Seq<ItemView> {
    if !sel.tts_enabled {
        seq![
            finding(
                "tts.disabled"@,
                "tts"@,
                "warning"@,
                "自动播报已关闭"@,
                "会话可以启动，但不会自动播放翻译语音。"@,
                None,
            ),
        ]
    } else if sel.tts_engine@ == "edge-tts"@ {
        seq![
            finding(
                "tts.edge_privacy"@,
                "tts"@,
                "warning"@,
                "Edge TTS 会联网"@,
                "要合成的文本会发送到微软服务，不适合强隐私场景。"@,
                None,
            ),
        ]
    } else {
        Seq::empty()
    }
}

/// The warnings for a selection, in the order they are reported: workflow
/// governance, then TTS.
pub open spec fn preflight_warnings(sel: EffectiveRuntimeSelection) -> Seq<ItemView> {
    workflow_warnings(sel) + tts_warnings(sel)
}

/// The summary line of a preflight with `blockers` blocking findings.
pub open spec fn preflight_summary(blockers: nat) -> Seq<char> {
    if blockers == 0 {
        "当前配置可以启动实时会话"@
    } else {
        "启动前还需处理 "@ + decimal(blockers) + " 个阻塞项"@
    }
}

fn item(
    code: &str,
    stage: &str,
    severity: &str,
    label: &str,
    message: String,
    action: Option<&str>,
) -> (i: SessionPreflightItem)
    ensures
        i.view_tuple() == finding(code@, stage@, severity@, label@, message@, opt_ref_view(action)),
{
    SessionPreflightItem {
        code: owned(code),
        stage: owned(stage),
        severity: owned(severity),
        label: owned(label),
        message,
        action: match action {
            Some(a) => Some(owned(a)),
            None => None,
        },
    }
}

fn push_item(items: &mut Vec<SessionPreflightItem>, i: SessionPreflightItem)
    ensures
        item_views(final(items)@) == item_views(old(items)@).push(i.view_tuple()),
{
    items.push(i);
    assert(item_views(final(items)@) =~= item_views(old(items)@).push(i.view_tuple()));
}

fn push_tts_findings(
    selection: &EffectiveRuntimeSelection,
    tts: &Vec<char>,
    readiness: &RuntimeReadiness,
    blockers: &mut Vec<SessionPreflightItem>,
    warnings: &mut Vec<SessionPreflightItem>,
)
    requires
        tts@ == selection.tts_engine@,
    ensures
        item_views(final(blockers)@) == item_views(old(blockers)@) + tts_blockers(*selection, *readiness),
        item_views(final(warnings)@) == item_views(old(warnings)@) + tts_warnings(*selection),
{
    proof {
        reveal_strlit("qwen3-tts");
        reveal_strlit("sherpa-melo");
        reveal_strlit("piper");
        reveal_strlit("custom");
        reveal_strlit("edge-tts");
        assert("edge-tts"@.len() == 8);
        assert("qwen3-tts"@.len() == 9);
        assert("custom"@.len() == 6);
        assert("piper"@.len() == 5);
        assert("sherpa-melo"@.len() == 11);
    }
    let ghost b0 = item_views(blockers@);
    let ghost w0 = item_views(warnings@);
    if selection.tts_enabled {
        if chars_eq_str(&tts, "qwen3-tts") {
            push_item(
                blockers,
                item(
                    "tts.qwen3_unavailable",
                    "tts",
                    "blocker",
                    "Qwen3-TTS 尚未接入",
                    owned("当前构建只暴露 qwen3-tts 适配器槽位，尚未包含可执行后端。"),
                    Some("open_settings_page"),
                ),
            );
        } else if chars_eq_str(&tts, "sherpa-melo") || chars_eq_str(&tts, "piper") {
            if !readiness.bundled_tts_ready {
                push_item(
                    blockers,
                    item(
                        "tts.assets_missing",
                        "tts",
                        "blocker",
                        "缺少本地 TTS 资源",
                        owned("当前 TTS 引擎需要本地语音资源，尚未安装。"),
                        Some("download_tts_model"),
                    ),
                );
            }
        } else if chars_eq_str(&tts, "custom") {
            let ready = readiness.custom_voice_enabled && (readiness.custom_voice_profile_id.is_some()
                || readiness.custom_voice_model_path.is_some());
            if !ready {
                push_item(
                    blockers,
                    item(
                        "tts.custom_not_configured",
                        "tts",
                        "blocker",
                        "自定义音色未配置",
                        owned("当前选择了自定义音色，但没有可用的 profile 或模型路径。"),
                        Some("open_settings_page"),
                    ),
                );
            }
        } else if chars_eq_str(&tts, "edge-tts") {
            push_item(
                warnings,
                item(
                    "tts.edge_privacy",
                    "tts",
                    "warning",
                    "Edge TTS 会联网",
                    owned("要合成的文本会发送到微软服务，不适合强隐私场景。"),
                    None,
                ),
            );
        }
    } else {
        push_item(
            warnings,
            item(
                "tts.disabled",
                "tts",
                "warning",
                "自动播报已关闭",
                owned("会话可以启动，但不会自动播放翻译语音。"),
                None,
            ),
        );
    }
    assert(item_views(blockers@) =~= b0 + tts_blockers(*selection, *readiness));
    assert(item_views(warnings@) =~= w0 + tts_warnings(*selection));
}

/// Whether `p` is the preflight of selection `sel` on a host with readiness `r`.
pub open spec fn preflight_matches(
    p: SessionPreflightStatus,
    sel: EffectiveRuntimeSelection,
    r: RuntimeReadiness,
) -> bool {
    &&& item_views(p.blockers@) == preflight_blockers(sel, r)
    &&& item_views(p.warnings@) == preflight_warnings(sel)
    &&& p.can_start == (preflight_blockers(sel, r).len() == 0)
    &&& p.summary@ == preflight_summary(preflight_blockers(sel, r).len())
    &&& p.effective_runtime.asr_engine@ == sel.asr_engine@
    &&& p.effective_runtime.translation_engine@ == sel.translation_engine@
    &&& p.effective_runtime.tts_engine@ == sel.tts_engine@
    &&& p.effective_runtime.tts_enabled == sel.tts_enabled
    &&& p.effective_runtime.tts_auto_play == sel.tts_auto_play
    &&& p.effective_runtime.bidirectional == sel.bidirectional
    &&& opt_view(p.effective_runtime.latency_profile) == opt_view(sel.latency_profile)
    &&& p.workflow_policy == sel.workflow_policy
}

/// The session preflight of a resolved selection on a host with the given
/// readiness.
pub fn preflight_of(selection: EffectiveRuntimeSelection, readiness: &RuntimeReadiness) -> (p:
    SessionPreflightStatus)
    ensures
        preflight_matches(p, selection, *readiness),
{
    let ghost sel = selection;
    let asr = chars_of(selection.asr_engine.as_str());
    let te = chars_of(selection.translation_engine.as_str());
    let tts = chars_of(selection.tts_engine.as_str());
    let mut blockers: Vec<SessionPreflightItem> = Vec::new();
    let mut warnings: Vec<SessionPreflightItem> = Vec::new();
    assert(item_views(blockers@) =~= Seq::empty());
    assert(item_views(warnings@) =~= Seq::empty());
    if chars_eq_str(&asr, "qwen3-asr") {
        push_item(
            &mut blockers,
            item(
                "asr.qwen3_unavailable",
                "asr",
                "blocker",
                "Qwen3-ASR 尚未接入",
                owned(
                    "当前构建只暴露 qwen3-asr 适配器槽位，尚未包含可执行后端。请切换到 Whisper、SenseVoice 或 Vosk。",
                ),
                Some("open_settings_page"),
            ),
        );
    } else if !readiness.asr_ready {
        push_item(
            &mut blockers,
            item(
                "asr.model_missing",
                "asr",
                "blocker",
                "缺少 ASR 模型",
                owned("实时会话需要本地 ASR 模型才能启动。"),
                Some("open_model_page"),
            ),
        );
    }
    assert(item_views(blockers@) =~= asr_blockers(sel, *readiness));
    let is_loci = chars_eq_str(&te, "loci");
    if is_loci {
        if !readiness.loci_ready {
            push_item(
                &mut blockers,
                item(
                    "translation.loci_model_missing",
                    "translation",
                    "blocker",
                    "缺少 Loci 模型",
                    owned("选择 Loci 翻译时，必须先准备本地 GGUF 模型。"),
                    Some("download_loci_model"),
                ),
            );
        }
        if !selection.workflow_policy.policy_active {
            push_item(
                &mut warnings,
                item(
                    "workflow.inactive",
                    "workflow",
                    "warning",
                    "Workflow 治理未接管",
                    owned("当前 Loci 运行时没有激活 workflow rewriter，会退回宿主默认路由选择。"),
                    Some("open_settings_page"),
                ),
            );
        }
        if selection.workflow_policy.unresolved_workflows.len() > 0 {
            let message = join_strings(&selection.workflow_policy.unresolved_workflows, ", ");
            push_item(
                &mut warnings,
                item(
                    "workflow.unresolved",
                    "workflow",
                    "warning",
                    "存在未识别的 speech workflow 声明",
                    message,
                    Some("open_diagnostics_page"),
                ),
            );
        }
    } else if !readiness.mt_ready {
        push_item(
            &mut blockers,
            item(
                "translation.mt_runtime_missing",
                "translation",
                "blocker",
                "机翻运行时未就绪",
                owned("当前确定性 MT 运行时不完整，无法启动会话。"),
                Some("prepare_mt_runtime"),
            ),
        );
    }
    assert(item_views(blockers@) =~= asr_blockers(sel, *readiness) + translation_blockers(
        sel,
        *readiness,
    ));
    assert(item_views(warnings@) =~= workflow_warnings(sel));
    push_tts_findings(&selection, &tts, readiness, &mut blockers, &mut warnings);
    proof {
        assert(item_views(blockers@) =~= preflight_blockers(sel, *readiness));
        assert(item_views(warnings@) =~= preflight_warnings(sel));
    }
    let can_start = blockers.len() == 0;
    let summary = if can_start {
        owned("当前配置可以启动实时会话")
    } else {
        let mut s = owned("启动前还需处理 ");
        let n = usize_to_decimal(blockers.len());
        push_str(&mut s, n.as_str());
        push_str(&mut s, " 个阻塞项");
        s
    };
    proof {
        assert(blockers@.len() == item_views(blockers@).len());
    }
    let EffectiveRuntimeSelection {
        asr_engine,
        translation_engine,
        tts_engine,
        tts_enabled,
        tts_auto_play,
        bidirectional,
        latency_profile,
        workflow_policy,
    } = selection;
    SessionPreflightStatus {
        can_start,
        summary,
        blockers,
        warnings,
        effective_runtime: EffectiveRuntimeSummary {
            asr_engine,
            translation_engine,
            tts_engine,
            tts_enabled,
            tts_auto_play,
            bidirectional,
            latency_profile,
        },
        workflow_policy,
    }
}

/// The session preflight for these requests: the selection is resolved against
/// the persisted configuration and the workflow inventory, then checked against
/// what is installed.
pub fn build_preflight(
    requested_asr_engine: Option<&str>,
    requested_translation_engine: Option<&str>,
    requested_tts_engine: Option<&str>,
    requested_tts_enabled: Option<bool>,
    requested_tts_auto_play: Option<bool>,
    requested_bidirectional: Option<bool>,
    requested_latency_profile: Option<&str>,
    config: &RuntimeConfig,
    lookup: WorkflowInventoryLookup,
    readiness: &RuntimeReadiness,
) -> (r: AppResult<SessionPreflightStatus>)
    ensures
        r matches Ok(p) && exists|sel: EffectiveRuntimeSelection|
            #[trigger] effective_selection(
                sel,
                opt_ref_view(requested_asr_engine),
                opt_ref_view(requested_translation_engine),
                opt_ref_view(requested_tts_engine),
                requested_tts_enabled,
                opt_ref_view(requested_latency_profile),
                requested_bidirectional,
                requested_tts_auto_play,
                *config,
                lookup,
            ) && preflight_matches(p, sel, *readiness),
{
    let selection = match resolve_effective_runtime_selection(
        requested_asr_engine,
        requested_translation_engine,
        requested_tts_engine,
        requested_tts_enabled,
        requested_latency_profile,
        requested_bidirectional,
        requested_tts_auto_play,
        config,
        lookup,
    ) {
        Ok(s) => s,
        Err(e) => {
            return Err(e);
        },
    };
    let ghost sel = selection;
    let p = preflight_of(selection, readiness);
    assert(preflight_matches(p, sel, *readiness));
    Ok(p)
}

/// The session preflight for the persisted configuration.
pub fn get_session_preflight(
    config: &RuntimeConfig,
    lookup: WorkflowInventoryLookup,
    readiness: &RuntimeReadiness,
) -> (r: AppResult<SessionPreflightStatus>)
    ensures
        r matches Ok(p) && exists|sel: EffectiveRuntimeSelection|
            #[trigger] effective_selection(
                sel,
                None,
                None,
                None,
                None,
                None,
                None,
                None,
                *config,
                lookup,
            ) && preflight_matches(p, sel, *readiness),
{
    build_preflight(None, None, None, None, None, None, None, config, lookup, readiness)
}

/// The adapter inventory, with the routes of the persisted configuration
/// selected.
pub fn get_runtime_adapter_inventory(config: &RuntimeConfig, lookup: WorkflowInventoryLookup) -> (r:
    AppResult<RuntimeAdapterInventory>)
    ensures
        r matches Ok(inv) && exists|sel: EffectiveRuntimeSelection|
            #[trigger] effective_selection(
                sel,
                None,
                None,
                None,
                None,
                None,
                None,
                None,
                *config,
                lookup,
            ) && inventory_for(
                inv,
                sel.asr_engine@,
                sel.translation_engine@,
                sel.tts_engine@,
            ),
{
    let selection = match resolve_effective_runtime_selection(
        None,
        None,
        None,
        None,
        None,
        None,
        None,
        config,
        lookup,
    ) {
        Ok(s) => s,
        Err(e) => {
            return Err(e);
        },
    };
    let inv = runtime_adapter_inventory(
        selection.asr_engine.as_str(),
        selection.translation_engine.as_str(),
        selection.tts_engine.as_str(),
    );
    Ok(inv)
}

/// The state of one runtime stage.
pub struct RuntimeComponentStatus {
    pub ready: bool,
    pub path: String,
    pub message: String,
    pub action: Option<String>,
    pub engine: Option<String>,
}

/// A stage's state as mathematical values: ready, path, message, action, engine.
pub type ComponentView = (bool, Seq<char>, Seq<char>, Option<Seq<char>>, Option<Seq<char>>);

impl RuntimeComponentStatus {
    pub open spec fn view_tuple(self) -> ComponentView {
        (self.ready, self.path@, self.message@, opt_view(self.action), opt_view(self.engine))
    }
}

/// The state of every runtime stage.
pub struct RuntimeStatus {
    pub models_dir: String,
    pub asr: RuntimeComponentStatus,
    pub translation: RuntimeComponentStatus,
    pub tts: RuntimeComponentStatus,
    pub vad: RuntimeComponentStatus,
    pub tts_engine: String,
    pub loci_unhealthy: bool,
    pub loci_unhealthy_remaining_sec: u32,
    pub loci_workflow_policy: LociWorkflowPolicySnapshot,
}

/// Where the models of each stage live, as the host displays those paths.
pub struct ModelPaths {
    pub root: String,
    pub asr: String,
    pub loci: String,
    pub mt: String,
    pub tts: String,
    pub vad: String,
}

/// The ASR stage's state.
pub open spec fn asr_component(sel: EffectiveRuntimeSelection, r: RuntimeReadiness, paths: ModelPaths) -> ComponentView {
    (
        r.asr_ready,
        paths.asr@,
        if r.asr_ready {
            "ASR model ready"@
        } else {
            "ASR model not installed"@
        },
        Some("open_model_page"@),
        Some(sel.asr_engine@),
    )
}

/// The translation stage's state; a deterministic route reads its packages
/// from the bundled Argos directory where there is one.
pub open spec fn translation_component(
    sel: EffectiveRuntimeSelection,
    r: RuntimeReadiness,
    paths: ModelPaths,
    argos_packages: Option<Seq<char>>,
) -> ComponentView {
    if sel.translation_engine@ == "loci"@ {
        (
            r.loci_ready,
            paths.loci@,
            if r.loci_ready {
                "Loci enhanced translation ready"@
            } else {
                "Loci translation model not installed"@
            },
            if r.loci_ready {
                None
            } else {
                Some("download_loci_model"@)
            },
            Some(sel.translation_engine@),
        )
    } else {
        (
            r.mt_ready,
            match argos_packages {
                Some(p) => p,
                None => paths.mt@,
            },
            if r.mt_ready {
                "Deterministic MT runtime ready"@
            } else {
                "Bundled MT runtime incomplete"@
            },
            if r.mt_ready {
                None
            } else {
                Some("prepare_mt_runtime"@)
            },
            Some(sel.translation_engine@),
        )
    }
}

/// Where a custom voice is read from: its model, else its profile, else the
/// TTS model directory.
pub open spec fn custom_voice_path(r: RuntimeReadiness, tts_dir: Seq<char>) -> Seq<char> {
    match r.custom_voice_model_path {
        Some(m) => m@,
        None => match r.custom_voice_profile_id {
            Some(id) => "profile://"@ + id@,
            None => tts_dir,
        },
    }
}

/// The TTS stage's state.
pub open spec fn tts_component(sel: EffectiveRuntimeSelection, r: RuntimeReadiness, paths: ModelPaths) -> ComponentView {
    let e = sel.tts_engine@;
    let engine = Some(e);
    if !sel.tts_enabled {
        (true, "host://tts-disabled"@, "TTS is currently disabled by workflow/config governance"@, None, engine)
    } else if e == "edge-tts"@ {
        (true, "remote://edge-tts"@, "Edge TTS is available as an online backend"@, None, engine)
    } else if e == "system"@ {
        (true, "host://system-tts"@, "System TTS route is available on the host"@, None, engine)
    } else if e == "custom"@ {
        let ready = r.custom_voice_ready();
        (
            ready,
            custom_voice_path(r, paths.tts@),
            if ready {
                "Custom voice route is configured"@
            } else {
                "Custom voice engine selected, but no profile/model is configured"@
            },
            if ready {
                None
            } else {
                Some("open_settings_page"@)
            },
            engine,
        )
    } else if e == "qwen3-tts"@ {
        (
            false,
            paths.tts@,
            "Qwen3-TTS adapter slot exists but this build does not yet include a concrete backend"@,
            Some("build_or_plugin_required"@),
            engine,
        )
    } else if e == "sherpa-melo"@ || e == "piper"@ {
        (
            r.bundled_tts_ready,
            paths.tts@,
            if r.bundled_tts_ready {
                "Bundled local TTS assets are ready"@
            } else {
                "Bundled local TTS assets are not installed"@
            },
            if r.bundled_tts_ready {
                None
            } else {
                Some("download_tts_model"@)
            },
            engine,
        )
    } else {
        (false, paths.tts@, "Unknown TTS engine: "@ + e, None, engine)
    }
}

/// The optional VAD stage's state.
pub open spec fn vad_component(paths: ModelPaths) -> ComponentView {
    (
        false,
        paths.vad@,
        "Optional VAD model not installed"@,
        Some("download_optional_vad"@),
        None,
    )
}

/// Whether `s` is the runtime status of selection `sel`.
pub open spec fn status_matches(
    s: RuntimeStatus,
    sel: EffectiveRuntimeSelection,
    r: RuntimeReadiness,
    paths: ModelPaths,
    argos_packages: Option<Seq<char>>,
) -> bool {
    &&& s.models_dir@ == paths.root@
    &&& s.asr.view_tuple() == asr_component(sel, r, paths)
    &&& s.translation.view_tuple() == translation_component(sel, r, paths, argos_packages)
    &&& s.tts.view_tuple() == tts_component(sel, r, paths)
    &&& s.vad.view_tuple() == vad_component(paths)
    &&& s.tts_engine@ == sel.tts_engine@
    &&& !s.loci_unhealthy
    &&& s.loci_unhealthy_remaining_sec == 0
    &&& s.loci_workflow_policy == sel.workflow_policy
}

fn component(ready: bool, path: String, message: String, action: Option<&str>, engine: Option<String>) -> (c:
    RuntimeComponentStatus)
    ensures
        c.view_tuple() == (ready, path@, message@, opt_ref_view(action), opt_view(engine)),
{
    RuntimeComponentStatus {
        ready,
        path,
        message,
        action: match action {
            Some(a) => Some(owned(a)),
            None => None,
        },
        engine,
    }
}

fn tts_component_of(
    selection: &EffectiveRuntimeSelection,
    readiness: &RuntimeReadiness,
    paths: &ModelPaths,
) -> (c: RuntimeComponentStatus)
    ensures
        c.view_tuple() == tts_component(*selection, *readiness, *paths),
{
    proof {
        reveal_strlit("edge-tts");
        reveal_strlit("system");
        reveal_strlit("custom");
        reveal_strlit("qwen3-tts");
        reveal_strlit("sherpa-melo");
        reveal_strlit("piper");
        assert("edge-tts"@.len() == 8);
        assert("system"@.len() == 6);
        assert("custom"@.len() == 6);
        assert("qwen3-tts"@.len() == 9);
        assert("sherpa-melo"@.len() == 11);
        assert("piper"@.len() == 5);
        assert("system"@[0] != "custom"@[0]);
    }
    let e = chars_of(selection.tts_engine.as_str());
    let engine = Some(selection.tts_engine.clone());
    if !selection.tts_enabled {
        component(
            true,
            owned("host://tts-disabled"),
            owned("TTS is currently disabled by workflow/config governance"),
            None,
            engine,
        )
    } else if chars_eq_str(&e, "edge-tts") {
        component(
            true,
            owned("remote://edge-tts"),
            owned("Edge TTS is available as an online backend"),
            None,
            engine,
        )
    } else if chars_eq_str(&e, "system") {
        component(
            true,
            owned("host://system-tts"),
            owned("System TTS route is available on the host"),
            None,
            engine,
        )
    } else if chars_eq_str(&e, "custom") {
        let ready = readiness.custom_voice_enabled && (readiness.custom_voice_profile_id.is_some()
            || readiness.custom_voice_model_path.is_some());
        let path = match &readiness.custom_voice_model_path {
            Some(m) => m.clone(),
            None => match &readiness.custom_voice_profile_id {
                Some(id) => {
                    let mut p = owned("profile://");
                    push_str(&mut p, id.as_str());
                    p
                },
                None => paths.tts.clone(),
            },
        };
        if ready {
            component(ready, path, owned("Custom voice route is configured"), None, engine)
        } else {
            component(
                ready,
                path,
                owned("Custom voice engine selected, but no profile/model is configured"),
                Some("open_settings_page"),
                engine,
            )
        }
    } else if chars_eq_str(&e, "qwen3-tts") {
        component(
            false,
            paths.tts.clone(),
            owned(
                "Qwen3-TTS adapter slot exists but this build does not yet include a concrete backend",
            ),
            Some("build_or_plugin_required"),
            engine,
        )
    } else if chars_eq_str(&e, "sherpa-melo") || chars_eq_str(&e, "piper") {
        if readiness.bundled_tts_ready {
            component(
                true,
                paths.tts.clone(),
                owned("Bundled local TTS assets are ready"),
                None,
                engine,
            )
        } else {
            component(
                false,
                paths.tts.clone(),
                owned("Bundled local TTS assets are not installed"),
                Some("download_tts_model"),
                engine,
            )
        }
    } else {
        let mut message = owned("Unknown TTS engine: ");
        push_str(&mut message, selection.tts_engine.as_str());
        component(false, paths.tts.clone(), message, None, engine)
    }
}

/// The runtime status of a resolved selection: where each stage's models live,
/// whether they are installed, and what the user can do about a missing one.
pub fn runtime_status_of(
    selection: EffectiveRuntimeSelection,
    readiness: &RuntimeReadiness,
    paths: &ModelPaths,
    argos_packages: Option<String>,
) -> (s: RuntimeStatus)
    ensures
        status_matches(s, selection, *readiness, *paths, opt_view(argos_packages)),
{
    let ghost sel = selection;
    let asr = component(
        readiness.asr_ready,
        paths.asr.clone(),
        if readiness.asr_ready {
            owned("ASR model ready")
        } else {
            owned("ASR model not installed")
        },
        Some("open_model_page"),
        Some(selection.asr_engine.clone()),
    );
    let te = chars_of(selection.translation_engine.as_str());
    let translation = if chars_eq_str(&te, "loci") {
        if readiness.loci_ready {
            component(
                true,
                paths.loci.clone(),
                owned("Loci enhanced translation ready"),
                None,
                Some(selection.translation_engine.clone()),
            )
        } else {
            component(
                false,
                paths.loci.clone(),
                owned("Loci translation model not installed"),
                Some("download_loci_model"),
                Some(selection.translation_engine.clone()),
            )
        }
    } else {
        let root = match argos_packages {
            Some(p) => p,
            None => paths.mt.clone(),
        };
        if readiness.mt_ready {
            component(
                true,
                root,
                owned("Deterministic MT runtime ready"),
                None,
                Some(selection.translation_engine.clone()),
            )
        } else {
            component(
                false,
                root,
                owned("Bundled MT runtime incomplete"),
                Some("prepare_mt_runtime"),
                Some(selection.translation_engine.clone()),
            )
        }
    };
    let tts = tts_component_of(&selection, readiness, paths);
    let vad = component(
        false,
        paths.vad.clone(),
        owned("Optional VAD model not installed"),
        Some("download_optional_vad"),
        None,
    );
    let EffectiveRuntimeSelection { tts_engine, workflow_policy, .. } = selection;
    RuntimeStatus {
        models_dir: paths.root.clone(),
        asr,
        translation,
        tts,
        vad,
        tts_engine,
        loci_unhealthy: false,
        loci_unhealthy_remaining_sec: 0,
        loci_workflow_policy: workflow_policy,
    }
}

/// The runtime status for the persisted configuration.
pub fn get_runtime_status(
    config: &RuntimeConfig,
    lookup: WorkflowInventoryLookup,
    readiness: &RuntimeReadiness,
    paths: &ModelPaths,
    argos_packages: Option<String>,
) -> (r: AppResult<RuntimeStatus>)
    ensures
        r matches Ok(s) && exists|sel: EffectiveRuntimeSelection|
            #[trigger] effective_selection(
                sel,
                None,
                None,
                None,
                None,
                None,
                None,
                None,
                *config,
                lookup,
            ) && status_matches(s, sel, *readiness, *paths, opt_view(argos_packages)),
{
    let selection = match resolve_effective_runtime_selection(
        None,
        None,
        None,
        None,
        None,
        None,
        None,
        config,
        lookup,
    ) {
        Ok(s) => s,
        Err(e) => {
            return Err(e);
        },
    };
    let ghost sel = selection;
    let s = runtime_status_of(selection, readiness, paths, argos_packages);
    assert(status_matches(s, sel, *readiness, *paths, opt_view(argos_packages)));
    Ok(s)
}

/// What the host found of the bundled deterministic MT runtime.
pub struct MtRuntimeCheck {
    pub bundled_python: Option<String>,
    pub bundled_script: Option<String>,
    pub bundled_argos_packages: Option<String>,
    pub package_count: usize,
    pub language_pairs: Vec<String>,
    pub ready: bool,
    pub message: String,
}

/// The language pair an Argos package translates, as `from->to`.
pub open spec fn pair_text(from: Seq<char>, to: Seq<char>) -> Seq<char> {
    from + "->"@ + to
}

/// The language pairs of the packages whose two language codes are both known.
pub open spec fn pair_texts(packages: Seq<(String, String)>) -> Set<Seq<char>>
    decreases packages.len(),
{
    if packages.len() == 0 {
        Set::empty()
    } else {
        let rest = pair_texts(packages.drop_last());
        let (from, to) = packages.last();
        if from@.len() > 0 && to@.len() > 0 {
            rest.insert(pair_text(from@, to@))
        } else {
            rest
        }
    }
}

/// The language pairs of the bundled Argos packages, given each readable
/// package's `from_code` and `to_code` (empty where one is missing): sorted,
/// each pair once, packages with a missing code left out.
pub fn argos_language_pairs(packages: &Vec<(String, String)>) -> (r: Vec<String>)
    ensures
        strictly_sorted(views(r@)),
        views(r@).to_set() == pair_texts(packages@),
{
    let mut out: Vec<String> = Vec::new();
    let mut i: usize = 0;
    assert(views(out@).to_set() =~= Set::<Seq<char>>::empty());
    assert(packages@.subrange(0, 0) =~= Seq::<(String, String)>::empty());
    while i < packages.len()
        invariant
            i <= packages@.len(),
            strictly_sorted(views(out@)),
            views(out@).to_set() == pair_texts(packages@.subrange(0, i as int)),
        decreases packages.len() - i,
    {
        let from = &packages[i].0;
        let to = &packages[i].1;
        assert(packages@.subrange(0, i + 1).drop_last() =~= packages@.subrange(0, i as int));
        if !from.as_str().is_empty() && !to.as_str().is_empty() {
            let mut pair = from.clone();
            push_str(&mut pair, "->");
            push_str(&mut pair, to.as_str());
            insert_sorted(&mut out, pair);
        }
        i = i + 1;
    }
    assert(packages@.subrange(0, packages@.len() as int) =~= packages@);
    out
}

/// Whether the bundled MT runtime is complete.
pub open spec fn mt_ready(
    python: Option<String>,
    script: Option<String>,
    argos: Option<String>,
    package_count: nat,
) -> bool {
    python is Some && script is Some && argos is Some && package_count > 0
}

/// The report on the bundled MT runtime: the interpreter, the script and the
/// Argos package directory that were found, and the packages read from that
/// directory (each readable package's `from_code` and `to_code`).
pub fn check_mt_runtime(
    bundled_python: Option<String>,
    bundled_script: Option<String>,
    bundled_argos_packages: Option<String>,
    packages: &Vec<(String, String)>,
) -> (r: AppResult<MtRuntimeCheck>)
    ensures
        r matches Ok(c) && {
            let count: nat = if bundled_argos_packages is Some {
                packages@.len()
            } else {
                0
            };
            &&& opt_view(c.bundled_python) == opt_view(bundled_python)
            &&& opt_view(c.bundled_script) == opt_view(bundled_script)
            &&& opt_view(c.bundled_argos_packages) == opt_view(bundled_argos_packages)
            &&& c.package_count == count
            &&& strictly_sorted(views(c.language_pairs@))
            &&& views(c.language_pairs@).to_set() == if bundled_argos_packages is Some {
                pair_texts(packages@)
            } else {
                Set::empty()
            }
            &&& c.ready == mt_ready(bundled_python, bundled_script, bundled_argos_packages, count)
            &&& c.message@ == if c.ready {
                "Bundled MT runtime ready ("@ + decimal(count) + " packages)."@
            } else {
                "Bundled MT runtime incomplete. Run tools/prepare_mt_runtime.ps1 before packaging."@
            }
        },
{
    let (package_count, language_pairs) = if bundled_argos_packages.is_some() {
        (packages.len(), argos_language_pairs(packages))
    } else {
        let empty: Vec<String> = Vec::new();
        assert(views(empty@).to_set() =~= Set::<Seq<char>>::empty());
        (0, empty)
    };
    let ready = bundled_python.is_some() && bundled_script.is_some() && bundled_argos_packages.is_some()
        && package_count > 0;
    let message = if ready {
        let mut m = owned("Bundled MT runtime ready (");
        let n = usize_to_decimal(package_count);
        push_str(&mut m, n.as_str());
        push_str(&mut m, " packages).");
        m
    } else {
        owned("Bundled MT runtime incomplete. Run tools/prepare_mt_runtime.ps1 before packaging.")
    };
    Ok(
        MtRuntimeCheck {
            bundled_python,
            bundled_script,
            bundled_argos_packages,
            package_count,
            language_pairs,
            ready,
            message,
        },
    )
}

/// Where the logs are written and which is the latest.
pub struct LogStatus {
    pub log_dir: String,
    pub latest_log: Option<String>,
    pub exists: bool,
}

/// `k` is the first of the entries with the latest modification time.
pub open spec fn is_latest(entries: Seq<(u128, String)>, k: int) -> bool {
    &&& 0 <= k < entries.len()
    &&& forall|j: int| 0 <= j < entries.len() ==> #[trigger] entries[j].0 <= entries[k].0
    &&& forall|j: int| 0 <= j < k ==> #[trigger] entries[j].0 < entries[k].0
}

/// The path of the most recently modified log file, given each file's
/// modification time and path in the order the directory lists them; of files
/// modified at the same time, the first listed wins.
pub fn latest_log(entries: &Vec<(u128, String)>) -> (r: Option<String>)
    ensures
        r is None <==> entries@.len() == 0,
        r matches Some(p) ==> exists|k: int| #[trigger] is_latest(entries@, k) && p@ == entries@[k].1@,
{
    if entries.len() == 0 {
        return None;
    }
    let mut best: usize = 0;
    let mut i: usize = 1;
    while i < entries.len()
        invariant
            1 <= i <= entries@.len(),
            best < i,
            forall|j: int| 0 <= j < i ==> #[trigger] entries@[j].0 <= entries@[best as int].0,
            forall|j: int| 0 <= j < best ==> #[trigger] entries@[j].0 < entries@[best as int].0,
        decreases entries.len() - i,
    {
        if entries[i].0 > entries[best].0 {
            best = i;
        }
        i = i + 1;
    }
    assert(is_latest(entries@, best as int));
    Some(entries[best].1.clone())
}

/// The log status of a log directory, given whether it exists and, if it does,
/// the modification time and path of each file in it.
pub fn get_log_status(log_dir: String, dir_exists: bool, files: &Vec<(u128, String)>) -> (r: AppResult<LogStatus>)
    ensures
        r matches Ok(s) && {
            &&& s.log_dir@ == log_dir@
            &&& s.exists == dir_exists
            &&& (s.latest_log is None <==> !dir_exists || files@.len() == 0)
            &&& (s.latest_log matches Some(p) ==> exists|k: int|
                #[trigger] is_latest(files@, k) && p@ == files@[k].1@)
        },
{
    let latest = if dir_exists {
        latest_log(files)
    } else {
        None
    };
    Ok(LogStatus { log_dir, latest_log: latest, exists: dir_exists })
}

} // verus!

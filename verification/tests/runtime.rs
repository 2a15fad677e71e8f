use localtrans::governance::{
    normalize_translation_engine, resolve_effective_runtime_selection, resolved_translation_engine,
    workflow_policy_snapshot, RuntimeConfig, WorkflowInventoryLookup,
};
use localtrans::profiles::{
    apply_workflow_profile, find_workflow_profile, list_workflow_profiles, profile_config_updates,
    ConfigValue,
};
use localtrans::system::{
    argos_language_pairs, build_preflight, check_mt_runtime, get_log_status,
    get_runtime_adapter_inventory, get_runtime_status, get_session_preflight, latest_log,
    ModelPaths, RuntimeReadiness,
};

fn config(te: Option<&str>) -> RuntimeConfig {
    RuntimeConfig {
        translation_engine: te.map(|s| s.to_string()),
        asr_engine: None,
        tts_engine: None,
        tts_enabled: None,
        tts_auto_play: None,
    }
}

fn ready_host() -> RuntimeReadiness {
    RuntimeReadiness {
        asr_ready: true,
        loci_ready: true,
        bundled_tts_ready: true,
        mt_ready: true,
        custom_voice_enabled: false,
        custom_voice_profile_id: None,
        custom_voice_model_path: None,
    }
}

fn paths() -> ModelPaths {
    ModelPaths {
        root: "/m".to_string(),
        asr: "/m/asr".to_string(),
        loci: "/m/loci".to_string(),
        mt: "/m/mt".to_string(),
        tts: "/m/tts".to_string(),
        vad: "/m/vad".to_string(),
    }
}

#[test]
fn translation_engine_aliases() {
    assert_eq!(normalize_translation_engine("  ARGOS "), "nllb");
    assert_eq!(normalize_translation_engine("Loci"), "loci");
    assert_eq!(normalize_translation_engine("deepl"), "deepl");
    assert_eq!(resolved_translation_engine(Some("  "), Some("m2m".to_string())), "nllb");
    assert_eq!(resolved_translation_engine(None, None), "nllb");
}

#[test]
fn ready_host_can_start_with_defaults() {
    let p = get_session_preflight(&config(None), WorkflowInventoryLookup::BackendUnavailable, &ready_host()).unwrap();
    assert!(p.can_start);
    assert!(p.blockers.is_empty());
    assert_eq!(p.summary, "当前配置可以启动实时会话");
    assert_eq!(p.effective_runtime.asr_engine, "whisper");
    assert_eq!(p.effective_runtime.tts_engine, "sherpa-melo");
    assert_eq!(p.effective_runtime.translation_engine, "nllb");
    assert!(p.warnings.is_empty());
}

#[test]
fn missing_pieces_block_the_session() {
    let mut host = ready_host();
    host.asr_ready = false;
    host.mt_ready = false;
    host.bundled_tts_ready = false;
    let p = get_session_preflight(&config(None), WorkflowInventoryLookup::BackendUnavailable, &host).unwrap();
    assert!(!p.can_start);
    let codes: Vec<&str> = p.blockers.iter().map(|b| b.code.as_str()).collect();
    assert_eq!(codes, vec!["asr.model_missing", "translation.mt_runtime_missing", "tts.assets_missing"]);
    assert_eq!(p.summary, "启动前还需处理 3 个阻塞项");
}

#[test]
fn loci_without_policy_warns() {
    let p = build_preflight(None, Some("loci"), Some("edge-tts"), None, None, None, None, &config(None), WorkflowInventoryLookup::NoModel, &ready_host()).unwrap();
    let codes: Vec<&str> = p.warnings.iter().map(|b| b.code.as_str()).collect();
    assert_eq!(codes, vec!["workflow.inactive", "tts.edge_privacy"]);
    assert!(p.can_start);
}

#[test]
fn disabled_tts_and_custom_voice() {
    let p = build_preflight(None, None, None, Some(false), None, None, None, &config(None), WorkflowInventoryLookup::BackendUnavailable, &ready_host()).unwrap();
    assert_eq!(p.warnings[0].code, "tts.disabled");
    assert!(p.warnings[0].action.is_none());
    let p = build_preflight(None, None, Some("custom"), None, None, None, None, &config(None), WorkflowInventoryLookup::BackendUnavailable, &ready_host()).unwrap();
    assert_eq!(p.blockers[0].code, "tts.custom_not_configured");
    assert_eq!(p.blockers[0].action.as_deref(), Some("open_settings_page"));
}

#[test]
fn workflow_policy_drives_the_route() {
    let lookup = WorkflowInventoryLookup::Found {
        active_workflow_rewriter: Some("planner".to_string()),
        workflows: vec!["speech.asr.sensevoice".to_string(), "speech.tts.piper".to_string(), "speech.mode.bidirectional".to_string()],
    };
    let sel = resolve_effective_runtime_selection(None, None, None, None, None, None, None, &config(Some("loci")), lookup).unwrap();
    assert!(sel.workflow_policy.policy_active);
    assert_eq!(sel.asr_engine, "sensevoice");
    assert_eq!(sel.tts_engine, "piper");
    assert!(sel.bidirectional);
}

#[test]
fn policy_snapshot_messages() {
    let s = workflow_policy_snapshot(None, None, WorkflowInventoryLookup::BackendUnavailable).unwrap();
    assert_eq!(s.status_message, "loci-backend feature is not enabled in this build");
    let s = workflow_policy_snapshot(Some("nllb"), None, WorkflowInventoryLookup::NoModel).unwrap();
    assert_eq!(s.status_message, "translationEngine is not set to loci; workflow governance is inactive");
    let s = workflow_policy_snapshot(Some("loci"), None, WorkflowInventoryLookup::Failed("/x".to_string())).unwrap();
    assert_eq!(s.status_message, "failed to resolve Loci workflow inventory (/x)");
}

#[test]
fn adapter_inventory_marks_the_selection() {
    let inv = get_runtime_adapter_inventory(&config(None), WorkflowInventoryLookup::BackendUnavailable).unwrap();
    assert_eq!(inv.asr.len(), 4);
    assert!(inv.asr[0].selected);
    assert!(inv.translation[1].selected);
    assert!(!inv.translation[0].available);
    assert!(inv.tts[0].selected);
    assert_eq!(inv.tts.len(), 6);
}

#[test]
fn runtime_status_per_stage() {
    let s = get_runtime_status(&config(None), WorkflowInventoryLookup::BackendUnavailable, &ready_host(), &paths(), None).unwrap();
    assert_eq!(s.models_dir, "/m");
    assert_eq!(s.asr.message, "ASR model ready");
    assert_eq!(s.translation.path, "/m/mt");
    assert_eq!(s.translation.message, "Deterministic MT runtime ready");
    assert_eq!(s.tts.message, "Bundled local TTS assets are ready");
    assert_eq!(s.vad.action.as_deref(), Some("download_optional_vad"));
    assert!(!s.loci_unhealthy);
    let mut host = ready_host();
    host.mt_ready = false;
    let s = get_runtime_status(&config(None), WorkflowInventoryLookup::BackendUnavailable, &host, &paths(), Some("/bundle/argos".to_string())).unwrap();
    assert_eq!(s.translation.path, "/bundle/argos");
    assert_eq!(s.translation.action.as_deref(), Some("prepare_mt_runtime"));
}

#[test]
fn runtime_status_custom_and_unknown_tts() {
    let mut c = config(None);
    c.tts_engine = Some("custom".to_string());
    let mut host = ready_host();
    host.custom_voice_enabled = true;
    host.custom_voice_profile_id = Some("p1".to_string());
    let s = get_runtime_status(&c, WorkflowInventoryLookup::BackendUnavailable, &host, &paths(), None).unwrap();
    assert!(s.tts.ready);
    assert_eq!(s.tts.path, "profile://p1");
    c.tts_engine = Some("Robot".to_string());
    let s = get_runtime_status(&c, WorkflowInventoryLookup::BackendUnavailable, &host, &paths(), None).unwrap();
    assert_eq!(s.tts.message, "Unknown TTS engine: robot");
}

#[test]
fn argos_pairs_are_sorted_and_distinct() {
    let pkgs = vec![
        ("zh".to_string(), "en".to_string()),
        ("en".to_string(), "zh".to_string()),
        ("".to_string(), "de".to_string()),
        ("en".to_string(), "zh".to_string()),
        ("en".to_string(), "de".to_string()),
    ];
    assert_eq!(argos_language_pairs(&pkgs), vec!["en->de", "en->zh", "zh->en"]);
}

#[test]
fn mt_runtime_check_reports_readiness() {
    let pkgs = vec![("en".to_string(), "zh".to_string()), ("zh".to_string(), "en".to_string())];
    let c = check_mt_runtime(Some("py".to_string()), Some("s.py".to_string()), Some("/a".to_string()), &pkgs).unwrap();
    assert!(c.ready);
    assert_eq!(c.package_count, 2);
    assert_eq!(c.message, "Bundled MT runtime ready (2 packages).");
    let c = check_mt_runtime(None, Some("s.py".to_string()), None, &pkgs).unwrap();
    assert!(!c.ready);
    assert_eq!(c.package_count, 0);
    assert!(c.language_pairs.is_empty());
    assert_eq!(c.message, "Bundled MT runtime incomplete. Run tools/prepare_mt_runtime.ps1 before packaging.");
}

#[test]
fn latest_log_is_the_first_most_recent() {
    let files = vec![(5u128, "a.log".to_string()), (9, "b.log".to_string()), (9, "c.log".to_string())];
    assert_eq!(latest_log(&files), Some("b.log".to_string()));
    assert_eq!(latest_log(&vec![]), None);
    let s = get_log_status("/logs".to_string(), false, &files).unwrap();
    assert!(s.latest_log.is_none());
    assert!(!s.exists);
}

#[test]
fn workflow_profiles() {
    let all = list_workflow_profiles().unwrap();
    let ids: Vec<&str> = all.iter().map(|p| p.id.as_str()).collect();
    assert_eq!(ids, vec!["meeting-low-latency", "privacy-local-only", "caption-high-accuracy"]);
    let p = find_workflow_profile("  Privacy-Local-Only ").unwrap();
    assert_eq!(p.tts_engine, "piper");
    assert_eq!(p.workflows.len(), 6);
    match find_workflow_profile("nope") {
        Err(localtrans::error::AppError::InvalidState(m)) => assert_eq!(m, "unknown workflow profile id: nope"),
        _ => panic!("expected an invalid-state error"),
    }
}

#[test]
fn applying_a_profile() {
    let p = find_workflow_profile("caption-high-accuracy").unwrap();
    let updates = profile_config_updates(&p);
    assert_eq!(updates.len(), 8);
    assert_eq!(updates[0].key, "translationEngine");
    assert!(matches!(&updates[3].value, ConfigValue::Flag(false)));
    assert!(matches!(&updates[7].value, ConfigValue::Text(t) if t == "high-accuracy"));
    let r = apply_workflow_profile(p, &config(Some("loci")), WorkflowInventoryLookup::NoModel, &ready_host()).unwrap();
    assert_eq!(r.message, "Applied workflow profile 'caption-high-accuracy' with plugin 'localtrans-caption-high-accuracy'");
    assert_eq!(r.updated_keys[5], "lociWorkflowPlugin");
    assert_eq!(r.preflight.effective_runtime.asr_engine, "sensevoice");
    assert!(!r.preflight.effective_runtime.tts_enabled);
}

//! The Loci runtime as the host manages it: where its model is found, which
//! plugin directories and core rewriters the configuration names, and the
//! management commands, which need the Loci backend that this build lacks.
use vstd::prelude::*;

use crate::error::{AppError, AppResult};
use crate::governance::{
    opt_ref_view, opt_view, requested, resolved_translation, resolved_translation_engine, views,
};
use crate::text::{
    chars_eq_str, chars_of, fields, lower, owned, push_str, split_fields, string_of, trim, trim_chars,
    trim_lower,
};

verus! {

/// A core component's active rewriter and the plugins that could take over.
pub struct CoreRewriterInventoryStatus {
    pub component: String,
    pub active_plugin_name: Option<String>,
    pub available_plugins: Vec<String>,
}

/// The outcome of loading plugins.
pub struct PluginLoadStatus {
    pub status: &'static str,
    pub path: String,
    pub source_kind: String,
    pub loaded_count: usize,
    pub loaded_plugin_names: Vec<String>,
    pub plugin_count_after: usize,
    pub active_inference: Option<String>,
}

/// The outcome of activating a core rewriter.
pub struct CoreRewriterActivationStatus {
    pub status: &'static str,
    pub component: String,
    pub plugin_name: String,
    pub active_inference: Option<String>,
}

/// The plugins the runtime has loaded.
pub struct RuntimeSnapshot {
    pub plugin_count: usize,
    pub loaded_plugin_names: Vec<String>,
}

/// A request naming the model whose runtime is meant.
pub struct LociSnapshotRequest {
    pub model_path: Option<String>,
}

/// A request to load plugins from a path.
pub struct LoadLociPluginsRequest {
    pub model_path: Option<String>,
    pub path: String,
    pub source_kind: Option<String>,
}

/// A request to make a plugin a core component's rewriter.
pub struct ActivateLociRewriterRequest {
    pub model_path: Option<String>,
    pub component: String,
    pub plugin_name: String,
}

/// A core rewriter the configuration names.
pub struct ConfiguredLociRewriterTarget {
    pub component: String,
    pub plugin_name: String,
}

/// The Loci governance as the host sees it.
pub struct LociGovernanceSnapshot {
    pub translation_engine: String,
    pub loci_selected: bool,
    pub runtime_ready: bool,
    pub status_message: String,
    pub default_model_dir: String,
    pub model_path: Option<String>,
    pub plugin_dirs: Vec<String>,
    pub configured_rewriter_targets: Vec<ConfiguredLociRewriterTarget>,
    pub active_rewriter_inventory: Vec<CoreRewriterInventoryStatus>,
}

/// The `lociPluginDirs` setting: a list (an item that is not text is `None`),
/// a text of directories separated by newlines or semicolons, or any other
/// value.
pub enum PluginDirsSetting {
    List(Vec<Option<String>>),
    Text(String),
    Other,
}

/// The texts of a list setting, trimmed, the empty ones left out.
pub open spec fn listed_dirs(items: Seq<Option<String>>) -> Seq<Seq<char>>
    decreases items.len(),
{
    if items.len() == 0 {
        Seq::empty()
    } else {
        let rest = listed_dirs(items.drop_last());
        match items.last() {
            Some(s) => if trim(s@).len() > 0 {
                rest.push(trim(s@))
            } else {
                rest
            },
            None => rest,
        }
    }
}

/// The plugin directories a setting names.
pub open spec fn plugin_dirs_of(setting: Option<PluginDirsSetting>) -> Seq<Seq<char>> {
    match setting {
        Some(PluginDirsSetting::List(items)) => listed_dirs(items@),
        Some(PluginDirsSetting::Text(raw)) => fields(raw@, seq!['\n', ';']),
        _ => Seq::empty(),
    }
}

/// The plugin directories the `lociPluginDirs` setting names (`None` when it
/// is not set).
pub fn configured_plugin_dirs_snapshot(setting: Option<PluginDirsSetting>) -> (r: Vec<String>)
    ensures
        views(r@) == plugin_dirs_of(setting),
{
    match setting {
        Some(PluginDirsSetting::List(items)) => {
            let mut r: Vec<String> = Vec::new();
            let mut i: usize = 0;
            assert(items@.subrange(0, 0) =~= Seq::<Option<String>>::empty());
            assert(views(r@) =~= Seq::<Seq<char>>::empty());
            while i < items.len()
                invariant
                    i <= items@.len(),
                    views(r@) == listed_dirs(items@.subrange(0, i as int)),
                decreases items.len() - i,
            {
                assert(items@.subrange(0, i + 1).drop_last() =~= items@.subrange(0, i as int));
                match &items[i] {
                    Some(s) => {
                        let v = chars_of(s.as_str());
                        let t = trim_chars(&v);
                        if t.len() > 0 {
                            let ghost r0 = views(r@);
                            r.push(string_of(&t));
                            assert(views(r@) =~= r0.push(trim(s@)));
                        }
                    },
                    None => {},
                }
                i = i + 1;
            }
            assert(items@.subrange(0, items@.len() as int) =~= items@);
            r
        },
        Some(PluginDirsSetting::Text(raw)) => {
            let mut seps: Vec<char> = Vec::new();
            seps.push('\n');
            seps.push(';');
            assert(seps@ =~= seq!['\n', ';']);
            split_fields(raw.as_str(), &seps)
        },
        _ => {
            let r: Vec<String> = Vec::new();
            assert(views(r@) =~= Seq::<Seq<char>>::empty());
            r
        },
    }
}

/// The configuration keys that name core rewriters, with their components, in
/// the order they are read.
pub open spec fn rewriter_keys() -> Seq<(Seq<char>, Seq<char>)> {
    seq![
        ("lociInferencePlugin"@, "inference"@),
        ("lociModelPlugin"@, "model"@),
        ("lociHardwarePlugin"@, "hardware"@),
        ("lociWorkflowPlugin"@, "workflow"@),
        ("lociEventBusPlugin"@, "event_bus"@),
        ("lociPluginManagerPlugin"@, "plugin_manager"@),
        ("lociUiHostPlugin"@, "ui_host"@),
    ]
}

/// The configuration keys that name core rewriters, with their components.
pub fn rewriter_config_keys() -> (r: Vec<(&'static str, &'static str)>)
    ensures
        r@.len() == 7,
        forall|i: int| 0 <= i < 7 ==> (#[trigger] r@[i]).0@ == rewriter_keys()[i].0 && r@[i].1@ == rewriter_keys()[i].1,
{
    let mut r: Vec<(&'static str, &'static str)> = Vec::new();
    r.push(("lociInferencePlugin", "inference"));
    r.push(("lociModelPlugin", "model"));
    r.push(("lociHardwarePlugin", "hardware"));
    r.push(("lociWorkflowPlugin", "workflow"));
    r.push(("lociEventBusPlugin", "event_bus"));
    r.push(("lociPluginManagerPlugin", "plugin_manager"));
    r.push(("lociUiHostPlugin", "ui_host"));
    r
}

/// The configured rewriters, given the value of each rewriter key (in the
/// order of `rewriter_keys`): each key with a non-empty trimmed value names the
/// rewriter of its component.
pub open spec fn rewriter_targets(values: Seq<Option<String>>, n: int) -> Seq<(Seq<char>, Seq<char>)>
    decreases n,
{
    if n <= 0 {
        Seq::empty()
    } else {
        let rest = rewriter_targets(values, n - 1);
        match values[n - 1] {
            Some(v) => if trim(v@).len() > 0 {
                rest.push((rewriter_keys()[n - 1].1, trim(v@)))
            } else {
                rest
            },
            None => rest,
        }
    }
}

/// A target as mathematical values: component, plugin name.
pub open spec fn target_view(t: ConfiguredLociRewriterTarget) -> (Seq<char>, Seq<char>) {
    (t.component@, t.plugin_name@)
}

/// The configured core rewriters, given the value of each rewriter key in the
/// order of `rewriter_config_keys`.
pub fn configured_rewriter_targets_snapshot(values: &Vec<Option<String>>) -> (r: Vec<
    ConfiguredLociRewriterTarget,
>)
    requires
        values@.len() == 7,
    ensures
        r@.map_values(|t: ConfiguredLociRewriterTarget| target_view(t)) == rewriter_targets(values@, 7),
{
    let keys = rewriter_config_keys();
    let mut r: Vec<ConfiguredLociRewriterTarget> = Vec::new();
    let mut i: usize = 0;
    assert(r@.map_values(|t: ConfiguredLociRewriterTarget| target_view(t)) =~= Seq::empty());
    while i < 7
        invariant
            i <= 7,
            values@.len() == 7,
            keys@.len() == 7,
            forall|k: int| 0 <= k < 7 ==> (#[trigger] keys@[k]).0@ == rewriter_keys()[k].0 && keys@[k].1@ == rewriter_keys()[k].1,
            r@.map_values(|t: ConfiguredLociRewriterTarget| target_view(t)) == rewriter_targets(values@, i as int),
        decreases 7 - i,
    {
        match &values[i] {
            Some(v) => {
                let c = chars_of(v.as_str());
                let t = trim_chars(&c);
                if t.len() > 0 {
                    let ghost r0 = r@;
                    assert(keys@[i as int].1@ == rewriter_keys()[i as int].1);
                    r.push(
                        ConfiguredLociRewriterTarget {
                            component: owned(keys[i].1),
                            plugin_name: string_of(&t),
                        },
                    );
                    assert(r@.map_values(|t: ConfiguredLociRewriterTarget| target_view(t)) =~= r0.map_values(
                        |t: ConfiguredLociRewriterTarget| target_view(t),
                    ).push((rewriter_keys()[i as int].1, trim(v@))));
                }
            },
            None => {},
        }
        i = i + 1;
    }
    r
}

/// The configured model path: the trimmed `lociModelPath`, unless empty.
pub fn configured_loci_model_path(value: Option<String>) -> (r: Option<String>)
    ensures
        opt_view(r) == requested(opt_view(value)),
{
    match value {
        Some(v) => {
            let c = chars_of(v.as_str());
            let t = trim_chars(&c);
            if t.len() > 0 {
                Some(string_of(&t))
            } else {
                None
            }
        },
        None => None,
    }
}

/// A file of the default model directory: its path as displayed, its file
/// name and its size in bytes (0 when it cannot be read).
pub struct ModelFileInfo {
    pub path: String,
    pub name: String,
    pub size: u64,
}

/// The file name has the extension `gguf` in any ASCII case.
pub open spec fn gguf_extension(name: Seq<char>) -> bool {
    crate::models::has_extension(name, "gguf"@)
}

/// Entry `k` is the default model: a `.gguf` file at least as large as every
/// other, and larger than every one listed before it.
pub open spec fn is_default_model(es: Seq<ModelFileInfo>, k: int) -> bool {
    &&& 0 <= k < es.len()
    &&& gguf_extension(es[k].name@)
    &&& forall|j: int| 0 <= j < es.len() && gguf_extension(#[trigger] es[j].name@) ==> es[j].size <= es[k].size
    &&& forall|j: int| 0 <= j < k && gguf_extension(#[trigger] es[j].name@) ==> es[j].size < es[k].size
}

/// Whether a file name has the extension `gguf`, in any ASCII case.
pub fn has_gguf_extension(name: &str) -> (b: bool)
    ensures
        b == gguf_extension(name@),
{
    crate::models::has_extension_ci(name, "gguf")
}

/// The default model among the files of the model directory: the path of the
/// first of the largest `.gguf` files, or `None` when there is no `.gguf` file.
pub fn find_default_loci_model(entries: &Vec<ModelFileInfo>) -> (r: Option<String>)
    ensures
        match r {
            Some(p) => exists|k: int| is_default_model(entries@, k) && p@ == entries@[k].path@,
            None => forall|j: int| 0 <= j < entries@.len() ==> !gguf_extension(#[trigger] entries@[j].name@),
        },
{
    let mut best: Option<usize> = None;
    let mut i: usize = 0;
    while i < entries.len()
        invariant
            i <= entries@.len(),
            match best {
                Some(k) => k < i && is_default_model(entries@.subrange(0, i as int), k as int),
                None => forall|j: int| 0 <= j < i ==> !gguf_extension(#[trigger] entries@[j].name@),
            },
        decreases entries.len() - i,
    {
        let ghost pre = entries@.subrange(0, i as int);
        let ghost cur = entries@.subrange(0, i + 1);
        assert forall|j: int| 0 <= j < i implies #[trigger] cur[j] == pre[j] by {}
        assert(cur[i as int] == entries@[i as int]);
        if has_gguf_extension(entries[i].name.as_str()) {
            match best {
                Some(k) => {
                    if entries[k].size < entries[i].size {
                        best = Some(i);
                        assert(pre[k as int] == entries@[k as int]);
                        assert(is_default_model(cur, i as int));
                    } else {
                        assert(is_default_model(cur, k as int));
                    }
                },
                None => {
                    best = Some(i);
                    assert(is_default_model(cur, i as int));
                },
            }
        } else {
            match best {
                Some(k) => {
                    assert(is_default_model(cur, k as int));
                },
                None => {},
            }
        }
        i = i + 1;
    }
    assert(entries@.subrange(0, entries@.len() as int) == entries@);
    match best {
        Some(k) => Some(entries[k].path.clone()),
        None => None,
    }
}

/// The model to use: the request (trimmed, unless empty), else the configured
/// path, else the largest `.gguf` model of the default directory (`default_model`).
pub open spec fn chosen_model(
    requested_path: Option<Seq<char>>,
    configured: Option<Seq<char>>,
    default_model: Option<Seq<char>>,
) -> Option<Seq<char>> {
    match requested(requested_path) {
        Some(p) => Some(p),
        None => match requested(configured) {
            Some(c) => Some(c),
            None => default_model,
        },
    }
}

/// Resolves the model path from a request, the configured `lociModelPath` and
/// the default model found on disk.
pub fn resolve_loci_model_path(
    requested_path: Option<&str>,
    configured: Option<String>,
    default_model: Option<String>,
) -> (r: Option<String>)
    ensures
        opt_view(r) == chosen_model(opt_ref_view(requested_path), opt_view(configured), opt_view(default_model)),
{
    match requested_path {
        Some(p) => {
            let c = chars_of(p);
            let t = trim_chars(&c);
            if t.len() > 0 {
                return Some(string_of(&t));
            }
        },
        None => {},
    }
    match configured_loci_model_path(configured) {
        Some(c) => Some(c),
        None => default_model,
    }
}

/// Resolves the model path, failing with where the default models live when
/// there is none.
pub fn resolve_model_path(
    input: Option<&str>,
    configured: Option<String>,
    default_model: Option<String>,
    default_dir: &str,
) -> (r: AppResult<String>)
    ensures
        match chosen_model(opt_ref_view(input), opt_view(configured), opt_view(default_model)) {
            Some(p) => r matches Ok(s) && s@ == p,
            None => r matches Err(AppError::InvalidState(m)) && m@ == "Loci model not found under "@
                + default_dir@,
        },
{
    match resolve_loci_model_path(input, configured, default_model) {
        Some(p) => Ok(p),
        None => {
            let mut m = owned("Loci model not found under ");
            push_str(&mut m, default_dir);
            Err(AppError::InvalidState(m))
        },
    }
}

/// Where plugins are loaded from.
pub enum PluginLoadSourceKind {
    BundleFile,
    Directory,
}

/// The source kind a request names (compared trimmed and ASCII-lowercased):
/// `bundle` or `bundle_file` is a bundle file, anything else (and nothing) a
/// directory.
pub fn parse_source_kind(value: Option<&str>) -> (k: PluginLoadSourceKind)
    ensures
        (k is BundleFile) <==> (value matches Some(v) && (lower(trim(v@)) == "bundle"@ || lower(
            trim(v@),
        ) == "bundle_file"@)),
{
    let v = match value {
        Some(v) => v,
        None => "directory",
    };
    proof {
        reveal_strlit("directory");
        reveal_strlit("bundle");
        reveal_strlit("bundle_file");
        assert(trim("directory"@) == "directory"@) by {
            assert(!crate::text::is_ws('d'));
            assert(!crate::text::is_ws('y'));
            assert("directory"@.drop_last().len() < "directory"@.len());
        }
        assert(lower("directory"@) =~= "directory"@);
    }
    let t = trim_lower(v);
    if chars_eq_str(&t, "bundle") || chars_eq_str(&t, "bundle_file") {
        PluginLoadSourceKind::BundleFile
    } else {
        PluginLoadSourceKind::Directory
    }
}

/// A core component of the Loci runtime.
pub enum CoreComponent {
    Inference,
    Model,
    Hardware,
    Workflow,
    EventBus,
    PluginManager,
    UiHost,
}

/// The component a name denotes (compared trimmed and ASCII-lowercased).
pub open spec fn component_named(n: Seq<char>) -> Option<CoreComponent> {
    if n == "inference"@ {
        Some(CoreComponent::Inference)
    } else if n == "model"@ {
        Some(CoreComponent::Model)
    } else if n == "hardware"@ {
        Some(CoreComponent::Hardware)
    } else if n == "workflow"@ {
        Some(CoreComponent::Workflow)
    } else if n == "event_bus"@ || n == "eventbus"@ {
        Some(CoreComponent::EventBus)
    } else if n == "plugin_manager"@ || n == "pluginmanager"@ {
        Some(CoreComponent::PluginManager)
    } else if n == "ui_host"@ || n == "uihost"@ {
        Some(CoreComponent::UiHost)
    } else {
        None
    }
}

/// The component a name denotes; an unknown name is an invalid-state error.
pub fn parse_component(value: &str) -> (r: AppResult<CoreComponent>)
    ensures
        match component_named(lower(trim(value@))) {
            Some(c) => r == Ok::<CoreComponent, AppError>(c),
            None => r matches Err(AppError::InvalidState(m)) && m@
                == "unsupported Loci core component: "@ + lower(trim(value@)),
        },
{
    let t = trim_lower(value);
    if chars_eq_str(&t, "inference") {
        Ok(CoreComponent::Inference)
    } else if chars_eq_str(&t, "model") {
        Ok(CoreComponent::Model)
    } else if chars_eq_str(&t, "hardware") {
        Ok(CoreComponent::Hardware)
    } else if chars_eq_str(&t, "workflow") {
        Ok(CoreComponent::Workflow)
    } else if chars_eq_str(&t, "event_bus") || chars_eq_str(&t, "eventbus") {
        Ok(CoreComponent::EventBus)
    } else if chars_eq_str(&t, "plugin_manager") || chars_eq_str(&t, "pluginmanager") {
        Ok(CoreComponent::PluginManager)
    } else if chars_eq_str(&t, "ui_host") || chars_eq_str(&t, "uihost") {
        Ok(CoreComponent::UiHost)
    } else {
        let mut m = owned("unsupported Loci core component: ");
        let s = string_of(&t);
        push_str(&mut m, s.as_str());
        Err(AppError::InvalidState(m))
    }
}

/// The error of every runtime management command in this build.
pub open spec fn backend_missing(r: AppError) -> bool {
    r matches AppError::InvalidState(m) && m@ == "loci-backend feature is not enabled"@
}

/// The runtime snapshot of a model; this build has no Loci backend.
pub fn get_loci_runtime_snapshot(request: Option<LociSnapshotRequest>) -> (r: AppResult<RuntimeSnapshot>)
    ensures
        r matches Err(e) && backend_missing(e),
{
    Err(AppError::InvalidState(owned("loci-backend feature is not enabled")))
}

/// The rewriter inventory of a model; this build has no Loci backend.
pub fn get_loci_rewriter_inventory(request: Option<LociSnapshotRequest>) -> (r: AppResult<
    Vec<CoreRewriterInventoryStatus>,
>)
    ensures
        r matches Err(e) && backend_missing(e),
{
    Err(AppError::InvalidState(owned("loci-backend feature is not enabled")))
}

/// Loads plugins into a model's runtime; this build has no Loci backend.
pub fn load_loci_plugins(request: LoadLociPluginsRequest) -> (r: AppResult<PluginLoadStatus>)
    ensures
        r matches Err(e) && backend_missing(e),
{
    Err(AppError::InvalidState(owned("loci-backend feature is not enabled")))
}

/// Activates a core rewriter; this build has no Loci backend.
pub fn activate_loci_rewriter(request: ActivateLociRewriterRequest) -> (r: AppResult<
    CoreRewriterActivationStatus,
>)
    ensures
        r matches Err(e) && backend_missing(e),
{
    Err(AppError::InvalidState(owned("loci-backend feature is not enabled")))
}

/// The governance snapshot of this build (no Loci backend): the translation
/// engine the configuration selects, the model that would be used, and the
/// plugin directories and rewriters the configuration names.
pub fn get_loci_governance_snapshot(
    configured_translation_engine: Option<String>,
    model_path: Option<String>,
    default_model_dir: String,
    rewriter_values: &Vec<Option<String>>,
    plugin_dirs: Option<PluginDirsSetting>,
) -> (r: AppResult<LociGovernanceSnapshot>)
    requires
        rewriter_values@.len() == 7,
    ensures
        r matches Ok(s) && {
            let te = resolved_translation(None, opt_view(configured_translation_engine));
            &&& s.translation_engine@ == te
            &&& s.loci_selected == (te == "loci"@)
            &&& !s.runtime_ready
            &&& s.status_message@ == "loci-backend feature is not enabled in this build"@
            &&& s.default_model_dir@ == default_model_dir@
            &&& opt_view(s.model_path) == opt_view(model_path)
            &&& views(s.plugin_dirs@) == plugin_dirs_of(plugin_dirs)
            &&& s.configured_rewriter_targets@.map_values(|t: ConfiguredLociRewriterTarget| target_view(t))
                == rewriter_targets(rewriter_values@, 7)
            &&& s.active_rewriter_inventory@.len() == 0
        },
{
    let translation_engine = resolved_translation_engine(None, configured_translation_engine);
    let te = chars_of(translation_engine.as_str());
    let loci_selected = chars_eq_str(&te, "loci");
    let configured_rewriter_targets = configured_rewriter_targets_snapshot(rewriter_values);
    let dirs = configured_plugin_dirs_snapshot(plugin_dirs);
    Ok(
        LociGovernanceSnapshot {
            translation_engine,
            loci_selected,
            runtime_ready: false,
            status_message: owned("loci-backend feature is not enabled in this build"),
            default_model_dir,
            model_path,
            plugin_dirs: dirs,
            configured_rewriter_targets,
            active_rewriter_inventory: Vec::new(),
        },
    )
}

} // verus!

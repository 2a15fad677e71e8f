//! The translation service: which engine serves a request, what the
//! deterministic MT runtime is started with, and the outcomes that need no
//! engine at all.
use vstd::prelude::*;

use crate::governance::{opt_ref_view, opt_view, resolved_translation, resolved_translation_engine};
use crate::loci_runtime::{chosen_model, resolve_loci_model_path};
use crate::text::{chars_eq_str, chars_of, lower, lower_chars, owned, push_str, seq_eq, string_of, trim, trim_chars};

verus! {

/// A translation request.
pub struct TranslateRequest {
    pub text: String,
    pub source_lang: String,
    pub target_lang: String,
    pub engine: Option<String>,
    pub model_path: Option<String>,
}

/// The engine that serves a request.
pub enum TranslationRoute {
    Loci,
    Nllb,
}

/// The route of a request: the requested engine, else the configured one,
/// else `nllb`; an engine other than `loci` and `nllb` (and the engines `nllb`
/// stands for) is refused.
pub fn translation_route(requested_engine: Option<&str>, configured: Option<String>) -> (r: Result<
    TranslationRoute,
    String,
>)
    ensures
        ({
            let e = resolved_translation(opt_ref_view(requested_engine), opt_view(configured));
            if e == "loci"@ {
                r matches Ok(TranslationRoute::Loci)
            } else if e == "nllb"@ {
                r matches Ok(TranslationRoute::Nllb)
            } else {
                r matches Err(m) && m@ == "Unsupported translation engine: "@ + e
            }
        }),
{
    let engine = resolved_translation_engine(requested_engine, configured);
    let e = chars_of(engine.as_str());
    if chars_eq_str(&e, "loci") {
        Ok(TranslationRoute::Loci)
    } else if chars_eq_str(&e, "nllb") {
        Ok(TranslationRoute::Nllb)
    } else {
        let mut m = owned("Unsupported translation engine: ");
        push_str(&mut m, engine.as_str());
        Err(m)
    }
}

/// What a Loci request comes to in this build: the model is resolved (its
/// absence is an error naming the default directory), and loading it fails
/// for want of the Loci backend.
pub fn translate_loci(
    request: &TranslateRequest,
    configured_model: Option<String>,
    default_model: Option<String>,
    default_dir: &str,
) -> (r: Result<(), String>)
    ensures
        match chosen_model(opt_view(request.model_path), opt_view(configured_model), opt_view(default_model)) {
            Some(p) => r matches Err(m) && m@ == "failed to initialize Loci model ("@ + p
                + "): loci-backend feature is not enabled"@,
            None => r matches Err(m) && m@ == "Loci model not found under "@ + default_dir@,
        },
{
    let requested: Option<&str> = match &request.model_path {
        Some(p) => Some(p.as_str()),
        None => None,
    };
    proof {
        assert(opt_ref_view(requested) == opt_view(request.model_path));
    }
    match resolve_loci_model_path(requested, configured_model, default_model) {
        Some(p) => {
            let mut m = owned("failed to initialize Loci model (");
            push_str(&mut m, p.as_str());
            push_str(&mut m, "): loci-backend feature is not enabled");
            Err(m)
        },
        None => {
            let mut m = owned("Loci model not found under ");
            push_str(&mut m, default_dir);
            Err(m)
        },
    }
}

/// The deterministic MT translator: the external Python runtime it starts,
/// directly or through conda.
pub struct NllbTranslator {
    pub model_path: Option<String>,
    pub python_exe: String,
    pub conda_exe: Option<String>,
    pub conda_env_name: String,
}

/// The conda environment to use: the configured name unless blank, else
/// `localtrans`.
pub open spec fn conda_env(configured: Option<Seq<char>>) -> Seq<char> {
    match configured {
        Some(v) => if trim(v).len() > 0 {
            v
        } else {
            "localtrans"@
        },
        None => "localtrans"@,
    }
}

/// The Python interpreter to run: the bundled one, else the configured one
/// (trimmed, unless blank), else the active conda environment's, else the
/// `localtrans` conda environment's, else `python` from the PATH. The
/// candidates found on disk are given; the others are `None`.
pub open spec fn python_choice(
    bundled: Option<Seq<char>>,
    configured: Option<Seq<char>>,
    conda_prefix: Option<Seq<char>>,
    home_env: Option<Seq<char>>,
) -> Seq<char> {
    match bundled {
        Some(p) => p,
        None => match crate::governance::requested(configured) {
            Some(p) => p,
            None => match conda_prefix {
                Some(p) => p,
                None => match home_env {
                    Some(p) => p,
                    None => "python"@,
                },
            },
        },
    }
}

impl NllbTranslator {
    /// A translator for the runtime found on this host.
    pub fn new(
        bundled_python: Option<String>,
        configured_python: Option<String>,
        conda_prefix_python: Option<String>,
        home_env_python: Option<String>,
        conda_exe: Option<String>,
        configured_env: Option<String>,
    ) -> (t: Self)
        ensures
            t.model_path is None,
            t.python_exe@ == python_choice(
                opt_view(bundled_python),
                opt_view(configured_python),
                opt_view(conda_prefix_python),
                opt_view(home_env_python),
            ),
            opt_view(t.conda_exe) == opt_view(conda_exe),
            t.conda_env_name@ == conda_env(opt_view(configured_env)),
    {
        let python_exe = match bundled_python {
            Some(p) => p,
            None => match crate::loci_runtime::configured_loci_model_path(configured_python) {
                Some(p) => p,
                None => match conda_prefix_python {
                    Some(p) => p,
                    None => match home_env_python {
                        Some(p) => p,
                        None => owned("python"),
                    },
                },
            },
        };
        let conda_env_name = match configured_env {
            Some(v) => {
                let c = chars_of(v.as_str());
                if trim_chars(&c).len() > 0 {
                    v
                } else {
                    owned("localtrans")
                }
            },
            None => owned("localtrans"),
        };
        NllbTranslator { model_path: None, python_exe, conda_exe, conda_env_name }
    }

    /// The text itself when no translation is needed (the two languages are the
    /// same, compared ASCII-case-insensitively); `None` when the MT runtime
    /// must run.
    pub fn passthrough(text: &str, source_lang: &str, target_lang: &str) -> (r: Option<String>)
        ensures
            lower(source_lang@) == lower(target_lang@) ==> (r matches Some(t) && t@ == text@),
            lower(source_lang@) != lower(target_lang@) ==> r is None,
    {
        let s = chars_of(source_lang);
        let t = chars_of(target_lang);
        let ls = lower_chars(&s);
        let lt = lower_chars(&t);
        if seq_eq(&ls, &lt) {
            Some(owned(text))
        } else {
            None
        }
    }

    /// The error of a failed MT run, with the runtime's trimmed error output
    /// (or `unknown error` when it printed none).
    pub fn failure_message(source_lang: &str, target_lang: &str, stderr: &str) -> (m: String)
        ensures
            m@ == "Argos MT failed for "@ + source_lang@ + "->"@ + target_lang@ + ": "@ + if trim(
                stderr@,
            ).len() == 0 {
                "unknown error"@
            } else {
                trim(stderr@)
            },
    {
        let mut m = owned("Argos MT failed for ");
        push_str(&mut m, source_lang);
        push_str(&mut m, "->");
        push_str(&mut m, target_lang);
        push_str(&mut m, ": ");
        let e = chars_of(stderr);
        let t = trim_chars(&e);
        if t.len() == 0 {
            push_str(&mut m, "unknown error");
        } else {
            let ts = string_of(&t);
            push_str(&mut m, ts.as_str());
        }
        m
    }
}

/// The deterministic MT adapter of the realtime runtime.
pub struct DeterministicMtAdapter {
    pub inner: NllbTranslator,
}

impl DeterministicMtAdapter {
    /// The adapter over a translator for this host's MT runtime.
    pub fn new(inner: NllbTranslator) -> (a: Self)
        ensures
            a.inner == inner,
    {
        DeterministicMtAdapter { inner }
    }

    /// The adapter's name.
    pub fn adapter_name(&self) -> (n: &'static str)
        ensures
            n@ == "deterministic-mt"@,
    {
        "deterministic-mt"
    }
}

} // verus!

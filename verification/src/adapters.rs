//! The adapter slots of the realtime runtime (ASR, translation, TTS): which
//! routes exist, which are available in this build, and which one a session
//! selected.
use vstd::prelude::*;

use crate::text::{chars_eq_str, lower, owned, push_chars, string_of, trim, trim_lower};

verus! {

/// One adapter route of one pipeline stage.
pub struct RuntimeAdapterDescriptor {
    pub id: String,
    pub stage: String,
    pub label: String,
    pub available: bool,
    pub selected: bool,
    pub detail: String,
}

/// All adapter routes, per stage.
pub struct RuntimeAdapterInventory {
    pub asr: Vec<RuntimeAdapterDescriptor>,
    pub translation: Vec<RuntimeAdapterDescriptor>,
    pub tts: Vec<RuntimeAdapterDescriptor>,
}

/// Whether `d` describes the route with these values.
pub open spec fn describes(
    d: RuntimeAdapterDescriptor,
    id: Seq<char>,
    stage: Seq<char>,
    label: Seq<char>,
    available: bool,
    selected: bool,
    detail: Seq<char>,
) -> bool {
    &&& d.id@ == id
    &&& d.stage@ == stage
    &&& d.label@ == label
    &&& d.available == available
    &&& d.selected == selected
    &&& d.detail@ == detail
}

/// The id a selection names, compared case-insensitively and without
/// surrounding whitespace.
pub open spec fn names(selection: Seq<char>, id: Seq<char>) -> bool {
    lower(trim(selection)) == id
}

fn descriptor(
    id: &str,
    stage: &str,
    label: &str,
    available: bool,
    selection: &Vec<char>,
    detail: &str,
) -> (d: RuntimeAdapterDescriptor)
    ensures
        describes(d, id@, stage@, label@, available, selection@ == id@, detail@),
{
    RuntimeAdapterDescriptor {
        id: owned(id),
        stage: owned(stage),
        label: owned(label),
        available,
        selected: chars_eq_str(selection, id),
        detail: owned(detail),
    }
}

/// The inventory of adapter routes of this build, each stage's selected
/// route marked. This build has no Loci backend, so the `loci` translation
/// route is unavailable.
pub open spec fn inventory_for(
    r: RuntimeAdapterInventory,
    selected_asr: Seq<char>,
    selected_translation: Seq<char>,
    selected_tts: Seq<char>,
) -> bool {
    &&& r.asr@.len() == 4
    &&& describes(
        r.asr@[0],
        "whisper"@,
        "asr"@,
        "Whisper compatibility route"@,
        true,
        names(selected_asr, "whisper"@),
        "Currently mapped onto the existing local streaming ASR runtime."@,
    )
    &&& describes(
        r.asr@[1],
        "sensevoice"@,
        "asr"@,
        "SenseVoice compatibility route"@,
        true,
        names(selected_asr, "sensevoice"@),
        "Currently mapped onto the existing local streaming ASR runtime."@,
    )
    &&& describes(
        r.asr@[2],
        "vosk"@,
        "asr"@,
        "Vosk compatibility route"@,
        true,
        names(selected_asr, "vosk"@),
        "Currently mapped onto the existing local streaming ASR runtime."@,
    )
    &&& describes(
        r.asr@[3],
        "qwen3-asr"@,
        "asr"@,
        "Qwen3-ASR scaffold"@,
        false,
        names(selected_asr, "qwen3-asr"@),
        "Adapter slot exists, but this build does not yet include qwen3-asr-rs or an equivalent plugin-backed implementation."@,
    )
    &&& r.translation@.len() == 4
    &&& describes(
        r.translation@[0],
        "loci"@,
        "translation"@,
        "Loci plugin-governed MT"@,
        false,
        names(selected_translation, "loci"@),
        "Requires the loci-backend feature in this build."@,
    )
    &&& describes(
        r.translation@[1],
        "nllb"@,
        "translation"@,
        "Deterministic MT runtime"@,
        true,
        names(selected_translation, "nllb"@),
        "Current deterministic translation adapter."@,
    )
    &&& describes(
        r.translation@[2],
        "argos"@,
        "translation"@,
        "Argos compatibility route"@,
        true,
        names(selected_translation, "argos"@),
        "Normalized onto the deterministic MT adapter."@,
    )
    &&& describes(
        r.translation@[3],
        "m2m"@,
        "translation"@,
        "M2M compatibility route"@,
        true,
        names(selected_translation, "m2m"@),
        "Normalized onto the deterministic MT adapter."@,
    )
    &&& r.tts@.len() == 6
    &&& describes(
        r.tts@[0],
        "sherpa-melo"@,
        "tts"@,
        "Command TTS route: Sherpa Melo"@,
        true,
        names(selected_tts, "sherpa-melo"@),
        "Handled by the host-side TTS command adapter."@,
    )
    &&& describes(
        r.tts@[1],
        "edge-tts"@,
        "tts"@,
        "Command TTS route: Edge TTS"@,
        true,
        names(selected_tts, "edge-tts"@),
        "Handled by the host-side TTS command adapter."@,
    )
    &&& describes(
        r.tts@[2],
        "custom"@,
        "tts"@,
        "Command TTS route: Custom voice"@,
        true,
        names(selected_tts, "custom"@),
        "Handled by the host-side TTS command adapter using custom voice profiles."@,
    )
    &&& describes(
        r.tts@[3],
        "piper"@,
        "tts"@,
        "Command TTS route: Piper"@,
        true,
        names(selected_tts, "piper"@),
        "Handled by the host-side TTS command adapter."@,
    )
    &&& describes(
        r.tts@[4],
        "system"@,
        "tts"@,
        "Command TTS route: System voice"@,
        true,
        names(selected_tts, "system"@),
        "Handled by the host-side TTS command adapter."@,
    )
    &&& describes(
        r.tts@[5],
        "qwen3-tts"@,
        "tts"@,
        "Qwen3-TTS scaffold"@,
        false,
        names(selected_tts, "qwen3-tts"@),
        "Adapter slot exists, but this build does not yet include qwen3-tts-rs or an equivalent plugin-backed implementation."@,
    )
}

/// The adapter routes of this build, with the selected route of each stage marked.
/// This build has no Loci backend, so the `loci` translation route is unavailable.
pub fn runtime_adapter_inventory(selected_asr: &str, selected_translation: &str, selected_tts: &str) -> (r:
    RuntimeAdapterInventory)
    ensures
        inventory_for(r, selected_asr@, selected_translation@, selected_tts@),
{
    let asr_sel = trim_lower(selected_asr);
    let mt_sel = trim_lower(selected_translation);
    let tts_sel = trim_lower(selected_tts);
    let mut asr: Vec<RuntimeAdapterDescriptor> = Vec::new();
    asr.push(
        descriptor(
            "whisper",
            "asr",
            "Whisper compatibility route",
            true,
            &asr_sel,
            "Currently mapped onto the existing local streaming ASR runtime.",
        ),
    );
    asr.push(
        descriptor(
            "sensevoice",
            "asr",
            "SenseVoice compatibility route",
            true,
            &asr_sel,
            "Currently mapped onto the existing local streaming ASR runtime.",
        ),
    );
    asr.push(
        descriptor(
            "vosk",
            "asr",
            "Vosk compatibility route",
            true,
            &asr_sel,
            "Currently mapped onto the existing local streaming ASR runtime.",
        ),
    );
    asr.push(
        descriptor(
            "qwen3-asr",
            "asr",
            "Qwen3-ASR scaffold",
            false,
            &asr_sel,
            "Adapter slot exists, but this build does not yet include qwen3-asr-rs or an equivalent plugin-backed implementation.",
        ),
    );
    let mut translation: Vec<RuntimeAdapterDescriptor> = Vec::new();
    translation.push(
        descriptor(
            "loci",
            "translation",
            "Loci plugin-governed MT",
            false,
            &mt_sel,
            "Requires the loci-backend feature in this build.",
        ),
    );
    translation.push(
        descriptor(
            "nllb",
            "translation",
            "Deterministic MT runtime",
            true,
            &mt_sel,
            "Current deterministic translation adapter.",
        ),
    );
    translation.push(
        descriptor(
            "argos",
            "translation",
            "Argos compatibility route",
            true,
            &mt_sel,
            "Normalized onto the deterministic MT adapter.",
        ),
    );
    translation.push(
        descriptor(
            "m2m",
            "translation",
            "M2M compatibility route",
            true,
            &mt_sel,
            "Normalized onto the deterministic MT adapter.",
        ),
    );
    let mut tts: Vec<RuntimeAdapterDescriptor> = Vec::new();
    tts.push(
        descriptor(
            "sherpa-melo",
            "tts",
            "Command TTS route: Sherpa Melo",
            true,
            &tts_sel,
            "Handled by the host-side TTS command adapter.",
        ),
    );
    tts.push(
        descriptor(
            "edge-tts",
            "tts",
            "Command TTS route: Edge TTS",
            true,
            &tts_sel,
            "Handled by the host-side TTS command adapter.",
        ),
    );
    tts.push(
        descriptor(
            "custom",
            "tts",
            "Command TTS route: Custom voice",
            true,
            &tts_sel,
            "Handled by the host-side TTS command adapter using custom voice profiles.",
        ),
    );
    tts.push(
        descriptor(
            "piper",
            "tts",
            "Command TTS route: Piper",
            true,
            &tts_sel,
            "Handled by the host-side TTS command adapter.",
        ),
    );
    tts.push(
        descriptor(
            "system",
            "tts",
            "Command TTS route: System voice",
            true,
            &tts_sel,
            "Handled by the host-side TTS command adapter.",
        ),
    );
    tts.push(
        descriptor(
            "qwen3-tts",
            "tts",
            "Qwen3-TTS scaffold",
            false,
            &tts_sel,
            "Adapter slot exists, but this build does not yet include qwen3-tts-rs or an equivalent plugin-backed implementation.",
        ),
    );
    RuntimeAdapterInventory { asr, translation, tts }
}

/// Which realtime ASR adapter an engine id selects.
pub enum AsrAdapterKind {
    /// The local streaming ASR runtime.
    Streaming,
    /// The Qwen3-ASR slot, which has no backend in this build.
    Qwen,
}

/// Which TTS adapter an engine id selects.
pub enum TtsAdapterKind {
    /// The host-side command TTS adapter.
    Command,
    /// The Qwen3-TTS slot, which has no backend in this build.
    Qwen,
}

/// The ASR engine ids that run on the local streaming runtime.
pub open spec fn is_streaming_asr_id(n: Seq<char>) -> bool {
    n == ""@ || n == "streaming"@ || n == "streaming-asr"@ || n == "streaming-sherpa"@ || n
        == "sherpa"@ || n == "whisper"@ || n == "sensevoice"@ || n == "vosk"@
}

/// The TTS engine ids that the command adapter serves.
pub open spec fn is_command_tts_id(n: Seq<char>) -> bool {
    n == ""@ || n == "sherpa-melo"@ || n == "edge-tts"@ || n == "custom"@ || n == "piper"@ || n
        == "system"@
}

/// The realtime ASR adapter for an engine id (matched case-insensitively,
/// without surrounding whitespace); an unknown id is refused.
pub fn realtime_asr_adapter_kind(engine: &str) -> (r: Result<AsrAdapterKind, String>)
    ensures
        ({
            let n = lower(trim(engine@));
            match r {
                Ok(AsrAdapterKind::Streaming) => is_streaming_asr_id(n),
                Ok(AsrAdapterKind::Qwen) => n == "qwen3-asr"@,
                Err(msg) => !is_streaming_asr_id(n) && n != "qwen3-asr"@ && msg@
                    == "Unsupported ASR engine: "@ + n,
            }
        }),
{
    let n = trim_lower(engine);
    if chars_eq_str(&n, "") || chars_eq_str(&n, "streaming") || chars_eq_str(&n, "streaming-asr")
        || chars_eq_str(&n, "streaming-sherpa") || chars_eq_str(&n, "sherpa") || chars_eq_str(
        &n,
        "whisper",
    ) || chars_eq_str(&n, "sensevoice") || chars_eq_str(&n, "vosk") {
        Ok(AsrAdapterKind::Streaming)
    } else if chars_eq_str(&n, "qwen3-asr") {
        Ok(AsrAdapterKind::Qwen)
    } else {
        let mut msg = owned("Unsupported ASR engine: ");
        push_chars(&mut msg, &n);
        Err(msg)
    }
}

/// The TTS adapter for an engine id (matched case-insensitively, without
/// surrounding whitespace); an unknown id is refused.
pub fn tts_adapter_kind(engine: &str) -> (r: Result<TtsAdapterKind, String>)
    ensures
        ({
            let n = lower(trim(engine@));
            match r {
                Ok(TtsAdapterKind::Command) => is_command_tts_id(n),
                Ok(TtsAdapterKind::Qwen) => n == "qwen3-tts"@,
                Err(msg) => !is_command_tts_id(n) && n != "qwen3-tts"@ && msg@
                    == "Unsupported TTS engine: "@ + n,
            }
        }),
{
    let n = trim_lower(engine);
    if chars_eq_str(&n, "") || chars_eq_str(&n, "sherpa-melo") || chars_eq_str(&n, "edge-tts")
        || chars_eq_str(&n, "custom") || chars_eq_str(&n, "piper") || chars_eq_str(&n, "system") {
        Ok(TtsAdapterKind::Command)
    } else if chars_eq_str(&n, "qwen3-tts") {
        Ok(TtsAdapterKind::Qwen)
    } else {
        let mut msg = owned("Unsupported TTS engine: ");
        push_chars(&mut msg, &n);
        Err(msg)
    }
}

/// The Qwen3-ASR adapter slot; this build has no backend behind it.
pub struct QwenAsrAdapter;

/// Message of the refused Qwen3-ASR adapter.
pub fn qwen_asr_unavailable() -> (s: String)
    ensures
        s@
            == "qwen3-asr adapter slot is scaffolded but this build does not yet include qwen3-asr-rs; wire a concrete adapter or a Loci-governed plugin before selecting qwen3-asr"@,
{
    owned(
        "qwen3-asr adapter slot is scaffolded but this build does not yet include qwen3-asr-rs; wire a concrete adapter or a Loci-governed plugin before selecting qwen3-asr",
    )
}

/// The host-side TTS adapter that runs the TTS command.
pub struct CommandTtsAdapter;

impl CommandTtsAdapter {
    pub fn new() -> (a: Self) {
        CommandTtsAdapter
    }
}

/// The TTS adapter used while TTS is disabled: it speaks nothing.
pub struct NoopTtsAdapter;

impl NoopTtsAdapter {
    pub fn new() -> (a: Self) {
        NoopTtsAdapter
    }
}

/// The Qwen3-TTS adapter slot; this build has no backend behind it.
pub struct QwenTtsAdapter;

impl QwenTtsAdapter {
    /// Always refused, with the message that this build has no Qwen3-TTS backend.
    pub fn new() -> (r: Result<Self, String>)
        ensures
            r matches Err(msg) && msg@
                == "qwen3-tts adapter slot is scaffolded but this build does not yet include qwen3-tts-rs; wire a concrete adapter or a Loci-governed plugin before selecting qwen3-tts"@,
    {
        Err(
            owned(
                "qwen3-tts adapter slot is scaffolded but this build does not yet include qwen3-tts-rs; wire a concrete adapter or a Loci-governed plugin before selecting qwen3-tts",
            ),
        )
    }
}

} // verus!

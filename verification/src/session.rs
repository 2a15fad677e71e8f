//! Session status as the GUI and the CLI see it, and the file-based session bus
//! through which a CLI process drives the session of a running GUI: the
//! persisted runtime state, the control record, and the decisions around them.
use vstd::prelude::*;

use crate::governance::opt_view;
use crate::pipeline::PipelineState;
use crate::text::{chars_eq_str, chars_of, owned};

verus! {

/// Session status reported to the frontend and the CLI.
pub struct SessionStatus {
    pub state: String,
    pub label: String,
    pub is_running: bool,
}

/// The status reported for a pipeline state: its id, its label, and whether
/// the session counts as running.
pub open spec fn status_of(s: PipelineState) -> (Seq<char>, Seq<char>, bool) {
    match s {
        PipelineState::Idle => ("idle"@, "已停止"@, false),
        PipelineState::Initializing => ("initializing"@, "启动中"@, true),
        PipelineState::Running => ("running"@, "实时转译中"@, true),
        PipelineState::Paused => ("paused"@, "已暂停"@, true),
        PipelineState::Stopping => ("stopping"@, "停止中"@, true),
        PipelineState::Error => ("error"@, "错误"@, false),
    }
}

impl SessionStatus {
    /// The status equals the one reported for `s`.
    pub open spec fn reports(self, s: PipelineState) -> bool {
        (self.state@, self.label@, self.is_running) == status_of(s)
    }
}

fn status(state: &str, label: &str, is_running: bool) -> (s: SessionStatus)
    ensures
        s.state@ == state@,
        s.label@ == label@,
        s.is_running == is_running,
{
    SessionStatus { state: owned(state), label: owned(label), is_running }
}

/// The status reported for a pipeline state.
pub fn to_status(state: PipelineState) -> (s: SessionStatus)
    ensures
        s.reports(state),
{
    match state {
        PipelineState::Idle => status("idle", "已停止", false),
        PipelineState::Initializing => status("initializing", "启动中", true),
        PipelineState::Running => status("running", "实时转译中", true),
        PipelineState::Paused => status("paused", "已暂停", true),
        PipelineState::Stopping => status("stopping", "停止中", true),
        PipelineState::Error => status("error", "错误", false),
    }
}

/// A session counts as running in every state but idle and error.
pub proof fn lemma_running_states(s: PipelineState)
    ensures
        status_of(s).2 <==> !(s == PipelineState::Idle || s == PipelineState::Error),
{
}

/// The session runtime state that a session process persists on the bus.
pub struct SessionRuntimeState {
    pub pid: u32,
    pub status: String,
    pub source_lang: String,
    pub target_lang: String,
    pub bidirectional: bool,
    pub tts_enabled: bool,
    pub start_unix_ms: u64,
    pub last_heartbeat_unix_ms: u64,
    pub utterance_count: u64,
    pub error_count: u64,
    pub last_error: Option<String>,
}

/// A control command for the session process, persisted on the bus.
pub struct SessionControl {
    pub command: String,
    pub source_lang: Option<String>,
    pub target_lang: Option<String>,
    pub ts_unix_ms: u64,
}

/// The longest time without a heartbeat for which a session counts as alive.
pub const HEARTBEAT_TIMEOUT_MS: u64 = 5000;

/// A session is alive when its heartbeat is at most five seconds old (a
/// heartbeat from the future counts as fresh) and it is starting, running or
/// paused.
pub open spec fn alive(state: SessionRuntimeState, now_ms: u64) -> bool {
    &&& (if now_ms >= state.last_heartbeat_unix_ms {
        now_ms - state.last_heartbeat_unix_ms
    } else {
        0
    }) <= 5000
    &&& (state.status@ == "starting"@ || state.status@ == "running"@ || state.status@
        == "paused"@)
}

/// Whether the persisted session is alive at time `now_ms` (milliseconds since
/// the Unix epoch).
pub fn is_session_alive(state: &SessionRuntimeState, now_ms: u64) -> (b: bool)
    ensures
        b == alive(*state, now_ms),
{
    let age = now_ms.saturating_sub(state.last_heartbeat_unix_ms);
    let s = chars_of(state.status.as_str());
    age <= HEARTBEAT_TIMEOUT_MS && (chars_eq_str(&s, "starting") || chars_eq_str(&s, "running")
        || chars_eq_str(&s, "paused"))
}

/// The persisted record of a session that has just been set to `status`.
pub fn runtime_state_record(
    status: &str,
    source_lang: String,
    target_lang: String,
    bidirectional: bool,
    pid: u32,
    now_ms: u64,
) -> (s: SessionRuntimeState)
    ensures
        s.pid == pid,
        s.status@ == status@,
        s.source_lang@ == source_lang@,
        s.target_lang@ == target_lang@,
        s.bidirectional == bidirectional,
        s.tts_enabled,
        s.start_unix_ms == now_ms,
        s.last_heartbeat_unix_ms == now_ms,
        s.utterance_count == 0,
        s.error_count == 0,
        s.last_error is None,
{
    SessionRuntimeState {
        pid,
        status: owned(status),
        source_lang,
        target_lang,
        bidirectional,
        tts_enabled: true,
        start_unix_ms: now_ms,
        last_heartbeat_unix_ms: now_ms,
        utterance_count: 0,
        error_count: 0,
        last_error: None,
    }
}

impl SessionRuntimeState {
    /// Everything but the status, the languages and the heartbeat is the same.
    pub open spec fn same_session(self, other: Self) -> bool {
        &&& self.pid == other.pid
        &&& self.bidirectional == other.bidirectional
        &&& self.tts_enabled == other.tts_enabled
        &&& self.start_unix_ms == other.start_unix_ms
        &&& self.utterance_count == other.utterance_count
        &&& self.error_count == other.error_count
        &&& opt_view(self.last_error) == opt_view(other.last_error)
    }

    /// Records a new status, with a heartbeat at `now_ms`.
    pub fn mark_status(&mut self, status: &str, now_ms: u64)
        ensures
            final(self).same_session(*old(self)),
            final(self).status@ == status@,
            final(self).source_lang@ == old(self).source_lang@,
            final(self).target_lang@ == old(self).target_lang@,
            final(self).last_heartbeat_unix_ms == now_ms,
    {
        self.status = owned(status);
        self.last_heartbeat_unix_ms = now_ms;
    }

    /// Records a change of languages (each one only where given), with a
    /// heartbeat at `now_ms`.
    pub fn set_languages(&mut self, source_lang: Option<String>, target_lang: Option<String>, now_ms: u64)
        ensures
            final(self).same_session(*old(self)),
            final(self).status@ == old(self).status@,
            final(self).source_lang@ == match opt_view(source_lang) {
                Some(v) => v,
                None => old(self).source_lang@,
            },
            final(self).target_lang@ == match opt_view(target_lang) {
                Some(v) => v,
                None => old(self).target_lang@,
            },
            final(self).last_heartbeat_unix_ms == now_ms,
    {
        if let Some(src) = source_lang {
            self.source_lang = src;
        }
        if let Some(dst) = target_lang {
            self.target_lang = dst;
        }
        self.last_heartbeat_unix_ms = now_ms;
    }
}

/// The control record of a command issued at `now_ms`.
pub fn control_record(
    command: &str,
    source_lang: Option<&str>,
    target_lang: Option<&str>,
    now_ms: u64,
) -> (c: SessionControl)
    ensures
        c.command@ == command@,
        opt_view(c.source_lang) == crate::governance::opt_ref_view(source_lang),
        opt_view(c.target_lang) == crate::governance::opt_ref_view(target_lang),
        c.ts_unix_ms == now_ms,
{
    SessionControl {
        command: owned(command),
        source_lang: match source_lang {
            Some(s) => Some(owned(s)),
            None => None,
        },
        target_lang: match target_lang {
            Some(s) => Some(owned(s)),
            None => None,
        },
        ts_unix_ms: now_ms,
    }
}

/// What a session process does with a pending control command.
#[derive(Clone, Copy, PartialEq, Eq, Structural, Debug)]
pub enum ControlAction {
    Pause,
    Resume,
    Stop,
    UpdateLanguages,
    /// An unknown command is dropped.
    Ignore,
}

/// The action of a control command.
pub open spec fn control_action_of(command: Seq<char>) -> ControlAction {
    if command == "pause"@ {
        ControlAction::Pause
    } else if command == "resume"@ {
        ControlAction::Resume
    } else if command == "stop"@ {
        ControlAction::Stop
    } else if command == "update_languages"@ {
        ControlAction::UpdateLanguages
    } else {
        ControlAction::Ignore
    }
}

/// The action of a control command (commands are matched exactly).
pub fn control_action(command: &str) -> (a: ControlAction)
    ensures
        a == control_action_of(command@),
{
    let c = chars_of(command);
    if chars_eq_str(&c, "pause") {
        ControlAction::Pause
    } else if chars_eq_str(&c, "resume") {
        ControlAction::Resume
    } else if chars_eq_str(&c, "stop") {
        ControlAction::Stop
    } else if chars_eq_str(&c, "update_languages") {
        ControlAction::UpdateLanguages
    } else {
        ControlAction::Ignore
    }
}

/// The commands that the CLI writes on the bus (`pause`, `resume`, `stop`,
/// `update_languages`) each select the action they name in the process that
/// reads them; nothing the CLI writes is ignored.
pub proof fn lemma_cli_commands_understood()
    ensures
        control_action_of("pause"@) == ControlAction::Pause,
        control_action_of("resume"@) == ControlAction::Resume,
        control_action_of("stop"@) == ControlAction::Stop,
        control_action_of("update_languages"@) == ControlAction::UpdateLanguages,
{
    reveal_strlit("pause");
    reveal_strlit("resume");
    reveal_strlit("stop");
    reveal_strlit("update_languages");
    assert("resume"@ != "pause"@) by {
        assert("resume"@.len() != "pause"@.len());
    }
    assert("stop"@ != "pause"@) by {
        assert("stop"@.len() != "pause"@.len());
    }
    assert("stop"@ != "resume"@) by {
        assert("stop"@.len() != "resume"@.len());
    }
    assert("update_languages"@ != "pause"@) by {
        assert("update_languages"@.len() != "pause"@.len());
    }
    assert("update_languages"@ != "resume"@) by {
        assert("update_languages"@.len() != "resume"@.len());
    }
    assert("update_languages"@ != "stop"@) by {
        assert("update_languages"@.len() != "stop"@.len());
    }
}

/// The runtime status recorded for a live pipeline state, if any.
pub open spec fn runtime_status_of(s: PipelineState) -> Option<Seq<char>> {
    match s {
        PipelineState::Running => Some("running"@),
        PipelineState::Paused => Some("paused"@),
        PipelineState::Initializing => Some("starting"@),
        _ => None,
    }
}

/// The runtime status recorded for a live pipeline state, if any.
pub fn runtime_status_label(s: PipelineState) -> (r: Option<&'static str>)
    ensures
        crate::governance::opt_str_view(r) == runtime_status_of(s),
{
    match s {
        PipelineState::Running => Some("running"),
        PipelineState::Paused => Some("paused"),
        PipelineState::Initializing => Some("starting"),
        _ => None,
    }
}

/// The status the CLI reports: the in-process pipeline's when there is one;
/// otherwise that of a live persisted session (running, paused, or else idle);
/// otherwise idle.
pub open spec fn cli_status(
    pipeline: Option<PipelineState>,
    persisted: Option<SessionRuntimeState>,
    now_ms: u64,
) -> PipelineState {
    match pipeline {
        Some(s) => s,
        None => match persisted {
            Some(st) => if alive(st, now_ms) {
                if st.status@ == "running"@ {
                    PipelineState::Running
                } else if st.status@ == "paused"@ {
                    PipelineState::Paused
                } else {
                    PipelineState::Idle
                }
            } else {
                PipelineState::Idle
            },
            None => PipelineState::Idle,
        },
    }
}

/// The session status, from the state of an in-process pipeline (when there
/// is one) or else from the persisted session state at time `now_ms`.
pub fn session_status_cli(
    pipeline: Option<PipelineState>,
    persisted: &Option<SessionRuntimeState>,
    now_ms: u64,
) -> (r: crate::error::AppResult<SessionStatus>)
    ensures
        r matches Ok(s) && s.reports(cli_status(pipeline, *persisted, now_ms)),
{
    if let Some(st) = pipeline {
        return Ok(to_status(st));
    }
    if let Some(st) = persisted {
        if is_session_alive(st, now_ms) {
            let s = chars_of(st.status.as_str());
            if chars_eq_str(&s, "running") {
                return Ok(to_status(PipelineState::Running));
            } else if chars_eq_str(&s, "paused") {
                return Ok(to_status(PipelineState::Paused));
            } else {
                return Ok(to_status(PipelineState::Idle));
            }
        }
    }
    Ok(to_status(PipelineState::Idle))
}

/// What a CLI session command writes to the bus and reports.
pub struct SessionBusUpdate {
    /// The control record to write, if any.
    pub control: Option<SessionControl>,
    /// The runtime state to write, if any.
    pub state: Option<SessionRuntimeState>,
    /// The status reported to the caller.
    pub status: SessionStatus,
}

/// Starting from the CLI records a running session of this process.
pub fn start_session_cli(
    source_lang: String,
    target_lang: String,
    bidirectional: bool,
    pid: u32,
    now_ms: u64,
) -> (u: SessionBusUpdate)
    ensures
        u.control is None,
        u.state matches Some(st) && st.status@ == "running"@ && st.pid == pid && st.source_lang@
            == source_lang@ && st.target_lang@ == target_lang@ && st.bidirectional == bidirectional
            && st.last_heartbeat_unix_ms == now_ms && st.start_unix_ms == now_ms && st.tts_enabled
            && st.utterance_count == 0 && st.error_count == 0 && st.last_error is None,
        u.status.reports(PipelineState::Running),
{
    let st = runtime_state_record("running", source_lang, target_lang, bidirectional, pid, now_ms);
    SessionBusUpdate { control: None, state: Some(st), status: to_status(PipelineState::Running) }
}

/// Stopping from the CLI sends `stop` and records an idle session.
pub fn stop_session_cli(pid: u32, now_ms: u64) -> (u: SessionBusUpdate)
    ensures
        u.control matches Some(c) && c.command@ == "stop"@ && c.source_lang is None
            && c.target_lang is None && c.ts_unix_ms == now_ms,
        u.state matches Some(st) && st.status@ == "idle"@ && st.source_lang@.len() == 0
            && st.target_lang@.len() == 0 && !st.bidirectional && st.pid == pid && st.tts_enabled
            && st.start_unix_ms == now_ms && st.last_heartbeat_unix_ms == now_ms
            && st.utterance_count == 0 && st.error_count == 0 && st.last_error is None,
        u.status.reports(PipelineState::Idle),
{
    let control = control_record("stop", None, None, now_ms);
    let st = runtime_state_record("idle", String::new(), String::new(), false, pid, now_ms);
    SessionBusUpdate { control: Some(control), state: Some(st), status: to_status(PipelineState::Idle) }
}

/// The persisted session, if there is one, marked with a new status and a
/// heartbeat at `now_ms`.
pub fn update_runtime_status(persisted: Option<SessionRuntimeState>, status: &str, now_ms: u64) -> (r: Option<
    SessionRuntimeState,
>)
    ensures
        match r {
            Some(st) => persisted matches Some(p) && st.same_session(p) && st.status@ == status@
                && st.source_lang@ == p.source_lang@ && st.target_lang@ == p.target_lang@
                && st.last_heartbeat_unix_ms == now_ms,
            None => persisted is None,
        },
{
    match persisted {
        Some(mut st) => {
            st.mark_status(status, now_ms);
            Some(st)
        },
        None => None,
    }
}

/// Pausing from the CLI sends `pause` and marks a persisted session paused.
pub fn pause_session_cli(persisted: Option<SessionRuntimeState>, now_ms: u64) -> (u: SessionBusUpdate)
    ensures
        u.control matches Some(c) && c.command@ == "pause"@ && c.source_lang is None
            && c.target_lang is None && c.ts_unix_ms == now_ms,
        match u.state {
            Some(st) => persisted matches Some(p) && st.same_session(p) && st.status@ == "paused"@
                && st.source_lang@ == p.source_lang@ && st.target_lang@ == p.target_lang@
                && st.last_heartbeat_unix_ms == now_ms,
            None => persisted is None,
        },
        u.status.reports(PipelineState::Paused),
{
    let control = control_record("pause", None, None, now_ms);
    SessionBusUpdate {
        control: Some(control),
        state: update_runtime_status(persisted, "paused", now_ms),
        status: to_status(PipelineState::Paused),
    }
}

/// Resuming from the CLI sends `resume` and marks a persisted session running.
pub fn resume_session_cli(persisted: Option<SessionRuntimeState>, now_ms: u64) -> (u: SessionBusUpdate)
    ensures
        u.control matches Some(c) && c.command@ == "resume"@ && c.source_lang is None
            && c.target_lang is None && c.ts_unix_ms == now_ms,
        match u.state {
            Some(st) => persisted matches Some(p) && st.same_session(p) && st.status@
                == "running"@ && st.source_lang@ == p.source_lang@ && st.target_lang@
                == p.target_lang@ && st.last_heartbeat_unix_ms == now_ms,
            None => persisted is None,
        },
        u.status.reports(PipelineState::Running),
{
    let control = control_record("resume", None, None, now_ms);
    SessionBusUpdate {
        control: Some(control),
        state: update_runtime_status(persisted, "running", now_ms),
        status: to_status(PipelineState::Running),
    }
}

/// The interval between streaming translations of a session, from the
/// requested value, kept within 300..=5000 ms.
pub fn stream_translation_interval_ms(requested: u32) -> (ms: u64)
    ensures
        ms == if requested < 300 {
            300
        } else if requested > 5000 {
            5000
        } else {
            requested as u64
        },
{
    if requested < 300 {
        300
    } else if requested > 5000 {
        5000
    } else {
        requested as u64
    }
}

/// The least source characters for a streaming translation, from the requested
/// value, kept within 2..=64.
pub fn stream_translation_min_chars(requested: u32) -> (n: usize)
    ensures
        n == if requested < 2 {
            2
        } else if requested > 64 {
            64
        } else {
            requested as usize
        },
{
    if requested < 2 {
        2
    } else if requested > 64 {
        64
    } else {
        requested as usize
    }
}

/// The VAD frame length stored by the CLI configuration, kept within
/// 10..=200 ms.
pub fn vad_frame_ms_setting(requested: u32) -> (ms: u32)
    ensures
        ms == if requested < 10 {
            10
        } else if requested > 200 {
            200
        } else {
            requested
        },
{
    if requested < 10 {
        10
    } else if requested > 200 {
        200
    } else {
        requested
    }
}

/// The TTS pitch stored by the CLI configuration, kept within -50..=50.
pub fn tts_pitch_setting(requested: i32) -> (p: i32)
    ensures
        p == if requested < -50 {
            -50int
        } else if requested > 50 {
            50int
        } else {
            requested as int
        },
{
    if requested < -50 {
        -50
    } else if requested > 50 {
        50
    } else {
        requested
    }
}

/// Changing the languages from the CLI sends `update_languages` with both
/// languages and records them in a persisted session; the status reported is
/// the CLI status once that is done.
pub fn update_languages_cli(
    persisted: Option<SessionRuntimeState>,
    pipeline: Option<PipelineState>,
    source_lang: String,
    target_lang: String,
    now_ms: u64,
) -> (r: crate::error::AppResult<SessionBusUpdate>)
    ensures
        r matches Ok(u) && {
            &&& u.control matches Some(c) && c.command@ == "update_languages"@ && opt_view(c.source_lang)
                == Some(source_lang@) && opt_view(c.target_lang) == Some(target_lang@) && c.ts_unix_ms
                == now_ms
            &&& match u.state {
                Some(st) => persisted matches Some(p) && st.same_session(p) && st.status@ == p.status@
                    && st.source_lang@ == source_lang@ && st.target_lang@ == target_lang@
                    && st.last_heartbeat_unix_ms == now_ms,
                None => persisted is None,
            }
            &&& u.status.reports(cli_status(pipeline, u.state, now_ms))
        },
{
    let control = control_record("update_languages", Some(source_lang.as_str()), Some(target_lang.as_str()), now_ms);
    let state = match persisted {
        Some(mut st) => {
            st.set_languages(Some(source_lang), Some(target_lang), now_ms);
            Some(st)
        },
        None => None,
    };
    let status = match session_status_cli(pipeline, &state, now_ms) {
        Ok(s) => s,
        Err(e) => {
            return Err(e);
        },
    };
    Ok(SessionBusUpdate { control: Some(control), state, status })
}

/// A session cannot start while one is running or initializing.
pub fn ensure_not_running(state: Option<PipelineState>) -> (r: crate::error::AppResult<()>)
    ensures
        (state == Some(PipelineState::Running) || state == Some(PipelineState::Initializing)) <==> r is Err,
        r matches Err(e) ==> e matches crate::error::AppError::InvalidState(m) && m@
            == "session is already running"@,
{
    match state {
        Some(PipelineState::Running) | Some(PipelineState::Initializing) => Err(
            crate::error::AppError::InvalidState(owned("session is already running")),
        ),
        _ => Ok(()),
    }
}

/// Whether the CLI session runs ASR in an isolated worker process: only on
/// Windows; there the setting (ASCII-lowercased; `auto` when unset) forces it
/// on (`1`, `true`, `on`) or off (`0`, `false`, `off`), and otherwise English
/// sources are isolated.
pub open spec fn isolates_asr(on_windows: bool, setting: Option<Seq<char>>, source_lang: Seq<char>) -> bool {
    let v = match setting {
        Some(s) => crate::text::lower(s),
        None => "auto"@,
    };
    if !on_windows {
        false
    } else if v == "1"@ || v == "true"@ || v == "on"@ {
        true
    } else if v == "0"@ || v == "false"@ || v == "off"@ {
        false
    } else {
        crate::text::lower(source_lang) == "en"@
    }
}

/// Whether the CLI session runs ASR in an isolated worker process.
pub fn should_isolate_session_asr(on_windows: bool, setting: Option<&str>, source_lang: &str) -> (b: bool)
    ensures
        b == isolates_asr(on_windows, crate::governance::opt_ref_view(setting), source_lang@),
{
    if !on_windows {
        return false;
    }
    let v = match setting {
        Some(s) => crate::text::lower_chars(&chars_of(s)),
        None => chars_of("auto"),
    };
    proof {
        reveal_strlit("auto");
        assert(crate::text::lower("auto"@) =~= "auto"@);
    }
    if chars_eq_str(&v, "1") || chars_eq_str(&v, "true") || chars_eq_str(&v, "on") {
        true
    } else if chars_eq_str(&v, "0") || chars_eq_str(&v, "false") || chars_eq_str(&v, "off") {
        false
    } else {
        let l = crate::text::lower_chars(&chars_of(source_lang));
        chars_eq_str(&l, "en")
    }
}

} // verus!

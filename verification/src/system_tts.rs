//! Windows system speech as a TTS fallback: the PowerShell scripts that speak
//! a text into a WAV file, the order in which the host's PowerShell runtimes
//! and speech APIs are tried, and the verdict when every attempt failed.
use vstd::prelude::*;

use crate::powershell::{i32_to_decimal, ps_quote, ps_quoted, signed_decimal};
use crate::text::{chars_of, contains, contains_str, join, join_strings, lower, lower_chars, owned, push_str};
use crate::voice::{compact_summary, summarize_text};

verus! {

/// `text` inside a single-quoted PowerShell string on one line: each `'`
/// doubled, carriage returns and line feeds turned into spaces.
pub open spec fn speech_text(text: Seq<char>) -> Seq<char>
    decreases text.len(),
{
    if text.len() == 0 {
        text
    } else {
        let rest = speech_text(text.drop_last());
        let c = text.last();
        if c == '\'' {
            rest + seq!['\'', '\'']
        } else if c == '\r' || c == '\n' {
            rest.push(' ')
        } else {
            rest.push(c)
        }
    }
}

/// The text to speak, escaped for a single-quoted PowerShell string on one line.
pub fn escape_speech_text(text: &str) -> (r: String)
    ensures
        r@ == speech_text(text@),
{
    let v = chars_of(text);
    let mut out = String::new();
    let mut i: usize = 0;
    while i < v.len()
        invariant
            i <= v@.len(),
            v@ == text@,
            out@ == speech_text(v@.subrange(0, i as int)),
        decreases v.len() - i,
    {
        proof {
            assert(v@.subrange(0, i + 1).drop_last() == v@.subrange(0, i as int));
            assert(v@.subrange(0, i + 1).last() == v@[i as int]);
        }
        let c = v[i];
        if c == '\'' {
            crate::text::push_char(&mut out, '\'');
            crate::text::push_char(&mut out, '\'');
            assert(out@ == speech_text(v@.subrange(0, i as int)) + seq!['\'', '\'']);
        } else if c == '\r' || c == '\n' {
            crate::text::push_char(&mut out, ' ');
        } else {
            crate::text::push_char(&mut out, c);
        }
        i = i + 1;
    }
    assert(v@.subrange(0, v@.len() as int) == v@);
    out
}

/// The script that speaks `text` into the WAV file `wav` with
/// `System.Speech` at speech rate `rate`.
pub open spec fn system_speech_script_text(rate: int, wav: Seq<char>, text: Seq<char>) -> Seq<char> {
    "$ErrorActionPreference='Stop'; Add-Type -AssemblyName System.Speech | Out-Null; $s=$null; try { $s=New-Object System.Speech.Synthesis.SpeechSynthesizer; if ($null -eq $s) { throw 'SpeechSynthesizer is null' }; try { $s.Rate="@
        + signed_decimal(rate) + " } catch { }; $s.SetOutputToWaveFile('"@ + ps_quoted(wav)
        + "'); $s.Speak('"@ + speech_text(text)
        + "'); } finally { if ($null -ne $s) { $s.Dispose() } }; if (-not (Test-Path '"@ + ps_quoted(
        wav,
    ) + "')) { throw 'wav not created' }"@
}

/// The `System.Speech` script for `text`, `wav` and `rate`.
pub fn system_speech_script(rate: i32, wav: &str, text: &str) -> (r: String)
    ensures
        r@ == system_speech_script_text(rate as int, wav@, text@),
{
    let w = ps_quote(wav);
    let mut s = owned(
        "$ErrorActionPreference='Stop'; Add-Type -AssemblyName System.Speech | Out-Null; $s=$null; try { $s=New-Object System.Speech.Synthesis.SpeechSynthesizer; if ($null -eq $s) { throw 'SpeechSynthesizer is null' }; try { $s.Rate=",
    );
    push_str(&mut s, i32_to_decimal(rate).as_str());
    push_str(&mut s, " } catch { }; $s.SetOutputToWaveFile('");
    push_str(&mut s, w.as_str());
    push_str(&mut s, "'); $s.Speak('");
    push_str(&mut s, escape_speech_text(text).as_str());
    push_str(&mut s, "'); } finally { if ($null -ne $s) { $s.Dispose() } }; if (-not (Test-Path '");
    push_str(&mut s, w.as_str());
    push_str(&mut s, "')) { throw 'wav not created' }");
    s
}

/// The script that speaks `text` into the WAV file `wav` through the SAPI COM
/// objects at speech rate `rate`.
pub open spec fn sapi_file_script_text(rate: int, wav: Seq<char>, text: Seq<char>) -> Seq<char> {
    "$ErrorActionPreference='Stop'; $voice=$null; $stream=$null; try { $voice=New-Object -ComObject SAPI.SpVoice; if ($null -eq $voice) { throw 'SpVoice is null' }; try { $voice.Rate="@
        + signed_decimal(rate)
        + " } catch { }; $stream=New-Object -ComObject SAPI.SpFileStream; if ($null -eq $stream) { throw 'SpFileStream is null' }; $stream.Open('"@
        + ps_quoted(wav) + "', 3, $false); $voice.AudioOutputStream=$stream; [void]$voice.Speak('"@
        + speech_text(text)
        + "'); $stream.Close(); } finally { if ($null -ne $stream) { [void][System.Runtime.InteropServices.Marshal]::FinalReleaseComObject($stream) }; if ($null -ne $voice) { [void][System.Runtime.InteropServices.Marshal]::FinalReleaseComObject($voice) }; }; if (-not (Test-Path '"@
        + ps_quoted(wav) + "')) { throw 'wav not created' }"@
}

/// The SAPI script for `text`, `wav` and `rate`.
pub fn sapi_file_script(rate: i32, wav: &str, text: &str) -> (r: String)
    ensures
        r@ == sapi_file_script_text(rate as int, wav@, text@),
{
    let w = ps_quote(wav);
    let mut s = owned(
        "$ErrorActionPreference='Stop'; $voice=$null; $stream=$null; try { $voice=New-Object -ComObject SAPI.SpVoice; if ($null -eq $voice) { throw 'SpVoice is null' }; try { $voice.Rate=",
    );
    push_str(&mut s, i32_to_decimal(rate).as_str());
    push_str(
        &mut s,
        " } catch { }; $stream=New-Object -ComObject SAPI.SpFileStream; if ($null -eq $stream) { throw 'SpFileStream is null' }; $stream.Open('",
    );
    push_str(&mut s, w.as_str());
    push_str(&mut s, "', 3, $false); $voice.AudioOutputStream=$stream; [void]$voice.Speak('");
    push_str(&mut s, escape_speech_text(text).as_str());
    push_str(
        &mut s,
        "'); $stream.Close(); } finally { if ($null -ne $stream) { [void][System.Runtime.InteropServices.Marshal]::FinalReleaseComObject($stream) }; if ($null -ne $voice) { [void][System.Runtime.InteropServices.Marshal]::FinalReleaseComObject($voice) }; }; if (-not (Test-Path '",
    );
    push_str(&mut s, w.as_str());
    push_str(&mut s, "')) { throw 'wav not created' }");
    s
}

/// One way of running system speech: the PowerShell executable, the speech
/// API (`system_speech` or `sapi_file`) and the threading mode (`sta`).
pub struct SpeechAttempt {
    pub exe: &'static str,
    pub strategy: &'static str,
    pub sta: bool,
}

/// The attempts in the order the command line tool makes them: for each
/// PowerShell executable, each speech API, first in a single-threaded
/// apartment, then without one.
pub open spec fn attempt_order() -> Seq<(Seq<char>, Seq<char>, bool)> {
    let a = "powershell.exe"@;
    let b = "C:\\Windows\\System32\\WindowsPowerShell\\v1.0\\powershell.exe"@;
    seq![
        (a, "system_speech"@, true),
        (a, "system_speech"@, false),
        (a, "sapi_file"@, true),
        (a, "sapi_file"@, false),
        (b, "system_speech"@, true),
        (b, "system_speech"@, false),
        (b, "sapi_file"@, true),
        (b, "sapi_file"@, false),
    ]
}

/// The attempts, in order.
pub fn speech_attempts() -> (r: Vec<SpeechAttempt>)
    ensures
        r@.len() == 8,
        forall|i: int|
            0 <= i < 8 ==> ((#[trigger] r@[i]).exe@, r@[i].strategy@, r@[i].sta) == attempt_order()[i],
{
    let exes = crate::powershell::windows_powershell_candidates();
    let mut r: Vec<SpeechAttempt> = Vec::new();
    let mut e: usize = 0;
    while e < 2
        invariant
            exes@.len() == 2,
            exes@[0]@ == "powershell.exe"@,
            exes@[1]@ == "C:\\Windows\\System32\\WindowsPowerShell\\v1.0\\powershell.exe"@,
            e <= 2,
            r@.len() == 4 * e,
            forall|i: int|
                0 <= i < 4 * e ==> ((#[trigger] r@[i]).exe@, r@[i].strategy@, r@[i].sta) == attempt_order()[i],
        decreases 2 - e,
    {
        let exe = exes[e];
        r.push(SpeechAttempt { exe, strategy: "system_speech", sta: true });
        r.push(SpeechAttempt { exe, strategy: "system_speech", sta: false });
        r.push(SpeechAttempt { exe, strategy: "sapi_file", sta: true });
        r.push(SpeechAttempt { exe, strategy: "sapi_file", sta: false });
        e = e + 1;
    }
    r
}

/// The line recorded for a failed attempt: the executable, the threading mode,
/// the speech API and either `wav not created` (the script ran but wrote
/// nothing) or the error compacted to 140 characters.
pub open spec fn attempt_failure_text(
    exe: Seq<char>,
    sta: bool,
    strategy: Seq<char>,
    error: Option<Seq<char>>,
) -> Seq<char> {
    exe + " "@ + (if sta {
        "sta"@
    } else {
        "mta"@
    }) + " "@ + strategy + ": "@ + match error {
        Some(e) => compact_summary(e, 140),
        None => "wav not created"@,
    }
}

/// The line recorded for a failed attempt.
pub fn attempt_failure(attempt: &SpeechAttempt, error: Option<&str>) -> (r: String)
    ensures
        r@ == attempt_failure_text(
            attempt.exe@,
            attempt.sta,
            attempt.strategy@,
            crate::governance::opt_ref_view(error),
        ),
{
    let mut s = owned(attempt.exe);
    push_str(&mut s, " ");
    push_str(&mut s, if attempt.sta { "sta" } else { "mta" });
    push_str(&mut s, " ");
    push_str(&mut s, attempt.strategy);
    push_str(&mut s, ": ");
    match error {
        Some(e) => {
            let d = summarize_text(e, 140);
            push_str(&mut s, d.as_str());
        },
        None => push_str(&mut s, "wav not created"),
    }
    s
}

/// The first four failure lines, joined with ` | `.
pub open spec fn joined_failures(errors: Seq<Seq<char>>) -> Seq<char> {
    join(
        if errors.len() <= 4 {
            errors
        } else {
            errors.subrange(0, 4)
        },
        " | "@,
    )
}

/// The failures point at the host itself (permissions or a broken speech
/// runtime) rather than at one attempt.
pub open spec fn blocked_by_host(joined: Seq<char>) -> bool {
    let l = lower(joined);
    contains(l, "0x80070005"@) || contains(l, "access is denied"@) || contains(
        l,
        "object reference not set"@,
    )
}

/// The error once every attempt failed, and whether the host itself blocks
/// system speech.
pub open spec fn speech_failure_text(errors: Seq<Seq<char>>) -> (bool, Seq<char>) {
    let joined = joined_failures(errors);
    if blocked_by_host(joined) {
        (
            true,
            "System TTS is unavailable on this host (speech runtime/permissions). Keep sherpa-melo/edge as default and run `localtrans-cli tts-system-doctor` on this host."@,
        )
    } else {
        (false, "System TTS probe failed across strategies: "@ + joined)
    }
}

/// The error once every attempt failed, with whether the host blocks system
/// speech (which is then remembered as a host capability).
pub fn speech_failure(errors: &Vec<String>) -> (r: (bool, String))
    ensures
        (r.0, r.1@) == speech_failure_text(crate::governance::views(errors@)),
{
    let mut first: Vec<String> = Vec::new();
    let mut i: usize = 0;
    while i < errors.len() && i < 4
        invariant
            i <= errors@.len(),
            i <= 4,
            crate::governance::views(first@) == crate::governance::views(errors@).subrange(0, i as int),
        decreases errors.len() - i,
    {
        let ghost before = crate::governance::views(first@);
        first.push(errors[i].clone());
        assert(crate::governance::views(first@) =~= before.push(errors@[i as int]@));
        assert(crate::governance::views(errors@).subrange(0, i + 1) =~= crate::governance::views(
            errors@,
        ).subrange(0, i as int).push(errors@[i as int]@));
        i = i + 1;
    }
    proof {
        let vs = crate::governance::views(errors@);
        if vs.len() <= 4 {
            assert(vs.subrange(0, vs.len() as int) =~= vs);
        }
    }
    let joined = join_strings(&first, " | ");
    let l = lower_chars(&chars_of(joined.as_str()));
    if contains_str(&l, "0x80070005") || contains_str(&l, "access is denied") || contains_str(
        &l,
        "object reference not set",
    ) {
        (
            true,
            owned(
                "System TTS is unavailable on this host (speech runtime/permissions). Keep sherpa-melo/edge as default and run `localtrans-cli tts-system-doctor` on this host.",
            ),
        )
    } else {
        let mut m = owned("System TTS probe failed across strategies: ");
        push_str(&mut m, joined.as_str());
        (false, m)
    }
}

/// The doctor's probe that writes a WAV file with `System.Speech`.
pub open spec fn doctor_system_wav_script_text(wav: Seq<char>) -> Seq<char> {
    "$ErrorActionPreference='Stop'; Add-Type -AssemblyName System.Speech | Out-Null; $s=New-Object System.Speech.Synthesis.SpeechSynthesizer; if ($null -eq $s) { throw 'SpeechSynthesizer is null' }; $s.SetOutputToWaveFile('"@
        + ps_quoted(wav) + "'); $s.Speak('localtrans system speech doctor'); $s.Dispose(); if (-not (Test-Path '"@
        + ps_quoted(wav) + "')) { throw 'wav not created' }; Write-Output 'wav_created'"@
}

/// The doctor's `System.Speech` WAV probe for the file `wav`.
pub fn doctor_system_wav_script(wav: &str) -> (r: String)
    ensures
        r@ == doctor_system_wav_script_text(wav@),
{
    let w = ps_quote(wav);
    let mut s = owned(
        "$ErrorActionPreference='Stop'; Add-Type -AssemblyName System.Speech | Out-Null; $s=New-Object System.Speech.Synthesis.SpeechSynthesizer; if ($null -eq $s) { throw 'SpeechSynthesizer is null' }; $s.SetOutputToWaveFile('",
    );
    push_str(&mut s, w.as_str());
    push_str(&mut s, "'); $s.Speak('localtrans system speech doctor'); $s.Dispose(); if (-not (Test-Path '");
    push_str(&mut s, w.as_str());
    push_str(&mut s, "')) { throw 'wav not created' }; Write-Output 'wav_created'");
    s
}

/// The doctor's probe that writes a WAV file through the SAPI COM objects.
pub open spec fn doctor_sapi_wav_script_text(wav: Seq<char>) -> Seq<char> {
    "$ErrorActionPreference='Stop'; $v=New-Object -ComObject SAPI.SpVoice; $f=New-Object -ComObject SAPI.SpFileStream; if ($null -eq $v -or $null -eq $f) { throw 'SAPI object null' }; $f.Open('"@
        + ps_quoted(wav) + "', 3, $false); $v.AudioOutputStream=$f; [void]$v.Speak('localtrans sapi wav doctor'); $f.Close(); if (-not (Test-Path '"@
        + ps_quoted(wav) + "')) { throw 'wav not created' }; Write-Output 'wav_created'"@
}

/// The doctor's SAPI WAV probe for the file `wav`.
pub fn doctor_sapi_wav_script(wav: &str) -> (r: String)
    ensures
        r@ == doctor_sapi_wav_script_text(wav@),
{
    let w = ps_quote(wav);
    let mut s = owned(
        "$ErrorActionPreference='Stop'; $v=New-Object -ComObject SAPI.SpVoice; $f=New-Object -ComObject SAPI.SpFileStream; if ($null -eq $v -or $null -eq $f) { throw 'SAPI object null' }; $f.Open('",
    );
    push_str(&mut s, w.as_str());
    push_str(&mut s, "', 3, $false); $v.AudioOutputStream=$f; [void]$v.Speak('localtrans sapi wav doctor'); $f.Close(); if (-not (Test-Path '");
    push_str(&mut s, w.as_str());
    push_str(&mut s, "')) { throw 'wav not created' }; Write-Output 'wav_created'");
    s
}

} // verus!

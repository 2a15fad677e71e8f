use localtrans::system_tts::{
    attempt_failure, doctor_sapi_wav_script, doctor_system_wav_script, escape_speech_text, sapi_file_script, speech_attempts, speech_failure, system_speech_script,
};

#[test]
fn speech_text_is_one_quoted_line() {
    assert_eq!(escape_speech_text("It's\r\nfine"), "It''s  fine");
    assert_eq!(escape_speech_text(""), "");
}

#[test]
fn system_speech_scripts() {
    let s = system_speech_script(-3, "C:\\t\\a'b.wav", "don't");
    assert_eq!(
        s,
        "$ErrorActionPreference='Stop'; Add-Type -AssemblyName System.Speech | Out-Null; $s=$null; try { $s=New-Object System.Speech.Synthesis.SpeechSynthesizer; if ($null -eq $s) { throw 'SpeechSynthesizer is null' }; try { $s.Rate=-3 } catch { }; $s.SetOutputToWaveFile('C:\\t\\a''b.wav'); $s.Speak('don''t'); } finally { if ($null -ne $s) { $s.Dispose() } }; if (-not (Test-Path 'C:\\t\\a''b.wav')) { throw 'wav not created' }"
    );
    let p = sapi_file_script(10, "x.wav", "hi");
    assert!(p.starts_with("$ErrorActionPreference='Stop'; $voice=$null; $stream=$null; try { $voice=New-Object -ComObject SAPI.SpVoice;"));
    assert!(p.contains("try { $voice.Rate=10 } catch { };"));
    assert!(p.contains("$stream.Open('x.wav', 3, $false); $voice.AudioOutputStream=$stream; [void]$voice.Speak('hi'); $stream.Close();"));
    assert!(p.ends_with("if (-not (Test-Path 'x.wav')) { throw 'wav not created' }"));
}

#[test]
fn attempts_and_failures() {
    let a = speech_attempts();
    assert_eq!(a.len(), 8);
    assert_eq!((a[0].exe, a[0].strategy, a[0].sta), ("powershell.exe", "system_speech", true));
    assert_eq!((a[1].exe, a[1].strategy, a[1].sta), ("powershell.exe", "system_speech", false));
    assert_eq!((a[2].exe, a[2].strategy, a[2].sta), ("powershell.exe", "sapi_file", true));
    assert_eq!(a[4].exe, "C:\\Windows\\System32\\WindowsPowerShell\\v1.0\\powershell.exe");
    assert_eq!((a[7].strategy, a[7].sta), ("sapi_file", false));

    assert_eq!(attempt_failure(&a[1], None), "powershell.exe mta system_speech: wav not created");
    assert_eq!(attempt_failure(&a[2], Some("bad\n  thing ")), "powershell.exe sta sapi_file: bad | thing");

    let errs = vec![
        "e1".to_string(),
        "e2".to_string(),
        "e3".to_string(),
        "e4".to_string(),
        "Access is denied".to_string(),
    ];
    let (blocked, msg) = speech_failure(&errs);
    assert!(!blocked);
    assert_eq!(msg, "System TTS probe failed across strategies: e1 | e2 | e3 | e4");
    let (blocked, msg) = speech_failure(&vec!["x: HRESULT 0X80070005".to_string()]);
    assert!(blocked);
    assert!(msg.starts_with("System TTS is unavailable on this host (speech runtime/permissions). Keep"));
    let (blocked, _) = speech_failure(&Vec::new());
    assert!(!blocked);
}

#[test]
fn doctor_wav_probes() {
    assert_eq!(
        doctor_system_wav_script("C:\\O'a.wav"),
        "$ErrorActionPreference='Stop'; Add-Type -AssemblyName System.Speech | Out-Null; $s=New-Object System.Speech.Synthesis.SpeechSynthesizer; if ($null -eq $s) { throw 'SpeechSynthesizer is null' }; $s.SetOutputToWaveFile('C:\\O''a.wav'); $s.Speak('localtrans system speech doctor'); $s.Dispose(); if (-not (Test-Path 'C:\\O''a.wav')) { throw 'wav not created' }; Write-Output 'wav_created'"
    );
    assert_eq!(
        doctor_sapi_wav_script("d.wav"),
        "$ErrorActionPreference='Stop'; $v=New-Object -ComObject SAPI.SpVoice; $f=New-Object -ComObject SAPI.SpFileStream; if ($null -eq $v -or $null -eq $f) { throw 'SAPI object null' }; $f.Open('d.wav', 3, $false); $v.AudioOutputStream=$f; [void]$v.Speak('localtrans sapi wav doctor'); $f.Close(); if (-not (Test-Path 'd.wav')) { throw 'wav not created' }; Write-Output 'wav_created'"
    );
}

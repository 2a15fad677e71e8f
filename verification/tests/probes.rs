use base64::Engine;
use localtrans::asr_models::{find_model_file, resolve_sherpa_model_dir, AsrModelDir, DirEntryInfo};
use localtrans::devices::{parse_decimal_usize, select_input_device, InputDeviceEntry};
use localtrans::powershell::{
    encoded_probe_command, gui_start_command, probe_outcome, ps_quote, utf16le_bytes,
    windows_powershell_candidates, worker_start_command, wrap_probe_script,
};
use localtrans::session::should_isolate_session_asr;
use localtrans::voice::{system_doctor_failure, system_doctor_recommendations, TtsDoctorCheck};

fn dev(host: &str, index: usize, name: Option<&str>) -> InputDeviceEntry {
    InputDeviceEntry { host: host.to_string(), index, name: name.map(|n| n.to_string()) }
}

fn chars(s: &str) -> Vec<char> {
    s.chars().collect()
}

#[test]
fn decimal_parsing_follows_str_parse() {
    assert_eq!(parse_decimal_usize(&chars("42")), Some(42));
    assert_eq!(parse_decimal_usize(&chars("+7")), Some(7));
    assert_eq!(parse_decimal_usize(&chars("+")), None);
    assert_eq!(parse_decimal_usize(&chars("")), None);
    assert_eq!(parse_decimal_usize(&chars("-1")), None);
    assert_eq!(parse_decimal_usize(&chars("1a")), None);
    assert_eq!(parse_decimal_usize(&chars("99999999999999999999999")), None);
}

#[test]
fn input_device_selection() {
    let hosts = vec!["Wasapi".to_string(), "Asio".to_string()];
    let devices = vec![dev("Wasapi", 0, Some("Mic")), dev("Wasapi", 1, None), dev("Asio", 0, Some("Mic"))];
    assert_eq!(select_input_device("host::Asio::input::0::whatever", &hosts, &devices), Ok(2));
    assert_eq!(select_input_device("host::Wasapi::input::0::Mic", &hosts, &devices), Ok(0));
    assert_eq!(select_input_device("host::Wasapi::input::1", &hosts, &devices), Ok(1));
    assert_eq!(select_input_device("Mic", &hosts, &devices), Ok(2));
    assert_eq!(select_input_device("input::0::Mic", &hosts, &devices), Ok(2));
    assert_eq!(select_input_device("host::Jack::input::0::Mic", &hosts, &devices), Err("Device not found: host::Jack::input::0::Mic".to_string()));
    assert_eq!(select_input_device("Speaker", &hosts, &devices), Err("Device not found: Speaker".to_string()));
}

#[test]
fn powershell_candidates_and_wrapping() {
    let c = windows_powershell_candidates();
    assert_eq!(c[0], "powershell.exe");
    let w = wrap_probe_script("Write-Output 1");
    assert!(w.starts_with("$ProgressPreference='SilentlyContinue'; $ErrorActionPreference='Stop'; try { Write-Output 1 } catch { "));
    assert!(w.ends_with("exit 87; }"));
}

#[test]
fn utf16_and_base64_encoding() {
    assert_eq!(utf16le_bytes("A\u{1F600}"), vec![0x41, 0x00, 0x3D, 0xD8, 0x00, 0xDE]);
    let enc = encoded_probe_command("x");
    let expected_bytes = utf16le_bytes(&wrap_probe_script("x"));
    assert_eq!(enc, base64::engine::general_purpose::STANDARD.encode(expected_bytes));
    assert!(enc.len() % 4 == 0);
}

#[test]
fn probe_outcomes() {
    assert_eq!(probe_outcome("voices=2\r\n", "", true, Some(0)), Ok("voices=2".to_string()));
    assert_eq!(probe_outcome("noise __LTERR__  access is denied \n", "", false, Some(87)), Err("access is denied".to_string()));
    assert_eq!(probe_outcome("out", "bad\nworse", false, Some(-1)), Err("powershell probe failed (status Some(-1)): bad | worse out".to_string()));
    assert_eq!(probe_outcome("", "", false, None), Err("powershell probe failed (status None):  ".to_string()));
}

#[test]
fn doctor_recommendations_follow_the_checks() {
    let checks = vec![
        TtsDoctorCheck { name: "tts_tmp_dir_write".to_string(), ok: false, detail: "Access is denied".to_string() },
        TtsDoctorCheck { name: "system_speech_init".to_string(), ok: true, detail: "voices=1".to_string() },
    ];
    let recs = system_doctor_recommendations(&checks);
    assert_eq!(recs.len(), 3);
    assert!(recs[0].starts_with("Detected E_ACCESSDENIED"));
    assert!(recs[2].starts_with("Grant write permission"));
    assert_eq!(system_doctor_failure(&checks), "system-doctor failed: tts_tmp_dir_write: Access is denied");
    let ok = vec![TtsDoctorCheck { name: "system_speech_init".to_string(), ok: true, detail: "voices=1".to_string() }];
    assert_eq!(system_doctor_recommendations(&ok), vec!["No obvious environment blocker detected by doctor.".to_string()]);
}

#[test]
fn model_files_and_sherpa_directory() {
    let entries = vec![
        DirEntryInfo { name: "encoder.int8.onnx".to_string(), is_file: true },
        DirEntryInfo { name: "encoder-epoch-99-avg-1.onnx".to_string(), is_file: true },
    ];
    assert_eq!(find_model_file(&entries, "encoder"), "encoder-epoch-99-avg-1.onnx");
    assert_eq!(find_model_file(&entries, "joiner"), "joiner.onnx");
    let base = AsrModelDir { path: "/b".to_string(), name: "b".to_string(), entries: vec![], size: 0 };
    assert_eq!(resolve_sherpa_model_dir(&base, &vec![]), "/b");
    let para = AsrModelDir {
        path: "/b/p".to_string(),
        name: "p".to_string(),
        entries: vec![
            DirEntryInfo { name: "tokens.txt".to_string(), is_file: true },
            DirEntryInfo { name: "model.onnx".to_string(), is_file: true },
        ],
        size: 5,
    };
    assert_eq!(resolve_sherpa_model_dir(&base, &vec![para]), "/b/p");
}

#[test]
fn asr_isolation_policy() {
    assert!(!should_isolate_session_asr(false, Some("1"), "en"));
    assert!(should_isolate_session_asr(true, Some("TRUE"), "zh"));
    assert!(!should_isolate_session_asr(true, Some("off"), "en"));
    assert!(should_isolate_session_asr(true, None, "EN"));
    assert!(!should_isolate_session_asr(true, Some("auto"), "zh"));
}

#[test]
fn start_process_commands_quote_paths() {
    assert_eq!(ps_quote("it's"), "it''s");
    assert_eq!(ps_quote(""), "");
    assert_eq!(
        gui_start_command("C:\\O'Neil\\localtrans.exe", "C:\\O'Neil"),
        "Start-Process -FilePath 'C:\\O''Neil\\localtrans.exe' -WorkingDirectory 'C:\\O''Neil'"
    );
    assert_eq!(
        worker_start_command("C:\\a\\cli.exe", "C:\\a"),
        "Start-Process -FilePath 'C:\\a\\cli.exe' -ArgumentList 'session-worker' -WorkingDirectory 'C:\\a' -WindowStyle Hidden"
    );
}

use fontick::photoshop::macos::{
    apple_string, do_javascript_script, expected_path_setting, is_photoshop_process,
    normalize_path as mac_normalize_path, osascript_result, path_matches, photoshop_pid_in,
    photoshop_running_in, verify_connected_path as mac_verify_connected_path,
};
use fontick::photoshop::macos::{MacConnect, PlatformClient as MacClient};
use fontick::photoshop::unsupported::PlatformClient;
use fontick::photoshop::windows::{
    is_com_busy_error, normalize_path as win_normalize_path, verify_connected_path,
    wants_path_check, PlatformClient as WinClient, WinConnect,
};
use fontick::text::{lines, parse_i32, IntErrorKind};

const UNSUPPORTED: &str = "Photoshop integration is only supported on Windows and macOS";

#[test]
fn apple_string_quotes_and_escapes() {
    assert_eq!(apple_string("plain"), "\"plain\"");
    assert_eq!(apple_string("a\\b\"c\rd\ne"), "\"a\\\\b\\\"c\\rd\\ne\"");
}

#[test]
fn applescript_runs_the_jsx_file() {
    let script = do_javascript_script("/tmp/a \"b\".jsx");
    assert!(script.contains("tell application id \"com.adobe.Photoshop\""));
    assert!(script.contains("do javascript file (POSIX file \"/tmp/a \\\"b\\\".jsx\")"));
}

#[test]
fn mac_paths_match_case_insensitively_and_by_prefix_directory() {
    assert_eq!(mac_normalize_path("  /Applications/Adobe Photoshop 2024/ "), "/applications/adobe photoshop 2024");
    assert!(path_matches("/Applications/Adobe Photoshop 2024", "/applications/adobe photoshop 2024/"));
    assert!(path_matches(
        "/Applications/Adobe Photoshop 2024/Adobe Photoshop 2024.app",
        "/Applications/Adobe Photoshop 2024"
    ));
    assert!(!path_matches("/Applications/Adobe Photoshop 2024x", "/Applications/Adobe Photoshop 2024"));
    assert_eq!(
        mac_verify_connected_path("/Other", "/Applications/Adobe Photoshop 2024"),
        Err("Connected to wrong Photoshop: /Other".to_string())
    );
    assert_eq!(mac_verify_connected_path("/A/B", "/a"), Ok(()));
}

#[test]
fn expected_path_is_trimmed_and_blank_means_none() {
    assert_eq!(expected_path_setting(Some("  /A  ")), Some("/A".to_string()));
    assert_eq!(expected_path_setting(Some("   ")), None);
    assert_eq!(expected_path_setting(None), None);
}

#[test]
fn recognises_photoshop_processes() {
    assert!(is_photoshop_process(
        "  /Applications/Adobe Photoshop 2024/Adobe Photoshop 2024.app/Contents/MacOS/Adobe Photoshop 2024 "
    ));
    assert!(is_photoshop_process("/opt/Adobe Photoshop Beta"));
    assert!(!is_photoshop_process("/Applications/Safari.app/Contents/MacOS/Safari"));
    assert!(!is_photoshop_process("Adobe Photoshop/.."));
    assert!(!is_photoshop_process(""));
}

#[test]
fn finds_photoshop_in_process_lists() {
    let ps = "/sbin/launchd\n/Applications/Adobe Photoshop 2024/Adobe Photoshop 2024.app/Contents/MacOS/Adobe Photoshop 2024\r\n";
    assert!(photoshop_running_in(ps));
    assert!(!photoshop_running_in("/sbin/launchd\n/usr/bin/zsh\n"));
    assert!(!photoshop_running_in(""));
}

#[test]
fn reads_photoshop_pid_from_process_list() {
    let ps = "  1 /sbin/launchd\n 4242 /Applications/Adobe Photoshop 2024/Adobe Photoshop 2024.app/Contents/MacOS/Adobe Photoshop 2024\n";
    assert_eq!(photoshop_pid_in(ps), Ok(4242));
    assert_eq!(
        photoshop_pid_in("  1 /sbin/launchd\n"),
        Err("Photoshop 未运行，请先打开目标 Photoshop。".to_string())
    );
    assert_eq!(
        photoshop_pid_in("99999999999 /opt/Adobe Photoshop\n"),
        Err("无法解析 Photoshop PID：number too large to fit in target type".to_string())
    );
    assert_eq!(
        photoshop_pid_in("12a /opt/Adobe Photoshop\n"),
        Err("无法解析 Photoshop PID：invalid digit found in string".to_string())
    );
    // A line without a command is skipped.
    assert_eq!(photoshop_pid_in("7\n8 /opt/Adobe Photoshop"), Ok(8));
}

#[test]
fn parses_i32_like_std() {
    let p = |s: &str| parse_i32(&s.chars().collect::<Vec<_>>());
    assert_eq!(p("0"), Ok(0));
    assert_eq!(p("+17"), Ok(17));
    assert_eq!(p("-2147483648"), Ok(i32::MIN));
    assert_eq!(p("2147483647"), Ok(i32::MAX));
    assert_eq!(p("2147483648"), Err(IntErrorKind::PosOverflow));
    assert_eq!(p("-2147483649"), Err(IntErrorKind::NegOverflow));
    assert_eq!(p(""), Err(IntErrorKind::Empty));
    assert_eq!(p("-"), Err(IntErrorKind::InvalidDigit));
    assert_eq!(p("1 2"), Err(IntErrorKind::InvalidDigit));
    assert_eq!(p("99999999999x"), Err(IntErrorKind::PosOverflow));
    for s in ["0", "+17", "-5", "2147483648", "", "-", "+", "1 2", "-2147483649", "99999999999x", "１"] {
        assert_eq!(p(s).ok(), s.parse::<i32>().ok(), "{s}");
    }
}

#[test]
fn lines_follow_str_lines() {
    for text in ["", "a", "a\n", "a\r\nb", "\n", "a\n\nb\r", "x\r\n\r\n", "\r"] {
        let ours: Vec<String> = lines(text).iter().map(|l| l.iter().collect()).collect();
        let std_lines: Vec<String> = text.lines().map(|l| l.to_string()).collect();
        assert_eq!(ours, std_lines, "{text:?}");
    }
}

#[test]
fn osascript_results() {
    assert_eq!(osascript_result(true, "done\r\n\n", "", "exit status: 0"), Ok("done".to_string()));
    assert_eq!(
        osascript_result(false, "", "  execution error: Not authorized (-1743)\n", "exit status: 1"),
        Err("未获准控制 Photoshop。请在 macOS“系统设置 > 隐私与安全性 > 自动化”中允许 Fontick 控制 Photoshop。".to_string())
    );
    assert_eq!(
        osascript_result(false, "", "  \n", "exit status: 1"),
        Err("osascript 失败：exit status: 1".to_string())
    );
    assert_eq!(
        osascript_result(false, "ignored", " boom \n", "exit status: 1"),
        Err("boom".to_string())
    );
}

#[test]
fn windows_paths_and_busy_errors() {
    assert_eq!(win_normalize_path(" C:\\Program Files\\Adobe\\Photoshop\\/ "), "c:\\program files\\adobe\\photoshop");
    assert_eq!(verify_connected_path("C:\\PS\\", "c:\\ps"), Ok(()));
    assert_eq!(
        verify_connected_path("C:\\PS2", "c:\\ps"),
        Err("Connected to wrong Photoshop: C:\\PS2".to_string())
    );
    assert!(wants_path_check(Some(" C:\\PS ")));
    assert!(!wants_path_check(Some("  ")));
    assert!(!wants_path_check(None));
    assert!(is_com_busy_error("Error { code: HRESULT(0x80010001), message: \"Call was rejected by callee.\" }"));
    assert!(is_com_busy_error("HRESULT(0x8001010A)"));
    assert!(is_com_busy_error("RPC_E_SERVERCALL_RETRYLATER"));
    assert!(is_com_busy_error("rpc_e_call_rejected"));
    assert!(!is_com_busy_error("HRESULT(0x80004005)"));
}

#[test]
fn without_an_integration_every_request_fails() {
    assert_eq!(PlatformClient::active(None).err(), Some(UNSUPPORTED.to_string()));
    assert_eq!(PlatformClient.do_javascript("1;").err(), Some(UNSUPPORTED.to_string()));
}

const PS_LIST: &str = "/sbin/launchd\n/Applications/Adobe Photoshop 2024/Adobe Photoshop 2024.app/Contents/MacOS/Adobe Photoshop 2024\n";

#[test]
fn mac_client_connects_and_checks_the_installation() {
    let expected = match MacClient::active(Some(" /applications/adobe photoshop 2024 "), Ok(PS_LIST.into())) {
        Ok(MacConnect::NeedPath { expected }) => expected,
        _ => panic!("an expected path asks for the installation path"),
    };
    assert_eq!(expected, "/applications/adobe photoshop 2024");
    let c = MacClient::checked(expected.clone(), Ok("/Applications/Adobe Photoshop 2024/".to_string())).unwrap();
    assert_eq!(c.expected_path.as_deref(), Some("/applications/adobe photoshop 2024"));
    let c = match MacClient::active(Some("  "), Ok(PS_LIST.into())) {
        Ok(MacConnect::Connected(c)) => c,
        _ => panic!("no path read without an expected path"),
    };
    assert!(c.expected_path.is_none());
    assert!(matches!(MacClient::active(None, Ok(PS_LIST.into())), Ok(MacConnect::Connected(_))));
    assert_eq!(
        MacClient::checked("/Other".to_string(), Ok("/Applications/Adobe Photoshop 2024/".to_string())).err(),
        Some("Connected to wrong Photoshop: /Applications/Adobe Photoshop 2024/".to_string())
    );
    assert!(matches!(
        MacClient::active(None, Ok("/sbin/launchd\n".into())),
        Err(e) if e == "Photoshop 未运行，请先打开目标 Photoshop。"
    ));
    assert!(matches!(MacClient::active(None, Err("ps failed".into())), Err(e) if e == "ps failed"));
    assert_eq!(
        MacClient::checked("/x".to_string(), Err("osascript 失败".into())).err(),
        Some("osascript 失败".to_string())
    );
    let run = |jsx: &str| -> Result<String, String> { Ok(format!("ran {jsx}")) };
    assert_eq!(c.version(run), Ok("ran String(app.version);".to_string()));
    assert_eq!(c.path(run), Ok("ran String(app.path);".to_string()));
    assert_eq!(c.do_javascript("1+1;", run), Ok("ran 1+1;".to_string()));
}

#[test]
fn windows_client_checks_the_path_property() {
    let props = |app: &u32, name: &str| -> Result<String, String> {
        assert_eq!(*app, 7);
        Ok(format!("C:\\PS\\{name}\\"))
    };
    let (app, expected) = match WinClient::active(Some("c:\\ps\\path"), Ok(7u32)) {
        Ok(WinConnect::NeedPath { app, expected }) => (app, expected),
        _ => panic!("an expected path asks for the Path property"),
    };
    assert_eq!((app, expected.as_str()), (7, "c:\\ps\\path"));
    let c = WinClient::checked(app, &expected, props(&app, "Path")).unwrap();
    assert_eq!(c.app, 7);
    assert_eq!(
        WinClient::checked(7u32, "c:\\other", props(&7, "Path")).err(),
        Some("Connected to wrong Photoshop: C:\\PS\\Path\\".to_string())
    );
    assert_eq!(
        WinClient::checked(7u32, "c:\\other", Err("property failed".into())).err(),
        Some("property failed".to_string())
    );
    assert!(matches!(
        WinClient::active(Some("c:\\other"), Err::<u32, String>("no COM".into())),
        Err(e) if e == "no COM"
    ));
    assert!(matches!(WinClient::active(None, Ok(7u32)), Ok(WinConnect::Connected(c)) if c.app == 7));
    assert!(matches!(WinClient::active(Some("  "), Ok(7u32)), Ok(WinConnect::Connected(_))));
    assert_eq!(c.version(props), Ok("C:\\PS\\Version\\".to_string()));
    let invoke = |_: &u32, method: &str, jsx: &str| -> Result<String, String> {
        Ok(format!("{method}({jsx})"))
    };
    assert_eq!(c.do_javascript("x;", invoke), Ok("DoJavaScript(x;)".to_string()));
}

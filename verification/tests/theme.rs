use fontick::theme::{
    is_probe_output, newest_probe, running_photoshop_app_name, theme_result, ProbeFile,
};

#[test]
fn theme_must_not_be_blank() {
    let ok = theme_result(Some("kPanelBrightnessDarkGray".into()), "/tmp/p.json".into()).unwrap();
    assert!(ok.ok);
    assert_eq!(ok.theme, "kPanelBrightnessDarkGray");
    assert_eq!(ok.path, "/tmp/p.json");
    assert_eq!(
        theme_result(Some("  ".into()), "/tmp/p.json".into()).err(),
        Some("没有读取到 Photoshop 主题".to_string())
    );
    assert_eq!(
        theme_result(None, "/tmp/p.json".into()).err(),
        Some("没有读取到 Photoshop 主题".to_string())
    );
}

#[test]
fn app_name_is_the_bundle_stem() {
    let ps = "/sbin/launchd\n  /Applications/Adobe Photoshop 2025/Adobe Photoshop 2025.app/Contents/MacOS/Adobe Photoshop 2025  \n";
    assert_eq!(running_photoshop_app_name(ps), Ok("Adobe Photoshop 2025".to_string()));
    assert_eq!(
        running_photoshop_app_name("/Applications/Safari.app/Contents/MacOS/Safari\n"),
        Err("Photoshop 未运行，请先打开目标 Photoshop。".to_string())
    );
    assert_eq!(
        running_photoshop_app_name(".app/Contents/MacOS/Adobe Photoshop"),
        Ok(".app".to_string())
    );
}

#[test]
fn probe_output_is_recognised_by_name() {
    assert!(is_probe_output(Some("fontick-psjs-theme-probe.json")));
    assert!(!is_probe_output(Some("other.json")));
    assert!(!is_probe_output(None));
}

#[test]
fn newest_fresh_probe_wins_and_ties_keep_the_first() {
    let files = [
        ProbeFile { len: 10, modified: 50 },
        ProbeFile { len: 10, modified: 200 },
        ProbeFile { len: 0, modified: 900 },
        ProbeFile { len: 10, modified: 200 },
        ProbeFile { len: 10, modified: 150 },
    ];
    assert_eq!(newest_probe(&files, 100), Some(1));
    assert_eq!(newest_probe(&files, 200), None);
    assert_eq!(newest_probe(&[], 0), None);
}

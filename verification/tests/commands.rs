use fontick::commands::{
    apply_font, apply_result, check_post_script_name, font_items, photoshop_status,
};
use fontick::photoshop::RawFont;
use fontick::search::build_search_text;

#[test]
fn font_items_keep_order_index_and_search_text() {
    let fonts = vec![
        RawFont {
            name: "宋体".into(),
            family: "宋体".into(),
            style: "Regular".into(),
            post_script_name: "SimSun".into(),
        },
        RawFont {
            name: "Arial Bold".into(),
            family: "Arial".into(),
            style: "Bold".into(),
            post_script_name: "Arial-BoldMT".into(),
        },
    ];
    let items = font_items(fonts);
    assert_eq!(items.len(), 2);
    assert_eq!(items[0].source_index, 0);
    assert_eq!(items[1].source_index, 1);
    assert_eq!(items[1].post_script_name, "Arial-BoldMT");
    assert_eq!(items[0].search_text, build_search_text("宋体", "宋体", "Regular", "SimSun"));
    assert!(items[0].search_text.contains("song ti"));
}

#[test]
fn apply_result_is_ok_only_for_zero() {
    let r = apply_result("Arial".into(), "0".into());
    assert!(r.ok);
    assert_eq!(r.result, "0");
    assert_eq!(r.post_script_name, "Arial");
    assert!(!apply_result("Arial".into(), "NO_TEXT_LAYER".into()).ok);
}

#[test]
fn apply_requires_a_postscript_name() {
    assert_eq!(check_post_script_name("  "), Err("postScriptName is empty".to_string()));
    assert_eq!(check_post_script_name("Arial"), Ok(()));
    assert_eq!(
        apply_font("   ".into(), Ok("0".into())).err(),
        Some("postScriptName is empty".to_string())
    );
    let r = apply_font("Arial".into(), Ok("0".into())).unwrap();
    assert!(r.ok && r.result == "0" && r.post_script_name == "Arial");
    assert!(!apply_font("Arial".into(), Ok("NO_DOCUMENT".into())).unwrap().ok);
    assert_eq!(apply_font("Arial".into(), Err("busy".into())).err(), Some("busy".to_string()));
}

#[test]
fn status_passes_on_the_first_error() {
    let s = photoshop_status(Ok("/PS".into()), Ok("25.0".into())).unwrap();
    assert!(s.ok && s.path == "/PS" && s.version == "25.0");
    assert_eq!(
        photoshop_status(Err("no path".into()), Err("no version".into())).err(),
        Some("no path".to_string())
    );
    assert_eq!(
        photoshop_status(Ok("/PS".into()), Err("no version".into())).err(),
        Some("no version".to_string())
    );
}

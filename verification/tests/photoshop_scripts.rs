use fontick::composite_font::{CompiledCompositeFont, CompiledRange, CompiledRegexRule};
use fontick::photoshop::composite_font::make_apply_jsx as make_composite_jsx;
use fontick::photoshop::scripts::COMPOSITE_HEAD;
use serde_json::Value;
use fontick::photoshop::scripts::LIST_FONTS_JSX;
use fontick::photoshop::{
    fonts_from_payload, js_string, make_apply_jsx as make_font_jsx, make_apply_range_jsx,
    RawFont, RawFontPayload,
};

/// The compiled font's configuration, as the application serialises it.
fn config_json(c: &CompiledCompositeFont) -> String {
    let mut m = serde_json::Map::new();
    m.insert("name".into(), Value::String(c.name.clone()));
    m.insert(
        "fonts".into(),
        Value::Array(c.fonts.iter().map(|f| Value::String(f.clone())).collect()),
    );
    let ranges = c
        .unicode_ranges
        .iter()
        .map(|r| {
            let mut o = serde_json::Map::new();
            o.insert("from".into(), Value::from(r.from));
            o.insert("to".into(), Value::from(r.to));
            o.insert("fontIndex".into(), Value::from(r.font_index));
            Value::Object(o)
        })
        .collect();
    m.insert("unicodeRanges".into(), Value::Array(ranges));
    let rules = c
        .custom_rules
        .iter()
        .map(|r| {
            let mut o = serde_json::Map::new();
            o.insert("name".into(), Value::String(r.name.clone()));
            o.insert("pattern".into(), Value::String(r.pattern.clone()));
            o.insert("fontIndex".into(), Value::from(r.font_index));
            Value::Object(o)
        })
        .collect();
    m.insert("customRules".into(), Value::Array(rules));
    serde_json::to_string(&Value::Object(m)).unwrap()
}

fn make_apply_jsx(c: &CompiledCompositeFont) -> Result<String, String> {
    Ok(make_composite_jsx(&config_json(c)))
}

fn minimal_compiled() -> CompiledCompositeFont {
    CompiledCompositeFont {
        name: "Minimal".into(),
        fonts: vec!["Base-Regular".into()],
        unicode_ranges: Vec::new(),
        custom_rules: Vec::new(),
    }
}

#[test]
fn embeds_config_as_safe_json() {
    let compiled = CompiledCompositeFont {
        name: "引号\"测试".into(),
        fonts: vec!["Base\\Regular".into(), "Latin\"Bold".into()],
        unicode_ranges: vec![CompiledRange {
            from: 65,
            to: 90,
            font_index: 1,
        }],
        custom_rules: vec![CompiledRegexRule {
            name: "rule".into(),
            pattern: "[A-Z]+".into(),
            font_index: 1,
        }],
    };
    let jsx = make_apply_jsx(&compiled).unwrap();
    assert!(jsx.contains("Base\\\\Regular"));
    assert!(jsx.contains("Latin\\\"Bold"));
    assert!(jsx.contains("function ApplyCompositeFont"));
}

#[test]
fn jsx_has_one_mutating_set_action() {
    let jsx = make_apply_jsx(&minimal_compiled()).unwrap();
    assert_eq!(
        jsx.matches("executeAction(stringIDToTypeID(\"set\")")
            .count(),
        1
    );
}

#[test]
fn preserves_style_ranges_beyond_text_length() {
    let jsx = make_apply_jsx(&minimal_compiled()).unwrap();
    assert!(jsx.contains("if (sourceFrom >= text.length)"));
    assert!(jsx.contains("Math.max(sourceFrom, text.length)"));
    assert!(jsx.contains("if (text.length === 0) return null;"));
}

#[test]
fn applies_selected_text_layers_by_id_in_one_history_state() {
    let jsx = make_apply_jsx(&minimal_compiled()).unwrap();
    assert!(jsx.contains("stringIDToTypeID(\"targetLayersIDs\")"));
    assert!(jsx.contains("setRef.putIdentifier(stringIDToTypeID(\"layer\"), pending.layerId);"));
    assert!(jsx.contains("app.activeDocument.suspendHistory("));
    assert!(!jsx.contains("app.activeDocument.activeLayer.kind"));
}

#[test]
fn zero_length_regex_advances_without_assigning_units() {
    let jsx = make_apply_jsx(&minimal_compiled()).unwrap();
    assert!(jsx.contains(
        "if (match[0].length === 0) {\n                regex.lastIndex++;\n                continue;"
    ));
}

#[test]
fn drops_read_only_base_parent_style_before_reusing_style() {
    let jsx = make_apply_jsx(&minimal_compiled()).unwrap();
    assert!(
        jsx.contains("if (style.hasKey(baseParentStyleKey)) style.erase(baseParentStyleKey);")
    );
}

#[test]
fn composite_script_embeds_the_configuration_verbatim() {
    let jsx = make_composite_jsx("{\"name\":\"X\"}");
    assert!(jsx.starts_with(COMPOSITE_HEAD));
    assert!(jsx[COMPOSITE_HEAD.len()..].starts_with("{\"name\":\"X\"};"));
    assert!(jsx.contains("function ApplyCompositeFont"));
}

#[test]
fn js_string_escapes_as_json() {
    assert_eq!(js_string("plain"), "\"plain\"");
    assert_eq!(js_string("a\"b\\c\nd"), "\"a\\\"b\\\\c\\nd\"");
    assert_eq!(js_string("宋体"), "\"宋体\"");
    assert_eq!(js_string(""), "\"\"");
    assert_eq!(js_string("a\u{8}\u{c}\t\u{1}\u{1f}"), "\"a\\b\\f\\t\\u0001\\u001f\"");
}

#[test]
fn whole_layer_script_names_the_font_once() {
    let jsx = make_font_jsx("Font\"Name");
    assert!(jsx.contains("style.putString(stringIDToTypeID(\"fontPostScriptName\"), \"Font\\\"Name\");"));
    assert!(jsx.contains("function ApplyFont()"));
    assert!(jsx.contains("return \"NO_TEXT_LAYER\";"));
    assert!(jsx.trim_end().ends_with("ApplyFont();"));
}

#[test]
fn range_script_embeds_font_selection_and_prefix() {
    let jsx = make_apply_range_jsx("Bold", "选\"中", "前\n缀");
    assert!(jsx.contains("var fontPostScriptName = \"Bold\";"));
    assert!(jsx.contains("var selectedText = NormalizeText(\"选\\\"中\");"));
    assert!(jsx.contains("var absolutePrefix = NormalizeText(\"前\\n缀\");"));
    assert!(jsx.trim_end().ends_with("ApplySelectedFont();"));
}

#[test]
fn list_script_reports_fonts_as_json() {
    assert!(LIST_FONTS_JSX.contains("var out = '{\"ok\":true,\"fonts\":[';"));
    assert!(LIST_FONTS_JSX.trim_end().ends_with("ListFonts();"));
}

#[test]
fn font_list_payload_must_report_success() {
    let font = RawFont {
        name: "Arial".into(),
        family: "Arial".into(),
        style: "Regular".into(),
        post_script_name: "ArialMT".into(),
    };
    let ok = fonts_from_payload(RawFontPayload { ok: true, fonts: vec![font.clone()] });
    assert_eq!(ok, Ok(vec![font]));
    let failed = fonts_from_payload(RawFontPayload { ok: false, fonts: Vec::new() });
    assert_eq!(failed, Err("Photoshop font list failed".to_string()));
}

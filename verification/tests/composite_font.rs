use fontick::composite_font::{
    catalog, compile, validate_collection, BuiltinRules, CompiledCompositeFont, CompositeFontDefinition,
    CustomRule, ExtraUnicodeRule, UnicodeProperty, INHERIT_FONT,
};

fn sample_definition() -> CompositeFontDefinition {
    CompositeFontDefinition {
        id: "sample".into(),
        name: "Sample".into(),
        base_font: "Base-Regular".into(),
        builtin_rules: BuiltinRules {
            han: Some("Han-Regular".into()),
            kana: Some("Kana-Regular".into()),
            latin: Some("Latin-Regular".into()),
            decimal_number: Some("Number-Regular".into()),
            punctuation: Some("Punctuation-Regular".into()),
            symbol: Some("Symbol-Regular".into()),
        },
        extra_unicode_rules: Vec::new(),
        custom_rules: Vec::new(),
    }
}

fn index_of(compiled: &CompiledCompositeFont, name: &str) -> i32 {
    compiled.font_index(name)
}

#[test]
fn compiles_default_unicode_priority() {
    let definition = sample_definition();
    let compiled = compile(&definition).unwrap();

    assert_eq!(compiled.target_for('中' as u32), index_of(&compiled, "Han-Regular"));
    assert_eq!(compiled.target_for('あ' as u32), index_of(&compiled, "Kana-Regular"));
    assert_eq!(compiled.target_for('ア' as u32), index_of(&compiled, "Kana-Regular"));
    assert_eq!(compiled.target_for('ー' as u32), index_of(&compiled, "Kana-Regular"));
    assert_eq!(compiled.target_for('A' as u32), index_of(&compiled, "Latin-Regular"));
    assert_eq!(compiled.target_for('１' as u32), index_of(&compiled, "Number-Regular"));
    assert_eq!(compiled.target_for('。' as u32), index_of(&compiled, "Punctuation-Regular"));
    assert_eq!(compiled.target_for('￥' as u32), index_of(&compiled, "Symbol-Regular"));
    assert_eq!(compiled.target_for(0x0301), INHERIT_FONT);
    assert_eq!(compiled.target_for(0x200D), INHERIT_FONT);
}

#[test]
fn explicit_mark_category_overrides_inheritance() {
    let mut definition = sample_definition();
    definition.extra_unicode_rules.insert(
        0,
        ExtraUnicodeRule {
            id: "marks".into(),
            property: UnicodeProperty::GeneralCategory,
            value: "Mn".into(),
            font: Some("Mark-Regular".into()),
        },
    );
    let compiled = compile(&definition).unwrap();
    assert_eq!(compiled.target_for(0x0301), index_of(&compiled, "Mark-Regular"));
}

#[test]
fn base_fallback_does_not_inherit_the_previous_category_font() {
    let mut definition = sample_definition();
    definition.builtin_rules.han = None;
    let compiled = compile(&definition).unwrap();

    assert_eq!(compiled.target_for('1' as u32), index_of(&compiled, "Number-Regular"));
    assert_eq!(compiled.target_for('說' as u32), 0);
    assert_eq!(compiled.target_for(0x0301), INHERIT_FONT);
}

#[test]
fn extra_script_rule_precedes_builtin_script_rule() {
    let mut definition = sample_definition();
    definition.extra_unicode_rules.push(ExtraUnicodeRule {
        id: "latin-override".into(),
        property: UnicodeProperty::ScriptExtensions,
        value: "Latin".into(),
        font: Some("Override-Regular".into()),
    });

    let compiled = compile(&definition).unwrap();

    assert_eq!(compiled.fonts[0], "Base-Regular");
    assert_eq!(compiled.target_for('A' as u32), index_of(&compiled, "Override-Regular"));
}

#[test]
fn compiled_ranges_omit_base_and_merge_equal_neighbors() {
    let compiled = compile(&sample_definition()).unwrap();

    assert!(compiled.unicode_ranges.iter().all(|range| range.font_index != 0));
    assert!(compiled.unicode_ranges.windows(2).all(|ranges| {
        ranges[0].to + 1 != ranges[1].from || ranges[0].font_index != ranges[1].font_index
    }));
}

#[test]
fn rejects_unknown_property_values_and_unsupported_regex_features() {
    let mut definition = sample_definition();
    definition.extra_unicode_rules.push(ExtraUnicodeRule {
        id: "unknown".into(),
        property: UnicodeProperty::GeneralCategory,
        value: "NotACategory".into(),
        font: Some("Other-Regular".into()),
    });
    assert!(compile(&definition).is_err());

    definition.extra_unicode_rules.clear();
    definition.custom_rules.push(CustomRule {
        id: "regex".into(),
        name: "Regex".into(),
        pattern: r"\p{Han}".into(),
        font: "Other-Regular".into(),
        enabled: true,
    });
    assert!(compile(&definition).is_err());
}

#[test]
fn validates_collection_ids_and_case_insensitive_names() {
    let first = sample_definition();
    let mut second = sample_definition();
    second.id = "second".into();
    second.name = "sample".into();

    assert!(validate_collection(&[first.clone(), second]).is_err());

    let mut duplicate_rule_id = first;
    duplicate_rule_id.extra_unicode_rules.push(ExtraUnicodeRule {
        id: "sample".into(),
        property: UnicodeProperty::GeneralCategory,
        value: "Mn".into(),
        font: None,
    });
    assert!(validate_collection(&[duplicate_rule_id]).is_err());
}

#[test]
fn catalog_lists_known_property_values() {
    let c = catalog();
    assert_eq!(c.unicode_version, "14.0.0");
    assert_eq!(c.general_categories.len(), 30);
    assert_eq!(c.general_categories[0], "Lu");
    assert!(c.scripts.iter().any(|s| s == "Han"));
    assert!(c.scripts.iter().any(|s| s == "Latin"));
}

#[test]
fn font_list_starts_with_base_and_names_each_font_once() {
    let mut definition = sample_definition();
    definition.builtin_rules.kana = Some("Han-Regular".into());
    definition.custom_rules.push(CustomRule {
        id: "digits".into(),
        name: "Digits".into(),
        pattern: "[0-9]+".into(),
        font: "Latin-Regular".into(),
        enabled: true,
    });
    definition.custom_rules.push(CustomRule {
        id: "off".into(),
        name: "Off".into(),
        pattern: "x".into(),
        font: "Unused-Regular".into(),
        enabled: false,
    });
    let compiled = compile(&definition).unwrap();
    assert_eq!(compiled.fonts[0], "Base-Regular");
    let mut sorted = compiled.fonts.clone();
    sorted.sort();
    sorted.dedup();
    assert_eq!(sorted.len(), compiled.fonts.len());
    assert!(!compiled.fonts.iter().any(|f| f == "Unused-Regular"));
    assert_eq!(compiled.custom_rules.len(), 1);
    assert_eq!(compiled.custom_rules[0].name, "Digits");
    assert_eq!(
        compiled.fonts[compiled.custom_rules[0].font_index],
        "Latin-Regular"
    );
    assert_eq!(compiled.target_for('あ' as u32), index_of(&compiled, "Han-Regular"));
}

#[test]
fn validation_messages_name_the_first_problem() {
    let mut unnamed = sample_definition();
    unnamed.name = "  ".into();
    assert_eq!(compile(&unnamed).err(), Some("Composite font name is empty".to_string()));

    let mut unknown = sample_definition();
    unknown.extra_unicode_rules.push(ExtraUnicodeRule {
        id: "x".into(),
        property: UnicodeProperty::ScriptExtensions,
        value: "Klingon".into(),
        font: None,
    });
    assert_eq!(
        compile(&unknown).err(),
        Some("Unknown Unicode property value: Klingon".to_string())
    );

    let mut lookbehind = sample_definition();
    lookbehind.custom_rules.push(CustomRule {
        id: "r".into(),
        name: "Named".into(),
        pattern: "(?<x>a)".into(),
        font: "F".into(),
        enabled: false,
    });
    assert_eq!(
        compile(&lookbehind).err(),
        Some("Custom rule uses an unsupported regex feature: Named".to_string())
    );

    let mut blank_id = sample_definition();
    blank_id.id = " ".into();
    assert_eq!(
        validate_collection(&[blank_id]).err(),
        Some("composite font id is empty".to_string())
    );
}

#[test]
fn members_of_a_valid_collection_compile() {
    let first = sample_definition();
    let mut second = sample_definition();
    second.id = "second".into();
    second.name = "Second".into();
    let all = [first, second];
    assert_eq!(validate_collection(&all), Ok(()));
    for definition in &all {
        assert!(compile(definition).is_ok());
    }
}

#[test]
fn custom_rules_change_neither_ranges_nor_the_font_prefix() {
    let plain = sample_definition();
    let mut with_rules = sample_definition();
    with_rules.custom_rules.push(CustomRule {
        id: "quotes".into(),
        name: "Quotes".into(),
        pattern: "[“”]".into(),
        font: "Quote-Regular".into(),
        enabled: true,
    });
    let a = compile(&plain).unwrap();
    let b = compile(&with_rules).unwrap();
    assert_eq!(a.unicode_ranges, b.unicode_ranges);
    assert_eq!(b.fonts[..a.fonts.len()], a.fonts[..]);
    assert_eq!(b.fonts.last().map(String::as_str), Some("Quote-Regular"));
    let used = 1 + a
        .unicode_ranges
        .iter()
        .map(|r| r.font_index)
        .filter(|i| *i > 0)
        .max()
        .unwrap_or(0) as usize;
    assert!(used <= a.fonts.len());
    assert_eq!(b.fonts[..used], a.fonts[..used]);

    let mut reusing = sample_definition();
    reusing.custom_rules.push(CustomRule {
        id: "han-again".into(),
        name: "Han again".into(),
        pattern: "x".into(),
        font: "Han-Regular".into(),
        enabled: true,
    });
    let c = compile(&reusing).unwrap();
    assert_eq!(c.unicode_ranges, a.unicode_ranges);
    assert_eq!(c.fonts, a.fonts);
}

#[test]
fn a_valid_collection_stays_valid_when_shrunk_or_reordered() {
    let first = sample_definition();
    let mut second = sample_definition();
    second.id = "second".into();
    second.name = "Second".into();
    let mut third = sample_definition();
    third.id = "third".into();
    third.name = "Third".into();
    assert_eq!(validate_collection(&[first.clone(), second.clone(), third.clone()]), Ok(()));
    assert_eq!(validate_collection(&[third.clone(), first.clone()]), Ok(()));
    assert_eq!(validate_collection(&[second]), Ok(()));
    assert_eq!(validate_collection(&[]), Ok(()));
}

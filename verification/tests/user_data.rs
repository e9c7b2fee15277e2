use fontick::composite_font::{BuiltinRules, CompositeFontDefinition};
use fontick::user_data::{
    loaded, prepare_save, FontUserData, UserData, UserSettings, RECENT_LIMIT, USER_DATA_VERSION,
};

fn definition(id: &str, name: &str) -> CompositeFontDefinition {
    CompositeFontDefinition {
        id: id.into(),
        name: name.into(),
        base_font: "Base-Regular".into(),
        builtin_rules: BuiltinRules::default(),
        extra_unicode_rules: Vec::new(),
        custom_rules: Vec::new(),
    }
}

fn recent(n: usize) -> Vec<String> {
    (0..n).map(|i| format!("Font-{i}")).collect()
}

#[test]
fn default_settings_match_the_app_defaults() {
    let s = UserSettings::default();
    assert_eq!(s.preview_mode, "family");
    assert_eq!(s.preview_text, "永字八法 Aa123");
    assert_eq!(s.preview_size, 16);
    assert_eq!(s.meta_mode, "name");
    assert_eq!(s.ps_theme, "");
    assert!(!s.show_hidden);
    assert_eq!(s.expected_path, "");
    let f = FontUserData::default();
    assert!(!f.favorite && !f.hidden && f.user_tags.is_empty());
    assert!(f.language.is_none() && f.vendor.is_none() && f.weight.is_none());
}

#[test]
fn missing_file_loads_empty_current_data() {
    let data = loaded(None);
    assert_eq!(data.version, 2);
    assert!(data.fonts.is_empty() && data.recent.is_empty() && data.composite_fonts.is_empty());
    assert_eq!(data.settings.preview_size, 16);
}

#[test]
fn loading_fills_a_missing_version_and_cuts_recent() {
    let mut stored = UserData::default();
    stored.recent = recent(150);
    stored.fonts.insert("Arial".into(), FontUserData { favorite: true, ..FontUserData::default() });
    let data = loaded(Some(stored));
    assert_eq!(data.version, USER_DATA_VERSION);
    assert_eq!(data.recent, recent(RECENT_LIMIT));
    assert!(data.fonts["Arial"].favorite);

    let mut v1 = UserData::default();
    v1.version = 1;
    v1.recent = recent(3);
    let data = loaded(Some(v1));
    assert_eq!(data.version, 1);
    assert_eq!(data.recent, recent(3));
}

#[test]
fn saving_validates_composite_fonts() {
    let mut data = UserData::default();
    data.composite_fonts = vec![definition("a", "Mix"), definition("b", " mix ")];
    assert_eq!(prepare_save(data).err(), Some("复合字体名称已存在： mix ".to_string()));

    let mut data = UserData::default();
    data.composite_fonts = vec![definition("a", "Mix"), definition("a", "Other")];
    assert_eq!(prepare_save(data).err(), Some("Duplicate composite font id: a".to_string()));
}

#[test]
fn saving_sets_the_version_and_cuts_recent() {
    let mut data = UserData::default();
    data.version = 1;
    data.recent = recent(101);
    data.composite_fonts = vec![definition("mix-1", "日中混排")];
    let saved = prepare_save(data).expect("valid");
    assert_eq!(saved.version, 2);
    assert_eq!(saved.recent.len(), 100);
    assert_eq!(saved.composite_fonts[0].name, "日中混排");
    let reloaded = loaded(Some(saved.clone()));
    assert_eq!(reloaded.version, saved.version);
    assert_eq!(reloaded.recent, saved.recent);
}

use fontick::search::{build_search_text, join_strings, pinyin_index};

#[test]
fn pinyin_index_gives_spaced_compact_and_initials() {
    assert_eq!(
        pinyin_index("宋体"),
        ("song ti".to_string(), "songti".to_string(), "st".to_string())
    );
    assert_eq!(
        pinyin_index("思源 Sans 黑体"),
        ("si yuan hei ti".to_string(), "siyuanheiti".to_string(), "syht".to_string())
    );
    assert_eq!(pinyin_index("Arial"), (String::new(), String::new(), String::new()));
}

#[test]
fn search_text_joins_raw_names_and_pinyin() {
    let text = build_search_text("宋体 Bold", "宋体", "Bold", "SongTi-Bold");
    assert_eq!(
        text,
        "宋体 bold 宋体 bold songti-bold 宋体 bold song ti songti st song ti songti st song ti songti st"
    );
}

#[test]
fn search_text_skips_blank_label_parts() {
    let text = build_search_text("Arial", "Arial", "  ", "ArialMT");
    assert_eq!(text, "arial arial    arialmt arial");
}

#[test]
fn join_strings_puts_the_separator_between_items() {
    assert_eq!(join_strings(&vec!["a".into(), "b".into(), "c".into()], ", "), "a, b, c");
    assert_eq!(join_strings(&Vec::new(), "-"), "");
}

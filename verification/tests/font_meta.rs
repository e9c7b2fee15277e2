use fontick::font_meta::{
    be_u16, be_u32, decode_name, parse_font_names, parse_font_weight, parse_preview_meta,
    push_unique, resolve, table, FontIndex,
};

fn fake_sfnt_with_os2_weight(weight: u16) -> Vec<u8> {
    let mut bytes = vec![0u8; 160];
    bytes[0..4].copy_from_slice(&0x0001_0000u32.to_be_bytes());
    bytes[4..6].copy_from_slice(&1u16.to_be_bytes());
    bytes[12..16].copy_from_slice(b"OS/2");
    bytes[20..24].copy_from_slice(&128u32.to_be_bytes());
    bytes[24..28].copy_from_slice(&32u32.to_be_bytes());
    bytes[132..134].copy_from_slice(&weight.to_be_bytes());
    bytes
}

fn utf16be(s: &str) -> Vec<u8> {
    s.encode_utf16().flat_map(|u| u.to_be_bytes()).collect()
}

/// A name table with the given (platform, encoding, language, name id, raw bytes) records.
fn name_table(records: &[(u16, u16, u16, u16, Vec<u8>)]) -> Vec<u8> {
    let header = 6 + 12 * records.len();
    let mut out = Vec::new();
    out.extend_from_slice(&0u16.to_be_bytes());
    out.extend_from_slice(&(records.len() as u16).to_be_bytes());
    out.extend_from_slice(&(header as u16).to_be_bytes());
    let mut strings = Vec::new();
    for (platform, encoding, language, name_id, raw) in records {
        out.extend_from_slice(&platform.to_be_bytes());
        out.extend_from_slice(&encoding.to_be_bytes());
        out.extend_from_slice(&language.to_be_bytes());
        out.extend_from_slice(&name_id.to_be_bytes());
        out.extend_from_slice(&(raw.len() as u16).to_be_bytes());
        out.extend_from_slice(&(strings.len() as u16).to_be_bytes());
        strings.extend_from_slice(raw);
    }
    out.extend_from_slice(&strings);
    out
}

/// A font with an `OS/2` table of the given weight and the given `name` table.
fn fake_font(weight: u16, name: &[u8]) -> Vec<u8> {
    let os2_offset = 44usize;
    let name_offset = os2_offset + 8;
    let mut bytes = vec![0u8; name_offset];
    bytes[0..4].copy_from_slice(b"OTTO");
    bytes[4..6].copy_from_slice(&2u16.to_be_bytes());
    bytes[12..16].copy_from_slice(b"OS/2");
    bytes[20..24].copy_from_slice(&(os2_offset as u32).to_be_bytes());
    bytes[24..28].copy_from_slice(&8u32.to_be_bytes());
    bytes[28..32].copy_from_slice(b"name");
    bytes[36..40].copy_from_slice(&(name_offset as u32).to_be_bytes());
    bytes[40..44].copy_from_slice(&(name.len() as u32).to_be_bytes());
    bytes[os2_offset + 4..os2_offset + 6].copy_from_slice(&weight.to_be_bytes());
    bytes.extend_from_slice(name);
    bytes
}

fn sample_font() -> Vec<u8> {
    let name = name_table(&[
        (1, 0, 0, 1, b"Test".to_vec()),
        (3, 1, 2052, 4, utf16be("测试 粗体")),
        (3, 1, 1033, 6, utf16be(" Test-Bold ")),
        (3, 1, 1033, 4, utf16be("Test Bold")),
        (3, 1, 1033, 2, utf16be("   ")),
    ]);
    fake_font(700, &name)
}

#[test]
fn parses_os2_weight_class_from_sfnt() {
    let bytes = fake_sfnt_with_os2_weight(900);

    let weight = parse_font_weight(&bytes).expect("weight");

    assert_eq!(weight, 900);
}

#[test]
fn reads_big_endian_numbers_and_refuses_short_input() {
    let bytes = [0x12u8, 0x34, 0x56, 0x78];
    assert_eq!(be_u16(&bytes, 1), Ok(0x3456));
    assert_eq!(be_u32(&bytes, 0), Ok(0x1234_5678));
    assert_eq!(be_u16(&bytes, 3), Err("unexpected end of font".to_string()));
    assert_eq!(be_u32(&bytes, 1), Err("unexpected end of font".to_string()));
}

#[test]
fn finds_tables_only_in_sfnt_files() {
    let font = sample_font();
    assert_eq!(table(&font, b"OS/2").map(|t| t.len()), Some(8));
    assert_eq!(table(&font, b"cmap"), None);
    let mut not_sfnt = font.clone();
    not_sfnt[0..4].copy_from_slice(b"wOFF");
    assert_eq!(table(&not_sfnt, b"OS/2"), None);
    assert_eq!(table(&font[..11], b"OS/2"), None);
}

#[test]
fn weight_errors_name_the_problem() {
    let font = fake_font(400, &name_table(&[]));
    let mut no_os2 = font.clone();
    no_os2[12..16].copy_from_slice(b"XXXX");
    assert_eq!(parse_font_weight(&no_os2), Err("OS/2 table not found".to_string()));
    let mut short_os2 = font.clone();
    short_os2[24..28].copy_from_slice(&4u32.to_be_bytes());
    assert_eq!(parse_font_weight(&short_os2), Err("OS/2 table too short".to_string()));
    assert_eq!(parse_font_weight(&font), Ok(400));
}

#[test]
fn decodes_name_strings_by_platform() {
    assert_eq!(decode_name(3, 1, &utf16be("黑体")), Some("黑体".to_string()));
    assert_eq!(decode_name(0, 3, &utf16be("Abc")), Some("Abc".to_string()));
    assert_eq!(decode_name(3, 1, &[0x00, 0x41, 0x00]), None);
    assert_eq!(decode_name(1, 0, b"Mac Name"), Some("Mac Name".to_string()));
    assert_eq!(decode_name(1, 0, &[0x41, 0xC3]), None);
    assert_eq!(decode_name(2, 0, b"Other"), None);
    // An unpaired surrogate becomes U+FFFD.
    assert_eq!(decode_name(3, 1, &[0xD8, 0x00, 0x00, 0x41]), Some("\u{FFFD}A".to_string()));
}

#[test]
fn name_records_are_sorted_by_name_then_platform_priority() {
    let records = parse_font_names(&sample_font()).expect("names");
    let seen: Vec<(u16, u16, String)> = records
        .iter()
        .map(|r| (r.name_id, r.language_id, r.value.clone()))
        .collect();
    assert_eq!(
        seen,
        vec![
            (6, 1033, " Test-Bold ".to_string()),
            (4, 1033, "Test Bold".to_string()),
            (4, 2052, "测试 粗体".to_string()),
            (1, 0, "Test".to_string()),
        ]
    );
}

#[test]
fn name_table_errors() {
    let font = fake_font(400, &[0, 0, 0]);
    assert_eq!(parse_font_names(&font).err(), Some("name table too short".to_string()));
    let mut no_name = sample_font();
    no_name[28..32].copy_from_slice(b"XXXX");
    assert_eq!(parse_font_names(&no_name).err(), Some("name table not found".to_string()));
}

#[test]
fn preview_meta_collects_names_in_preference_order() {
    let meta = parse_preview_meta(&sample_font()).expect("meta");
    assert_eq!(meta.post_script_name, "Test-Bold");
    assert_eq!(meta.weight, 700);
    assert_eq!(meta.local_names, vec!["Test-Bold", "Test Bold", "测试 粗体", "Test"]);
}

#[test]
fn preview_meta_needs_a_postscript_name() {
    let font = fake_font(400, &name_table(&[(3, 1, 1033, 4, utf16be("Only Full"))]));
    assert!(parse_preview_meta(&font).is_none());
}

#[test]
fn push_unique_skips_empty_and_repeated_values() {
    let mut values = vec!["a".to_string()];
    push_unique(&mut values, "");
    push_unique(&mut values, "a");
    push_unique(&mut values, "b");
    push_unique(&mut values, "b");
    assert_eq!(values, vec!["a", "b"]);
}

#[test]
fn index_keeps_the_first_file_for_a_name_and_resolves_trimmed_names() {
    let mut index = FontIndex::new();
    index.add_font_bytes(&sample_font());
    let other_weight = fake_font(
        900,
        &name_table(&[(3, 1, 1033, 6, utf16be("Test-Bold"))]),
    );
    index.add_font_bytes(&other_weight);
    index.add_font_bytes(b"not a font");
    let found = index.get(&"Test-Bold".to_string()).expect("indexed");
    assert_eq!(found.weight, 700);
    assert!(index.get(&"Missing".to_string()).is_none());

    let resolved = resolve(
        vec![" Test-Bold ".into(), "".into(), "Missing".into(), "Test-Bold".into()],
        &index,
    );
    assert_eq!(resolved.len(), 1);
    assert_eq!(resolved[0].post_script_name, "Test-Bold");
    assert!(resolve(vec!["  ".into()], &index).is_empty());
}

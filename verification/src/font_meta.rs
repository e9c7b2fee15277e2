//! Font preview metadata read from OpenType/TrueType files: the weight class
//! from the `OS/2` table and the names from the `name` table. File discovery
//! and reading belong to the application; this module works on the bytes.
use crate::text::{
    blank, chars_of, deep_strings, first_match, is_blank, lemma_first_match, lemma_first_match_push,
    string_from_chars, string_of, trim, trim_chars,
};
use vstd::prelude::*;

verus! {

// ---------------------------------------------------------------------------
// Big-endian numbers
// ---------------------------------------------------------------------------

/// The big-endian 16-bit number at `off`.
pub open spec fn be16(b: Seq<u8>, off: int) -> int {
    b[off] as int * 256 + b[off + 1] as int
}

/// The big-endian 32-bit number at `off`.
pub open spec fn be32(b: Seq<u8>, off: int) -> int {
    b[off] as int * 16777216 + b[off + 1] as int * 65536 + b[off + 2] as int * 256 + b[off + 3] as int
}

/// Reads a big-endian `u16` at `offset`; fails past the end of the data.
pub fn be_u16(bytes: &[u8], offset: usize) -> (r: Result<u16, String>)
    ensures
        match r {
            Ok(v) => offset + 2 <= bytes@.len() && v == be16(bytes@, offset as int),
            Err(e) => offset + 2 > bytes@.len() && e@ == "unexpected end of font"@,
        },
{
    if bytes.len() < 2 || offset > bytes.len() - 2 {
        return Err(string_of("unexpected end of font"));
    }
    Ok((bytes[offset] as u16) * 256 + (bytes[offset + 1] as u16))
}

/// Reads a big-endian `u32` at `offset`; fails past the end of the data.
pub fn be_u32(bytes: &[u8], offset: usize) -> (r: Result<u32, String>)
    ensures
        match r {
            Ok(v) => offset + 4 <= bytes@.len() && v == be32(bytes@, offset as int),
            Err(e) => offset + 4 > bytes@.len() && e@ == "unexpected end of font"@,
        },
{
    if bytes.len() < 4 || offset > bytes.len() - 4 {
        return Err(string_of("unexpected end of font"));
    }
    Ok((bytes[offset] as u32) * 16777216 + (bytes[offset + 1] as u32) * 65536 + (bytes[offset + 2]
        as u32) * 256 + (bytes[offset + 3] as u32))
}

// ---------------------------------------------------------------------------
// The table directory
// ---------------------------------------------------------------------------

/// The data starts with an sfnt version tag: `OTTO`, `true`, `typ1` or 0x00010000.
pub open spec fn has_sfnt_tag(b: Seq<u8>) -> bool {
    let t = b.take(4);
    t == seq![0x4Fu8, 0x54u8, 0x54u8, 0x4Fu8] || t == seq![0x74u8, 0x72u8, 0x75u8, 0x65u8] || t
        == seq![0x74u8, 0x79u8, 0x70u8, 0x31u8] || t == seq![0x00u8, 0x01u8, 0x00u8, 0x00u8]
}

/// Byte offset of the `i`-th table record.
pub open spec fn record_offset(i: int) -> int {
    12 + i * 16
}

/// Predicate on record indices: the record runs past the data, or carries `tag`.
pub open spec fn record_stops(b: Seq<u8>, tag: Seq<u8>) -> spec_fn(int) -> bool {
    |i: int|
        record_offset(i) + 16 > b.len() || b.subrange(record_offset(i), record_offset(i) + 4) == tag
}

/// The indices `0..n`.
pub open spec fn indices(n: int) -> Seq<int> {
    Seq::new(n as nat, |i: int| i)
}

/// The table that the directory lists under `tag`: the first record that
/// carries the tag gives the table's offset and length. No table when the
/// data is shorter than a header, lacks an sfnt tag, a record before the
/// tagged one runs past the data, or the table itself does.
pub open spec fn table_spec(b: Seq<u8>, tag: Seq<u8>) -> Option<Seq<u8>> {
    if b.len() < 12 || !has_sfnt_tag(b) {
        None
    } else {
        match first_match(indices(be16(b, 4)), record_stops(b, tag)) {
            None => None,
            Some(i) => {
                let at = record_offset(i);
                if at + 16 > b.len() {
                    None
                } else {
                    let start = be32(b, at + 8);
                    let len = be32(b, at + 12);
                    if start + len > b.len() {
                        None
                    } else {
                        Some(b.subrange(start, start + len))
                    }
                }
            },
        }
    }
}

fn sfnt_tag(bytes: &[u8]) -> (r: bool)
    requires
        bytes@.len() >= 4,
    ensures
        r == has_sfnt_tag(bytes@),
{
    let a = bytes[0];
    let b = bytes[1];
    let c = bytes[2];
    let d = bytes[3];
    assert(bytes@.take(4) =~= seq![a, b, c, d]);
    (a == 0x4F && b == 0x54 && c == 0x54 && d == 0x4F) || (a == 0x74 && b == 0x72 && c == 0x75 && d
        == 0x65) || (a == 0x74 && b == 0x79 && c == 0x70 && d == 0x31) || (a == 0x00 && b == 0x01
        && c == 0x00 && d == 0x00)
}

fn tag_at(bytes: &[u8], offset: usize, tag: &[u8; 4]) -> (r: bool)
    requires
        offset + 4 <= bytes@.len(),
    ensures
        r == (bytes@.subrange(offset as int, offset + 4) == tag@),
{
    let ghost s = bytes@.subrange(offset as int, offset + 4);
    let r = bytes[offset] == tag[0] && bytes[offset + 1] == tag[1] && bytes[offset + 2] == tag[2]
        && bytes[offset + 3] == tag[3];
    proof {
        if r {
            assert(s =~= tag@);
        } else {
            if s == tag@ {
                assert(s[0] == tag@[0] && s[1] == tag@[1] && s[2] == tag@[2] && s[3] == tag@[3]);
            }
        }
    }
    r
}

/// The bytes `start..end`.
fn copy_range(bytes: &[u8], start: usize, end: usize) -> (r: Vec<u8>)
    requires
        start <= end <= bytes@.len(),
    ensures
        r@ == bytes@.subrange(start as int, end as int),
{
    let mut r: Vec<u8> = Vec::new();
    let mut k: usize = start;
    while k < end
        invariant
            start <= k <= end <= bytes@.len(),
            r@ == bytes@.subrange(start as int, k as int),
        decreases end - k,
    {
        r.push(bytes[k]);
        assert(bytes@.subrange(start as int, k + 1) =~= bytes@.subrange(start as int, k as int).push(
            bytes@[k as int],
        ));
        k = k + 1;
    }
    r
}

/// The table listed under `tag`, copied out of the font data.
pub fn table(bytes: &[u8], tag: &[u8; 4]) -> (r: Option<Vec<u8>>)
    ensures
        match r {
            Some(t) => table_spec(bytes@, tag@) == Some(t@),
            None => table_spec(bytes@, tag@) is None,
        },
{
    let ghost b = bytes@;
    if bytes.len() < 12 {
        return None;
    }
    if !sfnt_tag(bytes) {
        return None;
    }
    let count = match be_u16(bytes, 4) {
        Ok(v) => v as usize,
        Err(_) => return None,
    };
    let ghost idx = indices(count as int);
    let n = bytes.len();
    let mut i: usize = 0;
    while i < count
        invariant
            0 <= i <= count,
            count == be16(b, 4),
            b == bytes@,
            n == b.len(),
            n >= 12,
            has_sfnt_tag(b),
            idx == indices(count as int),
            count <= 65535,
            first_match(idx.take(i as int), record_stops(b, tag@)) is None,
        decreases count - i,
    {
        let ghost pre = idx.take(i as int);
        assert(idx.take(i + 1) =~= pre.push(i as int));
        proof {
            lemma_first_match_push(pre, i as int, record_stops(b, tag@));
        }
        let offset = 12 + i * 16;
        if offset > n || n - offset < 16 {
            proof {
                crate::text::lemma_first_match_prefix(idx, i + 1, record_stops(b, tag@));
            }
            return None;
        }
        if !tag_at(bytes, offset, tag) {
            i = i + 1;
            continue;
        }
        proof {
            crate::text::lemma_first_match_prefix(idx, i + 1, record_stops(b, tag@));
        }
        let table_offset = match be_u32(bytes, offset + 8) {
            Ok(v) => v,
            Err(_) => return None,
        };
        let length = match be_u32(bytes, offset + 12) {
            Ok(v) => v,
            Err(_) => return None,
        };
        if (table_offset as u64) + (length as u64) > (n as u64) {
            return None;
        }
        let start = table_offset as usize;
        let end = start + length as usize;
        return Some(copy_range(bytes, start, end));
    }
    assert(idx.take(count as int) =~= idx);
    None
}

/// The `OS/2` weight class: the 16-bit number at offset 4 of the table.
pub open spec fn font_weight_spec(b: Seq<u8>) -> Result<u16, Seq<char>> {
    match table_spec(b, seq![0x4Fu8, 0x53u8, 0x2Fu8, 0x32u8]) {
        None => Err("OS/2 table not found"@),
        Some(t) => if t.len() < 6 {
            Err("OS/2 table too short"@)
        } else {
            Ok(be16(t, 4) as u16)
        },
    }
}

/// Reads the weight class (`usWeightClass`) from the `OS/2` table.
pub fn parse_font_weight(bytes: &[u8]) -> (r: Result<u16, String>)
    ensures
        match r {
            Ok(w) => font_weight_spec(bytes@) == Ok::<u16, Seq<char>>(w),
            Err(e) => font_weight_spec(bytes@) == Err::<u16, Seq<char>>(e@),
        },
{
    let tag: [u8; 4] = [0x4F, 0x53, 0x2F, 0x32];
    assert(tag@ =~= seq![0x4Fu8, 0x53u8, 0x2Fu8, 0x32u8]);
    let os2 = match table(bytes, &tag) {
        Some(t) => t,
        None => return Err(string_of("OS/2 table not found")),
    };
    if os2.len() < 6 {
        return Err(string_of("OS/2 table too short"));
    }
    match be_u16(os2.as_slice(), 4) {
        Ok(w) => Ok(w),
        Err(e) => Err(e),
    }
}


// ---------------------------------------------------------------------------
// Name strings
// ---------------------------------------------------------------------------

/// The big-endian UTF-16 code units of `raw` (an even number of bytes).
pub open spec fn utf16_units(raw: Seq<u8>) -> Seq<u16> {
    Seq::new((raw.len() / 2) as nat, |i: int| (raw[2 * i] as int * 256 + raw[2 * i + 1] as int) as u16)
}

/// A leading (high) surrogate.
pub open spec fn is_high_surrogate(u: u16) -> bool {
    0xD800 <= u && u <= 0xDBFF
}

/// A trailing (low) surrogate.
pub open spec fn is_low_surrogate(u: u16) -> bool {
    0xDC00 <= u && u <= 0xDFFF
}

/// A Unicode scalar value: a code point that is not a surrogate.
pub open spec fn is_scalar(v: int) -> bool {
    (0 <= v && v < 0xD800) || (0xE000 <= v && v <= 0x10FFFF)
}

/// The character with scalar value `v`.
pub open spec fn char_of(v: int) -> char {
    v as char
}

/// The code point that a surrogate pair encodes.
pub open spec fn pair_value(hi: u16, lo: u16) -> int {
    0x10000 + (hi as int - 0xD800) * 0x400 + (lo as int - 0xDC00)
}

/// UTF-16 decoding in which each unpaired surrogate becomes U+FFFD, as
/// `String::from_utf16_lossy` documents it.
pub open spec fn decode_utf16(units: Seq<u16>) -> Seq<char>
    decreases units.len(),
{
    if units.len() == 0 {
        Seq::empty()
    } else {
        let u = units[0];
        if is_high_surrogate(u) && units.len() >= 2 && is_low_surrogate(units[1]) {
            seq![char_of(pair_value(u, units[1]))] + decode_utf16(units.skip(2))
        } else if is_high_surrogate(u) || is_low_surrogate(u) {
            seq!['\u{FFFD}'] + decode_utf16(units.skip(1))
        } else {
            seq![char_of(u as int)] + decode_utf16(units.skip(1))
        }
    }
}

/// Every byte is ASCII.
pub open spec fn all_ascii(raw: Seq<u8>) -> bool {
    forall|i: int| 0 <= i < raw.len() ==> #[trigger] raw[i] < 0x80
}

/// The characters of ASCII bytes.
pub open spec fn ascii_chars(raw: Seq<u8>) -> Seq<char> {
    raw.map_values(|b: u8| char_of(b as int))
}

/// The text of a name record: UTF-16BE for the Unicode (0) and Windows (3)
/// platforms, ASCII-only Macintosh (1) strings as they are; nothing otherwise.
pub open spec fn decode_name_spec(platform_id: u16, raw: Seq<u8>) -> Option<Seq<char>> {
    if platform_id == 0 || platform_id == 3 {
        if raw.len() % 2 != 0 {
            None
        } else {
            Some(decode_utf16(utf16_units(raw)))
        }
    } else if platform_id == 1 && all_ascii(raw) {
        Some(ascii_chars(raw))
    } else {
        None
    }
}

/// Calls `char::from_u32`, which gives the character with scalar value `v`,
/// or nothing when `v` is a surrogate or above U+10FFFF.
#[verifier::external_body]
fn char_from_u32(v: u32) -> (r: Option<char>)
    ensures
        match r {
            Some(c) => is_scalar(v as int) && c == char_of(v as int),
            None => !is_scalar(v as int),
        },
{
    char::from_u32(v)
}

fn scalar_char(v: u32) -> (c: char)
    requires
        is_scalar(v as int),
    ensures
        c == char_of(v as int),
{
    match char_from_u32(v) {
        Some(c) => c,
        None => '\u{FFFD}',
    }
}

fn units_of(raw: &[u8]) -> (r: Vec<u16>)
    requires
        raw@.len() % 2 == 0,
    ensures
        r@ == utf16_units(raw@),
{
    let mut r: Vec<u16> = Vec::new();
    let len = raw.len();
    let n = len / 2;
    let mut i: usize = 0;
    while i < n
        invariant
            0 <= i <= n,
            len == raw@.len(),
            n == raw@.len() / 2,
            raw@.len() % 2 == 0,
            r@.len() == i,
            forall|k: int| 0 <= k < i ==> r@[k] == utf16_units(raw@)[k],
        decreases n - i,
    {
        assert(2 * i + 1 < len);
        let hi = raw[2 * i] as u16;
        let lo = raw[2 * i + 1] as u16;
        r.push(hi * 256 + lo);
        i = i + 1;
    }
    assert(r@ =~= utf16_units(raw@));
    r
}

/// Decodes UTF-16 code units, replacing unpaired surrogates with U+FFFD.
pub fn decode_utf16_lossy(units: &[u16]) -> (r: Vec<char>)
    ensures
        r@ == decode_utf16(units@),
{
    let mut r: Vec<char> = Vec::new();
    let n = units.len();
    let mut i: usize = 0;
    assert(units@.skip(0) =~= units@);
    assert(r@ + decode_utf16(units@.skip(0)) =~= decode_utf16(units@));
    while i < n
        invariant
            0 <= i <= n,
            n == units@.len(),
            r@ + decode_utf16(units@.skip(i as int)) == decode_utf16(units@),
        decreases n - i,
    {
        let ghost rest = units@.skip(i as int);
        let u = units[i];
        assert(rest[0] == u);
        if 0xD800 <= u && u <= 0xDBFF && i + 1 < n && 0xDC00 <= units[i + 1] && units[i + 1] <= 0xDFFF {
            let lo = units[i + 1];
            assert(rest[1] == lo);
            let v: u32 = 0x10000 + ((u as u32) - 0xD800) * 0x400 + ((lo as u32) - 0xDC00);
            let c = scalar_char(v);
            let ghost old_r = r@;
            r.push(c);
            assert(rest.skip(2) =~= units@.skip(i + 2));
            assert(r@ + decode_utf16(units@.skip(i + 2)) =~= old_r + decode_utf16(rest));
            i = i + 2;
        } else if 0xD800 <= u && u <= 0xDFFF {
            let ghost old_r = r@;
            r.push('\u{FFFD}');
            assert(rest.skip(1) =~= units@.skip(i + 1));
            assert(r@ + decode_utf16(units@.skip(i + 1)) =~= old_r + decode_utf16(rest));
            i = i + 1;
        } else {
            let c = scalar_char(u as u32);
            let ghost old_r = r@;
            r.push(c);
            assert(rest.skip(1) =~= units@.skip(i + 1));
            assert(r@ + decode_utf16(units@.skip(i + 1)) =~= old_r + decode_utf16(rest));
            i = i + 1;
        }
    }
    assert(decode_utf16(units@.skip(n as int)) =~= Seq::<char>::empty());
    assert(r@ + Seq::<char>::empty() =~= r@);
    r
}

/// Decodes the raw bytes of a name record for its platform.
pub fn decode_name(platform_id: u16, _encoding_id: u16, raw: &[u8]) -> (r: Option<String>)
    ensures
        match r {
            Some(s) => decode_name_spec(platform_id, raw@) == Some(s@),
            None => decode_name_spec(platform_id, raw@) is None,
        },
{
    if platform_id == 0 || platform_id == 3 {
        if raw.len() % 2 != 0 {
            return None;
        }
        let units = units_of(raw);
        let chars = decode_utf16_lossy(units.as_slice());
        return Some(string_from_chars(chars.as_slice()));
    }
    if platform_id == 1 {
        let mut chars: Vec<char> = Vec::new();
        let mut i: usize = 0;
        while i < raw.len()
            invariant
                0 <= i <= raw@.len(),
                platform_id == 1,
                chars@ == ascii_chars(raw@.take(i as int)),
                all_ascii(raw@.take(i as int)),
            decreases raw@.len() - i,
        {
            let b = raw[i];
            if b >= 0x80 {
                assert(!all_ascii(raw@)) by {
                    assert(raw@[i as int] >= 0x80);
                }
                assert(decode_name_spec(platform_id, raw@) is None);
                return None;
            }
            chars.push(b as char);
            assert(raw@.take(i + 1) =~= raw@.take(i as int).push(b));
            assert(chars@ =~= ascii_chars(raw@.take(i + 1)));
            assert(all_ascii(raw@.take(i + 1))) by {
                assert forall|k: int| 0 <= k < i + 1 implies #[trigger] raw@.take(i + 1)[k] < 0x80 by {
                    if k < i {
                        assert(raw@.take(i + 1)[k] == raw@.take(i as int)[k]);
                    }
                }
            }
            i = i + 1;
        }
        assert(raw@.take(raw@.len() as int) =~= raw@);
        return Some(string_from_chars(chars.as_slice()));
    }
    None
}


// ---------------------------------------------------------------------------
// Name records
// ---------------------------------------------------------------------------

/// A decoded entry of the `name` table.
#[derive(Debug, Clone)]
pub struct NameRecord {
    pub platform_id: u16,
    pub language_id: u16,
    pub name_id: u16,
    pub value: String,
}

/// A name record as a mathematical value.
pub struct NameRecordSpec {
    pub platform_id: u16,
    pub language_id: u16,
    pub name_id: u16,
    pub value: Seq<char>,
}

impl View for NameRecord {
    type V = NameRecordSpec;

    open spec fn view(&self) -> NameRecordSpec {
        NameRecordSpec {
            platform_id: self.platform_id,
            language_id: self.language_id,
            name_id: self.name_id,
            value: self.value@,
        }
    }
}

/// The views of a list of records.
pub open spec fn record_views(v: Seq<NameRecord>) -> Seq<NameRecordSpec> {
    v.map_values(|r: NameRecord| r@)
}

/// Byte offset of the `i`-th name record in the `name` table.
pub open spec fn name_record_offset(i: int) -> int {
    6 + 12 * i
}

/// The `i`-th name record lies wholly inside the table.
pub open spec fn name_record_complete(t: Seq<u8>, i: int) -> bool {
    name_record_offset(i) + 12 <= t.len()
}

/// The `i`-th name record, when its string lies inside the table, decodes,
/// and is not blank.
pub open spec fn name_record_at(t: Seq<u8>, i: int) -> Option<NameRecordSpec> {
    let off = name_record_offset(i);
    let length = be16(t, off + 8);
    let start = be16(t, 4) + be16(t, off + 10);
    if start + length > t.len() {
        None
    } else {
        match decode_name_spec(be16(t, off) as u16, t.subrange(start, start + length)) {
            Some(v) => if is_blank(v) {
                None
            } else {
                Some(
                    NameRecordSpec {
                        platform_id: be16(t, off) as u16,
                        language_id: be16(t, off + 4) as u16,
                        name_id: be16(t, off + 6) as u16,
                        value: v,
                    },
                )
            },
            None => None,
        }
    }
}

/// A possible value as a list of zero or one values.
pub open spec fn opt_seq<A>(o: Option<A>) -> Seq<A> {
    match o {
        Some(a) => seq![a],
        None => Seq::empty(),
    }
}

/// The usable records among the first `n` (records that do not fit are skipped).
pub open spec fn name_records_upto(t: Seq<u8>, n: int) -> Seq<NameRecordSpec>
    decreases n,
{
    if n <= 0 {
        Seq::empty()
    } else if !name_record_complete(t, n - 1) {
        name_records_upto(t, n - 1)
    } else {
        name_records_upto(t, n - 1) + opt_seq(name_record_at(t, n - 1))
    }
}

/// Rank of a name id: PostScript name, full name, family, typographic
/// family, typographic subfamily, then the rest.
pub open spec fn name_rank(name_id: u16) -> int {
    if name_id == 6 {
        0
    } else if name_id == 4 {
        1
    } else if name_id == 1 {
        2
    } else if name_id == 16 {
        3
    } else if name_id == 17 {
        4
    } else {
        5
    }
}

/// Rank of a platform and language: Windows US English, Windows Simplified
/// Chinese, other Windows, Unicode, Macintosh, then the rest.
pub open spec fn platform_rank(platform_id: u16, language_id: u16) -> int {
    if platform_id == 3 && language_id == 1033 {
        0
    } else if platform_id == 3 && language_id == 2052 {
        1
    } else if platform_id == 3 {
        2
    } else if platform_id == 0 {
        3
    } else if platform_id == 1 {
        4
    } else {
        5
    }
}

/// The sort key of a record, in `0..36`.
pub open spec fn record_key(r: NameRecordSpec) -> int {
    name_rank(r.name_id) * 6 + platform_rank(r.platform_id, r.language_id)
}

/// The records with sort key `k`, in their order.
pub open spec fn records_with_key(rs: Seq<NameRecordSpec>, k: int) -> Seq<NameRecordSpec>
    decreases rs.len(),
{
    if rs.len() == 0 {
        Seq::empty()
    } else if record_key(rs.last()) == k {
        records_with_key(rs.drop_last(), k).push(rs.last())
    } else {
        records_with_key(rs.drop_last(), k)
    }
}

/// The records with keys below `k`, by key and, within a key, in their order.
pub open spec fn sorted_below(rs: Seq<NameRecordSpec>, k: int) -> Seq<NameRecordSpec>
    decreases k,
{
    if k <= 0 {
        Seq::empty()
    } else {
        sorted_below(rs, k - 1) + records_with_key(rs, k - 1)
    }
}

/// The records sorted by key, keeping their order within a key (a stable sort).
pub open spec fn sort_records(rs: Seq<NameRecordSpec>) -> Seq<NameRecordSpec> {
    sorted_below(rs, 36)
}

/// The decoded records of the `name` table, sorted.
pub open spec fn font_names_spec(b: Seq<u8>) -> Result<Seq<NameRecordSpec>, Seq<char>> {
    match table_spec(b, seq![0x6Eu8, 0x61u8, 0x6Du8, 0x65u8]) {
        None => Err("name table not found"@),
        Some(t) => if t.len() < 6 {
            Err("name table too short"@)
        } else {
            Ok(sort_records(name_records_upto(t, be16(t, 2))))
        },
    }
}

fn name_priority(name_id: u16) -> (r: u8)
    ensures
        r == name_rank(name_id),
{
    match name_id {
        6 => 0,
        4 => 1,
        1 => 2,
        16 => 3,
        17 => 4,
        _ => 5,
    }
}

fn platform_priority(platform_id: u16, language_id: u16) -> (r: u8)
    ensures
        r == platform_rank(platform_id, language_id),
{
    match (platform_id, language_id) {
        (3, 1033) => 0,
        (3, 2052) => 1,
        (3, _) => 2,
        (0, _) => 3,
        (1, _) => 4,
        _ => 5,
    }
}

fn copy_record(r: &NameRecord) -> (c: NameRecord)
    ensures
        c@ == r@,
{
    NameRecord {
        platform_id: r.platform_id,
        language_id: r.language_id,
        name_id: r.name_id,
        value: r.value.clone(),
    }
}

/// Sorts records by name rank, then platform rank, keeping the order of
/// records with equal ranks.
fn sort_by_priority(records: &Vec<NameRecord>) -> (r: Vec<NameRecord>)
    ensures
        record_views(r@) == sort_records(record_views(records@)),
{
    let ghost rs = record_views(records@);
    let mut out: Vec<NameRecord> = Vec::new();
    let mut k: u8 = 0;
    assert(record_views(out@) =~= sorted_below(rs, 0));
    while k < 36
        invariant
            0 <= k <= 36,
            rs == record_views(records@),
            record_views(out@) == sorted_below(rs, k as int),
        decreases 36 - k,
    {
        let mut j: usize = 0;
        assert(rs.take(0) =~= Seq::<NameRecordSpec>::empty());
        assert(sorted_below(rs, k as int) + records_with_key(rs.take(0), k as int) =~= sorted_below(
            rs,
            k as int,
        ));
        while j < records.len()
            invariant
                0 <= j <= records@.len(),
                0 <= k < 36,
                rs == record_views(records@),
                record_views(out@) == sorted_below(rs, k as int) + records_with_key(
                    rs.take(j as int),
                    k as int,
                ),
            decreases records@.len() - j,
        {
            let rec = &records[j];
            let key = name_priority(rec.name_id) * 6 + platform_priority(
                rec.platform_id,
                rec.language_id,
            );
            let ghost pre = rs.take(j as int);
            assert(rs.take(j + 1).drop_last() =~= pre);
            assert(rs.take(j + 1).last() == rec@);
            if key == k {
                let ghost old_out = record_views(out@);
                out.push(copy_record(rec));
                assert(record_views(out@) =~= old_out.push(rec@));
            }
            j = j + 1;
        }
        assert(rs.take(rs.len() as int) =~= rs);
        k = k + 1;
    }
    out
}

/// Reads, decodes and sorts the records of the `name` table. Records whose
/// string lies outside the table, does not decode, or is blank are skipped;
/// reading stops at the first record that does not fit in the table.
pub fn parse_font_names(bytes: &[u8]) -> (r: Result<Vec<NameRecord>, String>)
    ensures
        match r {
            Ok(v) => font_names_spec(bytes@) == Ok::<Seq<NameRecordSpec>, Seq<char>>(record_views(v@)),
            Err(e) => font_names_spec(bytes@) == Err::<Seq<NameRecordSpec>, Seq<char>>(e@),
        },
{
    let tag: [u8; 4] = [0x6E, 0x61, 0x6D, 0x65];
    assert(tag@ =~= seq![0x6Eu8, 0x61u8, 0x6Du8, 0x65u8]);
    let name = match table(bytes, &tag) {
        Some(t) => t,
        None => return Err(string_of("name table not found")),
    };
    if name.len() < 6 {
        return Err(string_of("name table too short"));
    }
    let ghost t = name@;
    let len = name.len();
    let count = match be_u16(name.as_slice(), 2) {
        Ok(v) => v as usize,
        Err(e) => return Err(e),
    };
    let string_offset = match be_u16(name.as_slice(), 4) {
        Ok(v) => v as usize,
        Err(e) => return Err(e),
    };
    let mut records: Vec<NameRecord> = Vec::new();
    let mut i: usize = 0;
    while i < count
        invariant
            0 <= i <= count,
            count == be16(t, 2),
            string_offset == be16(t, 4),
            count <= 65535,
            string_offset <= 65535,
            t == name@,
            len == t.len(),
            len >= 6,
            record_views(records@) == name_records_upto(t, i as int),
        ensures
            record_views(records@) == name_records_upto(t, count as int),
        decreases count - i,
    {
        let offset = 6 + i * 12;
        if offset + 12 > len {
            proof {
                lemma_incomplete_tail(t, i as int, count as int);
            }
            break;
        }
        let platform_id = be16_at(name.as_slice(), offset);
        let encoding_id = be16_at(name.as_slice(), offset + 2);
        let language_id = be16_at(name.as_slice(), offset + 4);
        let name_id = be16_at(name.as_slice(), offset + 6);
        let length = be16_at(name.as_slice(), offset + 8) as usize;
        let value_offset = string_offset + be16_at(name.as_slice(), offset + 10) as usize;
        assert(name_record_complete(t, i as int));
        if value_offset + length > len {
            assert(name_record_at(t, i as int) is None);
            assert(opt_seq(name_record_at(t, i as int)) =~= Seq::<NameRecordSpec>::empty());
            assert(name_records_upto(t, i + 1) =~= name_records_upto(t, i as int));
            i = i + 1;
            continue;
        }
        let raw = copy_range(name.as_slice(), value_offset, value_offset + length);
        let value = match decode_name(platform_id, encoding_id, raw.as_slice()) {
            Some(v) => v,
            None => {
                assert(name_record_at(t, i as int) is None);
                assert(opt_seq(name_record_at(t, i as int)) =~= Seq::<NameRecordSpec>::empty());
                assert(name_records_upto(t, i + 1) =~= name_records_upto(t, i as int));
                i = i + 1;
                continue;
            },
        };
        if blank(value.as_str()) {
            assert(name_record_at(t, i as int) is None);
            assert(opt_seq(name_record_at(t, i as int)) =~= Seq::<NameRecordSpec>::empty());
            assert(name_records_upto(t, i + 1) =~= name_records_upto(t, i as int));
            i = i + 1;
            continue;
        }
        let ghost old_records = record_views(records@);
        let rec = NameRecord { platform_id, language_id, name_id, value };
        assert(name_record_at(t, i as int) == Some(rec@));
        records.push(rec);
        assert(record_views(records@) =~= old_records.push(rec@));
        assert(name_records_upto(t, i + 1) =~= name_records_upto(t, i as int) + seq![rec@]);
        i = i + 1;
    }
    Ok(sort_by_priority(&records))
}

/// The big-endian `u16` at `offset`, which lies inside the data.
fn be16_at(bytes: &[u8], offset: usize) -> (r: u16)
    requires
        offset + 2 <= bytes@.len(),
    ensures
        r == be16(bytes@, offset as int),
{
    (bytes[offset] as u16) * 256 + (bytes[offset + 1] as u16)
}

/// Once a record does not fit, no later record does, so the usable records
/// stop growing.
proof fn lemma_incomplete_tail(t: Seq<u8>, i: int, n: int)
    requires
        0 <= i <= n,
        !name_record_complete(t, i),
    ensures
        name_records_upto(t, n) == name_records_upto(t, i),
    decreases n - i,
{
    if n > i {
        lemma_incomplete_tail(t, i, n - 1);
        assert(!name_record_complete(t, n - 1));
    }
}


// ---------------------------------------------------------------------------
// Preview metadata
// ---------------------------------------------------------------------------

/// What the font list shows for a font: its PostScript name, weight class,
/// and its names in preference order.
#[derive(Debug, Clone)]
pub struct FontPreviewMeta {
    pub post_script_name: String,
    pub weight: u16,
    pub local_names: Vec<String>,
}

/// Preview metadata as a mathematical value.
pub struct FontMetaSpec {
    pub post_script_name: Seq<char>,
    pub weight: u16,
    pub local_names: Seq<Seq<char>>,
}

impl View for FontPreviewMeta {
    type V = FontMetaSpec;

    open spec fn view(&self) -> FontMetaSpec {
        FontMetaSpec {
            post_script_name: self.post_script_name@,
            weight: self.weight,
            local_names: deep_strings(self.local_names@),
        }
    }
}

/// `values` with `value` appended unless it is empty or already there.
pub open spec fn push_unique_spec(values: Seq<Seq<char>>, value: Seq<char>) -> Seq<Seq<char>> {
    if value.len() == 0 || values.contains(value) {
        values
    } else {
        values.push(value)
    }
}

/// The non-empty values of `s` without repeats, each where it first occurs.
pub open spec fn unique_values(s: Seq<Seq<char>>) -> Seq<Seq<char>>
    decreases s.len(),
{
    if s.len() == 0 {
        Seq::empty()
    } else {
        push_unique_spec(unique_values(s.drop_last()), s.last())
    }
}

/// Appends `value` unless it is empty or already listed.
pub fn push_unique(values: &mut Vec<String>, value: &str)
    ensures
        deep_strings(final(values)@) == push_unique_spec(deep_strings(old(values)@), value@),
{
    let v = string_of(value);
    if value.is_empty() {
        return;
    }
    let mut i: usize = 0;
    while i < values.len()
        invariant
            0 <= i <= values@.len(),
            v@ == value@,
            forall|k: int| 0 <= k < i ==> values@[k]@ != value@,
        decreases values@.len() - i,
    {
        if values[i] == v {
            assert(deep_strings(values@)[i as int] == value@);
            return;
        }
        i = i + 1;
    }
    assert(!deep_strings(values@).contains(value@)) by {
        if deep_strings(values@).contains(value@) {
            let k = choose|k: int| 0 <= k < values@.len() && deep_strings(values@)[k] == value@;
            assert(values@[k]@ == value@);
        }
    }
    let ghost old_values = deep_strings(values@);
    values.push(v);
    assert(deep_strings(values@) =~= old_values.push(value@));
}

/// The records with a given name id, in their order.
pub open spec fn records_with_id(rs: Seq<NameRecordSpec>, id: u16) -> Seq<NameRecordSpec>
    decreases rs.len(),
{
    if rs.len() == 0 {
        Seq::empty()
    } else if rs.last().name_id == id {
        records_with_id(rs.drop_last(), id).push(rs.last())
    } else {
        records_with_id(rs.drop_last(), id)
    }
}

/// The trimmed values of records.
pub open spec fn trimmed_values(rs: Seq<NameRecordSpec>) -> Seq<Seq<char>> {
    rs.map_values(|r: NameRecordSpec| trim(r.value))
}

/// The names shown for a font: PostScript names, full names, family names,
/// typographic family and subfamily names, in that order, trimmed, without
/// repeats.
pub open spec fn local_names_spec(rs: Seq<NameRecordSpec>) -> Seq<Seq<char>> {
    unique_values(
        trimmed_values(
            records_with_id(rs, 6) + records_with_id(rs, 4) + records_with_id(rs, 1)
                + records_with_id(rs, 16) + records_with_id(rs, 17),
        ),
    )
}

/// Predicate: a record has name id `id`.
pub open spec fn has_name_id(id: u16) -> spec_fn(NameRecordSpec) -> bool {
    |r: NameRecordSpec| r.name_id == id
}

/// The preview metadata of font data: none unless the weight and the names
/// both read and the first PostScript-name record (in sorted order) is not
/// blank.
pub open spec fn preview_meta_spec(b: Seq<u8>) -> Option<FontMetaSpec> {
    match (font_weight_spec(b), font_names_spec(b)) {
        (Ok(weight), Ok(names)) => match first_match(names, has_name_id(6)) {
            Some(i) => if trim(names[i].value).len() == 0 {
                None
            } else {
                Some(
                    FontMetaSpec {
                        post_script_name: trim(names[i].value),
                        weight,
                        local_names: local_names_spec(names),
                    },
                )
            },
            None => None,
        },
        _ => None,
    }
}

/// Appends the trimmed values of the records with name id `id`, skipping repeats.
fn push_names_with_id(local: &mut Vec<String>, names: &Vec<NameRecord>, id: u16)
    ensures
        deep_strings(final(local)@) == unique_values_from(
            deep_strings(old(local)@),
            trimmed_values(records_with_id(record_views(names@), id)),
        ),
{
    let ghost rs = record_views(names@);
    let ghost start = deep_strings(local@);
    let mut j: usize = 0;
    assert(rs.take(0) =~= Seq::<NameRecordSpec>::empty());
    assert(trimmed_values(records_with_id(rs.take(0), id)) =~= Seq::<Seq<char>>::empty());
    while j < names.len()
        invariant
            0 <= j <= names@.len(),
            rs == record_views(names@),
            deep_strings(local@) == unique_values_from(
                start,
                trimmed_values(records_with_id(rs.take(j as int), id)),
            ),
        decreases names@.len() - j,
    {
        let rec = &names[j];
        assert(rs.take(j + 1).drop_last() =~= rs.take(j as int));
        assert(rs.take(j + 1).last() == rec@);
        if rec.name_id == id {
            let value = string_from_chars(trim_chars(chars_of(rec.value.as_str()).as_slice()).as_slice());
            push_unique(local, value.as_str());
            let ghost pre = trimmed_values(records_with_id(rs.take(j as int), id));
            assert(trimmed_values(records_with_id(rs.take(j + 1), id)) =~= pre.push(trim(rec@.value)));
            assert(pre.push(trim(rec@.value)).drop_last() =~= pre);
        }
        j = j + 1;
    }
    assert(rs.take(rs.len() as int) =~= rs);
}

/// `unique_values` continued from an existing list.
pub open spec fn unique_values_from(start: Seq<Seq<char>>, s: Seq<Seq<char>>) -> Seq<Seq<char>>
    decreases s.len(),
{
    if s.len() == 0 {
        start
    } else {
        push_unique_spec(unique_values_from(start, s.drop_last()), s.last())
    }
}

proof fn lemma_unique_values_concat(start: Seq<Seq<char>>, a: Seq<Seq<char>>, b: Seq<Seq<char>>)
    ensures
        unique_values_from(unique_values_from(start, a), b) == unique_values_from(start, a + b),
    decreases b.len(),
{
    if b.len() == 0 {
        assert(a + b =~= a);
    } else {
        lemma_unique_values_concat(start, a, b.drop_last());
        assert((a + b).drop_last() =~= a + b.drop_last());
        assert((a + b).last() == b.last());
    }
}

proof fn lemma_unique_values_empty(s: Seq<Seq<char>>)
    ensures
        unique_values_from(Seq::empty(), s) == unique_values(s),
    decreases s.len(),
{
    if s.len() > 0 {
        lemma_unique_values_empty(s.drop_last());
    }
}

/// The preference of a name id among the names shown for a font:
/// PostScript name (6), full name (4), family (1), typographic family (16),
/// typographic subfamily (17); 5 for every other id, which is not shown.
pub open spec fn shown_rank(id: u16) -> int {
    if id == 6 {
        0
    } else if id == 4 {
        1
    } else if id == 1 {
        2
    } else if id == 16 {
        3
    } else if id == 17 {
        4
    } else {
        5
    }
}

/// Some record with a shown name id has the trimmed value `x`.
pub open spec fn shown_name(rs: Seq<NameRecordSpec>, x: Seq<char>) -> bool {
    exists|k: int| 0 <= k < rs.len() && shown_rank((#[trigger] rs[k]).name_id) < 5 && trim(rs[k].value) == x
}

proof fn lemma_records_with_id(rs: Seq<NameRecordSpec>, id: u16)
    ensures
        forall|j: int|
            0 <= j < records_with_id(rs, id).len() ==> (#[trigger] records_with_id(rs, id)[j]).name_id
                == id && rs.contains(records_with_id(rs, id)[j]),
        forall|k: int|
            0 <= k < rs.len() && (#[trigger] rs[k]).name_id == id ==> records_with_id(rs, id).contains(
                rs[k],
            ),
    decreases rs.len(),
{
    if rs.len() > 0 {
        let rest = rs.drop_last();
        lemma_records_with_id(rest, id);
        let g = records_with_id(rs, id);
        let h = records_with_id(rest, id);
        assert forall|j: int| 0 <= j < g.len() implies (#[trigger] g[j]).name_id == id && rs.contains(g[j]) by {
            if j < h.len() {
                assert(g[j] == h[j]);
                let m = choose|m: int| 0 <= m < rest.len() && rest[m] == h[j];
                assert(rs[m] == rest[m]);
            } else {
                assert(g[j] == rs.last());
                assert(rs[rs.len() - 1] == rs.last());
            }
        }
        assert forall|k: int| 0 <= k < rs.len() && (#[trigger] rs[k]).name_id == id implies g.contains(rs[k]) by {
            if k < rest.len() {
                assert(rest[k] == rs[k]);
                assert(h.contains(rs[k]));
                let m = choose|m: int| 0 <= m < h.len() && h[m] == rs[k];
                assert(g[m] == h[m]);
            } else {
                assert(g[g.len() - 1] == rs.last());
            }
        }
    }
}

/// The records whose values are shown, grouped by name id in preference order.
pub open spec fn shown_records(rs: Seq<NameRecordSpec>) -> Seq<NameRecordSpec> {
    records_with_id(rs, 6) + records_with_id(rs, 4) + records_with_id(rs, 1) + records_with_id(rs, 16)
        + records_with_id(rs, 17)
}

proof fn lemma_shown_records(rs: Seq<NameRecordSpec>)
    ensures
        forall|p: int|
            0 <= p < shown_records(rs).len() ==> shown_rank((#[trigger] shown_records(rs)[p]).name_id) < 5
                && rs.contains(shown_records(rs)[p]),
        forall|p: int, q: int|
            0 <= p <= q < shown_records(rs).len() ==> shown_rank((#[trigger] shown_records(rs)[p]).name_id)
                <= shown_rank((#[trigger] shown_records(rs)[q]).name_id),
        forall|k: int|
            0 <= k < rs.len() && shown_rank((#[trigger] rs[k]).name_id) < 5 ==> shown_records(rs).contains(
                rs[k],
            ),
{
    let g0 = records_with_id(rs, 6);
    let g1 = records_with_id(rs, 4);
    let g2 = records_with_id(rs, 1);
    let g3 = records_with_id(rs, 16);
    let g4 = records_with_id(rs, 17);
    lemma_records_with_id(rs, 6);
    lemma_records_with_id(rs, 4);
    lemma_records_with_id(rs, 1);
    lemma_records_with_id(rs, 16);
    lemma_records_with_id(rs, 17);
    let a = shown_records(rs);
    let l0 = g0.len() as int;
    let l1 = l0 + g1.len();
    let l2 = l1 + g2.len();
    let l3 = l2 + g3.len();
    assert forall|p: int| 0 <= p < a.len() implies shown_rank((#[trigger] a[p]).name_id) == (if p < l0 {
        0int
    } else if p < l1 {
        1int
    } else if p < l2 {
        2int
    } else if p < l3 {
        3int
    } else {
        4int
    }) && rs.contains(a[p]) by {
        if p < l0 {
            assert(a[p] == g0[p]);
        } else if p < l1 {
            assert(a[p] == g1[p - l0]);
        } else if p < l2 {
            assert(a[p] == g2[p - l1]);
        } else if p < l3 {
            assert(a[p] == g3[p - l2]);
        } else {
            assert(a[p] == g4[p - l3]);
        }
    }
    assert forall|k: int| 0 <= k < rs.len() && shown_rank((#[trigger] rs[k]).name_id) < 5 implies a.contains(
        rs[k],
    ) by {
        let r = rs[k];
        if r.name_id == 6 {
            let m = choose|m: int| 0 <= m < g0.len() && g0[m] == r;
            assert(a[m] == r);
        } else if r.name_id == 4 {
            let m = choose|m: int| 0 <= m < g1.len() && g1[m] == r;
            assert(a[l0 + m] == r);
        } else if r.name_id == 1 {
            let m = choose|m: int| 0 <= m < g2.len() && g2[m] == r;
            assert(a[l1 + m] == r);
        } else if r.name_id == 16 {
            let m = choose|m: int| 0 <= m < g3.len() && g3[m] == r;
            assert(a[l2 + m] == r);
        } else {
            let m = choose|m: int| 0 <= m < g4.len() && g4[m] == r;
            assert(a[l3 + m] == r);
        }
    }
}

/// `x` occurs in `s` before every occurrence of `y`.
pub open spec fn occurs_before(s: Seq<Seq<char>>, x: Seq<char>, y: Seq<char>) -> bool {
    exists|p: int|
        0 <= p < s.len() && #[trigger] s[p] == x && forall|q: int|
            0 <= q < s.len() && #[trigger] s[q] == y ==> p < q
}

/// What `unique_values` keeps: each non-empty value of `s`, once, and in
/// the order of first occurrence: an earlier kept value occurs in `s`
/// before every occurrence of a later one.
proof fn lemma_unique_values_order(s: Seq<Seq<char>>)
    ensures
        forall|x: Seq<char>| #[trigger] unique_values(s).contains(x) <==> x.len() > 0 && s.contains(x),
        forall|i: int, j: int|
            #![trigger unique_values(s)[i], unique_values(s)[j]]
            0 <= i < j < unique_values(s).len() ==> occurs_before(s, unique_values(s)[i], unique_values(s)[j]),
    decreases s.len(),
{
    if s.len() > 0 {
        let rest = s.drop_last();
        lemma_unique_values_order(rest);
        let u0 = unique_values(rest);
        let u = unique_values(s);
        let v = s.last();
        assert(s[s.len() - 1] == v);
        assert forall|x: Seq<char>| #[trigger] u.contains(x) <==> x.len() > 0 && s.contains(x) by {
            if u.contains(x) {
                let m = choose|m: int| 0 <= m < u.len() && u[m] == x;
                if m < u0.len() {
                    assert(u0[m] == x);
                    assert(u0.contains(x));
                    let k = choose|k: int| 0 <= k < rest.len() && rest[k] == x;
                    assert(s[k] == x);
                }
            }
            if x.len() > 0 && s.contains(x) {
                let k = choose|k: int| 0 <= k < s.len() && s[k] == x;
                if k < rest.len() {
                    assert(rest[k] == x);
                    assert(u0.contains(x));
                    let m = choose|m: int| 0 <= m < u0.len() && u0[m] == x;
                    if !(v.len() == 0 || u0.contains(v)) {
                        assert(u[m] == x);
                    }
                } else if !(v.len() == 0 || u0.contains(v)) {
                    assert(u[u0.len() as int] == x);
                }
            }
        }
        assert forall|i: int, j: int| 0 <= i < j < u.len() implies #[trigger] occurs_before(s, u[i], u[j]) by {
            assert(u[i] == u0[i]);
            assert(u0.contains(u0[i]));
            if j < u0.len() {
                assert(u[j] == u0[j]);
                assert(occurs_before(rest, u0[i], u0[j]));
                let p = choose|p: int|
                    0 <= p < rest.len() && #[trigger] rest[p] == u0[i] && forall|q: int|
                        0 <= q < rest.len() && #[trigger] rest[q] == u0[j] ==> p < q;
                assert(s[p] == u[i]);
                assert forall|q: int| 0 <= q < s.len() && #[trigger] s[q] == u[j] implies p < q by {
                    if q < rest.len() {
                        assert(rest[q] == s[q]);
                    }
                }
            } else {
                assert(u[j] == v);
                assert(!u0.contains(v));
                let k = choose|k: int| 0 <= k < rest.len() && rest[k] == u0[i];
                assert(s[k] == u[i]);
                assert forall|q: int| 0 <= q < s.len() && #[trigger] s[q] == u[j] implies k < q by {
                    if q < rest.len() {
                        assert(rest[q] == v);
                        assert(u0.contains(v));
                    }
                }
            }
        }
    }
}

/// `l` is the list of names shown for a font with name records `rs`: the
/// non-empty trimmed values of the records with name ids 6, 4, 1, 16 and 17,
/// each once, in preference order (a name comes before another only when
/// some record gives it with an id preferred at least as much as any record
/// that gives the other).
pub open spec fn shows_names(rs: Seq<NameRecordSpec>, l: Seq<Seq<char>>) -> bool {
    &&& forall|x: Seq<char>| #[trigger] l.contains(x) <==> x.len() > 0 && shown_name(rs, x)
    &&& forall|i: int, j: int| 0 <= i < j < l.len() ==> l[i] != l[j]
    &&& forall|a: int, b: int, k: int|
        #![trigger l[a], l[b], rs[k]]
        0 <= a < b < l.len() && 0 <= k < rs.len() && shown_rank(rs[k].name_id) < 5 && trim(rs[k].value)
            == l[b] ==> exists|m: int|
            0 <= m < rs.len() && shown_rank((#[trigger] rs[m]).name_id) <= shown_rank(rs[k].name_id)
                && trim(rs[m].value) == l[a]
}

/// The names shown for a font are exactly its records' trimmed, non-empty
/// values under name ids 6, 4, 1, 16 and 17, without repeats, in preference
/// order.
pub proof fn lemma_local_names(rs: Seq<NameRecordSpec>)
    ensures
        shows_names(rs, local_names_spec(rs)),
{
    let a = shown_records(rs);
    let s = trimmed_values(a);
    let l = local_names_spec(rs);
    assert(l == unique_values(s));
    lemma_shown_records(rs);
    lemma_unique_values_order(s);
    lemma_unique_values_distinct(s);
    assert forall|x: Seq<char>| #[trigger] l.contains(x) <==> x.len() > 0 && shown_name(rs, x) by {
        if s.contains(x) {
            let p = choose|p: int| 0 <= p < s.len() && s[p] == x;
            assert(rs.contains(a[p]));
            let k = choose|k: int| 0 <= k < rs.len() && rs[k] == a[p];
            assert(shown_rank(rs[k].name_id) < 5 && trim(rs[k].value) == x);
        }
        if shown_name(rs, x) {
            let k = choose|k: int| 0 <= k < rs.len() && shown_rank((#[trigger] rs[k]).name_id) < 5 && trim(rs[k].value) == x;
            assert(a.contains(rs[k]));
            let p = choose|p: int| 0 <= p < a.len() && a[p] == rs[k];
            assert(s[p] == x);
        }
    }
    assert forall|i: int, j: int| 0 <= i < j < l.len() implies l[i] != l[j] by {}
    assert forall|x: int, y: int, k: int|
        #![trigger l[x], l[y], rs[k]]
        0 <= x < y < l.len() && 0 <= k < rs.len() && shown_rank(rs[k].name_id) < 5 && trim(rs[k].value)
            == l[y] implies exists|m: int|
            0 <= m < rs.len() && shown_rank((#[trigger] rs[m]).name_id) <= shown_rank(rs[k].name_id)
                && trim(rs[m].value) == l[x] by {
        assert(occurs_before(s, l[x], l[y]));
        let p = choose|p: int|
            0 <= p < s.len() && #[trigger] s[p] == l[x] && forall|q: int|
                0 <= q < s.len() && #[trigger] s[q] == l[y] ==> p < q;
        assert(a.contains(rs[k]));
        let q = choose|q: int| 0 <= q < a.len() && a[q] == rs[k];
        assert(s[q] == l[y]);
        assert(p < q);
        assert(shown_rank(a[p].name_id) <= shown_rank(a[q].name_id));
        assert(rs.contains(a[p]));
        let m = choose|m: int| 0 <= m < rs.len() && rs[m] == a[p];
        assert(trim(rs[m].value) == s[p]);
    }
}

/// Reads the preview metadata from font data.
pub fn parse_preview_meta(bytes: &[u8]) -> (r: Option<FontPreviewMeta>)
    ensures
        match r {
            Some(m) => preview_meta_spec(bytes@) == Some(m@),
            None => preview_meta_spec(bytes@) is None,
        },
        match r {
            Some(m) => match font_names_spec(bytes@) {
                Ok(rs) => shows_names(rs, m@.local_names),
                Err(_) => false,
            },
            None => true,
        },
{
    let weight = match parse_font_weight(bytes) {
        Ok(w) => w,
        Err(_) => return None,
    };
    let names = match parse_font_names(bytes) {
        Ok(n) => n,
        Err(_) => return None,
    };
    let ghost rs = record_views(names@);
    let mut i: usize = 0;
    while i < names.len()
        invariant
            0 <= i <= names@.len(),
            rs == record_views(names@),
            first_match(rs.take(i as int), has_name_id(6)) is None,
        ensures
            0 <= i <= names@.len(),
            i < names@.len() ==> first_match(rs, has_name_id(6)) == Some(i as int),
            first_match(rs.take(i as int), has_name_id(6)) is None,
        decreases names@.len() - i,
    {
        assert(rs.take(i + 1) =~= rs.take(i as int).push(rs[i as int]));
        proof {
            lemma_first_match_push(rs.take(i as int), rs[i as int], has_name_id(6));
        }
        if names[i].name_id == 6 {
            proof {
                crate::text::lemma_first_match_prefix(rs, i + 1, has_name_id(6));
            }
            break;
        }
        i = i + 1;
    }
    if i == names.len() {
        assert(rs.take(rs.len() as int) =~= rs);
        return None;
    }
    let post_script_name = string_from_chars(
        trim_chars(chars_of(names[i].value.as_str()).as_slice()).as_slice(),
    );
    if post_script_name.as_str().is_empty() {
        return None;
    }
    let mut local_names: Vec<String> = Vec::new();
    let ghost r6 = trimmed_values(records_with_id(rs, 6));
    let ghost r4 = trimmed_values(records_with_id(rs, 4));
    let ghost r1 = trimmed_values(records_with_id(rs, 1));
    let ghost r16 = trimmed_values(records_with_id(rs, 16));
    let ghost r17 = trimmed_values(records_with_id(rs, 17));
    let ghost e = Seq::<Seq<char>>::empty();
    assert(deep_strings(local_names@) =~= e);
    push_names_with_id(&mut local_names, &names, 6);
    push_names_with_id(&mut local_names, &names, 4);
    push_names_with_id(&mut local_names, &names, 1);
    push_names_with_id(&mut local_names, &names, 16);
    push_names_with_id(&mut local_names, &names, 17);
    proof {
        lemma_unique_values_concat(e, r6, r4);
        lemma_unique_values_concat(e, r6 + r4, r1);
        lemma_unique_values_concat(e, r6 + r4 + r1, r16);
        lemma_unique_values_concat(e, r6 + r4 + r1 + r16, r17);
        let all = records_with_id(rs, 6) + records_with_id(rs, 4) + records_with_id(rs, 1)
            + records_with_id(rs, 16) + records_with_id(rs, 17);
        assert(trimmed_values(all) =~= r6 + r4 + r1 + r16 + r17);
        lemma_unique_values_empty(r6 + r4 + r1 + r16 + r17);
    }
    proof {
        lemma_local_names(rs);
    }
    Some(FontPreviewMeta { post_script_name, weight, local_names })
}

/// Whether a file extension is that of a font file to index: `ttf` or
/// `otf`, in any ASCII case.
pub fn is_font_extension(ext: &str) -> (r: bool)
    ensures
        r == (crate::text::ascii_lowercase(ext@) == "ttf"@ || crate::text::ascii_lowercase(ext@)
            == "otf"@),
{
    let lower = crate::text::ascii_lowercase_chars(chars_of(ext).as_slice());
    crate::text::chars_eq(lower.as_slice(), chars_of("ttf").as_slice()) || crate::text::chars_eq(
        lower.as_slice(),
        chars_of("otf").as_slice(),
    )
}

// ---------------------------------------------------------------------------
// The index of installed fonts
// ---------------------------------------------------------------------------

/// `entries` with `m` added unless its PostScript name is already present.
pub open spec fn index_insert(entries: Seq<FontMetaSpec>, m: FontMetaSpec) -> Seq<FontMetaSpec> {
    if exists|i: int| 0 <= i < entries.len() && entries[i].post_script_name == m.post_script_name {
        entries
    } else {
        entries.push(m)
    }
}

/// Predicate: an entry has PostScript name `name`.
pub open spec fn meta_named(name: Seq<char>) -> spec_fn(FontMetaSpec) -> bool {
    |m: FontMetaSpec| m.post_script_name == name
}

/// The entry of an index for a PostScript name.
pub open spec fn index_lookup(entries: Seq<FontMetaSpec>, name: Seq<char>) -> Option<FontMetaSpec> {
    match first_match(entries, meta_named(name)) {
        Some(i) => Some(entries[i]),
        None => None,
    }
}

/// Preview metadata by PostScript name, collected from font files; the first
/// file read for a name wins.
pub struct FontIndex {
    entries: Vec<FontPreviewMeta>,
}

/// The views of a list of metadata.
pub open spec fn meta_views(v: Seq<FontPreviewMeta>) -> Seq<FontMetaSpec> {
    v.map_values(|m: FontPreviewMeta| m@)
}

impl View for FontIndex {
    type V = Seq<FontMetaSpec>;

    closed spec fn view(&self) -> Seq<FontMetaSpec> {
        meta_views(self.entries@)
    }
}

fn copy_meta(m: &FontPreviewMeta) -> (c: FontPreviewMeta)
    ensures
        c@ == m@,
{
    let mut names: Vec<String> = Vec::new();
    let mut i: usize = 0;
    while i < m.local_names.len()
        invariant
            0 <= i <= m.local_names@.len(),
            deep_strings(names@) == deep_strings(m.local_names@.take(i as int)),
        decreases m.local_names@.len() - i,
    {
        let ghost old_names = deep_strings(names@);
        names.push(m.local_names[i].clone());
        assert(m.local_names@.take(i + 1) =~= m.local_names@.take(i as int).push(m.local_names@[i as int]));
        assert(deep_strings(names@) =~= old_names.push(m.local_names@[i as int]@));
        assert(deep_strings(m.local_names@.take(i + 1)) =~= deep_strings(m.local_names@.take(i as int)).push(
            m.local_names@[i as int]@,
        ));
        i = i + 1;
    }
    assert(m.local_names@.take(m.local_names@.len() as int) =~= m.local_names@);
    FontPreviewMeta {
        post_script_name: m.post_script_name.clone(),
        weight: m.weight,
        local_names: names,
    }
}

impl FontIndex {
    /// An empty index.
    pub fn new() -> (r: Self)
        ensures
            r@ == Seq::<FontMetaSpec>::empty(),
    {
        let r = FontIndex { entries: Vec::new() };
        assert(r@ =~= Seq::<FontMetaSpec>::empty());
        r
    }

    /// The position of the entry for a PostScript name.
    fn position(&self, name: &String) -> (r: Option<usize>)
        ensures
            match r {
                Some(i) => first_match(self@, meta_named(name@)) == Some(i as int) && i < self@.len(),
                None => first_match(self@, meta_named(name@)) is None,
            },
    {
        let ghost es = self@;
        let mut i: usize = 0;
        while i < self.entries.len()
            invariant
                0 <= i <= self.entries@.len(),
                es == self@,
                es == meta_views(self.entries@),
                first_match(es.take(i as int), meta_named(name@)) is None,
            decreases self.entries@.len() - i,
        {
            assert(es.take(i + 1) =~= es.take(i as int).push(es[i as int]));
            proof {
                lemma_first_match_push(es.take(i as int), es[i as int], meta_named(name@));
            }
            if self.entries[i].post_script_name == *name {
                proof {
                    crate::text::lemma_first_match_prefix(es, i + 1, meta_named(name@));
                }
                return Some(i);
            }
            i = i + 1;
        }
        assert(es.take(es.len() as int) =~= es);
        None
    }

    /// Reads a font file's metadata into the index, unless the file has none
    /// or its PostScript name is already indexed.
    pub fn add_font_bytes(&mut self, bytes: &[u8])
        ensures
            final(self)@ == match preview_meta_spec(bytes@) {
                Some(m) => index_insert(old(self)@, m),
                None => old(self)@,
            },
    {
        if let Some(meta) = parse_preview_meta(bytes) {
            let found = self.position(&meta.post_script_name);
            proof {
                lemma_first_match(self@, meta_named(meta@.post_script_name));
            }
            match found {
                Some(i) => {
                    assert(self@[i as int].post_script_name == meta@.post_script_name);
                },
                None => {
                    let ghost old_view = self@;
                    self.entries.push(meta);
                    assert(self@ =~= old_view.push(meta@));
                    assert(!(exists|i: int| 0 <= i < old_view.len() && old_view[i].post_script_name
                        == meta@.post_script_name)) by {
                        if exists|i: int| 0 <= i < old_view.len() && old_view[i].post_script_name
                            == meta@.post_script_name {
                            let i = choose|i: int| 0 <= i < old_view.len() && old_view[i].post_script_name
                                == meta@.post_script_name;
                            assert(meta_named(meta@.post_script_name)(old_view[i]));
                        }
                    }
                },
            }
        }
    }

    /// The metadata for a PostScript name, if indexed.
    pub fn get(&self, name: &String) -> (r: Option<FontPreviewMeta>)
        ensures
            match r {
                Some(m) => index_lookup(self@, name@) == Some(m@),
                None => index_lookup(self@, name@) is None,
            },
    {
        match self.position(name) {
            Some(i) => {
                assert(self@[i as int] == self.entries@[i as int]@);
                Some(copy_meta(&self.entries[i]))
            },
            None => None,
        }
    }
}

/// The names asked for: trimmed, non-empty, each once, in first-occurrence order.
pub open spec fn wanted_names(names: Seq<Seq<char>>) -> Seq<Seq<char>> {
    unique_values(names.map_values(|n: Seq<char>| trim(n)))
}

/// The entries found for names, in the names' order.
pub open spec fn resolved(entries: Seq<FontMetaSpec>, names: Seq<Seq<char>>) -> Seq<FontMetaSpec>
    decreases names.len(),
{
    if names.len() == 0 {
        Seq::empty()
    } else {
        resolved(entries, names.drop_last()) + opt_seq(index_lookup(entries, names.last()))
    }
}

/// The preview metadata of the requested fonts that the index knows. Names
/// are trimmed, blank ones dropped and repeats asked once; the result
/// follows the order in which the names first occur.
pub fn resolve(post_script_names: Vec<String>, index: &FontIndex) -> (r: Vec<FontPreviewMeta>)
    ensures
        meta_views(r@) == resolved(index@, wanted_names(deep_strings(post_script_names@))),
{
    let ghost input = deep_strings(post_script_names@);
    let ghost trimmed = input.map_values(|n: Seq<char>| trim(n));
    let mut wanted: Vec<String> = Vec::new();
    let mut i: usize = 0;
    assert(trimmed.take(0) =~= Seq::<Seq<char>>::empty());
    while i < post_script_names.len()
        invariant
            0 <= i <= post_script_names@.len(),
            input == deep_strings(post_script_names@),
            trimmed == input.map_values(|n: Seq<char>| trim(n)),
            deep_strings(wanted@) == unique_values(trimmed.take(i as int)),
        decreases post_script_names@.len() - i,
    {
        let name = string_from_chars(
            trim_chars(chars_of(post_script_names[i].as_str()).as_slice()).as_slice(),
        );
        assert(trimmed.take(i + 1).drop_last() =~= trimmed.take(i as int));
        assert(trimmed.take(i + 1).last() == trim(post_script_names@[i as int]@));
        push_unique(&mut wanted, name.as_str());
        i = i + 1;
    }
    assert(trimmed.take(trimmed.len() as int) =~= trimmed);
    let ghost w = deep_strings(wanted@);
    let mut out: Vec<FontPreviewMeta> = Vec::new();
    let mut j: usize = 0;
    assert(w.take(0) =~= Seq::<Seq<char>>::empty());
    assert(meta_views(out@) =~= resolved(index@, w.take(0)));
    while j < wanted.len()
        invariant
            0 <= j <= wanted@.len(),
            w == deep_strings(wanted@),
            meta_views(out@) == resolved(index@, w.take(j as int)),
        decreases wanted@.len() - j,
    {
        assert(w.take(j + 1).drop_last() =~= w.take(j as int));
        assert(w.take(j + 1).last() == wanted@[j as int]@);
        let ghost old_out = meta_views(out@);
        match index.get(&wanted[j]) {
            Some(m) => {
                out.push(m);
                assert(meta_views(out@) =~= old_out.push(m@));
                assert(meta_views(out@) =~= old_out + opt_seq(index_lookup(index@, wanted@[j as int]@)));
            },
            None => {
                assert(opt_seq(index_lookup(index@, wanted@[j as int]@)) =~= Seq::<FontMetaSpec>::empty());
                assert(old_out + Seq::<FontMetaSpec>::empty() =~= old_out);
            },
        }
        j = j + 1;
    }
    assert(w.take(w.len() as int) =~= w);
    out
}

/// Every record of `rs` has a key in `0..k`.
pub open spec fn keys_below(rs: Seq<NameRecordSpec>, k: int) -> bool {
    forall|i: int| 0 <= i < rs.len() ==> 0 <= record_key(#[trigger] rs[i]) < k
}

proof fn lemma_key_bounds(r: NameRecordSpec)
    ensures
        0 <= record_key(r) < 36,
{
}

proof fn lemma_records_with_key_concat(a: Seq<NameRecordSpec>, b: Seq<NameRecordSpec>, k: int)
    ensures
        records_with_key(a + b, k) == records_with_key(a, k) + records_with_key(b, k),
    decreases b.len(),
{
    if b.len() == 0 {
        assert(a + b =~= a);
        assert(records_with_key(a, k) + records_with_key(b, k) =~= records_with_key(a, k));
    } else {
        assert((a + b).drop_last() =~= a + b.drop_last());
        lemma_records_with_key_concat(a, b.drop_last(), k);
        if record_key(b.last()) == k {
            assert(records_with_key(a, k) + records_with_key(b.drop_last(), k).push(b.last())
                =~= (records_with_key(a, k) + records_with_key(b.drop_last(), k)).push(b.last()));
        }
    }
}

proof fn lemma_records_with_key_all(rs: Seq<NameRecordSpec>, k: int)
    ensures
        forall|i: int|
            0 <= i < records_with_key(rs, k).len() ==> record_key(
                #[trigger] records_with_key(rs, k)[i],
            ) == k,
        records_with_key(records_with_key(rs, k), k) == records_with_key(rs, k),
        forall|j: int| j != k ==> #[trigger] records_with_key(records_with_key(rs, k), j) == Seq::<
            NameRecordSpec,
        >::empty(),
    decreases rs.len(),
{
    if rs.len() > 0 {
        lemma_records_with_key_all(rs.drop_last(), k);
        let p = records_with_key(rs.drop_last(), k);
        if record_key(rs.last()) == k {
            assert(p.push(rs.last()).drop_last() =~= p);
            assert forall|j: int| j != k implies #[trigger] records_with_key(
                records_with_key(rs, k),
                j,
            ) == Seq::<NameRecordSpec>::empty() by {
                assert(records_with_key(p, j) == Seq::<NameRecordSpec>::empty());
            }
        }
    }
}

proof fn lemma_sorted_below_keys(rs: Seq<NameRecordSpec>, k: int, j: int)
    requires
        0 <= k,
    ensures
        records_with_key(sorted_below(rs, k), j) == if 0 <= j < k {
            records_with_key(rs, j)
        } else {
            Seq::<NameRecordSpec>::empty()
        },
        keys_below(sorted_below(rs, k), k),
    decreases k,
{
    if k > 0 {
        lemma_sorted_below_keys(rs, k - 1, j);
        lemma_records_with_key_concat(sorted_below(rs, k - 1), records_with_key(rs, k - 1), j);
        lemma_records_with_key_all(rs, k - 1);
        let a = sorted_below(rs, k - 1);
        let b = records_with_key(rs, k - 1);
        if j == k - 1 {
            assert(records_with_key(a, j) =~= Seq::<NameRecordSpec>::empty());
        } else {
            assert(records_with_key(b, j) == Seq::<NameRecordSpec>::empty());
            assert(records_with_key(a, j) + Seq::<NameRecordSpec>::empty() =~= records_with_key(a, j));
        }
        assert forall|i: int| 0 <= i < (a + b).len() implies 0 <= record_key(#[trigger] (a + b)[i]) < k by {
            if i < a.len() {
                assert((a + b)[i] == a[i]);
            } else {
                assert((a + b)[i] == b[i - a.len()]);
            }
        }
    } else {
        assert(records_with_key(Seq::<NameRecordSpec>::empty(), j) =~= Seq::<NameRecordSpec>::empty());
    }
}

proof fn lemma_sorted_below_ordered(rs: Seq<NameRecordSpec>, k: int)
    requires
        0 <= k,
    ensures
        forall|i: int, j: int|
            0 <= i < j < sorted_below(rs, k).len() ==> record_key(#[trigger] sorted_below(rs, k)[i])
                <= record_key(#[trigger] sorted_below(rs, k)[j]),
    decreases k,
{
    if k > 0 {
        lemma_sorted_below_ordered(rs, k - 1);
        lemma_sorted_below_keys(rs, k - 1, 0);
        lemma_records_with_key_all(rs, k - 1);
        let a = sorted_below(rs, k - 1);
        let b = records_with_key(rs, k - 1);
        let s = a + b;
        assert forall|i: int, j: int| 0 <= i < j < s.len() implies record_key(#[trigger] s[i])
            <= record_key(#[trigger] s[j]) by {
            if j < a.len() {
                assert(s[i] == a[i] && s[j] == a[j]);
            } else if i < a.len() {
                assert(s[i] == a[i]);
                assert(s[j] == b[j - a.len()]);
            } else {
                assert(s[i] == b[i - a.len()] && s[j] == b[j - a.len()]);
            }
        }
    }
}

/// The name records come out as a stable sort by key: ordered by key, and
/// for every key the records with that key are exactly those of the input,
/// in the input's order.
pub proof fn lemma_sort_records_stable(rs: Seq<NameRecordSpec>)
    ensures
        forall|i: int, j: int|
            0 <= i < j < sort_records(rs).len() ==> record_key(#[trigger] sort_records(rs)[i])
                <= record_key(#[trigger] sort_records(rs)[j]),
        forall|k: int| #[trigger] records_with_key(sort_records(rs), k) == records_with_key(rs, k),
        sort_records(rs).len() == rs.len(),
{
    lemma_sorted_below_ordered(rs, 36);
    assert forall|k: int| #[trigger] records_with_key(sort_records(rs), k) == records_with_key(rs, k) by {
        lemma_sorted_below_keys(rs, 36, k);
        if !(0 <= k < 36) {
            lemma_no_key(rs, k);
        }
    }
    lemma_sorted_len(rs, 36);
    lemma_count_split(rs, 0);
}

proof fn lemma_no_key(rs: Seq<NameRecordSpec>, k: int)
    requires
        !(0 <= k < 36),
    ensures
        records_with_key(rs, k) == Seq::<NameRecordSpec>::empty(),
    decreases rs.len(),
{
    if rs.len() > 0 {
        lemma_key_bounds(rs.last());
        lemma_no_key(rs.drop_last(), k);
    }
}

/// The number of records with keys in `lo..hi`.
spec fn count_keys(rs: Seq<NameRecordSpec>, lo: int, hi: int) -> int
    decreases rs.len(),
{
    if rs.len() == 0 {
        0
    } else {
        count_keys(rs.drop_last(), lo, hi) + if lo <= record_key(rs.last()) < hi {
            1int
        } else {
            0
        }
    }
}

proof fn lemma_count_split(rs: Seq<NameRecordSpec>, k: int)
    requires
        0 <= k,
    ensures
        count_keys(rs, 0, k + 1) == count_keys(rs, 0, k) + records_with_key(rs, k).len(),
        count_keys(rs, 0, 0) == 0,
        count_keys(rs, 0, 36) == rs.len(),
    decreases rs.len(),
{
    if rs.len() > 0 {
        lemma_count_split(rs.drop_last(), k);
        lemma_key_bounds(rs.last());
    }
}

proof fn lemma_sorted_len(rs: Seq<NameRecordSpec>, k: int)
    requires
        0 <= k,
    ensures
        sorted_below(rs, k).len() == count_keys(rs, 0, k),
    decreases k,
{
    if k > 0 {
        lemma_sorted_len(rs, k - 1);
        lemma_count_split(rs, k - 1);
    } else {
        lemma_count_split(rs, 0);
    }
}

/// Adding a value twice adds it once, and a list built by `push_unique`
/// never holds an empty value or a value twice.
pub proof fn lemma_push_unique(values: Seq<Seq<char>>, value: Seq<char>)
    ensures
        push_unique_spec(push_unique_spec(values, value), value) == push_unique_spec(values, value),
        (forall|i: int, j: int|
            0 <= i < j < values.len() ==> values[i] != values[j]) && (forall|i: int|
            0 <= i < values.len() ==> values[i].len() > 0) ==> (forall|i: int, j: int|
            0 <= i < j < push_unique_spec(values, value).len() ==> push_unique_spec(values, value)[i]
                != push_unique_spec(values, value)[j]) && (forall|i: int|
            0 <= i < push_unique_spec(values, value).len() ==> push_unique_spec(values, value)[i].len()
                > 0),
{
    let p = push_unique_spec(values, value);
    if !(value.len() == 0 || values.contains(value)) {
        assert(p[values.len() as int] == value);
        assert(p.contains(value));
        assert forall|i: int, j: int| 0 <= i < j < p.len() && (forall|a: int, b: int|
            0 <= a < b < values.len() ==> values[a] != values[b]) implies p[i] != p[j] by {
            if j == values.len() {
                assert(p[i] == values[i]);
                assert(!values.contains(value));
            }
        }
    }
}

/// The first file read for a PostScript name decides its entry: adding
/// metadata whose name is already indexed changes no lookup, and adding a
/// new name makes lookups of that name give the new metadata.
pub proof fn lemma_index_first_wins(entries: Seq<FontMetaSpec>, m: FontMetaSpec, name: Seq<char>)
    ensures
        index_lookup(entries, m.post_script_name) is Some ==> index_insert(entries, m) == entries,
        index_lookup(entries, m.post_script_name) is None ==> index_lookup(index_insert(entries, m), m.post_script_name)
            == Some(m),
        name != m.post_script_name ==> index_lookup(index_insert(entries, m), name) == index_lookup(
            entries,
            name,
        ),
{
    lemma_first_match(entries, meta_named(m.post_script_name));
    lemma_first_match_push(entries, m, meta_named(m.post_script_name));
    lemma_first_match_push(entries, m, meta_named(name));
    if let Some(i) = first_match(entries, meta_named(m.post_script_name)) {
        assert(entries[i].post_script_name == m.post_script_name);
    } else {
        if exists|i: int| 0 <= i < entries.len() && entries[i].post_script_name == m.post_script_name {
            let i = choose|i: int| 0 <= i < entries.len() && entries[i].post_script_name == m.post_script_name;
            assert(meta_named(m.post_script_name)(entries[i]));
        }
        assert(entries.push(m)[entries.len() as int] == m);
    }
    if name != m.post_script_name {
        lemma_first_match(entries, meta_named(name));
        if let Some(i) = first_match(entries, meta_named(name)) {
            assert(entries.push(m)[i] == entries[i]);
        }
    }
}

proof fn lemma_unique_values_distinct(s: Seq<Seq<char>>)
    ensures
        forall|i: int, j: int|
            0 <= i < j < unique_values(s).len() ==> unique_values(s)[i] != unique_values(s)[j],
        forall|i: int| 0 <= i < unique_values(s).len() ==> unique_values(s)[i].len() > 0,
    decreases s.len(),
{
    if s.len() > 0 {
        lemma_unique_values_distinct(s.drop_last());
        lemma_push_unique(unique_values(s.drop_last()), s.last());
    }
}

proof fn lemma_resolved_names(entries: Seq<FontMetaSpec>, names: Seq<Seq<char>>)
    ensures
        forall|i: int|
            0 <= i < resolved(entries, names).len() ==> names.contains(
                #[trigger] resolved(entries, names)[i].post_script_name,
            ),
        (forall|a: int, b: int| 0 <= a < b < names.len() ==> names[a] != names[b]) ==> forall|
            i: int,
            j: int,
        |
            0 <= i < j < resolved(entries, names).len() ==> resolved(entries, names)[i].post_script_name
                != resolved(entries, names)[j].post_script_name,
    decreases names.len(),
{
    if names.len() > 0 {
        let rest = names.drop_last();
        let n = names.last();
        lemma_resolved_names(entries, rest);
        let prev = resolved(entries, rest);
        let extra = opt_seq(index_lookup(entries, n));
        let all = prev + extra;
        lemma_first_match(entries, meta_named(n));
        assert forall|i: int| 0 <= i < all.len() implies names.contains(
            #[trigger] all[i].post_script_name,
        ) by {
            if i < prev.len() {
                assert(all[i] == prev[i]);
                let k = choose|k: int| 0 <= k < rest.len() && rest[k] == prev[i].post_script_name;
                assert(names[k] == rest[k]);
            } else {
                assert(all[i] == extra[i - prev.len()]);
                assert(all[i].post_script_name == n);
                assert(names[names.len() - 1] == n);
            }
        }
        if forall|a: int, b: int| 0 <= a < b < names.len() ==> names[a] != names[b] {
            assert forall|a: int, b: int| 0 <= a < b < rest.len() implies rest[a] != rest[b] by {
                assert(rest[a] == names[a] && rest[b] == names[b]);
            }
            assert forall|i: int, j: int| 0 <= i < j < all.len() implies all[i].post_script_name
                != all[j].post_script_name by {
                if j >= prev.len() {
                    assert(all[j].post_script_name == n);
                    assert(all[i] == prev[i]);
                    let k = choose|k: int| 0 <= k < rest.len() && rest[k] == prev[i].post_script_name;
                    assert(names[k] == rest[k]);
                    assert(names[k] != names[names.len() - 1]);
                } else {
                    assert(all[i] == prev[i] && all[j] == prev[j]);
                }
            }
        }
    }
}

/// Each font is resolved at most once, whatever repeats the request holds:
/// the entries that `resolve` gives have distinct PostScript names, each one
/// of the trimmed names asked for.
pub proof fn lemma_resolve_distinct(entries: Seq<FontMetaSpec>, names: Seq<Seq<char>>)
    ensures
        forall|i: int, j: int|
            0 <= i < j < resolved(entries, wanted_names(names)).len() ==> resolved(
                entries,
                wanted_names(names),
            )[i].post_script_name != resolved(entries, wanted_names(names))[j].post_script_name,
        forall|i: int|
            0 <= i < resolved(entries, wanted_names(names)).len() ==> wanted_names(names).contains(
                #[trigger] resolved(entries, wanted_names(names))[i].post_script_name,
            ),
{
    lemma_unique_values_distinct(names.map_values(|n: Seq<char>| trim(n)));
    lemma_resolved_names(entries, wanted_names(names));
}

} // verus!

//! The Unicode character-property table that composite fonts are compiled
//! against: maximal code-point ranges that share a General_Category and a
//! Script_Extensions set, plus the lists of known property values.
//!
//! The table is kept as text (`unicode_data`), one range per line:
//! `FROM TO GC SCRIPT[,SCRIPT...]`, with FROM and TO in upper-case hex.
//! The parser below is verified against `parse_ranges`, so the table that
//! `unicode_ranges()` returns is exactly the one that the text denotes.
use crate::text::{chars_of, deep_chars, push_all};
use crate::unicode_data::{
    range_text_part_list, range_text_parts, GENERAL_CATEGORY_TEXT, SCRIPT_NAME_TEXT,
};
use vstd::prelude::*;

verus! {

/// The Unicode version that the table describes.
pub const UNICODE_VERSION: &'static str = "14.0.0";

/// One row of the property table, as a mathematical value.
pub struct RangeSpec {
    pub from: u32,
    pub to: u32,
    pub general_category: Seq<char>,
    pub script_extensions: Seq<Seq<char>>,
}

/// One row of the property table: the code points `from..=to` share the
/// general category and the Script_Extensions set.
pub struct UnicodeRange {
    pub from: u32,
    pub to: u32,
    pub general_category: Vec<char>,
    pub script_extensions: Vec<Vec<char>>,
}

impl View for UnicodeRange {
    type V = RangeSpec;

    open spec fn view(&self) -> RangeSpec {
        RangeSpec {
            from: self.from,
            to: self.to,
            general_category: self.general_category@,
            script_extensions: deep_chars(self.script_extensions@),
        }
    }
}

/// The views of a list of table rows.
pub open spec fn range_views(v: Seq<UnicodeRange>) -> Seq<RangeSpec> {
    v.map_values(|r: UnicodeRange| r@)
}

// ---------------------------------------------------------------------------
// Splitting
// ---------------------------------------------------------------------------

/// The pieces of `s` between occurrences of `sep` (as `str::split` gives them:
/// an empty `s` gives one empty piece).
pub open spec fn split_on(s: Seq<char>, sep: char) -> Seq<Seq<char>>
    decreases s.len(),
{
    if s.len() == 0 {
        seq![Seq::<char>::empty()]
    } else {
        let p = split_on(s.drop_last(), sep);
        if s.last() == sep {
            p.push(Seq::<char>::empty())
        } else {
            p.update(p.len() - 1, p.last().push(s.last()))
        }
    }
}

/// Splitting always gives at least one piece.
pub proof fn lemma_split_on_nonempty(s: Seq<char>, sep: char)
    ensures
        split_on(s, sep).len() >= 1,
    decreases s.len(),
{
    if s.len() > 0 {
        lemma_split_on_nonempty(s.drop_last(), sep);
    }
}

/// The pieces of `s` between occurrences of `sep`.
pub fn split_chars(s: &[char], sep: char) -> (r: Vec<Vec<char>>)
    ensures
        deep_chars(r@) == split_on(s@, sep),
{
    let mut done: Vec<Vec<char>> = Vec::new();
    let mut cur: Vec<char> = Vec::new();
    let mut i: usize = 0;
    assert(s@.take(0) =~= Seq::<char>::empty());
    assert(deep_chars(done@).push(cur@) =~= seq![Seq::<char>::empty()]);
    while i < s.len()
        invariant
            0 <= i <= s@.len(),
            deep_chars(done@).push(cur@) == split_on(s@.take(i as int), sep),
        decreases s@.len() - i,
    {
        let c = s[i];
        let ghost before = s@.take(i as int);
        assert(s@.take(i + 1).drop_last() =~= before);
        proof {
            lemma_split_on_nonempty(before, sep);
        }
        if c == sep {
            let piece = cur;
            done.push(piece);
            cur = Vec::new();
            assert(deep_chars(done@).push(cur@) =~= split_on(before, sep).push(
                Seq::<char>::empty(),
            ));
        } else {
            let ghost old_done = deep_chars(done@);
            cur.push(c);
            assert(deep_chars(done@).push(cur@) =~= split_on(before, sep).update(
                split_on(before, sep).len() - 1,
                split_on(before, sep).last().push(c),
            ));
        }
        i = i + 1;
    }
    assert(s@.take(s@.len() as int) =~= s@);
    let ghost final_cur = cur@;
    done.push(cur);
    assert(deep_chars(done@) =~= split_on(s@, sep));
    done
}

// ---------------------------------------------------------------------------
// Hexadecimal numbers
// ---------------------------------------------------------------------------

/// The value of an upper-case hex digit, or -1.
pub open spec fn hex_digit(c: char) -> int {
    if '0' <= c && c <= '9' {
        c as int - '0' as int
    } else if 'A' <= c && c <= 'F' {
        c as int - 'A' as int + 10
    } else {
        -1
    }
}

/// The value of a string of hex digits.
pub open spec fn hex_value(s: Seq<char>) -> int
    decreases s.len(),
{
    if s.len() == 0 {
        0
    } else {
        hex_value(s.drop_last()) * 16 + hex_digit(s.last())
    }
}

/// `s` is one to six upper-case hex digits.
pub open spec fn is_hex(s: Seq<char>) -> bool {
    1 <= s.len() <= 6 && forall|i: int| 0 <= i < s.len() ==> hex_digit(#[trigger] s[i]) >= 0
}

/// Sixteen to the power `n`.
pub open spec fn pow16(n: nat) -> int
    decreases n,
{
    if n == 0 {
        1
    } else {
        16 * pow16((n - 1) as nat)
    }
}

proof fn lemma_hex_bound(s: Seq<char>)
    requires
        forall|i: int| 0 <= i < s.len() ==> hex_digit(#[trigger] s[i]) >= 0,
    ensures
        0 <= hex_value(s) < pow16(s.len()),
    decreases s.len(),
{
    if s.len() > 0 {
        let p = s.drop_last();
        assert forall|i: int| 0 <= i < p.len() implies hex_digit(#[trigger] p[i]) >= 0 by {
            assert(p[i] == s[i]);
        }
        lemma_hex_bound(p);
        let v = hex_value(p);
        let d = hex_digit(s.last());
        let b = pow16(p.len());
        assert(d <= 15);
        assert(0 <= v * 16 + d < 16 * b) by (nonlinear_arith)
            requires
                0 <= v < b,
                0 <= d <= 15,
        ;
    }
}

fn hex_digit_exec(c: char) -> (r: i32)
    ensures
        r == hex_digit(c),
{
    if '0' <= c && c <= '9' {
        (c as u32 - '0' as u32) as i32
    } else if 'A' <= c && c <= 'F' {
        (c as u32 - 'A' as u32 + 10) as i32
    } else {
        -1
    }
}

/// The value of `s` when it is one to six hex digits.
fn parse_hex(s: &[char]) -> (r: Option<u32>)
    ensures
        match r {
            Some(v) => is_hex(s@) && v == hex_value(s@),
            None => !is_hex(s@),
        },
{
    if s.len() == 0 || s.len() > 6 {
        return None;
    }
    let mut v: u32 = 0;
    let mut i: usize = 0;
    while i < s.len()
        invariant
            0 <= i <= s@.len(),
            s@.len() <= 6,
            forall|k: int| 0 <= k < i ==> hex_digit(#[trigger] s@[k]) >= 0,
            v == hex_value(s@.take(i as int)),
        decreases s@.len() - i,
    {
        let d = hex_digit_exec(s[i]);
        if d < 0 {
            return None;
        }
        let ghost pre = s@.take(i as int);
        assert(s@.take(i + 1).drop_last() =~= pre);
        proof {
            assert forall|k: int| 0 <= k < pre.len() implies hex_digit(#[trigger] pre[k]) >= 0 by {
                assert(pre[k] == s@[k]);
            }
            lemma_hex_bound(pre);
            assert(pow16(0) == 1);
            assert(pow16(1) == 16);
            assert(pow16(2) == 256);
            assert(pow16(3) == 4096);
            assert(pow16(4) == 65536);
            assert(pow16(5) == 1048576);
        }
        assert(v < 1048576);
        v = v * 16 + d as u32;
        i = i + 1;
    }
    assert(s@.take(s@.len() as int) =~= s@);
    Some(v)
}

// ---------------------------------------------------------------------------
// Table rows
// ---------------------------------------------------------------------------

/// The largest Unicode code point.
pub open spec fn max_code_point() -> int {
    0x10FFFF
}

/// The row that one line of the table text denotes, if the line is well formed.
pub open spec fn parse_range_line(line: Seq<char>) -> Option<RangeSpec> {
    let f = split_on(line, ' ');
    if f.len() == 4 && is_hex(f[0]) && is_hex(f[1]) && hex_value(f[0]) <= hex_value(f[1])
        && hex_value(f[1]) <= max_code_point() {
        Some(
            RangeSpec {
                from: hex_value(f[0]) as u32,
                to: hex_value(f[1]) as u32,
                general_category: f[2],
                script_extensions: split_on(f[3], ','),
            },
        )
    } else {
        None
    }
}

/// The rows that the lines denote, when every line is well formed.
pub open spec fn parse_range_lines(lines: Seq<Seq<char>>) -> Option<Seq<RangeSpec>>
    decreases lines.len(),
{
    if lines.len() == 0 {
        Some(Seq::empty())
    } else {
        match (parse_range_lines(lines.drop_last()), parse_range_line(lines.last())) {
            (Some(p), Some(r)) => Some(p.push(r)),
            _ => None,
        }
    }
}

/// Rows are non-empty, within the code-point space, ascending and pairwise disjoint.
pub open spec fn table_well_formed(t: Seq<RangeSpec>) -> bool {
    &&& forall|i: int| 0 <= i < t.len() ==> (#[trigger] t[i]).from <= t[i].to
    &&& forall|i: int| 0 <= i < t.len() ==> (#[trigger] t[i]).to <= max_code_point()
    &&& forall|i: int, j: int| 0 <= i < j < t.len() ==> (#[trigger] t[i]).to < (#[trigger] t[j]).from
}

/// The sequences of `s`, one after another.
pub open spec fn concat_all<A>(s: Seq<Seq<A>>) -> Seq<A>
    decreases s.len(),
{
    if s.len() == 0 {
        Seq::empty()
    } else {
        concat_all(s.drop_last()) + s.last()
    }
}

/// The lines of the table text: the lines of each part, in order.
pub open spec fn table_lines() -> Seq<Seq<char>> {
    concat_all(range_text_parts().map_values(|p: Seq<char>| split_on(p, '\n')))
}

/// The property table: the rows of the table text, when they parse and are
/// ascending (they do; otherwise the table would be empty).
pub open spec fn unicode_table() -> Seq<RangeSpec> {
    match parse_range_lines(table_lines()) {
        Some(t) => if table_well_formed(t) {
            t
        } else {
            Seq::empty()
        },
        None => Seq::empty(),
    }
}

/// A well-formed table has at most one row per code point.
pub proof fn lemma_table_len_bound(t: Seq<RangeSpec>)
    requires
        table_well_formed(t),
    ensures
        t.len() <= max_code_point() + 1,
{
    assert forall|i: int| 0 <= i < t.len() implies (#[trigger] t[i]).from >= i by {
        lemma_row_from_lower_bound(t, i);
    }
    if t.len() > 0 {
        let last = t.len() - 1;
        assert(t[last].from >= last);
    }
}

proof fn lemma_row_from_lower_bound(t: Seq<RangeSpec>, i: int)
    requires
        table_well_formed(t),
        0 <= i < t.len(),
    ensures
        t[i].from >= i,
    decreases i,
{
    if i > 0 {
        lemma_row_from_lower_bound(t, i - 1);
        assert(t[i - 1].to < t[i].from);
    }
}

/// The property table is well formed.
pub proof fn lemma_unicode_table_well_formed()
    ensures
        table_well_formed(unicode_table()),
{
}

fn parse_line(line: &[char]) -> (r: Option<UnicodeRange>)
    ensures
        match r {
            Some(u) => parse_range_line(line@) == Some(u@) && u.from <= u.to && u.to <= 0x10FFFF,
            None => parse_range_line(line@) is None,
        },
{
    let fields = split_chars(line, ' ');
    if fields.len() != 4 {
        return None;
    }
    assert(fields@[0]@ == split_on(line@, ' ')[0]);
    assert(fields@[1]@ == split_on(line@, ' ')[1]);
    assert(fields@[2]@ == split_on(line@, ' ')[2]);
    assert(fields@[3]@ == split_on(line@, ' ')[3]);
    let from = match parse_hex(fields[0].as_slice()) {
        Some(v) => v,
        None => return None,
    };
    let to = match parse_hex(fields[1].as_slice()) {
        Some(v) => v,
        None => return None,
    };
    if from > to || to > 0x10FFFF {
        return None;
    }
    let gc = copy_chars(fields[2].as_slice());
    let scx = split_chars(fields[3].as_slice(), ',');
    Some(UnicodeRange { from, to, general_category: gc, script_extensions: scx })
}

/// A copy of a character slice.
pub fn copy_chars(s: &[char]) -> (r: Vec<char>)
    ensures
        r@ == s@,
{
    let mut r: Vec<char> = Vec::new();
    push_all(&mut r, s);
    r
}

/// The property table, parsed from its text.
pub fn unicode_ranges() -> (r: Vec<UnicodeRange>)
    ensures
        range_views(r@) == unicode_table(),
        table_well_formed(range_views(r@)),
{
    let parts = range_text_part_list();
    let ghost part_lines = range_text_parts().map_values(|p: Seq<char>| split_on(p, '\n'));
    let ghost mut done: Seq<Seq<char>> = Seq::empty();
    let mut rows: Vec<UnicodeRange> = Vec::new();
    let mut p: usize = 0;
    while p < parts.len()
        invariant
            0 <= p <= parts@.len(),
            parts@.map_values(|s: &str| s@) == range_text_parts(),
            part_lines == range_text_parts().map_values(|q: Seq<char>| split_on(q, '\n')),
            done == concat_all(part_lines.take(p as int)),
            parse_range_lines(done) == Some(range_views(rows@)),
            table_well_formed(range_views(rows@)),
        decreases parts@.len() - p,
    {
        let text = chars_of(parts[p]);
        assert(text@ == range_text_parts()[p as int]);
        let lines = split_chars(text.as_slice(), '\n');
        let ghost lv = deep_chars(lines@);
        assert(lv == part_lines[p as int]);
        let mut i: usize = 0;
        assert(lv.take(0) =~= Seq::<Seq<char>>::empty());
        assert(done + lv.take(0) =~= done);
        while i < lines.len()
            invariant
                0 <= i <= lines@.len(),
                lv == deep_chars(lines@),
                p < part_lines.len(),
                part_lines.len() == range_text_parts().len(),
                lv == part_lines[p as int],
                done == concat_all(part_lines.take(p as int)),
                part_lines == range_text_parts().map_values(|q: Seq<char>| split_on(q, '\n')),
                parse_range_lines(done + lv.take(i as int)) == Some(range_views(rows@)),
                table_well_formed(range_views(rows@)),
            decreases lines@.len() - i,
        {
            let ghost before = done + lv.take(i as int);
            let ghost after = done + lv.take(i + 1);
            assert(after.drop_last() =~= before);
            assert(after.last() == lines@[i as int]@);
            proof {
                lemma_parse_lines_len(before);
                lemma_concat_prefix(part_lines, p as int, i + 1);
            }
            let row = match parse_line(lines[i].as_slice()) {
                Some(u) => u,
                None => {
                    proof {
                        lemma_table_prefix(after);
                    }
                    return Vec::new();
                },
            };
            let n = rows.len();
            if n > 0 && rows[n - 1].to >= row.from {
                proof {
                    lemma_table_prefix(after);
                    if parse_range_lines(table_lines()) is Some {
                        let t = parse_range_lines(table_lines()).unwrap();
                        let pre = parse_range_lines(after).unwrap();
                        assert(pre[n - 1] == t[n - 1]);
                        assert(pre[n as int] == t[n as int]);
                    }
                }
                return Vec::new();
            }
            let ghost old_rows = range_views(rows@);
            rows.push(row);
            assert(range_views(rows@) =~= old_rows.push(row@));
            proof {
                let t = range_views(rows@);
                assert forall|a: int| 0 <= a < t.len() implies (#[trigger] t[a]).from <= t[a].to
                    && t[a].to <= max_code_point() by {
                    if a < n {
                        assert(t[a] == old_rows[a]);
                    }
                }
                assert forall|a: int, b: int| 0 <= a < b < t.len() implies (#[trigger] t[a]).to < (
                #[trigger] t[b]).from by {
                    if b == n {
                        if a < n - 1 {
                            assert(t[a].to < t[n - 1].from);
                            assert(t[n - 1].from <= t[n - 1].to);
                        }
                    } else {
                        assert(t[a] == old_rows[a]);
                        assert(t[b] == old_rows[b]);
                    }
                }
            }
            i = i + 1;
        }
        assert(lv.take(lv.len() as int) =~= lv);
        assert(part_lines.take(p + 1).drop_last() =~= part_lines.take(p as int));
        proof {
            done = done + lv;
        }
        p = p + 1;
    }
    assert(part_lines.take(part_lines.len() as int) =~= part_lines);
    rows
}

proof fn lemma_concat_take_prefix<A>(s: Seq<Seq<A>>, q: int)
    requires
        0 <= q <= s.len(),
    ensures
        concat_all(s.take(q)).is_prefix_of(concat_all(s)),
    decreases s.len(),
{
    if q == s.len() {
        assert(s.take(q) =~= s);
    } else {
        let d = s.drop_last();
        assert(d.take(q) =~= s.take(q));
        lemma_concat_take_prefix(d, q);
        assert(concat_all(s) == concat_all(d) + s.last());
    }
}

proof fn lemma_concat_prefix<A>(s: Seq<Seq<A>>, p: int, k: int)
    requires
        0 <= p < s.len(),
        0 <= k <= s[p].len(),
    ensures
        (concat_all(s.take(p)) + s[p].take(k)).is_prefix_of(concat_all(s)),
{
    lemma_concat_take_prefix(s, p + 1);
    let t = s.take(p + 1);
    assert(t.drop_last() =~= s.take(p));
    assert(concat_all(t) == concat_all(s.take(p)) + s[p]);
    let a = concat_all(s.take(p)) + s[p].take(k);
    assert(a =~= concat_all(t).subrange(0, a.len() as int));
}

/// Whatever prefix `pre` of the table's lines has been read, a parse failure or an
/// out-of-order pair in it shows up in the whole table too.
proof fn lemma_table_prefix(pre: Seq<Seq<char>>)
    requires
        pre.is_prefix_of(table_lines()),
    ensures
        parse_range_lines(pre) is None ==> parse_range_lines(table_lines()) is None,
        parse_range_lines(table_lines()) matches Some(t) ==> parse_range_lines(pre) matches Some(p) && p.len() <= t.len() && forall|j: int| 0 <= j < p.len() ==> p[j] == t[j],
{
    let all = table_lines();
    assert(all.take(pre.len() as int) =~= pre);
    lemma_parse_lines_prefix(all, pre.len() as int);
    if parse_range_lines(pre) is None {
        lemma_parse_lines_prefix_fails(all, pre.len() as int);
    }
    lemma_parse_lines_len(all);
}

proof fn lemma_parse_lines_prefix_fails(lines: Seq<Seq<char>>, k: int)
    requires
        0 <= k <= lines.len(),
        parse_range_lines(lines.take(k)) is None,
    ensures
        parse_range_lines(lines) is None,
    decreases lines.len() - k,
{
    if k < lines.len() {
        assert(lines.take(k + 1).drop_last() =~= lines.take(k));
        lemma_parse_lines_prefix_fails(lines, k + 1);
    } else {
        assert(lines.take(k) =~= lines);
    }
}

/// A successful parse of all lines extends the parse of each prefix.
proof fn lemma_parse_lines_prefix(lines: Seq<Seq<char>>, k: int)
    requires
        0 <= k <= lines.len(),
    ensures
        parse_range_lines(lines) matches Some(t) ==> parse_range_lines(lines.take(k)) matches Some(p) && p.len() == k && forall|j: int| 0 <= j < k ==> p[j] == t[j],
    decreases lines.len() - k,
{
    lemma_parse_lines_len(lines.take(k));
    if k < lines.len() {
        lemma_parse_lines_prefix(lines, k + 1);
        assert(lines.take(k + 1).drop_last() =~= lines.take(k));
    } else {
        assert(lines.take(k) =~= lines);
    }
}

proof fn lemma_parse_lines_len(lines: Seq<Seq<char>>)
    ensures
        parse_range_lines(lines) matches Some(p) ==> p.len() == lines.len(),
    decreases lines.len(),
{
    if lines.len() > 0 {
        lemma_parse_lines_len(lines.drop_last());
    }
}

// ---------------------------------------------------------------------------
// Property value lists
// ---------------------------------------------------------------------------

/// The two-letter General_Category values, in the order the UCD lists them.
pub open spec fn general_category_names() -> Seq<Seq<char>> {
    split_on(GENERAL_CATEGORY_TEXT@, ' ')
}

/// The Script property values (long names), in alphabetical order.
pub open spec fn script_names() -> Seq<Seq<char>> {
    split_on(SCRIPT_NAME_TEXT@, ' ')
}

/// The General_Category values.
pub fn general_categories() -> (r: Vec<Vec<char>>)
    ensures
        deep_chars(r@) == general_category_names(),
{
    split_chars(chars_of(GENERAL_CATEGORY_TEXT).as_slice(), ' ')
}

/// The Script values.
pub fn scripts() -> (r: Vec<Vec<char>>)
    ensures
        deep_chars(r@) == script_names(),
{
    split_chars(chars_of(SCRIPT_NAME_TEXT).as_slice(), ' ')
}

} // verus!

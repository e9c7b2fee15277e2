//! Character-sequence helpers shared by the rule compiler, the font metadata
//! parser and the script generators. Strings are modelled by their view, a
//! `Seq<char>`.
use vstd::prelude::*;

verus! {

// ---------------------------------------------------------------------------
// Generic sequence search
// ---------------------------------------------------------------------------

/// The index of the first element of `s` that satisfies `p`, if any.
/// Defined from the back so that it follows a loop over a growing prefix.
pub open spec fn first_match<A>(s: Seq<A>, p: spec_fn(A) -> bool) -> Option<int>
    decreases s.len(),
{
    if s.len() == 0 {
        None
    } else {
        match first_match(s.drop_last(), p) {
            Some(i) => Some(i),
            None => if p(s.last()) {
                Some(s.len() - 1)
            } else {
                None
            },
        }
    }
}

/// `first_match` finds the first satisfying element, and `None` means none does.
pub proof fn lemma_first_match<A>(s: Seq<A>, p: spec_fn(A) -> bool)
    ensures
        match first_match(s, p) {
            Some(i) => 0 <= i < s.len() && p(s[i]) && forall|j: int| 0 <= j < i ==> !p(#[trigger] s[j]),
            None => forall|j: int| 0 <= j < s.len() ==> !p(#[trigger] s[j]),
        },
    decreases s.len(),
{
    if s.len() > 0 {
        lemma_first_match(s.drop_last(), p);
        assert(forall|j: int| 0 <= j < s.len() - 1 ==> s.drop_last()[j] == s[j]);
    }
}

/// Whenever some element satisfies `p` at index `i`, the first match is at or before `i`.
pub proof fn lemma_first_match_exists<A>(s: Seq<A>, p: spec_fn(A) -> bool, i: int)
    requires
        0 <= i < s.len(),
        p(s[i]),
    ensures
        first_match(s, p) is Some,
        first_match(s, p).unwrap() <= i,
{
    lemma_first_match(s, p);
}

/// Extending a sequence keeps an earlier first match, and otherwise tests the new element.
pub proof fn lemma_first_match_push<A>(s: Seq<A>, x: A, p: spec_fn(A) -> bool)
    ensures
        first_match(s.push(x), p) == (match first_match(s, p) {
            Some(i) => Some(i),
            None => if p(x) {
                Some(s.len() as int)
            } else {
                None
            },
        }),
{
    assert(s.push(x).drop_last() =~= s);
}

// ---------------------------------------------------------------------------
// Whitespace and trimming
// ---------------------------------------------------------------------------

/// The Unicode `White_Space` property, which `char::is_whitespace` follows.
pub open spec fn is_white_space(c: char) -> bool {
    let v = c as u32;
    (0x09 <= v && v <= 0x0D) || v == 0x20 || v == 0x85 || v == 0xA0 || v == 0x1680 || (0x2000
        <= v && v <= 0x200A) || v == 0x2028 || v == 0x2029 || v == 0x202F || v == 0x205F || v
        == 0x3000
}

/// `c` is a white-space character (executable form of `is_white_space`).
pub fn char_is_white_space(c: char) -> (r: bool)
    ensures
        r == is_white_space(c),
{
    let v = c as u32;
    (0x09 <= v && v <= 0x0D) || v == 0x20 || v == 0x85 || v == 0xA0 || v == 0x1680 || (0x2000
        <= v && v <= 0x200A) || v == 0x2028 || v == 0x2029 || v == 0x202F || v == 0x205F || v
        == 0x3000
}

/// `s` without its leading white space.
pub open spec fn trim_start(s: Seq<char>) -> Seq<char>
    decreases s.len(),
{
    if s.len() > 0 && is_white_space(s[0]) {
        trim_start(s.drop_first())
    } else {
        s
    }
}

/// `s` without its trailing white space.
pub open spec fn trim_end(s: Seq<char>) -> Seq<char>
    decreases s.len(),
{
    if s.len() > 0 && is_white_space(s.last()) {
        trim_end(s.drop_last())
    } else {
        s
    }
}

/// `s` without leading and trailing white space, as `str::trim` returns it.
pub open spec fn trim(s: Seq<char>) -> Seq<char> {
    trim_end(trim_start(s))
}

/// Every character of `s` is white space.
pub open spec fn all_white_space(s: Seq<char>) -> bool {
    forall|i: int| 0 <= i < s.len() ==> is_white_space(#[trigger] s[i])
}

/// A first match found in a prefix is the first match of the whole sequence.
pub proof fn lemma_first_match_prefix<A>(s: Seq<A>, k: int, p: spec_fn(A) -> bool)
    requires
        0 <= k <= s.len(),
        first_match(s.take(k), p) is Some,
    ensures
        first_match(s, p) == first_match(s.take(k), p),
    decreases s.len() - k,
{
    if k < s.len() {
        assert(s.take(k + 1) =~= s.take(k).push(s[k]));
        lemma_first_match_push(s.take(k), s[k], p);
        lemma_first_match_prefix(s, k + 1, p);
    } else {
        assert(s.take(k) =~= s);
    }
}

/// Leading white space can be skipped before trimming.
pub proof fn lemma_trim_start_skip(s: Seq<char>, k: int)
    requires
        0 <= k <= s.len(),
        forall|i: int| 0 <= i < k ==> is_white_space(#[trigger] s[i]),
    ensures
        trim_start(s) == trim_start(s.skip(k)),
    decreases k,
{
    if k > 0 {
        assert(s.drop_first().skip(k - 1) =~= s.skip(k));
        lemma_trim_start_skip(s.drop_first(), k - 1);
    } else {
        assert(s.skip(0) =~= s);
    }
}

proof fn lemma_trim_end_take(s: Seq<char>, k: int)
    requires
        0 <= k <= s.len(),
        forall|i: int| k <= i < s.len() ==> is_white_space(#[trigger] s[i]),
    ensures
        trim_end(s) == trim_end(s.take(k)),
    decreases s.len() - k,
{
    if k < s.len() {
        assert(s.drop_last().take(k) =~= s.take(k));
        lemma_trim_end_take(s.drop_last(), k);
    } else {
        assert(s.take(k) =~= s);
    }
}

/// A trimmed sequence is empty exactly when the whole sequence is white space.
pub proof fn lemma_trim_empty(s: Seq<char>)
    ensures
        (trim(s).len() == 0) == all_white_space(s),
    decreases s.len(),
{
    if all_white_space(s) {
        lemma_trim_start_skip(s, s.len() as int);
        assert(s.skip(s.len() as int).len() == 0);
    } else {
        let i = choose|i: int| 0 <= i < s.len() && !is_white_space(#[trigger] s[i]);
        lemma_trim_start_keeps(s, i);
    }
}

proof fn lemma_trim_start_keeps(s: Seq<char>, i: int)
    requires
        0 <= i < s.len(),
        !is_white_space(s[i]),
    ensures
        trim_start(s).len() > 0,
        !is_white_space(trim_start(s)[0]),
        trim_end(trim_start(s)).len() > 0,
    decreases s.len(),
{
    if is_white_space(s[0]) {
        assert(s.drop_first()[i - 1] == s[i]);
        lemma_trim_start_keeps(s.drop_first(), i - 1);
    } else {
        lemma_trim_end_nonempty(s);
    }
}

proof fn lemma_trim_end_nonempty(s: Seq<char>)
    requires
        s.len() > 0,
        !is_white_space(s[0]),
    ensures
        trim_end(s).len() > 0,
    decreases s.len(),
{
    if is_white_space(s.last()) {
        lemma_trim_end_nonempty(s.drop_last());
    }
}

/// The characters of `s` without leading and trailing white space.
pub fn trim_chars(s: &[char]) -> (r: Vec<char>)
    ensures
        r@ == trim(s@),
{
    let n = s.len();
    let mut start: usize = 0;
    while start < n && char_is_white_space(s[start])
        invariant
            0 <= start <= n,
            n == s@.len(),
            forall|i: int| 0 <= i < start ==> is_white_space(#[trigger] s@[i]),
        decreases n - start,
    {
        start = start + 1;
    }
    proof {
        lemma_trim_start_skip(s@, start as int);
    }
    let ghost rest = s@.skip(start as int);
    assert(trim_start(s@) == rest) by {
        if start < n {
        } else {
        }
    }
    let mut end: usize = n;
    while end > start && char_is_white_space(s[end - 1])
        invariant
            start <= end <= n,
            n == s@.len(),
            forall|i: int| end <= i < n ==> is_white_space(#[trigger] s@[i]),
        decreases end,
    {
        end = end - 1;
    }
    let mut r: Vec<char> = Vec::new();
    let mut k: usize = start;
    while k < end
        invariant
            start <= k <= end,
            end <= n,
            n == s@.len(),
            r@ == s@.subrange(start as int, k as int),
        decreases end - k,
    {
        r.push(s[k]);
        k = k + 1;
    }
    proof {
        let t = rest;
        let kk = end - start;
        assert forall|i: int| kk <= i < t.len() implies is_white_space(#[trigger] t[i]) by {
            assert(t[i] == s@[i + start]);
        }
        lemma_trim_end_take(t, kk as int);
        assert(t.take(kk as int) =~= s@.subrange(start as int, end as int));
        if end > start {
            assert(!is_white_space(t.take(kk as int).last()));
        } else {
            assert(t.take(kk as int).len() == 0);
        }
    }
    r
}

/// `s` is empty or white space only.
pub open spec fn is_blank(s: Seq<char>) -> bool {
    trim(s).len() == 0
}

/// Whether a string is empty after trimming.
pub fn blank(s: &str) -> (r: bool)
    ensures
        r == is_blank(s@),
{
    let t = trim_chars(chars_of(s).as_slice());
    t.len() == 0
}

// ---------------------------------------------------------------------------
// Comparisons and searches
// ---------------------------------------------------------------------------

/// Whether two character slices hold the same characters.
pub fn chars_eq(a: &[char], b: &[char]) -> (r: bool)
    ensures
        r == (a@ == b@),
{
    if a.len() != b.len() {
        return false;
    }
    let mut i: usize = 0;
    while i < a.len()
        invariant
            0 <= i <= a@.len(),
            a@.len() == b@.len(),
            forall|j: int| 0 <= j < i ==> a@[j] == b@[j],
        decreases a@.len() - i,
    {
        if a[i] != b[i] {
            return false;
        }
        i = i + 1;
    }
    assert(a@ =~= b@);
    true
}

/// `needle` occurs in `hay` starting at position `i`.
pub open spec fn occurs_at(hay: Seq<char>, needle: Seq<char>, i: int) -> bool {
    0 <= i && i + needle.len() <= hay.len() && hay.subrange(i, i + needle.len()) == needle
}

/// `needle` occurs somewhere in `hay`, as `str::contains` tests it.
pub open spec fn contains_seq(hay: Seq<char>, needle: Seq<char>) -> bool {
    exists|i: int| occurs_at(hay, needle, i)
}

/// `hay` begins with `prefix`.
pub open spec fn starts_with(hay: Seq<char>, prefix: Seq<char>) -> bool {
    occurs_at(hay, prefix, 0)
}

fn occurs_at_exec(hay: &[char], needle: &[char], i: usize) -> (r: bool)
    requires
        i + needle@.len() <= hay@.len(),
    ensures
        r == occurs_at(hay@, needle@, i as int),
{
    let n = hay.len();
    let mut j: usize = 0;
    while j < needle.len()
        invariant
            0 <= j <= needle@.len(),
            n == hay@.len(),
            i + needle@.len() <= hay@.len(),
            forall|k: int| 0 <= k < j ==> hay@[i + k] == needle@[k],
        decreases needle@.len() - j,
    {
        if hay[i + j] != needle[j] {
            assert(hay@.subrange(i as int, i + needle@.len())[j as int] != needle@[j as int]);
            return false;
        }
        j = j + 1;
    }
    assert(hay@.subrange(i as int, i + needle@.len()) =~= needle@);
    true
}

/// Whether `needle` occurs in `hay`.
pub fn contains_chars(hay: &[char], needle: &[char]) -> (r: bool)
    ensures
        r == contains_seq(hay@, needle@),
{
    if needle.len() > hay.len() {
        assert forall|i: int| !occurs_at(hay@, needle@, i) by {}
        return false;
    }
    let last = hay.len() - needle.len();
    let mut i: usize = 0;
    loop
        invariant
            0 <= i <= last,
            last + needle@.len() == hay@.len(),
            forall|k: int| 0 <= k < i ==> !occurs_at(hay@, needle@, k),
        ensures
            forall|k: int| 0 <= k <= last ==> !occurs_at(hay@, needle@, k),
        decreases last - i,
    {
        if occurs_at_exec(hay, needle, i) {
            return true;
        }
        if i == last {
            break;
        }
        i = i + 1;
    }
    assert forall|k: int| !occurs_at(hay@, needle@, k) by {
        if 0 <= k <= last {
        }
    }
    false
}

/// Whether `hay` starts with `prefix`.
pub fn starts_with_chars(hay: &[char], prefix: &[char]) -> (r: bool)
    ensures
        r == starts_with(hay@, prefix@),
{
    if prefix.len() > hay.len() {
        return false;
    }
    occurs_at_exec(hay, prefix, 0)
}

/// The first position at or after `i` where `needle` occurs in `hay`, as
/// `str::find` reports it (from `i == 0`).
pub open spec fn find_from(hay: Seq<char>, needle: Seq<char>, i: nat) -> Option<nat>
    decreases hay.len() + 1 - i,
{
    if i + needle.len() > hay.len() {
        None
    } else if occurs_at(hay, needle, i as int) {
        Some(i)
    } else {
        find_from(hay, needle, i + 1)
    }
}

proof fn lemma_find_from_absent(hay: Seq<char>, needle: Seq<char>, i: nat)
    requires
        forall|k: int| i <= k ==> !occurs_at(hay, needle, k),
    ensures
        find_from(hay, needle, i) is None,
    decreases hay.len() + 1 - i,
{
    if i + needle.len() <= hay.len() {
        lemma_find_from_absent(hay, needle, i + 1);
    }
}

/// The first position where `needle` occurs in `hay`.
pub fn find_chars(hay: &[char], needle: &[char]) -> (r: Option<usize>)
    ensures
        match r {
            Some(k) => find_from(hay@, needle@, 0) == Some(k as nat),
            None => find_from(hay@, needle@, 0) is None,
        },
{
    if needle.len() > hay.len() {
        return None;
    }
    let last = hay.len() - needle.len();
    let mut i: usize = 0;
    loop
        invariant
            0 <= i <= last,
            last + needle@.len() == hay@.len(),
            find_from(hay@, needle@, 0) == find_from(hay@, needle@, i as nat),
        decreases last - i,
    {
        if occurs_at_exec(hay, needle, i) {
            return Some(i);
        }
        if i == last {
            assert(find_from(hay@, needle@, (i + 1) as nat) is None);
            return None;
        }
        i = i + 1;
    }
}

/// Whether some element of `list` equals `item`.
pub fn list_contains(list: &Vec<Vec<char>>, item: &[char]) -> (r: bool)
    ensures
        r == deep_chars(list@).contains(item@),
{
    let mut i: usize = 0;
    while i < list.len()
        invariant
            0 <= i <= list@.len(),
            forall|k: int| 0 <= k < i ==> list@[k]@ != item@,
        decreases list@.len() - i,
    {
        if chars_eq(list[i].as_slice(), item) {
            assert(deep_chars(list@)[i as int] == item@);
            return true;
        }
        i = i + 1;
    }
    assert(!deep_chars(list@).contains(item@)) by {
        if deep_chars(list@).contains(item@) {
            let k = choose|k: int| 0 <= k < deep_chars(list@).len() && deep_chars(list@)[k] == item@;
            assert(list@[k]@ == item@);
        }
    }
    false
}

/// The views of a list of character vectors.
pub open spec fn deep_chars(v: Seq<Vec<char>>) -> Seq<Seq<char>> {
    v.map_values(|x: Vec<char>| x@)
}

/// The views of a list of strings.
pub open spec fn deep_strings(v: Seq<String>) -> Seq<Seq<char>> {
    v.map_values(|x: String| x@)
}

// ---------------------------------------------------------------------------
// Lines
// ---------------------------------------------------------------------------

/// A line without the `\r` of a `\r\n` ending.
pub open spec fn strip_cr(l: Seq<char>) -> Seq<char> {
    if l.len() > 0 && l.last() == '\r' {
        l.drop_last()
    } else {
        l
    }
}

/// The lines of a text as `str::lines` yields them: split at `\n`, a `\r`
/// before the `\n` removed, and no empty line after a final `\n`.
pub open spec fn lines_of(text: Seq<char>) -> Seq<Seq<char>> {
    let p = crate::unicode_ranges::split_on(text, '\n');
    let ended = p.drop_last().map_values(|l: Seq<char>| strip_cr(l));
    if p.last().len() == 0 {
        ended
    } else {
        ended.push(p.last())
    }
}

/// The lines of a text.
pub fn lines(text: &str) -> (r: Vec<Vec<char>>)
    ensures
        deep_chars(r@) == lines_of(text@),
{
    let pieces = crate::unicode_ranges::split_chars(chars_of(text).as_slice(), '\n');
    let ghost p = deep_chars(pieces@);
    proof {
        crate::unicode_ranges::lemma_split_on_nonempty(text@, '\n');
    }
    let n = pieces.len();
    let mut out: Vec<Vec<char>> = Vec::new();
    let mut i: usize = 0;
    while i + 1 < n
        invariant
            n == pieces@.len(),
            n >= 1,
            p == deep_chars(pieces@),
            0 <= i < n,
            deep_chars(out@) == p.take(i as int).map_values(|l: Seq<char>| strip_cr(l)),
        decreases n - i,
    {
        let piece = &pieces[i];
        let m = piece.len();
        let mut line: Vec<char> = Vec::new();
        let keep: usize = if m > 0 && piece[m - 1] == '\r' { m - 1 } else { m };
        let mut k: usize = 0;
        while k < keep
            invariant
                0 <= k <= keep <= m,
                m == piece@.len(),
                line@ == piece@.take(k as int),
            decreases keep - k,
        {
            line.push(piece[k]);
            assert(piece@.take(k + 1) =~= piece@.take(k as int).push(piece@[k as int]));
            k = k + 1;
        }
        assert(line@ =~= strip_cr(p[i as int]));
        let ghost before = deep_chars(out@);
        out.push(line);
        assert(deep_chars(out@) =~= before.push(strip_cr(p[i as int])));
        assert(p.take(i + 1).map_values(|l: Seq<char>| strip_cr(l)) =~= p.take(i as int).map_values(
            |l: Seq<char>| strip_cr(l),
        ).push(strip_cr(p[i as int])));
        i = i + 1;
    }
    assert(p.take(i as int) =~= p.drop_last());
    if pieces[n - 1].len() != 0 {
        let last = crate::unicode_ranges::copy_chars(pieces[n - 1].as_slice());
        let ghost before = deep_chars(out@);
        out.push(last);
        assert(deep_chars(out@) =~= before.push(p.last()));
    }
    out
}

// ---------------------------------------------------------------------------
// ASCII case mapping
// ---------------------------------------------------------------------------

/// `c` with `A`..=`Z` mapped to `a`..=`z`, as `char::to_ascii_lowercase` does.
pub open spec fn ascii_lower(c: char) -> char {
    if 'A' <= c && c <= 'Z' {
        ((c as u32) + 32) as char
    } else {
        c
    }
}

/// `s` with every ASCII capital letter lowered, as `str::to_ascii_lowercase` does.
pub open spec fn ascii_lowercase(s: Seq<char>) -> Seq<char> {
    s.map_values(|c: char| ascii_lower(c))
}

/// The characters of `s`, ASCII letters lowered.
pub fn ascii_lowercase_chars(s: &[char]) -> (r: Vec<char>)
    ensures
        r@ == ascii_lowercase(s@),
{
    let mut r: Vec<char> = Vec::new();
    let mut i: usize = 0;
    while i < s.len()
        invariant
            0 <= i <= s@.len(),
            r@ == ascii_lowercase(s@.take(i as int)),
        decreases s@.len() - i,
    {
        let c = s[i];
        let l = if 'A' <= c && c <= 'Z' {
            lower_ascii_letter(c)
        } else {
            c
        };
        r.push(l);
        assert(s@.take(i + 1) =~= s@.take(i as int).push(c));
        i = i + 1;
    }
    assert(s@.take(s@.len() as int) =~= s@);
    r
}

fn lower_ascii_letter(c: char) -> (r: char)
    requires
        'A' <= c && c <= 'Z',
    ensures
        r == ((c as u32) + 32) as char,
{
    let b = (c as u32 + 32) as u8;
    b as char
}

// ---------------------------------------------------------------------------
// Conversions between strings and character vectors
// ---------------------------------------------------------------------------

/// The characters of a string slice, in order.
pub fn chars_of(s: &str) -> (v: Vec<char>)
    ensures
        v@ == s@,
{
    let mut v: Vec<char> = Vec::new();
    for c in it: s.chars()
        invariant
            v@ == it.seq().take(it.index() as int),
            it.seq() == s@,
    {
        v.push(c);
    }
    v
}

/// Collects characters into a `String` (std's `FromIterator<&char> for String`,
/// which appends each character in order).
#[verifier::external_body]
pub(crate) fn string_from_chars(chars: &[char]) -> (s: String)
    ensures
        s@ == chars@,
{
    chars.iter().collect()
}

/// Every character is ASCII.
pub open spec fn all_ascii_chars(s: Seq<char>) -> bool {
    forall|i: int| 0 <= i < s.len() ==> (s[i] as u32) < 0x80
}

/// Dropping leading white space keeps a text ASCII.
pub proof fn lemma_trim_start_ascii(s: Seq<char>)
    requires
        all_ascii_chars(s),
    ensures
        all_ascii_chars(trim_start(s)),
    decreases s.len(),
{
    if s.len() > 0 && is_white_space(s[0]) {
        assert forall|i: int| 0 <= i < s.drop_first().len() implies (s.drop_first()[i] as u32)
            < 0x80 by {
            assert(s.drop_first()[i] == s[i + 1]);
        }
        lemma_trim_start_ascii(s.drop_first());
    }
}

/// Dropping trailing white space keeps a text ASCII.
pub proof fn lemma_trim_end_ascii(s: Seq<char>)
    requires
        all_ascii_chars(s),
    ensures
        all_ascii_chars(trim_end(s)),
    decreases s.len(),
{
    if s.len() > 0 && is_white_space(s.last()) {
        assert forall|i: int| 0 <= i < s.drop_last().len() implies (s.drop_last()[i] as u32)
            < 0x80 by {
            assert(s.drop_last()[i] == s[i]);
        }
        lemma_trim_end_ascii(s.drop_last());
    }
}

/// Trimming keeps a text ASCII.
pub proof fn lemma_trim_ascii(s: Seq<char>)
    requires
        all_ascii_chars(s),
    ensures
        all_ascii_chars(trim(s)),
{
    lemma_trim_start_ascii(s);
    lemma_trim_end_ascii(trim_start(s));
}

/// The result of `str::to_lowercase` on a string: full Unicode lowercase mapping.
pub uninterp spec fn unicode_lowercase(s: Seq<char>) -> Seq<char>;

/// Calls `str::to_lowercase`. The contract claims that the result is a
/// function of the input's characters, named `unicode_lowercase`, and, as
/// std documents, that an all-ASCII text is lowered letter by letter as
/// `to_ascii_lowercase` does; the Unicode case tables are not stated.
#[verifier::external_body]
pub(crate) fn to_lowercase(s: &str) -> (r: String)
    ensures
        r@ == unicode_lowercase(s@),
        all_ascii_chars(s@) ==> r@ == ascii_lowercase(s@),
{
    s.to_lowercase()
}

/// A string holding a copy of `s`.
pub fn string_of(s: &str) -> (r: String)
    ensures
        r@ == s@,
{
    s.to_owned()
}

/// `prefix` followed by `tail`, as a new string.
pub fn concat_str(prefix: &str, tail: &str) -> (r: String)
    ensures
        r@ == prefix@ + tail@,
{
    let mut r = prefix.to_owned();
    r.append(tail);
    r
}

// ---------------------------------------------------------------------------
// Decimal formatting
// ---------------------------------------------------------------------------

/// The decimal digits of `n`, most significant first, without sign or padding.
pub open spec fn decimal_digits(n: nat) -> Seq<char>
    decreases n,
{
    if n < 10 {
        seq![digit_char(n)]
    } else {
        decimal_digits(n / 10).push(digit_char(n % 10))
    }
}

/// The ASCII digit for `d < 10`.
pub open spec fn digit_char(d: nat) -> char {
    (('0' as u32) + d) as char
}

/// The decimal text of a signed value, with a leading `-` when negative.
pub open spec fn decimal_int(n: int) -> Seq<char> {
    if n < 0 {
        seq!['-'] + decimal_digits((-n) as nat)
    } else {
        decimal_digits(n as nat)
    }
}

fn digit(d: u64) -> (c: char)
    requires
        d < 10,
    ensures
        c == digit_char(d as nat),
{
    let b = (d as u8) + 48;
    b as char
}

/// The decimal digits of `n`.
pub fn format_u64(n: u64) -> (r: Vec<char>)
    ensures
        r@ == decimal_digits(n as nat),
    decreases n,
{
    if n < 10 {
        let mut r = Vec::new();
        r.push(digit(n));
        r
    } else {
        let mut r = format_u64(n / 10);
        r.push(digit(n % 10));
        r
    }
}

/// The decimal digits of a 128-bit `n`.
pub fn format_u128(n: u128) -> (r: Vec<char>)
    ensures
        r@ == decimal_digits(n as nat),
    decreases n,
{
    if n < 10 {
        let mut r = Vec::new();
        r.push(digit(n as u64));
        r
    } else {
        let mut r = format_u128(n / 10);
        r.push(digit((n % 10) as u64));
        r
    }
}

/// The decimal text of `n`.
pub fn format_i64(n: i64) -> (r: Vec<char>)
    ensures
        r@ == decimal_int(n as int),
{
    if n < 0 {
        let m: u64 = if n == i64::MIN {
            9223372036854775808u64
        } else {
            (-n) as u64
        };
        let digits = format_u64(m);
        let mut r = Vec::new();
        r.push('-');
        let mut i: usize = 0;
        while i < digits.len()
            invariant
                0 <= i <= digits@.len(),
                r@ == seq!['-'] + digits@.take(i as int),
            decreases digits@.len() - i,
        {
            r.push(digits[i]);
            assert(digits@.take(i + 1) =~= digits@.take(i as int).push(digits@[i as int]));
            i = i + 1;
        }
        assert(digits@.take(digits@.len() as int) =~= digits@);
        r
    } else {
        format_u64(n as u64)
    }
}

/// Appends the characters of `tail` to `v`.
pub fn push_all(v: &mut Vec<char>, tail: &[char])
    ensures
        final(v)@ == old(v)@ + tail@,
{
    let ghost start = v@;
    let mut i: usize = 0;
    while i < tail.len()
        invariant
            0 <= i <= tail@.len(),
            v@ == start + tail@.take(i as int),
        decreases tail@.len() - i,
    {
        v.push(tail[i]);
        assert(tail@.take(i + 1) =~= tail@.take(i as int).push(tail@[i as int]));
        i = i + 1;
    }
    assert(tail@.take(tail@.len() as int) =~= tail@);
}

// ---------------------------------------------------------------------------
// Decimal parsing
// ---------------------------------------------------------------------------

/// Why `str::parse::<i32>` rejects a text.
#[derive(Debug, Clone, Copy, PartialEq, Eq, Structural)]
pub enum IntErrorKind {
    Empty,
    InvalidDigit,
    PosOverflow,
    NegOverflow,
}

/// The text std's `ParseIntError` displays for each kind.
pub open spec fn int_error_message(k: IntErrorKind) -> Seq<char> {
    match k {
        IntErrorKind::Empty => "cannot parse integer from empty string"@,
        IntErrorKind::InvalidDigit => "invalid digit found in string"@,
        IntErrorKind::PosOverflow => "number too large to fit in target type"@,
        IntErrorKind::NegOverflow => "number too small to fit in target type"@,
    }
}

/// The message of an integer parse error.
pub fn int_error_text(k: IntErrorKind) -> (r: String)
    ensures
        r@ == int_error_message(k),
{
    match k {
        IntErrorKind::Empty => string_of("cannot parse integer from empty string"),
        IntErrorKind::InvalidDigit => string_of("invalid digit found in string"),
        IntErrorKind::PosOverflow => string_of("number too large to fit in target type"),
        IntErrorKind::NegOverflow => string_of("number too small to fit in target type"),
    }
}

/// An ASCII decimal digit.
pub open spec fn is_ascii_digit(c: char) -> bool {
    '0' <= c && c <= '9'
}

/// Reading the digits `d` of a number of the given sign from left to right,
/// as std does: every character must be a digit, and the value read so far
/// must stay within `i32` (the first failing position decides the error).
pub open spec fn scan_i32(d: Seq<char>, neg: bool) -> Result<int, IntErrorKind>
    decreases d.len(),
{
    if d.len() == 0 {
        Ok(0)
    } else {
        match scan_i32(d.drop_last(), neg) {
            Err(k) => Err(k),
            Ok(v) => if !is_ascii_digit(d.last()) {
                Err(IntErrorKind::InvalidDigit)
            } else {
                let x = d.last() as int - '0' as int;
                let nv = if neg {
                    v * 10 - x
                } else {
                    v * 10 + x
                };
                if nv > i32::MAX {
                    Err(IntErrorKind::PosOverflow)
                } else if nv < i32::MIN {
                    Err(IntErrorKind::NegOverflow)
                } else {
                    Ok(nv)
                }
            },
        }
    }
}

/// What `str::parse::<i32>` gives: an optional `+` or `-` sign, then the
/// digits; a lone sign is an invalid digit.
pub open spec fn parse_i32_spec(s: Seq<char>) -> Result<int, IntErrorKind> {
    if s.len() == 0 {
        Err(IntErrorKind::Empty)
    } else if s == seq!['+'] || s == seq!['-'] {
        Err(IntErrorKind::InvalidDigit)
    } else if s[0] == '+' {
        scan_i32(s.drop_first(), false)
    } else if s[0] == '-' {
        scan_i32(s.drop_first(), true)
    } else {
        scan_i32(s, false)
    }
}

proof fn lemma_scan_error_stays(d: Seq<char>, neg: bool, k: int)
    requires
        0 <= k <= d.len(),
        scan_i32(d.take(k), neg) is Err,
    ensures
        scan_i32(d, neg) == scan_i32(d.take(k), neg),
    decreases d.len() - k,
{
    if k < d.len() {
        assert(d.take(k + 1).drop_last() =~= d.take(k));
        lemma_scan_error_stays(d, neg, k + 1);
    } else {
        assert(d.take(k) =~= d);
    }
}

/// Parses a decimal `i32` as `str::parse::<i32>` does.
pub fn parse_i32(s: &[char]) -> (r: Result<i32, IntErrorKind>)
    ensures
        match r {
            Ok(v) => parse_i32_spec(s@) == Ok::<int, IntErrorKind>(v as int),
            Err(k) => parse_i32_spec(s@) == Err::<int, IntErrorKind>(k),
        },
{
    let n = s.len();
    if n == 0 {
        return Err(IntErrorKind::Empty);
    }
    if n == 1 && (s[0] == '+' || s[0] == '-') {
        assert(s@ =~= seq![s@[0]]);
        return Err(IntErrorKind::InvalidDigit);
    }
    let neg = s[0] == '-';
    let start: usize = if s[0] == '+' || s[0] == '-' {
        1
    } else {
        0
    };
    let ghost d = s@.subrange(start as int, n as int);
    assert(start == 1 ==> d =~= s@.drop_first());
    assert(start == 0 ==> d =~= s@);
    assert(parse_i32_spec(s@) == scan_i32(d, neg));
    let mut v: i64 = 0;
    let mut i: usize = start;
    assert(d.take(0) =~= Seq::<char>::empty());
    while i < n
        invariant
            start <= i <= n,
            n == s@.len(),
            d == s@.subrange(start as int, n as int),
            parse_i32_spec(s@) == scan_i32(d, neg),
            scan_i32(d.take(i - start), neg) == Ok::<int, IntErrorKind>(v as int),
            i32::MIN <= v <= i32::MAX,
        decreases n - i,
    {
        let c = s[i];
        let ghost pre = d.take(i - start);
        let ghost cur = d.take(i + 1 - start);
        assert(cur.drop_last() =~= pre);
        assert(cur.last() == c);
        if !('0' <= c && c <= '9') {
            proof {
                lemma_scan_error_stays(d, neg, i + 1 - start);
            }
            return Err(IntErrorKind::InvalidDigit);
        }
        let x = (c as u32 - '0' as u32) as i64;
        assert(x == c as int - '0' as int);
        let nv: i64 = if neg {
            v * 10 - x
        } else {
            v * 10 + x
        };
        if nv > 2147483647 {
            proof {
                lemma_scan_error_stays(d, neg, i + 1 - start);
            }
            return Err(IntErrorKind::PosOverflow);
        }
        if nv < -2147483648 {
            proof {
                lemma_scan_error_stays(d, neg, i + 1 - start);
            }
            return Err(IntErrorKind::NegOverflow);
        }
        v = nv;
        i = i + 1;
    }
    assert(d.take(n - start) =~= d);
    Ok(v as i32)
}

} // verus!

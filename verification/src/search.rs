//! The text that the font list searches: a font's names, lowercased, plus
//! their pinyin (spaced, run together, and initials) so that Chinese names
//! can be found by romanisation.
use crate::text::{
    all_ascii_chars, ascii_lowercase, blank, chars_of, deep_strings, is_blank, push_all,
    string_from_chars, string_of, to_lowercase, unicode_lowercase,
};
use pinyin::ToPinyin;
use vstd::prelude::*;

verus! {

/// The plain (toneless) pinyin that the `pinyin` crate gives a character, if
/// it has one.
pub uninterp spec fn pinyin_plain(c: char) -> Option<Seq<char>>;

/// Calls `<char as pinyin::ToPinyin>::to_pinyin` and `Pinyin::plain`. The
/// contract claims that the result is a function of the character, named
/// `pinyin_plain`, and that ASCII characters have none (the crate's table
/// starts at U+3007); the pinyin table itself is not stated.
#[verifier::external_body]
fn char_pinyin(c: char) -> (r: Option<String>)
    ensures
        match r {
            Some(s) => pinyin_plain(c) == Some(s@),
            None => pinyin_plain(c) is None,
        },
        (c as u32) < 0x80 ==> r is None,
{
    match c.to_pinyin() {
        Some(p) => Some(p.plain().to_string()),
        None => None,
    }
}

/// The lowercased pinyin of each character of `text` that has one, in order.
pub open spec fn pinyin_words(text: Seq<char>) -> Seq<Seq<char>>
    decreases text.len(),
{
    if text.len() == 0 {
        Seq::empty()
    } else {
        pinyin_words(text.drop_last()) + match pinyin_plain(text.last()) {
            Some(p) => seq![unicode_lowercase(p)],
            None => Seq::empty(),
        }
    }
}

/// The pieces of `words` with `sep` between neighbours.
pub open spec fn join(words: Seq<Seq<char>>, sep: Seq<char>) -> Seq<char>
    decreases words.len(),
{
    if words.len() == 0 {
        Seq::empty()
    } else if words.len() == 1 {
        words[0]
    } else {
        join(words.drop_last(), sep) + sep + words.last()
    }
}

/// Words and a separator that are all ASCII join into an ASCII text.
pub proof fn lemma_join_ascii(words: Seq<Seq<char>>, sep: Seq<char>)
    requires
        forall|i: int| 0 <= i < words.len() ==> all_ascii_chars(#[trigger] words[i]),
        all_ascii_chars(sep),
    ensures
        all_ascii_chars(join(words, sep)),
    decreases words.len(),
{
    if words.len() > 1 {
        let w = words.drop_last();
        assert forall|i: int| 0 <= i < w.len() implies all_ascii_chars(#[trigger] w[i]) by {
            assert(w[i] == words[i]);
        }
        lemma_join_ascii(w, sep);
        let a = join(w, sep);
        let b = a + sep;
        let c = b + words.last();
        assert(words.last() == words[words.len() - 1]);
        assert forall|i: int| 0 <= i < c.len() implies (c[i] as u32) < 0x80 by {
            if i < a.len() {
                assert(c[i] == a[i]);
            } else if i < b.len() {
                assert(c[i] == sep[i - a.len()]);
            } else {
                assert(c[i] == words.last()[i - b.len()]);
            }
        }
    } else if words.len() == 1 {
        assert(words[0] == words[0]);
    }
}

/// The first character of each non-empty word.
pub open spec fn initials(words: Seq<Seq<char>>) -> Seq<char>
    decreases words.len(),
{
    if words.len() == 0 {
        Seq::empty()
    } else {
        initials(words.drop_last()) + if words.last().len() > 0 {
            words.last().take(1)
        } else {
            Seq::empty()
        }
    }
}

/// The initials hold one letter per word: never more characters than
/// words, and when no word is empty, exactly one per word, the first letter
/// of that word, in order.
pub proof fn lemma_initials_one_per_word(w: Seq<Seq<char>>)
    ensures
        initials(w).len() <= w.len(),
        (forall|k: int| 0 <= k < w.len() ==> (#[trigger] w[k]).len() > 0) ==> initials(w).len()
            == w.len() && forall|k: int| 0 <= k < w.len() ==> #[trigger] initials(w)[k] == w[k][0],
    decreases w.len(),
{
    if w.len() > 0 {
        let rest = w.drop_last();
        lemma_initials_one_per_word(rest);
        if forall|k: int| 0 <= k < w.len() ==> (#[trigger] w[k]).len() > 0 {
            assert forall|k: int| 0 <= k < rest.len() implies (#[trigger] rest[k]).len() > 0 by {
                assert(rest[k] == w[k]);
            }
            assert(w.last() == w[w.len() - 1]);
            let head = initials(rest);
            assert(initials(w) == head + w.last().take(1));
            assert forall|k: int| 0 <= k < w.len() implies #[trigger] initials(w)[k] == w[k][0] by {
                if k < rest.len() {
                    assert(rest[k] == w[k]);
                    assert(initials(w)[k] == head[k]);
                } else {
                    assert(initials(w)[k] == w.last().take(1)[0]);
                }
            }
        }
    }
}

/// The pinyin of a text: words joined by spaces, words run together, and initials.
pub open spec fn pinyin_index_spec(text: Seq<char>) -> (Seq<char>, Seq<char>, Seq<char>) {
    let w = pinyin_words(text);
    (join(w, seq![' ']), join(w, Seq::empty()), initials(w))
}

/// Joins strings with a separator.
pub fn join_strings(words: &Vec<String>, sep: &str) -> (r: String)
    ensures
        r@ == join(deep_strings(words@), sep@),
{
    let ghost ws = deep_strings(words@);
    let sep_chars = chars_of(sep);
    let mut out: Vec<char> = Vec::new();
    let mut i: usize = 0;
    assert(ws.take(0) =~= Seq::<Seq<char>>::empty());
    while i < words.len()
        invariant
            0 <= i <= words@.len(),
            ws == deep_strings(words@),
            sep_chars@ == sep@,
            out@ == join(ws.take(i as int), sep@),
        decreases words@.len() - i,
    {
        assert(ws.take(i + 1).drop_last() =~= ws.take(i as int));
        assert(ws.take(i + 1).last() == words@[i as int]@);
        if i > 0 {
            push_all(&mut out, sep_chars.as_slice());
        } else {
            assert(out@ =~= Seq::<char>::empty());
        }
        let w = chars_of(words[i].as_str());
        push_all(&mut out, w.as_slice());
        proof {
            if i == 0 {
                assert(out@ =~= ws.take(1)[0]);
            }
        }
        i = i + 1;
    }
    assert(ws.take(ws.len() as int) =~= ws);
    string_from_chars(out.as_slice())
}

/// The pinyin of a text: spaced words, words run together, and initials.
pub fn pinyin_index(text: &str) -> (r: (String, String, String))
    ensures
        (r.0@, r.1@, r.2@) == pinyin_index_spec(text@),
        all_ascii_chars(text@) ==> r.0@.len() == 0 && r.1@.len() == 0 && r.2@.len() == 0,
        r.2@.len() <= pinyin_words(text@).len(),
        (forall|k: int|
            0 <= k < pinyin_words(text@).len() ==> (#[trigger] pinyin_words(text@)[k]).len() > 0)
            ==> r.2@.len() == pinyin_words(text@).len() && forall|k: int|
            0 <= k < r.2@.len() ==> #[trigger] r.2@[k] == pinyin_words(text@)[k][0],
{
    let chars = chars_of(text);
    let mut words: Vec<String> = Vec::new();
    let mut initials_out: Vec<char> = Vec::new();
    let mut i: usize = 0;
    assert(chars@.take(0) =~= Seq::<char>::empty());
    while i < chars.len()
        invariant
            0 <= i <= chars@.len(),
            chars@ == text@,
            deep_strings(words@) == pinyin_words(chars@.take(i as int)),
            initials_out@ == initials(pinyin_words(chars@.take(i as int))),
            all_ascii_chars(text@) ==> words@.len() == 0,
        decreases chars@.len() - i,
    {
        let ch = chars[i];
        let ghost pre = chars@.take(i as int);
        assert(chars@.take(i + 1).drop_last() =~= pre);
        assert(chars@.take(i + 1).last() == ch);
        assert(all_ascii_chars(text@) ==> (ch as u32) < 0x80);
        match char_pinyin(ch) {
            Some(py) => {
                let plain = to_lowercase(py.as_str());
                let plain_chars = chars_of(plain.as_str());
                let ghost old_words = deep_strings(words@);
                let ghost old_init = initials_out@;
                if plain_chars.len() > 0 {
                    initials_out.push(plain_chars[0]);
                }
                words.push(plain);
                proof {
                    assert(deep_strings(words@) =~= old_words.push(plain@));
                    assert(pinyin_words(chars@.take(i + 1)) =~= old_words + seq![plain@]);
                    assert(old_words + seq![plain@] =~= old_words.push(plain@));
                    assert(old_words.push(plain@).drop_last() =~= old_words);
                    if plain_chars@.len() > 0 {
                        assert(plain@.take(1) =~= seq![plain_chars@[0]]);
                        assert(initials_out@ =~= old_init + plain@.take(1));
                    } else {
                        assert(initials_out@ =~= old_init + Seq::<char>::empty());
                    }
                }
            },
            None => {
                assert(pinyin_words(chars@.take(i + 1)) =~= pinyin_words(pre));
            },
        }
        i = i + 1;
    }
    assert(chars@.take(chars@.len() as int) =~= chars@);
    let spaced = join_strings(&words, " ");
    let compact = join_strings(&words, "");
    let init = string_from_chars(initials_out.as_slice());
    proof {
        if all_ascii_chars(text@) {
            assert(deep_strings(words@) =~= Seq::<Seq<char>>::empty());
            assert(initials(Seq::<Seq<char>>::empty()) =~= Seq::<char>::empty());
        }
        reveal_strlit(" ");
        reveal_strlit("");
        assert(" "@ =~= seq![' ']);
        assert(""@ =~= Seq::<char>::empty());
    }
    proof {
        lemma_initials_one_per_word(pinyin_words(text@));
    }
    (spaced, compact, init)
}

/// The non-blank ones of family and style, joined by a space.
pub open spec fn label_spec(family: Seq<char>, style: Seq<char>) -> Seq<char> {
    let f: Seq<Seq<char>> = if is_blank(family) {
        Seq::empty()
    } else {
        seq![family]
    };
    let s: Seq<Seq<char>> = if is_blank(style) {
        Seq::empty()
    } else {
        seq![style]
    };
    join(f + s, seq![' '])
}

/// The pinyin parts of one text: none when it has no pinyin, else spaced,
/// compact and initials.
pub open spec fn pinyin_parts(text: Seq<char>) -> Seq<Seq<char>> {
    let (spaced, compact, init) = pinyin_index_spec(text);
    if spaced.len() == 0 {
        Seq::empty()
    } else {
        seq![spaced, compact, init]
    }
}

/// The search text of a font: all its names and its label, lowercased, then
/// the pinyin parts of each of name, family, style, PostScript name and
/// label, all joined by spaces.
pub open spec fn search_text_spec(
    name: Seq<char>,
    family: Seq<char>,
    style: Seq<char>,
    post_script_name: Seq<char>,
) -> Seq<char> {
    let label = label_spec(family, style);
    let raw = join(seq![name, family, style, post_script_name, label], seq![' ']);
    join(
        seq![unicode_lowercase(raw)] + pinyin_parts(name) + pinyin_parts(family) + pinyin_parts(
            style,
        ) + pinyin_parts(post_script_name) + pinyin_parts(label),
        seq![' '],
    )
}

/// Appends the pinyin parts of a text to `parts`.
fn push_pinyin_parts(parts: &mut Vec<String>, text: &str)
    ensures
        deep_strings(final(parts)@) == deep_strings(old(parts)@) + pinyin_parts(text@),
        all_ascii_chars(text@) ==> deep_strings(final(parts)@) == deep_strings(old(parts)@),
{
    let (spaced, compact, init) = pinyin_index(text);
    let ghost old_parts = deep_strings(parts@);
    if !spaced.as_str().is_empty() {
        parts.push(spaced);
        parts.push(compact);
        parts.push(init);
        assert(deep_strings(parts@) =~= old_parts + pinyin_parts(text@));
    } else {
        assert(pinyin_parts(text@) =~= Seq::<Seq<char>>::empty());
        assert(old_parts + pinyin_parts(text@) =~= old_parts);
    }
}

/// The search text of fonts whose names are all ASCII: the names and the
/// label, joined by spaces, with ASCII letters lowered (no pinyin).
pub open spec fn ascii_search_text(
    name: Seq<char>,
    family: Seq<char>,
    style: Seq<char>,
    post_script_name: Seq<char>,
) -> Seq<char> {
    ascii_lowercase(
        join(
            seq![name, family, style, post_script_name, label_spec(family, style)],
            seq![' '],
        ),
    )
}

/// The search text of a font in the font list.
pub fn build_search_text(name: &str, family: &str, style: &str, post_script_name: &str) -> (r:
    String)
    ensures
        r@ == search_text_spec(name@, family@, style@, post_script_name@),
        all_ascii_chars(name@) && all_ascii_chars(family@) && all_ascii_chars(style@)
            && all_ascii_chars(post_script_name@) ==> r@ == ascii_search_text(
            name@,
            family@,
            style@,
            post_script_name@,
        ),
{
    let ghost all_ascii = all_ascii_chars(name@) && all_ascii_chars(family@) && all_ascii_chars(
        style@,
    ) && all_ascii_chars(post_script_name@);
    let mut label_parts: Vec<String> = Vec::new();
    if !blank(family) {
        label_parts.push(string_of(family));
    }
    if !blank(style) {
        label_parts.push(string_of(style));
    }
    let ghost fl: Seq<Seq<char>> = if is_blank(family@) {
        Seq::empty()
    } else {
        seq![family@]
    };
    let ghost sl: Seq<Seq<char>> = if is_blank(style@) {
        Seq::empty()
    } else {
        seq![style@]
    };
    assert(deep_strings(label_parts@) =~= fl + sl);
    let label = join_strings(&label_parts, " ");
    proof {
        reveal_strlit(" ");
        assert(" "@ =~= seq![' ']);
        assert(all_ascii_chars(seq![' ']));
        if all_ascii {
            let ls = fl + sl;
            assert forall|i: int| 0 <= i < ls.len() implies all_ascii_chars(#[trigger] ls[i]) by {
                if fl.len() > 0 && i == 0 {
                    assert(ls[i] == family@);
                } else {
                    assert(ls[i] == style@);
                }
            }
            lemma_join_ascii(ls, seq![' ']);
        }
    }
    let mut raw_parts: Vec<String> = Vec::new();
    raw_parts.push(string_of(name));
    raw_parts.push(string_of(family));
    raw_parts.push(string_of(style));
    raw_parts.push(string_of(post_script_name));
    raw_parts.push(label.clone());
    assert(deep_strings(raw_parts@) =~= seq![name@, family@, style@, post_script_name@, label@]);
    let raw = join_strings(&raw_parts, " ");
    proof {
        if all_ascii {
            let rs = seq![name@, family@, style@, post_script_name@, label@];
            assert forall|i: int| 0 <= i < rs.len() implies all_ascii_chars(#[trigger] rs[i]) by {}
            lemma_join_ascii(rs, seq![' ']);
        }
    }
    let mut parts: Vec<String> = Vec::new();
    let lowered = to_lowercase(raw.as_str());
    parts.push(lowered);
    assert(deep_strings(parts@) =~= seq![unicode_lowercase(raw@)]);
    proof {
        reveal_strlit(" ");
        assert(" "@ =~= seq![' ']);
    }
    push_pinyin_parts(&mut parts, name);
    push_pinyin_parts(&mut parts, family);
    push_pinyin_parts(&mut parts, style);
    push_pinyin_parts(&mut parts, post_script_name);
    push_pinyin_parts(&mut parts, label.as_str());
    assert(label@ == label_spec(family@, style@));
    proof {
        if all_ascii {
            assert(deep_strings(parts@) =~= seq![lowered@]);
        }
    }
    join_strings(&parts, " ")
}

} // verus!

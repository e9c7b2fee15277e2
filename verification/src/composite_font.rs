//! Composite fonts: a base font plus rules that pick other fonts for parts of
//! the text. `compile` turns a definition into the font list and code-point
//! ranges that the Photoshop script applies; `validate_collection` checks a
//! user's whole set of definitions before it is saved.
use crate::text::{
    all_ascii_chars, ascii_lowercase, blank, chars_eq, is_blank, chars_of, concat_str, contains_chars, contains_seq, deep_chars,
    deep_strings, first_match, lemma_first_match, lemma_first_match_exists, lemma_first_match_prefix, lemma_first_match_push,
    lemma_trim_ascii, lemma_trim_empty, list_contains, string_from_chars, string_of, to_lowercase, trim, trim_chars,
    unicode_lowercase,
};
use crate::unicode_ranges::{
    general_categories, general_category_names, lemma_unicode_table_well_formed, range_views,
    script_names, scripts, table_well_formed, unicode_ranges, unicode_table, RangeSpec,
    UnicodeRange, UNICODE_VERSION,
};
use vstd::prelude::*;

verus! {

/// The font index that means "keep the font of the preceding text".
pub const INHERIT_FONT: i32 = -1;

/// Fonts for the built-in character classes; `None` keeps the base font.
#[derive(Debug, Clone, PartialEq, Eq)]
pub struct BuiltinRules {
    pub han: Option<String>,
    pub kana: Option<String>,
    pub latin: Option<String>,
    pub decimal_number: Option<String>,
    pub punctuation: Option<String>,
    pub symbol: Option<String>,
}

impl Default for BuiltinRules {
    fn default() -> (r: Self)
        ensures
            r.han is None && r.kana is None && r.latin is None && r.decimal_number is None
                && r.punctuation is None && r.symbol is None,
    {
        BuiltinRules {
            han: None,
            kana: None,
            latin: None,
            decimal_number: None,
            punctuation: None,
            symbol: None,
        }
    }
}

/// The Unicode property that an extra rule tests.
#[derive(Debug, Clone, Copy, PartialEq, Eq, Structural)]
pub enum UnicodeProperty {
    GeneralCategory,
    ScriptExtensions,
}

/// A rule that assigns a font to a General_Category value or to a script.
#[derive(Debug, Clone, PartialEq, Eq)]
pub struct ExtraUnicodeRule {
    pub id: String,
    pub property: UnicodeProperty,
    pub value: String,
    pub font: Option<String>,
}

/// A regular-expression rule; matched text takes `font`.
#[derive(Debug, Clone, PartialEq, Eq)]
pub struct CustomRule {
    pub id: String,
    pub name: String,
    pub pattern: String,
    pub font: String,
    pub enabled: bool,
}

/// A user's composite font.
#[derive(Debug, Clone, PartialEq, Eq)]
pub struct CompositeFontDefinition {
    pub id: String,
    pub name: String,
    pub base_font: String,
    pub builtin_rules: BuiltinRules,
    pub extra_unicode_rules: Vec<ExtraUnicodeRule>,
    pub custom_rules: Vec<CustomRule>,
}

/// Code points `from..=to` take font `font_index` (-1: inherit).
#[derive(Debug, Clone, Copy, PartialEq, Eq, Structural)]
pub struct CompiledRange {
    pub from: u32,
    pub to: u32,
    pub font_index: i32,
}

/// An enabled custom rule with its font resolved to an index.
#[derive(Debug, Clone, PartialEq, Eq)]
pub struct CompiledRegexRule {
    pub name: String,
    pub pattern: String,
    pub font_index: usize,
}

/// A compiled composite font: `fonts[0]` is the base font.
#[derive(Debug, Clone)]
pub struct CompiledCompositeFont {
    pub name: String,
    pub fonts: Vec<String>,
    pub unicode_ranges: Vec<CompiledRange>,
    pub custom_rules: Vec<CompiledRegexRule>,
}

/// The property values that extra rules may name.
#[derive(Debug)]
pub struct UnicodeCatalog {
    pub unicode_version: &'static str,
    pub general_categories: Vec<String>,
    pub scripts: Vec<String>,
}

// ---------------------------------------------------------------------------
// Validation of one definition
// ---------------------------------------------------------------------------

/// The property value of an extra rule is one the table knows.
pub open spec fn rule_value_known(rule: ExtraUnicodeRule) -> bool {
    match rule.property {
        UnicodeProperty::GeneralCategory => general_category_names().contains(rule.value@),
        UnicodeProperty::ScriptExtensions => script_names().contains(rule.value@),
    }
}

/// The pattern uses `\p{`, `\P{` or `(?<`, which the script's regex engine lacks.
pub open spec fn uses_unsupported_regex(pattern: Seq<char>) -> bool {
    contains_seq(pattern, seq!['\\', 'p', '{']) || contains_seq(pattern, seq!['\\', 'P', '{'])
        || contains_seq(pattern, seq!['(', '?', '<'])
}

/// What is wrong with a custom rule, if anything (the first failed check).
pub open spec fn custom_rule_error(rule: CustomRule) -> Option<Seq<char>> {
    if is_blank(rule.name@) {
        Some("Custom rule name is empty"@)
    } else if is_blank(rule.pattern@) {
        Some("Custom rule pattern is empty: "@ + rule.name@)
    } else if is_blank(rule.font@) {
        Some("Custom rule font is empty: "@ + rule.name@)
    } else if uses_unsupported_regex(rule.pattern@) {
        Some("Custom rule uses an unsupported regex feature: "@ + rule.name@)
    } else {
        None
    }
}

/// A custom rule whose name, pattern and font are filled in, and whose
/// pattern uses a Unicode property class (`\p{` or `\P{`) or a lookbehind
/// or named group (`(?<`), is refused for the unsupported regex feature.
pub proof fn lemma_unsupported_pattern_refused(rule: CustomRule)
    requires
        !is_blank(rule.name@),
        !is_blank(rule.pattern@),
        !is_blank(rule.font@),
        contains_seq(rule.pattern@, seq!['\\', 'p', '{']) || contains_seq(
            rule.pattern@,
            seq!['\\', 'P', '{'],
        ) || contains_seq(rule.pattern@, seq!['(', '?', '<']),
    ensures
        custom_rule_error(rule) == Some("Custom rule uses an unsupported regex feature: "@ + rule.name@),
{
}

/// A definition that passes validation has no custom rule, enabled or not,
/// whose pattern holds `\p{`, `\P{` or `(?<`.
pub proof fn lemma_valid_patterns_supported(def: CompositeFontDefinition, k: int)
    requires
        definition_error(def) is None,
        0 <= k < def.custom_rules@.len(),
    ensures
        !contains_seq(def.custom_rules@[k].pattern@, seq!['\\', 'p', '{']),
        !contains_seq(def.custom_rules@[k].pattern@, seq!['\\', 'P', '{']),
        !contains_seq(def.custom_rules@[k].pattern@, seq!['(', '?', '<']),
{
    lemma_first_match(def.custom_rules@, faulty_custom_rule());
    assert(!faulty_custom_rule()(def.custom_rules@[k]));
}

/// Predicate: an extra rule names an unknown property value.
pub open spec fn unknown_rule() -> spec_fn(ExtraUnicodeRule) -> bool {
    |rule: ExtraUnicodeRule| !rule_value_known(rule)
}

/// Predicate: a custom rule fails a check.
pub open spec fn faulty_custom_rule() -> spec_fn(CustomRule) -> bool {
    |rule: CustomRule| custom_rule_error(rule) is Some
}

/// The message of the first check that a definition fails, in the order:
/// name, base font, each extra rule's value, each custom rule.
pub open spec fn definition_error(def: CompositeFontDefinition) -> Option<Seq<char>> {
    if is_blank(def.name@) {
        Some("Composite font name is empty"@)
    } else if is_blank(def.base_font@) {
        Some("Base font is empty"@)
    } else {
        match first_match(def.extra_unicode_rules@, unknown_rule()) {
            Some(i) => Some("Unknown Unicode property value: "@ + def.extra_unicode_rules@[i].value@),
            None => match first_match(def.custom_rules@, faulty_custom_rule()) {
                Some(i) => custom_rule_error(def.custom_rules@[i]),
                None => None,
            },
        }
    }
}

fn rule_is_known(rule: &ExtraUnicodeRule, categories: &Vec<Vec<char>>, names: &Vec<Vec<char>>) -> (r:
    bool)
    requires
        deep_chars(categories@) == general_category_names(),
        deep_chars(names@) == script_names(),
    ensures
        r == rule_value_known(*rule),
{
    let value = chars_of(rule.value.as_str());
    match rule.property {
        UnicodeProperty::GeneralCategory => list_contains(categories, value.as_slice()),
        UnicodeProperty::ScriptExtensions => list_contains(names, value.as_slice()),
    }
}

fn check_custom_rule(rule: &CustomRule) -> (r: Result<(), String>)
    ensures
        match r {
            Ok(()) => custom_rule_error(*rule) is None,
            Err(e) => custom_rule_error(*rule) == Some(e@),
        },
{
    if blank(rule.name.as_str()) {
        return Err(string_of("Custom rule name is empty"));
    }
    if blank(rule.pattern.as_str()) {
        return Err(concat_str("Custom rule pattern is empty: ", rule.name.as_str()));
    }
    if blank(rule.font.as_str()) {
        return Err(concat_str("Custom rule font is empty: ", rule.name.as_str()));
    }
    let pattern = chars_of(rule.pattern.as_str());
    let lower_p = vec!['\\', 'p', '{'];
    let upper_p = vec!['\\', 'P', '{'];
    let named = vec!['(', '?', '<'];
    assert(lower_p@ =~= seq!['\\', 'p', '{']);
    assert(upper_p@ =~= seq!['\\', 'P', '{']);
    assert(named@ =~= seq!['(', '?', '<']);
    if contains_chars(pattern.as_slice(), lower_p.as_slice()) || contains_chars(
        pattern.as_slice(),
        upper_p.as_slice(),
    ) || contains_chars(pattern.as_slice(), named.as_slice()) {
        return Err(
            concat_str("Custom rule uses an unsupported regex feature: ", rule.name.as_str()),
        );
    }
    Ok(())
}

/// Checks one definition: non-blank name and base font, known property
/// values in the extra rules, and well-formed custom rules.
fn validate_definition(definition: &CompositeFontDefinition) -> (r: Result<(), String>)
    ensures
        match r {
            Ok(()) => definition_error(*definition) is None,
            Err(e) => definition_error(*definition) == Some(e@),
        },
{
    if blank(definition.name.as_str()) {
        return Err(string_of("Composite font name is empty"));
    }
    if blank(definition.base_font.as_str()) {
        return Err(string_of("Base font is empty"));
    }
    let categories = general_categories();
    let names = scripts();
    let rules = &definition.extra_unicode_rules;
    let mut i: usize = 0;
    while i < rules.len()
        invariant
            0 <= i <= rules@.len(),
            rules == definition.extra_unicode_rules,
            !is_blank(definition.name@),
            !is_blank(definition.base_font@),
            deep_chars(categories@) == general_category_names(),
            deep_chars(names@) == script_names(),
            first_match(rules@.take(i as int), unknown_rule()) is None,
        decreases rules@.len() - i,
    {
        let ghost pre = rules@.take(i as int);
        assert(rules@.take(i + 1) =~= pre.push(rules@[i as int]));
        proof {
            lemma_first_match_push(pre, rules@[i as int], unknown_rule());
        }
        if !rule_is_known(&rules[i], &categories, &names) {
            proof {
                lemma_first_match_prefix(rules@, i as int + 1, unknown_rule());
            }
            return Err(concat_str("Unknown Unicode property value: ", rules[i].value.as_str()));
        }
        i = i + 1;
    }
    assert(rules@.take(rules@.len() as int) =~= rules@);
    let customs = &definition.custom_rules;
    let mut j: usize = 0;
    while j < customs.len()
        invariant
            0 <= j <= customs@.len(),
            customs == definition.custom_rules,
            !is_blank(definition.name@),
            !is_blank(definition.base_font@),
            first_match(definition.extra_unicode_rules@, unknown_rule()) is None,
            first_match(customs@.take(j as int), faulty_custom_rule()) is None,
        decreases customs@.len() - j,
    {
        let ghost pre = customs@.take(j as int);
        assert(customs@.take(j + 1) =~= pre.push(customs@[j as int]));
        proof {
            lemma_first_match_push(pre, customs@[j as int], faulty_custom_rule());
        }
        match check_custom_rule(&customs[j]) {
            Ok(()) => {},
            Err(e) => {
                proof {
                    lemma_first_match_prefix(customs@, j as int + 1, faulty_custom_rule());
                }
                return Err(e);
            },
        }
        j = j + 1;
    }
    assert(customs@.take(customs@.len() as int) =~= customs@);
    Ok(())
}

// ---------------------------------------------------------------------------
// Which font a table row takes
// ---------------------------------------------------------------------------

/// The font a table row resolves to.
pub enum FontTarget {
    /// The base font (index 0); such code points get no compiled range.
    Base,
    /// The font of the preceding text (index -1).
    Inherit,
    /// A named font.
    Font(Seq<char>),
}

/// An optional font name: a named font, or the base font when absent.
pub open spec fn option_target(font: Option<String>) -> FontTarget {
    match font {
        Some(f) => FontTarget::Font(f@),
        None => FontTarget::Base,
    }
}

/// Predicate: a General_Category rule for the row's category.
pub open spec fn category_rule_for(r: RangeSpec) -> spec_fn(ExtraUnicodeRule) -> bool {
    |rule: ExtraUnicodeRule|
        rule.property == UnicodeProperty::GeneralCategory && rule.value@ == r.general_category
}

/// Predicate: a Script_Extensions rule for one of the row's scripts.
pub open spec fn script_rule_for(r: RangeSpec) -> spec_fn(ExtraUnicodeRule) -> bool {
    |rule: ExtraUnicodeRule|
        rule.property == UnicodeProperty::ScriptExtensions && r.script_extensions.contains(
            rule.value@,
        )
}

/// The category begins with the letter `c` (its major class).
pub open spec fn major_class(gc: Seq<char>, c: char) -> bool {
    gc.len() > 0 && gc[0] == c
}

/// The font a row takes, by priority: the first extra rule for its
/// category; decimal digits, punctuation and symbols by their built-in rules;
/// marks and format characters inherit; the first extra rule for one of its
/// scripts; then Han, kana (Hiragana or Katakana) and Latin by their
/// built-in rules; otherwise the base font.
pub open spec fn row_target(def: CompositeFontDefinition, r: RangeSpec) -> FontTarget {
    let rules = def.extra_unicode_rules@;
    let b = def.builtin_rules;
    let gc = r.general_category;
    let scx = r.script_extensions;
    match first_match(rules, category_rule_for(r)) {
        Some(i) => option_target(rules[i].font),
        None => if gc == seq!['N', 'd'] {
            option_target(b.decimal_number)
        } else if major_class(gc, 'P') {
            option_target(b.punctuation)
        } else if major_class(gc, 'S') {
            option_target(b.symbol)
        } else if major_class(gc, 'M') || gc == seq!['C', 'f'] {
            FontTarget::Inherit
        } else {
            match first_match(rules, script_rule_for(r)) {
                Some(i) => option_target(rules[i].font),
                None => if scx.contains(seq!['H', 'a', 'n']) {
                    option_target(b.han)
                } else if scx.contains(seq!['H', 'i', 'r', 'a', 'g', 'a', 'n', 'a']) || scx.contains(
                    seq!['K', 'a', 't', 'a', 'k', 'a', 'n', 'a'],
                ) {
                    option_target(b.kana)
                } else if scx.contains(seq!['L', 'a', 't', 'i', 'n']) {
                    option_target(b.latin)
                } else {
                    FontTarget::Base
                },
            }
        },
    }
}

/// Predicate: a font name equals `name`.
pub open spec fn named(name: Seq<char>) -> spec_fn(Seq<char>) -> bool {
    |f: Seq<char>| f == name
}

/// The index of a target in a font list: 0 for the base font, -1 to
/// inherit, else the first position of the font's name.
pub open spec fn target_index(fonts: Seq<Seq<char>>, t: FontTarget) -> int {
    match t {
        FontTarget::Base => 0,
        FontTarget::Inherit => -1,
        FontTarget::Font(f) => match first_match(fonts, named(f)) {
            Some(i) => i,
            None => 0,
        },
    }
}

/// `fonts` with `f` appended unless it is already there.
pub open spec fn add_font(fonts: Seq<Seq<char>>, f: Seq<char>) -> Seq<Seq<char>> {
    if fonts.contains(f) {
        fonts
    } else {
        fonts.push(f)
    }
}

/// The distinct names of `s`, each where it first occurs.
pub open spec fn dedup(s: Seq<Seq<char>>) -> Seq<Seq<char>>
    decreases s.len(),
{
    if s.len() == 0 {
        Seq::empty()
    } else {
        add_font(dedup(s.drop_last()), s.last())
    }
}

/// The named font of a target, as a list of zero or one names.
pub open spec fn target_fonts(t: FontTarget) -> Seq<Seq<char>> {
    match t {
        FontTarget::Font(f) => seq![f],
        _ => Seq::empty(),
    }
}

/// The named fonts of the rows, row by row.
pub open spec fn row_fonts(def: CompositeFontDefinition, t: Seq<RangeSpec>) -> Seq<Seq<char>>
    decreases t.len(),
{
    if t.len() == 0 {
        Seq::empty()
    } else {
        row_fonts(def, t.drop_last()) + target_fonts(row_target(def, t.last()))
    }
}

/// The enabled custom rules, in order.
pub open spec fn enabled_rules(rules: Seq<CustomRule>) -> Seq<CustomRule>
    decreases rules.len(),
{
    if rules.len() == 0 {
        Seq::empty()
    } else {
        let e = enabled_rules(rules.drop_last());
        if rules.last().enabled {
            e.push(rules.last())
        } else {
            e
        }
    }
}

/// The fonts of rules, in order.
pub open spec fn rule_fonts(rules: Seq<CustomRule>) -> Seq<Seq<char>> {
    rules.map_values(|r: CustomRule| r.font@)
}

/// The font list of a compiled definition: the base font, then every other
/// font in the order the table rows and then the enabled custom rules first
/// use it.
pub open spec fn font_list(def: CompositeFontDefinition, t: Seq<RangeSpec>) -> Seq<Seq<char>> {
    dedup(seq![def.base_font@] + row_fonts(def, t) + rule_fonts(enabled_rules(def.custom_rules@)))
}

/// Predicate: a compiled range contains `cp`.
pub open spec fn covers(cp: u32) -> spec_fn(CompiledRange) -> bool {
    |r: CompiledRange| r.from <= cp && cp <= r.to
}

/// Predicate: a table row contains `cp`.
pub open spec fn row_covers(cp: u32) -> spec_fn(RangeSpec) -> bool {
    |r: RangeSpec| r.from <= cp && cp <= r.to
}

/// The font index that compiled ranges give `cp`: that of the first range
/// containing it, else 0 (the base font).
pub open spec fn lookup(ranges: Seq<CompiledRange>, cp: u32) -> int {
    match first_match(ranges, covers(cp)) {
        Some(i) => ranges[i].font_index as int,
        None => 0,
    }
}

/// The font index that `cp` should take: that of the target of the table row
/// containing it, else 0.
pub open spec fn expected_index(
    def: CompositeFontDefinition,
    t: Seq<RangeSpec>,
    fonts: Seq<Seq<char>>,
    cp: u32,
) -> int {
    match first_match(t, row_covers(cp)) {
        Some(i) => target_index(fonts, row_target(def, t[i])),
        None => 0,
    }
}

/// Compiled ranges are non-empty, ascending and disjoint, never name the
/// base font, and two touching neighbours never share a font.
pub open spec fn ranges_canonical(ranges: Seq<CompiledRange>) -> bool {
    &&& forall|i: int| 0 <= i < ranges.len() ==> (#[trigger] ranges[i]).from <= ranges[i].to
    &&& forall|i: int| 0 <= i < ranges.len() ==> (#[trigger] ranges[i]).font_index != 0
    &&& forall|i: int, j: int|
        0 <= i < j < ranges.len() ==> (#[trigger] ranges[i]).to < (#[trigger] ranges[j]).from
    &&& forall|i: int|
        0 <= i < ranges.len() - 1 ==> (#[trigger] ranges[i]).to + 1 == ranges[i + 1].from
            ==> ranges[i].font_index != ranges[i + 1].font_index
}

// ---------------------------------------------------------------------------
// The font pool
// ---------------------------------------------------------------------------

/// The fonts of a composite font in order of first use; index 0 is the base.
struct FontPool {
    fonts: Vec<String>,
}

impl FontPool {
    /// A pool holding only the base font.
    fn new(base_font: &str) -> (r: Self)
        ensures
            deep_strings(r.fonts@) == seq![base_font@],
    {
        let mut fonts: Vec<String> = Vec::new();
        fonts.push(string_of(base_font));
        assert(deep_strings(fonts@) =~= seq![base_font@]);
        FontPool { fonts }
    }

    /// The index of `font`, adding it at the end when new.
    fn index(&mut self, font: &String) -> (r: usize)
        ensures
            deep_strings(final(self).fonts@) == add_font(deep_strings(old(self).fonts@), font@),
            first_match(deep_strings(final(self).fonts@), named(font@)) == Some(r as int),
    {
        let ghost names = deep_strings(self.fonts@);
        let mut i: usize = 0;
        while i < self.fonts.len()
            invariant
                0 <= i <= self.fonts@.len(),
                names == deep_strings(self.fonts@),
                first_match(names.take(i as int), named(font@)) is None,
            decreases self.fonts@.len() - i,
        {
            assert(names.take(i + 1) =~= names.take(i as int).push(names[i as int]));
            proof {
                lemma_first_match_push(names.take(i as int), names[i as int], named(font@));
            }
            if self.fonts[i] == *font {
                proof {
                    lemma_first_match_prefix(names, i + 1, named(font@));
                    assert(names.contains(font@));
                }
                return i;
            }
            i = i + 1;
        }
        assert(names.take(names.len() as int) =~= names);
        proof {
            lemma_first_match(names, named(font@));
            if names.contains(font@) {
                let k = choose|k: int| 0 <= k < names.len() && names[k] == font@;
                assert(named(font@)(names[k]));
            }
        }
        let n = self.fonts.len();
        self.fonts.push(font.clone());
        assert(deep_strings(self.fonts@) =~= names.push(font@));
        proof {
            lemma_first_match_push(names, font@, named(font@));
        }
        n
    }

    /// The index of an optional font; 0 (the base font) when absent.
    fn optional_index(&mut self, font: &Option<String>) -> (r: i32)
        requires
            old(self).fonts@.len() < i32::MAX,
        ensures
            deep_strings(final(self).fonts@) == match font {
                Some(f) => add_font(deep_strings(old(self).fonts@), f@),
                None => deep_strings(old(self).fonts@),
            },
            r == target_index(deep_strings(final(self).fonts@), option_target(*font)),
    {
        match font {
            Some(f) => {
                let i = self.index(f);
                proof {
                    lemma_first_match(deep_strings(self.fonts@), named(f@));
                }
                i as i32
            },
            None => 0,
        }
    }
}

/// The first General_Category rule for the row's category.
fn first_extra_general_category_match(
    range: &UnicodeRange,
    definition: &CompositeFontDefinition,
) -> (r: Option<usize>)
    ensures
        match r {
            Some(i) => first_match(definition.extra_unicode_rules@, category_rule_for(range@))
                == Some(i as int),
            None => first_match(definition.extra_unicode_rules@, category_rule_for(range@)) is None,
        },
{
    let rules = &definition.extra_unicode_rules;
    let mut i: usize = 0;
    while i < rules.len()
        invariant
            0 <= i <= rules@.len(),
            rules == definition.extra_unicode_rules,
            first_match(rules@.take(i as int), category_rule_for(range@)) is None,
        decreases rules@.len() - i,
    {
        let ghost pre = rules@.take(i as int);
        assert(rules@.take(i + 1) =~= pre.push(rules@[i as int]));
        proof {
            lemma_first_match_push(pre, rules@[i as int], category_rule_for(range@));
        }
        let rule = &rules[i];
        if rule.property == UnicodeProperty::GeneralCategory && chars_eq(
            chars_of(rule.value.as_str()).as_slice(),
            range.general_category.as_slice(),
        ) {
            proof {
                lemma_first_match_prefix(rules@, i + 1, category_rule_for(range@));
            }
            return Some(i);
        }
        i = i + 1;
    }
    assert(rules@.take(rules@.len() as int) =~= rules@);
    None
}

/// The first Script_Extensions rule for one of the row's scripts.
fn first_extra_script_match(range: &UnicodeRange, definition: &CompositeFontDefinition) -> (r:
    Option<usize>)
    ensures
        match r {
            Some(i) => first_match(definition.extra_unicode_rules@, script_rule_for(range@)) == Some(
                i as int,
            ),
            None => first_match(definition.extra_unicode_rules@, script_rule_for(range@)) is None,
        },
{
    let rules = &definition.extra_unicode_rules;
    let mut i: usize = 0;
    while i < rules.len()
        invariant
            0 <= i <= rules@.len(),
            rules == definition.extra_unicode_rules,
            first_match(rules@.take(i as int), script_rule_for(range@)) is None,
        decreases rules@.len() - i,
    {
        let ghost pre = rules@.take(i as int);
        assert(rules@.take(i + 1) =~= pre.push(rules@[i as int]));
        proof {
            lemma_first_match_push(pre, rules@[i as int], script_rule_for(range@));
        }
        let rule = &rules[i];
        if rule.property == UnicodeProperty::ScriptExtensions && list_contains(
            &range.script_extensions,
            chars_of(rule.value.as_str()).as_slice(),
        ) {
            proof {
                lemma_first_match_prefix(rules@, i + 1, script_rule_for(range@));
            }
            return Some(i);
        }
        i = i + 1;
    }
    assert(rules@.take(rules@.len() as int) =~= rules@);
    None
}

/// The font index that a table row takes, adding its font to the pool.
fn resolve_target(range: &UnicodeRange, definition: &CompositeFontDefinition, fonts: &mut FontPool) -> (r: i32)
    requires
        old(fonts).fonts@.len() < i32::MAX,
    ensures
        deep_strings(final(fonts).fonts@) == match row_target(*definition, range@) {
            FontTarget::Font(f) => add_font(deep_strings(old(fonts).fonts@), f),
            _ => deep_strings(old(fonts).fonts@),
        },
        r == target_index(deep_strings(final(fonts).fonts@), row_target(*definition, range@)),
{
    let b = &definition.builtin_rules;
    let rules = &definition.extra_unicode_rules;
    if let Some(i) = first_extra_general_category_match(range, definition) {
        proof {
            lemma_first_match(rules@, category_rule_for(range@));
        }
        return fonts.optional_index(&rules[i].font);
    }
    let gc = &range.general_category;
    let nd = vec!['N', 'd'];
    let cf = vec!['C', 'f'];
    assert(nd@ =~= seq!['N', 'd']);
    assert(cf@ =~= seq!['C', 'f']);
    if chars_eq(gc.as_slice(), nd.as_slice()) {
        return fonts.optional_index(&b.decimal_number);
    }
    if gc.len() > 0 && gc[0] == 'P' {
        return fonts.optional_index(&b.punctuation);
    }
    if gc.len() > 0 && gc[0] == 'S' {
        return fonts.optional_index(&b.symbol);
    }
    if (gc.len() > 0 && gc[0] == 'M') || chars_eq(gc.as_slice(), cf.as_slice()) {
        return INHERIT_FONT;
    }
    if let Some(i) = first_extra_script_match(range, definition) {
        proof {
            lemma_first_match(rules@, script_rule_for(range@));
        }
        return fonts.optional_index(&rules[i].font);
    }
    let han = vec!['H', 'a', 'n'];
    let hiragana = vec!['H', 'i', 'r', 'a', 'g', 'a', 'n', 'a'];
    let katakana = vec!['K', 'a', 't', 'a', 'k', 'a', 'n', 'a'];
    let latin = vec!['L', 'a', 't', 'i', 'n'];
    assert(han@ =~= seq!['H', 'a', 'n']);
    assert(hiragana@ =~= seq!['H', 'i', 'r', 'a', 'g', 'a', 'n', 'a']);
    assert(katakana@ =~= seq!['K', 'a', 't', 'a', 'k', 'a', 'n', 'a']);
    assert(latin@ =~= seq!['L', 'a', 't', 'i', 'n']);
    let scx = &range.script_extensions;
    if list_contains(scx, han.as_slice()) {
        return fonts.optional_index(&b.han);
    }
    if list_contains(scx, hiragana.as_slice()) || list_contains(scx, katakana.as_slice()) {
        return fonts.optional_index(&b.kana);
    }
    if list_contains(scx, latin.as_slice()) {
        return fonts.optional_index(&b.latin);
    }
    0
}


// ---------------------------------------------------------------------------
// Compiling the table
// ---------------------------------------------------------------------------

proof fn lemma_dedup_push(s: Seq<Seq<char>>, x: Seq<char>)
    ensures
        dedup(s.push(x)) == add_font(dedup(s), x),
{
    assert(s.push(x).drop_last() =~= s);
}

proof fn lemma_row_fonts_push(def: CompositeFontDefinition, t: Seq<RangeSpec>, r: RangeSpec)
    ensures
        row_fonts(def, t.push(r)) == row_fonts(def, t) + target_fonts(row_target(def, r)),
{
    assert(t.push(r).drop_last() =~= t);
}

/// Adding a font keeps the index of every font already present.
proof fn lemma_add_font_keeps_index(p: Seq<Seq<char>>, g: Seq<char>, f: Seq<char>)
    requires
        p.contains(f),
    ensures
        first_match(add_font(p, g), named(f)) == first_match(p, named(f)),
        add_font(p, g).contains(f),
{
    let k = choose|k: int| 0 <= k < p.len() && p[k] == f;
    lemma_first_match_exists(p, named(f), k);
    lemma_first_match_push(p, g, named(f));
    if !p.contains(g) {
        assert(p.push(g)[k] == f);
    }
}

proof fn lemma_add_font_contains(p: Seq<Seq<char>>, g: Seq<char>)
    ensures
        add_font(p, g).contains(g),
        forall|f: Seq<char>| p.contains(f) ==> add_font(p, g).contains(f),
{
    if !p.contains(g) {
        assert(p.push(g)[p.len() as int] == g);
        assert forall|f: Seq<char>| p.contains(f) implies p.push(g).contains(f) by {
            let k = choose|k: int| 0 <= k < p.len() && p[k] == f;
            assert(p.push(g)[k] == f);
        }
    }
}

/// Every named font of the first `i` rows is in the list.
pub open spec fn fonts_known(def: CompositeFontDefinition, t: Seq<RangeSpec>, p: Seq<Seq<char>>) -> bool {
    forall|j: int|
        0 <= j < t.len() ==> match row_target(def, #[trigger] t[j]) {
            FontTarget::Font(f) => p.contains(f),
            _ => true,
        }
}

proof fn lemma_target_index_stable(p: Seq<Seq<char>>, g: Seq<char>, t: FontTarget)
    requires
        t matches FontTarget::Font(f) ==> p.contains(f),
    ensures
        target_index(add_font(p, g), t) == target_index(p, t),
{
    if let FontTarget::Font(f) = t {
        lemma_add_font_keeps_index(p, g, f);
    }
}

/// The compiled ranges for a table, with the fonts they use added to `pool`.
fn compile_unicode_ranges(
    definition: &CompositeFontDefinition,
    table: &Vec<UnicodeRange>,
    pool: &mut FontPool,
) -> (out: Vec<CompiledRange>)
    requires
        deep_strings(old(pool).fonts@) == seq![definition.base_font@],
        table_well_formed(range_views(table@)),
    ensures
        deep_strings(final(pool).fonts@) == dedup(
            seq![definition.base_font@] + row_fonts(*definition, range_views(table@)),
        ),
        fonts_known(*definition, range_views(table@), deep_strings(final(pool).fonts@)),
        ranges_canonical(out@),
        forall|cp: u32|
            #![trigger lookup(out@, cp)]
            lookup(out@, cp) == expected_index(
                *definition,
                range_views(table@),
                deep_strings(final(pool).fonts@),
                cp,
            ),
{
    let ghost def = *definition;
    let ghost base = seq![definition.base_font@];
    let ghost t = range_views(table@);
    proof {
        crate::unicode_ranges::lemma_table_len_bound(t);
        assert(dedup(base) =~= base) by {
            let e = Seq::<Seq<char>>::empty();
            assert(base.drop_last() =~= e);
            assert(dedup(e) == e);
            assert(!e.contains(definition.base_font@));
            assert(add_font(e, definition.base_font@) =~= base);
        }
        assert(base + row_fonts(def, t.take(0)) =~= base);
    }
    let mut out: Vec<CompiledRange> = Vec::new();
    let mut i: usize = 0;
    while i < table.len()
        invariant
            0 <= i <= table@.len(),
            def == *definition,
            t == range_views(table@),
            base == seq![definition.base_font@],
            table_well_formed(t),
            t.len() <= 0x110000,
            deep_strings(pool.fonts@) == dedup(base + row_fonts(def, t.take(i as int))),
            pool.fonts@.len() <= 1 + i,
            fonts_known(def, t.take(i as int), deep_strings(pool.fonts@)),
            ranges_canonical(out@),
            forall|cp: u32|
                #![trigger lookup(out@, cp)]
                lookup(out@, cp) == expected_index(
                    def,
                    t.take(i as int),
                    deep_strings(pool.fonts@),
                    cp,
                ),
            i == 0 ==> out@.len() == 0,
            i > 0 ==> forall|k: int| 0 <= k < out@.len() ==> (#[trigger] out@[k]).to <= t[i - 1].to,
        decreases table@.len() - i,
    {
        let range = &table[i];
        let ghost r = t[i as int];
        assert(range@ == r);
        let ghost p_old = deep_strings(pool.fonts@);
        let ghost out_old = out@;
        let ghost ti = t.take(i as int);
        assert(t.take(i + 1) =~= ti.push(r));
        let k = resolve_target(range, definition, pool);
        let ghost p_new = deep_strings(pool.fonts@);
        proof {
            lemma_row_fonts_push(def, ti, r);
            match row_target(def, r) {
                FontTarget::Font(f) => {
                    assert(base + row_fonts(def, ti.push(r)) =~= (base + row_fonts(def, ti)).push(
                        f,
                    ));
                    lemma_dedup_push(base + row_fonts(def, ti), f);
                    lemma_add_font_contains(p_old, f);
                },
                _ => {
                    assert(base + row_fonts(def, ti.push(r)) =~= base + row_fonts(def, ti));
                },
            }
            // The indices of earlier rows' fonts are unchanged.
            assert forall|j: int| 0 <= j < ti.len() implies target_index(
                p_new,
                row_target(def, #[trigger] ti[j]),
            ) == target_index(p_old, row_target(def, ti[j])) by {
                match row_target(def, r) {
                    FontTarget::Font(f) => {
                        lemma_target_index_stable(p_old, f, row_target(def, ti[j]));
                    },
                    _ => {},
                }
            }
            assert(fonts_known(def, ti.push(r), p_new)) by {
                assert forall|j: int| 0 <= j < ti.push(r).len() implies match row_target(
                    def,
                    #[trigger] ti.push(r)[j],
                ) {
                    FontTarget::Font(f) => p_new.contains(f),
                    _ => true,
                } by {
                    if j < ti.len() {
                        assert(ti.push(r)[j] == ti[j]);
                        match row_target(def, r) {
                            FontTarget::Font(g) => {
                                lemma_add_font_contains(p_old, g);
                            },
                            _ => {},
                        }
                    }
                }
            }
        }
        if k != 0 {
            let n = out.len();
            if n > 0 && out[n - 1].to + 1 == range.from && out[n - 1].font_index == k {
                let last = out[n - 1];
                out.set(n - 1, CompiledRange { from: last.from, to: range.to, font_index: k });
            } else {
                out.push(CompiledRange { from: range.from, to: range.to, font_index: k });
            }
        }
        proof {
            lemma_compile_step(def, ti, r, p_old, p_new, out_old, out@, k, i > 0);
        }
        i = i + 1;
    }
    assert(t.take(t.len() as int) =~= t);
    out
}

/// One row of the compilation keeps the loop's facts.
proof fn lemma_compile_step(
    def: CompositeFontDefinition,
    ti: Seq<RangeSpec>,
    r: RangeSpec,
    p_old: Seq<Seq<char>>,
    p_new: Seq<Seq<char>>,
    out_old: Seq<CompiledRange>,
    out_new: Seq<CompiledRange>,
    k: i32,
    started: bool,
)
    requires
        table_well_formed(ti.push(r)),
        started == (ti.len() > 0),
        !started ==> out_old.len() == 0,
        started ==> forall|m: int| 0 <= m < out_old.len() ==> (#[trigger] out_old[m]).to <= ti.last().to,
        ranges_canonical(out_old),
        forall|cp: u32|
            #![trigger lookup(out_old, cp)]
            lookup(out_old, cp) == expected_index(def, ti, p_old, cp),
        forall|j: int|
            0 <= j < ti.len() ==> target_index(p_new, row_target(def, #[trigger] ti[j]))
                == target_index(p_old, row_target(def, ti[j])),
        k == target_index(p_new, row_target(def, r)),
        k == 0 ==> out_new == out_old,
        k != 0 ==> {
            let n = out_old.len();
            if n > 0 && out_old[n - 1].to + 1 == r.from && out_old[n - 1].font_index == k {
                out_new == out_old.update(
                    n - 1,
                    CompiledRange { from: out_old[n - 1].from, to: r.to, font_index: k },
                )
            } else {
                out_new == out_old.push(CompiledRange { from: r.from, to: r.to, font_index: k })
            }
        },
    ensures
        ranges_canonical(out_new),
        forall|cp: u32|
            #![trigger lookup(out_new, cp)]
            lookup(out_new, cp) == expected_index(def, ti.push(r), p_new, cp),
        forall|m: int| 0 <= m < out_new.len() ==> (#[trigger] out_new[m]).to <= r.to,
{
    let tp = ti.push(r);
    assert(tp.drop_last() =~= ti);
    // Earlier rows and earlier ranges all end before the new row starts.
    assert forall|j: int| 0 <= j < ti.len() implies (#[trigger] ti[j]).to < r.from by {
        assert(tp[j] == ti[j]);
        assert(tp[ti.len() as int] == r);
    }
    assert forall|m: int| 0 <= m < out_old.len() implies (#[trigger] out_old[m]).to < r.from by {
        if started {
            assert(ti[ti.len() - 1].to < r.from);
        }
    }
    assert(r.from <= r.to) by {
        assert(tp[ti.len() as int] == r);
    }
    let n = out_old.len();
    let merge = k != 0 && n > 0 && out_old[n - 1].to + 1 == r.from && out_old[n - 1].font_index == k;
    // The ranges after the step.
    assert forall|cp: u32| #![trigger lookup(out_new, cp)]
        lookup(out_new, cp) == expected_index(def, tp, p_new, cp) by {
        lemma_compile_step_point(def, ti, r, p_old, p_new, out_old, out_new, k, cp);
    }
    // The ranges stay canonical.
    if k != 0 {
        if merge {
            assert forall|a: int, b: int| 0 <= a < b < out_new.len() implies (#[trigger] out_new[a]).to
                < (#[trigger] out_new[b]).from by {
                assert(out_new[a] == out_old[a]);
            }
            assert forall|a: int| 0 <= a < out_new.len() - 1 implies (#[trigger] out_new[a]).to + 1
                == out_new[a + 1].from ==> out_new[a].font_index != out_new[a + 1].font_index by {
                assert(out_new[a] == out_old[a]);
                assert(out_new[a + 1].from == out_old[a + 1].from);
                assert(out_new[a + 1].font_index == out_old[a + 1].font_index);
            }
        } else {
            assert forall|a: int, b: int| 0 <= a < b < out_new.len() implies (#[trigger] out_new[a]).to
                < (#[trigger] out_new[b]).from by {
                if b == n {
                    assert(out_new[a] == out_old[a]);
                } else {
                    assert(out_new[a] == out_old[a]);
                    assert(out_new[b] == out_old[b]);
                }
            }
            assert forall|a: int| 0 <= a < out_new.len() - 1 implies (#[trigger] out_new[a]).to + 1
                == out_new[a + 1].from ==> out_new[a].font_index != out_new[a + 1].font_index by {
                assert(out_new[a] == out_old[a]);
                if a + 1 < n {
                    assert(out_new[a + 1] == out_old[a + 1]);
                }
            }
            assert forall|a: int| 0 <= a < out_new.len() implies (#[trigger] out_new[a]).from
                <= out_new[a].to && out_new[a].font_index != 0 by {
                if a < n {
                    assert(out_new[a] == out_old[a]);
                }
            }
        }
    }
    assert forall|m: int| 0 <= m < out_new.len() implies (#[trigger] out_new[m]).to <= r.to by {
        if m < n {
            assert(out_old[m].to < r.from);
        }
    }
}


/// One row of the compilation, at one code point.
proof fn lemma_compile_step_point(
    def: CompositeFontDefinition,
    ti: Seq<RangeSpec>,
    r: RangeSpec,
    p_old: Seq<Seq<char>>,
    p_new: Seq<Seq<char>>,
    out_old: Seq<CompiledRange>,
    out_new: Seq<CompiledRange>,
    k: i32,
    cp: u32,
)
    requires
        forall|j: int| 0 <= j < ti.len() ==> (#[trigger] ti[j]).to < r.from,
        forall|m: int| 0 <= m < out_old.len() ==> (#[trigger] out_old[m]).to < r.from,
        forall|m: int| 0 <= m < out_old.len() ==> (#[trigger] out_old[m]).from <= out_old[m].to,
        r.from <= r.to,
        lookup(out_old, cp) == expected_index(def, ti, p_old, cp),
        forall|j: int|
            0 <= j < ti.len() ==> target_index(p_new, row_target(def, #[trigger] ti[j]))
                == target_index(p_old, row_target(def, ti[j])),
        k == target_index(p_new, row_target(def, r)),
        k == 0 ==> out_new == out_old,
        k != 0 ==> {
            let n = out_old.len();
            if n > 0 && out_old[n - 1].to + 1 == r.from && out_old[n - 1].font_index == k {
                out_new == out_old.update(
                    n - 1,
                    CompiledRange { from: out_old[n - 1].from, to: r.to, font_index: k },
                )
            } else {
                out_new == out_old.push(CompiledRange { from: r.from, to: r.to, font_index: k })
            }
        },
    ensures
        lookup(out_new, cp) == expected_index(def, ti.push(r), p_new, cp),
{
    let tp = ti.push(r);
    let n = out_old.len();
    let merge = k != 0 && n > 0 && out_old[n - 1].to + 1 == r.from && out_old[n - 1].font_index == k;
    lemma_first_match_push(ti, r, row_covers(cp));
    lemma_first_match(ti, row_covers(cp));
    lemma_first_match(out_old, covers(cp));
    let in_row = r.from <= cp && cp <= r.to;
    if in_row {
        if first_match(ti, row_covers(cp)) is Some {
            let j = first_match(ti, row_covers(cp)).unwrap();
            assert(ti[j].to < r.from);
        }
        if first_match(out_old, covers(cp)) is Some {
            let m = first_match(out_old, covers(cp)).unwrap();
            assert(out_old[m].to < r.from);
        }
        assert(first_match(tp, row_covers(cp)) == Some(ti.len() as int));
        assert(tp[ti.len() as int] == r);
        assert(expected_index(def, tp, p_new, cp) == k);
        if k == 0 {
            assert(lookup(out_new, cp) == 0);
        } else if merge {
            let d = out_old.drop_last();
            assert(out_new =~= d.push(out_new[n - 1]));
            assert(out_old =~= d.push(out_old[n - 1]));
            lemma_first_match_push(d, out_old[n - 1], covers(cp));
            lemma_first_match_push(d, out_new[n - 1], covers(cp));
        } else {
            lemma_first_match_push(out_old, out_new[n as int], covers(cp));
            assert(out_new =~= out_old.push(out_new[n as int]));
        }
    } else {
        assert(expected_index(def, tp, p_new, cp) == expected_index(def, ti, p_old, cp)) by {
            if first_match(ti, row_covers(cp)) is Some {
                let j = first_match(ti, row_covers(cp)).unwrap();
                assert(tp[j] == ti[j]);
            }
        }
        if k == 0 {
        } else if merge {
            let d = out_old.drop_last();
            assert(out_new =~= d.push(out_new[n - 1]));
            assert(out_old =~= d.push(out_old[n - 1]));
            lemma_first_match_push(d, out_old[n - 1], covers(cp));
            lemma_first_match_push(d, out_new[n - 1], covers(cp));
            assert(covers(cp)(out_new[n - 1]) == covers(cp)(out_old[n - 1]));
            lemma_first_match(d, covers(cp));
            if first_match(d, covers(cp)) is Some {
                let m = first_match(d, covers(cp)).unwrap();
                assert(out_new[m] == out_old[m]);
            }
        } else {
            let x = CompiledRange { from: r.from, to: r.to, font_index: k };
            assert(out_new == out_old.push(x));
            lemma_first_match_push(out_old, x, covers(cp));
            if first_match(out_old, covers(cp)) is Some {
                let m = first_match(out_old, covers(cp)).unwrap();
                assert(out_new[m] == out_old[m]);
            }
        }
    }
}


/// Adding a font keeps the expected index of every code point whose row's
/// font is already listed.
proof fn lemma_expected_stable(
    def: CompositeFontDefinition,
    t: Seq<RangeSpec>,
    p: Seq<Seq<char>>,
    g: Seq<char>,
    cp: u32,
)
    requires
        fonts_known(def, t, p),
    ensures
        expected_index(def, t, add_font(p, g), cp) == expected_index(def, t, p, cp),
{
    lemma_first_match(t, row_covers(cp));
    if let Some(j) = first_match(t, row_covers(cp)) {
        lemma_target_index_stable(p, g, row_target(def, t[j]));
    }
}

// ---------------------------------------------------------------------------
// Laws of compiled fonts
// ---------------------------------------------------------------------------

/// No name occurs twice.
pub open spec fn distinct_names(s: Seq<Seq<char>>) -> bool {
    forall|i: int, j: int| 0 <= i < j < s.len() ==> s[i] != s[j]
}

proof fn lemma_dedup(s: Seq<Seq<char>>)
    ensures
        distinct_names(dedup(s)),
        forall|f: Seq<char>| #[trigger] dedup(s).contains(f) <==> s.contains(f),
        s.len() > 0 ==> dedup(s).len() > 0 && dedup(s)[0] == s[0],
    decreases s.len(),
{
    if s.len() > 0 {
        let rest = s.drop_last();
        lemma_dedup(rest);
        let d = dedup(rest);
        let x = s.last();
        assert(dedup(s) == add_font(d, x));
        assert forall|f: Seq<char>| #[trigger] dedup(s).contains(f) <==> s.contains(f) by {
            if s.contains(f) {
                let k = choose|k: int| 0 <= k < s.len() && s[k] == f;
                if k < s.len() - 1 {
                    assert(rest[k] == f);
                    assert(rest.contains(f));
                    assert(d.contains(f));
                    let m = choose|m: int| 0 <= m < d.len() && d[m] == f;
                    if !d.contains(x) {
                        assert(d.push(x)[m] == f);
                    }
                } else {
                    assert(f == x);
                    if !d.contains(x) {
                        assert(d.push(x)[d.len() as int] == f);
                    }
                }
            }
            if dedup(s).contains(f) {
                let m = choose|m: int| 0 <= m < dedup(s).len() && dedup(s)[m] == f;
                if m < d.len() {
                    assert(d[m] == f);
                    assert(d.contains(f));
                    assert(rest.contains(f));
                    let k = choose|k: int| 0 <= k < rest.len() && rest[k] == f;
                    assert(s[k] == f);
                } else {
                    assert(f == x);
                    assert(s[s.len() - 1] == f);
                }
            }
        }
        if rest.len() == 0 {
            assert(!d.contains(s.last()));
            assert(dedup(s) =~= seq![s.last()]);
        }
    }
}

/// The compiled font list begins with the base font and names every font
/// once: each name that a table row or an enabled custom rule uses, and no
/// other.
pub proof fn lemma_font_list_shape(def: CompositeFontDefinition, t: Seq<RangeSpec>)
    ensures
        font_list(def, t).len() >= 1,
        font_list(def, t)[0] == def.base_font@,
        distinct_names(font_list(def, t)),
        forall|f: Seq<char>|
            #[trigger] font_list(def, t).contains(f) <==> (f == def.base_font@ || row_fonts(
                def,
                t,
            ).contains(f) || rule_fonts(enabled_rules(def.custom_rules@)).contains(f)),
{
    let a = seq![def.base_font@];
    let b = row_fonts(def, t);
    let c = rule_fonts(enabled_rules(def.custom_rules@));
    let s = a + b + c;
    lemma_dedup(s);
    assert(s[0] == def.base_font@);
    assert forall|f: Seq<char>| s.contains(f) <==> (f == def.base_font@ || b.contains(f) || c.contains(f)) by {
        if s.contains(f) {
            let k = choose|k: int| 0 <= k < s.len() && s[k] == f;
            if k == 0 {
            } else if k < 1 + b.len() {
                assert(b[k - 1] == f);
            } else {
                assert(c[k - 1 - b.len()] == f);
            }
        }
        if f == def.base_font@ {
            assert(s[0] == f);
        } else if b.contains(f) {
            let k = choose|k: int| 0 <= k < b.len() && b[k] == f;
            assert(s[k + 1] == f);
        } else if c.contains(f) {
            let k = choose|k: int| 0 <= k < c.len() && c[k] == f;
            assert(s[k + 1 + b.len()] == f);
        }
    }
}

/// Code points that follow the base font (their table row resolves to it,
/// or no row holds them) lie in no compiled range: the script gives them the
/// base font, never the font of the text before them.
pub proof fn lemma_base_code_points_uncovered(
    c: CompiledCompositeFont,
    def: CompositeFontDefinition,
    t: Seq<RangeSpec>,
    cp: u32,
)
    requires
        compiled_as(c, def, t),
        match first_match(t, row_covers(cp)) {
            Some(i) => row_target(def, t[i]) is Base,
            None => true,
        },
    ensures
        lookup(c.unicode_ranges@, cp) == 0,
        first_match(c.unicode_ranges@, covers(cp)) is None,
{
    assert(lookup(c.unicode_ranges@, cp) == expected_index(def, t, deep_strings(c.fonts@), cp));
    lemma_first_match(c.unicode_ranges@, covers(cp));
}

/// A code point whose row names a font gets that font's position in the
/// compiled font list.
pub proof fn lemma_named_font_index(
    c: CompiledCompositeFont,
    def: CompositeFontDefinition,
    t: Seq<RangeSpec>,
    cp: u32,
    i: int,
    f: Seq<char>,
)
    requires
        compiled_as(c, def, t),
        first_match(t, row_covers(cp)) == Some(i),
        row_target(def, t[i]) == FontTarget::Font(f),
    ensures
        0 <= lookup(c.unicode_ranges@, cp) < c.fonts@.len(),
        c.fonts@[lookup(c.unicode_ranges@, cp)]@ == f,
{
    let fonts = deep_strings(c.fonts@);
    assert(lookup(c.unicode_ranges@, cp) == expected_index(def, t, fonts, cp));
    lemma_first_match(t, row_covers(cp));
    lemma_row_font_listed(def, t, i);
    lemma_font_list_shape(def, t);
    assert(font_list(def, t).contains(f));
    let k = choose|k: int| 0 <= k < fonts.len() && fonts[k] == f;
    lemma_first_match_exists(fonts, named(f), k);
    lemma_first_match(fonts, named(f));
}

/// In a compiled font, `cp` takes the font `font` names: its position in
/// the font list when it is set, else the base font (index 0).
pub open spec fn takes_font(c: CompiledCompositeFont, cp: u32, font: Option<String>) -> bool {
    let k = lookup(c.unicode_ranges@, cp);
    match font {
        Some(f) => 0 <= k < c.fonts@.len() && c.fonts@[k]@ == f@,
        None => k == 0,
    }
}

/// No extra rule of the definition names the General_Category value `gc`.
pub open spec fn no_category_rule(def: CompositeFontDefinition, gc: Seq<char>) -> bool {
    forall|k: int|
        0 <= k < def.extra_unicode_rules@.len() ==> !((#[trigger] def.extra_unicode_rules@[k]).property
            == UnicodeProperty::GeneralCategory && def.extra_unicode_rules@[k].value@ == gc)
}

/// Decimal digits, punctuation and symbols take their built-in fonts ahead
/// of any script rule, and marks and format characters inherit: when no
/// extra rule names the category of the row holding `cp`, a category `Nd`
/// gives the built-in decimal-number font, one beginning with `P` the
/// punctuation font, one beginning with `S` the symbol font (the base font
/// where that built-in rule is unset), and one beginning with `M`, or `Cf`,
/// the preceding text's font (-1), whatever Script_Extensions rules the
/// definition holds.
pub proof fn lemma_categories_before_scripts(
    c: CompiledCompositeFont,
    def: CompositeFontDefinition,
    t: Seq<RangeSpec>,
    cp: u32,
    i: int,
)
    requires
        compiled_as(c, def, t),
        first_match(t, row_covers(cp)) == Some(i),
        no_category_rule(def, t[i].general_category),
    ensures
        t[i].general_category == seq!['N', 'd'] ==> takes_font(c, cp, def.builtin_rules.decimal_number),
        t[i].general_category.len() > 0 && t[i].general_category[0] == 'P' ==> takes_font(
            c,
            cp,
            def.builtin_rules.punctuation,
        ),
        t[i].general_category.len() > 0 && t[i].general_category[0] == 'S' ==> takes_font(
            c,
            cp,
            def.builtin_rules.symbol,
        ),
        t[i].general_category.len() > 0 && t[i].general_category[0] == 'M' || t[i].general_category
            == seq!['C', 'f'] ==> lookup(c.unicode_ranges@, cp) == -1,
{
    let r = t[i];
    let rules = def.extra_unicode_rules@;
    lemma_first_match(rules, category_rule_for(r));
    if let Some(k) = first_match(rules, category_rule_for(r)) {
        assert(category_rule_for(r)(rules[k]));
    }
    assert(lookup(c.unicode_ranges@, cp) == expected_index(def, t, deep_strings(c.fonts@), cp));
    let font = if r.general_category == seq!['N', 'd'] {
        def.builtin_rules.decimal_number
    } else if major_class(r.general_category, 'P') {
        def.builtin_rules.punctuation
    } else {
        def.builtin_rules.symbol
    };
    if let Some(f) = font {
        if r.general_category == seq!['N', 'd'] || major_class(r.general_category, 'P') || major_class(
            r.general_category,
            'S',
        ) {
            lemma_named_font_index(c, def, t, cp, i, f@);
        }
    }
}

/// The rule priority of the other rows. The first extra rule that names the
/// row's General_Category decides before anything else. For a row whose
/// category is none of `Nd`, `P*`, `S*`, `M*` and `Cf` and that no extra
/// rule names, the first extra rule naming one of the row's scripts
/// decides; without one, the built-in Han font for a row with Han among its
/// scripts, else the kana font for Hiragana or Katakana, else the Latin
/// font for Latin, else the base font.
pub proof fn lemma_rule_priority(
    c: CompiledCompositeFont,
    def: CompositeFontDefinition,
    t: Seq<RangeSpec>,
    cp: u32,
    i: int,
)
    requires
        compiled_as(c, def, t),
        first_match(t, row_covers(cp)) == Some(i),
    ensures
        forall|k: int|
            0 <= k < def.extra_unicode_rules@.len() && (#[trigger] def.extra_unicode_rules@[k]).property
                == UnicodeProperty::GeneralCategory && def.extra_unicode_rules@[k].value@
                == t[i].general_category && no_category_rule_before(def, t[i].general_category, k)
                ==> takes_font(c, cp, def.extra_unicode_rules@[k].font),
        no_category_rule(def, t[i].general_category) && t[i].general_category != seq!['N', 'd']
            && t[i].general_category != seq!['C', 'f'] && !(t[i].general_category.len() > 0 && (
        t[i].general_category[0] == 'P' || t[i].general_category[0] == 'S'
            || t[i].general_category[0] == 'M')) ==> {
            let scx = t[i].script_extensions;
            let rules = def.extra_unicode_rules@;
            let b = def.builtin_rules;
            &&& forall|k: int|
                0 <= k < rules.len() && (#[trigger] rules[k]).property == UnicodeProperty::ScriptExtensions
                    && scx.contains(rules[k].value@) && no_script_rule_before(def, scx, k) ==> takes_font(
                    c,
                    cp,
                    rules[k].font,
                )
            &&& no_script_rule_before(def, scx, rules.len() as int) ==> if scx.contains(
                seq!['H', 'a', 'n'],
            ) {
                takes_font(c, cp, b.han)
            } else if scx.contains(seq!['H', 'i', 'r', 'a', 'g', 'a', 'n', 'a']) || scx.contains(
                seq!['K', 'a', 't', 'a', 'k', 'a', 'n', 'a'],
            ) {
                takes_font(c, cp, b.kana)
            } else if scx.contains(seq!['L', 'a', 't', 'i', 'n']) {
                takes_font(c, cp, b.latin)
            } else {
                lookup(c.unicode_ranges@, cp) == 0
            }
        },
{
    let r = t[i];
    let rules = def.extra_unicode_rules@;
    lemma_first_match(rules, category_rule_for(r));
    lemma_first_match(rules, script_rule_for(r));
    assert(lookup(c.unicode_ranges@, cp) == expected_index(def, t, deep_strings(c.fonts@), cp));
    assert forall|k: int|
        0 <= k < rules.len() && (#[trigger] rules[k]).property == UnicodeProperty::GeneralCategory
            && rules[k].value@ == r.general_category && no_category_rule_before(def, r.general_category, k)
            implies takes_font(c, cp, rules[k].font) by {
        assert(category_rule_for(r)(rules[k]));
        lemma_first_match_exists(rules, category_rule_for(r), k);
        let j = first_match(rules, category_rule_for(r)).unwrap();
        if j < k {
            assert(category_rule_for(r)(rules[j]));
        }
        if let Some(f) = rules[k].font {
            lemma_named_font_index(c, def, t, cp, i, f@);
        }
    }
    if no_category_rule(def, r.general_category) {
        if let Some(k) = first_match(rules, category_rule_for(r)) {
            assert(category_rule_for(r)(rules[k]));
        }
        let scx = r.script_extensions;
        assert forall|k: int|
            0 <= k < rules.len() && (#[trigger] rules[k]).property == UnicodeProperty::ScriptExtensions
                && scx.contains(rules[k].value@) && no_script_rule_before(def, scx, k) && !(
            r.general_category == seq!['N', 'd'] || r.general_category == seq!['C', 'f'] || (
            r.general_category.len() > 0 && (r.general_category[0] == 'P' || r.general_category[0]
                == 'S' || r.general_category[0] == 'M'))) implies takes_font(c, cp, rules[k].font) by {
            assert(script_rule_for(r)(rules[k]));
            lemma_first_match_exists(rules, script_rule_for(r), k);
            let j = first_match(rules, script_rule_for(r)).unwrap();
            if j < k {
                assert(script_rule_for(r)(rules[j]));
            }
            if let Some(f) = rules[k].font {
                lemma_named_font_index(c, def, t, cp, i, f@);
            }
        }
        if no_script_rule_before(def, scx, rules.len() as int) {
            if let Some(k) = first_match(rules, script_rule_for(r)) {
                assert(script_rule_for(r)(rules[k]));
            }
            let b = def.builtin_rules;
            let font = if scx.contains(seq!['H', 'a', 'n']) {
                b.han
            } else if scx.contains(seq!['H', 'i', 'r', 'a', 'g', 'a', 'n', 'a']) || scx.contains(
                seq!['K', 'a', 't', 'a', 'k', 'a', 'n', 'a'],
            ) {
                b.kana
            } else {
                b.latin
            };
            if let Some(f) = font {
                if !(r.general_category == seq!['N', 'd'] || r.general_category == seq!['C', 'f'] || (
                r.general_category.len() > 0 && (r.general_category[0] == 'P' || r.general_category[0]
                    == 'S' || r.general_category[0] == 'M'))) {
                    if scx.contains(seq!['H', 'a', 'n']) || scx.contains(
                        seq!['H', 'i', 'r', 'a', 'g', 'a', 'n', 'a'],
                    ) || scx.contains(seq!['K', 'a', 't', 'a', 'k', 'a', 'n', 'a']) || scx.contains(
                        seq!['L', 'a', 't', 'i', 'n'],
                    ) {
                        lemma_named_font_index(c, def, t, cp, i, f@);
                    }
                }
            }
        }
    }
}

/// No extra rule before position `k` names the General_Category value `gc`.
pub open spec fn no_category_rule_before(def: CompositeFontDefinition, gc: Seq<char>, k: int) -> bool {
    forall|j: int|
        0 <= j < k ==> !((#[trigger] def.extra_unicode_rules@[j]).property
            == UnicodeProperty::GeneralCategory && def.extra_unicode_rules@[j].value@ == gc)
}

/// No extra rule before position `k` names one of the scripts `scx`.
pub open spec fn no_script_rule_before(def: CompositeFontDefinition, scx: Seq<Seq<char>>, k: int) -> bool {
    forall|j: int|
        0 <= j < k ==> !((#[trigger] def.extra_unicode_rules@[j]).property
            == UnicodeProperty::ScriptExtensions && scx.contains(def.extra_unicode_rules@[j].value@))
}

proof fn lemma_row_font_listed(def: CompositeFontDefinition, t: Seq<RangeSpec>, i: int)
    requires
        0 <= i < t.len(),
    ensures
        row_target(def, t[i]) matches FontTarget::Font(f) ==> row_fonts(def, t).contains(f),
    decreases t.len(),
{
    if let FontTarget::Font(f) = row_target(def, t[i]) {
        let rest = t.drop_last();
        if i < t.len() - 1 {
            assert(rest[i] == t[i]);
            lemma_row_font_listed(def, rest, i);
            let k = choose|k: int| 0 <= k < row_fonts(def, rest).len() && row_fonts(def, rest)[k] == f;
            assert(row_fonts(def, t)[k] == f);
        } else {
            assert(target_fonts(row_target(def, t.last())) == seq![f]);
            assert(row_fonts(def, t)[row_fonts(def, rest).len() as int] == f);
        }
    }
}

proof fn lemma_dedup_extend(s: Seq<Seq<char>>, b: Seq<Seq<char>>)
    ensures
        dedup(s + b).len() >= dedup(s).len(),
        dedup(s + b).take(dedup(s).len() as int) == dedup(s),
    decreases b.len(),
{
    if b.len() == 0 {
        assert(s + b =~= s);
        assert(dedup(s).take(dedup(s).len() as int) =~= dedup(s));
    } else {
        let b0 = b.drop_last();
        assert((s + b).drop_last() =~= s + b0);
        assert((s + b).last() == b.last());
        lemma_dedup_extend(s, b0);
        let d = dedup(s + b0);
        if !d.contains(b.last()) {
            assert(d.push(b.last()).take(dedup(s).len() as int) =~= d.take(dedup(s).len() as int));
        }
    }
}

proof fn lemma_dedup_first_match(s: Seq<Seq<char>>, b: Seq<Seq<char>>, f: Seq<char>)
    requires
        s.contains(f),
    ensures
        first_match(dedup(s + b), named(f)) == first_match(dedup(s), named(f)),
        first_match(dedup(s), named(f)) is Some,
{
    lemma_dedup(s);
    lemma_dedup_extend(s, b);
    assert(dedup(s).contains(f));
    let k = choose|k: int| 0 <= k < dedup(s).len() && dedup(s)[k] == f;
    lemma_first_match_exists(dedup(s), named(f), k);
    lemma_first_match_prefix(dedup(s + b), dedup(s).len() as int, named(f));
}

proof fn lemma_row_fonts_same(d1: CompositeFontDefinition, d2: CompositeFontDefinition, t: Seq<RangeSpec>)
    requires
        d1.builtin_rules == d2.builtin_rules,
        d1.extra_unicode_rules@ == d2.extra_unicode_rules@,
    ensures
        row_fonts(d1, t) == row_fonts(d2, t),
        forall|i: int| 0 <= i < t.len() ==> row_target(d1, #[trigger] t[i]) == row_target(d2, t[i]),
    decreases t.len(),
{
    if t.len() > 0 {
        lemma_row_fonts_same(d1, d2, t.drop_last());
        assert forall|i: int| 0 <= i < t.len() implies row_target(d1, #[trigger] t[i]) == row_target(d2, t[i]) by {
        }
    }
}

/// The fonts that the table rows use, after the base font, in order of
/// first use: the start of every compiled font list.
pub open spec fn row_font_prefix(def: CompositeFontDefinition, t: Seq<RangeSpec>) -> Seq<Seq<char>> {
    dedup(seq![def.base_font@] + row_fonts(def, t))
}

/// Every font index that a compiled range names is one of the base font and
/// the rows' fonts: a positive index lies before the end of
/// `row_font_prefix`, which begins the font list.
proof fn lemma_ranges_use_row_fonts(c: CompiledCompositeFont, def: CompositeFontDefinition, t: Seq<RangeSpec>)
    requires
        compiled_as(c, def, t),
    ensures
        deep_strings(c.fonts@).len() >= row_font_prefix(def, t).len(),
        forall|i: int|
            0 <= i < c.unicode_ranges@.len() && #[trigger] c.unicode_ranges@[i].font_index > 0
                ==> c.unicode_ranges@[i].font_index < row_font_prefix(def, t).len(),
{
    let p = seq![def.base_font@] + row_fonts(def, t);
    let rf = rule_fonts(enabled_rules(def.custom_rules@));
    let fonts = deep_strings(c.fonts@);
    assert(seq![def.base_font@] + row_fonts(def, t) + rf == p + rf);
    assert(fonts == dedup(p + rf));
    lemma_dedup_extend(p, rf);
    let a = c.unicode_ranges@;
    assert forall|i: int|
        0 <= i < a.len() && #[trigger] a[i].font_index > 0 implies a[i].font_index < dedup(p).len() by {
        let cp = a[i].from;
        lemma_lookup_at(a, i);
        assert(lookup(a, cp) == expected_index(def, t, fonts, cp));
        lemma_first_match(t, row_covers(cp));
        if let Some(j) = first_match(t, row_covers(cp)) {
            if let FontTarget::Font(f) = row_target(def, t[j]) {
                lemma_row_font_listed(def, t, j);
                let k = choose|k: int| 0 <= k < row_fonts(def, t).len() && row_fonts(def, t)[k] == f;
                assert(p[k + 1] == f);
                lemma_dedup_first_match(p, rf, f);
                lemma_first_match(dedup(p), named(f));
            }
        }
    }
}

/// A code point at the start of a canonical range gets that range's index.
proof fn lemma_lookup_at(a: Seq<CompiledRange>, i: int)
    requires
        ranges_canonical(a),
        0 <= i < a.len(),
    ensures
        lookup(a, a[i].from) == a[i].font_index,
{
    let cp = a[i].from;
    assert(covers(cp)(a[i]));
    lemma_first_match_exists(a, covers(cp), i);
    lemma_first_match(a, covers(cp));
    let k = first_match(a, covers(cp)).unwrap();
    if k < i {
        assert(a[k].to < a[i].from);
        assert(covers(cp)(a[k]));
    }
}

/// Custom rules change neither which font a code point's range gives (by
/// index) nor the start of the font list: two definitions that differ only
/// in their custom rules compile to the same ranges, and their font lists
/// both begin with the base font and the rows' fonts, which hold every font
/// the ranges name; custom rules' fonts come after.
pub proof fn lemma_custom_rules_keep_ranges(
    c1: CompiledCompositeFont,
    d1: CompositeFontDefinition,
    c2: CompiledCompositeFont,
    d2: CompositeFontDefinition,
    t: Seq<RangeSpec>,
)
    requires
        compiled_as(c1, d1, t),
        compiled_as(c2, d2, t),
        d1.base_font@ == d2.base_font@,
        d1.builtin_rules == d2.builtin_rules,
        d1.extra_unicode_rules@ == d2.extra_unicode_rules@,
    ensures
        forall|cp: u32| #[trigger] lookup(c1.unicode_ranges@, cp) == lookup(c2.unicode_ranges@, cp),
        c1.unicode_ranges@ == c2.unicode_ranges@,
        row_font_prefix(d1, t) == row_font_prefix(d2, t),
        deep_strings(c1.fonts@).take(row_font_prefix(d1, t).len() as int) == row_font_prefix(d1, t),
        deep_strings(c2.fonts@).take(row_font_prefix(d2, t).len() as int) == row_font_prefix(d2, t),
        deep_strings(c1.fonts@).len() >= row_font_prefix(d1, t).len(),
        deep_strings(c2.fonts@).len() >= row_font_prefix(d1, t).len(),
        forall|i: int|
            0 <= i < c1.unicode_ranges@.len() && #[trigger] c1.unicode_ranges@[i].font_index > 0
                ==> c1.unicode_ranges@[i].font_index < row_font_prefix(d1, t).len(),
        forall|k: int|
            0 <= k < row_font_prefix(d1, t).len() ==> (#[trigger] c1.fonts@[k])@ == c2.fonts@[k]@,
{
    lemma_ranges_use_row_fonts(c1, d1, t);
    lemma_ranges_use_row_fonts(c2, d2, t);
    lemma_row_fonts_same(d1, d2, t);
    let p = seq![d1.base_font@] + row_fonts(d1, t);
    assert(p == seq![d2.base_font@] + row_fonts(d2, t));
    let r1 = rule_fonts(enabled_rules(d1.custom_rules@));
    let r2 = rule_fonts(enabled_rules(d2.custom_rules@));
    assert(seq![d1.base_font@] + row_fonts(d1, t) + r1 == p + r1);
    assert(seq![d2.base_font@] + row_fonts(d2, t) + r2 == p + r2);
    lemma_dedup_extend(p, r1);
    lemma_dedup_extend(p, r2);
    assert forall|cp: u32| #[trigger] lookup(c1.unicode_ranges@, cp) == lookup(c2.unicode_ranges@, cp) by {
        assert(lookup(c1.unicode_ranges@, cp) == expected_index(d1, t, deep_strings(c1.fonts@), cp));
        assert(lookup(c2.unicode_ranges@, cp) == expected_index(d2, t, deep_strings(c2.fonts@), cp));
        lemma_first_match(t, row_covers(cp));
        if let Some(i) = first_match(t, row_covers(cp)) {
            assert(row_target(d1, t[i]) == row_target(d2, t[i]));
            if let FontTarget::Font(f) = row_target(d1, t[i]) {
                lemma_row_font_listed(d1, t, i);
                let k = choose|k: int| 0 <= k < row_fonts(d1, t).len() && row_fonts(d1, t)[k] == f;
                assert(p[k + 1] == f);
                assert(p.contains(f));
                lemma_dedup_first_match(p, r1, f);
                lemma_dedup_first_match(p, r2, f);
            }
        }
    }
    lemma_canonical_ranges_unique(c1.unicode_ranges@, c2.unicode_ranges@);
    let n = row_font_prefix(d1, t).len() as int;
    assert forall|k: int| 0 <= k < n implies (#[trigger] c1.fonts@[k])@ == c2.fonts@[k]@ by {
        assert(deep_strings(c1.fonts@).take(n)[k] == deep_strings(c2.fonts@).take(n)[k]);
    }
}

proof fn lemma_lookup_none(a: Seq<CompiledRange>, cp: u32)
    requires
        forall|i: int| 0 <= i < a.len() ==> !(#[trigger] a[i].from <= cp && cp <= a[i].to),
    ensures
        lookup(a, cp) == 0,
{
    lemma_first_match(a, covers(cp));
    if let Some(j) = first_match(a, covers(cp)) {
        assert(covers(cp)(a[j]));
    }
}

proof fn lemma_lookup_head(a: Seq<CompiledRange>, cp: u32)
    requires
        a.len() > 0,
        a[0].from <= cp <= a[0].to,
    ensures
        lookup(a, cp) == a[0].font_index,
{
    assert(covers(cp)(a[0]));
    lemma_first_match_exists(a, covers(cp), 0);
    lemma_first_match(a, covers(cp));
}

proof fn lemma_lookup_tail(a: Seq<CompiledRange>, cp: u32)
    requires
        a.len() > 0,
        !(a[0].from <= cp && cp <= a[0].to),
    ensures
        lookup(a, cp) == lookup(a.drop_first(), cp),
{
    let t = a.drop_first();
    lemma_first_match(a, covers(cp));
    lemma_first_match(t, covers(cp));
    match first_match(a, covers(cp)) {
        Some(j) => {
            assert(j > 0);
            assert(t[j - 1] == a[j]);
            lemma_first_match_exists(t, covers(cp), j - 1);
            let k = first_match(t, covers(cp)).unwrap();
            assert(a[k + 1] == t[k]);
            if k < j - 1 {
                assert(covers(cp)(a[k + 1]));
            }
        },
        None => {
            if let Some(k) = first_match(t, covers(cp)) {
                assert(a[k + 1] == t[k]);
                assert(covers(cp)(a[k + 1]));
            }
        },
    }
}

/// Canonical compiled ranges are determined by the index they give each
/// code point: two canonical range lists that agree on every code point are
/// equal.
proof fn lemma_canonical_ranges_unique(a: Seq<CompiledRange>, b: Seq<CompiledRange>)
    requires
        ranges_canonical(a),
        ranges_canonical(b),
        forall|cp: u32| #[trigger] lookup(a, cp) == lookup(b, cp),
    ensures
        a == b,
    decreases a.len() + b.len(),
{
    if a.len() == 0 || b.len() == 0 {
        if a.len() > 0 {
            lemma_lookup_head(a, a[0].from);
            lemma_lookup_none(b, a[0].from);
            assert(lookup(a, a[0].from) == lookup(b, a[0].from));
        } else if b.len() > 0 {
            lemma_lookup_head(b, b[0].from);
            lemma_lookup_none(a, b[0].from);
            assert(lookup(a, b[0].from) == lookup(b, b[0].from));
        }
        assert(a =~= b);
        return;
    }
    let x = a[0];
    let y = b[0];
    // The first ranges start at the same code point.
    if x.from < y.from {
        lemma_lookup_head(a, x.from);
        assert forall|i: int| 0 <= i < b.len() implies !(#[trigger] b[i].from <= x.from && x.from <= b[i].to) by {
            if i > 0 {
                assert(b[0].to < b[i].from);
            }
        }
        lemma_lookup_none(b, x.from);
        assert(lookup(a, x.from) == lookup(b, x.from));
    }
    if y.from < x.from {
        lemma_lookup_head(b, y.from);
        assert forall|i: int| 0 <= i < a.len() implies !(#[trigger] a[i].from <= y.from && y.from <= a[i].to) by {
            if i > 0 {
                assert(a[0].to < a[i].from);
            }
        }
        lemma_lookup_none(a, y.from);
        assert(lookup(a, y.from) == lookup(b, y.from));
    }
    assert(x.from == y.from);
    lemma_lookup_head(a, x.from);
    lemma_lookup_head(b, x.from);
    assert(lookup(a, x.from) == lookup(b, x.from));
    assert(x.font_index == y.font_index);
    // And end at the same code point.
    if x.to < y.to {
        lemma_end_differs(a, b);
    }
    if y.to < x.to {
        lemma_end_differs(b, a);
    }
    assert(x == y);
    let ta = a.drop_first();
    let tb = b.drop_first();
    assert forall|cp: u32| #[trigger] lookup(ta, cp) == lookup(tb, cp) by {
        if x.from <= cp && cp <= x.to {
            assert forall|i: int| 0 <= i < ta.len() implies !(#[trigger] ta[i].from <= cp && cp <= ta[i].to) by {
                assert(ta[i] == a[i + 1]);
                assert(a[0].to < a[i + 1].from);
            }
            assert forall|i: int| 0 <= i < tb.len() implies !(#[trigger] tb[i].from <= cp && cp <= tb[i].to) by {
                assert(tb[i] == b[i + 1]);
                assert(b[0].to < b[i + 1].from);
            }
            lemma_lookup_none(ta, cp);
            lemma_lookup_none(tb, cp);
        } else {
            lemma_lookup_tail(a, cp);
            lemma_lookup_tail(b, cp);
            assert(lookup(a, cp) == lookup(b, cp));
        }
    }
    lemma_canonical_tail(a);
    lemma_canonical_tail(b);
    lemma_canonical_ranges_unique(ta, tb);
    assert(a =~= seq![x] + ta);
    assert(b =~= seq![y] + tb);
}

proof fn lemma_canonical_tail(a: Seq<CompiledRange>)
    requires
        ranges_canonical(a),
        a.len() > 0,
    ensures
        ranges_canonical(a.drop_first()),
{
    let t = a.drop_first();
    assert forall|i: int| 0 <= i < t.len() implies t[i] == a[i + 1] by {}
    assert forall|i: int, j: int| 0 <= i < j < t.len() implies (#[trigger] t[i]).to < (#[trigger] t[j]).from by {
        assert(t[i] == a[i + 1] && t[j] == a[j + 1]);
    }
    assert forall|i: int| 0 <= i < t.len() - 1 implies (#[trigger] t[i]).to + 1 == t[i + 1].from
        ==> t[i].font_index != t[i + 1].font_index by {
        assert(t[i] == a[i + 1] && t[i + 1] == a[i + 2]);
    }
}

/// When `a`'s first range ends before `b`'s, the code point after it tells
/// the lists apart.
proof fn lemma_end_differs(a: Seq<CompiledRange>, b: Seq<CompiledRange>)
    requires
        ranges_canonical(a),
        ranges_canonical(b),
        a.len() > 0,
        b.len() > 0,
        a[0].from == b[0].from,
        a[0].font_index == b[0].font_index,
        a[0].to < b[0].to,
    ensures
        exists|cp: u32| lookup(a, cp) != lookup(b, cp),
{
    let y = (a[0].to + 1) as u32;
    lemma_lookup_head(b, y);
    lemma_lookup_tail(a, y);
    let t = a.drop_first();
    if t.len() > 0 && t[0].from == y {
        assert(t[0] == a[1]);
        lemma_lookup_head(t, y);
    } else {
        assert forall|i: int| 0 <= i < t.len() implies !(#[trigger] t[i].from <= y && y <= t[i].to) by {
            assert(t[i] == a[i + 1]);
            assert(a[0].to < a[i + 1].from);
            if i > 0 {
                assert(a[1].to < a[i + 1].from);
                assert(a[0].to < a[1].from);
            }
        }
        lemma_lookup_none(t, y);
    }
    assert(lookup(a, y) != lookup(b, y));
}

/// A compiled custom rule carries the name and pattern of `rule` and the
/// index of its font in `fonts`.
pub open spec fn compiled_rule_matches(c: CompiledRegexRule, rule: CustomRule, fonts: Seq<Seq<char>>) -> bool {
    &&& c.name@ == rule.name@
    &&& c.pattern@ == rule.pattern@
    &&& c.font_index < fonts.len()
    &&& fonts[c.font_index as int] == rule.font@
}

/// The result of compiling a valid definition against the property table `t`.
pub open spec fn compiled_as(c: CompiledCompositeFont, def: CompositeFontDefinition, t: Seq<RangeSpec>) -> bool {
    let fonts = deep_strings(c.fonts@);
    let enabled = enabled_rules(def.custom_rules@);
    &&& c.name@ == def.name@
    &&& fonts == font_list(def, t)
    &&& ranges_canonical(c.unicode_ranges@)
    &&& forall|cp: u32|
        #![trigger lookup(c.unicode_ranges@, cp)]
        lookup(c.unicode_ranges@, cp) == expected_index(def, t, fonts, cp)
    &&& c.custom_rules@.len() == enabled.len()
    &&& forall|i: int|
        0 <= i < enabled.len() ==> compiled_rule_matches(
            #[trigger] c.custom_rules@[i],
            enabled[i],
            fonts,
        )
}

/// Compiles a composite font. A definition that fails validation gives the
/// message of its first failed check. Otherwise the font list starts with the
/// base font and lists every other font in order of first use (table rows,
/// then enabled custom rules); every code point gets, through the compiled
/// ranges, the index of the font its table row resolves to (0 for the base
/// font, -1 to inherit); the ranges are canonical (ascending, disjoint,
/// never the base font, touching neighbours merged); and the enabled custom
/// rules keep their order, names and patterns with their fonts' indices.
pub fn compile(definition: &CompositeFontDefinition) -> (r: Result<CompiledCompositeFont, String>)
    ensures
        match r {
            Ok(c) => definition_error(*definition) is None && compiled_as(c, *definition, unicode_table()),
            Err(e) => definition_error(*definition) == Some(e@),
        },
{
    match validate_definition(definition) {
        Ok(()) => {},
        Err(e) => return Err(e),
    }
    let ghost def = *definition;
    let table = unicode_ranges();
    let ghost t = range_views(table@);
    let mut fonts = FontPool::new(definition.base_font.as_str());
    let unicode_ranges = compile_unicode_ranges(definition, &table, &mut fonts);
    let ghost head = seq![definition.base_font@] + row_fonts(def, t);
    let rules = &definition.custom_rules;
    let mut custom_rules: Vec<CompiledRegexRule> = Vec::new();
    let mut j: usize = 0;
    proof {
        let e = enabled_rules(rules@.take(0));
        assert(rules@.take(0) =~= Seq::<CustomRule>::empty());
        assert(e =~= Seq::<CustomRule>::empty());
        assert(head + rule_fonts(e) =~= head);
    }
    while j < rules.len()
        invariant
            0 <= j <= rules@.len(),
            rules == definition.custom_rules,
            def == *definition,
            t == unicode_table(),
            head == seq![definition.base_font@] + row_fonts(def, t),
            deep_strings(fonts.fonts@) == dedup(head + rule_fonts(enabled_rules(rules@.take(j as int)))),
            fonts_known(def, t, deep_strings(fonts.fonts@)),
            forall|cp: u32|
                #![trigger lookup(unicode_ranges@, cp)]
                lookup(unicode_ranges@, cp) == expected_index(def, t, deep_strings(fonts.fonts@), cp),
            custom_rules@.len() == enabled_rules(rules@.take(j as int)).len(),
            forall|m: int|
                0 <= m < custom_rules@.len() ==> compiled_rule_matches(
                    #[trigger] custom_rules@[m],
                    enabled_rules(rules@.take(j as int))[m],
                    deep_strings(fonts.fonts@),
                ),
        decreases rules@.len() - j,
    {
        let rule = &rules[j];
        let ghost pre = rules@.take(j as int);
        let ghost e_old = enabled_rules(pre);
        let ghost p_old = deep_strings(fonts.fonts@);
        assert(rules@.take(j + 1).drop_last() =~= pre);
        assert(rules@.take(j + 1).last() == rules@[j as int]);
        if rule.enabled {
            let index = fonts.index(&rule.font);
            let ghost p_new = deep_strings(fonts.fonts@);
            custom_rules.push(
                CompiledRegexRule {
                    name: rule.name.clone(),
                    pattern: rule.pattern.clone(),
                    font_index: index,
                },
            );
            proof {
                let e_new = enabled_rules(rules@.take(j + 1));
                assert(e_new == e_old.push(rules@[j as int]));
                assert(rule_fonts(e_new) =~= rule_fonts(e_old).push(rule.font@));
                assert(head + rule_fonts(e_new) =~= (head + rule_fonts(e_old)).push(rule.font@));
                lemma_dedup_push(head + rule_fonts(e_old), rule.font@);
                lemma_first_match(p_new, named(rule.font@));
                lemma_add_font_contains(p_old, rule.font@);
                assert forall|cp: u32| #![trigger lookup(unicode_ranges@, cp)]
                    lookup(unicode_ranges@, cp) == expected_index(def, t, p_new, cp) by {
                    lemma_expected_stable(def, t, p_old, rule.font@, cp);
                }
                assert(fonts_known(def, t, p_new)) by {
                    assert forall|i: int| 0 <= i < t.len() implies match row_target(def, #[trigger] t[i]) {
                        FontTarget::Font(f) => p_new.contains(f),
                        _ => true,
                    } by {
                        if let FontTarget::Font(f) = row_target(def, t[i]) {
                            lemma_add_font_keeps_index(p_old, rule.font@, f);
                        }
                    }
                }
                assert forall|m: int| 0 <= m < custom_rules@.len() implies compiled_rule_matches(
                    #[trigger] custom_rules@[m],
                    e_new[m],
                    p_new,
                ) by {
                    if m < e_old.len() {
                        assert(e_new[m] == e_old[m]);
                        let c = custom_rules@[m];
                        assert(compiled_rule_matches(c, e_old[m], p_old));
                        if !p_old.contains(rule.font@) {
                            assert(p_new == p_old.push(rule.font@));
                            assert(p_new[c.font_index as int] == p_old[c.font_index as int]);
                        }
                    }
                }
            }
        } else {
            proof {
                let e_new = enabled_rules(rules@.take(j + 1));
                assert(e_new == e_old);
            }
        }
        j = j + 1;
    }
    assert(rules@.take(rules@.len() as int) =~= rules@);
    Ok(
        CompiledCompositeFont {
            name: definition.name.clone(),
            fonts: fonts.fonts,
            unicode_ranges,
            custom_rules,
        },
    )
}

impl CompiledCompositeFont {
    /// The font index of a code point: that of the first range containing it, else 0.
    pub fn target_for(&self, code_point: u32) -> (r: i32)
        ensures
            r == lookup(self.unicode_ranges@, code_point),
    {
        let ranges = &self.unicode_ranges;
        let mut i: usize = 0;
        while i < ranges.len()
            invariant
                0 <= i <= ranges@.len(),
                ranges == self.unicode_ranges,
                first_match(ranges@.take(i as int), covers(code_point)) is None,
            decreases ranges@.len() - i,
        {
            let ghost pre = ranges@.take(i as int);
            assert(ranges@.take(i + 1) =~= pre.push(ranges@[i as int]));
            proof {
                lemma_first_match_push(pre, ranges@[i as int], covers(code_point));
            }
            let range = ranges[i];
            if range.from <= code_point && code_point <= range.to {
                proof {
                    lemma_first_match_prefix(ranges@, i + 1, covers(code_point));
                }
                return range.font_index;
            }
            i = i + 1;
        }
        assert(ranges@.take(ranges@.len() as int) =~= ranges@);
        0
    }

    /// The position of a font in the font list (as an `i32`, wrapping past
    /// `i32::MAX`); the font must be listed.
    pub fn font_index(&self, name: &str) -> (r: i32)
        requires
            deep_strings(self.fonts@).contains(name@),
        ensures
            first_match(deep_strings(self.fonts@), named(name@)) matches Some(k) && r == k as i32,
    {
        let target = string_of(name);
        let ghost names = deep_strings(self.fonts@);
        let mut i: usize = 0;
        while i < self.fonts.len()
            invariant
                0 <= i <= self.fonts@.len(),
                names == deep_strings(self.fonts@),
                names.contains(name@),
                target@ == name@,
                first_match(names.take(i as int), named(name@)) is None,
            decreases self.fonts@.len() - i,
        {
            assert(names.take(i + 1) =~= names.take(i as int).push(names[i as int]));
            proof {
                lemma_first_match_push(names.take(i as int), names[i as int], named(name@));
            }
            if self.fonts[i] == target {
                proof {
                    lemma_first_match_prefix(names, i + 1, named(name@));
                }
                return i as i32;
            }
            i = i + 1;
        }
        proof {
            assert(names.take(names.len() as int) =~= names);
            let k = choose|k: int| 0 <= k < names.len() && names[k] == name@;
            lemma_first_match_exists(names, named(name@), k);
        }
        0
    }
}

/// Strings holding the given character lists.
fn strings_of(lists: &Vec<Vec<char>>) -> (r: Vec<String>)
    ensures
        deep_strings(r@) == deep_chars(lists@),
{
    let mut r: Vec<String> = Vec::new();
    let mut i: usize = 0;
    while i < lists.len()
        invariant
            0 <= i <= lists@.len(),
            deep_strings(r@) == deep_chars(lists@.take(i as int)),
        decreases lists@.len() - i,
    {
        let ghost old_r = r@;
        r.push(string_from_chars(lists[i].as_slice()));
        assert(lists@.take(i + 1) =~= lists@.take(i as int).push(lists@[i as int]));
        assert(deep_strings(r@) =~= deep_strings(old_r).push(lists@[i as int]@));
        assert(deep_chars(lists@.take(i + 1)) =~= deep_chars(lists@.take(i as int)).push(
            lists@[i as int]@,
        ));
        i = i + 1;
    }
    assert(lists@.take(lists@.len() as int) =~= lists@);
    r
}

/// The Unicode version and the property values that extra rules may name.
pub fn catalog() -> (c: UnicodeCatalog)
    ensures
        c.unicode_version@ == UNICODE_VERSION@,
        deep_strings(c.general_categories@) == general_category_names(),
        deep_strings(c.scripts@) == script_names(),
{
    UnicodeCatalog {
        unicode_version: UNICODE_VERSION,
        general_categories: strings_of(&general_categories()),
        scripts: strings_of(&scripts()),
    }
}


// ---------------------------------------------------------------------------
// Validation of a collection
// ---------------------------------------------------------------------------

/// The kinds of identifiers in a definition.
#[derive(Debug, Clone, Copy, PartialEq, Eq, Structural)]
pub enum IdKind {
    CompositeFont,
    UnicodeRule,
    CustomRule,
}

/// How messages name a kind of identifier.
pub open spec fn kind_text(k: IdKind) -> Seq<char> {
    match k {
        IdKind::CompositeFont => "composite font"@,
        IdKind::UnicodeRule => "Unicode rule"@,
        IdKind::CustomRule => "custom rule"@,
    }
}

fn kind_str(k: IdKind) -> (r: &'static str)
    ensures
        r@ == kind_text(k),
{
    match k {
        IdKind::CompositeFont => "composite font",
        IdKind::UnicodeRule => "Unicode rule",
        IdKind::CustomRule => "custom rule",
    }
}

/// The identifiers of a definition: its own, then its extra rules', then
/// its custom rules'.
pub open spec fn definition_ids(d: CompositeFontDefinition) -> Seq<(IdKind, Seq<char>)> {
    seq![(IdKind::CompositeFont, d.id@)] + d.extra_unicode_rules@.map_values(
        |r: ExtraUnicodeRule| (IdKind::UnicodeRule, r.id@),
    ) + d.custom_rules@.map_values(|r: CustomRule| (IdKind::CustomRule, r.id@))
}

/// The identifiers of a list of definitions, in order.
pub open spec fn collection_ids(defs: Seq<CompositeFontDefinition>) -> Seq<(IdKind, Seq<char>)>
    decreases defs.len(),
{
    if defs.len() == 0 {
        Seq::empty()
    } else {
        collection_ids(defs.drop_last()) + definition_ids(defs.last())
    }
}

/// Identifiers as they are compared: trimmed.
pub open spec fn trimmed_ids(ids: Seq<(IdKind, Seq<char>)>) -> Seq<Seq<char>> {
    ids.map_values(|p: (IdKind, Seq<char>)| trim(p.1))
}

/// What is wrong with one identifier, given the trimmed identifiers before it.
pub open spec fn id_error(seen: Seq<Seq<char>>, kind: IdKind, id: Seq<char>) -> Option<Seq<char>> {
    if is_blank(id) {
        Some(kind_text(kind) + " id is empty"@)
    } else if seen.contains(trim(id)) {
        Some("Duplicate "@ + kind_text(kind) + " id: "@ + id)
    } else {
        None
    }
}

/// The first identifier error in `ids`, after the trimmed identifiers `seen`.
pub open spec fn ids_error(seen: Seq<Seq<char>>, ids: Seq<(IdKind, Seq<char>)>) -> Option<Seq<char>>
    decreases ids.len(),
{
    if ids.len() == 0 {
        None
    } else {
        match ids_error(seen, ids.drop_last()) {
            Some(e) => Some(e),
            None => id_error(seen + trimmed_ids(ids.drop_last()), ids.last().0, ids.last().1),
        }
    }
}

/// How names are compared: trimmed and lowercased.
pub open spec fn name_key(d: CompositeFontDefinition) -> Seq<char> {
    unicode_lowercase(trim(d.name@))
}

/// How an all-ASCII name is compared: trimmed, ASCII letters lowered.
pub open spec fn ascii_name_key(d: CompositeFontDefinition) -> Seq<char> {
    ascii_lowercase(trim(d.name@))
}

/// The compared names of a list of definitions.
pub open spec fn name_keys(defs: Seq<CompositeFontDefinition>) -> Seq<Seq<char>> {
    defs.map_values(|d: CompositeFontDefinition| name_key(d))
}

/// The message for a name that another definition already has.
pub open spec fn duplicate_name_message(name: Seq<char>) -> Seq<char> {
    "复合字体名称已存在："@ + name
}

/// The first problem of a collection, definition by definition: the
/// definition's own first failed check, then its identifiers (blank, or equal
/// after trimming to any earlier identifier of any kind), then its name
/// (equal after trimming and lowercasing to an earlier definition's).
pub open spec fn collection_error(defs: Seq<CompositeFontDefinition>) -> Option<Seq<char>>
    decreases defs.len(),
{
    if defs.len() == 0 {
        None
    } else {
        match collection_error(defs.drop_last()) {
            Some(e) => Some(e),
            None => {
                let d = defs.last();
                let prev = defs.drop_last();
                match definition_error(d) {
                    Some(e) => Some(e),
                    None => match ids_error(trimmed_ids(collection_ids(prev)), definition_ids(d)) {
                        Some(e) => Some(e),
                        None => if name_keys(prev).contains(name_key(d)) {
                            Some(duplicate_name_message(d.name@))
                        } else {
                            None
                        },
                    },
                }
            },
        }
    }
}

/// Every definition of a valid collection is itself valid (so it compiles),
/// and no two of its definitions share a name once trimmed and lowercased.
pub proof fn lemma_valid_collection_members(defs: Seq<CompositeFontDefinition>, i: int, j: int)
    requires
        collection_error(defs) is None,
        0 <= i < defs.len(),
        0 <= j < defs.len(),
        i != j,
    ensures
        definition_error(defs[i]) is None,
        name_key(defs[i]) != name_key(defs[j]),
    decreases defs.len(),
{
    let n = defs.len();
    let prev = defs.drop_last();
    if i < n - 1 && j < n - 1 {
        assert(prev[i] == defs[i] && prev[j] == defs[j]);
        lemma_valid_collection_members(prev, i, j);
    } else {
        let (last, other) = if i == n - 1 {
            (i, j)
        } else {
            (j, i)
        };
        assert(defs.last() == defs[last]);
        assert(prev[other] == defs[other]);
        assert(name_keys(prev)[other] == name_key(defs[other]));
        assert(!name_keys(prev).contains(name_key(defs.last())));
        lemma_collection_prefix_valid(defs, i);
    }
}

/// A collection that passes validation holds no custom rule whose pattern
/// uses `\p{`, `\P{` or `(?<`.
pub proof fn lemma_valid_collection_patterns(defs: Seq<CompositeFontDefinition>, i: int, k: int)
    requires
        collection_error(defs) is None,
        0 <= i < defs.len(),
        0 <= k < defs[i].custom_rules@.len(),
    ensures
        !contains_seq(defs[i].custom_rules@[k].pattern@, seq!['\\', 'p', '{']),
        !contains_seq(defs[i].custom_rules@[k].pattern@, seq!['\\', 'P', '{']),
        !contains_seq(defs[i].custom_rules@[k].pattern@, seq!['(', '?', '<']),
{
    lemma_collection_prefix_valid(defs, i);
    lemma_valid_patterns_supported(defs[i], k);
}

proof fn lemma_collection_prefix_valid(defs: Seq<CompositeFontDefinition>, i: int)
    requires
        collection_error(defs) is None,
        0 <= i < defs.len(),
    ensures
        definition_error(defs[i]) is None,
    decreases defs.len(),
{
    if i < defs.len() - 1 {
        assert(defs.drop_last()[i] == defs[i]);
        lemma_collection_prefix_valid(defs.drop_last(), i);
    }
}

/// The identifiers are all non-blank, distinct once trimmed, and none
/// (trimmed) is in `seen`.
pub open spec fn ids_clean(seen: Seq<Seq<char>>, ids: Seq<(IdKind, Seq<char>)>) -> bool {
    &&& forall|k: int| 0 <= k < ids.len() ==> !is_blank(#[trigger] ids[k].1)
    &&& distinct_names(trimmed_ids(ids))
    &&& forall|k: int| 0 <= k < ids.len() ==> !seen.contains(#[trigger] trimmed_ids(ids)[k])
}

proof fn lemma_ids_error_clean(seen: Seq<Seq<char>>, ids: Seq<(IdKind, Seq<char>)>)
    ensures
        (ids_error(seen, ids) is None) == ids_clean(seen, ids),
    decreases ids.len(),
{
    if ids.len() > 0 {
        let prev = ids.drop_last();
        let last = ids.last();
        lemma_ids_error_clean(seen, prev);
        let tp = trimmed_ids(prev);
        let t = trimmed_ids(ids);
        assert(t =~= tp.push(trim(last.1)));
        assert(forall|k: int| 0 <= k < prev.len() ==> prev[k] == ids[k]);
        if ids_error(seen, ids) is None {
            assert(ids_error(seen, prev) is None);
            assert(id_error(seen + tp, last.0, last.1) is None);
            assert(!(seen + tp).contains(trim(last.1)));
            assert forall|k: int| 0 <= k < ids.len() implies !is_blank(#[trigger] ids[k].1) by {
                if k < prev.len() {
                    assert(prev[k] == ids[k]);
                }
            }
            assert forall|i: int, j: int| 0 <= i < j < t.len() implies t[i] != t[j] by {
                if j == t.len() - 1 {
                    assert(t[i] == tp[i]);
                    assert((seen + tp)[seen.len() + i] == tp[i]);
                } else {
                    assert(t[i] == tp[i] && t[j] == tp[j]);
                }
            }
            assert forall|k: int| 0 <= k < ids.len() implies !seen.contains(#[trigger] t[k]) by {
                if k < prev.len() {
                    assert(t[k] == tp[k]);
                } else {
                    if seen.contains(t[k]) {
                        let m = choose|m: int| 0 <= m < seen.len() && seen[m] == t[k];
                        assert((seen + tp)[m] == t[k]);
                    }
                }
            }
        }
        if ids_clean(seen, ids) {
            assert forall|k: int| 0 <= k < prev.len() implies !is_blank(#[trigger] prev[k].1) by {
                assert(prev[k] == ids[k]);
            }
            assert forall|i: int, j: int| 0 <= i < j < tp.len() implies tp[i] != tp[j] by {
                assert(t[i] == tp[i] && t[j] == tp[j]);
            }
            assert forall|k: int| 0 <= k < prev.len() implies !seen.contains(#[trigger] tp[k]) by {
                assert(t[k] == tp[k]);
            }
            assert(ids_clean(seen, prev));
            assert(!is_blank(ids[ids.len() - 1].1));
            if (seen + tp).contains(trim(last.1)) {
                let m = choose|m: int| 0 <= m < (seen + tp).len() && (seen + tp)[m] == trim(last.1);
                assert(t[t.len() - 1] == trim(last.1));
                if m < seen.len() {
                    assert(seen[m] == trim(last.1));
                    assert(seen.contains(t[t.len() - 1]));
                } else {
                    assert(tp[m - seen.len()] == trim(last.1));
                    assert(t[m - seen.len()] == t[t.len() - 1]);
                }
            }
        }
    }
}

/// The trimmed identifiers of a definition.
pub open spec fn def_keys(d: CompositeFontDefinition) -> Seq<Seq<char>> {
    trimmed_ids(definition_ids(d))
}

/// A definition is valid and its identifiers are non-blank and distinct.
pub open spec fn def_ok(d: CompositeFontDefinition) -> bool {
    definition_error(d) is None && ids_clean(Seq::empty(), definition_ids(d))
}

/// Two definitions share no identifier and no name.
pub open spec fn pair_ok(a: CompositeFontDefinition, b: CompositeFontDefinition) -> bool {
    &&& forall|x: Seq<char>| !(#[trigger] def_keys(a).contains(x) && def_keys(b).contains(x))
    &&& name_key(a) != name_key(b)
}

/// Every definition is fine on its own, and every two share no identifier
/// and no name.
pub open spec fn collection_ok(defs: Seq<CompositeFontDefinition>) -> bool {
    &&& forall|i: int| 0 <= i < defs.len() ==> def_ok(#[trigger] defs[i])
    &&& forall|i: int, j: int|
        0 <= i < defs.len() && 0 <= j < defs.len() && i != j ==> pair_ok(
            #[trigger] defs[i],
            #[trigger] defs[j],
        )
}

proof fn lemma_collection_keys(defs: Seq<CompositeFontDefinition>, x: Seq<char>)
    ensures
        trimmed_ids(collection_ids(defs)).contains(x) <==> exists|j: int|
            0 <= j < defs.len() && #[trigger] def_keys(defs[j]).contains(x),
    decreases defs.len(),
{
    if defs.len() > 0 {
        let prev = defs.drop_last();
        lemma_collection_keys(prev, x);
        let a = trimmed_ids(collection_ids(prev));
        let b = def_keys(defs.last());
        assert(trimmed_ids(collection_ids(defs)) =~= a + b);
        if (a + b).contains(x) {
            let m = choose|m: int| 0 <= m < (a + b).len() && (a + b)[m] == x;
            if m < a.len() {
                assert(a[m] == x);
                let j = choose|j: int| 0 <= j < prev.len() && #[trigger] def_keys(prev[j]).contains(x);
                assert(prev[j] == defs[j]);
            } else {
                assert(b[m - a.len()] == x);
                assert(def_keys(defs[defs.len() - 1]).contains(x));
            }
        }
        if exists|j: int| 0 <= j < defs.len() && #[trigger] def_keys(defs[j]).contains(x) {
            let j = choose|j: int| 0 <= j < defs.len() && #[trigger] def_keys(defs[j]).contains(x);
            if j < defs.len() - 1 {
                assert(prev[j] == defs[j]);
                assert(a.contains(x));
                let m = choose|m: int| 0 <= m < a.len() && a[m] == x;
                assert((a + b)[m] == x);
            } else {
                let m = choose|m: int| 0 <= m < b.len() && b[m] == x;
                assert((a + b)[a.len() + m] == x);
            }
        }
    }
}

proof fn lemma_collection_error_ok(defs: Seq<CompositeFontDefinition>)
    ensures
        (collection_error(defs) is None) == collection_ok(defs),
    decreases defs.len(),
{
    if defs.len() > 0 {
        let n = defs.len() - 1;
        let prev = defs.drop_last();
        let d = defs.last();
        lemma_collection_error_ok(prev);
        let s = trimmed_ids(collection_ids(prev));
        lemma_ids_error_clean(s, definition_ids(d));
        lemma_ids_error_clean(Seq::empty(), definition_ids(d));
        assert(forall|i: int| 0 <= i < n ==> prev[i] == defs[i]);
        assert(defs[n] == d);
        // The identifiers of `d` avoid those before it exactly when `d`
        // shares none with each earlier definition.
        let avoids = forall|k: int|
            0 <= k < definition_ids(d).len() ==> !s.contains(#[trigger] def_keys(d)[k]);
        let apart = forall|j: int, x: Seq<char>|
            0 <= j < n ==> !(#[trigger] def_keys(defs[j]).contains(x) && def_keys(d).contains(x));
        assert(avoids <==> apart) by {
            if avoids {
                assert forall|j: int, x: Seq<char>| 0 <= j < n implies !(#[trigger] def_keys(
                    defs[j],
                ).contains(x) && def_keys(d).contains(x)) by {
                    if def_keys(defs[j]).contains(x) && def_keys(d).contains(x) {
                        let k = choose|k: int| 0 <= k < def_keys(d).len() && def_keys(d)[k] == x;
                        lemma_collection_keys(prev, x);
                        assert(def_keys(prev[j]).contains(x));
                    }
                }
            }
            if apart {
                assert forall|k: int| 0 <= k < definition_ids(d).len() implies !s.contains(
                    #[trigger] def_keys(d)[k],
                ) by {
                    let x = def_keys(d)[k];
                    lemma_collection_keys(prev, x);
                    if s.contains(x) {
                        let j = choose|j: int| 0 <= j < prev.len() && #[trigger] def_keys(prev[j]).contains(x);
                        assert(prev[j] == defs[j]);
                        assert(def_keys(d).contains(x));
                    }
                }
            }
        }
        let names_apart = forall|j: int| 0 <= j < n ==> name_key(#[trigger] defs[j]) != name_key(d);
        assert(!name_keys(prev).contains(name_key(d)) <==> names_apart) by {
            if name_keys(prev).contains(name_key(d)) {
                let j = choose|j: int| 0 <= j < name_keys(prev).len() && name_keys(prev)[j] == name_key(d);
                assert(name_keys(prev)[j] == name_key(prev[j]));
                assert(name_key(defs[j]) == name_key(d));
            }
            if !names_apart {
                let j = choose|j: int| 0 <= j < n && name_key(#[trigger] defs[j]) == name_key(d);
                assert(name_keys(prev)[j] == name_key(prev[j]));
            }
        }
        if collection_ok(defs) {
            assert forall|i: int| 0 <= i < prev.len() implies def_ok(#[trigger] prev[i]) by {
                assert(def_ok(defs[i]));
            }
            assert forall|i: int, j: int|
                0 <= i < prev.len() && 0 <= j < prev.len() && i != j implies pair_ok(
                #[trigger] prev[i],
                #[trigger] prev[j],
            ) by {
                assert(pair_ok(defs[i], defs[j]));
            }
            assert(def_ok(defs[n]));
            assert forall|j: int, x: Seq<char>| 0 <= j < n implies !(#[trigger] def_keys(
                defs[j],
            ).contains(x) && def_keys(d).contains(x)) by {
                assert(pair_ok(defs[j], defs[n]));
            }
            assert forall|j: int| 0 <= j < n implies name_key(#[trigger] defs[j]) != name_key(d) by {
                assert(pair_ok(defs[j], defs[n]));
            }
        }
        if collection_error(defs) is None {
            assert(collection_ok(prev));
            assert forall|i: int| 0 <= i < defs.len() implies def_ok(#[trigger] defs[i]) by {
                if i < n {
                    assert(def_ok(prev[i]));
                }
            }
            assert forall|i: int, j: int|
                0 <= i < defs.len() && 0 <= j < defs.len() && i != j implies pair_ok(
                #[trigger] defs[i],
                #[trigger] defs[j],
            ) by {
                if i < n && j < n {
                    assert(pair_ok(prev[i], prev[j]));
                } else if i == n {
                    assert forall|x: Seq<char>| !(#[trigger] def_keys(defs[i]).contains(x)
                        && def_keys(defs[j]).contains(x)) by {
                        if def_keys(defs[i]).contains(x) && def_keys(defs[j]).contains(x) {
                            assert(!(def_keys(defs[j]).contains(x) && def_keys(d).contains(x)));
                        }
                    }
                    assert(name_key(defs[j]) != name_key(d));
                } else {
                    assert forall|x: Seq<char>| !(#[trigger] def_keys(defs[i]).contains(x)
                        && def_keys(defs[j]).contains(x)) by {
                        if def_keys(defs[i]).contains(x) && def_keys(defs[j]).contains(x) {
                            assert(!(def_keys(defs[i]).contains(x) && def_keys(d).contains(x)));
                        }
                    }
                    assert(name_key(defs[i]) != name_key(d));
                }
            }
        }
    }
}

/// A collection that validates still validates after definitions are
/// removed or reordered: every list `es` whose entries are entries of `ds`
/// at distinct positions (`es[i] == ds[idx[i]]`) is accepted when `ds` is.
pub proof fn lemma_valid_collection_subset(
    ds: Seq<CompositeFontDefinition>,
    es: Seq<CompositeFontDefinition>,
    idx: Seq<int>,
)
    requires
        collection_error(ds) is None,
        idx.len() == es.len(),
        forall|i: int| 0 <= i < es.len() ==> 0 <= #[trigger] idx[i] < ds.len() && es[i] == ds[idx[i]],
        forall|i: int, j: int| 0 <= i < j < es.len() ==> #[trigger] idx[i] != #[trigger] idx[j],
    ensures
        collection_error(es) is None,
{
    lemma_collection_error_ok(ds);
    lemma_collection_error_ok(es);
    assert forall|i: int| 0 <= i < es.len() implies def_ok(#[trigger] es[i]) by {
        assert(def_ok(ds[idx[i]]));
    }
    assert forall|i: int, j: int| 0 <= i < es.len() && 0 <= j < es.len() && i != j implies pair_ok(
        #[trigger] es[i],
        #[trigger] es[j],
    ) by {
        if i < j {
            assert(idx[i] != idx[j]);
        } else {
            assert(idx[j] != idx[i]);
        }
        assert(pair_ok(ds[idx[i]], ds[idx[j]]));
    }
}

proof fn lemma_ids_error_prefix(seen: Seq<Seq<char>>, ids: Seq<(IdKind, Seq<char>)>, k: int)
    requires
        0 <= k <= ids.len(),
        ids_error(seen, ids.take(k)) is Some,
    ensures
        ids_error(seen, ids) == ids_error(seen, ids.take(k)),
    decreases ids.len() - k,
{
    if k < ids.len() {
        assert(ids.take(k + 1).drop_last() =~= ids.take(k));
        lemma_ids_error_prefix(seen, ids, k + 1);
    } else {
        assert(ids.take(k) =~= ids);
    }
}

proof fn lemma_collection_error_prefix(defs: Seq<CompositeFontDefinition>, k: int)
    requires
        0 <= k <= defs.len(),
        collection_error(defs.take(k)) is Some,
    ensures
        collection_error(defs) == collection_error(defs.take(k)),
    decreases defs.len() - k,
{
    if k < defs.len() {
        assert(defs.take(k + 1).drop_last() =~= defs.take(k));
        lemma_collection_error_prefix(defs, k + 1);
    } else {
        assert(defs.take(k) =~= defs);
    }
}

/// The identifiers of a definition with their kinds.
fn definition_id_list(d: &CompositeFontDefinition) -> (v: Vec<(IdKind, String)>)
    ensures
        v@.map_values(|p: (IdKind, String)| (p.0, p.1@)) == definition_ids(*d),
{
    let mut v: Vec<(IdKind, String)> = Vec::new();
    v.push((IdKind::CompositeFont, d.id.clone()));
    let rules = &d.extra_unicode_rules;
    let mut i: usize = 0;
    while i < rules.len()
        invariant
            0 <= i <= rules@.len(),
            rules == d.extra_unicode_rules,
            v@.map_values(|p: (IdKind, String)| (p.0, p.1@)) == seq![(IdKind::CompositeFont, d.id@)]
                + rules@.take(i as int).map_values(|r: ExtraUnicodeRule| (IdKind::UnicodeRule, r.id@)),
        decreases rules@.len() - i,
    {
        let ghost old_v = v@;
        v.push((IdKind::UnicodeRule, rules[i].id.clone()));
        assert(rules@.take(i + 1) =~= rules@.take(i as int).push(rules@[i as int]));
        assert(v@.map_values(|p: (IdKind, String)| (p.0, p.1@)) =~= old_v.map_values(
            |p: (IdKind, String)| (p.0, p.1@),
        ).push((IdKind::UnicodeRule, rules@[i as int].id@)));
        i = i + 1;
    }
    assert(rules@.take(rules@.len() as int) =~= rules@);
    let customs = &d.custom_rules;
    let ghost head = seq![(IdKind::CompositeFont, d.id@)] + rules@.map_values(
        |r: ExtraUnicodeRule| (IdKind::UnicodeRule, r.id@),
    );
    let mut j: usize = 0;
    assert(head + customs@.take(0).map_values(|r: CustomRule| (IdKind::CustomRule, r.id@)) =~= head);
    while j < customs.len()
        invariant
            0 <= j <= customs@.len(),
            customs == d.custom_rules,
            v@.map_values(|p: (IdKind, String)| (p.0, p.1@)) == head + customs@.take(j as int).map_values(
                |r: CustomRule| (IdKind::CustomRule, r.id@),
            ),
        decreases customs@.len() - j,
    {
        let ghost old_v = v@;
        v.push((IdKind::CustomRule, customs[j].id.clone()));
        assert(customs@.take(j + 1) =~= customs@.take(j as int).push(customs@[j as int]));
        assert(v@.map_values(|p: (IdKind, String)| (p.0, p.1@)) =~= old_v.map_values(
            |p: (IdKind, String)| (p.0, p.1@),
        ).push((IdKind::CustomRule, customs@[j as int].id@)));
        j = j + 1;
    }
    assert(customs@.take(customs@.len() as int) =~= customs@);
    v
}

/// Checks one identifier against the trimmed identifiers seen so far, and records it.
fn check_id(seen: &mut Vec<Vec<char>>, kind: IdKind, id: &String) -> (r: Result<(), String>)
    ensures
        match r {
            Ok(()) => id_error(deep_chars(old(seen)@), kind, id@) is None && deep_chars(final(seen)@)
                == deep_chars(old(seen)@).push(trim(id@)),
            Err(e) => id_error(deep_chars(old(seen)@), kind, id@) == Some(e@),
        },
{
    let trimmed = trim_chars(chars_of(id.as_str()).as_slice());
    if trimmed.len() == 0 {
        return Err(concat_str(kind_str(kind), " id is empty"));
    }
    if list_contains(seen, trimmed.as_slice()) {
        let mut message = concat_str("Duplicate ", kind_str(kind));
        message.append(" id: ");
        message.append(id.as_str());
        return Err(message);
    }
    let ghost old_seen = deep_chars(seen@);
    seen.push(trimmed);
    assert(deep_chars(seen@) =~= old_seen.push(trim(id@)));
    Ok(())
}

/// Checks the identifiers of one definition in order, recording them.
fn check_definition_ids(seen: &mut Vec<Vec<char>>, d: &CompositeFontDefinition) -> (r: Result<(), String>)
    ensures
        match r {
            Ok(()) => ids_error(deep_chars(old(seen)@), definition_ids(*d)) is None && deep_chars(
                final(seen)@,
            ) == deep_chars(old(seen)@) + trimmed_ids(definition_ids(*d)),
            Err(e) => ids_error(deep_chars(old(seen)@), definition_ids(*d)) == Some(e@),
        },
{
    let ghost seen0 = deep_chars(seen@);
    let list = definition_id_list(d);
    let ghost ids = definition_ids(*d);
    let mut k: usize = 0;
    assert(ids.take(0) =~= Seq::<(IdKind, Seq<char>)>::empty());
    assert(seen0 + trimmed_ids(ids.take(0)) =~= seen0);
    while k < list.len()
        invariant
            0 <= k <= list@.len(),
            ids == definition_ids(*d),
            seen0 == deep_chars(old(seen)@),
            list@.map_values(|p: (IdKind, String)| (p.0, p.1@)) == ids,
            ids_error(seen0, ids.take(k as int)) is None,
            deep_chars(seen@) == seen0 + trimmed_ids(ids.take(k as int)),
        decreases list@.len() - k,
    {
        let ghost pre = ids.take(k as int);
        assert(ids.take(k + 1).drop_last() =~= pre);
        assert(ids.take(k + 1).last() == ids[k as int]);
        assert(ids[k as int] == (list@[k as int].0, list@[k as int].1@));
        match check_id(seen, list[k].0, &list[k].1) {
            Ok(()) => {},
            Err(e) => {
                assert(ids_error(seen0, ids.take(k + 1)) == Some(e@));
                proof {
                    lemma_ids_error_prefix(seen0, ids, k + 1);
                }
                assert(seen0 == deep_chars(old(seen)@));
                return Err(e);
            },
        }
        assert(trimmed_ids(ids.take(k + 1)) =~= trimmed_ids(pre).push(trim(ids[k as int].1)));
        assert(seen0 + trimmed_ids(ids.take(k + 1)) =~= (seen0 + trimmed_ids(pre)).push(
            trim(ids[k as int].1),
        ));
        k = k + 1;
    }
    assert(ids.take(ids.len() as int) =~= ids);
    Ok(())
}

/// The compared name of a definition.
fn name_key_of(d: &CompositeFontDefinition) -> (r: String)
    ensures
        r@ == name_key(*d),
        all_ascii_chars(d.name@) ==> r@ == ascii_name_key(*d),
{
    let trimmed = string_from_chars(trim_chars(chars_of(d.name.as_str()).as_slice()).as_slice());
    proof {
        if all_ascii_chars(d.name@) {
            lemma_trim_ascii(d.name@);
        }
    }
    to_lowercase(trimmed.as_str())
}

/// The compared names of all definitions, in order.
fn name_keys_of(definitions: &[CompositeFontDefinition]) -> (r: Vec<String>)
    ensures
        deep_strings(r@) == name_keys(definitions@),
        forall|i: int|
            0 <= i < definitions@.len() && all_ascii_chars(#[trigger] definitions@[i].name@)
                ==> name_key(definitions@[i]) == ascii_name_key(definitions@[i]),
{
    let mut keys: Vec<String> = Vec::new();
    let mut i: usize = 0;
    while i < definitions.len()
        invariant
            0 <= i <= definitions@.len(),
            deep_strings(keys@) == name_keys(definitions@.take(i as int)),
            forall|k: int|
                0 <= k < i && all_ascii_chars(#[trigger] definitions@[k].name@) ==> name_key(
                    definitions@[k],
                ) == ascii_name_key(definitions@[k]),
        decreases definitions@.len() - i,
    {
        let key = name_key_of(&definitions[i]);
        let ghost old_keys = deep_strings(keys@);
        keys.push(key);
        assert(deep_strings(keys@) =~= old_keys.push(name_key(definitions@[i as int])));
        assert(name_keys(definitions@.take(i + 1)) =~= name_keys(definitions@.take(i as int)).push(
            name_key(definitions@[i as int]),
        ));
        i = i + 1;
    }
    assert(definitions@.take(definitions@.len() as int) =~= definitions@);
    keys
}

/// Whether one of the first `n` strings of `list` equals `item`.
fn strings_contain(list: &Vec<String>, n: usize, item: &String) -> (r: bool)
    requires
        n <= list@.len(),
    ensures
        r == deep_strings(list@).take(n as int).contains(item@),
{
    let mut i: usize = 0;
    while i < n
        invariant
            0 <= i <= n <= list@.len(),
            forall|k: int| 0 <= k < i ==> list@[k]@ != item@,
        decreases list@.len() - i,
    {
        if list[i] == *item {
            assert(deep_strings(list@).take(n as int)[i as int] == item@);
            return true;
        }
        i = i + 1;
    }
    assert(!deep_strings(list@).take(n as int).contains(item@)) by {
        if deep_strings(list@).take(n as int).contains(item@) {
            let k = choose|k: int| 0 <= k < n && deep_strings(list@).take(n as int)[k] == item@;
            assert(list@[k]@ == item@);
        }
    }
    false
}

/// Checks a whole collection of definitions: each is valid, no identifier
/// is blank or repeats (after trimming, across all kinds and definitions),
/// and no two names are equal after trimming and lowercasing. Gives the
/// message of the first problem. An all-ASCII name is compared with its
/// ASCII letters lowered.
pub fn validate_collection(definitions: &[CompositeFontDefinition]) -> (r: Result<(), String>)
    ensures
        match r {
            Ok(()) => collection_error(definitions@) is None,
            Err(e) => collection_error(definitions@) == Some(e@),
        },
        forall|i: int|
            0 <= i < definitions@.len() && all_ascii_chars(#[trigger] definitions@[i].name@)
                ==> name_key(definitions@[i]) == ascii_name_key(definitions@[i]),
{
    let names = name_keys_of(definitions);
    assert(names@.len() == deep_strings(names@).len());
    let mut seen: Vec<Vec<char>> = Vec::new();
    let mut i: usize = 0;
    assert(definitions@.take(0) =~= Seq::<CompositeFontDefinition>::empty());
    assert(deep_chars(seen@) =~= Seq::<Seq<char>>::empty());
    assert(trimmed_ids(collection_ids(definitions@.take(0))) =~= Seq::<Seq<char>>::empty());
    while i < definitions.len()
        invariant
            0 <= i <= definitions@.len(),
            collection_error(definitions@.take(i as int)) is None,
            deep_chars(seen@) == trimmed_ids(collection_ids(definitions@.take(i as int))),
            deep_strings(names@) == name_keys(definitions@),
            names@.len() == definitions@.len(),
            forall|k: int|
                0 <= k < definitions@.len() && all_ascii_chars(#[trigger] definitions@[k].name@)
                    ==> name_key(definitions@[k]) == ascii_name_key(definitions@[k]),
        decreases definitions@.len() - i,
    {
        let definition = &definitions[i];
        let ghost prev = definitions@.take(i as int);
        let ghost cur = definitions@.take(i + 1);
        assert(cur.drop_last() =~= prev);
        assert(cur.last() == *definition);
        match validate_definition(definition) {
            Ok(()) => {},
            Err(e) => {
                proof {
                    lemma_collection_error_prefix(definitions@, i + 1);
                }
                return Err(e);
            },
        }
        match check_definition_ids(&mut seen, definition) {
            Ok(()) => {},
            Err(e) => {
                proof {
                    lemma_collection_error_prefix(definitions@, i + 1);
                }
                return Err(e);
            },
        }
        assert(name_keys(prev) =~= deep_strings(names@).take(i as int));
        assert(deep_strings(names@)[i as int] == name_key(*definition));
        if strings_contain(&names, i, &names[i]) {
            proof {
                lemma_collection_error_prefix(definitions@, i + 1);
            }
            return Err(concat_str("复合字体名称已存在：", definition.name.as_str()));
        }
        proof {
            assert(collection_ids(cur) == collection_ids(prev) + definition_ids(*definition));
            assert(trimmed_ids(collection_ids(prev) + definition_ids(*definition)) =~= trimmed_ids(
                collection_ids(prev),
            ) + trimmed_ids(definition_ids(*definition)));
        }
        i = i + 1;
    }
    assert(definitions@.take(definitions@.len() as int) =~= definitions@);
    Ok(())
}

} // verus!

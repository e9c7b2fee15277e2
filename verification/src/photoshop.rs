//! Talking to Photoshop: the scripts that list and apply fonts, and the
//! decisions of the platform clients (Windows COM, macOS AppleScript, and
//! platforms without an integration). The clients' system calls are the
//! application's part; these modules decide what is sent and what a reply
//! leads to.
pub mod capture;
pub mod composite_font;
pub mod keys;
pub mod macos;
pub mod retry;
pub mod scripts;
pub mod unsupported;
pub mod windows;

use crate::photoshop::scripts::{
    APPLY_FONT_HEAD, APPLY_FONT_TAIL, APPLY_RANGE_AFTER_FONT, APPLY_RANGE_AFTER_SELECTION,
    APPLY_RANGE_HEAD, APPLY_RANGE_TAIL,
};
use crate::text::string_of;
use vstd::prelude::*;

verus! {

/// A lowercase hexadecimal digit.
pub open spec fn hex_digit(d: int) -> char {
    if d < 10 {
        (('0' as int) + d) as char
    } else {
        (('a' as int) + d - 10) as char
    }
}

/// How `serde_json` writes one character inside a string literal: `"` and
/// `\` with a backslash, the control characters U+0008, U+000C, `\n`, `\r`
/// and `\t` as `\b`, `\f`, `\n`, `\r`, `\t`, other control characters
/// below U+0020 as `\u00` and two lowercase hexadecimal digits, and every
/// other character as it is.
pub open spec fn json_escape(c: char) -> Seq<char> {
    let v = c as int;
    if c == '"' {
        seq!['\\', '"']
    } else if c == '\\' {
        seq!['\\', '\\']
    } else if v == 0x08 {
        seq!['\\', 'b']
    } else if v == 0x0C {
        seq!['\\', 'f']
    } else if c == '\n' {
        seq!['\\', 'n']
    } else if c == '\r' {
        seq!['\\', 'r']
    } else if c == '\t' {
        seq!['\\', 't']
    } else if v < 0x20 {
        seq!['\\', 'u', '0', '0', hex_digit(v / 16), hex_digit(v % 16)]
    } else {
        seq![c]
    }
}

/// The characters of `s`, each written as `json_escape` writes it.
pub open spec fn json_escaped(s: Seq<char>) -> Seq<char>
    decreases s.len(),
{
    if s.len() == 0 {
        Seq::empty()
    } else {
        json_escaped(s.drop_last()) + json_escape(s.last())
    }
}

/// The JSON string literal that `serde_json::to_string` writes for a string:
/// the escaped characters between double quotes.
pub open spec fn json_string_literal(s: Seq<char>) -> Seq<char> {
    seq!['"'] + json_escaped(s) + seq!['"']
}

/// Calls `serde_json::to_string` on a string slice. Its source
/// (`format_escaped_str`, with the `ESCAPE` table and `write_char_escape`)
/// writes the string between quotes, escaping as `json_escape` says, into a
/// `Vec<u8>`, whose writes cannot fail; so the call succeeds with
/// `json_string_literal` of the string.
#[verifier::external_body]
pub(crate) fn json_string(value: &str) -> (r: Result<String, String>)
    ensures
        r is Ok,
        r matches Ok(s) ==> s@ == json_string_literal(value@),
{
    match serde_json::to_string(value) {
        Ok(s) => Ok(s),
        Err(e) => Err(e.to_string()),
    }
}

/// A string as a JavaScript (JSON) string literal.
pub fn js_string(value: &str) -> (r: String)
    ensures
        r@ == json_string_literal(value@),
{
    match json_string(value) {
        Ok(s) => s,
        Err(_) => string_of("\"\""),
    }
}

/// The script that sets the font of the whole active text layer.
pub open spec fn apply_jsx_spec(post_script_name: Seq<char>) -> Seq<char> {
    APPLY_FONT_HEAD@ + json_string_literal(post_script_name) + APPLY_FONT_TAIL@
}

/// The script that sets the font of the whole active text layer; it
/// answers "0", "NO_DOCUMENT", "NO_TEXT_LAYER" or "ERR:" and the error.
pub fn make_apply_jsx(post_script_name: &str) -> (r: String)
    ensures
        r@ == apply_jsx_spec(post_script_name@),
{
    let mut jsx = string_of(APPLY_FONT_HEAD);
    jsx.append(js_string(post_script_name).as_str());
    jsx.append(APPLY_FONT_TAIL);
    jsx
}

/// The script that sets the font of the selected characters only.
pub open spec fn apply_range_jsx_spec(
    post_script_name: Seq<char>,
    selected_text: Seq<char>,
    absolute_prefix: Seq<char>,
) -> Seq<char> {
    APPLY_RANGE_HEAD@ + json_string_literal(post_script_name) + APPLY_RANGE_AFTER_FONT@
        + json_string_literal(selected_text) + APPLY_RANGE_AFTER_SELECTION@ + json_string_literal(
        absolute_prefix,
    ) + APPLY_RANGE_TAIL@
}

/// The script that sets the font of the selection, located by the selected
/// text and the text before it; it falls back to the whole layer when the
/// selection cannot be located.
pub fn make_apply_range_jsx(
    post_script_name: &str,
    selected_text: &str,
    absolute_prefix: &str,
) -> (r: String)
    ensures
        r@ == apply_range_jsx_spec(post_script_name@, selected_text@, absolute_prefix@),
{
    let mut jsx = string_of(APPLY_RANGE_HEAD);
    jsx.append(js_string(post_script_name).as_str());
    jsx.append(APPLY_RANGE_AFTER_FONT);
    jsx.append(js_string(selected_text).as_str());
    jsx.append(APPLY_RANGE_AFTER_SELECTION);
    jsx.append(js_string(absolute_prefix).as_str());
    jsx.append(APPLY_RANGE_TAIL);
    jsx
}

/// A font as the listing script reports it.
#[derive(Debug, Clone, PartialEq, Eq)]
pub struct RawFont {
    pub name: String,
    pub family: String,
    pub style: String,
    pub post_script_name: String,
}

/// The listing script's answer.
#[derive(Debug, Clone, PartialEq, Eq)]
pub struct RawFontPayload {
    pub ok: bool,
    pub fonts: Vec<RawFont>,
}

/// The fonts of a listing answer, or an error when the script reported failure.
pub fn fonts_from_payload(payload: RawFontPayload) -> (r: Result<Vec<RawFont>, String>)
    ensures
        payload.ok ==> r == Ok::<Vec<RawFont>, String>(payload.fonts),
        !payload.ok ==> (r matches Err(e) && e@ == "Photoshop font list failed"@),
{
    if !payload.ok {
        return Err(string_of("Photoshop font list failed"));
    }
    Ok(payload.fonts)
}

} // verus!

//! What the application's commands compute around their Photoshop calls:
//! the font list it shows, the status it reports and the answer to an
//! apply request.
use crate::photoshop::RawFont;
use crate::search::{build_search_text, search_text_spec};
use crate::text::{blank, chars_eq, chars_of, is_blank, string_of};
use vstd::prelude::*;

verus! {

/// A font as the font list shows it.
#[derive(Debug, Clone)]
pub struct FontItem {
    pub name: String,
    pub family: String,
    pub style: String,
    pub post_script_name: String,
    pub search_text: String,
    pub source_index: usize,
}

/// The connected Photoshop.
#[derive(Debug, Clone)]
pub struct PhotoshopStatus {
    pub ok: bool,
    pub path: String,
    pub version: String,
}

/// The answer to a request to apply a font.
#[derive(Debug, Clone)]
pub struct ApplyResult {
    pub ok: bool,
    pub result: String,
    pub post_script_name: String,
}

/// `item` shows `font`, found at `index` of Photoshop's list.
pub open spec fn shows(item: FontItem, font: RawFont, index: int) -> bool {
    &&& item.name@ == font.name@
    &&& item.family@ == font.family@
    &&& item.style@ == font.style@
    &&& item.post_script_name@ == font.post_script_name@
    &&& item.search_text@ == search_text_spec(
        font.name@,
        font.family@,
        font.style@,
        font.post_script_name@,
    )
    &&& item.source_index == index
}

/// The font list: each of Photoshop's fonts, in order, with its search text
/// and its position in Photoshop's list.
pub fn font_items(fonts: Vec<RawFont>) -> (r: Vec<FontItem>)
    ensures
        r@.len() == fonts@.len(),
        forall|i: int| 0 <= i < fonts@.len() ==> shows(#[trigger] r@[i], fonts@[i], i),
{
    let mut items: Vec<FontItem> = Vec::new();
    let mut i: usize = 0;
    while i < fonts.len()
        invariant
            0 <= i <= fonts@.len(),
            items@.len() == i,
            forall|k: int| 0 <= k < i ==> shows(#[trigger] items@[k], fonts@[k], k),
        decreases fonts@.len() - i,
    {
        let font = &fonts[i];
        let search_text = build_search_text(
            font.name.as_str(),
            font.family.as_str(),
            font.style.as_str(),
            font.post_script_name.as_str(),
        );
        items.push(
            FontItem {
                name: font.name.clone(),
                family: font.family.clone(),
                style: font.style.clone(),
                post_script_name: font.post_script_name.clone(),
                search_text,
                source_index: i,
            },
        );
        i = i + 1;
    }
    items
}

/// The answer to an apply request, from the script's result: it succeeded
/// when the script answered `0`.
pub fn apply_result(post_script_name: String, result: String) -> (r: ApplyResult)
    ensures
        r.ok == (result@ == "0"@),
        r.result@ == result@,
        r.post_script_name@ == post_script_name@,
{
    let zero = chars_of("0");
    let ok = chars_eq(chars_of(result.as_str()).as_slice(), zero.as_slice());
    ApplyResult { ok, result, post_script_name }
}

/// The message for an apply request without a font name.
pub open spec fn empty_name_message() -> Seq<char> {
    "postScriptName is empty"@
}

/// Checks an apply request before Photoshop is contacted: a blank
/// PostScript name is refused.
pub fn check_post_script_name(post_script_name: &str) -> (r: Result<(), String>)
    ensures
        match r {
            Ok(()) => !is_blank(post_script_name@),
            Err(e) => is_blank(post_script_name@) && e@ == empty_name_message(),
        },
{
    if blank(post_script_name) {
        return Err(string_of("postScriptName is empty"));
    }
    Ok(())
}

/// The answer to a request to apply a font, given what applying it in
/// Photoshop gave (`outcome`): a blank PostScript name is refused whatever
/// the outcome; otherwise a reply becomes an `ApplyResult` (ok when the
/// script answered `0`) and an error is passed on.
pub fn apply_font(post_script_name: String, outcome: Result<String, String>) -> (r: Result<
    ApplyResult,
    String,
>)
    ensures
        is_blank(post_script_name@) ==> (r matches Err(e) && e@ == empty_name_message()),
        !is_blank(post_script_name@) ==> (match outcome {
            Ok(s) => r matches Ok(a) && a.ok == (s@ == "0"@) && a.result@ == s@
                && a.post_script_name@ == post_script_name@,
            Err(e) => r matches Err(x) && x@ == e@,
        }),
{
    match check_post_script_name(post_script_name.as_str()) {
        Ok(()) => {},
        Err(e) => return Err(e),
    }
    match outcome {
        Ok(result) => Ok(apply_result(post_script_name, result)),
        Err(e) => Err(e),
    }
}

/// The connected Photoshop's status, given the replies for its path and its
/// version: the first error is passed on.
pub fn photoshop_status(path: Result<String, String>, version: Result<String, String>) -> (r:
    Result<PhotoshopStatus, String>)
    ensures
        match path {
            Err(e) => r matches Err(x) && x@ == e@,
            Ok(p) => match version {
                Err(e) => r matches Err(x) && x@ == e@,
                Ok(v) => r matches Ok(st) && st.ok && st.path@ == p@ && st.version@ == v@,
            },
        },
{
    let path = match path {
        Ok(p) => p,
        Err(e) => return Err(e),
    };
    let version = match version {
        Ok(v) => v,
        Err(e) => return Err(e),
    };
    Ok(PhotoshopStatus { ok: true, path, version })
}

} // verus!

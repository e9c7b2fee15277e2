//! The composite-font script: the compiled font's JSON configuration,
//! followed by the program that applies it to the selected text layers in
//! one history step. The configuration is the compiled font serialised by
//! the application.
use crate::photoshop::scripts::{
    COMPOSITE_BODY_0, COMPOSITE_BODY_1, COMPOSITE_BODY_2, COMPOSITE_BODY_3, COMPOSITE_HEAD,
};
use crate::text::string_of;
use vstd::prelude::*;

verus! {

/// The whole composite-font script around a configuration text.
pub open spec fn composite_jsx_spec(config_json: Seq<char>) -> Seq<char> {
    COMPOSITE_HEAD@ + config_json + COMPOSITE_BODY_0@ + COMPOSITE_BODY_1@ + COMPOSITE_BODY_2@
        + COMPOSITE_BODY_3@
}

/// The script that applies a compiled composite font, given the font's JSON
/// configuration (`{"name":..,"fonts":[..],"unicodeRanges":[..],"customRules":[..]}`):
/// the configuration is assigned to `CONFIG` and the program follows.
pub fn make_apply_jsx(config_json: &str) -> (r: String)
    ensures
        r@ == composite_jsx_spec(config_json@),
{
    let mut jsx = string_of(COMPOSITE_HEAD);
    jsx.append(config_json);
    jsx.append(COMPOSITE_BODY_0);
    jsx.append(COMPOSITE_BODY_1);
    jsx.append(COMPOSITE_BODY_2);
    jsx.append(COMPOSITE_BODY_3);
    jsx
}

} // verus!

//! The decisions of the Windows (COM) client that do not need COM: path
//! comparison and recognising a busy Photoshop.
use crate::text::{
    all_ascii_chars, ascii_lowercase, ascii_lowercase_chars, chars_of, concat_str, contains_chars,
    contains_seq, lemma_trim_ascii, string_from_chars, string_of, to_lowercase, trim, trim_chars,
    unicode_lowercase,
};
use vstd::prelude::*;

verus! {

/// The text around a selection, copied out of Photoshop's text editor.
#[derive(Debug, Clone)]
pub struct TextSelectionCapture {
    pub selected_text: String,
    pub absolute_prefix: String,
}

/// `s` without trailing characters that satisfy `p`.
pub open spec fn trim_end_where(s: Seq<char>, p: spec_fn(char) -> bool) -> Seq<char>
    decreases s.len(),
{
    if s.len() > 0 && p(s.last()) {
        trim_end_where(s.drop_last(), p)
    } else {
        s
    }
}

/// Dropping trailing characters keeps a text ASCII.
pub proof fn lemma_trim_end_where_ascii(s: Seq<char>, p: spec_fn(char) -> bool)
    requires
        all_ascii_chars(s),
    ensures
        all_ascii_chars(trim_end_where(s, p)),
    decreases s.len(),
{
    if s.len() > 0 && p(s.last()) {
        assert forall|i: int| 0 <= i < s.drop_last().len() implies (s.drop_last()[i] as u32)
            < 0x80 by {
            assert(s.drop_last()[i] == s[i]);
        }
        lemma_trim_end_where_ascii(s.drop_last(), p);
    }
}

/// A path as the Windows client compares an all-ASCII path: trimmed, without
/// trailing separators, ASCII letters lowered.
pub open spec fn ascii_normalized_path(path: Seq<char>) -> Seq<char> {
    ascii_lowercase(trim_end_where(trim(path), is_path_separator()))
}

/// Predicate: a Windows path separator.
pub open spec fn is_path_separator() -> spec_fn(char) -> bool {
    |c: char| c == '\\' || c == '/'
}

/// A path as the Windows client compares paths: trimmed, without trailing
/// separators, lowercased.
pub open spec fn normalized_path(path: Seq<char>) -> Seq<char> {
    unicode_lowercase(trim_end_where(trim(path), is_path_separator()))
}

/// `s` without trailing `\` or `/`.
pub fn trim_trailing_separators(s: &[char]) -> (r: Vec<char>)
    ensures
        r@ == trim_end_where(s@, is_path_separator()),
{
    let mut end: usize = s.len();
    assert(s@.take(end as int) =~= s@);
    while end > 0 && (s[end - 1] == '\\' || s[end - 1] == '/')
        invariant
            0 <= end <= s@.len(),
            trim_end_where(s@, is_path_separator()) == trim_end_where(s@.take(end as int), is_path_separator()),
        decreases end,
    {
        assert(s@.take(end as int).drop_last() =~= s@.take(end - 1));
        end = end - 1;
    }
    let mut r: Vec<char> = Vec::new();
    let mut k: usize = 0;
    while k < end
        invariant
            0 <= k <= end <= s@.len(),
            r@ == s@.take(k as int),
        decreases end - k,
    {
        r.push(s[k]);
        assert(s@.take(k + 1) =~= s@.take(k as int).push(s@[k as int]));
        k = k + 1;
    }
    if end == s.len() {
        assert(s@.take(end as int) =~= s@);
    }
    r
}

/// A path normalised for comparison.
pub fn normalize_path(path: &str) -> (r: String)
    ensures
        r@ == normalized_path(path@),
        all_ascii_chars(path@) ==> r@ == ascii_normalized_path(path@),
{
    let trimmed = trim_chars(chars_of(path).as_slice());
    let stripped = trim_trailing_separators(trimmed.as_slice());
    proof {
        if all_ascii_chars(path@) {
            lemma_trim_ascii(path@);
            lemma_trim_end_where_ascii(trimmed@, is_path_separator());
        }
    }
    to_lowercase(string_from_chars(stripped.as_slice()).as_str())
}

/// Whether the connected Photoshop is the expected installation: the
/// normalised paths must be equal. (A blank expectation is not checked at all;
/// see `wants_path_check`.)
pub fn verify_connected_path(actual: &str, expected: &str) -> (r: Result<(), String>)
    ensures
        match r {
            Ok(()) => normalized_path(actual@) == normalized_path(expected@),
            Err(e) => normalized_path(actual@) != normalized_path(expected@) && e@
                == "Connected to wrong Photoshop: "@ + actual@,
        },
        all_ascii_chars(actual@) && all_ascii_chars(expected@) ==> (r is Ok <==> ascii_normalized_path(
            actual@,
        ) == ascii_normalized_path(expected@)),
{
    if normalize_path(actual) != normalize_path(expected) {
        return Err(concat_str("Connected to wrong Photoshop: ", actual));
    }
    Ok(())
}

/// An expected path is given and is not blank.
pub fn wants_path_check(expected_path: Option<&str>) -> (r: bool)
    ensures
        r == (expected_path matches Some(e) && !crate::text::is_blank(e@)),
{
    match expected_path {
        Some(e) => !crate::text::blank(e),
        None => false,
    }
}

/// A COM error text says that Photoshop is busy (call rejected or retry later).
pub open spec fn com_busy(error: Seq<char>) -> bool {
    let e = ascii_lowercase(error);
    contains_seq(e, "0x80010001"@) || contains_seq(e, "0x8001010a"@) || contains_seq(
        e,
        "rpc_e_call_rejected"@,
    ) || contains_seq(e, "rpc_e_servercall_retrylater"@)
}

/// Whether a COM error says that Photoshop is busy.
pub fn is_com_busy_error(error: &str) -> (r: bool)
    ensures
        r == com_busy(error@),
{
    let e = ascii_lowercase_chars(chars_of(error).as_slice());
    contains_chars(e.as_slice(), chars_of("0x80010001").as_slice()) || contains_chars(
        e.as_slice(),
        chars_of("0x8001010a").as_slice(),
    ) || contains_chars(e.as_slice(), chars_of("rpc_e_call_rejected").as_slice()) || contains_chars(
        e.as_slice(),
        chars_of("rpc_e_servercall_retrylater").as_slice(),
    )
}

/// The Windows client: Photoshop's COM automation object `app` (of the
/// application's COM type `C`). Properties are read and methods invoked by
/// the functions the application hands in (`IDispatch` calls).
#[derive(Debug, Clone)]
pub struct PlatformClient<C> {
    pub app: C,
}

/// The first step of connecting on Windows.
#[derive(Debug, Clone)]
pub enum WinConnect<C> {
    /// Connected without an installation check.
    Connected(PlatformClient<C>),
    /// The `Path` property of `app` must be read and checked against
    /// `expected` with `PlatformClient::checked`.
    NeedPath { app: C, expected: String },
}

impl<C> PlatformClient<C> {
    /// Connects to the running Photoshop, given the result of looking up
    /// its COM object: a failed lookup is passed on; without an expected
    /// path (none, or blank) the object is kept and no property is read;
    /// else its `Path` property must be read and checked.
    pub fn active(expected_path: Option<&str>, lookup: Result<C, String>) -> (r: Result<
        WinConnect<C>,
        String,
    >)
        ensures
            match lookup {
                Err(e) => r matches Err(x) && x@ == e@,
                Ok(app) => if !(expected_path matches Some(e) && !crate::text::is_blank(e@)) {
                    r matches Ok(WinConnect::Connected(c)) && c.app == app
                } else {
                    r matches Ok(WinConnect::NeedPath { app: a, expected }) && a == app
                        && expected@ == expected_path.unwrap()@
                },
            },
    {
        let app = match lookup {
            Ok(a) => a,
            Err(e) => return Err(e),
        };
        if !wants_path_check(expected_path) {
            return Ok(WinConnect::Connected(PlatformClient { app }));
        }
        let expected = match expected_path {
            Some(e) => string_of(e),
            None => String::new(),
        };
        Ok(WinConnect::NeedPath { app, expected })
    }

    /// Finishes connecting, given the reply for the `Path` property: a read
    /// error is passed on; the object is kept when the normalised paths are
    /// equal, else the wrong-Photoshop error.
    pub fn checked(app: C, expected: &str, reply: Result<String, String>) -> (r: Result<
        PlatformClient<C>,
        String,
    >)
        ensures
            match reply {
                Err(e) => r matches Err(x) && x@ == e@,
                Ok(actual) => (if normalized_path(actual@) == normalized_path(expected@) {
                    r matches Ok(c) && c.app == app
                } else {
                    r matches Err(x) && x@ == "Connected to wrong Photoshop: "@ + actual@
                }) && (all_ascii_chars(actual@) && all_ascii_chars(expected@) ==> (r is Ok
                    <==> ascii_normalized_path(actual@) == ascii_normalized_path(expected@))),
            },
    {
        let actual = match reply {
            Ok(a) => a,
            Err(e) => return Err(e),
        };
        match verify_connected_path(actual.as_str(), expected) {
            Ok(()) => Ok(PlatformClient { app }),
            Err(e) => Err(e),
        }
    }

    /// Photoshop's installation path: its `Path` property.
    pub fn path<F: FnOnce(&C, &str) -> Result<String, String>>(&self, get_property: F) -> (r:
        Result<String, String>)
        requires
            call_requires(get_property, (&self.app, "Path")),
        ensures
            call_ensures(get_property, (&self.app, "Path"), r),
    {
        get_property(&self.app, "Path")
    }

    /// Photoshop's version: its `Version` property.
    pub fn version<F: FnOnce(&C, &str) -> Result<String, String>>(&self, get_property: F) -> (r:
        Result<String, String>)
        requires
            call_requires(get_property, (&self.app, "Version")),
        ensures
            call_ensures(get_property, (&self.app, "Version"), r),
    {
        get_property(&self.app, "Version")
    }

    /// Runs a script through the `DoJavaScript` method: the reply is what
    /// `invoke` gives for it.
    pub fn do_javascript<F: FnOnce(&C, &str, &str) -> Result<String, String>>(
        &self,
        jsx: &str,
        invoke: F,
    ) -> (r: Result<String, String>)
        requires
            call_requires(invoke, (&self.app, "DoJavaScript", jsx)),
        ensures
            call_ensures(invoke, (&self.app, "DoJavaScript", jsx), r),
    {
        invoke(&self.app, "DoJavaScript", jsx)
    }
}

} // verus!

//! What a user keeps between sessions: per-font marks, recently used fonts,
//! preview settings and composite fonts. Reading and writing the file is the
//! application's part; this module decides what is kept.
use crate::composite_font::{
    ascii_name_key, collection_error, name_key, validate_collection, CompositeFontDefinition,
};
use crate::text::all_ascii_chars;
use crate::text::string_of;
use std::collections::HashMap;
use vstd::prelude::*;

verus! {

/// The version number written with every saved file.
pub const USER_DATA_VERSION: u32 = 2;

/// How many recently used fonts are kept.
pub const RECENT_LIMIT: usize = 100;

/// A user's marks on one font.
#[derive(Debug, Clone)]
pub struct FontUserData {
    pub favorite: bool,
    pub hidden: bool,
    pub user_tags: Vec<String>,
    pub language: Option<String>,
    pub vendor: Option<String>,
    pub weight: Option<String>,
}

impl Default for FontUserData {
    fn default() -> (r: Self)
        ensures
            !r.favorite && !r.hidden && r.user_tags@.len() == 0 && r.language is None
                && r.vendor is None && r.weight is None,
    {
        FontUserData {
            favorite: false,
            hidden: false,
            user_tags: Vec::new(),
            language: None,
            vendor: None,
            weight: None,
        }
    }
}

/// Preview and display settings.
#[derive(Debug, Clone)]
pub struct UserSettings {
    pub preview_mode: String,
    pub preview_text: String,
    pub preview_size: u32,
    pub meta_mode: String,
    pub ps_theme: String,
    pub show_hidden: bool,
    pub expected_path: String,
}

impl Default for UserSettings {
    fn default() -> (r: Self)
        ensures
            r.preview_mode@ == "family"@,
            r.preview_text@ == "永字八法 Aa123"@,
            r.preview_size == 16,
            r.meta_mode@ == "name"@,
            r.ps_theme@.len() == 0,
            !r.show_hidden,
            r.expected_path@.len() == 0,
    {
        UserSettings {
            preview_mode: string_of("family"),
            preview_text: string_of("永字八法 Aa123"),
            preview_size: 16,
            meta_mode: string_of("name"),
            ps_theme: String::new(),
            show_hidden: false,
            expected_path: String::new(),
        }
    }
}

/// Everything that is saved for a user.
#[derive(Debug, Clone)]
pub struct UserData {
    pub version: u32,
    pub fonts: HashMap<String, FontUserData>,
    pub recent: Vec<String>,
    pub settings: UserSettings,
    pub composite_fonts: Vec<CompositeFontDefinition>,
}

/// The default settings, as `UserSettings::default` gives them.
pub open spec fn default_settings(s: UserSettings) -> bool {
    &&& s.preview_mode@ == "family"@
    &&& s.preview_text@ == "永字八法 Aa123"@
    &&& s.preview_size == 16
    &&& s.meta_mode@ == "name"@
    &&& s.ps_theme@.len() == 0
    &&& !s.show_hidden
    &&& s.expected_path@.len() == 0
}

/// Empty user data with default settings and the given version.
pub open spec fn empty_data(d: UserData, version: u32) -> bool {
    &&& d.version == version
    &&& d.fonts@ == Map::<String, FontUserData>::empty()
    &&& d.recent@.len() == 0
    &&& default_settings(d.settings)
    &&& d.composite_fonts@.len() == 0
}

/// The recently used list as it is kept: its first `RECENT_LIMIT` entries.
pub open spec fn kept_recent(recent: Seq<String>) -> Seq<String> {
    if recent.len() <= RECENT_LIMIT {
        recent
    } else {
        recent.take(RECENT_LIMIT as int)
    }
}

/// `after` is `before` with the version set to `version` and the recent list
/// cut to its limit; nothing else changes.
pub open spec fn normalized(before: UserData, after: UserData, version: u32) -> bool {
    &&& after.version == version
    &&& after.recent@ == kept_recent(before.recent@)
    &&& after.fonts == before.fonts
    &&& after.settings == before.settings
    &&& after.composite_fonts == before.composite_fonts
}

impl Default for UserData {
    fn default() -> (r: Self)
        ensures
            empty_data(r, 0),
    {
        UserData {
            version: 0,
            fonts: HashMap::new(),
            recent: Vec::new(),
            settings: UserSettings::default(),
            composite_fonts: Vec::new(),
        }
    }
}

/// Cuts the recent list to its limit.
fn truncate_recent(recent: &mut Vec<String>)
    ensures
        final(recent)@ == kept_recent(old(recent)@),
{
    recent.truncate(RECENT_LIMIT);
    proof {
        if old(recent)@.len() > RECENT_LIMIT {
            assert(recent@ =~= old(recent)@.take(RECENT_LIMIT as int));
        }
    }
}

/// The user data a session starts with, given what was read from disk:
/// with nothing stored, empty data at the current version; otherwise the
/// stored data, where a missing version (0) becomes the current one and the
/// recent list is cut to its limit.
pub fn loaded(stored: Option<UserData>) -> (r: UserData)
    ensures
        match stored {
            None => empty_data(r, USER_DATA_VERSION),
            Some(d) => normalized(d, r, if d.version == 0 { USER_DATA_VERSION } else { d.version }),
        },
{
    match stored {
        None => {
            let mut data = UserData::default();
            data.version = USER_DATA_VERSION;
            data
        },
        Some(mut data) => {
            if data.version == 0 {
                data.version = USER_DATA_VERSION;
            }
            truncate_recent(&mut data.recent);
            data
        },
    }
}

/// The user data as it is written: its composite fonts must form a valid
/// collection (else the first problem's message, and nothing is written);
/// the version becomes the current one and the recent list is cut to its
/// limit.
pub fn prepare_save(data: UserData) -> (r: Result<UserData, String>)
    ensures
        match r {
            Ok(saved) => collection_error(data.composite_fonts@) is None && normalized(
                data,
                saved,
                USER_DATA_VERSION,
            ),
            Err(e) => collection_error(data.composite_fonts@) == Some(e@),
        },
        forall|i: int|
            0 <= i < data.composite_fonts@.len() && all_ascii_chars(
                #[trigger] data.composite_fonts@[i].name@,
            ) ==> name_key(data.composite_fonts@[i]) == ascii_name_key(data.composite_fonts@[i]),
{
    match validate_collection(data.composite_fonts.as_slice()) {
        Ok(()) => {},
        Err(e) => {
            return Err(e);
        },
    }
    let mut data = data;
    data.version = USER_DATA_VERSION;
    truncate_recent(&mut data.recent);
    Ok(data)
}

/// What was saved loads back unchanged: `loaded` on the data that
/// `prepare_save` gave returns that same data.
pub proof fn lemma_save_then_load(before: UserData, saved: UserData, reloaded: UserData)
    requires
        normalized(before, saved, USER_DATA_VERSION),
        normalized(
            saved,
            reloaded,
            if saved.version == 0 {
                USER_DATA_VERSION
            } else {
                saved.version
            },
        ),
    ensures
        reloaded.version == saved.version,
        reloaded.recent@ == saved.recent@,
        reloaded.fonts == saved.fonts,
        reloaded.settings == saved.settings,
        reloaded.composite_fonts == saved.composite_fonts,
{
    lemma_kept_recent_idempotent(before.recent@);
}

/// Cutting the recent list twice cuts it once.
pub proof fn lemma_kept_recent_idempotent(recent: Seq<String>)
    ensures
        kept_recent(kept_recent(recent)) == kept_recent(recent),
        kept_recent(recent).len() <= RECENT_LIMIT,
{
}

} // verus!

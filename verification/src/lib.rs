//! Fontick's font logic: composite-font rule compilation, OpenType name and
//! weight parsing, search text for the font list, the ExtendScript programs
//! that apply fonts in Photoshop, the decisions of the Photoshop clients
//! (retrying a busy Photoshop, capturing a text selection, reading process
//! lists), the user's saved data and the theme probe.
pub mod text;
pub mod unicode_data;
pub mod unicode_ranges;
pub mod composite_font;
pub mod font_meta;
pub mod search;
pub mod photoshop;
pub mod theme;
pub mod user_data;
pub mod commands;

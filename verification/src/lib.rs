//! Resolves an operating-system or distribution name to a glyph of the
//! font-logos icon font, with the decisions of a one-slot cache around it.
//!
//! [`get_font_logo`] is the resolution itself: it reads the icon table from
//! its JSON text and matches the name against the table's keys. [`Resolver`]
//! is the cache layer around it, for a caller that does the file operations.

pub mod cache;
pub mod data;
pub mod error;
pub mod matching;
pub mod resolve;
pub mod table;
pub mod text;

pub use crate::cache::{Event, Resolver, CACHE_FILE};
pub use crate::data::FONT_LOGOS;
pub use crate::error::{CacheOp, FontLogoError, SUPPORTED_LOGOS};
pub use crate::matching::{find_match, Match, Rule};
pub use crate::resolve::{get_font_logo, resolve_in};
pub use crate::table::{IconEntry, IconTable};

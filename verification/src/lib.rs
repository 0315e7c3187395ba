//! Verified core of a FreeType binding: error codes, load flags, the modes
//! handed to FreeType, the plain-value records that faces and glyphs expose,
//! and the reference-counting protocol that the handle types follow.

pub mod error;
pub mod load_flag;
pub mod render_mode;
pub mod types;
pub mod text;
pub mod face;
pub mod bitmap_glyph;
pub mod glyph;
pub mod library;
pub mod lifecycle;

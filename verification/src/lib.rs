//! In-memory access to the data of a single font face.
//!
//! A [`tables::FontTableProvider`] hands out the raw bytes of the tables of a
//! face. [`font_data_impl::FontDataImpl`] reads the required tables eagerly,
//! chooses a character map, and loads every optional table on first use.

pub mod binary;
pub mod bitmap;
pub mod cbdt;
pub mod cmap;
pub mod cmap_subtable;
pub mod error;
pub mod font_data_impl;
pub mod glyph_info;
pub mod glyph_names;
pub mod layout;
pub mod lazy_load;
pub mod os2;
pub mod post;
pub mod sbix;
pub mod svg;
pub mod tables;
pub mod tag;
pub mod unique_names;

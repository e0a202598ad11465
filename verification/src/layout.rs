//! The tables that steer shaping: `GDEF`, `GSUB` and `GPOS`.
//!
//! This library reads their headers and hands the tables on. What the
//! offsets of a header lead to is for the shaping engine to read.

use vstd::prelude::*;
use std::marker::PhantomData;
use std::rc::Rc;
use crate::binary::{be_u16, be_u32, u16_at, u32_at};
use crate::error::ParseError;

verus! {

/// Marks a layout table as one of glyph substitutions.
#[derive(Clone, Copy, Debug, PartialEq, Eq)]
pub struct GSUB;

/// Marks a layout table as one of glyph positions.
#[derive(Clone, Copy, Debug, PartialEq, Eq)]
pub struct GPOS;

/// The header of a `GDEF` table: its version and the offsets of its parts,
/// each 0 where the table lacks the part.
#[derive(Clone, Copy, Debug, PartialEq, Eq, Structural)]
pub struct GDEFHeader {
    pub major_version: u16,
    pub minor_version: u16,
    pub glyph_class_def: u16,
    pub attach_list: u16,
    pub lig_caret_list: u16,
    pub mark_attach_class_def: u16,
    /// From version 1.2 on.
    pub mark_glyph_sets_def: Option<u16>,
    /// From version 1.3 on.
    pub item_var_store: Option<u32>,
}

/// A `GDEF` table: its header and its bytes.
#[derive(Clone, Debug, PartialEq, Eq)]
pub struct GDEFTable {
    pub header: GDEFHeader,
    pub data: Vec<u8>,
}

impl View for GDEFTable {
    type V = (GDEFHeader, Seq<u8>);

    open spec fn view(&self) -> (GDEFHeader, Seq<u8>) {
        (self.header, self.data@)
    }
}

/// How long the header of a `GDEF` table of the given minor version is.
pub open spec fn gdef_header_len(minor: int) -> int {
    if minor >= 3 {
        18
    } else if minor == 2 {
        14
    } else {
        12
    }
}

/// The header of the `GDEF` table in `data`. `BadEof` where the data is
/// shorter than its header, `BadVersion` where the major version is not 1.
pub open spec fn spec_gdef_header(data: Seq<u8>) -> Result<GDEFHeader, ParseError> {
    if data.len() < 12 {
        Err(ParseError::BadEof)
    } else if be_u16(data, 0) != 1 {
        Err(ParseError::BadVersion)
    } else if data.len() < gdef_header_len(be_u16(data, 2)) {
        Err(ParseError::BadEof)
    } else {
        Ok(
            GDEFHeader {
                major_version: 1,
                minor_version: be_u16(data, 2) as u16,
                glyph_class_def: be_u16(data, 4) as u16,
                attach_list: be_u16(data, 6) as u16,
                lig_caret_list: be_u16(data, 8) as u16,
                mark_attach_class_def: be_u16(data, 10) as u16,
                mark_glyph_sets_def: if be_u16(data, 2) >= 2 {
                    Some(be_u16(data, 12) as u16)
                } else {
                    None
                },
                item_var_store: if be_u16(data, 2) >= 3 {
                    Some(be_u32(data, 14) as u32)
                } else {
                    None
                },
            },
        )
    }
}

impl GDEFHeader {
    /// Reads the header of the `GDEF` table in `data`.
    pub fn read(data: &[u8]) -> (r: Result<GDEFHeader, ParseError>)
        ensures
            r == spec_gdef_header(data@),
    {
        let len: usize = data.len();
        if len < 12 {
            return Err(ParseError::BadEof);
        }
        if u16_at(data, 0) != 1 {
            return Err(ParseError::BadVersion);
        }
        let minor_version: u16 = u16_at(data, 2);
        if (minor_version >= 3 && len < 18) || (minor_version == 2 && len < 14) {
            return Err(ParseError::BadEof);
        }
        Ok(
            GDEFHeader {
                major_version: 1,
                minor_version,
                glyph_class_def: u16_at(data, 4),
                attach_list: u16_at(data, 6),
                lig_caret_list: u16_at(data, 8),
                mark_attach_class_def: u16_at(data, 10),
                mark_glyph_sets_def: if minor_version >= 2 {
                    Some(u16_at(data, 12))
                } else {
                    None
                },
                item_var_store: if minor_version >= 3 {
                    Some(u32_at(data, 14))
                } else {
                    None
                },
            },
        )
    }
}

/// The `GDEF` table with the bytes `data`.
pub open spec fn spec_gdef_table(data: Seq<u8>) -> Result<(GDEFHeader, Seq<u8>), ParseError> {
    match spec_gdef_header(data) {
        Ok(header) => Ok((header, data)),
        Err(e) => Err(e),
    }
}

impl GDEFTable {
    /// Reads the header of `data` and keeps both.
    pub fn read(data: Vec<u8>) -> (r: Result<GDEFTable, ParseError>)
        ensures
            match r {
                Ok(table) => spec_gdef_table(data@) == Ok::<(GDEFHeader, Seq<u8>), ParseError>(
                    table@,
                ),
                Err(e) => spec_gdef_table(data@) == Err::<(GDEFHeader, Seq<u8>), ParseError>(e),
            },
    {
        let header = GDEFHeader::read(data.as_slice())?;
        Ok(GDEFTable { header, data })
    }
}

/// The header of a `GSUB` or `GPOS` table: its version and the offsets of
/// its lists.
#[derive(Clone, Copy, Debug, PartialEq, Eq, Structural)]
pub struct LayoutHeader {
    pub major_version: u16,
    pub minor_version: u16,
    pub script_list: u16,
    pub feature_list: u16,
    pub lookup_list: u16,
    /// From version 1.1 on.
    pub feature_variations: Option<u32>,
}

/// A `GSUB` or `GPOS` table: its header and its bytes. `T` says which of
/// the two it is.
pub struct LayoutTable<T> {
    pub header: LayoutHeader,
    pub data: Vec<u8>,
    pub phantom: PhantomData<T>,
}

impl<T> View for LayoutTable<T> {
    type V = (LayoutHeader, Seq<u8>);

    open spec fn view(&self) -> (LayoutHeader, Seq<u8>) {
        (self.header, self.data@)
    }
}

/// The header of the layout table in `data`. `BadEof` where the data is
/// shorter than its header, `BadVersion` where the major version is not 1.
pub open spec fn spec_layout_header(data: Seq<u8>) -> Result<LayoutHeader, ParseError> {
    if data.len() < 10 {
        Err(ParseError::BadEof)
    } else if be_u16(data, 0) != 1 {
        Err(ParseError::BadVersion)
    } else if be_u16(data, 2) >= 1 && data.len() < 14 {
        Err(ParseError::BadEof)
    } else {
        Ok(
            LayoutHeader {
                major_version: 1,
                minor_version: be_u16(data, 2) as u16,
                script_list: be_u16(data, 4) as u16,
                feature_list: be_u16(data, 6) as u16,
                lookup_list: be_u16(data, 8) as u16,
                feature_variations: if be_u16(data, 2) >= 1 {
                    Some(be_u32(data, 10) as u32)
                } else {
                    None
                },
            },
        )
    }
}

/// The layout table with the bytes `data`.
pub open spec fn spec_layout_table(data: Seq<u8>) -> Result<(LayoutHeader, Seq<u8>), ParseError> {
    match spec_layout_header(data) {
        Ok(header) => Ok((header, data)),
        Err(e) => Err(e),
    }
}

impl LayoutHeader {
    /// Reads the header of the layout table in `data`.
    pub fn read(data: &[u8]) -> (r: Result<LayoutHeader, ParseError>)
        ensures
            r == spec_layout_header(data@),
    {
        let len: usize = data.len();
        if len < 10 {
            return Err(ParseError::BadEof);
        }
        if u16_at(data, 0) != 1 {
            return Err(ParseError::BadVersion);
        }
        let minor_version: u16 = u16_at(data, 2);
        if minor_version >= 1 && len < 14 {
            return Err(ParseError::BadEof);
        }
        Ok(
            LayoutHeader {
                major_version: 1,
                minor_version,
                script_list: u16_at(data, 4),
                feature_list: u16_at(data, 6),
                lookup_list: u16_at(data, 8),
                feature_variations: if minor_version >= 1 {
                    Some(u32_at(data, 10))
                } else {
                    None
                },
            },
        )
    }
}

impl<T> LayoutTable<T> {
    /// Reads the header of `data` and keeps both.
    pub fn read(data: Vec<u8>) -> (r: Result<LayoutTable<T>, ParseError>)
        ensures
            match r {
                Ok(table) => spec_layout_table(data@) == Ok::<(LayoutHeader, Seq<u8>), ParseError>(
                    table@,
                ),
                Err(e) => spec_layout_table(data@) == Err::<(LayoutHeader, Seq<u8>), ParseError>(e),
            },
    {
        let header = LayoutHeader::read(data.as_slice())?;
        Ok(LayoutTable { header, data, phantom: PhantomData })
    }
}

/// What a layout cache holds: the table. A shaping engine keeps what it
/// works out from the table beside it.
pub struct LayoutCacheData<T> {
    pub layout_table: LayoutTable<T>,
}

impl<T> View for LayoutCacheData<T> {
    type V = (LayoutHeader, Seq<u8>);

    open spec fn view(&self) -> (LayoutHeader, Seq<u8>) {
        self.layout_table@
    }
}

/// A shared handle to a layout table.
pub type LayoutCache<T> = Rc<LayoutCacheData<T>>;

/// Wraps `layout_table` in a cache that can be shared.
pub fn new_layout_cache<T>(layout_table: LayoutTable<T>) -> (cache: LayoutCache<T>)
    ensures
        cache@ == layout_table@,
{
    Rc::new(LayoutCacheData { layout_table })
}

} // verus!

//! Where the tables of a font come from, and the small tables that every
//! face needs.

use vstd::prelude::*;
use crate::binary::{
    be_i16,
    be_i32,
    be_i64,
    be_u16,
    be_u32,
    i16_at,
    i32_at,
    i64_at,
    u16_at,
    u32_at,
};
use crate::error::ParseError;

verus! {

/// The bytes of a table, the knowledge that the font has no such table, or
/// the error met while fetching it.
pub type TableData = Result<Option<Seq<u8>>, ParseError>;

/// The view of what fetching a table returned.
pub open spec fn table_data_view(r: Result<Option<Vec<u8>>, ParseError>) -> TableData {
    match r {
        Ok(Some(data)) => Ok(Some(data@)),
        Ok(None) => Ok(None),
        Err(e) => Err(e),
    }
}

/// What fetching a table that has to be there gives: its bytes, or
/// `MissingValue` where the font has no such table.
pub open spec fn spec_required(found: TableData) -> Result<Seq<u8>, ParseError> {
    match found {
        Ok(Some(data)) => Ok(data),
        Ok(None) => Err(ParseError::MissingValue),
        Err(e) => Err(e),
    }
}

/// The view of what fetching a required table returned.
pub open spec fn required_view(r: Result<Vec<u8>, ParseError>) -> Result<Seq<u8>, ParseError> {
    match r {
        Ok(data) => Ok(data@),
        Err(e) => Err(e),
    }
}

/// A source of the tables of one font, by their four-byte tags.
///
/// A provider stands for a fixed set of tables: what it returns for a tag
/// is the same on every call. `spec_table_data` and `spec_has_table` say
/// what that is. As they stand they describe a provider without tables; a
/// provider that has tables states in their place what it holds.
pub trait FontTableProvider {
    /// What [`FontTableProvider::table_data`] returns for `tag`.
    open spec fn spec_table_data(&self, tag: u32) -> TableData {
        Ok(None)
    }

    /// What [`FontTableProvider::has_table`] returns for `tag`.
    open spec fn spec_has_table(&self, tag: u32) -> bool {
        false
    }

    /// The bytes of the table `tag`, or `None` where the font has no such
    /// table. Fails only where the table cannot be read.
    fn table_data(&self, tag: u32) -> (r: Result<Option<Vec<u8>>, ParseError>)
        ensures
            table_data_view(r) == self.spec_table_data(tag),
    ;

    /// Whether the font has a table `tag`.
    fn has_table(&self, tag: u32) -> (r: bool)
        ensures
            r == self.spec_has_table(tag),
    ;

    /// The bytes of the table `tag`; `MissingValue` where the font has no
    /// such table.
    fn read_table_data(&self, tag: u32) -> (r: Result<Vec<u8>, ParseError>)
        ensures
            required_view(r) == spec_required(self.spec_table_data(tag)),
    {
        match self.table_data(tag)? {
            Some(data) => Ok(data),
            None => Err(ParseError::MissingValue),
        }
    }
}

/// One table held in memory.
pub struct TableEntry {
    pub tag: u32,
    pub data: Vec<u8>,
}

/// A provider that holds its tables in memory. Of two tables with the same
/// tag the one added first is the one found.
pub struct MemoryTables {
    pub entries: Vec<TableEntry>,
}

/// Whether entry `i` has the tag `tag` and no entry before it has.
pub open spec fn is_first_entry(entries: Seq<TableEntry>, tag: u32, i: int) -> bool {
    &&& 0 <= i < entries.len()
    &&& entries[i].tag == tag
    &&& forall|j: int| 0 <= j < i ==> (#[trigger] entries[j]).tag != tag
}

/// The bytes of the first entry with the tag `tag`.
pub open spec fn spec_entry_data(entries: Seq<TableEntry>, tag: u32) -> Option<Seq<u8>> {
    if exists|i: int| is_first_entry(entries, tag, i) {
        Some(entries[choose|i: int| is_first_entry(entries, tag, i)].data@)
    } else {
        None
    }
}

impl MemoryTables {
    /// A provider with no tables.
    pub fn new() -> (r: MemoryTables)
        ensures
            r.entries@.len() == 0,
    {
        MemoryTables { entries: Vec::new() }
    }

    /// Adds a table after those already there.
    pub fn add(&mut self, tag: u32, data: Vec<u8>)
        ensures
            final(self).entries@ == old(self).entries@.push(TableEntry { tag, data }),
    {
        self.entries.push(TableEntry { tag, data });
    }

    /// The index of the first entry with the tag `tag`.
    fn position(&self, tag: u32) -> (r: Option<usize>)
        ensures
            r matches Some(i) ==> is_first_entry(self.entries@, tag, i as int),
            r is None ==> forall|j: int|
                0 <= j < self.entries@.len() ==> (#[trigger] self.entries@[j]).tag != tag,
    {
        let mut i: usize = 0;
        while i < self.entries.len()
            invariant
                i <= self.entries@.len(),
                forall|j: int| 0 <= j < i ==> (#[trigger] self.entries@[j]).tag != tag,
            decreases self.entries@.len() - i,
        {
            if self.entries[i].tag == tag {
                return Some(i);
            }
            i += 1;
        }
        None
    }
}

impl FontTableProvider for MemoryTables {
    open spec fn spec_table_data(&self, tag: u32) -> TableData {
        Ok(spec_entry_data(self.entries@, tag))
    }

    open spec fn spec_has_table(&self, tag: u32) -> bool {
        spec_entry_data(self.entries@, tag) is Some
    }

    fn table_data(&self, tag: u32) -> (r: Result<Option<Vec<u8>>, ParseError>) {
        match self.position(tag) {
            Some(i) => {
                let data = self.entries[i].data.clone();
                assert(data@ == self.entries@[i as int].data@);
                Ok(Some(data))
            },
            None => Ok(None),
        }
    }

    fn has_table(&self, tag: u32) -> (r: bool) {
        self.position(tag).is_some()
    }
}

/// The limits of a font with glyph outlines, from a `maxp` table of version
/// 1.0.
#[derive(Clone, Copy, Debug, PartialEq, Eq, Structural)]
pub struct MaxpVersion1SubTable {
    pub max_points: u16,
    pub max_contours: u16,
    pub max_composite_points: u16,
    pub max_composite_contours: u16,
    pub max_zones: u16,
    pub max_twilight_points: u16,
    pub max_storage: u16,
    pub max_function_defs: u16,
    pub max_instruction_defs: u16,
    pub max_stack_elements: u16,
    pub max_size_of_instructions: u16,
    pub max_component_elements: u16,
    pub max_component_depth: u16,
}

/// The `maxp` table: the number of glyphs, and for version 1.0 the limits
/// that follow it.
#[derive(Clone, Copy, Debug, PartialEq, Eq, Structural)]
pub struct MaxpTable {
    pub num_glyphs: u16,
    pub version1: Option<MaxpVersion1SubTable>,
}

/// The limits stored in a `maxp` table of version 1.0.
pub open spec fn spec_maxp_version1(data: Seq<u8>) -> MaxpVersion1SubTable {
    MaxpVersion1SubTable {
        max_points: be_u16(data, 6) as u16,
        max_contours: be_u16(data, 8) as u16,
        max_composite_points: be_u16(data, 10) as u16,
        max_composite_contours: be_u16(data, 12) as u16,
        max_zones: be_u16(data, 14) as u16,
        max_twilight_points: be_u16(data, 16) as u16,
        max_storage: be_u16(data, 18) as u16,
        max_function_defs: be_u16(data, 20) as u16,
        max_instruction_defs: be_u16(data, 22) as u16,
        max_stack_elements: be_u16(data, 24) as u16,
        max_size_of_instructions: be_u16(data, 26) as u16,
        max_component_elements: be_u16(data, 28) as u16,
        max_component_depth: be_u16(data, 30) as u16,
    }
}

/// The `maxp` table in `data`: version 0.5 has the number of glyphs only,
/// version 1.0 has 32 bytes. `BadEof` where the data is shorter than its
/// version says, `BadVersion` for any other version.
pub open spec fn spec_maxp_table(data: Seq<u8>) -> Result<MaxpTable, ParseError> {
    if data.len() < 6 {
        Err(ParseError::BadEof)
    } else if be_u32(data, 0) == 0x00005000 {
        Ok(MaxpTable { num_glyphs: be_u16(data, 4) as u16, version1: None })
    } else if be_u32(data, 0) != 0x00010000 {
        Err(ParseError::BadVersion)
    } else if data.len() < 32 {
        Err(ParseError::BadEof)
    } else {
        Ok(
            MaxpTable {
                num_glyphs: be_u16(data, 4) as u16,
                version1: Some(spec_maxp_version1(data)),
            },
        )
    }
}

impl MaxpTable {
    /// Reads the `maxp` table in `data`.
    pub fn read(data: &[u8]) -> (r: Result<MaxpTable, ParseError>)
        ensures
            r == spec_maxp_table(data@),
    {
        if data.len() < 6 {
            return Err(ParseError::BadEof);
        }
        let version: u32 = u32_at(data, 0);
        let num_glyphs: u16 = u16_at(data, 4);
        if version == 0x00005000 {
            return Ok(MaxpTable { num_glyphs, version1: None });
        }
        if version != 0x00010000 {
            return Err(ParseError::BadVersion);
        }
        if data.len() < 32 {
            return Err(ParseError::BadEof);
        }
        let version1 = MaxpVersion1SubTable {
            max_points: u16_at(data, 6),
            max_contours: u16_at(data, 8),
            max_composite_points: u16_at(data, 10),
            max_composite_contours: u16_at(data, 12),
            max_zones: u16_at(data, 14),
            max_twilight_points: u16_at(data, 16),
            max_storage: u16_at(data, 18),
            max_function_defs: u16_at(data, 20),
            max_instruction_defs: u16_at(data, 22),
            max_stack_elements: u16_at(data, 24),
            max_size_of_instructions: u16_at(data, 26),
            max_component_elements: u16_at(data, 28),
            max_component_depth: u16_at(data, 30),
        };
        Ok(MaxpTable { num_glyphs, version1: Some(version1) })
    }
}

/// The `hhea` table, and the `vhea` table, which has the same layout for
/// the other direction.
#[derive(Clone, Copy, Debug, PartialEq, Eq, Structural)]
pub struct HheaTable {
    pub ascender: i16,
    pub descender: i16,
    pub line_gap: i16,
    pub advance_width_max: u16,
    pub min_left_side_bearing: i16,
    pub min_right_side_bearing: i16,
    pub x_max_extent: i16,
    pub caret_slope_rise: i16,
    pub caret_slope_run: i16,
    pub caret_offset: i16,
    pub num_h_metrics: u16,
}

impl View for HheaTable {
    type V = HheaTable;

    open spec fn view(&self) -> HheaTable {
        *self
    }
}

/// The header in `data`: 36 bytes with major version 1. `BadEof` where the
/// data is shorter, `BadVersion` for another major version.
pub open spec fn spec_hhea_table(data: Seq<u8>) -> Result<HheaTable, ParseError> {
    if data.len() < 36 {
        Err(ParseError::BadEof)
    } else if be_u16(data, 0) != 1 {
        Err(ParseError::BadVersion)
    } else {
        Ok(
            HheaTable {
                ascender: be_i16(data, 4) as i16,
                descender: be_i16(data, 6) as i16,
                line_gap: be_i16(data, 8) as i16,
                advance_width_max: be_u16(data, 10) as u16,
                min_left_side_bearing: be_i16(data, 12) as i16,
                min_right_side_bearing: be_i16(data, 14) as i16,
                x_max_extent: be_i16(data, 16) as i16,
                caret_slope_rise: be_i16(data, 18) as i16,
                caret_slope_run: be_i16(data, 20) as i16,
                caret_offset: be_i16(data, 22) as i16,
                num_h_metrics: be_u16(data, 34) as u16,
            },
        )
    }
}

impl HheaTable {
    /// Reads the header in `data`.
    pub fn read(data: &[u8]) -> (r: Result<HheaTable, ParseError>)
        ensures
            r == spec_hhea_table(data@),
    {
        if data.len() < 36 {
            return Err(ParseError::BadEof);
        }
        if u16_at(data, 0) != 1 {
            return Err(ParseError::BadVersion);
        }
        Ok(
            HheaTable {
                ascender: i16_at(data, 4),
                descender: i16_at(data, 6),
                line_gap: i16_at(data, 8),
                advance_width_max: u16_at(data, 10),
                min_left_side_bearing: i16_at(data, 12),
                min_right_side_bearing: i16_at(data, 14),
                x_max_extent: i16_at(data, 16),
                caret_slope_rise: i16_at(data, 18),
                caret_slope_run: i16_at(data, 20),
                caret_offset: i16_at(data, 22),
                num_h_metrics: u16_at(data, 34),
            },
        )
    }
}

/// The number that every `head` table holds, to be told by.
pub const HEAD_MAGIC: u32 = 0x5F0F3CF5;

/// The `head` table: what holds for the font as a whole.
#[derive(Clone, Copy, Debug, PartialEq, Eq, Structural)]
pub struct HeadTable {
    pub major_version: u16,
    pub minor_version: u16,
    pub font_revision: i32,
    pub check_sum_adjustment: u32,
    pub magic_number: u32,
    pub flags: u16,
    pub units_per_em: u16,
    pub created: i64,
    pub modified: i64,
    pub x_min: i16,
    pub y_min: i16,
    pub x_max: i16,
    pub y_max: i16,
    pub mac_style: u16,
    pub lowest_rec_ppem: u16,
    pub font_direction_hint: i16,
    pub index_to_loc_format: i16,
    pub glyph_data_format: i16,
}

/// The `head` table in `data`: 54 bytes with major version 1 and the magic
/// number. `BadEof` where the data is shorter, `BadVersion` for another
/// major version, `BadValue` for another magic number.
pub open spec fn spec_head_table(data: Seq<u8>) -> Result<HeadTable, ParseError> {
    if data.len() < 54 {
        Err(ParseError::BadEof)
    } else if be_u16(data, 0) != 1 {
        Err(ParseError::BadVersion)
    } else if be_u32(data, 12) != HEAD_MAGIC {
        Err(ParseError::BadValue)
    } else {
        Ok(
            HeadTable {
                major_version: be_u16(data, 0) as u16,
                minor_version: be_u16(data, 2) as u16,
                font_revision: be_i32(data, 4) as i32,
                check_sum_adjustment: be_u32(data, 8) as u32,
                magic_number: be_u32(data, 12) as u32,
                flags: be_u16(data, 16) as u16,
                units_per_em: be_u16(data, 18) as u16,
                created: be_i64(data, 20) as i64,
                modified: be_i64(data, 28) as i64,
                x_min: be_i16(data, 36) as i16,
                y_min: be_i16(data, 38) as i16,
                x_max: be_i16(data, 40) as i16,
                y_max: be_i16(data, 42) as i16,
                mac_style: be_u16(data, 44) as u16,
                lowest_rec_ppem: be_u16(data, 46) as u16,
                font_direction_hint: be_i16(data, 48) as i16,
                index_to_loc_format: be_i16(data, 50) as i16,
                glyph_data_format: be_i16(data, 52) as i16,
            },
        )
    }
}

impl HeadTable {
    /// Reads the `head` table in `data`.
    pub fn read(data: &[u8]) -> (r: Result<HeadTable, ParseError>)
        ensures
            r == spec_head_table(data@),
    {
        if data.len() < 54 {
            return Err(ParseError::BadEof);
        }
        if u16_at(data, 0) != 1 {
            return Err(ParseError::BadVersion);
        }
        if u32_at(data, 12) != HEAD_MAGIC {
            return Err(ParseError::BadValue);
        }
        Ok(
            HeadTable {
                major_version: u16_at(data, 0),
                minor_version: u16_at(data, 2),
                font_revision: i32_at(data, 4),
                check_sum_adjustment: u32_at(data, 8),
                magic_number: u32_at(data, 12),
                flags: u16_at(data, 16),
                units_per_em: u16_at(data, 18),
                created: i64_at(data, 20),
                modified: i64_at(data, 28),
                x_min: i16_at(data, 36),
                y_min: i16_at(data, 38),
                x_max: i16_at(data, 40),
                y_max: i16_at(data, 42),
                mac_style: u16_at(data, 44),
                lowest_rec_ppem: u16_at(data, 46),
                font_direction_hint: i16_at(data, 48),
                index_to_loc_format: i16_at(data, 50),
                glyph_data_format: i16_at(data, 52),
            },
        )
    }
}

} // verus!

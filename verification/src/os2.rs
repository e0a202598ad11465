//! The `OS/2` table: metrics and classifications.
//!
//! The table grew with its versions. What a table holds beyond its first 68
//! bytes is read as far as its version and its length say it is there.

use vstd::prelude::*;
use crate::binary::{be_i16, be_u16, be_u32, i16_at, u16_at, u32_at, u8_at};
use crate::error::ParseError;

verus! {

/// The typographic and Windows metrics, which a table of 78 bytes or more
/// holds.
#[derive(Clone, Copy, Debug, PartialEq, Eq, Structural)]
pub struct Version0 {
    pub s_typo_ascender: i16,
    pub s_typo_descender: i16,
    pub s_typo_line_gap: i16,
    pub us_win_ascent: u16,
    pub us_win_descent: u16,
}

/// The code page ranges, from version 1 on.
#[derive(Clone, Copy, Debug, PartialEq, Eq, Structural)]
pub struct Version1 {
    pub ul_code_page_range1: u32,
    pub ul_code_page_range2: u32,
}

/// The heights and special characters, from version 2 on.
#[derive(Clone, Copy, Debug, PartialEq, Eq, Structural)]
pub struct Version2to4 {
    pub sx_height: i16,
    pub s_cap_height: i16,
    pub us_default_char: u16,
    pub us_break_char: u16,
    pub us_max_context: u16,
}

/// The optical point sizes, from version 5 on.
#[derive(Clone, Copy, Debug, PartialEq, Eq, Structural)]
pub struct Version5 {
    pub us_lower_optical_point_size: u16,
    pub us_upper_optical_point_size: u16,
}

/// The `OS/2` table.
#[derive(Clone, Copy, Debug, PartialEq, Eq, Structural)]
pub struct Os2 {
    pub version: u16,
    pub x_avg_char_width: i16,
    pub us_weight_class: u16,
    pub us_width_class: u16,
    pub fs_type: u16,
    pub y_subscript_x_size: i16,
    pub y_subscript_y_size: i16,
    pub y_subscript_x_offset: i16,
    pub y_subscript_y_offset: i16,
    pub y_superscript_x_size: i16,
    pub y_superscript_y_size: i16,
    pub y_superscript_x_offset: i16,
    pub y_superscript_y_offset: i16,
    pub y_strikeout_size: i16,
    pub y_strikeout_position: i16,
    pub s_family_class: i16,
    pub panose_0: u8,
    pub panose_1: u8,
    pub panose_2: u8,
    pub panose_3: u8,
    pub panose_4: u8,
    pub panose_5: u8,
    pub panose_6: u8,
    pub panose_7: u8,
    pub panose_8: u8,
    pub panose_9: u8,
    pub ul_unicode_range1: u32,
    pub ul_unicode_range2: u32,
    pub ul_unicode_range3: u32,
    pub ul_unicode_range4: u32,
    pub ach_vend_id: u32,
    pub fs_selection: u16,
    pub us_first_char_index: u16,
    pub us_last_char_index: u16,
    pub version0: Option<Version0>,
    pub version1: Option<Version1>,
    pub version2to4: Option<Version2to4>,
    pub version5: Option<Version5>,
}

/// How many bytes a table of the given version holds after its first 78.
pub open spec fn spec_tail_len(version: int) -> int {
    if version >= 5 {
        22
    } else if version >= 2 {
        18
    } else if version == 1 {
        8
    } else {
        0
    }
}

/// The `OS/2` table in `data`. `BadEof` where the data is shorter than 68
/// bytes, or, for a version from 1 on, than that version says. A table of
/// version 0 may end after 68 bytes.
pub open spec fn spec_os2(data: Seq<u8>) -> Result<Os2, ParseError> {
    if data.len() < 68 {
        Err(ParseError::BadEof)
    } else if be_u16(data, 0) >= 1 && data.len() < 78 + spec_tail_len(be_u16(data, 0)) {
        Err(ParseError::BadEof)
    } else {
        Ok(
            Os2 {
                version: be_u16(data, 0) as u16,
                x_avg_char_width: be_i16(data, 2) as i16,
                us_weight_class: be_u16(data, 4) as u16,
                us_width_class: be_u16(data, 6) as u16,
                fs_type: be_u16(data, 8) as u16,
                y_subscript_x_size: be_i16(data, 10) as i16,
                y_subscript_y_size: be_i16(data, 12) as i16,
                y_subscript_x_offset: be_i16(data, 14) as i16,
                y_subscript_y_offset: be_i16(data, 16) as i16,
                y_superscript_x_size: be_i16(data, 18) as i16,
                y_superscript_y_size: be_i16(data, 20) as i16,
                y_superscript_x_offset: be_i16(data, 22) as i16,
                y_superscript_y_offset: be_i16(data, 24) as i16,
                y_strikeout_size: be_i16(data, 26) as i16,
                y_strikeout_position: be_i16(data, 28) as i16,
                s_family_class: be_i16(data, 30) as i16,
                panose_0: data[32],
                panose_1: data[33],
                panose_2: data[34],
                panose_3: data[35],
                panose_4: data[36],
                panose_5: data[37],
                panose_6: data[38],
                panose_7: data[39],
                panose_8: data[40],
                panose_9: data[41],
                ul_unicode_range1: be_u32(data, 42) as u32,
                ul_unicode_range2: be_u32(data, 46) as u32,
                ul_unicode_range3: be_u32(data, 50) as u32,
                ul_unicode_range4: be_u32(data, 54) as u32,
                ach_vend_id: be_u32(data, 58) as u32,
                fs_selection: be_u16(data, 62) as u16,
                us_first_char_index: be_u16(data, 64) as u16,
                us_last_char_index: be_u16(data, 66) as u16,
                version0: if data.len() >= 78 {
                    Some(Version0 {
                        s_typo_ascender: be_i16(data, 68) as i16,
                        s_typo_descender: be_i16(data, 70) as i16,
                        s_typo_line_gap: be_i16(data, 72) as i16,
                        us_win_ascent: be_u16(data, 74) as u16,
                        us_win_descent: be_u16(data, 76) as u16,
                    })
                } else {
                    None
                },
                version1: if be_u16(data, 0) >= 1 {
                    Some(Version1 {
                        ul_code_page_range1: be_u32(data, 78) as u32,
                        ul_code_page_range2: be_u32(data, 82) as u32,
                    })
                } else {
                    None
                },
                version2to4: if be_u16(data, 0) >= 2 {
                    Some(Version2to4 {
                        sx_height: be_i16(data, 86) as i16,
                        s_cap_height: be_i16(data, 88) as i16,
                        us_default_char: be_u16(data, 90) as u16,
                        us_break_char: be_u16(data, 92) as u16,
                        us_max_context: be_u16(data, 94) as u16,
                    })
                } else {
                    None
                },
                version5: if be_u16(data, 0) >= 5 {
                    Some(Version5 {
                        us_lower_optical_point_size: be_u16(data, 96) as u16,
                        us_upper_optical_point_size: be_u16(data, 98) as u16,
                    })
                } else {
                    None
                },
            },
        )
    }
}

impl Os2 {
    /// Reads the `OS/2` table in `data`.
    pub fn read(data: &[u8]) -> (r: Result<Os2, ParseError>)
        ensures
            r == spec_os2(data@),
    {
        let len: usize = data.len();
        if len < 68 {
            return Err(ParseError::BadEof);
        }
        let version: u16 = u16_at(data, 0);
        if (version >= 5 && len < 100) || (version >= 2 && len < 96) || (version >= 1 && len < 86) {
            return Err(ParseError::BadEof);
        }
        let version0 = if len >= 78 {
            Some(Version0 {
                s_typo_ascender: i16_at(data, 68),
                s_typo_descender: i16_at(data, 70),
                s_typo_line_gap: i16_at(data, 72),
                us_win_ascent: u16_at(data, 74),
                us_win_descent: u16_at(data, 76),
            })
        } else {
            None
        };
        let version1 = if version >= 1 {
            Some(Version1 {
                ul_code_page_range1: u32_at(data, 78),
                ul_code_page_range2: u32_at(data, 82),
            })
        } else {
            None
        };
        let version2to4 = if version >= 2 {
            Some(Version2to4 {
                sx_height: i16_at(data, 86),
                s_cap_height: i16_at(data, 88),
                us_default_char: u16_at(data, 90),
                us_break_char: u16_at(data, 92),
                us_max_context: u16_at(data, 94),
            })
        } else {
            None
        };
        let version5 = if version >= 5 {
            Some(Version5 {
                us_lower_optical_point_size: u16_at(data, 96),
                us_upper_optical_point_size: u16_at(data, 98),
            })
        } else {
            None
        };
        Ok(
            Os2 {
                version: u16_at(data, 0),
                x_avg_char_width: i16_at(data, 2),
                us_weight_class: u16_at(data, 4),
                us_width_class: u16_at(data, 6),
                fs_type: u16_at(data, 8),
                y_subscript_x_size: i16_at(data, 10),
                y_subscript_y_size: i16_at(data, 12),
                y_subscript_x_offset: i16_at(data, 14),
                y_subscript_y_offset: i16_at(data, 16),
                y_superscript_x_size: i16_at(data, 18),
                y_superscript_y_size: i16_at(data, 20),
                y_superscript_x_offset: i16_at(data, 22),
                y_superscript_y_offset: i16_at(data, 24),
                y_strikeout_size: i16_at(data, 26),
                y_strikeout_position: i16_at(data, 28),
                s_family_class: i16_at(data, 30),
                panose_0: u8_at(data, 32),
                panose_1: u8_at(data, 33),
                panose_2: u8_at(data, 34),
                panose_3: u8_at(data, 35),
                panose_4: u8_at(data, 36),
                panose_5: u8_at(data, 37),
                panose_6: u8_at(data, 38),
                panose_7: u8_at(data, 39),
                panose_8: u8_at(data, 40),
                panose_9: u8_at(data, 41),
                ul_unicode_range1: u32_at(data, 42),
                ul_unicode_range2: u32_at(data, 46),
                ul_unicode_range3: u32_at(data, 50),
                ul_unicode_range4: u32_at(data, 54),
                ach_vend_id: u32_at(data, 58),
                fs_selection: u16_at(data, 62),
                us_first_char_index: u16_at(data, 64),
                us_last_char_index: u16_at(data, 66),
                version0,
                version1,
                version2to4,
                version5,
            },
        )
    }
}

} // verus!

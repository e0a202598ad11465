//! One subtable of a `cmap` table: the map from character codes to glyphs.
//!
//! Five formats are understood: 0 (one byte for each of 256 codes), 4
//! (segments of 16-bit codes), 6 (one run of 16-bit codes), 10 (one run of
//! 32-bit codes) and 12 (groups of 32-bit codes).

use vstd::prelude::*;
use crate::binary::{be_i16, be_u16, be_u32, i16_at, u16_at, u32_at, u8_at};
use crate::error::ParseError;

verus! {

/// The format of a subtable.
#[derive(Clone, Copy, Debug, PartialEq, Eq, Structural)]
pub enum SubtableFormat {
    Format0,
    Format4,
    Format6,
    Format10,
    Format12,
}

/// A subtable whose arrays are known to lie inside its bytes.
#[derive(Clone, Copy, Debug)]
pub struct CmapSubtable<'a> {
    format: SubtableFormat,
    data: &'a [u8],
}

/// The format that a subtable says it has; `BadVersion` for one that is
/// not understood.
pub open spec fn spec_format(data: Seq<u8>) -> Result<SubtableFormat, ParseError> {
    if data.len() < 2 {
        Err(ParseError::BadEof)
    } else if be_u16(data, 0) == 0 {
        Ok(SubtableFormat::Format0)
    } else if be_u16(data, 0) == 4 {
        Ok(SubtableFormat::Format4)
    } else if be_u16(data, 0) == 6 {
        Ok(SubtableFormat::Format6)
    } else if be_u16(data, 0) == 10 {
        Ok(SubtableFormat::Format10)
    } else if be_u16(data, 0) == 12 {
        Ok(SubtableFormat::Format12)
    } else {
        Err(ParseError::BadVersion)
    }
}

/// The number of segments of a subtable of format 4.
pub open spec fn seg_count(data: Seq<u8>) -> int {
    be_u16(data, 6) / 2
}

/// How many bytes a subtable of the given format needs for its header and
/// the arrays that its header announces. The header itself is the part
/// before the first array.
pub open spec fn header_len(format: SubtableFormat) -> int {
    match format {
        SubtableFormat::Format0 => 6,
        SubtableFormat::Format4 => 16,
        SubtableFormat::Format6 => 10,
        SubtableFormat::Format10 => 20,
        SubtableFormat::Format12 => 16,
    }
}

/// How many bytes the arrays of a subtable take, by what its header says.
pub open spec fn arrays_len(format: SubtableFormat, data: Seq<u8>) -> int {
    match format {
        SubtableFormat::Format0 => 256,
        SubtableFormat::Format4 => 8 * seg_count(data),
        SubtableFormat::Format6 => 2 * be_u16(data, 8),
        SubtableFormat::Format10 => 2 * be_u32(data, 16),
        SubtableFormat::Format12 => 12 * be_u32(data, 12),
    }
}

/// Whether the bytes hold the header and the arrays of the format.
pub open spec fn fits(format: SubtableFormat, data: Seq<u8>) -> bool {
    &&& header_len(format) <= data.len()
    &&& header_len(format) + arrays_len(format, data) <= data.len()
}

/// A glyph id as the result of a lookup: glyph 0 stands for no glyph.
pub open spec fn spec_mapped(glyph: int) -> Option<u16> {
    if glyph == 0 {
        None
    } else {
        Some(glyph as u16)
    }
}

/// The glyph that segment `i` of a format 4 subtable gives to `code`, which
/// lies in the segment. It is the code plus the segment's delta, or an
/// entry of the glyph array, found from the place of the segment's range
/// offset, plus that delta; both modulo 65536. `BadIndex` where the entry
/// lies outside the subtable.
pub open spec fn spec_segment_glyph(data: Seq<u8>, i: int, code: int) -> Result<
    Option<u16>,
    ParseError,
> {
    let n = seg_count(data);
    let start = be_u16(data, 16 + 2 * n + 2 * i);
    let delta = be_u16(data, 16 + 4 * n + 2 * i);
    let range_at = 16 + 6 * n + 2 * i;
    let entry_at = range_at + be_u16(data, range_at) + 2 * (code - start);
    if be_u16(data, range_at) == 0 {
        Ok(spec_mapped((code + delta) % 0x10000))
    } else if entry_at + 2 > data.len() {
        Err(ParseError::BadIndex)
    } else if be_u16(data, entry_at) == 0 {
        Ok(None)
    } else {
        Ok(spec_mapped((be_u16(data, entry_at) + delta) % 0x10000))
    }
}

/// The glyph for `code` in a format 4 subtable, by its segments from
/// number `i` on: the first segment that ends at or after the code decides.
/// It maps the code where it starts at or before it.
pub open spec fn spec_map_format4(data: Seq<u8>, code: int, i: int) -> Result<
    Option<u16>,
    ParseError,
>
    decreases seg_count(data) - i,
{
    let n = seg_count(data);
    if i < 0 || i >= n {
        Ok(None)
    } else if be_u16(data, 14 + 2 * i) >= code {
        if be_u16(data, 16 + 2 * n + 2 * i) <= code {
            spec_segment_glyph(data, i, code)
        } else {
            Ok(None)
        }
    } else {
        spec_map_format4(data, code, i + 1)
    }
}

/// The glyph for `code` in a format 12 subtable, by its groups from number
/// `i` on: the first group that holds the code maps it, to the group's
/// first glyph plus the code's place in the group. `BadValue` where that is
/// no glyph id.
pub open spec fn spec_map_format12(data: Seq<u8>, code: int, i: int) -> Result<
    Option<u16>,
    ParseError,
>
    decreases be_u32(data, 12) - i,
{
    let at = 16 + 12 * i;
    if i < 0 || i >= be_u32(data, 12) {
        Ok(None)
    } else if be_u32(data, at) <= code <= be_u32(data, at + 4) {
        if be_u32(data, at + 8) + (code - be_u32(data, at)) > 0xFFFF {
            Err(ParseError::BadValue)
        } else {
            Ok(spec_mapped(be_u32(data, at + 8) + (code - be_u32(data, at))))
        }
    } else {
        spec_map_format12(data, code, i + 1)
    }
}

/// The glyph that a subtable maps `code` to: `None` where it maps the code
/// to no glyph, or to glyph 0.
pub open spec fn spec_map_glyph(format: SubtableFormat, data: Seq<u8>, code: u32) -> Result<
    Option<u16>,
    ParseError,
> {
    match format {
        SubtableFormat::Format0 => if code < 256 {
            Ok(spec_mapped(data[6 + code] as int))
        } else {
            Ok(None)
        },
        SubtableFormat::Format4 => if code <= 0xFFFF {
            spec_map_format4(data, code as int, 0)
        } else {
            Ok(None)
        },
        SubtableFormat::Format6 => if be_u16(data, 6) <= code < be_u16(data, 6) + be_u16(data, 8) {
            Ok(spec_mapped(be_u16(data, 10 + 2 * (code - be_u16(data, 6)))))
        } else {
            Ok(None)
        },
        SubtableFormat::Format10 => if be_u32(data, 12) <= code < be_u32(data, 12) + be_u32(
            data,
            16,
        ) {
            Ok(spec_mapped(be_u16(data, 20 + 2 * (code - be_u32(data, 12)))))
        } else {
            Ok(None)
        },
        SubtableFormat::Format12 => spec_map_format12(data, code as int, 0),
    }
}

/// The subtable in `data`: its format, where the format is understood and
/// the bytes hold all its arrays; `BadEof` where they do not.
pub open spec fn spec_subtable(data: Seq<u8>) -> Result<SubtableFormat, ParseError> {
    match spec_format(data) {
        Err(e) => Err(e),
        Ok(format) => if fits(format, data) {
            Ok(format)
        } else {
            Err(ParseError::BadEof)
        },
    }
}

/// One more than the largest code that a subtable of the format can map.
pub open spec fn spec_code_limit(format: SubtableFormat) -> int {
    match format {
        SubtableFormat::Format0 => 0x100,
        SubtableFormat::Format4 => 0x10000,
        SubtableFormat::Format6 => 0x10000,
        SubtableFormat::Format10 => 0x110000,
        SubtableFormat::Format12 => 0x110000,
    }
}

/// A glyph id as the result of a lookup.
fn mapped(glyph: u16) -> (r: Option<u16>)
    ensures
        r == spec_mapped(glyph as int),
{
    if glyph == 0 {
        None
    } else {
        Some(glyph)
    }
}

/// The sum of a code or glyph id and a delta, modulo 65536.
fn wrapping_sum(a: u16, b: u16) -> (r: u16)
    ensures
        r == (a + b) % 0x10000,
{
    let sum: u32 = a as u32 + b as u32;
    if sum >= 0x10000 {
        (sum - 0x10000) as u16
    } else {
        sum as u16
    }
}

impl<'a> CmapSubtable<'a> {
    #[verifier::type_invariant]
    spec fn inv(&self) -> bool {
        fits(self.format, self.data@)
    }

    /// The format of the subtable.
    pub closed spec fn kind(&self) -> SubtableFormat {
        self.format
    }

    /// The bytes of the subtable.
    pub closed spec fn bytes(&self) -> Seq<u8> {
        self.data@
    }

    /// Reads the subtable that starts at the first byte of `data`.
    pub fn read(data: &'a [u8]) -> (r: Result<CmapSubtable<'a>, ParseError>)
        ensures
            match r {
                Ok(subtable) => spec_subtable(data@) == Ok::<SubtableFormat, ParseError>(
                    subtable.kind(),
                ) && subtable.bytes() == data@,
                Err(e) => spec_subtable(data@) == Err::<SubtableFormat, ParseError>(e),
            },
    {
        let len: usize = data.len();
        if len < 2 {
            return Err(ParseError::BadEof);
        }
        let tag: u16 = u16_at(data, 0);
        if tag == 0 {
            if len < 262 {
                return Err(ParseError::BadEof);
            }
            Ok(CmapSubtable { format: SubtableFormat::Format0, data })
        } else if tag == 4 {
            if len < 16 {
                return Err(ParseError::BadEof);
            }
            let n: usize = (u16_at(data, 6) / 2) as usize;
            if (len - 16) / 8 < n {
                return Err(ParseError::BadEof);
            }
            Ok(CmapSubtable { format: SubtableFormat::Format4, data })
        } else if tag == 6 {
            if len < 10 {
                return Err(ParseError::BadEof);
            }
            let n: usize = u16_at(data, 8) as usize;
            if (len - 10) / 2 < n {
                return Err(ParseError::BadEof);
            }
            Ok(CmapSubtable { format: SubtableFormat::Format6, data })
        } else if tag == 10 {
            if len < 20 {
                return Err(ParseError::BadEof);
            }
            let n: usize = u32_at(data, 16) as usize;
            if (len - 20) / 2 < n {
                return Err(ParseError::BadEof);
            }
            Ok(CmapSubtable { format: SubtableFormat::Format10, data })
        } else if tag == 12 {
            if len < 16 {
                return Err(ParseError::BadEof);
            }
            let n: usize = u32_at(data, 12) as usize;
            if (len - 16) / 12 < n {
                return Err(ParseError::BadEof);
            }
            Ok(CmapSubtable { format: SubtableFormat::Format12, data })
        } else {
            Err(ParseError::BadVersion)
        }
    }

    /// The format of the subtable.
    pub fn format(&self) -> (format: SubtableFormat)
        ensures
            format == self.kind(),
    {
        self.format
    }

    /// The bytes of the subtable.
    pub fn data(&self) -> (data: &'a [u8])
        ensures
            data@ == self.bytes(),
    {
        self.data
    }

    /// One more than the largest code that the subtable can map.
    pub fn code_limit(&self) -> (r: u32)
        ensures
            r == spec_code_limit(self.kind()),
    {
        match self.format {
            SubtableFormat::Format0 => 0x100,
            SubtableFormat::Format4 => 0x10000,
            SubtableFormat::Format6 => 0x10000,
            SubtableFormat::Format10 => 0x110000,
            SubtableFormat::Format12 => 0x110000,
        }
    }

    /// The glyph that the subtable maps `code` to.
    pub fn map_glyph(&self, code: u32) -> (r: Result<Option<u16>, ParseError>)
        ensures
            r == spec_map_glyph(self.kind(), self.bytes(), code),
    {
        proof {
            use_type_invariant(self);
        }
        let data = self.data;
        let len: usize = data.len();
        match self.format {
            SubtableFormat::Format0 => {
                if code < 256 {
                    Ok(mapped(u8_at(data, 6 + code as usize) as u16))
                } else {
                    Ok(None)
                }
            },
            SubtableFormat::Format4 => {
                if code <= 0xFFFF {
                    self.map_format4(code as u16)
                } else {
                    Ok(None)
                }
            },
            SubtableFormat::Format6 => {
                let first: u32 = u16_at(data, 6) as u32;
                let count: u32 = u16_at(data, 8) as u32;
                if first <= code && code < first + count {
                    Ok(mapped(u16_at(data, 10 + 2 * ((code - first) as usize))))
                } else {
                    Ok(None)
                }
            },
            SubtableFormat::Format10 => {
                let first: u64 = u32_at(data, 12) as u64;
                let count: u64 = u32_at(data, 16) as u64;
                if first <= code as u64 && (code as u64) < first + count {
                    Ok(mapped(u16_at(data, 20 + 2 * ((code as u64 - first) as usize))))
                } else {
                    Ok(None)
                }
            },
            SubtableFormat::Format12 => self.map_format12(code),
        }
    }

    /// The glyph that segment `i` of a subtable of format 4 gives to `code`.
    fn segment_glyph(&self, i: usize, code: u16) -> (r: Result<Option<u16>, ParseError>)
        requires
            fits(self.format, self.data@),
            self.format == SubtableFormat::Format4,
            i < seg_count(self.data@),
            be_u16(self.data@, 16 + 2 * seg_count(self.data@) + 2 * i) <= code,
        ensures
            r == spec_segment_glyph(self.data@, i as int, code as int),
    {
        let data = self.data;
        let len: usize = data.len();
        let n: usize = (u16_at(data, 6) / 2) as usize;
        let start: u16 = u16_at(data, 16 + 2 * n + 2 * i);
        let delta: u16 = u16_at(data, 16 + 4 * n + 2 * i);
        let range_at: usize = 16 + 6 * n + 2 * i;
        let range: u16 = u16_at(data, range_at);
        if range == 0 {
            return Ok(mapped(wrapping_sum(code, delta)));
        }
        let entry_at: u64 = range_at as u64 + range as u64 + 2 * ((code - start) as u64);
        if entry_at + 2 > len as u64 {
            return Err(ParseError::BadIndex);
        }
        let glyph: u16 = u16_at(data, entry_at as usize);
        if glyph == 0 {
            return Ok(None);
        }
        Ok(mapped(wrapping_sum(glyph, delta)))
    }

    /// The glyph for `code` in a subtable of format 4.
    fn map_format4(&self, code: u16) -> (r: Result<Option<u16>, ParseError>)
        requires
            fits(self.format, self.data@),
            self.format == SubtableFormat::Format4,
        ensures
            r == spec_map_format4(self.data@, code as int, 0),
    {
        let data = self.data;
        let len: usize = data.len();
        let n: usize = (u16_at(data, 6) / 2) as usize;
        let mut i: usize = 0;
        while i < n
            invariant
                i <= n,
                fits(self.format, self.data@),
                self.format == SubtableFormat::Format4,
                data@ == self.data@,
                n == seg_count(data@),
                len == data@.len(),
                16 + 8 * n <= len,
                spec_map_format4(data@, code as int, 0) == spec_map_format4(
                    data@,
                    code as int,
                    i as int,
                ),
            decreases n - i,
        {
            let end: u16 = u16_at(data, 14 + 2 * i);
            if end >= code {
                let start: u16 = u16_at(data, 16 + 2 * n + 2 * i);
                if start > code {
                    return Ok(None);
                }
                return self.segment_glyph(i, code);
            }
            i += 1;
        }
        Ok(None)
    }

    /// The glyph for `code` in a subtable of format 12.
    fn map_format12(&self, code: u32) -> (r: Result<Option<u16>, ParseError>)
        requires
            fits(self.format, self.data@),
            self.format == SubtableFormat::Format12,
        ensures
            r == spec_map_format12(self.data@, code as int, 0),
    {
        let data = self.data;
        let len: usize = data.len();
        let n: usize = u32_at(data, 12) as usize;
        let mut i: usize = 0;
        while i < n
            invariant
                i <= n,
                data@ == self.data@,
                n == be_u32(data@, 12),
                len == data@.len(),
                16 + 12 * n <= len,
                spec_map_format12(data@, code as int, 0) == spec_map_format12(
                    data@,
                    code as int,
                    i as int,
                ),
            decreases n - i,
        {
            let at: usize = 16 + 12 * i;
            let start: u32 = u32_at(data, at);
            let end: u32 = u32_at(data, at + 4);
            if start <= code && code <= end {
                let glyph: u64 = u32_at(data, at + 8) as u64 + (code - start) as u64;
                if glyph > 0xFFFF {
                    return Err(ParseError::BadValue);
                }
                return Ok(mapped(glyph as u16));
            }
            i += 1;
        }
        Ok(None)
    }
}

} // verus!

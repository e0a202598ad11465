//! The `post` table: PostScript information, and the names of the glyphs.
//!
//! Version 1.0 names the glyphs by the standard Macintosh glyph names, in
//! their order. Version 2.0 has a number for each glyph: below 258 it is
//! the number of a standard name, from 258 on it counts the names that the
//! table itself holds, one after the other, each as its length in a byte
//! and that many characters. Version 3.0 has no names.

use vstd::prelude::*;
use crate::binary::{be_i16, be_i32, be_u16, be_u32, i16_at, i32_at, u16_at, u32_at, u8_at};
use crate::error::ParseError;
use crate::glyph_names::{mac_glyph_name, spec_mac_glyph_name, MAC_NAME_COUNT};
use vstd::string::StringExecFns;

verus! {

/// Version 1.0 of the table.
pub const VERSION_1: u32 = 0x00010000;

/// Version 2.0 of the table.
pub const VERSION_2: u32 = 0x00020000;

/// Version 2.5 of the table, which is no longer in use.
pub const VERSION_2_5: u32 = 0x00025000;

/// Version 3.0 of the table.
pub const VERSION_3: u32 = 0x00030000;

/// The fields that every version of the table starts with.
#[derive(Clone, Copy, Debug, PartialEq, Eq, Structural)]
pub struct PostHeader {
    pub version: u32,
    pub italic_angle: i32,
    pub underline_position: i16,
    pub underline_thickness: i16,
    pub is_fixed_pitch: u32,
}

/// Whether `version` is one of the four versions of the table.
pub open spec fn version_known(version: int) -> bool {
    version == VERSION_1 || version == VERSION_2 || version == VERSION_2_5 || version == VERSION_3
}

/// The header of the `post` table in `data`. `BadEof` where the data is
/// shorter than the 32 bytes of the header, or, in version 2.0, than the
/// numbers of its glyphs; `BadVersion` for a version that is not known.
pub open spec fn spec_post_header(data: Seq<u8>) -> Result<PostHeader, ParseError> {
    if data.len() < 32 {
        Err(ParseError::BadEof)
    } else if !version_known(be_u32(data, 0)) {
        Err(ParseError::BadVersion)
    } else if be_u32(data, 0) == VERSION_2 && (data.len() < 34 || data.len() < 34 + 2 * be_u16(
        data,
        32,
    )) {
        Err(ParseError::BadEof)
    } else {
        Ok(
            PostHeader {
                version: be_u32(data, 0) as u32,
                italic_angle: be_i32(data, 4) as i32,
                underline_position: be_i16(data, 8) as i16,
                underline_thickness: be_i16(data, 10) as i16,
                is_fixed_pitch: be_u32(data, 12) as u32,
            },
        )
    }
}

/// Where the name with the number `k` starts, counting from the name at
/// `at`: at its length byte. `None` where the data ends before that name
/// does.
pub open spec fn spec_name_start(data: Seq<u8>, at: int, k: nat) -> Option<int>
    decreases k,
{
    if at < 0 || at >= data.len() || at + 1 + data[at] > data.len() {
        None
    } else if k == 0 {
        Some(at)
    } else {
        spec_name_start(data, at + 1 + data[at], (k - 1) as nat)
    }
}

/// The text that `bytes` are in ASCII; `None` where one of them is not an
/// ASCII character.
pub open spec fn spec_ascii(bytes: Seq<u8>) -> Option<Seq<char>> {
    if forall|i: int| 0 <= i < bytes.len() ==> #[trigger] bytes[i] < 0x80 {
        Some(Seq::new(bytes.len(), |i: int| bytes[i] as char))
    } else {
        None
    }
}

/// The name that the `post` table in `data` has for `glyph`: `None` where
/// the table cannot be read, is of a version without names, or has no name
/// for the glyph.
pub open spec fn spec_post_name(data: Seq<u8>, glyph: u16) -> Option<Seq<char>> {
    let names_at = 34 + 2 * be_u16(data, 32);
    let number = be_u16(data, 34 + 2 * glyph);
    if spec_post_header(data) is Err {
        None
    } else if be_u32(data, 0) == VERSION_1 {
        if glyph < MAC_NAME_COUNT {
            Some(spec_mac_glyph_name(glyph))
        } else {
            None
        }
    } else if be_u32(data, 0) == VERSION_2 {
        if glyph >= be_u16(data, 32) {
            None
        } else if number < MAC_NAME_COUNT {
            Some(spec_mac_glyph_name(number as u16))
        } else {
            match spec_name_start(data, names_at, (number - MAC_NAME_COUNT) as nat) {
                None => None,
                Some(at) => spec_ascii(data.subrange(at + 1, at + 1 + data[at])),
            }
        }
    } else {
        None
    }
}

/// Wraps `String::push`: the character is appended to the text.
#[verifier::external_body]
fn push_char(text: &mut String, c: char)
    ensures
        final(text)@ == old(text)@.push(c),
{
    text.push(c)
}

/// The text that the bytes of `data` from `from` to `to` are in ASCII.
fn ascii(data: &[u8], from: usize, to: usize) -> (r: Option<String>)
    requires
        from <= to <= data@.len(),
    ensures
        match r {
            Some(text) => spec_ascii(data@.subrange(from as int, to as int)) == Some(text@),
            None => spec_ascii(data@.subrange(from as int, to as int)) is None,
        },
{
    let ghost bytes = data@.subrange(from as int, to as int);
    let mut text = String::new();
    let mut i: usize = from;
    while i < to
        invariant
            from <= i <= to <= data@.len(),
            bytes == data@.subrange(from as int, to as int),
            text@.len() == i - from,
            forall|k: int| 0 <= k < i - from ==> #[trigger] bytes[k] < 0x80,
            forall|k: int| 0 <= k < i - from ==> #[trigger] text@[k] == bytes[k] as char,
        decreases to - i,
    {
        let b: u8 = u8_at(data, i);
        assert(bytes[i - from] == b);
        if b >= 0x80 {
            return None;
        }
        push_char(&mut text, b as char);
        i += 1;
    }
    assert(text@ =~= Seq::new(bytes.len(), |i: int| bytes[i] as char));
    Some(text)
}

impl PostHeader {
    /// Reads the header of the `post` table in `data`.
    pub fn read(data: &[u8]) -> (r: Result<PostHeader, ParseError>)
        ensures
            r == spec_post_header(data@),
    {
        let len: usize = data.len();
        if len < 32 {
            return Err(ParseError::BadEof);
        }
        let version: u32 = u32_at(data, 0);
        if version != VERSION_1 && version != VERSION_2 && version != VERSION_2_5 && version
            != VERSION_3 {
            return Err(ParseError::BadVersion);
        }
        if version == VERSION_2 {
            if len < 34 {
                return Err(ParseError::BadEof);
            }
            let count: usize = u16_at(data, 32) as usize;
            if (len - 34) / 2 < count {
                return Err(ParseError::BadEof);
            }
        }
        Ok(
            PostHeader {
                version,
                italic_angle: i32_at(data, 4),
                underline_position: i16_at(data, 8),
                underline_thickness: i16_at(data, 10),
                is_fixed_pitch: u32_at(data, 12),
            },
        )
    }
}

/// Finds where the name with the number `k` starts, counting from the name
/// at `at`.
fn name_start(data: &[u8], first: usize, k: u16) -> (r: Option<usize>)
    ensures
        match r {
            Some(found) => spec_name_start(data@, first as int, k as nat) == Some(found as int)
                && found < data@.len() && found + 1 + data@[found as int] <= data@.len(),
            None => spec_name_start(data@, first as int, k as nat) is None,
        },
{
    let len: usize = data.len();
    let mut at: usize = first;
    let mut left: u16 = k;
    loop
        invariant
            len == data@.len(),
            spec_name_start(data@, first as int, k as nat) == spec_name_start(
                data@,
                at as int,
                left as nat,
            ),
        decreases left,
    {
        if at >= len {
            return None;
        }
        let count: usize = u8_at(data, at) as usize;
        if count > len - at - 1 {
            return None;
        }
        if left == 0 {
            return Some(at);
        }
        at = at + 1 + count;
        left = left - 1;
    }
}

/// The name that the `post` table in `data` has for `glyph`.
pub fn post_glyph_name(data: &[u8], glyph: u16) -> (r: Option<String>)
    ensures
        match r {
            Some(name) => spec_post_name(data@, glyph) == Some(name@),
            None => spec_post_name(data@, glyph) is None,
        },
{
    let len: usize = data.len();
    let header = match PostHeader::read(data) {
        Ok(header) => header,
        Err(_) => {
            return None;
        },
    };
    if header.version == VERSION_1 {
        if glyph < MAC_NAME_COUNT {
            Some(String::from_str(mac_glyph_name(glyph)))
        } else {
            None
        }
    } else if header.version == VERSION_2 {
        let count: u16 = u16_at(data, 32);
        if glyph >= count {
            return None;
        }
        let number: u16 = u16_at(data, 34 + 2 * (glyph as usize));
        if number < MAC_NAME_COUNT {
            return Some(String::from_str(mac_glyph_name(number)));
        }
        match name_start(data, 34 + 2 * (count as usize), number - MAC_NAME_COUNT) {
            None => None,
            Some(at) => {
                let length: usize = u8_at(data, at) as usize;
                ascii(data, at + 1, at + 1 + length)
            },
        }
    } else {
        None
    }
}

} // verus!

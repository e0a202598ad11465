//! Four-byte table tags, as big-endian integers.

use vstd::prelude::*;

verus! {

/// `CBDT`: color bitmap data.
pub const CBDT: u32 = 0x43424454;

/// `CBLC`: color bitmap location.
pub const CBLC: u32 = 0x43424C43;

/// `CFF `: compact font format outlines.
pub const CFF: u32 = 0x43464620;

/// `cmap`: character to glyph mapping.
pub const CMAP: u32 = 0x636D6170;

/// `GDEF`: glyph definitions.
pub const GDEF: u32 = 0x47444546;

/// `glyf`: glyph outlines.
pub const GLYF: u32 = 0x676C7966;

/// `GPOS`: glyph positioning.
pub const GPOS: u32 = 0x47504F53;

/// `GSUB`: glyph substitution.
pub const GSUB: u32 = 0x47535542;

/// `head`: font header.
pub const HEAD: u32 = 0x68656164;

/// `hhea`: horizontal header.
pub const HHEA: u32 = 0x68686561;

/// `hmtx`: horizontal metrics.
pub const HMTX: u32 = 0x686D7478;

/// `maxp`: maximum profile.
pub const MAXP: u32 = 0x6D617870;

/// `OS/2`: OS/2 and Windows metrics.
pub const OS_2: u32 = 0x4F532F32;

/// `post`: PostScript information.
pub const POST: u32 = 0x706F7374;

/// `sbix`: standard bitmap graphics.
pub const SBIX: u32 = 0x73626978;

/// `SVG `: SVG documents.
pub const SVG: u32 = 0x53564720;

/// `vhea`: vertical header.
pub const VHEA: u32 = 0x76686561;

/// `vmtx`: vertical metrics.
pub const VMTX: u32 = 0x766D7478;

/// `dupe`: the graphic type of an sbix record that points at another glyph.
pub const DUPE: u32 = 0x64757065;

/// `jpg `: the graphic type of JPEG data.
pub const JPG: u32 = 0x6A706720;

/// `png `: the graphic type of PNG data.
pub const PNG: u32 = 0x706E6720;

/// `tiff`: the graphic type of TIFF data.
pub const TIFF: u32 = 0x74696666;

} // verus!

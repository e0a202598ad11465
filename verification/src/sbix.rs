//! The `sbix` table: images in a common file format, one set for each of a
//! few sizes.
//!
//! The table starts with a version, flags, the number of strikes and the
//! offset of each strike. A strike starts with its size and resolution and
//! has one offset for each glyph and one more; the data of a glyph lies
//! between its offset and the next.

use vstd::prelude::*;
use vstd::slice::{slice_subrange, slice_to_vec};
use crate::binary::{
    be_i16,
    be_u16,
    be_u32,
    i16_at,
    read_u16_be,
    spec_read_u16_be,
    u16_at,
    u32_at,
};
use crate::bitmap::{
    find_strike,
    spec_find_strike,
    BitDepth,
    Bitmap,
    BitmapGlyph,
    BitmapGlyphView,
    BitmapView,
    EncapsulatedBitmap,
    EncapsulatedFormat,
    image_result_view,
    Metrics,
    OriginOffset,
    StrikeSize,
};
use crate::error::ParseError;
use crate::tag;

verus! {

/// One strike: its size in pixels per em, its resolution in pixels per
/// inch, and where in the table it starts.
#[derive(Clone, Copy, Debug, PartialEq, Eq, Structural)]
pub struct SbixStrike {
    pub ppem: u16,
    pub ppi: u16,
    pub offset: u32,
}

/// The directory of an `sbix` table. It holds places in the table's bytes,
/// not the bytes: every method that reads takes them as `data`.
pub struct SbixTable {
    pub flags: u16,
    pub num_glyphs: u16,
    pub strikes: Vec<SbixStrike>,
}

/// What an [`SbixTable`] holds.
pub struct SbixTableView {
    pub flags: u16,
    pub num_glyphs: u16,
    pub strikes: Seq<SbixStrike>,
}

impl View for SbixTable {
    type V = SbixTableView;

    open spec fn view(&self) -> SbixTableView {
        SbixTableView { flags: self.flags, num_glyphs: self.num_glyphs, strikes: self.strikes@ }
    }
}

/// The record of one glyph in one strike.
pub struct SbixGlyph<'a> {
    pub origin_offset_x: i16,
    pub origin_offset_y: i16,
    pub graphic_type: u32,
    pub data: &'a [u8],
}

/// What an [`SbixGlyph`] holds.
pub struct SbixGlyphView {
    pub origin_offset_x: i16,
    pub origin_offset_y: i16,
    pub graphic_type: u32,
    pub data: Seq<u8>,
}

impl<'a> View for SbixGlyph<'a> {
    type V = SbixGlyphView;

    open spec fn view(&self) -> SbixGlyphView {
        SbixGlyphView {
            origin_offset_x: self.origin_offset_x,
            origin_offset_y: self.origin_offset_y,
            graphic_type: self.graphic_type,
            data: self.data@,
        }
    }
}

/// The strike whose offset is entry `i` of the table's list of strikes.
pub open spec fn spec_strike(data: Seq<u8>, i: int) -> SbixStrike {
    let offset = be_u32(data, 8 + 4 * i);
    SbixStrike {
        ppem: be_u16(data, offset) as u16,
        ppi: be_u16(data, offset + 2) as u16,
        offset: offset as u32,
    }
}

/// How many bytes a strike takes up to the end of its glyph offsets.
pub open spec fn strike_header_len(num_glyphs: u16) -> int {
    4 + 4 * (num_glyphs + 1)
}

/// Whether strike `i` lies inside the table, as far as its glyph offsets.
pub open spec fn strike_in_bounds(data: Seq<u8>, num_glyphs: u16, i: int) -> bool {
    be_u32(data, 8 + 4 * i) + strike_header_len(num_glyphs) <= data.len()
}

/// The directory of the `sbix` table in `data`, for a font of `num_glyphs`
/// glyphs. `BadEof` where the table is too short for its header, its list
/// of strikes or one of the strikes; `BadVersion` where the version is not
/// 1.
pub open spec fn spec_sbix_table(data: Seq<u8>, num_glyphs: u16) -> Result<
    SbixTableView,
    ParseError,
> {
    if data.len() < 8 {
        Err(ParseError::BadEof)
    } else if be_u16(data, 0) != 1 {
        Err(ParseError::BadVersion)
    } else if data.len() < 8 + 4 * be_u32(data, 4) {
        Err(ParseError::BadEof)
    } else if exists|i: int| 0 <= i < be_u32(data, 4) && !strike_in_bounds(data, num_glyphs, i) {
        Err(ParseError::BadEof)
    } else {
        Ok(
            SbixTableView {
                flags: be_u16(data, 2) as u16,
                num_glyphs,
                strikes: Seq::new(be_u32(data, 4) as nat, |i: int| spec_strike(data, i)),
            },
        )
    }
}

/// The record of `glyph` in `strike`: `None` where the font has no such
/// glyph or the strike has no data for it. `BadOffset` where the data would
/// end before it starts, `BadEof` where it is too short for a record or
/// runs past the end of the table.
pub open spec fn spec_read_glyph(data: Seq<u8>, num_glyphs: u16, strike: SbixStrike, glyph: u16) -> Result<
    Option<SbixGlyphView>,
    ParseError,
> {
    let start = be_u32(data, strike.offset + 4 + 4 * glyph);
    let end = be_u32(data, strike.offset + 4 + 4 * (glyph + 1));
    if glyph >= num_glyphs {
        Ok(None)
    } else if end < start {
        Err(ParseError::BadOffset)
    } else if end == start {
        Ok(None)
    } else if end - start < 8 || strike.offset + end > data.len() {
        Err(ParseError::BadEof)
    } else {
        Ok(
            Some(
                SbixGlyphView {
                    origin_offset_x: be_i16(data, strike.offset + start) as i16,
                    origin_offset_y: be_i16(data, strike.offset + start + 2) as i16,
                    graphic_type: be_u32(data, strike.offset + start + 4) as u32,
                    data: data.subrange(strike.offset + start + 8, strike.offset + end),
                },
            ),
        )
    }
}

/// The format that a graphic type stands for.
pub open spec fn spec_format_of(graphic_type: u32) -> EncapsulatedFormat {
    if graphic_type == tag::JPG {
        EncapsulatedFormat::Jpeg
    } else if graphic_type == tag::PNG {
        EncapsulatedFormat::Png
    } else if graphic_type == tag::TIFF {
        EncapsulatedFormat::Tiff
    } else {
        EncapsulatedFormat::Other(graphic_type)
    }
}

/// The image that the record `glyph` of `strike` holds.
pub open spec fn spec_glyph_image(strike: SbixStrike, glyph: SbixGlyphView) -> BitmapGlyphView {
    BitmapGlyphView {
        bitmap: BitmapView::Encapsulated {
            format: spec_format_of(glyph.graphic_type),
            data: glyph.data,
        },
        metrics: Metrics::HmtxVmtx(
            OriginOffset { x: glyph.origin_offset_x, y: glyph.origin_offset_y },
        ),
        ppem_x: Some(strike.ppem),
        ppem_y: Some(strike.ppem),
        should_flip_hori: false,
        should_flip_vert: false,
    }
}

/// The sizes of the strikes. Every image of this table has 32 bits a pixel.
pub open spec fn spec_strike_sizes(strikes: Seq<SbixStrike>) -> Seq<StrikeSize> {
    Seq::new(
        strikes.len(),
        |i: int| StrikeSize { ppem: strikes[i].ppem, bit_depth: BitDepth::ThirtyTwo },
    )
}

/// The image of `glyph` at the size `target_ppem`.
///
/// The strike is chosen by size and depth. The record of the glyph in it
/// is the image, unless its graphic type is `dupe`: such a record holds the
/// id of another glyph, in two bytes, whose image is to be used. That
/// glyph is looked up in turn, with `dupe` set. With `dupe` set a record of
/// type `dupe` gives no image, so that at most one such record is followed.
pub open spec fn spec_lookup(
    data: Seq<u8>,
    table: SbixTableView,
    dupe: bool,
    glyph: u16,
    target_ppem: u16,
    max_bit_depth: BitDepth,
) -> Result<Option<BitmapGlyphView>, ParseError>
    decreases
            (if dupe {
                0int
            } else {
                1int
            }),
{
    match spec_find_strike(spec_strike_sizes(table.strikes), target_ppem as int, max_bit_depth) {
        None => Ok(None),
        Some(s) => match spec_read_glyph(data, table.num_glyphs, table.strikes[s], glyph) {
            Err(e) => Err(e),
            Ok(None) => Ok(None),
            Ok(Some(record)) => if record.graphic_type != tag::DUPE {
                Ok(Some(spec_glyph_image(table.strikes[s], record)))
            } else if dupe {
                Ok(None)
            } else {
                match spec_read_u16_be(record.data, 0) {
                    Err(e) => Err(e),
                    Ok(other) => spec_lookup(data, table, true, other, target_ppem, max_bit_depth),
                }
            },
        },
    }
}

impl SbixTable {
    /// Whether every strike lies inside `data`, as far as its glyph offsets.
    pub open spec fn wf(&self, data: Seq<u8>) -> bool {
        forall|i: int|
            0 <= i < self.strikes@.len() ==> (#[trigger] self.strikes@[i]).offset
                + strike_header_len(self.num_glyphs) <= data.len()
    }

    /// Reads the directory of the `sbix` table in `data`, for a font of
    /// `num_glyphs` glyphs.
    pub fn read(data: &[u8], num_glyphs: u16) -> (r: Result<SbixTable, ParseError>)
        ensures
            match r {
                Ok(table) => spec_sbix_table(data@, num_glyphs) == Ok::<SbixTableView, ParseError>(
                    table@,
                ) && table.wf(data@),
                Err(e) => spec_sbix_table(data@, num_glyphs) == Err::<SbixTableView, ParseError>(e),
            },
    {
        let len: usize = data.len();
        if len < 8 {
            return Err(ParseError::BadEof);
        }
        if u16_at(data, 0) != 1 {
            return Err(ParseError::BadVersion);
        }
        let flags: u16 = u16_at(data, 2);
        let count: u32 = u32_at(data, 4);
        if (len - 8) / 4 < count as usize {
            return Err(ParseError::BadEof);
        }
        let header_len: usize = 4 + 4 * (num_glyphs as usize + 1);
        let mut strikes: Vec<SbixStrike> = Vec::new();
        let mut i: usize = 0;
        while i < count as usize
            invariant
                i <= count,
                len == data@.len(),
                be_u16(data@, 0) == 1,
                count == be_u32(data@, 4),
                8 + 4 * count <= len,
                header_len == strike_header_len(num_glyphs),
                strikes@.len() == i,
                forall|k: int| 0 <= k < i ==> strike_in_bounds(data@, num_glyphs, k),
                forall|k: int|
                    0 <= k < i ==> #[trigger] strikes@[k] == spec_strike(data@, k)
                        && strikes@[k].offset + header_len <= len,
            decreases count - i,
        {
            let offset: u32 = u32_at(data, 8 + 4 * i);
            if len < header_len || offset as usize > len - header_len {
                assert(!strike_in_bounds(data@, num_glyphs, i as int));
                return Err(ParseError::BadEof);
            }
            let at: usize = offset as usize;
            strikes.push(SbixStrike { ppem: u16_at(data, at), ppi: u16_at(data, at + 2), offset });
            i += 1;
        }
        let table = SbixTable { flags, num_glyphs, strikes };
        assert(spec_sbix_table(data@, num_glyphs) is Ok);
        assert(table@.strikes =~= spec_sbix_table(data@, num_glyphs)->Ok_0.strikes);
        Ok(table)
    }

    /// The sizes of the strikes, in the order of the table.
    pub fn strike_sizes(&self) -> (sizes: Vec<StrikeSize>)
        ensures
            sizes@ == spec_strike_sizes(self.strikes@),
    {
        let mut sizes: Vec<StrikeSize> = Vec::new();
        let mut i: usize = 0;
        while i < self.strikes.len()
            invariant
                i <= self.strikes@.len(),
                sizes@.len() == i,
                forall|k: int|
                    0 <= k < i ==> #[trigger] sizes@[k] == (StrikeSize {
                        ppem: self.strikes@[k].ppem,
                        bit_depth: BitDepth::ThirtyTwo,
                    }),
            decreases self.strikes@.len() - i,
        {
            sizes.push(StrikeSize { ppem: self.strikes[i].ppem, bit_depth: BitDepth::ThirtyTwo });
            i += 1;
        }
        assert(sizes@ =~= spec_strike_sizes(self.strikes@));
        sizes
    }

    /// Chooses the strike for the size `target_ppem`, by the rule of
    /// [`find_strike`]. The images all have 32 bits a pixel, so no strike
    /// is found for a smaller `max_bit_depth`.
    pub fn find_strike(&self, target_ppem: u16, max_bit_depth: BitDepth) -> (r: Option<usize>)
        ensures
            r matches Some(i) ==> i < self.strikes@.len() && spec_find_strike(
                spec_strike_sizes(self.strikes@),
                target_ppem as int,
                max_bit_depth,
            ) == Some(i as int),
            r is None ==> spec_find_strike(
                spec_strike_sizes(self.strikes@),
                target_ppem as int,
                max_bit_depth,
            ) is None,
    {
        let sizes = self.strike_sizes();
        find_strike(&sizes, target_ppem, max_bit_depth)
    }

    /// Reads the record of `glyph` in strike `strike`.
    pub fn read_glyph<'a>(&self, data: &'a [u8], strike: usize, glyph: u16) -> (r: Result<
        Option<SbixGlyph<'a>>,
        ParseError,
    >)
        requires
            self.wf(data@),
            strike < self.strikes@.len(),
        ensures
            match r {
                Ok(Some(record)) => spec_read_glyph(
                    data@,
                    self.num_glyphs,
                    self.strikes@[strike as int],
                    glyph,
                ) == Ok::<Option<SbixGlyphView>, ParseError>(Some(record@)),
                Ok(None) => spec_read_glyph(
                    data@,
                    self.num_glyphs,
                    self.strikes@[strike as int],
                    glyph,
                ) == Ok::<Option<SbixGlyphView>, ParseError>(None),
                Err(e) => spec_read_glyph(
                    data@,
                    self.num_glyphs,
                    self.strikes@[strike as int],
                    glyph,
                ) == Err::<Option<SbixGlyphView>, ParseError>(e),
            },
    {
        if glyph >= self.num_glyphs {
            return Ok(None);
        }
        let len: usize = data.len();
        let base: usize = self.strikes[strike].offset as usize;
        let at: usize = base + 4 + 4 * (glyph as usize);
        let start: u32 = u32_at(data, at);
        let end: u32 = u32_at(data, at + 4);
        if end < start {
            return Err(ParseError::BadOffset);
        }
        if end == start {
            return Ok(None);
        }
        if end - start < 8 || end as usize > len - base {
            return Err(ParseError::BadEof);
        }
        let from: usize = base + start as usize;
        let to: usize = base + end as usize;
        Ok(
            Some(
                SbixGlyph {
                    origin_offset_x: i16_at(data, from),
                    origin_offset_y: i16_at(data, from + 2),
                    graphic_type: u32_at(data, from + 4),
                    data: slice_subrange(data, from + 8, to),
                },
            ),
        )
    }

    /// Looks up the image of `glyph` at the size `target_ppem`, following
    /// at most one record of type `dupe`: see [`spec_lookup`].
    pub fn lookup(
        &self,
        data: &[u8],
        dupe: bool,
        glyph: u16,
        target_ppem: u16,
        max_bit_depth: BitDepth,
    ) -> (r: Result<Option<BitmapGlyph>, ParseError>)
        requires
            self.wf(data@),
        ensures
            image_result_view(r) == spec_lookup(
                data@,
                self@,
                dupe,
                glyph,
                target_ppem,
                max_bit_depth,
            ),
        decreases
                (if dupe {
                    0int
                } else {
                    1int
                }),
    {
        match self.find_strike(target_ppem, max_bit_depth) {
            None => Ok(None),
            Some(s) => match self.read_glyph(data, s, glyph)? {
                None => Ok(None),
                Some(record) => if record.graphic_type != tag::DUPE {
                    Ok(Some(glyph_image(&self.strikes[s], &record)))
                } else if dupe {
                    Ok(None)
                } else {
                    let other: u16 = read_u16_be(record.data, 0)?;
                    self.lookup(data, true, other, target_ppem, max_bit_depth)
                },
            },
        }
    }
}

/// The format that a graphic type stands for.
pub fn format_of(graphic_type: u32) -> (format: EncapsulatedFormat)
    ensures
        format == spec_format_of(graphic_type),
{
    if graphic_type == tag::JPG {
        EncapsulatedFormat::Jpeg
    } else if graphic_type == tag::PNG {
        EncapsulatedFormat::Png
    } else if graphic_type == tag::TIFF {
        EncapsulatedFormat::Tiff
    } else {
        EncapsulatedFormat::Other(graphic_type)
    }
}

/// The image that the record `glyph` of `strike` holds, with a copy of its
/// data.
pub fn glyph_image(strike: &SbixStrike, glyph: &SbixGlyph<'_>) -> (image: BitmapGlyph)
    ensures
        image@ == spec_glyph_image(*strike, glyph@),
{
    BitmapGlyph {
        bitmap: Bitmap::Encapsulated(
            EncapsulatedBitmap {
                format: format_of(glyph.graphic_type),
                data: slice_to_vec(glyph.data),
            },
        ),
        metrics: Metrics::HmtxVmtx(
            OriginOffset { x: glyph.origin_offset_x, y: glyph.origin_offset_y },
        ),
        ppem_x: Some(strike.ppem),
        ppem_y: Some(strike.ppem),
        should_flip_hori: false,
        should_flip_vert: false,
    }
}

/// The record of `glyph` in the strike chosen for the size `target_ppem`;
/// `None` where no strike is chosen.
pub open spec fn spec_record(
    data: Seq<u8>,
    table: SbixTableView,
    glyph: u16,
    target_ppem: u16,
    max_bit_depth: BitDepth,
) -> Result<Option<SbixGlyphView>, ParseError> {
    match spec_find_strike(spec_strike_sizes(table.strikes), target_ppem as int, max_bit_depth) {
        None => Ok(None),
        Some(s) => spec_read_glyph(data, table.num_glyphs, table.strikes[s], glyph),
    }
}

/// Whether the record of `glyph` is of type `dupe` and names `other`.
pub open spec fn is_dupe_of(
    data: Seq<u8>,
    table: SbixTableView,
    glyph: u16,
    other: u16,
    target_ppem: u16,
    max_bit_depth: BitDepth,
) -> bool {
    &&& spec_record(data, table, glyph, target_ppem, max_bit_depth) matches Ok(Some(record))
    &&& record.graphic_type == tag::DUPE
    &&& spec_read_u16_be(record.data, 0) == Ok::<u16, ParseError>(other)
}

/// Whether `glyph` has a record and whether that record is of type `dupe`.
pub open spec fn has_record(
    data: Seq<u8>,
    table: SbixTableView,
    glyph: u16,
    dupe: bool,
    target_ppem: u16,
    max_bit_depth: BitDepth,
) -> bool {
    &&& spec_record(data, table, glyph, target_ppem, max_bit_depth) matches Ok(Some(record))
    &&& (record.graphic_type == tag::DUPE) == dupe
}

/// A glyph whose record is of type `dupe` has the image of the glyph that
/// the record names, where that glyph's own record is an image: looking up
/// the one gives what looking up the other gives, and that is an image.
pub proof fn lemma_dupe_resolves_to_target(
    data: Seq<u8>,
    table: SbixTableView,
    glyph: u16,
    other: u16,
    target_ppem: u16,
    max_bit_depth: BitDepth,
)
    requires
        is_dupe_of(data, table, glyph, other, target_ppem, max_bit_depth),
        has_record(data, table, other, false, target_ppem, max_bit_depth),
    ensures
        spec_lookup(data, table, false, glyph, target_ppem, max_bit_depth) == spec_lookup(
            data,
            table,
            false,
            other,
            target_ppem,
            max_bit_depth,
        ),
        spec_lookup(data, table, false, glyph, target_ppem, max_bit_depth) matches Ok(Some(_)),
{
    reveal_with_fuel(spec_lookup, 3);
}

/// A glyph whose record is of type `dupe` and names a glyph whose record
/// is of type `dupe` too has no image: only one such record is followed.
pub proof fn lemma_dupe_of_dupe_has_no_image(
    data: Seq<u8>,
    table: SbixTableView,
    glyph: u16,
    other: u16,
    target_ppem: u16,
    max_bit_depth: BitDepth,
)
    requires
        is_dupe_of(data, table, glyph, other, target_ppem, max_bit_depth),
        has_record(data, table, other, true, target_ppem, max_bit_depth),
    ensures
        spec_lookup(data, table, false, glyph, target_ppem, max_bit_depth) == Ok::<
            Option<BitmapGlyphView>,
            ParseError,
        >(None),
{
    reveal_with_fuel(spec_lookup, 3);
}

} // verus!

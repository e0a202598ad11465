//! The `SVG ` table: SVG documents, each for a range of glyphs.
//!
//! The header gives the place of the document list. The list has a count
//! and one entry of twelve bytes for each document: the first and the last
//! glyph it draws, and its offset from the start of the list and its
//! length.

use vstd::prelude::*;
use vstd::slice::{slice_subrange, slice_to_vec};
use crate::binary::{be_u16, be_u32, u16_at, u32_at, u8_at};
use crate::bitmap::{
    Bitmap,
    BitmapGlyph,
    BitmapGlyphView,
    BitmapView,
    EncapsulatedBitmap,
    EncapsulatedFormat,
    image_result_view,
    Metrics,
    OriginOffset,
};
use crate::error::ParseError;

verus! {

/// The directory of an `SVG ` table: where its document list starts and
/// how many entries that has.
#[derive(Clone, Copy, Debug, PartialEq, Eq, Structural)]
pub struct SvgTable {
    pub version: u16,
    pub document_list_offset: u32,
    pub num_entries: u16,
}

/// The document found for a glyph.
pub struct SvgRecord<'a> {
    pub start_glyph_id: u16,
    pub end_glyph_id: u16,
    pub document: &'a [u8],
}

/// What an [`SvgRecord`] holds.
pub struct SvgRecordView {
    pub start_glyph_id: u16,
    pub end_glyph_id: u16,
    pub document: Seq<u8>,
}

impl<'a> View for SvgRecord<'a> {
    type V = SvgRecordView;

    open spec fn view(&self) -> SvgRecordView {
        SvgRecordView {
            start_glyph_id: self.start_glyph_id,
            end_glyph_id: self.end_glyph_id,
            document: self.document@,
        }
    }
}

/// The directory of the `SVG ` table in `data`. `BadEof` where the data is
/// too short for its header or its document list, `BadVersion` where the
/// version is not 0.
pub open spec fn spec_svg_table(data: Seq<u8>) -> Result<SvgTable, ParseError> {
    let list = be_u32(data, 2);
    if data.len() < 10 {
        Err(ParseError::BadEof)
    } else if be_u16(data, 0) != 0 {
        Err(ParseError::BadVersion)
    } else if list + 2 > data.len() || list + 2 + 12 * be_u16(data, list) > data.len() {
        Err(ParseError::BadEof)
    } else {
        Ok(
            SvgTable {
                version: 0,
                document_list_offset: list as u32,
                num_entries: be_u16(data, list) as u16,
            },
        )
    }
}

/// The document of the first entry of the list, from number `k` on, whose
/// range of glyphs holds `glyph`. `BadOffset` where that document runs
/// past the end of the table.
pub open spec fn spec_scan_documents(data: Seq<u8>, table: SvgTable, glyph: u16, k: int) -> Result<
    Option<SvgRecordView>,
    ParseError,
>
    decreases table.num_entries - k,
{
    let at = table.document_list_offset + 2 + 12 * k;
    let start = table.document_list_offset + be_u32(data, at + 4);
    if k < 0 || k >= table.num_entries {
        Ok(None)
    } else if be_u16(data, at) <= glyph <= be_u16(data, at + 2) {
        if start + be_u32(data, at + 8) > data.len() {
            Err(ParseError::BadOffset)
        } else {
            Ok(
                Some(
                    SvgRecordView {
                        start_glyph_id: be_u16(data, at) as u16,
                        end_glyph_id: be_u16(data, at + 2) as u16,
                        document: data.subrange(start, start + be_u32(data, at + 8)),
                    },
                ),
            )
        }
    } else {
        spec_scan_documents(data, table, glyph, k + 1)
    }
}

/// Whether a document is compressed: it starts with the two bytes that
/// start a gzip file.
pub open spec fn is_compressed(document: Seq<u8>) -> bool {
    document.len() >= 2 && document[0] == 0x1F && document[1] == 0x8B
}

/// The image that a document is. A compressed document is not expanded:
/// `CompressionError`.
pub open spec fn spec_glyph_image(record: SvgRecordView) -> Result<BitmapGlyphView, ParseError> {
    if is_compressed(record.document) {
        Err(ParseError::CompressionError)
    } else {
        Ok(
            BitmapGlyphView {
                bitmap: BitmapView::Encapsulated {
                    format: EncapsulatedFormat::Svg,
                    data: record.document,
                },
                metrics: Metrics::HmtxVmtx(OriginOffset { x: 0, y: 0 }),
                ppem_x: None,
                ppem_y: None,
                should_flip_hori: false,
                should_flip_vert: false,
            },
        )
    }
}

/// The image of `glyph`: that of the first document whose range holds the
/// glyph, `None` where there is no such document.
pub open spec fn spec_lookup(data: Seq<u8>, table: SvgTable, glyph: u16) -> Result<
    Option<BitmapGlyphView>,
    ParseError,
> {
    match spec_scan_documents(data, table, glyph, 0) {
        Err(e) => Err(e),
        Ok(None) => Ok(None),
        Ok(Some(record)) => match spec_glyph_image(record) {
            Err(e) => Err(e),
            Ok(image) => Ok(Some(image)),
        },
    }
}

/// The view of a document that was looked up.
pub open spec fn record_result_view(r: Result<Option<SvgRecord<'_>>, ParseError>) -> Result<
    Option<SvgRecordView>,
    ParseError,
> {
    match r {
        Ok(Some(record)) => Ok(Some(record@)),
        Ok(None) => Ok(None),
        Err(e) => Err(e),
    }
}

impl SvgTable {
    /// Whether the document list lies inside `data`.
    pub open spec fn wf(&self, data: Seq<u8>) -> bool {
        self.document_list_offset + 2 + 12 * self.num_entries <= data.len()
    }

    /// Reads the directory of the `SVG ` table in `data`.
    pub fn read(data: &[u8]) -> (r: Result<SvgTable, ParseError>)
        ensures
            r == spec_svg_table(data@),
            r matches Ok(table) ==> table.wf(data@),
    {
        let len: usize = data.len();
        if len < 10 {
            return Err(ParseError::BadEof);
        }
        if u16_at(data, 0) != 0 {
            return Err(ParseError::BadVersion);
        }
        let list: u32 = u32_at(data, 2);
        if list as usize > len - 2 {
            return Err(ParseError::BadEof);
        }
        let num_entries: u16 = u16_at(data, list as usize);
        if (len - 2 - list as usize) / 12 < num_entries as usize {
            return Err(ParseError::BadEof);
        }
        Ok(SvgTable { version: 0, document_list_offset: list, num_entries })
    }

    /// Finds the document for `glyph`.
    pub fn lookup_glyph<'a>(&self, data: &'a [u8], glyph: u16) -> (r: Result<
        Option<SvgRecord<'a>>,
        ParseError,
    >)
        requires
            self.wf(data@),
        ensures
            record_result_view(r) == spec_scan_documents(data@, *self, glyph, 0),
    {
        let len: usize = data.len();
        let list: usize = self.document_list_offset as usize;
        let mut k: usize = 0;
        while k < self.num_entries as usize
            invariant
                k <= self.num_entries,
                len == data@.len(),
                list == self.document_list_offset,
                self.wf(data@),
                spec_scan_documents(data@, *self, glyph, 0) == spec_scan_documents(
                    data@,
                    *self,
                    glyph,
                    k as int,
                ),
            decreases self.num_entries - k,
        {
            let at: usize = list + 2 + 12 * k;
            let first: u16 = u16_at(data, at);
            let last: u16 = u16_at(data, at + 2);
            if first <= glyph && glyph <= last {
                let offset: u32 = u32_at(data, at + 4);
                let length: u32 = u32_at(data, at + 8);
                if offset as usize > len - list || length as usize > len - list - offset as usize {
                    return Err(ParseError::BadOffset);
                }
                let start: usize = list + offset as usize;
                return Ok(
                    Some(
                        SvgRecord {
                            start_glyph_id: first,
                            end_glyph_id: last,
                            document: slice_subrange(data, start, start + length as usize),
                        },
                    ),
                );
            }
            k += 1;
        }
        Ok(None)
    }

    /// Looks up the image of `glyph`.
    pub fn lookup(&self, data: &[u8], glyph: u16) -> (r: Result<Option<BitmapGlyph>, ParseError>)
        requires
            self.wf(data@),
        ensures
            image_result_view(r) == spec_lookup(data@, *self, glyph),
    {
        match self.lookup_glyph(data, glyph)? {
            None => Ok(None),
            Some(record) => {
                let image = glyph_image(&record)?;
                Ok(Some(image))
            },
        }
    }
}

/// The image that a document is, with a copy of it.
pub fn glyph_image(record: &SvgRecord<'_>) -> (r: Result<BitmapGlyph, ParseError>)
    ensures
        match r {
            Ok(image) => spec_glyph_image(record@) == Ok::<BitmapGlyphView, ParseError>(image@),
            Err(e) => spec_glyph_image(record@) == Err::<BitmapGlyphView, ParseError>(e),
        },
{
    let document = record.document;
    if document.len() >= 2 && u8_at(document, 0) == 0x1F && u8_at(document, 1) == 0x8B {
        return Err(ParseError::CompressionError);
    }
    Ok(
        BitmapGlyph {
            bitmap: Bitmap::Encapsulated(
                EncapsulatedBitmap { format: EncapsulatedFormat::Svg, data: slice_to_vec(document) },
            ),
            metrics: Metrics::HmtxVmtx(OriginOffset { x: 0, y: 0 }),
            ppem_x: None,
            ppem_y: None,
            should_flip_hori: false,
            should_flip_vert: false,
        },
    )
}

} // verus!

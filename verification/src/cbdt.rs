//! The `CBLC` and `CBDT` tables: color bitmaps in strikes.
//!
//! `CBLC` lists the strikes and says, through index subtables, where in
//! `CBDT` the image of each glyph lies. `CBDT` holds the images.

use vstd::prelude::*;
use vstd::slice::{slice_subrange, slice_to_vec};
use crate::binary::{be_u16, be_u32, u16_at, u32_at, u8_at};
use crate::bitmap::{
    find_strike,
    spec_find_strike,
    BigGlyphMetrics,
    BitDepth,
    Bitmap,
    BitmapGlyph,
    BitmapGlyphView,
    BitmapView,
    EmbeddedMetrics,
    EncapsulatedBitmap,
    EncapsulatedFormat,
    image_result_view,
    Metrics,
    SmallGlyphMetrics,
    StrikeSize,
};
use crate::error::ParseError;

verus! {

/// One strike of the location table: where its index subtables are, which
/// glyphs it may hold, its size and its depth.
#[derive(Clone, Copy, Debug, PartialEq, Eq, Structural)]
pub struct BitmapSize {
    pub index_subtable_array_offset: u32,
    pub number_of_index_subtables: u32,
    pub start_glyph_index: u16,
    pub end_glyph_index: u16,
    pub ppem_x: u8,
    pub ppem_y: u8,
    pub bit_depth: BitDepth,
    pub flags: u8,
}

/// The directory of a `CBLC` table.
pub struct CBLCTable {
    pub major_version: u16,
    pub minor_version: u16,
    pub bitmap_sizes: Vec<BitmapSize>,
}

/// What a [`CBLCTable`] holds.
pub struct CBLCTableView {
    pub major_version: u16,
    pub minor_version: u16,
    pub bitmap_sizes: Seq<BitmapSize>,
}

impl View for CBLCTable {
    type V = CBLCTableView;

    open spec fn view(&self) -> CBLCTableView {
        CBLCTableView {
            major_version: self.major_version,
            minor_version: self.minor_version,
            bitmap_sizes: self.bitmap_sizes@,
        }
    }
}

/// The header of a `CBDT` table.
#[derive(Clone, Copy, Debug, PartialEq, Eq, Structural)]
pub struct CBDTTable {
    pub major_version: u16,
    pub minor_version: u16,
}

/// The signed byte that `b` stands for, in two's complement.
pub open spec fn spec_i8(b: u8) -> int {
    if b < 0x80 {
        b as int
    } else {
        b - 0x100
    }
}

/// The signed byte that `b` stands for, in two's complement.
pub fn i8_of(b: u8) -> (v: i8)
    ensures
        v == spec_i8(b),
{
    if b < 0x80 {
        b as i8
    } else {
        (b as i16 - 0x100) as i8
    }
}

/// The depth stored in the strike record at `at`.
pub open spec fn spec_size_depth(data: Seq<u8>, at: int) -> Result<BitDepth, ParseError> {
    BitDepth::spec_from_bits(data[at + 46])
}

/// The strike record of 48 bytes at `at`, with the depth `bit_depth`.
pub open spec fn spec_bitmap_size(data: Seq<u8>, at: int, bit_depth: BitDepth) -> BitmapSize {
    BitmapSize {
        index_subtable_array_offset: be_u32(data, at) as u32,
        number_of_index_subtables: be_u32(data, at + 8) as u32,
        start_glyph_index: be_u16(data, at + 40) as u16,
        end_glyph_index: be_u16(data, at + 42) as u16,
        ppem_x: data[at + 44],
        ppem_y: data[at + 45],
        bit_depth,
        flags: data[at + 47],
    }
}

/// Whether the major version of a bitmap table is one that is understood.
pub open spec fn version_known(major: int) -> bool {
    major == 2 || major == 3
}

/// The directory of the `CBLC` table in `data`: a header of eight bytes
/// and one record of 48 bytes for each strike. `BadEof` where the data is
/// too short, `BadVersion` where the major version is neither 2 nor 3,
/// `BadValue` where a strike has a depth other than 1, 2, 4, 8 or 32.
pub open spec fn spec_cblc_table(data: Seq<u8>) -> Result<CBLCTableView, ParseError> {
    if data.len() < 8 {
        Err(ParseError::BadEof)
    } else if !version_known(be_u16(data, 0)) {
        Err(ParseError::BadVersion)
    } else if data.len() < 8 + 48 * be_u32(data, 4) {
        Err(ParseError::BadEof)
    } else if exists|i: int| 0 <= i < be_u32(data, 4) && (#[trigger] spec_size_depth(data, 8 + 48 * i)) is Err {
        Err(ParseError::BadValue)
    } else {
        Ok(
            CBLCTableView {
                major_version: be_u16(data, 0) as u16,
                minor_version: be_u16(data, 2) as u16,
                bitmap_sizes: Seq::new(
                    be_u32(data, 4) as nat,
                    |i: int|
                        spec_bitmap_size(
                            data,
                            8 + 48 * i,
                            spec_size_depth(data, 8 + 48 * i)->Ok_0,
                        ),
                ),
            },
        )
    }
}

/// The header of the `CBDT` table in `data`.
pub open spec fn spec_cbdt_table(data: Seq<u8>) -> Result<CBDTTable, ParseError> {
    if data.len() < 4 {
        Err(ParseError::BadEof)
    } else if !version_known(be_u16(data, 0)) {
        Err(ParseError::BadVersion)
    } else {
        Ok(
            CBDTTable {
                major_version: be_u16(data, 0) as u16,
                minor_version: be_u16(data, 2) as u16,
            },
        )
    }
}

/// The sizes of the strikes, by their horizontal size.
pub open spec fn spec_strike_sizes(sizes: Seq<BitmapSize>) -> Seq<StrikeSize> {
    Seq::new(
        sizes.len(),
        |i: int| StrikeSize { ppem: sizes[i].ppem_x as u16, bit_depth: sizes[i].bit_depth },
    )
}

/// An index subtable that covers a glyph: where it starts in the location
/// table, and the first glyph it covers.
pub struct IndexEntry {
    pub subtable: int,
    pub first_glyph: u16,
}

/// The first of the index subtables of `size`, from number `j` on, whose
/// range of glyphs holds `glyph`. `BadEof` where the list runs past the end
/// of the table before one is found.
pub open spec fn spec_scan_entries(cblc: Seq<u8>, size: BitmapSize, glyph: u16, j: int) -> Result<
    Option<IndexEntry>,
    ParseError,
>
    decreases size.number_of_index_subtables - j,
{
    let at = size.index_subtable_array_offset + 8 * j;
    if j < 0 || j >= size.number_of_index_subtables {
        Ok(None)
    } else if at + 8 > cblc.len() {
        Err(ParseError::BadEof)
    } else if be_u16(cblc, at) <= glyph <= be_u16(cblc, at + 2) {
        Ok(
            Some(
                IndexEntry {
                    subtable: size.index_subtable_array_offset + be_u32(cblc, at + 4),
                    first_glyph: be_u16(cblc, at) as u16,
                },
            ),
        )
    } else {
        spec_scan_entries(cblc, size, glyph, j + 1)
    }
}

/// Where the image of a glyph lies in the data table, in which format, and
/// the metrics that its index subtable gives for all its glyphs.
pub struct GlyphLocation {
    pub image_format: u16,
    pub start: int,
    pub end: int,
    pub metrics: Option<BigGlyphMetrics>,
}

/// The big metrics of eight bytes at `at`.
pub open spec fn spec_big_metrics(data: Seq<u8>, at: int) -> BigGlyphMetrics {
    BigGlyphMetrics {
        height: data[at],
        width: data[at + 1],
        hori_bearing_x: spec_i8(data[at + 2]) as i8,
        hori_bearing_y: spec_i8(data[at + 3]) as i8,
        hori_advance: data[at + 4],
        vert_bearing_x: spec_i8(data[at + 5]) as i8,
        vert_bearing_y: spec_i8(data[at + 6]) as i8,
        vert_advance: data[at + 7],
    }
}

/// The small metrics of five bytes at `at`.
pub open spec fn spec_small_metrics(data: Seq<u8>, at: int) -> SmallGlyphMetrics {
    SmallGlyphMetrics {
        height: data[at],
        width: data[at + 1],
        bearing_x: spec_i8(data[at + 2]) as i8,
        bearing_y: spec_i8(data[at + 3]) as i8,
        advance: data[at + 4],
    }
}

/// Where the index subtable `entry` puts the image of `glyph`, which it
/// covers. Format 1 has an offset of four bytes for each glyph and one
/// more, format 3 has offsets of two bytes, and format 2 has one size and
/// one set of metrics for all its glyphs. `None` where the image is empty.
/// `BadEof` where the subtable runs past the end of the table,
/// `NotImplemented` for any other format, `BadOffset` where the image would
/// end before it starts.
pub open spec fn spec_locate(cblc: Seq<u8>, entry: IndexEntry, glyph: u16) -> Result<
    Option<GlyphLocation>,
    ParseError,
> {
    let s = entry.subtable;
    let n = glyph - entry.first_glyph;
    let base = be_u32(cblc, s + 4);
    if s + 8 > cblc.len() {
        Err(ParseError::BadEof)
    } else if be_u16(cblc, s) == 1 {
        if s + 8 + 4 * (n + 2) > cblc.len() {
            Err(ParseError::BadEof)
        } else {
            spec_span(
                be_u16(cblc, s + 2) as u16,
                base + be_u32(cblc, s + 8 + 4 * n),
                base + be_u32(cblc, s + 8 + 4 * (n + 1)),
                None,
            )
        }
    } else if be_u16(cblc, s) == 2 {
        if s + 20 > cblc.len() {
            Err(ParseError::BadEof)
        } else {
            spec_span(
                be_u16(cblc, s + 2) as u16,
                base + be_u32(cblc, s + 8) * n,
                base + be_u32(cblc, s + 8) * (n + 1),
                Some(spec_big_metrics(cblc, s + 12)),
            )
        }
    } else if be_u16(cblc, s) == 3 {
        if s + 8 + 2 * (n + 2) > cblc.len() {
            Err(ParseError::BadEof)
        } else {
            spec_span(
                be_u16(cblc, s + 2) as u16,
                base + be_u16(cblc, s + 8 + 2 * n),
                base + be_u16(cblc, s + 8 + 2 * (n + 1)),
                None,
            )
        }
    } else {
        Err(ParseError::NotImplemented)
    }
}

/// The location from `start` to `end`: `None` where it is empty, `BadOffset`
/// where it ends before it starts.
pub open spec fn spec_span(
    image_format: u16,
    start: int,
    end: int,
    metrics: Option<BigGlyphMetrics>,
) -> Result<Option<GlyphLocation>, ParseError> {
    if end < start {
        Err(ParseError::BadOffset)
    } else if end == start {
        Ok(None)
    } else {
        Ok(Some(GlyphLocation { image_format, start, end, metrics }))
    }
}

/// The image at `location` in the data table, for a glyph of the strike
/// `size`. The formats understood hold a PNG file: format 17 after small
/// metrics, format 18 after big metrics, format 19 with the metrics of its
/// index subtable. Each has the length of the file in four bytes before
/// it. `BadEof` where the location or the file runs past its end,
/// `BadValue` where format 19 comes without metrics, `NotImplemented` for
/// any other format.
pub open spec fn spec_glyph_data(cbdt: Seq<u8>, size: BitmapSize, location: GlyphLocation) -> Result<
    BitmapGlyphView,
    ParseError,
> {
    let at = location.start;
    let len = location.end - location.start;
    if location.end > cbdt.len() {
        Err(ParseError::BadEof)
    } else if location.image_format == 17 {
        if len < 9 || be_u32(cbdt, at + 5) > len - 9 {
            Err(ParseError::BadEof)
        } else {
            Ok(
                spec_png(
                    size,
                    EmbeddedMetrics::Small(spec_small_metrics(cbdt, at)),
                    cbdt.subrange(at + 9, at + 9 + be_u32(cbdt, at + 5)),
                ),
            )
        }
    } else if location.image_format == 18 {
        if len < 12 || be_u32(cbdt, at + 8) > len - 12 {
            Err(ParseError::BadEof)
        } else {
            Ok(
                spec_png(
                    size,
                    EmbeddedMetrics::Big(spec_big_metrics(cbdt, at)),
                    cbdt.subrange(at + 12, at + 12 + be_u32(cbdt, at + 8)),
                ),
            )
        }
    } else if location.image_format == 19 {
        if len < 4 || be_u32(cbdt, at) > len - 4 {
            Err(ParseError::BadEof)
        } else {
            match location.metrics {
                None => Err(ParseError::BadValue),
                Some(metrics) => Ok(
                    spec_png(
                        size,
                        EmbeddedMetrics::Big(metrics),
                        cbdt.subrange(at + 4, at + 4 + be_u32(cbdt, at)),
                    ),
                ),
            }
        }
    } else {
        Err(ParseError::NotImplemented)
    }
}

/// The image made of the PNG file `data`, for a glyph of the strike `size`.
pub open spec fn spec_png(size: BitmapSize, metrics: EmbeddedMetrics, data: Seq<u8>) -> BitmapGlyphView {
    BitmapGlyphView {
        bitmap: BitmapView::Encapsulated { format: EncapsulatedFormat::Png, data },
        metrics: Metrics::Embedded(metrics),
        ppem_x: Some(size.ppem_x as u16),
        ppem_y: Some(size.ppem_y as u16),
        should_flip_hori: false,
        should_flip_vert: false,
    }
}

/// The image of `glyph` in the strike `size`: `None` where no index
/// subtable of the strike covers the glyph, or the one that does has an
/// empty image for it.
pub open spec fn spec_lookup(cblc: Seq<u8>, cbdt: Seq<u8>, size: BitmapSize, glyph: u16) -> Result<
    Option<BitmapGlyphView>,
    ParseError,
> {
    match spec_scan_entries(cblc, size, glyph, 0) {
        Err(e) => Err(e),
        Ok(None) => Ok(None),
        Ok(Some(entry)) => match spec_locate(cblc, entry, glyph) {
            Err(e) => Err(e),
            Ok(None) => Ok(None),
            Ok(Some(location)) => match spec_glyph_data(cbdt, size, location) {
                Err(e) => Err(e),
                Ok(image) => Ok(Some(image)),
            },
        },
    }
}

impl CBLCTable {
    /// Reads the directory of the `CBLC` table in `data`.
    pub fn read(data: &[u8]) -> (r: Result<CBLCTable, ParseError>)
        ensures
            match r {
                Ok(table) => spec_cblc_table(data@) == Ok::<CBLCTableView, ParseError>(table@),
                Err(e) => spec_cblc_table(data@) == Err::<CBLCTableView, ParseError>(e),
            },
    {
        let len: usize = data.len();
        if len < 8 {
            return Err(ParseError::BadEof);
        }
        let major_version: u16 = u16_at(data, 0);
        let minor_version: u16 = u16_at(data, 2);
        if major_version != 2 && major_version != 3 {
            return Err(ParseError::BadVersion);
        }
        let count: u32 = u32_at(data, 4);
        if (len - 8) / 48 < count as usize {
            return Err(ParseError::BadEof);
        }
        let mut bitmap_sizes: Vec<BitmapSize> = Vec::new();
        let mut i: usize = 0;
        while i < count as usize
            invariant
                i <= count,
                len == data@.len(),
                version_known(be_u16(data@, 0)),
                count == be_u32(data@, 4),
                8 + 48 * count <= len,
                bitmap_sizes@.len() == i,
                forall|k: int| 0 <= k < i ==> (#[trigger] spec_size_depth(data@, 8 + 48 * k)) is Ok,
                forall|k: int|
                    0 <= k < i ==> #[trigger] bitmap_sizes@[k] == spec_bitmap_size(
                        data@,
                        8 + 48 * k,
                        spec_size_depth(data@, 8 + 48 * k)->Ok_0,
                    ),
            decreases count - i,
        {
            let at: usize = 8 + 48 * i;
            let bit_depth = match BitDepth::from_bits(u8_at(data, at + 46)) {
                Ok(depth) => depth,
                Err(_) => {
                    assert(spec_size_depth(data@, 8 + 48 * i) is Err);
                    return Err(ParseError::BadValue);
                },
            };
            bitmap_sizes.push(
                BitmapSize {
                    index_subtable_array_offset: u32_at(data, at),
                    number_of_index_subtables: u32_at(data, at + 8),
                    start_glyph_index: u16_at(data, at + 40),
                    end_glyph_index: u16_at(data, at + 42),
                    ppem_x: u8_at(data, at + 44),
                    ppem_y: u8_at(data, at + 45),
                    bit_depth,
                    flags: u8_at(data, at + 47),
                },
            );
            i += 1;
        }
        let table = CBLCTable { major_version, minor_version, bitmap_sizes };
        assert(spec_cblc_table(data@) is Ok);
        assert(table@.bitmap_sizes =~= spec_cblc_table(data@)->Ok_0.bitmap_sizes);
        Ok(table)
    }

    /// The sizes of the strikes, in the order of the table.
    pub fn strike_sizes(&self) -> (sizes: Vec<StrikeSize>)
        ensures
            sizes@ == spec_strike_sizes(self.bitmap_sizes@),
    {
        let mut sizes: Vec<StrikeSize> = Vec::new();
        let mut i: usize = 0;
        while i < self.bitmap_sizes.len()
            invariant
                i <= self.bitmap_sizes@.len(),
                sizes@.len() == i,
                forall|k: int|
                    0 <= k < i ==> #[trigger] sizes@[k] == (StrikeSize {
                        ppem: self.bitmap_sizes@[k].ppem_x as u16,
                        bit_depth: self.bitmap_sizes@[k].bit_depth,
                    }),
            decreases self.bitmap_sizes@.len() - i,
        {
            let size = self.bitmap_sizes[i];
            sizes.push(StrikeSize { ppem: size.ppem_x as u16, bit_depth: size.bit_depth });
            i += 1;
        }
        assert(sizes@ =~= spec_strike_sizes(self.bitmap_sizes@));
        sizes
    }

    /// Chooses the strike for the size `target_ppem` among those of a depth
    /// of at most `max_bit_depth`, by the rule of [`find_strike`].
    pub fn find_strike(&self, target_ppem: u8, max_bit_depth: BitDepth) -> (r: Option<usize>)
        ensures
            r matches Some(i) ==> i < self.bitmap_sizes@.len() && spec_find_strike(
                spec_strike_sizes(self.bitmap_sizes@),
                target_ppem as int,
                max_bit_depth,
            ) == Some(i as int),
            r is None ==> spec_find_strike(
                spec_strike_sizes(self.bitmap_sizes@),
                target_ppem as int,
                max_bit_depth,
            ) is None,
    {
        let sizes = self.strike_sizes();
        find_strike(&sizes, target_ppem as u16, max_bit_depth)
    }
}

impl CBDTTable {
    /// Reads the header of the `CBDT` table in `data`.
    pub fn read(data: &[u8]) -> (r: Result<CBDTTable, ParseError>)
        ensures
            r == spec_cbdt_table(data@),
    {
        if data.len() < 4 {
            return Err(ParseError::BadEof);
        }
        let major_version: u16 = u16_at(data, 0);
        if major_version != 2 && major_version != 3 {
            return Err(ParseError::BadVersion);
        }
        Ok(CBDTTable { major_version, minor_version: u16_at(data, 2) })
    }
}

/// An index subtable that covers a glyph.
struct FoundEntry {
    subtable: u64,
    first_glyph: u16,
}

/// Where the image of a glyph lies.
struct FoundLocation {
    image_format: u16,
    start: u64,
    end: u64,
    metrics: Option<BigGlyphMetrics>,
}

/// Finds the first index subtable of `size` that covers `glyph`.
fn scan_entries(cblc: &[u8], size: &BitmapSize, glyph: u16) -> (r: Result<
    Option<FoundEntry>,
    ParseError,
>)
    ensures
        match r {
            Ok(Some(found)) => spec_scan_entries(cblc@, *size, glyph, 0) == Ok::<
                Option<IndexEntry>,
                ParseError,
            >(Some(IndexEntry { subtable: found.subtable as int, first_glyph: found.first_glyph }))
                && found.subtable <= 0x2_0000_0000 && found.first_glyph <= glyph,
            Ok(None) => spec_scan_entries(cblc@, *size, glyph, 0) == Ok::<
                Option<IndexEntry>,
                ParseError,
            >(None),
            Err(e) => spec_scan_entries(cblc@, *size, glyph, 0) == Err::<
                Option<IndexEntry>,
                ParseError,
            >(e),
        },
{
    let len: u64 = cblc.len() as u64;
    let array: u64 = size.index_subtable_array_offset as u64;
    let count: u64 = size.number_of_index_subtables as u64;
    let mut j: u64 = 0;
    while j < count
        invariant
            j <= count,
            len == cblc@.len(),
            len <= usize::MAX,
            array == size.index_subtable_array_offset,
            count == size.number_of_index_subtables,
            spec_scan_entries(cblc@, *size, glyph, 0) == spec_scan_entries(
                cblc@,
                *size,
                glyph,
                j as int,
            ),
        decreases count - j,
    {
        let at: u64 = array + 8 * j;
        if at + 8 > len {
            return Err(ParseError::BadEof);
        }
        let first: u16 = u16_at(cblc, at as usize);
        let last: u16 = u16_at(cblc, at as usize + 2);
        if first <= glyph && glyph <= last {
            let more: u64 = u32_at(cblc, at as usize + 4) as u64;
            return Ok(Some(FoundEntry { subtable: array + more, first_glyph: first }));
        }
        j += 1;
    }
    Ok(None)
}

/// Reads the big metrics at `at`.
fn big_metrics(data: &[u8], at: usize) -> (m: BigGlyphMetrics)
    requires
        at + 8 <= data@.len(),
    ensures
        m == spec_big_metrics(data@, at as int),
{
    let len: usize = data.len();
    BigGlyphMetrics {
        height: u8_at(data, at),
        width: u8_at(data, at + 1),
        hori_bearing_x: i8_of(u8_at(data, at + 2)),
        hori_bearing_y: i8_of(u8_at(data, at + 3)),
        hori_advance: u8_at(data, at + 4),
        vert_bearing_x: i8_of(u8_at(data, at + 5)),
        vert_bearing_y: i8_of(u8_at(data, at + 6)),
        vert_advance: u8_at(data, at + 7),
    }
}

/// Reads the small metrics at `at`.
fn small_metrics(data: &[u8], at: usize) -> (m: SmallGlyphMetrics)
    requires
        at + 5 <= data@.len(),
    ensures
        m == spec_small_metrics(data@, at as int),
{
    let len: usize = data.len();
    SmallGlyphMetrics {
        height: u8_at(data, at),
        width: u8_at(data, at + 1),
        bearing_x: i8_of(u8_at(data, at + 2)),
        bearing_y: i8_of(u8_at(data, at + 3)),
        advance: u8_at(data, at + 4),
    }
}

/// The view of a location that was found.
spec fn location_view(r: Result<Option<FoundLocation>, ParseError>) -> Result<
    Option<GlyphLocation>,
    ParseError,
> {
    match r {
        Ok(Some(found)) => Ok(
            Some(
                GlyphLocation {
                    image_format: found.image_format,
                    start: found.start as int,
                    end: found.end as int,
                    metrics: found.metrics,
                },
            ),
        ),
        Ok(None) => Ok(None),
        Err(e) => Err(e),
    }
}

/// The location from `start` to `end`.
fn span(image_format: u16, start: u64, end: u64, metrics: Option<BigGlyphMetrics>) -> (r: Result<
    Option<FoundLocation>,
    ParseError,
>)
    ensures
        location_view(r) == spec_span(image_format, start as int, end as int, metrics),
{
    if end < start {
        Err(ParseError::BadOffset)
    } else if end == start {
        Ok(None)
    } else {
        Ok(Some(FoundLocation { image_format, start, end, metrics }))
    }
}

/// Works out where the index subtable `entry` puts the image of `glyph`.
fn locate(cblc: &[u8], entry: &FoundEntry, glyph: u16) -> (r: Result<
    Option<FoundLocation>,
    ParseError,
>)
    requires
        entry.subtable <= 0x2_0000_0000,
        entry.first_glyph <= glyph,
    ensures
        location_view(r) == spec_locate(
            cblc@,
            IndexEntry { subtable: entry.subtable as int, first_glyph: entry.first_glyph },
            glyph,
        ),
        r matches Ok(Some(found)) ==> found.start < found.end,
{
    let len: u64 = cblc.len() as u64;
    let s: u64 = entry.subtable;
    let n: u64 = (glyph - entry.first_glyph) as u64;
    if s + 8 > len {
        return Err(ParseError::BadEof);
    }
    let at: usize = s as usize;
    let index_format: u16 = u16_at(cblc, at);
    let image_format: u16 = u16_at(cblc, at + 2);
    let base: u64 = u32_at(cblc, at + 4) as u64;
    if index_format == 1 {
        if s + 8 + 4 * (n + 2) > len {
            return Err(ParseError::BadEof);
        }
        let from: usize = at + 8 + 4 * (n as usize);
        let start: u64 = u32_at(cblc, from) as u64;
        let end: u64 = u32_at(cblc, from + 4) as u64;
        span(image_format, base + start, base + end, None)
    } else if index_format == 2 {
        if s + 20 > len {
            return Err(ParseError::BadEof);
        }
        let image_size: u64 = u32_at(cblc, at + 8) as u64;
        let metrics = big_metrics(cblc, at + 12);
        assert(image_size * n <= 0x1_0000_0000 * 0x1_0000) by (nonlinear_arith)
            requires
                image_size <= 0x1_0000_0000,
                n <= 0x1_0000,
        ;
        assert(image_size * (n + 1) <= 0x1_0000_0000 * 0x1_0000) by (nonlinear_arith)
            requires
                image_size <= 0x1_0000_0000,
                n + 1 <= 0x1_0000,
        ;
        span(image_format, base + image_size * n, base + image_size * (n + 1), Some(metrics))
    } else if index_format == 3 {
        if s + 8 + 2 * (n + 2) > len {
            return Err(ParseError::BadEof);
        }
        let from: usize = at + 8 + 2 * (n as usize);
        let start: u64 = u16_at(cblc, from) as u64;
        let end: u64 = u16_at(cblc, from + 2) as u64;
        span(image_format, base + start, base + end, None)
    } else {
        Err(ParseError::NotImplemented)
    }
}

/// The image made of the PNG file `data`.
fn png(size: &BitmapSize, metrics: EmbeddedMetrics, data: &[u8]) -> (image: BitmapGlyph)
    ensures
        image@ == spec_png(*size, metrics, data@),
{
    BitmapGlyph {
        bitmap: Bitmap::Encapsulated(
            EncapsulatedBitmap { format: EncapsulatedFormat::Png, data: slice_to_vec(data) },
        ),
        metrics: Metrics::Embedded(metrics),
        ppem_x: Some(size.ppem_x as u16),
        ppem_y: Some(size.ppem_y as u16),
        should_flip_hori: false,
        should_flip_vert: false,
    }
}

/// Reads the image at `location` in the data table.
fn glyph_data(cbdt: &[u8], size: &BitmapSize, location: &FoundLocation) -> (r: Result<
    BitmapGlyph,
    ParseError,
>)
    requires
        location.start < location.end,
    ensures
        match r {
            Ok(image) => spec_glyph_data(
                cbdt@,
                *size,
                location_view(Ok(Some(*location)))->Ok_0->Some_0,
            ) == Ok::<BitmapGlyphView, ParseError>(image@),
            Err(e) => spec_glyph_data(
                cbdt@,
                *size,
                location_view(Ok(Some(*location)))->Ok_0->Some_0,
            ) == Err::<BitmapGlyphView, ParseError>(e),
        },
{
    if location.end > cbdt.len() as u64 {
        return Err(ParseError::BadEof);
    }
    let at: usize = location.start as usize;
    let len: usize = (location.end - location.start) as usize;
    if location.image_format == 17 {
        if len < 9 {
            return Err(ParseError::BadEof);
        }
        let data_len: u32 = u32_at(cbdt, at + 5);
        if data_len as usize > len - 9 {
            return Err(ParseError::BadEof);
        }
        let metrics = EmbeddedMetrics::Small(small_metrics(cbdt, at));
        Ok(png(size, metrics, slice_subrange(cbdt, at + 9, at + 9 + data_len as usize)))
    } else if location.image_format == 18 {
        if len < 12 {
            return Err(ParseError::BadEof);
        }
        let data_len: u32 = u32_at(cbdt, at + 8);
        if data_len as usize > len - 12 {
            return Err(ParseError::BadEof);
        }
        let metrics = EmbeddedMetrics::Big(big_metrics(cbdt, at));
        Ok(png(size, metrics, slice_subrange(cbdt, at + 12, at + 12 + data_len as usize)))
    } else if location.image_format == 19 {
        if len < 4 {
            return Err(ParseError::BadEof);
        }
        let data_len: u32 = u32_at(cbdt, at);
        if data_len as usize > len - 4 {
            return Err(ParseError::BadEof);
        }
        match location.metrics {
            None => Err(ParseError::BadValue),
            Some(metrics) => Ok(
                png(
                    size,
                    EmbeddedMetrics::Big(metrics),
                    slice_subrange(cbdt, at + 4, at + 4 + data_len as usize),
                ),
            ),
        }
    } else {
        Err(ParseError::NotImplemented)
    }
}

/// Looks up the image of `glyph` in the strike `size`: `cblc` and `cbdt`
/// are the bytes of the two tables.
pub fn lookup(glyph: u16, cblc: &[u8], size: &BitmapSize, cbdt: &[u8]) -> (r: Result<
    Option<BitmapGlyph>,
    ParseError,
>)
    ensures
        image_result_view(r) == spec_lookup(cblc@, cbdt@, *size, glyph),
{
    match scan_entries(cblc, size, glyph)? {
        None => Ok(None),
        Some(entry) => match locate(cblc, &entry, glyph)? {
            None => Ok(None),
            Some(location) => {
                let image = glyph_data(cbdt, size, &location)?;
                Ok(Some(image))
            },
        },
    }
}

} // verus!

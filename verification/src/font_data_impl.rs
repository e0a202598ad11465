//! The data of one font face.
//!
//! [`FontDataImpl::new`] reads the tables that every face needs and chooses
//! the `cmap` subtable to map characters with. Every other table is read
//! when it is first asked for, and kept.

use vstd::prelude::*;
use vstd::slice::slice_subrange;
use std::rc::Rc;
use crate::cbdt;
use crate::sbix;
use crate::svg;
use crate::bitmap::{image_result_view, spec_find_strike, BitDepth, BitmapGlyph, BitmapGlyphView};
use crate::cbdt::{spec_cblc_table, spec_cbdt_table, CBDTTable, CBLCTable};
use crate::cmap::{
    lemma_first_fit_is_some,
    record_fits,
    spec_cmap_records,
    spec_first_fit,
    Cmap,
    EncodingRecord,
    MACINTOSH_APPLE_ROMAN,
    MACINTOSH_UNICODE_UCS4,
    PLATFORM_MACINTOSH,
    PLATFORM_UNICODE,
    PLATFORM_WINDOWS,
    WINDOWS_BIG5,
    WINDOWS_SYMBOL,
    WINDOWS_UNICODE_BMP_UCS2,
    WINDOWS_UNICODE_UCS4,
};
use crate::cmap_subtable::{spec_map_glyph, spec_subtable, CmapSubtable, SubtableFormat};
use crate::error::ParseError;
use crate::glyph_info::{advance, spec_advance, spec_glyph_name, GlyphNames, NameSources};
use crate::layout::{
    new_layout_cache,
    spec_gdef_table,
    spec_layout_table,
    GDEFHeader,
    GDEFTable,
    LayoutCache,
    LayoutCacheData,
    LayoutHeader,
    LayoutTable,
    GPOS,
    GSUB,
};
use crate::lazy_load::{loaded_view, CacheView, LazyLoad, Loaded};
use crate::os2::{spec_os2, Os2};
use crate::sbix::{spec_sbix_table, SbixTable};
use crate::svg::{spec_svg_table, SvgTable};
use crate::tables::{
    required_view,
    spec_head_table,
    spec_hhea_table,
    spec_maxp_table,
    spec_required,
    table_data_view,
    FontTableProvider,
    HeadTable,
    HheaTable,
    MaxpTable,
    TableData,
};
use crate::tag;
use crate::unique_names::{names_view, spec_unique_names, unique_glyph_names};

verus! {

/// How the character codes of the chosen `cmap` subtable are to be read.
#[derive(Clone, Copy, Debug, PartialEq, Eq, Structural)]
pub enum Encoding {
    Unicode,
    Symbol,
    AppleRoman,
    Big5,
}

/// The kind of outlines that a face has.
#[derive(Clone, Copy, Debug, PartialEq, Eq, Structural)]
pub enum OutlineFormat {
    /// Outlines in a `glyf` table.
    Glyf,
    /// Outlines in a `CFF ` table.
    Cff,
    /// No outlines that this face offers.
    NoOutlines,
}

/// The bytes of a `CBLC` table with its directory. The two are made
/// together and cannot be parted: the directory is always what the bytes
/// are read as.
pub struct CBLC {
    data: Vec<u8>,
    table: CBLCTable,
}

/// The bytes of a `CBDT` table with its header, made together.
pub struct CBDT {
    data: Vec<u8>,
    table: CBDTTable,
}

/// The bytes of an `sbix` table with its directory, made together.
pub struct Sbix {
    data: Vec<u8>,
    table: SbixTable,
}

/// The bytes of an `SVG ` table with its directory, made together.
pub struct Svg {
    data: Vec<u8>,
    table: SvgTable,
}

impl CBLC {
    #[verifier::type_invariant]
    spec fn inv(&self) -> bool {
        spec_cblc_table(self.data@) == Ok::<cbdt::CBLCTableView, ParseError>(self.table@)
    }

    /// The bytes of the table.
    pub closed spec fn bytes(&self) -> Seq<u8> {
        self.data@
    }

    /// Reads the directory of `data` and keeps both.
    pub fn new(data: Vec<u8>) -> (r: Result<CBLC, ParseError>)
        ensures
            match r {
                Ok(cblc) => spec_cblc_table(data@) is Ok && cblc.bytes() == data@,
                Err(e) => spec_cblc_table(data@) == Err::<cbdt::CBLCTableView, ParseError>(e),
            },
    {
        let table = CBLCTable::read(data.as_slice())?;
        Ok(CBLC { data, table })
    }

    /// The bytes of the table.
    pub fn data(&self) -> (data: &[u8])
        ensures
            data@ == self.bytes(),
    {
        self.data.as_slice()
    }

    /// The directory of the table.
    pub fn table(&self) -> (table: &CBLCTable)
        ensures
            spec_cblc_table(self.bytes()) == Ok::<cbdt::CBLCTableView, ParseError>(table@),
    {
        proof {
            use_type_invariant(self);
        }
        &self.table
    }
}

impl CBDT {
    #[verifier::type_invariant]
    spec fn inv(&self) -> bool {
        spec_cbdt_table(self.data@) == Ok::<CBDTTable, ParseError>(self.table)
    }

    /// The bytes of the table.
    pub closed spec fn bytes(&self) -> Seq<u8> {
        self.data@
    }

    /// Reads the header of `data` and keeps both.
    pub fn new(data: Vec<u8>) -> (r: Result<CBDT, ParseError>)
        ensures
            match r {
                Ok(cbdt) => spec_cbdt_table(data@) is Ok && cbdt.bytes() == data@,
                Err(e) => spec_cbdt_table(data@) == Err::<CBDTTable, ParseError>(e),
            },
    {
        let table = CBDTTable::read(data.as_slice())?;
        Ok(CBDT { data, table })
    }

    /// The bytes of the table.
    pub fn data(&self) -> (data: &[u8])
        ensures
            data@ == self.bytes(),
    {
        self.data.as_slice()
    }

    /// The header of the table.
    pub fn table(&self) -> (table: &CBDTTable)
        ensures
            spec_cbdt_table(self.bytes()) == Ok::<CBDTTable, ParseError>(*table),
    {
        proof {
            use_type_invariant(self);
        }
        &self.table
    }
}

impl Sbix {
    #[verifier::type_invariant]
    spec fn inv(&self) -> bool {
        &&& spec_sbix_table(self.data@, self.table.num_glyphs) == Ok::<
            sbix::SbixTableView,
            ParseError,
        >(self.table@)
        &&& self.table.wf(self.data@)
    }

    /// The bytes of the table.
    pub closed spec fn bytes(&self) -> Seq<u8> {
        self.data@
    }

    /// The number of glyphs that the directory was read for.
    pub closed spec fn num_glyphs(&self) -> u16 {
        self.table.num_glyphs
    }

    /// Reads the directory of `data`, for a font of `num_glyphs` glyphs,
    /// and keeps both.
    pub fn new(data: Vec<u8>, num_glyphs: u16) -> (r: Result<Sbix, ParseError>)
        ensures
            match r {
                Ok(sbix) => spec_sbix_table(data@, num_glyphs) is Ok && sbix.bytes() == data@
                    && sbix.num_glyphs() == num_glyphs,
                Err(e) => spec_sbix_table(data@, num_glyphs) == Err::<
                    sbix::SbixTableView,
                    ParseError,
                >(e),
            },
    {
        let table = SbixTable::read(data.as_slice(), num_glyphs)?;
        Ok(Sbix { data, table })
    }

    /// The bytes of the table.
    pub fn data(&self) -> (data: &[u8])
        ensures
            data@ == self.bytes(),
    {
        self.data.as_slice()
    }

    /// The directory of the table.
    pub fn table(&self) -> (table: &SbixTable)
        ensures
            spec_sbix_table(self.bytes(), self.num_glyphs()) == Ok::<
                sbix::SbixTableView,
                ParseError,
            >(table@),
            table.wf(self.bytes()),
    {
        proof {
            use_type_invariant(self);
        }
        &self.table
    }
}

impl Svg {
    #[verifier::type_invariant]
    spec fn inv(&self) -> bool {
        &&& spec_svg_table(self.data@) == Ok::<SvgTable, ParseError>(self.table)
        &&& self.table.wf(self.data@)
    }

    /// The bytes of the table.
    pub closed spec fn bytes(&self) -> Seq<u8> {
        self.data@
    }

    /// Reads the directory of `data` and keeps both.
    pub fn new(data: Vec<u8>) -> (r: Result<Svg, ParseError>)
        ensures
            match r {
                Ok(svg) => spec_svg_table(data@) is Ok && svg.bytes() == data@,
                Err(e) => spec_svg_table(data@) == Err::<SvgTable, ParseError>(e),
            },
    {
        let table = SvgTable::read(data.as_slice())?;
        Ok(Svg { data, table })
    }

    /// The bytes of the table.
    pub fn data(&self) -> (data: &[u8])
        ensures
            data@ == self.bytes(),
    {
        self.data.as_slice()
    }

    /// The directory of the table.
    pub fn table(&self) -> (table: &SvgTable)
        ensures
            spec_svg_table(self.bytes()) == Ok::<SvgTable, ParseError>(*table),
            table.wf(self.bytes()),
    {
        proof {
            use_type_invariant(self);
        }
        &self.table
    }
}

/// The images that a font holds for its glyphs, in one of three forms.
pub enum Images {
    /// Bitmaps in strikes.
    Embedded { cblc: CBLC, cbdt: CBDT },
    /// Images of fixed sizes.
    Sbix(Sbix),
    /// Vector images.
    Svg(Svg),
}

/// What an [`Images`] holds: the bytes of its tables. The directories are
/// what those bytes are read as.
pub enum ImagesView {
    Embedded { cblc: Seq<u8>, cbdt: Seq<u8> },
    Sbix { data: Seq<u8>, num_glyphs: u16 },
    Svg { data: Seq<u8> },
}

impl View for Images {
    type V = ImagesView;

    open spec fn view(&self) -> ImagesView {
        match self {
            Images::Embedded { cblc, cbdt } => ImagesView::Embedded {
                cblc: cblc.bytes(),
                cbdt: cbdt.bytes(),
            },
            Images::Sbix(sbix) => ImagesView::Sbix {
                data: sbix.bytes(),
                num_glyphs: sbix.num_glyphs(),
            },
            Images::Svg(svg) => ImagesView::Svg { data: svg.bytes() },
        }
    }
}

/// Whether a subtable for this platform and encoding can be used.
pub open spec fn is_recognized(record: EncodingRecord) -> bool {
    ||| record.platform_id == PLATFORM_UNICODE
    ||| record.platform_id == PLATFORM_WINDOWS && (record.encoding_id == WINDOWS_UNICODE_UCS4
        || record.encoding_id == WINDOWS_UNICODE_BMP_UCS2 || record.encoding_id == WINDOWS_SYMBOL
        || record.encoding_id == WINDOWS_BIG5)
    ||| record.platform_id == PLATFORM_MACINTOSH && record.encoding_id == MACINTOSH_APPLE_ROMAN
}

/// The first of two choices that is there.
pub open spec fn or_else<A>(first: Option<A>, second: Option<A>) -> Option<A> {
    if first is Some {
        first
    } else {
        second
    }
}

/// The subtable `found`, if there is one, to be read as `encoding`.
pub open spec fn read_as(encoding: Encoding, found: Option<EncodingRecord>) -> Option<
    (Encoding, EncodingRecord),
> {
    match found {
        Some(record) => Some((encoding, record)),
        None => None,
    }
}

/// The subtable to map characters with, and how its codes are to be read.
/// The choices, from the most to the least wanted: Windows with the full
/// Unicode repertoire; Windows with the basic plane of Unicode; the
/// Unicode platform with the full repertoire; the Unicode platform with any
/// encoding; Windows symbols; Macintosh Roman; Windows Big5. Of several
/// subtables for one choice the first in the directory is taken.
pub open spec fn spec_find_good_cmap_subtable(records: Seq<EncodingRecord>) -> Option<
    (Encoding, EncodingRecord),
> {
    or_else(
        read_as(
            Encoding::Unicode,
            spec_first_fit(records, PLATFORM_WINDOWS, Some(WINDOWS_UNICODE_UCS4)),
        ),
        or_else(
            read_as(
                Encoding::Unicode,
                spec_first_fit(records, PLATFORM_WINDOWS, Some(WINDOWS_UNICODE_BMP_UCS2)),
            ),
            or_else(
                read_as(
                    Encoding::Unicode,
                    spec_first_fit(records, PLATFORM_UNICODE, Some(MACINTOSH_UNICODE_UCS4)),
                ),
                or_else(
                    read_as(Encoding::Unicode, spec_first_fit(records, PLATFORM_UNICODE, None)),
                    or_else(
                        read_as(
                            Encoding::Symbol,
                            spec_first_fit(records, PLATFORM_WINDOWS, Some(WINDOWS_SYMBOL)),
                        ),
                        or_else(
                            read_as(
                                Encoding::AppleRoman,
                                spec_first_fit(
                                    records,
                                    PLATFORM_MACINTOSH,
                                    Some(MACINTOSH_APPLE_ROMAN),
                                ),
                            ),
                            read_as(
                                Encoding::Big5,
                                spec_first_fit(records, PLATFORM_WINDOWS, Some(WINDOWS_BIG5)),
                            ),
                        ),
                    ),
                ),
            ),
        ),
    )
}

/// A subtable is chosen exactly when the directory has one that can be
/// used, and the one chosen is of the directory and can be used.
pub proof fn lemma_subtable_found_iff_recognized(records: Seq<EncodingRecord>)
    ensures
        spec_find_good_cmap_subtable(records) is Some <==> exists|i: int|
            0 <= i < records.len() && is_recognized(#[trigger] records[i]),
        spec_find_good_cmap_subtable(records) matches Some(found) ==> is_recognized(found.1)
            && records.contains(found.1),
{
    lemma_first_fit_is_some(records, PLATFORM_WINDOWS, Some(WINDOWS_UNICODE_UCS4));
    lemma_first_fit_is_some(records, PLATFORM_WINDOWS, Some(WINDOWS_UNICODE_BMP_UCS2));
    lemma_first_fit_is_some(records, PLATFORM_UNICODE, Some(MACINTOSH_UNICODE_UCS4));
    lemma_first_fit_is_some(records, PLATFORM_UNICODE, None);
    lemma_first_fit_is_some(records, PLATFORM_WINDOWS, Some(WINDOWS_SYMBOL));
    lemma_first_fit_is_some(records, PLATFORM_MACINTOSH, Some(MACINTOSH_APPLE_ROMAN));
    lemma_first_fit_is_some(records, PLATFORM_WINDOWS, Some(WINDOWS_BIG5));
    if exists|i: int| 0 <= i < records.len() && is_recognized(#[trigger] records[i]) {
        let i = choose|i: int| 0 <= i < records.len() && is_recognized(#[trigger] records[i]);
        let r = records[i];
        assert(record_fits(r, PLATFORM_WINDOWS, Some(WINDOWS_UNICODE_UCS4)) || record_fits(
            r,
            PLATFORM_WINDOWS,
            Some(WINDOWS_UNICODE_BMP_UCS2),
        ) || record_fits(r, PLATFORM_UNICODE, None) || record_fits(
            r,
            PLATFORM_WINDOWS,
            Some(WINDOWS_SYMBOL),
        ) || record_fits(r, PLATFORM_MACINTOSH, Some(MACINTOSH_APPLE_ROMAN)) || record_fits(
            r,
            PLATFORM_WINDOWS,
            Some(WINDOWS_BIG5),
        ));
    }
}

/// Chooses the subtable to map characters with: see
/// [`spec_find_good_cmap_subtable`]. `None` where the directory has no
/// subtable that can be used.
pub fn find_good_cmap_subtable(cmap: &Cmap<'_>) -> (r: Option<(Encoding, EncodingRecord)>)
    ensures
        r == spec_find_good_cmap_subtable(cmap.encoding_records@),
        r is None <==> forall|i: int|
            0 <= i < cmap.encoding_records@.len() ==> !is_recognized(
                #[trigger] cmap.encoding_records@[i],
            ),
{
    proof {
        lemma_subtable_found_iff_recognized(cmap.encoding_records@);
    }
    // Windows, Unicode, full repertoire
    if let Some(encoding_record) = cmap.find_subtable(PLATFORM_WINDOWS, WINDOWS_UNICODE_UCS4) {
        return Some((Encoding::Unicode, encoding_record));
    }
    // Windows, Unicode, basic plane
    if let Some(encoding_record) = cmap.find_subtable(PLATFORM_WINDOWS, WINDOWS_UNICODE_BMP_UCS2) {
        return Some((Encoding::Unicode, encoding_record));
    }
    // Unicode platform, full repertoire
    if let Some(encoding_record) = cmap.find_subtable(PLATFORM_UNICODE, MACINTOSH_UNICODE_UCS4) {
        return Some((Encoding::Unicode, encoding_record));
    }
    // Unicode platform, any encoding
    if let Some(encoding_record) = cmap.find_subtable_for_platform(PLATFORM_UNICODE) {
        return Some((Encoding::Unicode, encoding_record));
    }
    // Windows, symbols
    if let Some(encoding_record) = cmap.find_subtable(PLATFORM_WINDOWS, WINDOWS_SYMBOL) {
        return Some((Encoding::Symbol, encoding_record));
    }
    // Macintosh, Roman
    if let Some(encoding_record) = cmap.find_subtable(PLATFORM_MACINTOSH, MACINTOSH_APPLE_ROMAN) {
        return Some((Encoding::AppleRoman, encoding_record));
    }
    // Windows, Big5
    if let Some(encoding_record) = cmap.find_subtable(PLATFORM_WINDOWS, WINDOWS_BIG5) {
        return Some((Encoding::Big5, encoding_record));
    }
    None
}

/// The encoding and the offset of the subtable chosen in the `cmap` table
/// `data`; `None` where it has none that can be used.
pub open spec fn spec_charmap_info(data: Seq<u8>) -> Result<Option<(Encoding, u32)>, ParseError> {
    match spec_cmap_records(data) {
        Err(e) => Err(e),
        Ok(records) => match spec_find_good_cmap_subtable(records) {
            None => Ok(None),
            Some(found) => Ok(Some((found.0, found.1.offset))),
        },
    }
}

/// Reads the directory of the `cmap` table in `cmap_buf` and chooses a
/// subtable: its encoding and its offset in the table.
pub fn charmap_info(cmap_buf: &[u8]) -> (r: Result<Option<(Encoding, u32)>, ParseError>)
    ensures
        r == spec_charmap_info(cmap_buf@),
{
    let cmap = Cmap::read(cmap_buf)?;
    match find_good_cmap_subtable(&cmap) {
        Some(found) => Ok(Some((found.0, found.1.offset))),
        None => Ok(None),
    }
}

/// The subtable chosen in a `cmap` table with the bytes `scope` and the
/// directory `records`: its encoding and its format. `BadEof` where its
/// offset lies past the end of the table; the errors of [`spec_subtable`]
/// where it cannot be read.
pub open spec fn spec_read_cmap_subtable(scope: Seq<u8>, records: Seq<EncodingRecord>) -> Result<
    Option<(Encoding, SubtableFormat)>,
    ParseError,
> {
    match spec_find_good_cmap_subtable(records) {
        None => Ok(None),
        Some(found) => if found.1.offset > scope.len() {
            Err(ParseError::BadEof)
        } else {
            match spec_subtable(scope.subrange(found.1.offset as int, scope.len() as int)) {
                Err(e) => Err(e),
                Ok(format) => Ok(Some((found.0, format))),
            }
        },
    }
}

/// Chooses a subtable of `cmap` and reads it. `None` where the table has no
/// subtable that can be used.
pub fn read_cmap_subtable<'a>(cmap: &Cmap<'a>) -> (r: Result<
    Option<(Encoding, CmapSubtable<'a>)>,
    ParseError,
>)
    ensures
        match r {
            Ok(Some(pair)) => spec_read_cmap_subtable(cmap.scope@, cmap.encoding_records@) == Ok::<
                Option<(Encoding, SubtableFormat)>,
                ParseError,
            >(Some((pair.0, pair.1.kind()))) && pair.1.bytes() == cmap.scope@.subrange(
                spec_find_good_cmap_subtable(cmap.encoding_records@)->Some_0.1.offset as int,
                cmap.scope@.len() as int,
            ),
            Ok(None) => spec_read_cmap_subtable(cmap.scope@, cmap.encoding_records@) == Ok::<
                Option<(Encoding, SubtableFormat)>,
                ParseError,
            >(None),
            Err(e) => spec_read_cmap_subtable(cmap.scope@, cmap.encoding_records@) == Err::<
                Option<(Encoding, SubtableFormat)>,
                ParseError,
            >(e),
        },
{
    if let Some((encoding, encoding_record)) = find_good_cmap_subtable(cmap) {
        let scope = cmap.scope;
        let offset: usize = encoding_record.offset as usize;
        if offset > scope.len() {
            return Err(ParseError::BadEof);
        }
        let subtable = CmapSubtable::read(slice_subrange(scope, offset, scope.len()))?;
        Ok(Some((encoding, subtable)))
    } else {
        Ok(None)
    }
}

/// Fetches a table that has to be there.
pub fn read_and_box_table<T: FontTableProvider>(provider: &T, tag: u32) -> (r: Result<
    Vec<u8>,
    ParseError,
>)
    ensures
        required_view(r) == spec_required(provider.spec_table_data(tag)),
{
    provider.read_table_data(tag)
}

/// Fetches a table that may be absent.
pub fn read_and_box_optional_table<T: FontTableProvider>(provider: &T, tag: u32) -> (r: Result<
    Option<Vec<u8>>,
    ParseError,
>)
    ensures
        table_data_view(r) == provider.spec_table_data(tag),
{
    provider.table_data(tag)
}

/// The bytes of the `CBLC` and of the `CBDT` table, where the font has
/// both and the directory of the one and the header of the other can be
/// read. The errors come in this order: fetching `CBLC`, fetching `CBDT`,
/// reading `CBLC`, reading `CBDT`.
pub open spec fn spec_load_cblc_cbdt<T: FontTableProvider>(provider: &T) -> Result<
    (Seq<u8>, Seq<u8>),
    ParseError,
> {
    match spec_required(provider.spec_table_data(tag::CBLC)) {
        Err(e) => Err(e),
        Ok(cblc) => match spec_required(provider.spec_table_data(tag::CBDT)) {
            Err(e) => Err(e),
            Ok(cbdt) => match spec_cblc_table(cblc) {
                Err(e) => Err(e),
                Ok(_) => match spec_cbdt_table(cbdt) {
                    Err(e) => Err(e),
                    Ok(_) => Ok((cblc, cbdt)),
                },
            },
        },
    }
}

/// The bytes of the `sbix` table, where the font has one and its directory
/// can be read for `num_glyphs` glyphs.
pub open spec fn spec_load_sbix<T: FontTableProvider>(provider: &T, num_glyphs: u16) -> Result<
    Seq<u8>,
    ParseError,
> {
    match spec_required(provider.spec_table_data(tag::SBIX)) {
        Err(e) => Err(e),
        Ok(data) => match spec_sbix_table(data, num_glyphs) {
            Err(e) => Err(e),
            Ok(_) => Ok(data),
        },
    }
}

/// The bytes of the `SVG ` table, where the font has one and its directory
/// can be read.
pub open spec fn spec_load_svg<T: FontTableProvider>(provider: &T) -> Result<Seq<u8>, ParseError> {
    match spec_required(provider.spec_table_data(tag::SVG)) {
        Err(e) => Err(e),
        Ok(data) => match spec_svg_table(data) {
            Err(e) => Err(e),
            Ok(_) => Ok(data),
        },
    }
}

/// The images of a font: its bitmaps in strikes where those can be loaded,
/// and else its images of fixed sizes. A font without bitmaps in strikes
/// that can be loaded and without an `sbix` table has no images, which is
/// no error. Where it has an `sbix` table that cannot be loaded, the error
/// met there is the result. Vector images are not looked for.
pub open spec fn spec_embedded_images<T: FontTableProvider>(provider: &T, num_glyphs: u16) -> Result<
    Option<ImagesView>,
    ParseError,
> {
    match spec_load_cblc_cbdt(provider) {
        Ok(pair) => Ok(Some(ImagesView::Embedded { cblc: pair.0, cbdt: pair.1 })),
        Err(_) => match provider.spec_table_data(tag::SBIX) {
            Err(e) => Err(e),
            Ok(None) => Ok(None),
            Ok(Some(data)) => match spec_sbix_table(data, num_glyphs) {
                Err(e) => Err(e),
                Ok(_) => Ok(Some(ImagesView::Sbix { data, num_glyphs })),
            },
        },
    }
}

/// A font whose bitmaps in strikes can be loaded has those for its images,
/// whatever its `sbix` table holds.
pub proof fn lemma_strikes_before_sbix<T: FontTableProvider>(provider: &T, num_glyphs: u16)
    requires
        spec_load_cblc_cbdt(provider) is Ok,
    ensures
        spec_embedded_images(provider, num_glyphs) matches Ok(Some(images)) && images
            is Embedded,
{
}

/// The images of fixed sizes are used only where the bitmaps in strikes
/// cannot be loaded.
pub proof fn lemma_sbix_only_without_strikes<T: FontTableProvider>(provider: &T, num_glyphs: u16)
    requires
        spec_embedded_images(provider, num_glyphs) matches Ok(Some(images)) && images is Sbix,
    ensures
        spec_load_cblc_cbdt(provider) is Err,
        spec_load_sbix(provider, num_glyphs) is Ok,
{
}

/// A font that has neither bitmaps in strikes that can be loaded nor an
/// `sbix` table has no images, and that is no error.
pub proof fn lemma_no_image_tables_no_images<T: FontTableProvider>(provider: &T, num_glyphs: u16)
    requires
        spec_load_cblc_cbdt(provider) is Err,
        provider.spec_table_data(tag::SBIX) == Ok::<Option<Seq<u8>>, ParseError>(None),
    ensures
        spec_embedded_images(provider, num_glyphs) == Ok::<Option<ImagesView>, ParseError>(None),
{
}

/// Loads the `CBLC` and the `CBDT` table.
pub fn load_cblc_cbdt<T: FontTableProvider>(provider: &T) -> (r: Result<(CBLC, CBDT), ParseError>)
    ensures
        match r {
            Ok(pair) => spec_load_cblc_cbdt(provider) == Ok::<(Seq<u8>, Seq<u8>), ParseError>(
                (pair.0.bytes(), pair.1.bytes()),
            ),
            Err(e) => spec_load_cblc_cbdt(provider) == Err::<(Seq<u8>, Seq<u8>), ParseError>(e),
        },
{
    let cblc_data = read_and_box_table(provider, tag::CBLC)?;
    let cbdt_data = read_and_box_table(provider, tag::CBDT)?;
    let cblc = CBLC::new(cblc_data)?;
    let cbdt = CBDT::new(cbdt_data)?;
    Ok((cblc, cbdt))
}

/// Loads the `sbix` table of a font of `num_glyphs` glyphs.
pub fn load_sbix<T: FontTableProvider>(provider: &T, num_glyphs: u16) -> (r: Result<
    Sbix,
    ParseError,
>)
    ensures
        match r {
            Ok(sbix) => spec_load_sbix(provider, num_glyphs) == Ok::<Seq<u8>, ParseError>(
                sbix.bytes(),
            ) && sbix.num_glyphs() == num_glyphs,
            Err(e) => spec_load_sbix(provider, num_glyphs) == Err::<Seq<u8>, ParseError>(e),
        },
{
    let sbix_data = read_and_box_table(provider, tag::SBIX)?;
    Sbix::new(sbix_data, num_glyphs)
}

/// Loads the `SVG ` table.
pub fn load_svg<T: FontTableProvider>(provider: &T) -> (r: Result<Svg, ParseError>)
    ensures
        match r {
            Ok(svg) => spec_load_svg(provider) == Ok::<Seq<u8>, ParseError>(svg.bytes()),
            Err(e) => spec_load_svg(provider) == Err::<Seq<u8>, ParseError>(e),
        },
{
    let svg_data = read_and_box_table(provider, tag::SVG)?;
    Svg::new(svg_data)
}

/// The data of one font face: the tables read when it was made, and a
/// cache for each table that is read on demand.
pub struct FontDataImpl<T: FontTableProvider> {
    pub font_table_provider: Box<T>,
    cmap_table: Vec<u8>,
    pub maxp_table: MaxpTable,
    hmtx_table: Vec<u8>,
    pub hhea_table: HheaTable,
    vmtx_table: LazyLoad<Vec<u8>>,
    vhea_table: LazyLoad<HheaTable>,
    cmap_subtable_offset: usize,
    pub cmap_subtable_encoding: Encoding,
    gdef_cache: LazyLoad<GDEFTable>,
    gsub_cache: LazyLoad<LayoutCacheData<GSUB>>,
    gpos_cache: LazyLoad<LayoutCacheData<GPOS>>,
    pub outline_format: OutlineFormat,
    embedded_images: LazyLoad<Images>,
}

/// What a face read when it was made.
pub struct FaceParts {
    pub cmap_table: Seq<u8>,
    pub maxp_table: MaxpTable,
    pub hmtx_table: Seq<u8>,
    pub hhea_table: HheaTable,
    pub cmap_subtable_offset: usize,
    pub cmap_subtable_encoding: Encoding,
    pub outline_format: OutlineFormat,
}

/// What the caches of a face hold.
pub struct Caches {
    pub vmtx_table: CacheView<Seq<u8>>,
    pub vhea_table: CacheView<HheaTable>,
    pub gdef_cache: CacheView<(GDEFHeader, Seq<u8>)>,
    pub gsub_cache: CacheView<(LayoutHeader, Seq<u8>)>,
    pub gpos_cache: CacheView<(LayoutHeader, Seq<u8>)>,
    pub embedded_images: CacheView<ImagesView>,
}

/// The kind of outlines of a font: none where it has an `sbix` or an
/// `SVG ` table, else those of its `glyf` table, else those of its `CFF `
/// table, else none.
pub open spec fn spec_outline_format<T: FontTableProvider>(provider: &T) -> OutlineFormat {
    if provider.spec_has_table(tag::SBIX) || provider.spec_has_table(tag::SVG) {
        OutlineFormat::NoOutlines
    } else if provider.spec_has_table(tag::GLYF) {
        OutlineFormat::Glyf
    } else if provider.spec_has_table(tag::CFF) {
        OutlineFormat::Cff
    } else {
        OutlineFormat::NoOutlines
    }
}

/// The tables that a face needs besides `cmap`, once its subtable is
/// chosen. They are fetched and read in this order: `maxp`, `hmtx`,
/// `hhea`; the first error met is the result. After them, `BadOffset`
/// where the subtable would start past the end of the `cmap` table.
pub open spec fn spec_face_parts<T: FontTableProvider>(
    provider: &T,
    cmap: Seq<u8>,
    encoding: Encoding,
    offset: u32,
) -> Result<FaceParts, ParseError> {
    match spec_required(provider.spec_table_data(tag::MAXP)) {
        Err(e) => Err(e),
        Ok(maxp_data) => match spec_maxp_table(maxp_data) {
            Err(e) => Err(e),
            Ok(maxp_table) => match spec_required(provider.spec_table_data(tag::HMTX)) {
                Err(e) => Err(e),
                Ok(hmtx_table) => match spec_required(provider.spec_table_data(tag::HHEA)) {
                    Err(e) => Err(e),
                    Ok(hhea_data) => match spec_hhea_table(hhea_data) {
                        Err(e) => Err(e),
                        Ok(hhea_table) => if offset > cmap.len() {
                            Err(ParseError::BadOffset)
                        } else {
                            Ok(
                                FaceParts {
                                    cmap_table: cmap,
                                    maxp_table,
                                    hmtx_table,
                                    hhea_table,
                                    cmap_subtable_offset: offset as usize,
                                    cmap_subtable_encoding: encoding,
                                    outline_format: spec_outline_format(provider),
                                },
                            )
                        },
                    },
                },
            },
        },
    }
}

/// What making a face from `provider` gives. The `cmap` table is fetched
/// and its directory read; an error there is the result. Where the
/// directory has no subtable that can be used there is no face, and no
/// error. Else the face is made of the other tables: see
/// [`spec_face_parts`].
pub open spec fn spec_new<T: FontTableProvider>(provider: &T) -> Result<
    Option<FaceParts>,
    ParseError,
> {
    match spec_required(provider.spec_table_data(tag::CMAP)) {
        Err(e) => Err(e),
        Ok(cmap) => match spec_charmap_info(cmap) {
            Err(e) => Err(e),
            Ok(None) => Ok(None),
            Ok(Some(chosen)) => match spec_face_parts(provider, cmap, chosen.0, chosen.1) {
                Err(e) => Err(e),
                Ok(parts) => Ok(Some(parts)),
            },
        },
    }
}

/// A font whose `cmap` table can be read and lists no subtable that can be
/// used gives no face, and no error.
pub proof fn lemma_no_recognized_subtable_no_face<T: FontTableProvider>(
    provider: &T,
    cmap: Seq<u8>,
    records: Seq<EncodingRecord>,
)
    requires
        spec_required(provider.spec_table_data(tag::CMAP)) == Ok::<Seq<u8>, ParseError>(cmap),
        spec_cmap_records(cmap) == Ok::<Seq<EncodingRecord>, ParseError>(records),
        forall|i: int| 0 <= i < records.len() ==> !is_recognized(#[trigger] records[i]),
    ensures
        spec_new(provider) == Ok::<Option<FaceParts>, ParseError>(None),
{
    lemma_subtable_found_iff_recognized(records);
}

/// A table that may be absent, read by `read` where it is there.
pub open spec fn spec_optional<V>(
    found: TableData,
    read: spec_fn(Seq<u8>) -> Result<V, ParseError>,
) -> Result<Option<V>, ParseError> {
    match found {
        Err(e) => Err(e),
        Ok(None) => Ok(None),
        Ok(Some(data)) => match read(data) {
            Err(e) => Err(e),
            Ok(value) => Ok(Some(value)),
        },
    }
}

/// The `vhea` table of a font.
pub open spec fn spec_vhea_table<T: FontTableProvider>(provider: &T) -> Result<
    Option<HheaTable>,
    ParseError,
> {
    spec_optional(provider.spec_table_data(tag::VHEA), |data: Seq<u8>| spec_hhea_table(data))
}

/// The `GDEF` table of a font.
pub open spec fn spec_gdef<T: FontTableProvider>(provider: &T) -> Result<
    Option<(GDEFHeader, Seq<u8>)>,
    ParseError,
> {
    spec_optional(provider.spec_table_data(tag::GDEF), |data: Seq<u8>| spec_gdef_table(data))
}

/// The layout table of a font with the tag `table`.
pub open spec fn spec_layout<T: FontTableProvider>(provider: &T, table: u32) -> Result<
    Option<(LayoutHeader, Seq<u8>)>,
    ParseError,
> {
    spec_optional(provider.spec_table_data(table), |data: Seq<u8>| spec_layout_table(data))
}

/// The `head` table of a font.
pub open spec fn spec_head<T: FontTableProvider>(provider: &T) -> Result<
    Option<HeadTable>,
    ParseError,
> {
    spec_optional(provider.spec_table_data(tag::HEAD), |data: Seq<u8>| spec_head_table(data))
}

/// The `OS/2` table of a font.
pub open spec fn spec_os2_table<T: FontTableProvider>(provider: &T) -> Result<
    Option<Os2>,
    ParseError,
> {
    spec_optional(provider.spec_table_data(tag::OS_2), |data: Seq<u8>| spec_os2(data))
}

/// The glyph that the subtable in `subtable` maps `char_code` to: 0 where
/// the subtable cannot be read, the lookup fails, or the code is mapped to
/// no glyph.
pub open spec fn spec_glyph_index(subtable: Seq<u8>, char_code: u32) -> u32 {
    match spec_subtable(subtable) {
        Err(_) => 0,
        Ok(format) => match spec_map_glyph(format, subtable, char_code) {
            Ok(Some(glyph)) => glyph as u32,
            _ => 0,
        },
    }
}

/// Whether the subtable in `subtable` can be read and maps `char_code` to
/// no glyph.
pub open spec fn is_unmapped(subtable: Seq<u8>, char_code: u32) -> bool {
    &&& spec_subtable(subtable) is Ok
    &&& spec_map_glyph(spec_subtable(subtable)->Ok_0, subtable, char_code) == Ok::<
        Option<u16>,
        ParseError,
    >(None)
}

/// A size in pixels per em as a strike of bitmaps can have it: at most 255.
pub open spec fn spec_clamp_ppem(target_ppem: u16) -> u8 {
    if target_ppem > 255 {
        255
    } else {
        target_ppem as u8
    }
}

/// The image of `glyph` in `images`, at the size `target_ppem` and with at
/// most `max_bit_depth` bits a pixel.
///
/// Among bitmaps in strikes the strike is chosen by size and depth, with
/// the size asked for cut down to 255, and the glyph is looked up in it.
/// Among images of fixed sizes the strike is chosen in the same way and the
/// glyph looked up in it, following at most one record that points at
/// another glyph. A vector image is found by the glyph alone.
pub open spec fn spec_image_in(
    images: ImagesView,
    glyph: u16,
    target_ppem: u16,
    max_bit_depth: BitDepth,
) -> Result<Option<BitmapGlyphView>, ParseError> {
    match images {
        ImagesView::Embedded { cblc, cbdt } => {
            let sizes = spec_cblc_table(cblc)->Ok_0.bitmap_sizes;
            match spec_find_strike(
                cbdt::spec_strike_sizes(sizes),
                spec_clamp_ppem(target_ppem) as int,
                max_bit_depth,
            ) {
                None => Ok(None),
                Some(strike) => cbdt::spec_lookup(cblc, cbdt, sizes[strike], glyph),
            }
        },
        ImagesView::Sbix { data, num_glyphs } => sbix::spec_lookup(
            data,
            spec_sbix_table(data, num_glyphs)->Ok_0,
            false,
            glyph,
            target_ppem,
            max_bit_depth,
        ),
        ImagesView::Svg { data } => svg::spec_lookup(data, spec_svg_table(data)->Ok_0, glyph),
    }
}

/// The image of `glyph`, where loading the images gave `images`: the error
/// where that failed, and no image where the font has no images.
pub open spec fn spec_lookup_glyph_image(
    images: Result<Option<ImagesView>, ParseError>,
    glyph: u16,
    target_ppem: u16,
    max_bit_depth: BitDepth,
) -> Result<Option<BitmapGlyphView>, ParseError> {
    match images {
        Err(e) => Err(e),
        Ok(None) => Ok(None),
        Ok(Some(found)) => spec_image_in(found, glyph, target_ppem, max_bit_depth),
    }
}

/// The advance that a metrics table gives, or `None` where it gives none.
pub open spec fn spec_some_advance(found: Result<u16, ParseError>) -> Option<u16> {
    match found {
        Ok(value) => Some(value),
        Err(_) => None,
    }
}

/// The vertical advance of `glyph`, where fetching the `vmtx` table gave
/// `vmtx` and loading the `vhea` table gave `vhea`: `None` unless both are
/// there and give an advance.
pub open spec fn spec_vertical_advance(
    maxp: MaxpTable,
    vmtx: TableData,
    vhea: Result<Option<HheaTable>, ParseError>,
    glyph: u16,
) -> Option<u16> {
    match (vmtx, vhea) {
        (Ok(Some(metrics)), Ok(Some(header))) => spec_some_advance(
            spec_advance(maxp, header, metrics, glyph),
        ),
        _ => None,
    }
}

/// The glyph ids in `ids`, named one by one.
pub open spec fn spec_plain_names(sources: NameSources, ids: Seq<u16>) -> Seq<Seq<char>> {
    Seq::new(ids.len(), |i: int| spec_glyph_name(sources, ids[i]))
}

/// Whether a loaded cache holds what its table gives.
pub open spec fn cache_agrees<V>(cache: CacheView<V>, table: Result<Option<V>, ParseError>) -> bool {
    cache matches CacheView::Loaded(value) ==> table == Ok::<Option<V>, ParseError>(value)
}

impl<T: FontTableProvider> FontDataImpl<T> {
    /// The provider that the face takes its tables from.
    pub closed spec fn provider(&self) -> &T {
        &*self.font_table_provider
    }

    /// What the face read when it was made.
    pub closed spec fn parts(&self) -> FaceParts {
        FaceParts {
            cmap_table: self.cmap_table@,
            maxp_table: self.maxp_table,
            hmtx_table: self.hmtx_table@,
            hhea_table: self.hhea_table,
            cmap_subtable_offset: self.cmap_subtable_offset,
            cmap_subtable_encoding: self.cmap_subtable_encoding,
            outline_format: self.outline_format,
        }
    }

    /// What the caches hold.
    pub closed spec fn caches(&self) -> Caches {
        Caches {
            vmtx_table: self.vmtx_table@,
            vhea_table: self.vhea_table@,
            gdef_cache: self.gdef_cache@,
            gsub_cache: self.gsub_cache@,
            gpos_cache: self.gpos_cache@,
            embedded_images: self.embedded_images@,
        }
    }

    /// The bytes of the chosen `cmap` subtable: the table from the
    /// subtable's offset on.
    pub open spec fn subtable_view(&self) -> Seq<u8> {
        self.parts().cmap_table.subrange(
            self.parts().cmap_subtable_offset as int,
            self.parts().cmap_table.len() as int,
        )
    }

    /// The invariant of a face: the chosen subtable starts inside the
    /// `cmap` table, and every cache that is loaded holds what the provider
    /// has for it.
    pub closed spec fn wf(&self) -> bool {
        &&& self.parts().cmap_subtable_offset <= self.parts().cmap_table.len()
        &&& cache_agrees(self.caches().vmtx_table, self.provider().spec_table_data(tag::VMTX))
        &&& cache_agrees(self.caches().vhea_table, spec_vhea_table(self.provider()))
        &&& cache_agrees(self.caches().gdef_cache, spec_gdef(self.provider()))
        &&& cache_agrees(self.caches().gsub_cache, spec_layout(self.provider(), tag::GSUB))
        &&& cache_agrees(self.caches().gpos_cache, spec_layout(self.provider(), tag::GPOS))
        &&& cache_agrees(
            self.caches().embedded_images,
            spec_embedded_images(self.provider(), self.parts().maxp_table.num_glyphs),
        )
    }

    /// Whether `self` is `before` but for what its caches hold.
    pub open spec fn same_but_caches(&self, before: &Self) -> bool {
        &&& self.provider() == before.provider()
        &&& self.parts() == before.parts()
    }

    /// What the names of glyphs are taken from: the `post` table, where
    /// the font has one that can be fetched, and the chosen `cmap`
    /// subtable, where it can be read.
    pub open spec fn name_sources(&self) -> NameSources {
        NameSources {
            post: match self.provider().spec_table_data(tag::POST) {
                Ok(Some(data)) => Some(data),
                _ => None,
            },
            cmap: match spec_subtable(self.subtable_view()) {
                Ok(format) => Some(
                    (self.parts().cmap_subtable_encoding, format, self.subtable_view()),
                ),
                Err(_) => None,
            },
        }
    }

    /// Makes the face of the font whose tables `provider` has: see
    /// [`spec_new`]. `Ok(None)` where the font has no `cmap` subtable that
    /// can be used.
    pub fn new(provider: Box<T>) -> (r: Result<Option<FontDataImpl<T>>, ParseError>)
        ensures
            match r {
                Ok(Some(face)) => spec_new(&*provider) == Ok::<Option<FaceParts>, ParseError>(
                    Some(face.parts()),
                ) && face.provider() == provider && face.wf() && face.caches() == (Caches {
                    vmtx_table: CacheView::NotLoaded,
                    vhea_table: CacheView::NotLoaded,
                    gdef_cache: CacheView::NotLoaded,
                    gsub_cache: CacheView::NotLoaded,
                    gpos_cache: CacheView::NotLoaded,
                    embedded_images: CacheView::NotLoaded,
                }),
                Ok(None) => spec_new(&*provider) == Ok::<Option<FaceParts>, ParseError>(None),
                Err(e) => spec_new(&*provider) == Err::<Option<FaceParts>, ParseError>(e),
            },
    {
        let cmap_table = read_and_box_table(&*provider, tag::CMAP)?;
        match charmap_info(cmap_table.as_slice())? {
            Some((cmap_subtable_encoding, cmap_subtable_offset)) => {
                let maxp_data = provider.read_table_data(tag::MAXP)?;
                let maxp_table = MaxpTable::read(maxp_data.as_slice())?;
                let hmtx_table = read_and_box_table(&*provider, tag::HMTX)?;
                let hhea_data = provider.read_table_data(tag::HHEA)?;
                let hhea_table = HheaTable::read(hhea_data.as_slice())?;
                let outline_format = if provider.has_table(tag::SBIX) || provider.has_table(
                    tag::SVG,
                ) {
                    // Such a font may well have outlines too. They are not
                    // offered.
                    OutlineFormat::NoOutlines
                } else if provider.has_table(tag::GLYF) {
                    OutlineFormat::Glyf
                } else if provider.has_table(tag::CFF) {
                    OutlineFormat::Cff
                } else {
                    OutlineFormat::NoOutlines
                };
                if cmap_subtable_offset as usize > cmap_table.len() {
                    return Err(ParseError::BadOffset);
                }
                Ok(
                    Some(
                        FontDataImpl {
                            font_table_provider: provider,
                            cmap_table,
                            maxp_table,
                            hmtx_table,
                            hhea_table,
                            vmtx_table: LazyLoad::NotLoaded,
                            vhea_table: LazyLoad::NotLoaded,
                            cmap_subtable_offset: cmap_subtable_offset as usize,
                            cmap_subtable_encoding,
                            gdef_cache: LazyLoad::NotLoaded,
                            gsub_cache: LazyLoad::NotLoaded,
                            gpos_cache: LazyLoad::NotLoaded,
                            outline_format,
                            embedded_images: LazyLoad::NotLoaded,
                        },
                    ),
                )
            },
            None => Ok(None),
        }
    }

    /// The number of glyphs of the font.
    pub fn num_glyphs(&self) -> (n: u16)
        ensures
            n == self.parts().maxp_table.num_glyphs,
    {
        self.maxp_table.num_glyphs
    }

    /// The bytes of the chosen `cmap` subtable.
    pub fn cmap_subtable_data(&self) -> (data: &[u8])
        requires
            self.wf(),
        ensures
            data@ == self.subtable_view(),
    {
        slice_subrange(self.cmap_table.as_slice(), self.cmap_subtable_offset, self.cmap_table.len())
    }

    /// The glyph for the character code `char_code`, and 0 where there is
    /// none: where the chosen subtable does not map the code, or cannot be
    /// read.
    pub fn lookup_glyph_index(&self, char_code: u32) -> (glyph_index: u32)
        requires
            self.wf(),
        ensures
            glyph_index == spec_glyph_index(self.subtable_view(), char_code),
            is_unmapped(self.subtable_view(), char_code) ==> glyph_index == 0,
            glyph_index <= 0xFFFF,
    {
        match CmapSubtable::read(self.cmap_subtable_data()) {
            Ok(cmap_subtable) => match cmap_subtable.map_glyph(char_code) {
                Ok(Some(glyph_index)) => glyph_index as u32,
                _ => 0,
            },
            Err(_err) => 0,
        }
    }

    /// The names of the glyphs `ids`, in their order, made free of
    /// repeats. Each glyph is named by [`spec_glyph_name`]; a name that
    /// came before gets a suffix, by [`spec_unique_names`].
    pub fn glyph_names(&self, ids: &[u16]) -> (names: Vec<String>)
        requires
            self.wf(),
        ensures
            names_view(names@) == spec_unique_names(spec_plain_names(self.name_sources(), ids@)),
            names@.len() == ids@.len(),
    {
        let post = match read_and_box_optional_table(&*self.font_table_provider, tag::POST) {
            Ok(found) => found,
            Err(_) => None,
        };
        let cmap = match CmapSubtable::read(self.cmap_subtable_data()) {
            Ok(table) => Some((self.cmap_subtable_encoding, table)),
            Err(_) => None,
        };
        let glyph_namer = GlyphNames::new(&cmap, post);
        let mut names: Vec<String> = Vec::new();
        let mut i: usize = 0;
        while i < ids.len()
            invariant
                i <= ids@.len(),
                glyph_namer.sources() == self.name_sources(),
                names@.len() == i,
                forall|k: int|
                    0 <= k < i ==> (#[trigger] names@[k])@ == spec_glyph_name(
                        self.name_sources(),
                        ids@[k],
                    ),
            decreases ids@.len() - i,
        {
            names.push(glyph_namer.glyph_name(ids[i]));
            i += 1;
        }
        assert(names_view(names@) =~= spec_plain_names(self.name_sources(), ids@));
        unique_glyph_names(names, ids.len())
    }
    /// Finds an image for `glyph_index`.
    ///
    /// * `target_ppem` is the size wanted. Where no image has that size the
    ///   nearest is returned, and of two that are as near the larger.
    /// * `max_bit_depth` is the largest depth of an image that is accepted.
    ///   With `BitDepth::ThirtyTwo` every depth is.
    ///
    /// The images are loaded on the first call, by
    /// [`FontDataImpl::embedded_images`]; where that fails its error is
    /// returned, and a font without images has no image for any glyph. The
    /// result is that of [`spec_lookup_glyph_image`].
    pub fn lookup_glyph_image(
        &mut self,
        glyph_index: u16,
        target_ppem: u16,
        max_bit_depth: BitDepth,
    ) -> (r: Result<Option<BitmapGlyph>, ParseError>)
        requires
            old(self).wf(),
        ensures
            final(self).wf(),
            final(self).same_but_caches(old(self)),
            image_result_view(r) == spec_lookup_glyph_image(
                old(self).spec_images(),
                glyph_index,
                target_ppem,
                max_bit_depth,
            ),
            final(self).caches() == (Caches {
                embedded_images: old(self).caches().embedded_images.after(old(self).spec_images()),
                ..old(self).caches()
            }),
    {
        let embedded_bitmaps = match self.embedded_images()? {
            Some(embedded_bitmaps) => embedded_bitmaps,
            None => {
                return Ok(None);
            },
        };
        match &*embedded_bitmaps {
            Images::Embedded { cblc, cbdt } => {
                let target_ppem: u8 = if target_ppem > 255 {
                    255
                } else {
                    target_ppem as u8
                };
                let table = cblc.table();
                match table.find_strike(target_ppem, max_bit_depth) {
                    Some(matching_strike) => cbdt::lookup(
                        glyph_index,
                        cblc.data(),
                        &table.bitmap_sizes[matching_strike],
                        cbdt.data(),
                    ),
                    None => Ok(None),
                }
            },
            Images::Sbix(sbix) => self.lookup_sbix_glyph_bitmap(
                sbix,
                false,
                glyph_index,
                target_ppem,
                max_bit_depth,
            ),
            Images::Svg(svg) => self.lookup_svg_glyph(svg, glyph_index),
        }
    }

    /// Looks up an image of fixed size. `dupe` says whether the lookup
    /// follows a record that pointed at `glyph_index`: only one such record
    /// is followed, so that records that point at each other cannot keep
    /// the lookup going.
    pub fn lookup_sbix_glyph_bitmap(
        &self,
        sbix: &Sbix,
        dupe: bool,
        glyph_index: u16,
        target_ppem: u16,
        max_bit_depth: BitDepth,
    ) -> (r: Result<Option<BitmapGlyph>, ParseError>)
        ensures
            image_result_view(r) == sbix::spec_lookup(
                sbix.bytes(),
                spec_sbix_table(sbix.bytes(), sbix.num_glyphs())->Ok_0,
                dupe,
                glyph_index,
                target_ppem,
                max_bit_depth,
            ),
    {
        sbix.table().lookup(sbix.data(), dupe, glyph_index, target_ppem, max_bit_depth)
    }

    /// Looks up a vector image.
    pub fn lookup_svg_glyph(&self, svg: &Svg, glyph_index: u16) -> (r: Result<
        Option<BitmapGlyph>,
        ParseError,
    >)
        ensures
            image_result_view(r) == svg::spec_lookup(
                svg.bytes(),
                spec_svg_table(svg.bytes())->Ok_0,
                glyph_index,
            ),
    {
        svg.table().lookup(svg.data(), glyph_index)
    }

    /// What loading the images of the font gives.
    pub open spec fn spec_images(&self) -> Result<Option<ImagesView>, ParseError> {
        spec_embedded_images(self.provider(), self.parts().maxp_table.num_glyphs)
    }

    /// The images of the font, loaded on the first call: its bitmaps in
    /// strikes where those can be loaded, else its images of fixed sizes,
    /// and `None` where it has neither. An error met while loading the
    /// images of fixed sizes is returned and nothing is kept, so that the
    /// next call tries again.
    pub fn embedded_images(&mut self) -> (r: Result<Option<Rc<Images>>, ParseError>)
        requires
            old(self).wf(),
        ensures
            final(self).wf(),
            final(self).same_but_caches(old(self)),
            loaded_view(r) == old(self).spec_images(),
            final(self).caches() == (Caches {
                embedded_images: old(self).caches().embedded_images.after(loaded_view(r)),
                ..old(self).caches()
            }),
    {
        let provider = &*self.font_table_provider;
        let num_glyphs: u16 = self.maxp_table.num_glyphs;
        let do_load = || -> (o: Loaded<Images>)
            ensures
                loaded_view(o) == spec_embedded_images(provider, num_glyphs),
            {
                // Vector images are not looked for. Bitmaps in strikes
                // come first, images of fixed sizes second.
                match load_cblc_cbdt(provider) {
                    Ok((cblc, cbdt)) => Ok(Some(Rc::new(Images::Embedded { cblc, cbdt }))),
                    Err(_err) => match read_and_box_optional_table(provider, tag::SBIX)? {
                        Some(data) => Ok(
                            Some(Rc::new(Images::Sbix(Sbix::new(data, num_glyphs)?))),
                        ),
                        None => Ok(None),
                    },
                }
            };
        self.embedded_images.get_or_load(do_load)
    }

    /// Whether the font has images for its glyphs that can be loaded.
    pub fn supports_emoji(&mut self) -> (r: bool)
        requires
            old(self).wf(),
        ensures
            final(self).wf(),
            final(self).same_but_caches(old(self)),
            r == (old(self).spec_images() matches Ok(Some(_))),
            final(self).caches() == (Caches {
                embedded_images: old(self).caches().embedded_images.after(old(self).spec_images()),
                ..old(self).caches()
            }),
    {
        match self.embedded_images() {
            Ok(Some(_)) => true,
            _ => false,
        }
    }

    /// The horizontal advance of `glyph`, or `None` where the metrics
    /// tables give none: see [`spec_advance`].
    pub fn horizontal_advance(&mut self, glyph: u16) -> (r: Option<u16>)
        requires
            old(self).wf(),
        ensures
            final(self).wf(),
            final(self).same_but_caches(old(self)),
            final(self).caches() == old(self).caches(),
            r == spec_some_advance(
                spec_advance(
                    old(self).parts().maxp_table,
                    old(self).parts().hhea_table,
                    old(self).parts().hmtx_table,
                    glyph,
                ),
            ),
    {
        match advance(&self.maxp_table, &self.hhea_table, self.hmtx_table.as_slice(), glyph) {
            Ok(value) => Some(value),
            Err(_) => None,
        }
    }

    /// The vertical advance of `glyph`, or `None` where the font lacks a
    /// `vmtx` or a `vhea` table, one of them cannot be loaded, or they give
    /// no advance. The `vmtx` table is loaded first, and the `vhea` table
    /// only where that did not fail.
    pub fn vertical_advance(&mut self, glyph: u16) -> (r: Option<u16>)
        requires
            old(self).wf(),
        ensures
            final(self).wf(),
            final(self).same_but_caches(old(self)),
            r == spec_vertical_advance(
                old(self).parts().maxp_table,
                old(self).provider().spec_table_data(tag::VMTX),
                spec_vhea_table(old(self).provider()),
                glyph,
            ),
            final(self).caches() == (Caches {
                vmtx_table: old(self).caches().vmtx_table.after(
                    old(self).provider().spec_table_data(tag::VMTX),
                ),
                vhea_table: if old(self).provider().spec_table_data(tag::VMTX) is Ok {
                    old(self).caches().vhea_table.after(spec_vhea_table(old(self).provider()))
                } else {
                    old(self).caches().vhea_table
                },
                ..old(self).caches()
            }),
    {
        let provider = &*self.font_table_provider;
        let do_load = || -> (o: Loaded<Vec<u8>>)
            ensures
                loaded_view(o) == provider.spec_table_data(tag::VMTX),
            {
                match read_and_box_optional_table(provider, tag::VMTX)? {
                    Some(data) => Ok(Some(Rc::new(data))),
                    None => Ok(None),
                }
            };
        let loaded = self.vmtx_table.get_or_load(do_load);
        let vmtx = match loaded {
            Ok(vmtx) => vmtx,
            Err(_) => {
                return None;
            },
        };
        let vhea = match self.vhea_table() {
            Ok(vhea) => vhea,
            Err(_) => {
                return None;
            },
        };
        if let (Some(vhea), Some(vmtx_table)) = (vhea, vmtx) {
            match advance(&self.maxp_table, &*vhea, vmtx_table.as_slice(), glyph) {
                Ok(value) => Some(value),
                Err(_) => None,
            }
        } else {
            None
        }
    }

    /// The `head` table of the font; `None` where it has none.
    pub fn head_table(&self) -> (r: Result<Option<HeadTable>, ParseError>)
        ensures
            r == spec_head(self.provider()),
    {
        match self.font_table_provider.table_data(tag::HEAD)? {
            Some(data) => Ok(Some(HeadTable::read(data.as_slice())?)),
            None => Ok(None),
        }
    }

    /// The `OS/2` table of the font; `None` where it has none.
    pub fn os2_table(&self) -> (r: Result<Option<Os2>, ParseError>)
        ensures
            r == spec_os2_table(self.provider()),
    {
        match self.font_table_provider.table_data(tag::OS_2)? {
            Some(data) => Ok(Some(Os2::read(data.as_slice())?)),
            None => Ok(None),
        }
    }

    /// The `GDEF` table of the font, loaded on the first call; `None`
    /// where it has none. An error is returned and not kept.
    pub fn gdef_table(&mut self) -> (r: Result<Option<Rc<GDEFTable>>, ParseError>)
        requires
            old(self).wf(),
        ensures
            final(self).wf(),
            final(self).same_but_caches(old(self)),
            loaded_view(r) == spec_gdef(old(self).provider()),
            final(self).caches() == (Caches {
                gdef_cache: old(self).caches().gdef_cache.after(loaded_view(r)),
                ..old(self).caches()
            }),
    {
        let provider = &*self.font_table_provider;
        let do_load = || -> (o: Loaded<GDEFTable>)
            ensures
                loaded_view(o) == spec_gdef(provider),
            {
                if let Some(gdef_data) = provider.table_data(tag::GDEF)? {
                    let gdef = GDEFTable::read(gdef_data)?;
                    Ok(Some(Rc::new(gdef)))
                } else {
                    Ok(None)
                }
            };
        self.gdef_cache.get_or_load(do_load)
    }

    /// The `GSUB` table of the font in a cache, loaded on the first call;
    /// `None` where it has none. An error is returned and not kept.
    pub fn gsub_cache(&mut self) -> (r: Result<Option<LayoutCache<GSUB>>, ParseError>)
        requires
            old(self).wf(),
        ensures
            final(self).wf(),
            final(self).same_but_caches(old(self)),
            loaded_view(r) == spec_layout(old(self).provider(), tag::GSUB),
            final(self).caches() == (Caches {
                gsub_cache: old(self).caches().gsub_cache.after(loaded_view(r)),
                ..old(self).caches()
            }),
    {
        let provider = &*self.font_table_provider;
        let do_load = || -> (o: Loaded<LayoutCacheData<GSUB>>)
            ensures
                loaded_view(o) == spec_layout(provider, tag::GSUB),
            {
                if let Some(gsub_data) = provider.table_data(tag::GSUB)? {
                    let gsub = LayoutTable::<GSUB>::read(gsub_data)?;
                    let cache = new_layout_cache::<GSUB>(gsub);
                    Ok(Some(cache))
                } else {
                    Ok(None)
                }
            };
        self.gsub_cache.get_or_load(do_load)
    }

    /// The `GPOS` table of the font in a cache, loaded on the first call;
    /// `None` where it has none. An error is returned and not kept.
    pub fn gpos_cache(&mut self) -> (r: Result<Option<LayoutCache<GPOS>>, ParseError>)
        requires
            old(self).wf(),
        ensures
            final(self).wf(),
            final(self).same_but_caches(old(self)),
            loaded_view(r) == spec_layout(old(self).provider(), tag::GPOS),
            final(self).caches() == (Caches {
                gpos_cache: old(self).caches().gpos_cache.after(loaded_view(r)),
                ..old(self).caches()
            }),
    {
        let provider = &*self.font_table_provider;
        let do_load = || -> (o: Loaded<LayoutCacheData<GPOS>>)
            ensures
                loaded_view(o) == spec_layout(provider, tag::GPOS),
            {
                if let Some(gpos_data) = provider.table_data(tag::GPOS)? {
                    let gpos = LayoutTable::<GPOS>::read(gpos_data)?;
                    let cache = new_layout_cache::<GPOS>(gpos);
                    Ok(Some(cache))
                } else {
                    Ok(None)
                }
            };
        self.gpos_cache.get_or_load(do_load)
    }

    /// The `vhea` table of the font, loaded on the first call; `None`
    /// where it has none. An error is returned and not kept.
    pub fn vhea_table(&mut self) -> (r: Result<Option<Rc<HheaTable>>, ParseError>)
        requires
            old(self).wf(),
        ensures
            final(self).wf(),
            final(self).same_but_caches(old(self)),
            loaded_view(r) == spec_vhea_table(old(self).provider()),
            final(self).caches() == (Caches {
                vhea_table: old(self).caches().vhea_table.after(loaded_view(r)),
                ..old(self).caches()
            }),
    {
        let provider = &*self.font_table_provider;
        let do_load = || -> (o: Loaded<HheaTable>)
            ensures
                loaded_view(o) == spec_vhea_table(provider),
            {
                if let Some(vhea_data) = provider.table_data(tag::VHEA)? {
                    let vhea = HheaTable::read(vhea_data.as_slice())?;
                    Ok(Some(Rc::new(vhea)))
                } else {
                    Ok(None)
                }
            };
        self.vhea_table.get_or_load(do_load)
    }
}

} // verus!

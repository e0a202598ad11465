use font_data::bitmap::{
    find_strike, BigGlyphMetrics, BitDepth, Bitmap, BitmapGlyph, EmbeddedMetrics,
    EncapsulatedFormat, Metrics, OriginOffset, SmallGlyphMetrics, StrikeSize,
};
use font_data::cbdt::{lookup, CBDTTable, CBLCTable};
use font_data::error::ParseError;
use font_data::font_data_impl::{
    load_cblc_cbdt, load_sbix, load_svg, FontDataImpl, Images, OutlineFormat,
};
use font_data::sbix::SbixTable;
use font_data::svg::SvgTable;
use font_data::tables::MemoryTables;
use font_data::tag;

fn be16(out: &mut Vec<u8>, value: u16) {
    out.push((value >> 8) as u8);
    out.push(value as u8);
}

fn be32(out: &mut Vec<u8>, value: u32) {
    be16(out, (value >> 16) as u16);
    be16(out, value as u16);
}

/// The tables that every face needs, for a font of `num_glyphs` glyphs.
fn base_font(num_glyphs: u16) -> MemoryTables {
    let mut cmap = Vec::new();
    be16(&mut cmap, 0);
    be16(&mut cmap, 1);
    be16(&mut cmap, 0);
    be16(&mut cmap, 3);
    be32(&mut cmap, 12);
    // format 6, one code: U+0041 is glyph 1
    be16(&mut cmap, 6);
    be16(&mut cmap, 12);
    be16(&mut cmap, 0);
    be16(&mut cmap, 0x41);
    be16(&mut cmap, 1);
    be16(&mut cmap, 1);
    let mut maxp = Vec::new();
    be32(&mut maxp, 0x00005000);
    be16(&mut maxp, num_glyphs);
    let mut hhea = Vec::new();
    be16(&mut hhea, 1);
    for _ in 0..16 {
        be16(&mut hhea, 0);
    }
    be16(&mut hhea, num_glyphs);
    let mut hmtx = Vec::new();
    for glyph in 0..num_glyphs {
        be16(&mut hmtx, 100 + glyph);
        be16(&mut hmtx, 0);
    }
    let mut tables = MemoryTables::new();
    tables.add(tag::CMAP, cmap);
    tables.add(tag::MAXP, maxp);
    tables.add(tag::HHEA, hhea);
    tables.add(tag::HMTX, hmtx);
    tables
}

fn face(tables: MemoryTables) -> FontDataImpl<MemoryTables> {
    FontDataImpl::new(Box::new(tables)).unwrap().unwrap()
}

/// One strike of bitmaps: its size, its depth, the first glyph it covers,
/// the format of its index subtable, the format of its images, and the
/// PNG data of each glyph from the first on, empty where a glyph has none.
struct Strike {
    ppem: u8,
    bit_depth: u8,
    first_glyph: u16,
    index_format: u16,
    image_format: u16,
    images: Vec<Vec<u8>>,
}

const SMALL: [u8; 5] = [10, 12, 0xFF, 9, 13];
const BIG: [u8; 8] = [20, 22, 1, 0xFE, 23, 0x80, 3, 24];

/// The record of one image in the data table.
fn image_record(image_format: u16, png: &[u8]) -> Vec<u8> {
    let mut record = Vec::new();
    if png.is_empty() {
        return record;
    }
    match image_format {
        17 => record.extend_from_slice(&SMALL),
        18 => record.extend_from_slice(&BIG),
        _ => {}
    }
    be32(&mut record, png.len() as u32);
    record.extend_from_slice(png);
    record
}

/// A `CBLC` and a `CBDT` table for `strikes`.
fn bitmap_tables(strikes: &[Strike]) -> (Vec<u8>, Vec<u8>) {
    let mut cbdt = Vec::new();
    be16(&mut cbdt, 3);
    be16(&mut cbdt, 0);
    let mut cblc = Vec::new();
    be16(&mut cblc, 3);
    be16(&mut cblc, 0);
    be32(&mut cblc, strikes.len() as u32);
    let mut index_tables = Vec::new();
    let mut array_offset = 8 + 48 * strikes.len() as u32;
    for strike in strikes {
        let last_glyph = strike.first_glyph + strike.images.len() as u16 - 1;
        // the array of index subtables, with one entry
        let mut index = Vec::new();
        be16(&mut index, strike.first_glyph);
        be16(&mut index, last_glyph);
        be32(&mut index, 8);
        // the index subtable
        be16(&mut index, strike.index_format);
        be16(&mut index, strike.image_format);
        be32(&mut index, cbdt.len() as u32);
        let records: Vec<Vec<u8>> =
            strike.images.iter().map(|png| image_record(strike.image_format, png)).collect();
        match strike.index_format {
            1 | 3 => {
                let mut at = 0u32;
                for record in &records {
                    if strike.index_format == 1 {
                        be32(&mut index, at);
                    } else {
                        be16(&mut index, at as u16);
                    }
                    at += record.len() as u32;
                }
                if strike.index_format == 1 {
                    be32(&mut index, at);
                } else {
                    be16(&mut index, at as u16);
                }
            }
            2 => {
                be32(&mut index, records[0].len() as u32);
                index.extend_from_slice(&BIG);
            }
            _ => {}
        }
        for record in &records {
            cbdt.extend_from_slice(record);
        }
        be32(&mut cblc, array_offset);
        be32(&mut cblc, index.len() as u32);
        be32(&mut cblc, 1);
        be32(&mut cblc, 0);
        cblc.extend_from_slice(&[0u8; 24]);
        be16(&mut cblc, strike.first_glyph);
        be16(&mut cblc, last_glyph);
        cblc.push(strike.ppem);
        cblc.push(strike.ppem);
        cblc.push(strike.bit_depth);
        cblc.push(1);
        array_offset += index.len() as u32;
        index_tables.push(index);
    }
    for index in index_tables {
        cblc.extend_from_slice(&index);
    }
    (cblc, cbdt)
}

fn png(len: usize, seed: u8) -> Vec<u8> {
    (0..len).map(|i| (i as u8).wrapping_mul(7).wrapping_add(seed)).collect()
}

fn strike(ppem: u8, bit_depth: u8, images: Vec<Vec<u8>>) -> Strike {
    Strike { ppem, bit_depth, first_glyph: 1, index_format: 1, image_format: 17, images }
}

fn bitmap_font(strikes: &[Strike]) -> MemoryTables {
    let (cblc, cbdt) = bitmap_tables(strikes);
    let mut tables = base_font(8);
    tables.add(tag::CBLC, cblc);
    tables.add(tag::CBDT, cbdt);
    tables
}

fn sbix_record(graphic_type: u32, data: &[u8]) -> Vec<u8> {
    let mut record = Vec::new();
    be16(&mut record, 3);
    be16(&mut record, (-4i16) as u16);
    be32(&mut record, graphic_type);
    record.extend_from_slice(data);
    record
}

fn sbix(strikes: &[(u16, Vec<Vec<u8>>)]) -> Vec<u8> {
    let mut table = Vec::new();
    be16(&mut table, 1);
    be16(&mut table, 1);
    be32(&mut table, strikes.len() as u32);
    let mut bodies = Vec::new();
    let mut offset = 8 + 4 * strikes.len() as u32;
    for (ppem, records) in strikes {
        let mut body = Vec::new();
        be16(&mut body, *ppem);
        be16(&mut body, 72);
        let mut at = 4 + 4 * (records.len() as u32 + 1);
        for record in records {
            be32(&mut body, at);
            at += record.len() as u32;
        }
        be32(&mut body, at);
        for record in records {
            body.extend_from_slice(record);
        }
        be32(&mut table, offset);
        offset += body.len() as u32;
        bodies.push(body);
    }
    for body in bodies {
        table.extend_from_slice(&body);
    }
    table
}

/// An `SVG ` table with one document for each element of `documents`: the
/// first and the last glyph it draws, and its text.
fn svg(documents: &[(u16, u16, &[u8])]) -> Vec<u8> {
    let mut table = Vec::new();
    be16(&mut table, 0);
    be32(&mut table, 10);
    be32(&mut table, 0);
    be16(&mut table, documents.len() as u16);
    let mut at = 2 + 12 * documents.len() as u32;
    for (first, last, text) in documents {
        be16(&mut table, *first);
        be16(&mut table, *last);
        be32(&mut table, at);
        be32(&mut table, text.len() as u32);
        at += text.len() as u32;
    }
    for (_, _, text) in documents {
        table.extend_from_slice(text);
    }
    table
}

fn payload(found: Result<Option<BitmapGlyph>, ParseError>) -> Vec<u8> {
    match found {
        Ok(Some(BitmapGlyph { bitmap: Bitmap::Encapsulated(bitmap), .. })) => bitmap.data,
        _ => panic!("expected an encapsulated image"),
    }
}

fn sizes(strikes: &[(u16, BitDepth)]) -> Vec<StrikeSize> {
    strikes.iter().map(|(ppem, bit_depth)| StrikeSize { ppem: *ppem, bit_depth: *bit_depth }).collect()
}

#[test]
fn find_strike_prefers_exact_size() {
    let strikes = sizes(&[
        (20, BitDepth::ThirtyTwo),
        (40, BitDepth::ThirtyTwo),
        (30, BitDepth::ThirtyTwo),
        (31, BitDepth::ThirtyTwo),
    ]);
    assert_eq!(find_strike(&strikes, 30, BitDepth::ThirtyTwo), Some(2));
    assert_eq!(find_strike(&strikes, 40, BitDepth::ThirtyTwo), Some(1));
    assert_eq!(find_strike(&strikes, 20, BitDepth::ThirtyTwo), Some(0));
}

#[test]
fn find_strike_takes_nearest_and_larger_on_tie() {
    let strikes = sizes(&[(20, BitDepth::Eight), (40, BitDepth::Eight), (100, BitDepth::Eight)]);
    // 30 is as far from 20 as from 40: the larger wins.
    assert_eq!(find_strike(&strikes, 30, BitDepth::Eight), Some(1));
    assert_eq!(find_strike(&strikes, 29, BitDepth::Eight), Some(0));
    assert_eq!(find_strike(&strikes, 31, BitDepth::Eight), Some(1));
    assert_eq!(find_strike(&strikes, 69, BitDepth::Eight), Some(1));
    assert_eq!(find_strike(&strikes, 70, BitDepth::Eight), Some(2));
    assert_eq!(find_strike(&strikes, 0, BitDepth::Eight), Some(0));
    assert_eq!(find_strike(&strikes, 65535, BitDepth::Eight), Some(2));
    // The order of the strikes does not matter for a tie.
    let strikes = sizes(&[(40, BitDepth::Eight), (20, BitDepth::Eight)]);
    assert_eq!(find_strike(&strikes, 30, BitDepth::Eight), Some(0));
}

#[test]
fn find_strike_respects_bit_depth() {
    let strikes = sizes(&[
        (30, BitDepth::ThirtyTwo),
        (60, BitDepth::Eight),
        (10, BitDepth::One),
        (30, BitDepth::Four),
    ]);
    assert_eq!(find_strike(&strikes, 30, BitDepth::ThirtyTwo), Some(0));
    assert_eq!(find_strike(&strikes, 30, BitDepth::Eight), Some(3));
    assert_eq!(find_strike(&strikes, 30, BitDepth::Two), Some(2));
    assert_eq!(find_strike(&strikes, 50, BitDepth::Eight), Some(1));
    assert_eq!(find_strike(&[].to_vec(), 30, BitDepth::ThirtyTwo), None);
    let deep = sizes(&[(30, BitDepth::ThirtyTwo)]);
    assert_eq!(find_strike(&deep, 30, BitDepth::Eight), None);
}

#[test]
fn find_strike_takes_first_of_equal_sizes() {
    let strikes = sizes(&[(30, BitDepth::Eight), (30, BitDepth::ThirtyTwo), (30, BitDepth::One)]);
    assert_eq!(find_strike(&strikes, 30, BitDepth::ThirtyTwo), Some(0));
    assert_eq!(find_strike(&strikes, 90, BitDepth::One), Some(2));
}

#[test]
fn bit_depth_numbers() {
    for (bits, depth) in [
        (1, BitDepth::One),
        (2, BitDepth::Two),
        (4, BitDepth::Four),
        (8, BitDepth::Eight),
        (32, BitDepth::ThirtyTwo),
    ] {
        assert_eq!(depth.bits(), bits);
        assert_eq!(BitDepth::from_bits(bits), Ok(depth));
    }
    assert_eq!(BitDepth::from_bits(0), Err(ParseError::BadValue));
    assert_eq!(BitDepth::from_bits(16), Err(ParseError::BadValue));
}

#[test]
fn color_strike_lookup_returns_the_bitmap() {
    let mut font = face(bitmap_font(&[strike(109, 32, vec![png(300, 1), png(17, 2)])]));
    assert!(font.supports_emoji());
    let found = font.lookup_glyph_image(1, 109, BitDepth::ThirtyTwo);
    match &found {
        Ok(Some(glyph)) => {
            assert_eq!(
                glyph.metrics,
                Metrics::Embedded(EmbeddedMetrics::Small(SmallGlyphMetrics {
                    height: 10,
                    width: 12,
                    bearing_x: -1,
                    bearing_y: 9,
                    advance: 13,
                }))
            );
            assert_eq!(glyph.ppem_x, Some(109));
            assert_eq!(glyph.ppem_y, Some(109));
            match &glyph.bitmap {
                Bitmap::Encapsulated(bitmap) => {
                    assert_eq!(bitmap.format, EncapsulatedFormat::Png);
                    assert_eq!(bitmap.data.len(), 300);
                }
                _ => panic!("expected an encapsulated image"),
            }
        }
        _ => panic!("expected an image"),
    }
    assert_eq!(payload(found), png(300, 1));
    assert_eq!(payload(font.lookup_glyph_image(2, 109, BitDepth::ThirtyTwo)), png(17, 2));
}

#[test]
fn color_strike_without_the_glyph_gives_no_image() {
    let mut font = face(bitmap_font(&[strike(109, 32, vec![png(300, 1), Vec::new()])]));
    // Glyph 2 is covered but has an empty image, glyphs 0 and 3 are not covered.
    assert_eq!(font.lookup_glyph_image(2, 109, BitDepth::ThirtyTwo), Ok(None));
    assert_eq!(font.lookup_glyph_image(0, 109, BitDepth::ThirtyTwo), Ok(None));
    assert_eq!(font.lookup_glyph_image(3, 109, BitDepth::ThirtyTwo), Ok(None));
    // No strike is shallow enough.
    assert_eq!(font.lookup_glyph_image(1, 109, BitDepth::Eight), Ok(None));
}

#[test]
fn color_strike_is_chosen_by_size() {
    let mut font = face(bitmap_font(&[
        strike(20, 32, vec![png(20, 0)]),
        strike(40, 32, vec![png(40, 0)]),
        strike(200, 32, vec![png(200, 0)]),
    ]));
    assert_eq!(payload(font.lookup_glyph_image(1, 20, BitDepth::ThirtyTwo)).len(), 20);
    assert_eq!(payload(font.lookup_glyph_image(1, 30, BitDepth::ThirtyTwo)).len(), 40);
    assert_eq!(payload(font.lookup_glyph_image(1, 29, BitDepth::ThirtyTwo)).len(), 20);
    assert_eq!(payload(font.lookup_glyph_image(1, 119, BitDepth::ThirtyTwo)).len(), 40);
    assert_eq!(payload(font.lookup_glyph_image(1, 120, BitDepth::ThirtyTwo)).len(), 200);
    // A size beyond what a strike can have is cut down to 255.
    assert_eq!(payload(font.lookup_glyph_image(1, 60000, BitDepth::ThirtyTwo)).len(), 200);
}

#[test]
fn color_strike_does_not_look_in_other_strikes() {
    // The strike of the size asked for lacks glyph 2, another strike has it.
    let mut font = face(bitmap_font(&[
        strike(20, 32, vec![png(20, 0)]),
        strike(40, 32, vec![png(40, 0), png(41, 0)]),
    ]));
    assert_eq!(font.lookup_glyph_image(2, 20, BitDepth::ThirtyTwo), Ok(None));
    assert_eq!(payload(font.lookup_glyph_image(2, 40, BitDepth::ThirtyTwo)).len(), 41);
}

#[test]
fn color_strike_index_and_image_formats() {
    let mut with_big = strike(50, 32, vec![png(9, 3), png(11, 4)]);
    with_big.image_format = 18;
    with_big.index_format = 3;
    let mut font = face(bitmap_font(&[with_big]));
    let found = font.lookup_glyph_image(2, 50, BitDepth::ThirtyTwo).unwrap().unwrap();
    assert_eq!(
        found.metrics,
        Metrics::Embedded(EmbeddedMetrics::Big(BigGlyphMetrics {
            height: 20,
            width: 22,
            hori_bearing_x: 1,
            hori_bearing_y: -2,
            hori_advance: 23,
            vert_bearing_x: -128,
            vert_bearing_y: 3,
            vert_advance: 24,
        }))
    );
    assert_eq!(payload(Ok(Some(found))), png(11, 4));

    let mut fixed = strike(50, 32, vec![png(9, 5), png(9, 6), png(9, 7)]);
    fixed.image_format = 19;
    fixed.index_format = 2;
    fixed.first_glyph = 4;
    let mut font = face(bitmap_font(&[fixed]));
    let found = font.lookup_glyph_image(6, 50, BitDepth::ThirtyTwo).unwrap().unwrap();
    assert!(matches!(found.metrics, Metrics::Embedded(EmbeddedMetrics::Big(_))));
    assert_eq!(payload(Ok(Some(found))), png(9, 7));
    assert_eq!(payload(font.lookup_glyph_image(4, 50, BitDepth::ThirtyTwo)), png(9, 5));
    assert_eq!(font.lookup_glyph_image(3, 50, BitDepth::ThirtyTwo), Ok(None));
    assert_eq!(font.lookup_glyph_image(7, 50, BitDepth::ThirtyTwo), Ok(None));
}

#[test]
fn color_strike_errors() {
    // Format 19 has no metrics of its own and index format 1 gives none.
    let mut bare = strike(50, 32, vec![png(9, 5)]);
    bare.image_format = 19;
    let mut font = face(bitmap_font(&[bare]));
    assert_eq!(font.lookup_glyph_image(1, 50, BitDepth::ThirtyTwo), Err(ParseError::BadValue));

    let mut unknown_image = strike(50, 32, vec![png(9, 5)]);
    unknown_image.image_format = 1;
    let mut font = face(bitmap_font(&[unknown_image]));
    assert_eq!(
        font.lookup_glyph_image(1, 50, BitDepth::ThirtyTwo),
        Err(ParseError::NotImplemented)
    );

    let mut unknown_index = strike(50, 32, vec![png(9, 5)]);
    unknown_index.index_format = 4;
    let mut font = face(bitmap_font(&[unknown_index]));
    assert_eq!(
        font.lookup_glyph_image(1, 50, BitDepth::ThirtyTwo),
        Err(ParseError::NotImplemented)
    );

    // The data table ends inside the image.
    let (cblc, mut cbdt) = bitmap_tables(&[strike(50, 32, vec![png(9, 5)])]);
    cbdt.truncate(cbdt.len() - 1);
    let table = CBLCTable::read(&cblc).unwrap();
    assert_eq!(lookup(1, &cblc, &table.bitmap_sizes[0], &cbdt), Err(ParseError::BadEof));

    // The location table ends inside the index subtable.
    let (mut cblc, cbdt) = bitmap_tables(&[strike(50, 32, vec![png(9, 5)])]);
    cblc.truncate(cblc.len() - 1);
    let table = CBLCTable::read(&cblc).unwrap();
    assert_eq!(lookup(1, &cblc, &table.bitmap_sizes[0], &cbdt), Err(ParseError::BadEof));
}

#[test]
fn bitmap_tables_are_read() {
    let (cblc, cbdt) = bitmap_tables(&[strike(20, 8, vec![png(2, 0)]), strike(40, 32, vec![png(3, 0)])]);
    let table = CBLCTable::read(&cblc).unwrap();
    assert_eq!(table.major_version, 3);
    assert_eq!(table.bitmap_sizes.len(), 2);
    assert_eq!(table.bitmap_sizes[0].ppem_x, 20);
    assert_eq!(table.bitmap_sizes[0].bit_depth, BitDepth::Eight);
    assert_eq!(table.bitmap_sizes[1].ppem_y, 40);
    assert_eq!(table.bitmap_sizes[1].start_glyph_index, 1);
    assert_eq!(table.bitmap_sizes[1].end_glyph_index, 1);
    assert_eq!(table.bitmap_sizes[1].number_of_index_subtables, 1);
    assert_eq!(table.bitmap_sizes[0].index_subtable_array_offset, 8 + 96);
    assert_eq!(table.find_strike(40, BitDepth::ThirtyTwo), Some(1));
    assert_eq!(table.find_strike(40, BitDepth::Eight), Some(0));
    assert_eq!(CBDTTable::read(&cbdt), Ok(CBDTTable { major_version: 3, minor_version: 0 }));

    assert!(matches!(CBLCTable::read(&cblc[..7]), Err(ParseError::BadEof)));
    assert!(matches!(CBLCTable::read(&cblc[..8 + 95]), Err(ParseError::BadEof)));
    let mut other_version = cblc.clone();
    other_version[1] = 4;
    assert!(matches!(CBLCTable::read(&other_version), Err(ParseError::BadVersion)));
    let mut odd_depth = cblc.clone();
    odd_depth[8 + 48 + 46] = 3;
    assert!(matches!(CBLCTable::read(&odd_depth), Err(ParseError::BadValue)));
    assert_eq!(CBDTTable::read(&[0, 3, 0]), Err(ParseError::BadEof));
    assert_eq!(CBDTTable::read(&[0, 1, 0, 0]), Err(ParseError::BadVersion));
}

#[test]
fn strikes_come_before_sbix() {
    let mut tables = bitmap_font(&[strike(100, 32, vec![png(300, 1)])]);
    tables.add(tag::SBIX, sbix(&[(100, vec![Vec::new(), sbix_record(tag::PNG, &png(224, 9))])]));
    let mut font = face(tables);
    assert_eq!(font.outline_format, OutlineFormat::NoOutlines);
    match font.embedded_images() {
        Ok(Some(images)) => assert!(matches!(*images, Images::Embedded { .. })),
        _ => panic!("expected images"),
    }
    let found = font.lookup_glyph_image(1, 100, BitDepth::ThirtyTwo).unwrap().unwrap();
    assert!(matches!(found.metrics, Metrics::Embedded(_)));
    assert_eq!(payload(Ok(Some(found))), png(300, 1));
}

#[test]
fn sbix_is_used_where_strikes_cannot_be_loaded() {
    // The location table is there, the data table is not.
    let (cblc, _) = bitmap_tables(&[strike(100, 32, vec![png(300, 1)])]);
    let mut tables = base_font(2);
    tables.add(tag::CBLC, cblc);
    tables.add(tag::SBIX, sbix(&[(100, vec![Vec::new(), sbix_record(tag::PNG, &png(224, 9))])]));
    let mut font = face(tables);
    match font.embedded_images() {
        Ok(Some(images)) => assert!(matches!(*images, Images::Sbix(_))),
        _ => panic!("expected images"),
    }
    let found = font.lookup_glyph_image(1, 100, BitDepth::ThirtyTwo).unwrap().unwrap();
    assert_eq!(found.metrics, Metrics::HmtxVmtx(OriginOffset { x: 3, y: -4 }));
    assert_eq!(found.ppem_x, Some(100));
    assert_eq!(payload(Ok(Some(found))), png(224, 9));

    // The location table cannot be read.
    let mut tables = base_font(2);
    tables.add(tag::CBLC, vec![0, 3, 0, 0]);
    tables.add(tag::CBDT, vec![0, 3, 0, 0]);
    tables.add(tag::SBIX, sbix(&[(100, vec![Vec::new(), sbix_record(tag::PNG, &png(5, 9))])]));
    let mut font = face(tables);
    assert_eq!(payload(font.lookup_glyph_image(1, 100, BitDepth::ThirtyTwo)), png(5, 9));
}

#[test]
fn images_that_cannot_be_loaded_give_the_error_of_sbix() {
    let mut tables = base_font(2);
    tables.add(tag::CBLC, vec![0, 3, 0, 0]);
    tables.add(tag::SBIX, vec![0, 2, 0, 0, 0, 0, 0, 0]);
    let mut font = face(tables);
    assert!(matches!(font.embedded_images(), Err(ParseError::BadVersion)));
    assert!(!font.supports_emoji());
    assert_eq!(font.lookup_glyph_image(1, 100, BitDepth::ThirtyTwo), Err(ParseError::BadVersion));
    // The failure is not kept: with tables that can be read the images load.
    let mut tables = base_font(2);
    tables.add(tag::SBIX, sbix(&[(100, vec![Vec::new(), sbix_record(tag::PNG, &png(5, 9))])]));
    font.font_table_provider = Box::new(tables);
    assert!(font.supports_emoji());
    assert_eq!(payload(font.lookup_glyph_image(1, 100, BitDepth::ThirtyTwo)), png(5, 9));
}

#[test]
fn font_without_image_tables_has_no_images() {
    let mut font = face(base_font(2));
    assert!(matches!(font.embedded_images(), Ok(None)));
    assert_eq!(font.lookup_glyph_image(1, 100, BitDepth::ThirtyTwo), Ok(None));
    // That there are none is kept: tables that turn up later are not seen.
    let mut tables = base_font(2);
    tables.add(tag::SBIX, sbix(&[(100, vec![Vec::new(), sbix_record(tag::PNG, &png(5, 9))])]));
    font.font_table_provider = Box::new(tables);
    assert!(!font.supports_emoji());
    assert_eq!(font.lookup_glyph_image(1, 100, BitDepth::ThirtyTwo), Ok(None));

    // Strikes that cannot be loaded and no sbix table: no images either.
    let mut tables = base_font(2);
    tables.add(tag::CBLC, vec![0, 3, 0, 0]);
    let mut font = face(tables);
    assert!(matches!(font.embedded_images(), Ok(None)));
}

#[test]
fn images_are_loaded_once() {
    let mut font = face(bitmap_font(&[strike(100, 32, vec![png(300, 1)])]));
    let first = font.embedded_images().unwrap().unwrap();
    let second = font.embedded_images().unwrap().unwrap();
    assert!(std::rc::Rc::ptr_eq(&first, &second));
    let a = font.lookup_glyph_image(1, 100, BitDepth::ThirtyTwo);
    let b = font.lookup_glyph_image(1, 100, BitDepth::ThirtyTwo);
    assert_eq!(a, b);
}

#[test]
fn sbix_strikes_are_chosen_by_size() {
    let strikes = vec![
        (20u16, vec![Vec::new(), sbix_record(tag::PNG, &png(20, 0))]),
        (300u16, vec![Vec::new(), sbix_record(tag::JPG, &png(30, 0))]),
        (40u16, vec![Vec::new(), sbix_record(tag::TIFF, &png(40, 0))]),
    ];
    let mut tables = base_font(2);
    tables.add(tag::SBIX, sbix(&strikes));
    let mut font = face(tables);
    assert_eq!(payload(font.lookup_glyph_image(1, 30, BitDepth::ThirtyTwo)).len(), 40);
    assert_eq!(payload(font.lookup_glyph_image(1, 21, BitDepth::ThirtyTwo)).len(), 20);
    // The size is not cut down for these images.
    assert_eq!(payload(font.lookup_glyph_image(1, 1000, BitDepth::ThirtyTwo)).len(), 30);
    match font.lookup_glyph_image(1, 300, BitDepth::ThirtyTwo).unwrap().unwrap().bitmap {
        Bitmap::Encapsulated(bitmap) => assert_eq!(bitmap.format, EncapsulatedFormat::Jpeg),
        _ => panic!("expected an encapsulated image"),
    }
    match font.lookup_glyph_image(1, 40, BitDepth::ThirtyTwo).unwrap().unwrap().bitmap {
        Bitmap::Encapsulated(bitmap) => assert_eq!(bitmap.format, EncapsulatedFormat::Tiff),
        _ => panic!("expected an encapsulated image"),
    }
}

#[test]
fn sbix_table_errors() {
    let good = sbix(&[(100, vec![Vec::new(), sbix_record(0x70646620, &[1, 2, 3])])]);
    let table = SbixTable::read(&good, 2).unwrap();
    assert_eq!(table.flags, 1);
    assert_eq!(table.num_glyphs, 2);
    assert_eq!(table.strikes.len(), 1);
    assert_eq!(table.strikes[0].ppem, 100);
    assert_eq!(table.strikes[0].ppi, 72);
    assert_eq!(table.strikes[0].offset, 12);
    assert_eq!(table.find_strike(7, BitDepth::ThirtyTwo), Some(0));
    assert_eq!(table.find_strike(7, BitDepth::Eight), None);
    let record = table.read_glyph(&good, 0, 1).unwrap().unwrap();
    assert_eq!(record.graphic_type, 0x70646620);
    assert_eq!(record.origin_offset_x, 3);
    assert_eq!(record.origin_offset_y, -4);
    assert_eq!(record.data, &[1, 2, 3]);
    match table.lookup(&good, false, 1, 100, BitDepth::ThirtyTwo).unwrap().unwrap().bitmap {
        Bitmap::Encapsulated(bitmap) => {
            assert_eq!(bitmap.format, EncapsulatedFormat::Other(0x70646620))
        }
        _ => panic!("expected an encapsulated image"),
    }
    assert!(table.read_glyph(&good, 0, 0).unwrap().is_none());
    assert!(table.read_glyph(&good, 0, 2).unwrap().is_none());

    assert!(matches!(SbixTable::read(&good[..7], 2), Err(ParseError::BadEof)));
    // More glyphs than the strike has offsets for.
    assert!(matches!(SbixTable::read(&good, 200), Err(ParseError::BadEof)));
    let mut other_version = good.clone();
    other_version[1] = 2;
    assert!(matches!(SbixTable::read(&other_version, 2), Err(ParseError::BadVersion)));

    // A record that ends before it starts, one that is too short, and one
    // that runs past the end of the table.
    let mut backwards = good.clone();
    backwards[12 + 4 + 8..12 + 4 + 12].copy_from_slice(&[0, 0, 0, 1]);
    let table = SbixTable::read(&backwards, 2).unwrap();
    assert!(matches!(table.read_glyph(&backwards, 0, 1), Err(ParseError::BadOffset)));
    let mut short = good.clone();
    short[12 + 4 + 8..12 + 4 + 12].copy_from_slice(&[0, 0, 0, 16 + 7]);
    let table = SbixTable::read(&short, 2).unwrap();
    assert!(matches!(table.read_glyph(&short, 0, 1), Err(ParseError::BadEof)));
    let mut long = good.clone();
    long[12 + 4 + 8..12 + 4 + 12].copy_from_slice(&[0, 0, 1, 0]);
    let table = SbixTable::read(&long, 2).unwrap();
    assert!(matches!(table.read_glyph(&long, 0, 1), Err(ParseError::BadEof)));

    // A record of type `dupe` that is too short to name a glyph.
    let stub = sbix(&[(100, vec![Vec::new(), sbix_record(tag::DUPE, &[1])])]);
    let table = SbixTable::read(&stub, 2).unwrap();
    assert_eq!(table.lookup(&stub, false, 1, 100, BitDepth::ThirtyTwo), Err(ParseError::BadEof));
    assert_eq!(table.lookup(&stub, true, 1, 100, BitDepth::ThirtyTwo), Ok(None));
}

#[test]
fn loaders_report_what_is_missing() {
    let tables = base_font(2);
    assert!(matches!(load_cblc_cbdt(&tables), Err(ParseError::MissingValue)));
    assert!(matches!(load_sbix(&tables, 2), Err(ParseError::MissingValue)));
    assert!(matches!(load_svg(&tables), Err(ParseError::MissingValue)));
}

#[test]
fn svg_documents_are_found_by_glyph() {
    let first: &[u8] = b"<svg id=\"glyph2\"/>";
    let second: &[u8] = b"<svg id=\"glyph5\"/>";
    let zipped: &[u8] = &[0x1F, 0x8B, 8, 0];
    let data = svg(&[(2, 3, first), (5, 5, second), (7, 7, zipped)]);
    let table = SvgTable::read(&data).unwrap();
    assert_eq!(table.num_entries, 3);
    assert_eq!(table.document_list_offset, 10);
    assert_eq!(table.lookup_glyph(&data, 3).unwrap().unwrap().document, first);
    assert_eq!(table.lookup_glyph(&data, 5).unwrap().unwrap().start_glyph_id, 5);
    assert!(table.lookup_glyph(&data, 4).unwrap().is_none());
    assert!(table.lookup_glyph(&data, 1).unwrap().is_none());
    let found = table.lookup(&data, 2).unwrap().unwrap();
    assert_eq!(found.metrics, Metrics::HmtxVmtx(OriginOffset { x: 0, y: 0 }));
    assert_eq!(found.ppem_x, None);
    match found.bitmap {
        Bitmap::Encapsulated(bitmap) => {
            assert_eq!(bitmap.format, EncapsulatedFormat::Svg);
            assert_eq!(bitmap.data, first);
        }
        _ => panic!("expected an encapsulated image"),
    }
    assert_eq!(table.lookup(&data, 7), Err(ParseError::CompressionError));
    assert_eq!(table.lookup(&data, 6), Ok(None));

    assert_eq!(SvgTable::read(&data[..9]), Err(ParseError::BadEof));
    assert_eq!(SvgTable::read(&data[..20]), Err(ParseError::BadEof));
    let mut other_version = data.clone();
    other_version[1] = 1;
    assert_eq!(SvgTable::read(&other_version), Err(ParseError::BadVersion));
    let cut = &data[..data.len() - 1];
    let table = SvgTable::read(cut).unwrap();
    assert!(matches!(table.lookup_glyph(cut, 7), Err(ParseError::BadOffset)));
}

#[test]
fn svg_images_through_the_face() {
    let text: &[u8] = b"<svg/>";
    let mut tables = base_font(4);
    tables.add(tag::SVG, svg(&[(1, 2, text)]));
    let loaded = load_svg(&tables).unwrap();
    let mut font = face(tables);
    assert_eq!(payload(font.lookup_svg_glyph(&loaded, 2)), text);
    assert_eq!(font.lookup_svg_glyph(&loaded, 3), Ok(None));
    // The face itself does not look for vector images.
    assert!(!font.supports_emoji());
}

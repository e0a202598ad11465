use font_data::bitmap::{BitDepth, Bitmap, BitmapGlyph, EncapsulatedBitmap, EncapsulatedFormat};
use font_data::error::ParseError;
use font_data::font_data_impl::{Encoding, FontDataImpl, OutlineFormat};
use font_data::tables::MemoryTables;
use font_data::tag;

fn be16(out: &mut Vec<u8>, value: u16) {
    out.push((value >> 8) as u8);
    out.push(value as u8);
}

fn be32(out: &mut Vec<u8>, value: u32) {
    be16(out, (value >> 16) as u16);
    be16(out, value as u16);
}

/// A `cmap` table with one subtable for the Windows platform, Unicode
/// basic plane, of format 4, that maps each code of `pairs` to its glyph.
fn cmap_format4(pairs: &[(u16, u16)]) -> Vec<u8> {
    let mut segments: Vec<(u16, u16)> = pairs.to_vec();
    segments.sort();
    let count = segments.len() as u16 + 1;
    let mut sub = Vec::new();
    be16(&mut sub, 4);
    be16(&mut sub, 16 + 8 * count);
    be16(&mut sub, 0);
    be16(&mut sub, 2 * count);
    be16(&mut sub, 0);
    be16(&mut sub, 0);
    be16(&mut sub, 0);
    for (code, _) in &segments {
        be16(&mut sub, *code);
    }
    be16(&mut sub, 0xFFFF);
    be16(&mut sub, 0);
    for (code, _) in &segments {
        be16(&mut sub, *code);
    }
    be16(&mut sub, 0xFFFF);
    for (code, glyph) in &segments {
        be16(&mut sub, glyph.wrapping_sub(*code));
    }
    be16(&mut sub, 1);
    for _ in 0..count {
        be16(&mut sub, 0);
    }
    let mut table = Vec::new();
    be16(&mut table, 0);
    be16(&mut table, 1);
    be16(&mut table, 3);
    be16(&mut table, 1);
    be32(&mut table, 12);
    table.extend_from_slice(&sub);
    table
}

fn maxp(num_glyphs: u16) -> Vec<u8> {
    let mut table = Vec::new();
    be32(&mut table, 0x00005000);
    be16(&mut table, num_glyphs);
    table
}

/// A horizontal or vertical header with `num_metrics` full metrics.
fn hhea(num_metrics: u16) -> Vec<u8> {
    let mut table = Vec::new();
    be16(&mut table, 1);
    be16(&mut table, 0);
    be16(&mut table, 800);
    be16(&mut table, (-200i16) as u16);
    for _ in 0..13 {
        be16(&mut table, 0);
    }
    be16(&mut table, num_metrics);
    assert_eq!(table.len(), 36);
    table
}

/// A metrics table: one full entry for each advance, and `bearings` bare
/// bearings after them.
fn hmtx(advances: &[u16], bearings: usize) -> Vec<u8> {
    let mut table = Vec::new();
    for advance in advances {
        be16(&mut table, *advance);
        be16(&mut table, 0);
    }
    for _ in 0..bearings {
        be16(&mut table, 0);
    }
    table
}

/// The tables that every face needs, for a font of `num_glyphs` glyphs
/// with the given character map.
fn base_font(num_glyphs: u16, pairs: &[(u16, u16)]) -> MemoryTables {
    let mut tables = MemoryTables::new();
    tables.add(tag::CMAP, cmap_format4(pairs));
    tables.add(tag::MAXP, maxp(num_glyphs));
    tables.add(tag::HHEA, hhea(1));
    tables.add(tag::HMTX, hmtx(&[600], num_glyphs as usize - 1));
    tables
}

fn face(tables: MemoryTables) -> FontDataImpl<MemoryTables> {
    FontDataImpl::new(Box::new(tables))
        .expect("error reading font data")
        .expect("missing required font tables")
}

/// A `post` table of version 2.0 for `num_glyphs` glyphs. `standard` gives
/// glyphs a standard name by its number, `custom` gives glyphs a name of
/// their own. Every other glyph has the number 0.
fn post_v2(num_glyphs: u16, standard: &[(u16, u16)], custom: &[(u16, &str)]) -> Vec<u8> {
    let mut table = Vec::new();
    be32(&mut table, 0x00020000);
    for _ in 0..7 {
        be32(&mut table, 0);
    }
    be16(&mut table, num_glyphs);
    let mut numbers = vec![0u16; num_glyphs as usize];
    for (glyph, number) in standard {
        numbers[*glyph as usize] = *number;
    }
    for (k, (glyph, _)) in custom.iter().enumerate() {
        numbers[*glyph as usize] = 258 + k as u16;
    }
    for number in numbers {
        be16(&mut table, number);
    }
    for (_, name) in custom {
        table.push(name.len() as u8);
        table.extend_from_slice(name.as_bytes());
    }
    table
}

fn post_header(version: u32) -> Vec<u8> {
    let mut table = Vec::new();
    be32(&mut table, version);
    for _ in 0..7 {
        be32(&mut table, 0);
    }
    table
}

/// One record of an `sbix` strike.
fn sbix_record(graphic_type: u32, data: &[u8]) -> Vec<u8> {
    let mut record = Vec::new();
    be16(&mut record, 0);
    be16(&mut record, 0);
    be32(&mut record, graphic_type);
    record.extend_from_slice(data);
    record
}

/// An `sbix` table with one strike for each element of `strikes`: its size
/// and the record of each glyph, empty where the glyph has none.
fn sbix(strikes: &[(u16, Vec<Vec<u8>>)]) -> Vec<u8> {
    let mut table = Vec::new();
    be16(&mut table, 1);
    be16(&mut table, 1);
    be32(&mut table, strikes.len() as u32);
    let mut bodies = Vec::new();
    let mut offset = 8 + 4 * strikes.len() as u32;
    for (ppem, records) in strikes {
        let mut body = Vec::new();
        be16(&mut body, *ppem);
        be16(&mut body, 72);
        let mut at = 4 + 4 * (records.len() as u32 + 1);
        for record in records {
            be32(&mut body, at);
            at += record.len() as u32;
        }
        be32(&mut body, at);
        for record in records {
            body.extend_from_slice(record);
        }
        be32(&mut table, offset);
        offset += body.len() as u32;
        bodies.push(body);
    }
    for body in bodies {
        table.extend_from_slice(&body);
    }
    table
}

/// A font with an `sbix` table of one strike at 100 pixels per em. Glyph 1
/// has an image of 224 bytes, glyph 2 points at glyph 1, glyph 3 points at
/// glyph 2, and glyph 4 points at itself.
fn sbix_dupe_font() -> MemoryTables {
    let image: Vec<u8> = (0..224u32).map(|i| (i % 251) as u8).collect();
    let records = vec![
        Vec::new(),
        sbix_record(tag::PNG, &image),
        sbix_record(tag::DUPE, &[0, 1]),
        sbix_record(tag::DUPE, &[0, 2]),
        sbix_record(tag::DUPE, &[0, 4]),
    ];
    let mut tables = base_font(5, &[(0x41, 1)]);
    tables.add(tag::SBIX, sbix(&[(100, records)]));
    tables
}

#[test]
fn test_glyph_names() {
    let mut tables = base_font(3087, &[(0x41, 1)]);
    tables.add(
        tag::POST,
        post_v2(
            3087,
            &[(5, 139)],
            &[
                (45, "uni25B6"),
                (71, "smileface"),
                (1311, "u1FA95"),
                (3086, "1f468-200d-1f33e"),
            ],
        ),
    );
    let font_data_impl = face(tables);

    let names = font_data_impl.glyph_names(&[0, 5, 45, 71, 1311, 3086]);
    assert_eq!(
        names,
        &[
            String::from(".notdef"),
            String::from("copyright"),
            String::from("uni25B6"),
            String::from("smileface"),
            String::from("u1FA95"),
            String::from("1f468-200d-1f33e")
        ]
    );
}

#[test]
fn test_glyph_names_post_v3() {
    // The font has a version 3 post table (no names in table), so the names
    // come from the character map.
    let mut tables = base_font(800, &[(0x24, 5), (0x4C, 45), (0xA5, 100), (0xFB00, 763)]);
    tables.add(tag::POST, post_header(0x00030000));
    let font_data_impl = face(tables);

    let names = font_data_impl.glyph_names(&[0, 5, 45, 100, 763, 1000 /* out of range */]);
    assert_eq!(
        names,
        &[
            String::from(".notdef"),
            String::from("dollar"),
            String::from("L"),
            String::from("yen"),
            String::from("uniFB00"),
            String::from("g1000") // out of range gid is assigned fallback name
        ]
    );
}

#[test]
fn test_lookup_sbix() {
    let mut font_data_impl = face(sbix_dupe_font());

    // Successfully read bitmap
    match font_data_impl.lookup_glyph_image(1, 100, BitDepth::ThirtyTwo) {
        Ok(Some(BitmapGlyph {
            bitmap: Bitmap::Encapsulated(EncapsulatedBitmap { data, .. }),
            ..
        })) => {
            assert_eq!(data.len(), 224);
        }
        _ => panic!("Expected encapsulated bitmap, got something else."),
    }

    // Successfully read bitmap pointed at by `dupe` record. Should end up returning data for
    // glyph 1.
    match font_data_impl.lookup_glyph_image(2, 100, BitDepth::ThirtyTwo) {
        Ok(Some(BitmapGlyph {
            bitmap: Bitmap::Encapsulated(EncapsulatedBitmap { data, .. }),
            ..
        })) => {
            assert_eq!(data.len(), 224);
        }
        _ => panic!("Expected encapsulated bitmap, got something else."),
    }

    // Handle recursive `dupe` record. Should return Ok(None) as recursion is stopped at one
    // level.
    match font_data_impl.lookup_glyph_image(3, 100, BitDepth::ThirtyTwo) {
        Ok(None) => {}
        _ => panic!("Expected Ok(None) got something else"),
    }
}

#[test]
fn sbix_dupe_gives_the_image_of_its_target() {
    let mut font = face(sbix_dupe_font());
    let direct = font.lookup_glyph_image(1, 100, BitDepth::ThirtyTwo).unwrap();
    let through = font.lookup_glyph_image(2, 100, BitDepth::ThirtyTwo).unwrap();
    assert!(direct.is_some());
    assert_eq!(direct, through);
    match direct.unwrap().bitmap {
        Bitmap::Encapsulated(bitmap) => assert_eq!(bitmap.format, EncapsulatedFormat::Png),
        _ => panic!("expected an encapsulated image"),
    }
}

#[test]
fn sbix_dupe_of_itself_gives_no_image() {
    let mut font = face(sbix_dupe_font());
    assert_eq!(font.lookup_glyph_image(4, 100, BitDepth::ThirtyTwo), Ok(None));
}

#[test]
fn sbix_glyph_without_record_gives_no_image() {
    let mut font = face(sbix_dupe_font());
    assert_eq!(font.lookup_glyph_image(0, 100, BitDepth::ThirtyTwo), Ok(None));
    // A glyph that the font does not have.
    assert_eq!(font.lookup_glyph_image(9, 100, BitDepth::ThirtyTwo), Ok(None));
}

#[test]
fn sbix_needs_thirty_two_bits() {
    let mut font = face(sbix_dupe_font());
    assert_eq!(font.lookup_glyph_image(1, 100, BitDepth::Eight), Ok(None));
}

#[test]
fn construction_reads_required_tables() {
    let font = face(base_font(7, &[(0x41, 1)]));
    assert_eq!(font.num_glyphs(), 7);
    assert_eq!(font.maxp_table.num_glyphs, 7);
    assert_eq!(font.hhea_table.ascender, 800);
    assert_eq!(font.hhea_table.descender, -200);
    assert_eq!(font.hhea_table.num_h_metrics, 1);
    assert_eq!(font.cmap_subtable_encoding, Encoding::Unicode);
    assert_eq!(font.outline_format, OutlineFormat::NoOutlines);
    assert_eq!(font.cmap_subtable_data().len(), 16 + 8 * 2);
}

#[test]
fn construction_fails_without_required_table() {
    for missing in [tag::CMAP, tag::MAXP, tag::HHEA, tag::HMTX] {
        let full = base_font(3, &[(0x41, 1)]);
        let mut tables = MemoryTables::new();
        for entry in full.entries {
            if entry.tag != missing {
                tables.add(entry.tag, entry.data);
            }
        }
        match FontDataImpl::new(Box::new(tables)) {
            Err(ParseError::MissingValue) => {}
            _ => panic!("expected MissingValue"),
        }
    }
}

#[test]
fn construction_fails_on_malformed_table() {
    let full = base_font(3, &[(0x41, 1)]);
    let mut tables = MemoryTables::new();
    tables.add(tag::MAXP, vec![0, 0, 0x50]);
    for entry in full.entries {
        tables.add(entry.tag, entry.data);
    }
    match FontDataImpl::new(Box::new(tables)) {
        Err(ParseError::BadEof) => {}
        _ => panic!("expected BadEof"),
    }
}

#[test]
fn construction_without_usable_cmap_gives_no_face() {
    // One subtable, for the Macintosh platform with an encoding that is
    // not Roman.
    let mut cmap = Vec::new();
    be16(&mut cmap, 0);
    be16(&mut cmap, 1);
    be16(&mut cmap, 1);
    be16(&mut cmap, 7);
    be32(&mut cmap, 12);
    let mut tables = MemoryTables::new();
    tables.add(tag::CMAP, cmap);
    tables.add(tag::MAXP, maxp(3));
    tables.add(tag::HHEA, hhea(1));
    tables.add(tag::HMTX, hmtx(&[600], 2));
    match FontDataImpl::new(Box::new(tables)) {
        Ok(None) => {}
        _ => panic!("expected no face"),
    }
}

#[test]
fn construction_checks_subtable_offset() {
    let mut cmap = Vec::new();
    be16(&mut cmap, 0);
    be16(&mut cmap, 1);
    be16(&mut cmap, 3);
    be16(&mut cmap, 1);
    be32(&mut cmap, 13);
    let mut tables = MemoryTables::new();
    tables.add(tag::CMAP, cmap);
    tables.add(tag::MAXP, maxp(3));
    tables.add(tag::HHEA, hhea(1));
    tables.add(tag::HMTX, hmtx(&[600], 2));
    match FontDataImpl::new(Box::new(tables)) {
        Err(ParseError::BadOffset) => {}
        _ => panic!("expected BadOffset"),
    }
}

#[test]
fn outline_format_follows_tables() {
    let mut tables = base_font(3, &[(0x41, 1)]);
    tables.add(tag::GLYF, Vec::new());
    tables.add(tag::CFF, Vec::new());
    assert_eq!(face(tables).outline_format, OutlineFormat::Glyf);

    let mut tables = base_font(3, &[(0x41, 1)]);
    tables.add(tag::CFF, Vec::new());
    assert_eq!(face(tables).outline_format, OutlineFormat::Cff);

    let mut tables = base_font(3, &[(0x41, 1)]);
    tables.add(tag::GLYF, Vec::new());
    tables.add(tag::SVG, Vec::new());
    assert_eq!(face(tables).outline_format, OutlineFormat::NoOutlines);

    let mut tables = sbix_dupe_font();
    tables.add(tag::GLYF, Vec::new());
    assert_eq!(face(tables).outline_format, OutlineFormat::NoOutlines);
}

#[test]
fn lookup_glyph_index_maps_and_falls_back_to_zero() {
    let font = face(base_font(900, &[(0x24, 5), (0x4C, 45), (0xFB00, 763)]));
    assert_eq!(font.lookup_glyph_index(0x24), 5);
    assert_eq!(font.lookup_glyph_index(0x4C), 45);
    assert_eq!(font.lookup_glyph_index(0xFB00), 763);
    // Codes that the subtable does not map.
    assert_eq!(font.lookup_glyph_index(0x25), 0);
    assert_eq!(font.lookup_glyph_index(0), 0);
    assert_eq!(font.lookup_glyph_index(0xFFFF), 0);
    assert_eq!(font.lookup_glyph_index(0x1F600), 0);
    assert_eq!(font.lookup_glyph_index(u32::MAX), 0);
}

#[test]
fn lookup_glyph_index_with_unreadable_subtable_is_zero() {
    // The subtable says it has format 99.
    let mut cmap = Vec::new();
    be16(&mut cmap, 0);
    be16(&mut cmap, 1);
    be16(&mut cmap, 3);
    be16(&mut cmap, 1);
    be32(&mut cmap, 12);
    be16(&mut cmap, 99);
    let mut tables = MemoryTables::new();
    tables.add(tag::CMAP, cmap);
    tables.add(tag::MAXP, maxp(3));
    tables.add(tag::HHEA, hhea(1));
    tables.add(tag::HMTX, hmtx(&[600], 2));
    let font = face(tables);
    assert_eq!(font.lookup_glyph_index(0x41), 0);
    assert_eq!(font.glyph_names(&[0, 2]), &[String::from(".notdef"), String::from("g2")]);
}

#[test]
fn glyph_names_from_standard_names() {
    let mut tables = base_font(300, &[(0x41, 1)]);
    tables.add(tag::POST, post_header(0x00010000));
    let font = face(tables);
    assert_eq!(font.glyph_names(&[0]), &[String::from(".notdef")]);
    assert_eq!(
        font.glyph_names(&[3, 36, 257, 258]),
        &[
            String::from("space"),
            String::from("A"),
            String::from("dcroat"),
            String::from("g258")
        ]
    );
}

#[test]
fn glyph_names_are_made_unique() {
    let mut tables = base_font(10, &[(0x41, 1)]);
    tables.add(tag::POST, post_v2(10, &[(1, 36), (2, 36), (3, 36)], &[(4, "A")]));
    let font = face(tables);
    assert_eq!(
        font.glyph_names(&[1, 2, 5, 3, 4, 1]),
        &[
            String::from("A"),
            String::from("A.alt01"),
            String::from(".notdef"),
            String::from("A.alt02"),
            String::from("A.alt03"),
            String::from("A.alt04")
        ]
    );
}

#[test]
fn glyph_names_can_repeat_where_a_name_looks_suffixed() {
    // Glyph 3 is named as the second `A` will be.
    let mut tables = base_font(10, &[(0x41, 1)]);
    tables.add(tag::POST, post_v2(10, &[(1, 36), (2, 36)], &[(3, "A.alt01")]));
    let font = face(tables);
    assert_eq!(
        font.glyph_names(&[1, 2, 3]),
        &[String::from("A"), String::from("A.alt01"), String::from("A.alt01")]
    );
}

#[test]
fn glyph_names_without_sources() {
    let font = face(base_font(10, &[]));
    assert_eq!(
        font.glyph_names(&[0, 1, 65535]),
        &[String::from(".notdef"), String::from("g1"), String::from("g65535")]
    );
    assert!(font.glyph_names(&[]).is_empty());
}

#[test]
fn horizontal_advance_uses_last_full_metric() {
    let mut tables = MemoryTables::new();
    tables.add(tag::CMAP, cmap_format4(&[(0x41, 1)]));
    tables.add(tag::MAXP, maxp(4));
    tables.add(tag::HHEA, hhea(2));
    tables.add(tag::HMTX, hmtx(&[500, 1000], 2));
    let mut font = face(tables);
    assert_eq!(font.horizontal_advance(0), Some(500));
    assert_eq!(font.horizontal_advance(1), Some(1000));
    assert_eq!(font.horizontal_advance(3), Some(1000));
    // A glyph that the font does not have.
    assert_eq!(font.horizontal_advance(4), Some(0));
}

#[test]
fn horizontal_advance_of_short_table_is_none() {
    let mut tables = MemoryTables::new();
    tables.add(tag::CMAP, cmap_format4(&[(0x41, 1)]));
    tables.add(tag::MAXP, maxp(4));
    tables.add(tag::HHEA, hhea(2));
    tables.add(tag::HMTX, hmtx(&[500], 0));
    let mut font = face(tables);
    assert_eq!(font.horizontal_advance(0), None);
}

#[test]
fn vertical_advance_needs_both_tables() {
    let mut font = face(base_font(3, &[(0x41, 1)]));
    assert_eq!(font.vertical_advance(1), None);

    let mut tables = base_font(3, &[(0x41, 1)]);
    tables.add(tag::VMTX, hmtx(&[900, 950, 1000], 0));
    let mut font = face(tables);
    assert_eq!(font.vertical_advance(1), None);
    assert_eq!(font.vhea_table(), Ok(None));

    let mut tables = base_font(3, &[(0x41, 1)]);
    tables.add(tag::VHEA, hhea(3));
    let mut font = face(tables);
    assert_eq!(font.vertical_advance(1), None);

    let mut tables = base_font(3, &[(0x41, 1)]);
    tables.add(tag::VHEA, hhea(3));
    tables.add(tag::VMTX, hmtx(&[900, 950, 1000], 0));
    let mut font = face(tables);
    assert_eq!(font.vertical_advance(1), Some(950));
    assert_eq!(font.vertical_advance(2), Some(1000));
    assert_eq!(font.vertical_advance(1), Some(950));
    assert_eq!(font.vhea_table().unwrap().unwrap().num_h_metrics, 3);
}

#[test]
fn vertical_advance_with_bad_metrics_is_none() {
    let mut tables = base_font(3, &[(0x41, 1)]);
    tables.add(tag::VHEA, hhea(3));
    tables.add(tag::VMTX, hmtx(&[900], 0));
    let mut font = face(tables);
    assert_eq!(font.vertical_advance(0), None);
}

#[test]
fn supports_emoji_follows_images() {
    let mut font = face(base_font(3, &[(0x41, 1)]));
    assert!(!font.supports_emoji());
    assert_eq!(font.lookup_glyph_image(1, 100, BitDepth::ThirtyTwo), Ok(None));
    assert!(!font.supports_emoji());
    assert!(matches!(font.embedded_images(), Ok(None)));

    let mut font = face(sbix_dupe_font());
    assert!(font.supports_emoji());
    assert!(font.supports_emoji());
}

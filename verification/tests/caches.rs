use std::cell::Cell;
use std::rc::Rc;

use font_data::error::ParseError;
use font_data::font_data_impl::FontDataImpl;
use font_data::lazy_load::LazyLoad;
use font_data::tables::{FontTableProvider, MemoryTables};
use font_data::tag;

fn be16(out: &mut Vec<u8>, value: u16) {
    out.push((value >> 8) as u8);
    out.push(value as u8);
}

fn be32(out: &mut Vec<u8>, value: u32) {
    be16(out, (value >> 16) as u16);
    be16(out, value as u16);
}

/// A `cmap` table with one subtable of format 0 for the Macintosh platform,
/// Roman, that maps every code to no glyph.
fn cmap_format0() -> Vec<u8> {
    let mut table = Vec::new();
    be16(&mut table, 0);
    be16(&mut table, 1);
    be16(&mut table, 1);
    be16(&mut table, 0);
    be32(&mut table, 12);
    be16(&mut table, 0);
    be16(&mut table, 262);
    be16(&mut table, 0);
    table.extend_from_slice(&[0u8; 256]);
    table
}

fn header(num_metrics: u16) -> Vec<u8> {
    let mut table = Vec::new();
    be16(&mut table, 1);
    for _ in 0..16 {
        be16(&mut table, 0);
    }
    be16(&mut table, num_metrics);
    table
}

fn base_tables() -> MemoryTables {
    let mut tables = MemoryTables::new();
    tables.add(tag::CMAP, cmap_format0());
    tables.add(tag::MAXP, vec![0, 0, 0x50, 0, 0, 2]);
    tables.add(tag::HHEA, header(2));
    tables.add(tag::HMTX, vec![0, 100, 0, 0, 0, 200, 0, 0]);
    tables
}

/// A provider that counts how often each call is made, and that fails to
/// read any table but the required ones while `broken` is set.
struct Counting {
    tables: MemoryTables,
    broken: Rc<Cell<bool>>,
    reads: Rc<Cell<usize>>,
}

impl FontTableProvider for Counting {
    fn table_data(&self, tag: u32) -> Result<Option<Vec<u8>>, ParseError> {
        self.reads.set(self.reads.get() + 1);
        let required = tag == tag::CMAP || tag == tag::MAXP || tag == tag::HHEA || tag == tag::HMTX;
        if self.broken.get() && !required {
            return Err(ParseError::BadIndex);
        }
        self.tables.table_data(tag)
    }

    fn has_table(&self, tag: u32) -> bool {
        self.tables.has_table(tag)
    }
}

fn counting(tables: MemoryTables) -> (FontDataImpl<Counting>, Rc<Cell<bool>>, Rc<Cell<usize>>) {
    let broken = Rc::new(Cell::new(false));
    let reads = Rc::new(Cell::new(0));
    let provider = Counting { tables, broken: broken.clone(), reads: reads.clone() };
    let face = FontDataImpl::new(Box::new(provider)).unwrap().unwrap();
    reads.set(0);
    (face, broken, reads)
}

fn gdef(minor: u16) -> Vec<u8> {
    let mut table = Vec::new();
    be16(&mut table, 1);
    be16(&mut table, minor);
    be16(&mut table, 12);
    be16(&mut table, 0);
    be16(&mut table, 0);
    be16(&mut table, 0);
    if minor >= 2 {
        be16(&mut table, 20);
    }
    if minor >= 3 {
        be32(&mut table, 24);
    }
    table
}

fn layout(minor: u16) -> Vec<u8> {
    let mut table = Vec::new();
    be16(&mut table, 1);
    be16(&mut table, minor);
    be16(&mut table, 10);
    be16(&mut table, 12);
    be16(&mut table, 14);
    if minor >= 1 {
        be32(&mut table, 0);
    }
    table.extend_from_slice(&[0u8; 8]);
    table
}

#[test]
fn lazy_load_calls_the_load_once() {
    let mut cache: LazyLoad<u32> = LazyLoad::NotLoaded;
    let calls = Cell::new(0);
    let first = cache.get_or_load(|| {
        calls.set(calls.get() + 1);
        Ok(Some(Rc::new(7)))
    });
    assert_eq!(first, Ok(Some(Rc::new(7))));
    let second = cache.get_or_load(|| {
        calls.set(calls.get() + 1);
        Ok(Some(Rc::new(8)))
    });
    assert_eq!(second, Ok(Some(Rc::new(7))));
    assert_eq!(calls.get(), 1);
    assert!(matches!(cache, LazyLoad::Loaded(Some(_))));
}

#[test]
fn lazy_load_keeps_absence() {
    let mut cache: LazyLoad<u32> = LazyLoad::NotLoaded;
    assert_eq!(cache.get_or_load(|| Ok(None)), Ok(None));
    assert_eq!(cache.get_or_load(|| Ok(Some(Rc::new(1)))), Ok(None));
    assert_eq!(cache.get_or_load(|| Err(ParseError::BadEof)), Ok(None));
    assert!(matches!(cache, LazyLoad::Loaded(None)));
}

#[test]
fn lazy_load_does_not_keep_an_error() {
    let mut cache: LazyLoad<u32> = LazyLoad::NotLoaded;
    assert_eq!(cache.get_or_load(|| Err(ParseError::BadValue)), Err(ParseError::BadValue));
    assert!(matches!(cache, LazyLoad::NotLoaded));
    assert_eq!(cache.get_or_load(|| Err(ParseError::BadEof)), Err(ParseError::BadEof));
    assert_eq!(cache.get_or_load(|| Ok(Some(Rc::new(3)))), Ok(Some(Rc::new(3))));
    assert_eq!(cache.get_or_load(|| Err(ParseError::BadEof)), Ok(Some(Rc::new(3))));
}

#[test]
fn gdef_is_loaded_once_and_repeats() {
    let mut tables = base_tables();
    tables.add(tag::GDEF, gdef(3));
    let (mut face, _broken, reads) = counting(tables);
    let first = face.gdef_table().unwrap().unwrap();
    assert_eq!(reads.get(), 1);
    assert_eq!(first.header.minor_version, 3);
    assert_eq!(first.header.glyph_class_def, 12);
    assert_eq!(first.header.mark_glyph_sets_def, Some(20));
    assert_eq!(first.header.item_var_store, Some(24));
    assert_eq!(first.data, gdef(3));
    let second = face.gdef_table().unwrap().unwrap();
    assert_eq!(reads.get(), 1);
    assert_eq!(first, second);
    assert!(Rc::ptr_eq(&first, &second));
}

#[test]
fn absent_optional_tables_are_no_error() {
    let (mut face, _broken, reads) = counting(base_tables());
    assert_eq!(face.gdef_table(), Ok(None));
    assert!(face.gsub_cache().unwrap().is_none());
    assert!(face.gpos_cache().unwrap().is_none());
    assert_eq!(face.vhea_table(), Ok(None));
    assert_eq!(face.head_table(), Ok(None));
    assert_eq!(face.os2_table(), Ok(None));
    let after_first = reads.get();
    assert_eq!(face.gdef_table(), Ok(None));
    assert!(face.gsub_cache().unwrap().is_none());
    assert!(face.gpos_cache().unwrap().is_none());
    assert_eq!(face.vhea_table(), Ok(None));
    // What is cached is not fetched again.
    assert_eq!(reads.get(), after_first);
}

#[test]
fn failed_load_is_tried_again() {
    let mut tables = base_tables();
    tables.add(tag::GSUB, layout(1));
    tables.add(tag::GPOS, layout(0));
    tables.add(tag::VHEA, header(2));
    let (mut face, broken, reads) = counting(tables);
    broken.set(true);
    assert!(matches!(face.gsub_cache(), Err(ParseError::BadIndex)));
    assert!(matches!(face.gpos_cache(), Err(ParseError::BadIndex)));
    assert_eq!(face.vhea_table(), Err(ParseError::BadIndex));
    assert_eq!(face.vertical_advance(0), None);
    assert!(!face.supports_emoji());
    let failed = reads.get();
    assert!(failed >= 4);
    broken.set(false);
    let gsub = face.gsub_cache().unwrap().unwrap();
    assert_eq!(gsub.layout_table.header.minor_version, 1);
    assert_eq!(gsub.layout_table.header.script_list, 10);
    assert_eq!(gsub.layout_table.header.feature_list, 12);
    assert_eq!(gsub.layout_table.header.lookup_list, 14);
    assert_eq!(gsub.layout_table.header.feature_variations, Some(0));
    let gpos = face.gpos_cache().unwrap().unwrap();
    assert_eq!(gpos.layout_table.header.minor_version, 0);
    assert_eq!(gpos.layout_table.header.feature_variations, None);
    assert_eq!(gpos.layout_table.data, layout(0));
    assert_eq!(face.vhea_table().unwrap().unwrap().num_h_metrics, 2);
    let loaded = reads.get();
    assert_eq!(loaded, failed + 3);
    // From here on nothing is fetched, even from a provider that fails.
    broken.set(true);
    assert!(Rc::ptr_eq(&gsub, &face.gsub_cache().unwrap().unwrap()));
    assert!(Rc::ptr_eq(&gpos, &face.gpos_cache().unwrap().unwrap()));
    assert_eq!(face.vhea_table().unwrap().unwrap().num_h_metrics, 2);
    assert_eq!(reads.get(), loaded);
}

#[test]
fn malformed_optional_table_is_an_error_every_time() {
    let mut tables = base_tables();
    tables.add(tag::GDEF, vec![0, 2, 0, 0, 0, 0, 0, 0, 0, 0, 0, 0]);
    tables.add(tag::GSUB, vec![0, 1, 0]);
    tables.add(tag::VHEA, vec![0, 1]);
    let (mut face, _broken, _reads) = counting(tables);
    assert_eq!(face.gdef_table(), Err(ParseError::BadVersion));
    assert_eq!(face.gdef_table(), Err(ParseError::BadVersion));
    assert!(matches!(face.gsub_cache(), Err(ParseError::BadEof)));
    assert_eq!(face.vhea_table(), Err(ParseError::BadEof));
    assert_eq!(face.vhea_table(), Err(ParseError::BadEof));
}

#[test]
fn memory_tables_find_the_first_entry() {
    let mut tables = MemoryTables::new();
    assert_eq!(tables.table_data(tag::HEAD), Ok(None));
    assert!(!tables.has_table(tag::HEAD));
    assert_eq!(tables.read_table_data(tag::HEAD), Err(ParseError::MissingValue));
    tables.add(tag::HEAD, vec![1, 2, 3]);
    tables.add(tag::POST, vec![4]);
    tables.add(tag::HEAD, vec![5, 6]);
    assert_eq!(tables.table_data(tag::HEAD), Ok(Some(vec![1, 2, 3])));
    assert_eq!(tables.read_table_data(tag::POST), Ok(vec![4]));
    assert!(tables.has_table(tag::POST));
    assert!(!tables.has_table(tag::GDEF));
}

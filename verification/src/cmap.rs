//! The `cmap` table: its directory of subtables.

use vstd::prelude::*;
use crate::binary::{be_u16, be_u32, u16_at, u32_at};
use crate::error::ParseError;

verus! {

/// Platform: Unicode.
pub const PLATFORM_UNICODE: u16 = 0;

/// Platform: Macintosh.
pub const PLATFORM_MACINTOSH: u16 = 1;

/// Platform: Windows.
pub const PLATFORM_WINDOWS: u16 = 3;

/// Windows platform: symbol encoding.
pub const WINDOWS_SYMBOL: u16 = 0;

/// Windows platform: Unicode, basic multilingual plane only.
pub const WINDOWS_UNICODE_BMP_UCS2: u16 = 1;

/// Windows platform: Big5.
pub const WINDOWS_BIG5: u16 = 4;

/// Windows platform: Unicode, full repertoire.
pub const WINDOWS_UNICODE_UCS4: u16 = 10;

/// Macintosh platform: Roman script.
pub const MACINTOSH_APPLE_ROMAN: u16 = 0;

/// Unicode platform: Unicode 2.0 and later, full repertoire.
pub const MACINTOSH_UNICODE_UCS4: u16 = 4;

/// One entry of the directory: which platform and encoding a subtable is
/// for, and where in the table it starts.
#[derive(Clone, Copy, Debug, PartialEq, Eq, Structural)]
pub struct EncodingRecord {
    pub platform_id: u16,
    pub encoding_id: u16,
    pub offset: u32,
}

/// A `cmap` table: the bytes of the whole table and its directory.
pub struct Cmap<'a> {
    pub scope: &'a [u8],
    pub encoding_records: Vec<EncodingRecord>,
}

/// The directory entry stored at `at`.
pub open spec fn spec_encoding_record(data: Seq<u8>, at: int) -> EncodingRecord {
    EncodingRecord {
        platform_id: be_u16(data, at) as u16,
        encoding_id: be_u16(data, at + 2) as u16,
        offset: be_u32(data, at + 4) as u32,
    }
}

/// The directory of a `cmap` table: version 0, a count, and that many
/// entries of eight bytes each.
pub open spec fn spec_cmap_records(data: Seq<u8>) -> Result<Seq<EncodingRecord>, ParseError> {
    if data.len() < 4 {
        Err(ParseError::BadEof)
    } else if be_u16(data, 0) != 0 {
        Err(ParseError::BadVersion)
    } else if data.len() < 4 + 8 * be_u16(data, 2) {
        Err(ParseError::BadEof)
    } else {
        Ok(Seq::new(be_u16(data, 2) as nat, |i: int| spec_encoding_record(data, 4 + 8 * i)))
    }
}

/// Whether `record` is for `platform` and, where one is asked for, for
/// `encoding`.
pub open spec fn record_fits(record: EncodingRecord, platform: u16, encoding: Option<u16>) -> bool {
    &&& record.platform_id == platform
    &&& encoding matches Some(e) ==> record.encoding_id == e
}

/// Whether entry `i` fits and no entry before it does.
pub open spec fn is_first_fit(
    records: Seq<EncodingRecord>,
    platform: u16,
    encoding: Option<u16>,
    i: int,
) -> bool {
    &&& 0 <= i < records.len()
    &&& record_fits(records[i], platform, encoding)
    &&& forall|j: int| 0 <= j < i ==> !record_fits(#[trigger] records[j], platform, encoding)
}

/// The first entry of the directory that fits, if any does.
pub open spec fn spec_first_fit(
    records: Seq<EncodingRecord>,
    platform: u16,
    encoding: Option<u16>,
) -> Option<EncodingRecord> {
    if exists|i: int| is_first_fit(records, platform, encoding, i) {
        Some(records[choose|i: int| is_first_fit(records, platform, encoding, i)])
    } else {
        None
    }
}

/// The directory has an entry that fits exactly when a first one exists.
pub proof fn lemma_first_fit_is_some(
    records: Seq<EncodingRecord>,
    platform: u16,
    encoding: Option<u16>,
)
    ensures
        spec_first_fit(records, platform, encoding) is Some <==> exists|i: int|
            0 <= i < records.len() && record_fits(#[trigger] records[i], platform, encoding),
        spec_first_fit(records, platform, encoding) matches Some(record) ==> record_fits(
            record,
            platform,
            encoding,
        ) && records.contains(record),
{
    if exists|i: int|
        0 <= i < records.len() && record_fits(#[trigger] records[i], platform, encoding) {
        let k = choose|i: int|
            0 <= i < records.len() && record_fits(#[trigger] records[i], platform, encoding);
        lemma_least_fit(records, platform, encoding, k);
    }
}

proof fn lemma_least_fit(
    records: Seq<EncodingRecord>,
    platform: u16,
    encoding: Option<u16>,
    k: int,
)
    requires
        0 <= k < records.len(),
        record_fits(records[k], platform, encoding),
    ensures
        exists|i: int| is_first_fit(records, platform, encoding, i),
    decreases k,
{
    if exists|j: int| 0 <= j < k && record_fits(#[trigger] records[j], platform, encoding) {
        let j = choose|j: int| 0 <= j < k && record_fits(#[trigger] records[j], platform, encoding);
        lemma_least_fit(records, platform, encoding, j);
    } else {
        assert(is_first_fit(records, platform, encoding, k));
    }
}

impl<'a> Cmap<'a> {
    /// Reads the directory of the `cmap` table in `data`.
    pub fn read(data: &'a [u8]) -> (r: Result<Cmap<'a>, ParseError>)
        ensures
            match r {
                Ok(cmap) => cmap.scope@ == data@ && spec_cmap_records(data@) == Ok::<
                    Seq<EncodingRecord>,
                    ParseError,
                >(cmap.encoding_records@),
                Err(e) => spec_cmap_records(data@) == Err::<Seq<EncodingRecord>, ParseError>(e),
            },
    {
        if data.len() < 4 {
            return Err(ParseError::BadEof);
        }
        let version: u16 = u16_at(data, 0);
        if version != 0 {
            return Err(ParseError::BadVersion);
        }
        let count: usize = u16_at(data, 2) as usize;
        if (data.len() - 4) / 8 < count {
            return Err(ParseError::BadEof);
        }
        let mut records: Vec<EncodingRecord> = Vec::new();
        let mut i: usize = 0;
        while i < count
            invariant
                i <= count,
                count == be_u16(data@, 2),
                4 + 8 * count <= data@.len(),
                records@.len() == i,
                forall|k: int|
                    0 <= k < i ==> #[trigger] records@[k] == spec_encoding_record(data@, 4 + 8 * k),
            decreases count - i,
        {
            let at: usize = 4 + 8 * i;
            records.push(
                EncodingRecord {
                    platform_id: u16_at(data, at),
                    encoding_id: u16_at(data, at + 2),
                    offset: u32_at(data, at + 4),
                },
            );
            i += 1;
        }
        assert(records@ =~= spec_cmap_records(data@)->Ok_0);
        Ok(Cmap { scope: data, encoding_records: records })
    }

    /// The first subtable for `platform` and `encoding`.
    pub fn find_subtable(&self, platform: u16, encoding: u16) -> (r: Option<EncodingRecord>)
        ensures
            r == spec_first_fit(self.encoding_records@, platform, Some(encoding)),
    {
        first_fit(&self.encoding_records, platform, Some(encoding))
    }

    /// The first subtable for `platform`, whatever its encoding.
    pub fn find_subtable_for_platform(&self, platform: u16) -> (r: Option<EncodingRecord>)
        ensures
            r == spec_first_fit(self.encoding_records@, platform, None),
    {
        first_fit(&self.encoding_records, platform, None)
    }
}

/// Walks the directory from its start and stops at the first entry that fits.
fn first_fit(records: &Vec<EncodingRecord>, platform: u16, encoding: Option<u16>) -> (r: Option<
    EncodingRecord,
>)
    ensures
        r == spec_first_fit(records@, platform, encoding),
{
    let mut i: usize = 0;
    while i < records.len()
        invariant
            i <= records@.len(),
            forall|j: int| 0 <= j < i ==> !record_fits(#[trigger] records@[j], platform, encoding),
        decreases records@.len() - i,
    {
        let record = records[i];
        let fits = record.platform_id == platform && match encoding {
            Some(e) => record.encoding_id == e,
            None => true,
        };
        if fits {
            assert(is_first_fit(records@, platform, encoding, i as int));
            return Some(record);
        }
        i += 1;
    }
    Option::None
}

} // verus!

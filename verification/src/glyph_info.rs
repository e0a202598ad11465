//! What is known of single glyphs: their advances and their names.

use vstd::prelude::*;
use crate::binary::{be_u16, u16_at};
use crate::cmap_subtable::{spec_code_limit, spec_map_glyph, CmapSubtable, SubtableFormat};
use crate::error::ParseError;
use crate::font_data_impl::Encoding;
use crate::glyph_names::{
    fallback_name,
    spec_fallback_name,
    spec_unicode_name,
    unicode_name,
};
use crate::post::{post_glyph_name, spec_post_name};
use crate::tables::{HheaTable, MaxpTable};
use vstd::string::StringExecFns;

verus! {

/// The advance of `glyph`, from a metrics table `metrics` that has a full
/// entry of four bytes for each of the first `hhea.num_h_metrics` glyphs
/// and a bearing of two bytes for each glyph after them. A glyph after
/// them has the advance of the last full entry, and a glyph that the font
/// does not have has 0. `BadValue` where there are more full entries than
/// glyphs, `BadEof` where the table is shorter than its entries,
/// `BadIndex` where a glyph needs the last full entry and there is none.
pub open spec fn spec_advance(maxp: MaxpTable, hhea: HheaTable, metrics: Seq<u8>, glyph: u16) -> Result<
    u16,
    ParseError,
> {
    if hhea.num_h_metrics > maxp.num_glyphs {
        Err(ParseError::BadValue)
    } else if metrics.len() < 4 * hhea.num_h_metrics + 2 * (maxp.num_glyphs - hhea.num_h_metrics) {
        Err(ParseError::BadEof)
    } else if glyph >= maxp.num_glyphs {
        Ok(0)
    } else if glyph < hhea.num_h_metrics {
        Ok(be_u16(metrics, 4 * glyph) as u16)
    } else if hhea.num_h_metrics > 0 {
        Ok(be_u16(metrics, 4 * (hhea.num_h_metrics - 1)) as u16)
    } else {
        Err(ParseError::BadIndex)
    }
}

/// The advance of `glyph`: the horizontal one from `hhea` and the bytes of
/// `hmtx`, the vertical one from `vhea` and the bytes of `vmtx`.
pub fn advance(maxp: &MaxpTable, hhea: &HheaTable, metrics: &[u8], glyph: u16) -> (r: Result<
    u16,
    ParseError,
>)
    ensures
        r == spec_advance(*maxp, *hhea, metrics@, glyph),
{
    let num_glyphs: usize = maxp.num_glyphs as usize;
    let num_metrics: usize = hhea.num_h_metrics as usize;
    if num_metrics > num_glyphs {
        return Err(ParseError::BadValue);
    }
    if metrics.len() < 4 * num_metrics + 2 * (num_glyphs - num_metrics) {
        return Err(ParseError::BadEof);
    }
    if glyph >= maxp.num_glyphs {
        Ok(0)
    } else if (glyph as usize) < num_metrics {
        Ok(u16_at(metrics, 4 * (glyph as usize)))
    } else if num_metrics > 0 {
        Ok(u16_at(metrics, 4 * (num_metrics - 1)))
    } else {
        Err(ParseError::BadIndex)
    }
}

/// Whether `code` is the least code that the subtable maps to `glyph`.
pub open spec fn is_first_code(format: SubtableFormat, data: Seq<u8>, glyph: u16, code: u32) -> bool {
    &&& code < spec_code_limit(format)
    &&& spec_map_glyph(format, data, code) == Ok::<Option<u16>, ParseError>(Some(glyph))
    &&& forall|lower: u32|
        lower < code ==> #[trigger] spec_map_glyph(format, data, lower) != Ok::<
            Option<u16>,
            ParseError,
        >(Some(glyph))
}

/// The least code that the subtable maps to `glyph`, among the codes that
/// a subtable of its format can map.
pub open spec fn spec_first_code(format: SubtableFormat, data: Seq<u8>, glyph: u16) -> Option<u32> {
    if exists|code: u32| is_first_code(format, data, glyph, code) {
        Some(choose|code: u32| is_first_code(format, data, glyph, code))
    } else {
        None
    }
}

/// A `cmap` subtable turned around: for each glyph the least character
/// code that is mapped to it.
pub struct CmapMappings {
    encoding: Encoding,
    format: Ghost<SubtableFormat>,
    data: Ghost<Seq<u8>>,
    /// For each glyph one more than its code, or 0 where it has none.
    codes: Vec<u32>,
}

impl CmapMappings {
    /// How the codes of the subtable are to be read.
    pub closed spec fn encoding(&self) -> Encoding {
        self.encoding
    }

    /// The format of the subtable.
    pub closed spec fn kind(&self) -> SubtableFormat {
        self.format@
    }

    /// The bytes of the subtable.
    pub closed spec fn bytes(&self) -> Seq<u8> {
        self.data@
    }

    /// `codes` holds, for every glyph, the least code of the subtable that
    /// is mapped to it.
    #[verifier::type_invariant]
    spec fn inv(&self) -> bool {
        &&& self.codes@.len() == 0x10000
        &&& forall|glyph: u16|
            #![trigger self.codes@[glyph as int]]
            {
                &&& self.codes@[glyph as int] != 0 ==> is_first_code(
                    self.format@,
                    self.data@,
                    glyph,
                    (self.codes@[glyph as int] - 1) as u32,
                )
                &&& self.codes@[glyph as int] == 0 ==> forall|code: u32|
                    code < spec_code_limit(self.format@) ==> #[trigger] spec_map_glyph(
                        self.format@,
                        self.data@,
                        code,
                    ) != Ok::<Option<u16>, ParseError>(Some(glyph))
            }
    }

    /// Turns `subtable` around. This asks the subtable for every code that
    /// a subtable of its format can map, from the least on.
    pub fn new(encoding: Encoding, subtable: &CmapSubtable<'_>) -> (r: CmapMappings)
        ensures
            r.encoding() == encoding,
            r.kind() == subtable.kind(),
            r.bytes() == subtable.bytes(),
    {
        let mut codes: Vec<u32> = Vec::new();
        let mut n: usize = 0;
        while n < 0x10000
            invariant
                n <= 0x10000,
                codes@.len() == n,
                forall|k: int| 0 <= k < n ==> #[trigger] codes@[k] == 0,
            decreases 0x10000 - n,
        {
            codes.push(0);
            n += 1;
        }
        let limit: u32 = subtable.code_limit();
        let ghost format = subtable.kind();
        let ghost data = subtable.bytes();
        let mut code: u32 = 0;
        while code < limit
            invariant
                code <= limit,
                limit == spec_code_limit(format),
                format == subtable.kind(),
                data == subtable.bytes(),
                codes@.len() == 0x10000,
                forall|glyph: u16|
                    #![trigger codes@[glyph as int]]
                    {
                        &&& codes@[glyph as int] != 0 ==> is_first_code(
                            format,
                            data,
                            glyph,
                            (codes@[glyph as int] - 1) as u32,
                        )
                        &&& codes@[glyph as int] == 0 ==> forall|lower: u32|
                            lower < code ==> #[trigger] spec_map_glyph(format, data, lower) != Ok::<
                                Option<u16>,
                                ParseError,
                            >(Some(glyph))
                    },
            decreases limit - code,
        {
            match subtable.map_glyph(code) {
                Ok(Some(glyph)) => {
                    if codes[glyph as usize] == 0 {
                        let ghost before = codes@;
                        codes.set(glyph as usize, code + 1);
                        assert(is_first_code(format, data, glyph, code));
                        assert forall|other: u16| other != glyph implies codes@[other as int]
                            == before[other as int] by {}
                    }
                },
                _ => {},
            }
            code += 1;
        }
        CmapMappings { encoding, format: Ghost(format), data: Ghost(data), codes }
    }

    /// The least code that is mapped to `glyph`.
    pub fn first_code(&self, glyph: u16) -> (r: Option<u32>)
        ensures
            r == spec_first_code(self.kind(), self.bytes(), glyph),
    {
        proof {
            use_type_invariant(self);
        }
        let stored: u32 = self.codes[glyph as usize];
        if stored == 0 {
            None
        } else {
            let code: u32 = stored - 1;
            proof {
                let found = choose|c: u32| is_first_code(self.format@, self.data@, glyph, c);
                assert(is_first_code(self.format@, self.data@, glyph, found));
                if found < code {
                    assert(spec_map_glyph(self.format@, self.data@, found) != Ok::<
                        Option<u16>,
                        ParseError,
                    >(Some(glyph)));
                }
                if code < found {
                    assert(spec_map_glyph(self.format@, self.data@, code) != Ok::<
                        Option<u16>,
                        ParseError,
                    >(Some(glyph)));
                }
            }
            Some(code)
        }
    }

    /// The name that the subtable gives to `glyph`: see
    /// [`spec_cmap_name`].
    pub fn glyph_name(&self, glyph: u16) -> (r: Option<String>)
        ensures
            match r {
                Some(name) => spec_cmap_name(self.encoding(), self.kind(), self.bytes(), glyph)
                    == Some(name@),
                None => spec_cmap_name(self.encoding(), self.kind(), self.bytes(), glyph) is None,
            },
    {
        match self.first_code(glyph) {
            None => None,
            Some(code) => match self.encoding {
                Encoding::Unicode => Some(unicode_name(code)),
                Encoding::AppleRoman => if code < 0x80 {
                    Some(unicode_name(code))
                } else {
                    None
                },
                Encoding::Symbol => None,
                Encoding::Big5 => None,
            },
        }
    }
}

/// The name that a `cmap` subtable gives to `glyph`: that of the least
/// character code mapped to it. Codes of a Unicode subtable are Unicode
/// characters. Of an Apple Roman subtable only the codes below 128 are
/// named, which are the same characters in Unicode. Symbol and Big5 codes
/// give no names.
pub open spec fn spec_cmap_name(
    encoding: Encoding,
    format: SubtableFormat,
    data: Seq<u8>,
    glyph: u16,
) -> Option<Seq<char>> {
    match spec_first_code(format, data, glyph) {
        None => None,
        Some(code) => match encoding {
            Encoding::Unicode => Some(spec_unicode_name(code)),
            Encoding::AppleRoman => if code < 0x80 {
                Some(spec_unicode_name(code))
            } else {
                None
            },
            Encoding::Symbol => None,
            Encoding::Big5 => None,
        },
    }
}

/// What the names of glyphs are taken from.
pub struct NameSources {
    /// The bytes of the `post` table, where the font has one.
    pub post: Option<Seq<u8>>,
    /// The encoding, the format and the bytes of the `cmap` subtable, where
    /// the face has one that can be read.
    pub cmap: Option<(Encoding, SubtableFormat, Seq<u8>)>,
}

/// The text `.notdef`, the name of glyph 0.
pub open spec fn notdef() -> Seq<char> {
    seq!['.', 'n', 'o', 't', 'd', 'e', 'f']
}

/// The name of `glyph`. Glyph 0 is `.notdef`. Any other glyph has the name
/// that the `post` table gives it, or else the name that the `cmap`
/// subtable gives it, or else `g` and its id.
pub open spec fn spec_glyph_name(sources: NameSources, glyph: u16) -> Seq<char> {
    if glyph == 0 {
        notdef()
    } else if sources.post is Some && spec_post_name(sources.post->Some_0, glyph) is Some {
        spec_post_name(sources.post->Some_0, glyph)->Some_0
    } else if sources.cmap is Some && spec_cmap_name(
        sources.cmap->Some_0.0,
        sources.cmap->Some_0.1,
        sources.cmap->Some_0.2,
        glyph,
    ) is Some {
        spec_cmap_name(
            sources.cmap->Some_0.0,
            sources.cmap->Some_0.1,
            sources.cmap->Some_0.2,
            glyph,
        )->Some_0
    } else {
        spec_fallback_name(glyph)
    }
}

/// Names glyphs, from a `post` table and a `cmap` subtable.
pub struct GlyphNames {
    post: Option<Vec<u8>>,
    cmap: Option<CmapMappings>,
}

impl GlyphNames {
    /// What the names are taken from.
    pub closed spec fn sources(&self) -> NameSources {
        NameSources {
            post: match self.post {
                Some(data) => Some(data@),
                None => None,
            },
            cmap: match self.cmap {
                Some(mappings) => Some((mappings.encoding(), mappings.kind(), mappings.bytes())),
                None => None,
            },
        }
    }

    /// A namer that uses the `cmap` subtable `cmap`, with its encoding, and
    /// the bytes `post` of the `post` table, as far as they are given.
    pub fn new(cmap: &Option<(Encoding, CmapSubtable<'_>)>, post: Option<Vec<u8>>) -> (r:
        GlyphNames)
        ensures
            r.sources().post == match post {
                Some(data) => Some(data@),
                None => None,
            },
            r.sources().cmap == match *cmap {
                Some(pair) => Some((pair.0, pair.1.kind(), pair.1.bytes())),
                None => None,
            },
    {
        let mappings = match cmap {
            Some(pair) => Some(CmapMappings::new(pair.0, &pair.1)),
            None => None,
        };
        GlyphNames { post, cmap: mappings }
    }

    /// The name of `glyph`.
    pub fn glyph_name(&self, glyph: u16) -> (name: String)
        ensures
            name@ == spec_glyph_name(self.sources(), glyph),
    {
        if glyph == 0 {
            proof {
                reveal_strlit(".notdef");
            }
            let name = String::from_str(".notdef");
            assert(name@ =~= notdef());
            return name;
        }
        match &self.post {
            Some(data) => match post_glyph_name(data.as_slice(), glyph) {
                Some(name) => {
                    return name;
                },
                None => {},
            },
            None => {},
        }
        match &self.cmap {
            Some(mappings) => match mappings.glyph_name(glyph) {
                Some(name) => {
                    return name;
                },
                None => {},
            },
            None => {},
        }
        fallback_name(glyph)
    }
}

} // verus!

//! Glyph images, and the choice of a strike by size and bit depth.

use vstd::prelude::*;
use crate::error::ParseError;

verus! {

/// How many bits one pixel of an image takes.
#[derive(Clone, Copy, Debug, PartialEq, Eq, Structural)]
pub enum BitDepth {
    One,
    Two,
    Four,
    Eight,
    ThirtyTwo,
}

impl BitDepth {
    /// The number of bits.
    pub open spec fn spec_bits(self) -> int {
        match self {
            BitDepth::One => 1,
            BitDepth::Two => 2,
            BitDepth::Four => 4,
            BitDepth::Eight => 8,
            BitDepth::ThirtyTwo => 32,
        }
    }

    /// The number of bits.
    pub fn bits(self) -> (n: u8)
        ensures
            n == self.spec_bits(),
    {
        match self {
            BitDepth::One => 1,
            BitDepth::Two => 2,
            BitDepth::Four => 4,
            BitDepth::Eight => 8,
            BitDepth::ThirtyTwo => 32,
        }
    }

    /// The depth with `n` bits; `BadValue` where there is none.
    pub open spec fn spec_from_bits(n: u8) -> Result<BitDepth, ParseError> {
        if n == 1 {
            Ok(BitDepth::One)
        } else if n == 2 {
            Ok(BitDepth::Two)
        } else if n == 4 {
            Ok(BitDepth::Four)
        } else if n == 8 {
            Ok(BitDepth::Eight)
        } else if n == 32 {
            Ok(BitDepth::ThirtyTwo)
        } else {
            Err(ParseError::BadValue)
        }
    }

    /// The depth with `n` bits; `BadValue` where there is none.
    pub fn from_bits(n: u8) -> (r: Result<BitDepth, ParseError>)
        ensures
            r == Self::spec_from_bits(n),
    {
        if n == 1 {
            Ok(BitDepth::One)
        } else if n == 2 {
            Ok(BitDepth::Two)
        } else if n == 4 {
            Ok(BitDepth::Four)
        } else if n == 8 {
            Ok(BitDepth::Eight)
        } else if n == 32 {
            Ok(BitDepth::ThirtyTwo)
        } else {
            Err(ParseError::BadValue)
        }
    }
}

/// The nominal size and the bit depth of one strike.
#[derive(Clone, Copy, Debug, PartialEq, Eq, Structural)]
pub struct StrikeSize {
    pub ppem: u16,
    pub bit_depth: BitDepth,
}

/// How far a strike of size `ppem` is from the size asked for.
pub open spec fn distance(ppem: int, target: int) -> int {
    if ppem >= target {
        ppem - target
    } else {
        target - ppem
    }
}

/// Whether a strike of size `a` suits `target` better than one of size `b`:
/// it is nearer, or as near and larger.
pub open spec fn suits_better(a: int, b: int, target: int) -> bool {
    ||| distance(a, target) < distance(b, target)
    ||| distance(a, target) == distance(b, target) && a > b
}

/// Whether a strike may be used at all: its depth is at most `max`.
pub open spec fn eligible(strike: StrikeSize, max: BitDepth) -> bool {
    strike.bit_depth.spec_bits() <= max.spec_bits()
}

/// Whether strike `i` is the one to use: it may be used, no strike that
/// may be used suits better, and it is the first of its size that may be
/// used.
pub open spec fn is_best_strike(strikes: Seq<StrikeSize>, target: int, max: BitDepth, i: int) -> bool {
    &&& 0 <= i < strikes.len()
    &&& eligible(strikes[i], max)
    &&& forall|j: int|
        0 <= j < strikes.len() && eligible(#[trigger] strikes[j], max) ==> !suits_better(
            strikes[j].ppem as int,
            strikes[i].ppem as int,
            target,
        )
    &&& forall|j: int|
        0 <= j < i && eligible(#[trigger] strikes[j], max) ==> strikes[j].ppem != strikes[i].ppem
}

/// The strike to use for `target`, if any may be used.
pub open spec fn spec_find_strike(strikes: Seq<StrikeSize>, target: int, max: BitDepth) -> Option<
    int,
> {
    if exists|i: int| is_best_strike(strikes, target, max, i) {
        Some(choose|i: int| is_best_strike(strikes, target, max, i))
    } else {
        None
    }
}

/// Two strikes that are both the one to use are the same strike.
pub proof fn lemma_best_strike_unique(
    strikes: Seq<StrikeSize>,
    target: int,
    max: BitDepth,
    i: int,
    k: int,
)
    requires
        is_best_strike(strikes, target, max, i),
        is_best_strike(strikes, target, max, k),
    ensures
        i == k,
{
    assert(!suits_better(strikes[i].ppem as int, strikes[k].ppem as int, target));
    assert(!suits_better(strikes[k].ppem as int, strikes[i].ppem as int, target));
    assert(strikes[i].ppem == strikes[k].ppem);
}

/// A strike of exactly the size asked for is preferred to every other size:
/// where one may be used, the strike chosen has that size.
pub proof fn lemma_exact_size_preferred(
    strikes: Seq<StrikeSize>,
    target: int,
    max: BitDepth,
    k: int,
)
    requires
        0 <= k < strikes.len(),
        eligible(strikes[k], max),
        strikes[k].ppem == target,
    ensures
        spec_find_strike(strikes, target, max) matches Some(i) && strikes[i].ppem == target,
{
    lemma_find_strike_some(strikes, target, max, k);
    let i = spec_find_strike(strikes, target, max)->Some_0;
    assert(!suits_better(strikes[k].ppem as int, strikes[i].ppem as int, target));
}

/// Where no strike has the size asked for, the nearest is chosen, and of two
/// that are as near the larger one: no strike that may be used suits better
/// than the one chosen.
pub proof fn lemma_nearest_preferred(
    strikes: Seq<StrikeSize>,
    target: int,
    max: BitDepth,
    k: int,
)
    requires
        0 <= k < strikes.len(),
        eligible(strikes[k], max),
    ensures
        spec_find_strike(strikes, target, max) matches Some(i) && eligible(strikes[i], max)
            && distance(strikes[i].ppem as int, target) <= distance(strikes[k].ppem as int, target)
            && (distance(strikes[i].ppem as int, target) == distance(
            strikes[k].ppem as int,
            target,
        ) ==> strikes[i].ppem >= strikes[k].ppem),
{
    lemma_find_strike_some(strikes, target, max, k);
    let i = spec_find_strike(strikes, target, max)->Some_0;
    assert(!suits_better(strikes[k].ppem as int, strikes[i].ppem as int, target));
}

/// Where a strike may be used, one is chosen, and it is the one to use.
pub proof fn lemma_find_strike_some(strikes: Seq<StrikeSize>, target: int, max: BitDepth, k: int)
    requires
        0 <= k < strikes.len(),
        eligible(strikes[k], max),
    ensures
        spec_find_strike(strikes, target, max) is Some,
        is_best_strike(strikes, target, max, spec_find_strike(strikes, target, max)->Some_0),
{
    lemma_best_of_prefix(strikes, target, max, strikes.len() as int, k);
    assert(strikes.subrange(0, strikes.len() as int) =~= strikes);
}

/// Among the first `upto` strikes, of which one may be used, one is the one
/// to use.
proof fn lemma_best_of_prefix(
    strikes: Seq<StrikeSize>,
    target: int,
    max: BitDepth,
    upto: int,
    k: int,
)
    requires
        0 <= k < upto <= strikes.len(),
        eligible(strikes[k], max),
    ensures
        exists|i: int| is_best_strike(strikes.subrange(0, upto), target, max, i),
    decreases upto,
{
    let here = strikes.subrange(0, upto);
    let last = upto - 1;
    if exists|j: int| 0 <= j < last && eligible(#[trigger] strikes[j], max) {
        let j = choose|j: int| 0 <= j < last && eligible(#[trigger] strikes[j], max);
        lemma_best_of_prefix(strikes, target, max, last, j);
        let before = strikes.subrange(0, last);
        let b = choose|i: int| is_best_strike(before, target, max, i);
        assert(forall|j: int| 0 <= j < last ==> before[j] == here[j]);
        if eligible(strikes[last], max) && suits_better(
            strikes[last].ppem as int,
            strikes[b].ppem as int,
            target,
        ) {
            assert forall|j: int| 0 <= j < here.len() && eligible(#[trigger] here[j], max) implies !suits_better(
                here[j].ppem as int,
                here[last].ppem as int,
                target,
            ) by {
                if j < last {
                    assert(eligible(before[j], max));
                }
            }
            assert forall|j: int| 0 <= j < last && eligible(#[trigger] here[j], max) implies here[j].ppem
                != here[last].ppem by {
                assert(eligible(before[j], max));
            }
            assert(is_best_strike(here, target, max, last));
        } else {
            assert forall|j: int| 0 <= j < here.len() && eligible(#[trigger] here[j], max) implies !suits_better(
                here[j].ppem as int,
                here[b].ppem as int,
                target,
            ) by {
                if j < last {
                    assert(eligible(before[j], max));
                }
            }
            assert forall|j: int| 0 <= j < b && eligible(#[trigger] here[j], max) implies here[j].ppem
                != here[b].ppem by {
                assert(eligible(before[j], max));
            }
            assert(is_best_strike(here, target, max, b));
        }
    } else {
        assert(k == last);
        assert(is_best_strike(here, target, max, last));
    }
}

/// Chooses the strike for the size `target` among those whose depth is at
/// most `max`: one of exactly that size if there is one, else the nearest
/// in size, and of two that are as near the larger one. Of several strikes
/// of the chosen size the first is taken. `None` where no strike has a depth
/// of at most `max`.
pub fn find_strike(strikes: &Vec<StrikeSize>, target: u16, max: BitDepth) -> (r: Option<usize>)
    ensures
        r is Some <==> exists|j: int| 0 <= j < strikes@.len() && eligible(#[trigger] strikes@[j], max),
        r matches Some(i) ==> is_best_strike(strikes@, target as int, max, i as int),
        r matches Some(i) ==> spec_find_strike(strikes@, target as int, max) == Some(i as int),
        r is None ==> spec_find_strike(strikes@, target as int, max) is None,
{
    let mut best: Option<usize> = None;
    let mut i: usize = 0;
    while i < strikes.len()
        invariant
            i <= strikes@.len(),
            best is None ==> forall|j: int| 0 <= j < i ==> !eligible(#[trigger] strikes@[j], max),
            best matches Some(b) ==> b < i && is_best_strike(
                strikes@.subrange(0, i as int),
                target as int,
                max,
                b as int,
            ),
        decreases strikes@.len() - i,
    {
        let strike = strikes[i];
        let ghost before = strikes@.subrange(0, i as int);
        let ghost here = strikes@.subrange(0, i + 1);
        assert(forall|j: int| 0 <= j < i ==> before[j] == here[j]);
        if strike.bit_depth.bits() <= max.bits() {
            match best {
                None => {
                    assert(is_best_strike(here, target as int, max, i as int));
                    best = Some(i);
                },
                Some(b) => {
                    let current = strikes[b];
                    if is_nearer(strike.ppem, current.ppem, target) {
                        assert forall|j: int|
                            0 <= j < here.len() && eligible(#[trigger] here[j], max) implies !suits_better(
                            here[j].ppem as int,
                            here[i as int].ppem as int,
                            target as int,
                        ) by {
                            if j < i {
                                assert(eligible(before[j], max));
                            }
                        }
                        assert forall|j: int| 0 <= j < i && eligible(#[trigger] here[j], max) implies here[j].ppem
                            != here[i as int].ppem by {
                            assert(eligible(before[j], max));
                        }
                        assert(is_best_strike(here, target as int, max, i as int));
                        best = Some(i);
                    } else {
                        assert forall|j: int|
                            0 <= j < here.len() && eligible(#[trigger] here[j], max) implies !suits_better(
                            here[j].ppem as int,
                            here[b as int].ppem as int,
                            target as int,
                        ) by {
                            if j < i {
                                assert(eligible(before[j], max));
                            }
                        }
                        assert forall|j: int| 0 <= j < b && eligible(#[trigger] here[j], max) implies here[j].ppem
                            != here[b as int].ppem by {
                            assert(eligible(before[j], max));
                        }
                        assert(is_best_strike(here, target as int, max, b as int));
                    }
                },
            }
        } else {
            match best {
                None => {},
                Some(b) => {
                    assert forall|j: int|
                        0 <= j < here.len() && eligible(#[trigger] here[j], max) implies !suits_better(
                        here[j].ppem as int,
                        here[b as int].ppem as int,
                        target as int,
                    ) by {
                        if j < i {
                            assert(eligible(before[j], max));
                        }
                    }
                    assert forall|j: int| 0 <= j < b && eligible(#[trigger] here[j], max) implies here[j].ppem
                        != here[b as int].ppem by {
                        assert(eligible(before[j], max));
                    }
                    assert(is_best_strike(here, target as int, max, b as int));
                },
            }
        }
        i += 1;
    }
    assert(strikes@.subrange(0, i as int) =~= strikes@);
    proof {
        match best {
            Some(b) => {
                let c = choose|c: int| is_best_strike(strikes@, target as int, max, c);
                lemma_best_strike_unique(strikes@, target as int, max, b as int, c);
            },
            None => {},
        }
    }
    best
}

/// Whether a strike of size `a` suits `target` better than one of size `b`.
fn is_nearer(a: u16, b: u16, target: u16) -> (r: bool)
    ensures
        r == suits_better(a as int, b as int, target as int),
{
    let da: u16 = if a >= target {
        a - target
    } else {
        target - a
    };
    let db: u16 = if b >= target {
        b - target
    } else {
        target - b
    };
    da < db || (da == db && a > b)
}

/// Where a glyph's image sits relative to its origin.
#[derive(Clone, Copy, Debug, PartialEq, Eq, Structural)]
pub struct OriginOffset {
    pub x: i16,
    pub y: i16,
}

/// The metrics that come with an image in a strike of bitmaps, for
/// horizontal layout only.
#[derive(Clone, Copy, Debug, PartialEq, Eq, Structural)]
pub struct SmallGlyphMetrics {
    pub height: u8,
    pub width: u8,
    pub bearing_x: i8,
    pub bearing_y: i8,
    pub advance: u8,
}

/// The metrics that come with an image in a strike of bitmaps, for both
/// directions of layout.
#[derive(Clone, Copy, Debug, PartialEq, Eq, Structural)]
pub struct BigGlyphMetrics {
    pub height: u8,
    pub width: u8,
    pub hori_bearing_x: i8,
    pub hori_bearing_y: i8,
    pub hori_advance: u8,
    pub vert_bearing_x: i8,
    pub vert_bearing_y: i8,
    pub vert_advance: u8,
}

/// Metrics stored with an image.
#[derive(Clone, Copy, Debug, PartialEq, Eq, Structural)]
pub enum EmbeddedMetrics {
    Small(SmallGlyphMetrics),
    Big(BigGlyphMetrics),
}

/// Where the metrics of an image come from.
#[derive(Clone, Copy, Debug, PartialEq, Eq, Structural)]
pub enum Metrics {
    /// They are stored with the image.
    Embedded(EmbeddedMetrics),
    /// They are those of the glyph in the metrics tables; the image is
    /// placed at this offset.
    HmtxVmtx(OriginOffset),
}

/// The format of an image that is stored as a file of its own.
#[derive(Clone, Copy, Debug, PartialEq, Eq, Structural)]
pub enum EncapsulatedFormat {
    Jpeg,
    Png,
    Tiff,
    Svg,
    /// A format known by its tag only.
    Other(u32),
}

/// An image stored as a file of its own.
#[derive(Clone, Debug, PartialEq, Eq)]
pub struct EncapsulatedBitmap {
    pub format: EncapsulatedFormat,
    pub data: Vec<u8>,
}

/// An image stored as rows of pixels.
#[derive(Clone, Debug, PartialEq, Eq)]
pub struct EmbeddedBitmap {
    pub format: BitDepth,
    pub width: u8,
    pub height: u8,
    pub data: Vec<u8>,
}

/// The pixels of a glyph image.
#[derive(Clone, Debug, PartialEq, Eq)]
pub enum Bitmap {
    Embedded(EmbeddedBitmap),
    Encapsulated(EncapsulatedBitmap),
}

/// The image of one glyph.
#[derive(Clone, Debug, PartialEq, Eq)]
pub struct BitmapGlyph {
    pub bitmap: Bitmap,
    pub metrics: Metrics,
    pub ppem_x: Option<u16>,
    pub ppem_y: Option<u16>,
    pub should_flip_hori: bool,
    pub should_flip_vert: bool,
}

/// What a [`Bitmap`] holds.
pub enum BitmapView {
    Embedded { depth: BitDepth, width: u8, height: u8, data: Seq<u8> },
    Encapsulated { format: EncapsulatedFormat, data: Seq<u8> },
}

/// What a [`BitmapGlyph`] holds.
pub struct BitmapGlyphView {
    pub bitmap: BitmapView,
    pub metrics: Metrics,
    pub ppem_x: Option<u16>,
    pub ppem_y: Option<u16>,
    pub should_flip_hori: bool,
    pub should_flip_vert: bool,
}

impl View for Bitmap {
    type V = BitmapView;

    open spec fn view(&self) -> BitmapView {
        match self {
            Bitmap::Embedded(b) => BitmapView::Embedded {
                depth: b.format,
                width: b.width,
                height: b.height,
                data: b.data@,
            },
            Bitmap::Encapsulated(b) => BitmapView::Encapsulated { format: b.format, data: b.data@ },
        }
    }
}

impl View for BitmapGlyph {
    type V = BitmapGlyphView;

    open spec fn view(&self) -> BitmapGlyphView {
        BitmapGlyphView {
            bitmap: self.bitmap@,
            metrics: self.metrics,
            ppem_x: self.ppem_x,
            ppem_y: self.ppem_y,
            should_flip_hori: self.should_flip_hori,
            should_flip_vert: self.should_flip_vert,
        }
    }
}

/// The view of what a lookup of an image returned.
pub open spec fn image_result_view(r: Result<Option<BitmapGlyph>, ParseError>) -> Result<
    Option<BitmapGlyphView>,
    ParseError,
> {
    match r {
        Ok(Some(glyph)) => Ok(Some(glyph@)),
        Ok(None) => Ok(None),
        Err(e) => Err(e),
    }
}

} // verus!

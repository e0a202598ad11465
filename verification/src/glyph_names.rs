//! The names of glyphs: the standard Macintosh glyph names, and the names
//! that go with character codes.

use vstd::prelude::*;
use vstd::string::StringExecFns;
use crate::unique_names::{decimal, push_decimal};

verus! {

/// How many standard Macintosh glyph names there are.
pub const MAC_NAME_COUNT: u16 = 258;

/// The standard Macintosh glyph name with the number `index`; the empty
/// text for a number that has none.
pub open spec fn spec_mac_glyph_name(index: u16) -> Seq<char> {
    match index {
        0u16 => ".notdef"@,
        1u16 => ".null"@,
        2u16 => "nonmarkingreturn"@,
        3u16 => "space"@,
        4u16 => "exclam"@,
        5u16 => "quotedbl"@,
        6u16 => "numbersign"@,
        7u16 => "dollar"@,
        8u16 => "percent"@,
        9u16 => "ampersand"@,
        10u16 => "quotesingle"@,
        11u16 => "parenleft"@,
        12u16 => "parenright"@,
        13u16 => "asterisk"@,
        14u16 => "plus"@,
        15u16 => "comma"@,
        16u16 => "hyphen"@,
        17u16 => "period"@,
        18u16 => "slash"@,
        19u16 => "zero"@,
        20u16 => "one"@,
        21u16 => "two"@,
        22u16 => "three"@,
        23u16 => "four"@,
        24u16 => "five"@,
        25u16 => "six"@,
        26u16 => "seven"@,
        27u16 => "eight"@,
        28u16 => "nine"@,
        29u16 => "colon"@,
        30u16 => "semicolon"@,
        31u16 => "less"@,
        32u16 => "equal"@,
        33u16 => "greater"@,
        34u16 => "question"@,
        35u16 => "at"@,
        36u16 => "A"@,
        37u16 => "B"@,
        38u16 => "C"@,
        39u16 => "D"@,
        40u16 => "E"@,
        41u16 => "F"@,
        42u16 => "G"@,
        43u16 => "H"@,
        44u16 => "I"@,
        45u16 => "J"@,
        46u16 => "K"@,
        47u16 => "L"@,
        48u16 => "M"@,
        49u16 => "N"@,
        50u16 => "O"@,
        51u16 => "P"@,
        52u16 => "Q"@,
        53u16 => "R"@,
        54u16 => "S"@,
        55u16 => "T"@,
        56u16 => "U"@,
        57u16 => "V"@,
        58u16 => "W"@,
        59u16 => "X"@,
        60u16 => "Y"@,
        61u16 => "Z"@,
        62u16 => "bracketleft"@,
        63u16 => "backslash"@,
        64u16 => "bracketright"@,
        65u16 => "asciicircum"@,
        66u16 => "underscore"@,
        67u16 => "grave"@,
        68u16 => "a"@,
        69u16 => "b"@,
        70u16 => "c"@,
        71u16 => "d"@,
        72u16 => "e"@,
        73u16 => "f"@,
        74u16 => "g"@,
        75u16 => "h"@,
        76u16 => "i"@,
        77u16 => "j"@,
        78u16 => "k"@,
        79u16 => "l"@,
        80u16 => "m"@,
        81u16 => "n"@,
        82u16 => "o"@,
        83u16 => "p"@,
        84u16 => "q"@,
        85u16 => "r"@,
        86u16 => "s"@,
        87u16 => "t"@,
        88u16 => "u"@,
        89u16 => "v"@,
        90u16 => "w"@,
        91u16 => "x"@,
        92u16 => "y"@,
        93u16 => "z"@,
        94u16 => "braceleft"@,
        95u16 => "bar"@,
        96u16 => "braceright"@,
        97u16 => "asciitilde"@,
        98u16 => "Adieresis"@,
        99u16 => "Aring"@,
        100u16 => "Ccedilla"@,
        101u16 => "Eacute"@,
        102u16 => "Ntilde"@,
        103u16 => "Odieresis"@,
        104u16 => "Udieresis"@,
        105u16 => "aacute"@,
        106u16 => "agrave"@,
        107u16 => "acircumflex"@,
        108u16 => "adieresis"@,
        109u16 => "atilde"@,
        110u16 => "aring"@,
        111u16 => "ccedilla"@,
        112u16 => "eacute"@,
        113u16 => "egrave"@,
        114u16 => "ecircumflex"@,
        115u16 => "edieresis"@,
        116u16 => "iacute"@,
        117u16 => "igrave"@,
        118u16 => "icircumflex"@,
        119u16 => "idieresis"@,
        120u16 => "ntilde"@,
        121u16 => "oacute"@,
        122u16 => "ograve"@,
        123u16 => "ocircumflex"@,
        124u16 => "odieresis"@,
        125u16 => "otilde"@,
        126u16 => "uacute"@,
        127u16 => "ugrave"@,
        128u16 => "ucircumflex"@,
        129u16 => "udieresis"@,
        130u16 => "dagger"@,
        131u16 => "degree"@,
        132u16 => "cent"@,
        133u16 => "sterling"@,
        134u16 => "section"@,
        135u16 => "bullet"@,
        136u16 => "paragraph"@,
        137u16 => "germandbls"@,
        138u16 => "registered"@,
        139u16 => "copyright"@,
        140u16 => "trademark"@,
        141u16 => "acute"@,
        142u16 => "dieresis"@,
        143u16 => "notequal"@,
        144u16 => "AE"@,
        145u16 => "Oslash"@,
        146u16 => "infinity"@,
        147u16 => "plusminus"@,
        148u16 => "lessequal"@,
        149u16 => "greaterequal"@,
        150u16 => "yen"@,
        151u16 => "mu"@,
        152u16 => "partialdiff"@,
        153u16 => "summation"@,
        154u16 => "product"@,
        155u16 => "pi"@,
        156u16 => "integral"@,
        157u16 => "ordfeminine"@,
        158u16 => "ordmasculine"@,
        159u16 => "Omega"@,
        160u16 => "ae"@,
        161u16 => "oslash"@,
        162u16 => "questiondown"@,
        163u16 => "exclamdown"@,
        164u16 => "logicalnot"@,
        165u16 => "radical"@,
        166u16 => "florin"@,
        167u16 => "approxequal"@,
        168u16 => "Delta"@,
        169u16 => "guillemotleft"@,
        170u16 => "guillemotright"@,
        171u16 => "ellipsis"@,
        172u16 => "nonbreakingspace"@,
        173u16 => "Agrave"@,
        174u16 => "Atilde"@,
        175u16 => "Otilde"@,
        176u16 => "OE"@,
        177u16 => "oe"@,
        178u16 => "endash"@,
        179u16 => "emdash"@,
        180u16 => "quotedblleft"@,
        181u16 => "quotedblright"@,
        182u16 => "quoteleft"@,
        183u16 => "quoteright"@,
        184u16 => "divide"@,
        185u16 => "lozenge"@,
        186u16 => "ydieresis"@,
        187u16 => "Ydieresis"@,
        188u16 => "fraction"@,
        189u16 => "currency"@,
        190u16 => "guilsinglleft"@,
        191u16 => "guilsinglright"@,
        192u16 => "fi"@,
        193u16 => "fl"@,
        194u16 => "daggerdbl"@,
        195u16 => "periodcentered"@,
        196u16 => "quotesinglbase"@,
        197u16 => "quotedblbase"@,
        198u16 => "perthousand"@,
        199u16 => "Acircumflex"@,
        200u16 => "Ecircumflex"@,
        201u16 => "Aacute"@,
        202u16 => "Edieresis"@,
        203u16 => "Egrave"@,
        204u16 => "Iacute"@,
        205u16 => "Icircumflex"@,
        206u16 => "Idieresis"@,
        207u16 => "Igrave"@,
        208u16 => "Oacute"@,
        209u16 => "Ocircumflex"@,
        210u16 => "apple"@,
        211u16 => "Ograve"@,
        212u16 => "Uacute"@,
        213u16 => "Ucircumflex"@,
        214u16 => "Ugrave"@,
        215u16 => "dotlessi"@,
        216u16 => "circumflex"@,
        217u16 => "tilde"@,
        218u16 => "macron"@,
        219u16 => "breve"@,
        220u16 => "dotaccent"@,
        221u16 => "ring"@,
        222u16 => "cedilla"@,
        223u16 => "hungarumlaut"@,
        224u16 => "ogonek"@,
        225u16 => "caron"@,
        226u16 => "Lslash"@,
        227u16 => "lslash"@,
        228u16 => "Scaron"@,
        229u16 => "scaron"@,
        230u16 => "Zcaron"@,
        231u16 => "zcaron"@,
        232u16 => "brokenbar"@,
        233u16 => "Eth"@,
        234u16 => "eth"@,
        235u16 => "Yacute"@,
        236u16 => "yacute"@,
        237u16 => "Thorn"@,
        238u16 => "thorn"@,
        239u16 => "minus"@,
        240u16 => "multiply"@,
        241u16 => "onesuperior"@,
        242u16 => "twosuperior"@,
        243u16 => "threesuperior"@,
        244u16 => "onehalf"@,
        245u16 => "onequarter"@,
        246u16 => "threequarters"@,
        247u16 => "franc"@,
        248u16 => "Gbreve"@,
        249u16 => "gbreve"@,
        250u16 => "Idotaccent"@,
        251u16 => "Scedilla"@,
        252u16 => "scedilla"@,
        253u16 => "Cacute"@,
        254u16 => "cacute"@,
        255u16 => "Ccaron"@,
        256u16 => "ccaron"@,
        257u16 => "dcroat"@,
        _ => ""@,
    }
}

/// The standard Macintosh glyph name with the number `index`; the empty
/// text for a number that has none.
pub fn mac_glyph_name(index: u16) -> (name: &'static str)
    ensures
        name@ == spec_mac_glyph_name(index),
{
    match index {
        0u16 => ".notdef",
        1u16 => ".null",
        2u16 => "nonmarkingreturn",
        3u16 => "space",
        4u16 => "exclam",
        5u16 => "quotedbl",
        6u16 => "numbersign",
        7u16 => "dollar",
        8u16 => "percent",
        9u16 => "ampersand",
        10u16 => "quotesingle",
        11u16 => "parenleft",
        12u16 => "parenright",
        13u16 => "asterisk",
        14u16 => "plus",
        15u16 => "comma",
        16u16 => "hyphen",
        17u16 => "period",
        18u16 => "slash",
        19u16 => "zero",
        20u16 => "one",
        21u16 => "two",
        22u16 => "three",
        23u16 => "four",
        24u16 => "five",
        25u16 => "six",
        26u16 => "seven",
        27u16 => "eight",
        28u16 => "nine",
        29u16 => "colon",
        30u16 => "semicolon",
        31u16 => "less",
        32u16 => "equal",
        33u16 => "greater",
        34u16 => "question",
        35u16 => "at",
        36u16 => "A",
        37u16 => "B",
        38u16 => "C",
        39u16 => "D",
        40u16 => "E",
        41u16 => "F",
        42u16 => "G",
        43u16 => "H",
        44u16 => "I",
        45u16 => "J",
        46u16 => "K",
        47u16 => "L",
        48u16 => "M",
        49u16 => "N",
        50u16 => "O",
        51u16 => "P",
        52u16 => "Q",
        53u16 => "R",
        54u16 => "S",
        55u16 => "T",
        56u16 => "U",
        57u16 => "V",
        58u16 => "W",
        59u16 => "X",
        60u16 => "Y",
        61u16 => "Z",
        62u16 => "bracketleft",
        63u16 => "backslash",
        64u16 => "bracketright",
        65u16 => "asciicircum",
        66u16 => "underscore",
        67u16 => "grave",
        68u16 => "a",
        69u16 => "b",
        70u16 => "c",
        71u16 => "d",
        72u16 => "e",
        73u16 => "f",
        74u16 => "g",
        75u16 => "h",
        76u16 => "i",
        77u16 => "j",
        78u16 => "k",
        79u16 => "l",
        80u16 => "m",
        81u16 => "n",
        82u16 => "o",
        83u16 => "p",
        84u16 => "q",
        85u16 => "r",
        86u16 => "s",
        87u16 => "t",
        88u16 => "u",
        89u16 => "v",
        90u16 => "w",
        91u16 => "x",
        92u16 => "y",
        93u16 => "z",
        94u16 => "braceleft",
        95u16 => "bar",
        96u16 => "braceright",
        97u16 => "asciitilde",
        98u16 => "Adieresis",
        99u16 => "Aring",
        100u16 => "Ccedilla",
        101u16 => "Eacute",
        102u16 => "Ntilde",
        103u16 => "Odieresis",
        104u16 => "Udieresis",
        105u16 => "aacute",
        106u16 => "agrave",
        107u16 => "acircumflex",
        108u16 => "adieresis",
        109u16 => "atilde",
        110u16 => "aring",
        111u16 => "ccedilla",
        112u16 => "eacute",
        113u16 => "egrave",
        114u16 => "ecircumflex",
        115u16 => "edieresis",
        116u16 => "iacute",
        117u16 => "igrave",
        118u16 => "icircumflex",
        119u16 => "idieresis",
        120u16 => "ntilde",
        121u16 => "oacute",
        122u16 => "ograve",
        123u16 => "ocircumflex",
        124u16 => "odieresis",
        125u16 => "otilde",
        126u16 => "uacute",
        127u16 => "ugrave",
        128u16 => "ucircumflex",
        129u16 => "udieresis",
        130u16 => "dagger",
        131u16 => "degree",
        132u16 => "cent",
        133u16 => "sterling",
        134u16 => "section",
        135u16 => "bullet",
        136u16 => "paragraph",
        137u16 => "germandbls",
        138u16 => "registered",
        139u16 => "copyright",
        140u16 => "trademark",
        141u16 => "acute",
        142u16 => "dieresis",
        143u16 => "notequal",
        144u16 => "AE",
        145u16 => "Oslash",
        146u16 => "infinity",
        147u16 => "plusminus",
        148u16 => "lessequal",
        149u16 => "greaterequal",
        150u16 => "yen",
        151u16 => "mu",
        152u16 => "partialdiff",
        153u16 => "summation",
        154u16 => "product",
        155u16 => "pi",
        156u16 => "integral",
        157u16 => "ordfeminine",
        158u16 => "ordmasculine",
        159u16 => "Omega",
        160u16 => "ae",
        161u16 => "oslash",
        162u16 => "questiondown",
        163u16 => "exclamdown",
        164u16 => "logicalnot",
        165u16 => "radical",
        166u16 => "florin",
        167u16 => "approxequal",
        168u16 => "Delta",
        169u16 => "guillemotleft",
        170u16 => "guillemotright",
        171u16 => "ellipsis",
        172u16 => "nonbreakingspace",
        173u16 => "Agrave",
        174u16 => "Atilde",
        175u16 => "Otilde",
        176u16 => "OE",
        177u16 => "oe",
        178u16 => "endash",
        179u16 => "emdash",
        180u16 => "quotedblleft",
        181u16 => "quotedblright",
        182u16 => "quoteleft",
        183u16 => "quoteright",
        184u16 => "divide",
        185u16 => "lozenge",
        186u16 => "ydieresis",
        187u16 => "Ydieresis",
        188u16 => "fraction",
        189u16 => "currency",
        190u16 => "guilsinglleft",
        191u16 => "guilsinglright",
        192u16 => "fi",
        193u16 => "fl",
        194u16 => "daggerdbl",
        195u16 => "periodcentered",
        196u16 => "quotesinglbase",
        197u16 => "quotedblbase",
        198u16 => "perthousand",
        199u16 => "Acircumflex",
        200u16 => "Ecircumflex",
        201u16 => "Aacute",
        202u16 => "Edieresis",
        203u16 => "Egrave",
        204u16 => "Iacute",
        205u16 => "Icircumflex",
        206u16 => "Idieresis",
        207u16 => "Igrave",
        208u16 => "Oacute",
        209u16 => "Ocircumflex",
        210u16 => "apple",
        211u16 => "Ograve",
        212u16 => "Uacute",
        213u16 => "Ucircumflex",
        214u16 => "Ugrave",
        215u16 => "dotlessi",
        216u16 => "circumflex",
        217u16 => "tilde",
        218u16 => "macron",
        219u16 => "breve",
        220u16 => "dotaccent",
        221u16 => "ring",
        222u16 => "cedilla",
        223u16 => "hungarumlaut",
        224u16 => "ogonek",
        225u16 => "caron",
        226u16 => "Lslash",
        227u16 => "lslash",
        228u16 => "Scaron",
        229u16 => "scaron",
        230u16 => "Zcaron",
        231u16 => "zcaron",
        232u16 => "brokenbar",
        233u16 => "Eth",
        234u16 => "eth",
        235u16 => "Yacute",
        236u16 => "yacute",
        237u16 => "Thorn",
        238u16 => "thorn",
        239u16 => "minus",
        240u16 => "multiply",
        241u16 => "onesuperior",
        242u16 => "twosuperior",
        243u16 => "threesuperior",
        244u16 => "onehalf",
        245u16 => "onequarter",
        246u16 => "threequarters",
        247u16 => "franc",
        248u16 => "Gbreve",
        249u16 => "gbreve",
        250u16 => "Idotaccent",
        251u16 => "Scedilla",
        252u16 => "scedilla",
        253u16 => "Cacute",
        254u16 => "cacute",
        255u16 => "Ccaron",
        256u16 => "ccaron",
        257u16 => "dcroat",
        _ => "",
    }
}

/// The number of the standard Macintosh glyph name that goes with a code
/// of the Latin-1 supplement, from U+00A1 to U+00FF. The soft hyphen,
/// U+00AD, has none.
pub open spec fn spec_latin1_name_index(code: u32) -> Option<u16> {
    match code {
        0xA1u32 => Some(163u16),
        0xA2u32 => Some(132u16),
        0xA3u32 => Some(133u16),
        0xA4u32 => Some(189u16),
        0xA5u32 => Some(150u16),
        0xA6u32 => Some(232u16),
        0xA7u32 => Some(134u16),
        0xA8u32 => Some(142u16),
        0xA9u32 => Some(139u16),
        0xAAu32 => Some(157u16),
        0xABu32 => Some(169u16),
        0xACu32 => Some(164u16),
        0xAEu32 => Some(138u16),
        0xAFu32 => Some(218u16),
        0xB0u32 => Some(131u16),
        0xB1u32 => Some(147u16),
        0xB2u32 => Some(242u16),
        0xB3u32 => Some(243u16),
        0xB4u32 => Some(141u16),
        0xB5u32 => Some(151u16),
        0xB6u32 => Some(136u16),
        0xB7u32 => Some(195u16),
        0xB8u32 => Some(222u16),
        0xB9u32 => Some(241u16),
        0xBAu32 => Some(158u16),
        0xBBu32 => Some(170u16),
        0xBCu32 => Some(245u16),
        0xBDu32 => Some(244u16),
        0xBEu32 => Some(246u16),
        0xBFu32 => Some(162u16),
        0xC0u32 => Some(173u16),
        0xC1u32 => Some(201u16),
        0xC2u32 => Some(199u16),
        0xC3u32 => Some(174u16),
        0xC4u32 => Some(98u16),
        0xC5u32 => Some(99u16),
        0xC6u32 => Some(144u16),
        0xC7u32 => Some(100u16),
        0xC8u32 => Some(203u16),
        0xC9u32 => Some(101u16),
        0xCAu32 => Some(200u16),
        0xCBu32 => Some(202u16),
        0xCCu32 => Some(207u16),
        0xCDu32 => Some(204u16),
        0xCEu32 => Some(205u16),
        0xCFu32 => Some(206u16),
        0xD0u32 => Some(233u16),
        0xD1u32 => Some(102u16),
        0xD2u32 => Some(211u16),
        0xD3u32 => Some(208u16),
        0xD4u32 => Some(209u16),
        0xD5u32 => Some(175u16),
        0xD6u32 => Some(103u16),
        0xD7u32 => Some(240u16),
        0xD8u32 => Some(145u16),
        0xD9u32 => Some(214u16),
        0xDAu32 => Some(212u16),
        0xDBu32 => Some(213u16),
        0xDCu32 => Some(104u16),
        0xDDu32 => Some(235u16),
        0xDEu32 => Some(237u16),
        0xDFu32 => Some(137u16),
        0xE0u32 => Some(106u16),
        0xE1u32 => Some(105u16),
        0xE2u32 => Some(107u16),
        0xE3u32 => Some(109u16),
        0xE4u32 => Some(108u16),
        0xE5u32 => Some(110u16),
        0xE6u32 => Some(160u16),
        0xE7u32 => Some(111u16),
        0xE8u32 => Some(113u16),
        0xE9u32 => Some(112u16),
        0xEAu32 => Some(114u16),
        0xEBu32 => Some(115u16),
        0xECu32 => Some(117u16),
        0xEDu32 => Some(116u16),
        0xEEu32 => Some(118u16),
        0xEFu32 => Some(119u16),
        0xF0u32 => Some(234u16),
        0xF1u32 => Some(120u16),
        0xF2u32 => Some(122u16),
        0xF3u32 => Some(121u16),
        0xF4u32 => Some(123u16),
        0xF5u32 => Some(125u16),
        0xF6u32 => Some(124u16),
        0xF7u32 => Some(184u16),
        0xF8u32 => Some(161u16),
        0xF9u32 => Some(127u16),
        0xFAu32 => Some(126u16),
        0xFBu32 => Some(128u16),
        0xFCu32 => Some(129u16),
        0xFDu32 => Some(236u16),
        0xFEu32 => Some(238u16),
        0xFFu32 => Some(186u16),
        _ => None,
    }
}

/// The number of the standard Macintosh glyph name that goes with a code
/// of the Latin-1 supplement.
pub fn latin1_name_index(code: u32) -> (r: Option<u16>)
    ensures
        r == spec_latin1_name_index(code),
{
    match code {
        0xA1u32 => Some(163u16),
        0xA2u32 => Some(132u16),
        0xA3u32 => Some(133u16),
        0xA4u32 => Some(189u16),
        0xA5u32 => Some(150u16),
        0xA6u32 => Some(232u16),
        0xA7u32 => Some(134u16),
        0xA8u32 => Some(142u16),
        0xA9u32 => Some(139u16),
        0xAAu32 => Some(157u16),
        0xABu32 => Some(169u16),
        0xACu32 => Some(164u16),
        0xAEu32 => Some(138u16),
        0xAFu32 => Some(218u16),
        0xB0u32 => Some(131u16),
        0xB1u32 => Some(147u16),
        0xB2u32 => Some(242u16),
        0xB3u32 => Some(243u16),
        0xB4u32 => Some(141u16),
        0xB5u32 => Some(151u16),
        0xB6u32 => Some(136u16),
        0xB7u32 => Some(195u16),
        0xB8u32 => Some(222u16),
        0xB9u32 => Some(241u16),
        0xBAu32 => Some(158u16),
        0xBBu32 => Some(170u16),
        0xBCu32 => Some(245u16),
        0xBDu32 => Some(244u16),
        0xBEu32 => Some(246u16),
        0xBFu32 => Some(162u16),
        0xC0u32 => Some(173u16),
        0xC1u32 => Some(201u16),
        0xC2u32 => Some(199u16),
        0xC3u32 => Some(174u16),
        0xC4u32 => Some(98u16),
        0xC5u32 => Some(99u16),
        0xC6u32 => Some(144u16),
        0xC7u32 => Some(100u16),
        0xC8u32 => Some(203u16),
        0xC9u32 => Some(101u16),
        0xCAu32 => Some(200u16),
        0xCBu32 => Some(202u16),
        0xCCu32 => Some(207u16),
        0xCDu32 => Some(204u16),
        0xCEu32 => Some(205u16),
        0xCFu32 => Some(206u16),
        0xD0u32 => Some(233u16),
        0xD1u32 => Some(102u16),
        0xD2u32 => Some(211u16),
        0xD3u32 => Some(208u16),
        0xD4u32 => Some(209u16),
        0xD5u32 => Some(175u16),
        0xD6u32 => Some(103u16),
        0xD7u32 => Some(240u16),
        0xD8u32 => Some(145u16),
        0xD9u32 => Some(214u16),
        0xDAu32 => Some(212u16),
        0xDBu32 => Some(213u16),
        0xDCu32 => Some(104u16),
        0xDDu32 => Some(235u16),
        0xDEu32 => Some(237u16),
        0xDFu32 => Some(137u16),
        0xE0u32 => Some(106u16),
        0xE1u32 => Some(105u16),
        0xE2u32 => Some(107u16),
        0xE3u32 => Some(109u16),
        0xE4u32 => Some(108u16),
        0xE5u32 => Some(110u16),
        0xE6u32 => Some(160u16),
        0xE7u32 => Some(111u16),
        0xE8u32 => Some(113u16),
        0xE9u32 => Some(112u16),
        0xEAu32 => Some(114u16),
        0xEBu32 => Some(115u16),
        0xECu32 => Some(117u16),
        0xEDu32 => Some(116u16),
        0xEEu32 => Some(118u16),
        0xEFu32 => Some(119u16),
        0xF0u32 => Some(234u16),
        0xF1u32 => Some(120u16),
        0xF2u32 => Some(122u16),
        0xF3u32 => Some(121u16),
        0xF4u32 => Some(123u16),
        0xF5u32 => Some(125u16),
        0xF6u32 => Some(124u16),
        0xF7u32 => Some(184u16),
        0xF8u32 => Some(161u16),
        0xF9u32 => Some(127u16),
        0xFAu32 => Some(126u16),
        0xFBu32 => Some(128u16),
        0xFCu32 => Some(129u16),
        0xFDu32 => Some(236u16),
        0xFEu32 => Some(238u16),
        0xFFu32 => Some(186u16),
        _ => None,
    }
}

/// The character for a hexadecimal digit, in upper case.
pub open spec fn hex_digit(d: nat) -> char {
    if d == 0 {
        '0'
    } else if d == 1 {
        '1'
    } else if d == 2 {
        '2'
    } else if d == 3 {
        '3'
    } else if d == 4 {
        '4'
    } else if d == 5 {
        '5'
    } else if d == 6 {
        '6'
    } else if d == 7 {
        '7'
    } else if d == 8 {
        '8'
    } else if d == 9 {
        '9'
    } else if d == 10 {
        'A'
    } else if d == 11 {
        'B'
    } else if d == 12 {
        'C'
    } else if d == 13 {
        'D'
    } else if d == 14 {
        'E'
    } else {
        'F'
    }
}

/// `n` in hexadecimal, without leading zeros.
pub open spec fn hex(n: nat) -> Seq<char>
    decreases n,
{
    if n < 16 {
        seq![hex_digit(n)]
    } else {
        hex(n / 16).push(hex_digit(n % 16))
    }
}

/// The last four hexadecimal digits of `n`.
pub open spec fn hex4(n: nat) -> Seq<char> {
    seq![
        hex_digit(n / 0x1000 % 16),
        hex_digit(n / 0x100 % 16),
        hex_digit(n / 0x10 % 16),
        hex_digit(n % 16),
    ]
}

/// The name of the glyph for a Unicode character. The printable ASCII
/// characters and those of the Latin-1 supplement have the names of the
/// standard Macintosh glyphs. Every other character of the basic plane is
/// `uni` and its code in four hexadecimal digits, and a character beyond it
/// is `u` and its code in hexadecimal.
pub open spec fn spec_unicode_name(code: u32) -> Seq<char> {
    if 0x20 <= code <= 0x7E {
        spec_mac_glyph_name((code - 29) as u16)
    } else if spec_latin1_name_index(code) is Some {
        spec_mac_glyph_name(spec_latin1_name_index(code)->Some_0)
    } else if code <= 0xFFFF {
        seq!['u', 'n', 'i'] + hex4(code as nat)
    } else {
        seq!['u'] + hex(code as nat)
    }
}

/// The name of a glyph that nothing else names: `g` and its id in decimal.
pub open spec fn spec_fallback_name(glyph: u16) -> Seq<char> {
    seq!['g'] + decimal(glyph as nat)
}

/// The text for one hexadecimal digit.
fn hex_digit_str(d: u32) -> (s: &'static str)
    requires
        d < 16,
    ensures
        s@ == seq![hex_digit(d as nat)],
{
    proof {
        reveal_strlit("0");
        reveal_strlit("1");
        reveal_strlit("2");
        reveal_strlit("3");
        reveal_strlit("4");
        reveal_strlit("5");
        reveal_strlit("6");
        reveal_strlit("7");
        reveal_strlit("8");
        reveal_strlit("9");
        reveal_strlit("A");
        reveal_strlit("B");
        reveal_strlit("C");
        reveal_strlit("D");
        reveal_strlit("E");
        reveal_strlit("F");
    }
    let s = if d == 0 {
        "0"
    } else if d == 1 {
        "1"
    } else if d == 2 {
        "2"
    } else if d == 3 {
        "3"
    } else if d == 4 {
        "4"
    } else if d == 5 {
        "5"
    } else if d == 6 {
        "6"
    } else if d == 7 {
        "7"
    } else if d == 8 {
        "8"
    } else if d == 9 {
        "9"
    } else if d == 10 {
        "A"
    } else if d == 11 {
        "B"
    } else if d == 12 {
        "C"
    } else if d == 13 {
        "D"
    } else if d == 14 {
        "E"
    } else {
        "F"
    };
    assert(s@ =~= seq![hex_digit(d as nat)]);
    s
}

/// Appends `n` in hexadecimal to `text`.
fn push_hex(text: &mut String, n: u32)
    ensures
        final(text)@ == old(text)@ + hex(n as nat),
    decreases n,
{
    if n >= 16 {
        push_hex(text, n / 16);
    }
    text.append(hex_digit_str(n % 16));
    assert(final(text)@ =~= old(text)@ + hex(n as nat));
}

/// The name of the glyph for a Unicode character.
pub fn unicode_name(code: u32) -> (name: String)
    ensures
        name@ == spec_unicode_name(code),
{
    if 0x20 <= code && code <= 0x7E {
        return String::from_str(mac_glyph_name((code - 29) as u16));
    }
    match latin1_name_index(code) {
        Some(index) => String::from_str(mac_glyph_name(index)),
        None => {
            if code <= 0xFFFF {
                proof {
                    reveal_strlit("uni");
                }
                let mut name = String::from_str("uni");
                name.append(hex_digit_str(code / 0x1000 % 16));
                name.append(hex_digit_str(code / 0x100 % 16));
                name.append(hex_digit_str(code / 0x10 % 16));
                name.append(hex_digit_str(code % 16));
                assert(name@ =~= seq!['u', 'n', 'i'] + hex4(code as nat));
                name
            } else {
                proof {
                    reveal_strlit("u");
                }
                let mut name = String::from_str("u");
                push_hex(&mut name, code);
                assert(name@ =~= seq!['u'] + hex(code as nat));
                name
            }
        },
    }
}

/// The name of a glyph that nothing else names.
pub fn fallback_name(glyph: u16) -> (name: String)
    ensures
        name@ == spec_fallback_name(glyph),
{
    proof {
        reveal_strlit("g");
    }
    let mut name = String::from_str("g");
    push_decimal(&mut name, glyph as usize);
    assert(name@ =~= seq!['g'] + decimal(glyph as nat));
    name
}

} // verus!

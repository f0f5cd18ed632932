//! Glyph codec: a printable glyph on one side, a one-byte index into a glyph
//! sheet on the other.
//!
//! A textured renderer wants a single byte per cell, the offset of the glyph
//! in its sheet; a text renderer wants the character itself. One symbol value
//! serves both: the 256 code points from U+2200 on stand for the sheet
//! indices 0 to 255, and a small table gives common printable characters and
//! box-drawing glyphs an index of their own.

use vstd::prelude::*;
use vstd::utf8::*;

verus! {

/// First code point of the block of 256 glyphs that stand for sheet indices.
pub const SHEET_BASE: u32 = 0x2200;

/// The glyph that stands for sheet index `idx`.
pub open spec fn sheet_glyph(idx: u8) -> char {
    (SHEET_BASE + idx as u32) as char
}

/// Whether `c` lies in the block of glyphs that stand for sheet indices.
pub open spec fn is_sheet_glyph(c: char) -> bool {
    SHEET_BASE <= c as u32 <= SHEET_BASE + 0xff
}

/// The sheet index that the table gives to a character outside the sheet
/// block; 0 for a character that the table does not hold.
///
/// Lower-case letters take 1 to 26, the characters from the space to `?` and
/// the upper-case letters keep their ASCII code, and the remaining entries
/// are single glyphs. The entry of U+2219 lies inside the sheet block, so
/// [`symbol_index`] never reaches it.
pub open spec fn table_index(c: char) -> u8 {
    let v = c as u32;
    if 0x61 <= v <= 0x7a {
        (v - 0x60) as u8
    } else if 0x20 <= v <= 0x3f {
        v as u8
    } else if 0x41 <= v <= 0x5a {
        v as u8
    } else if v == 0x40 {
        0
    } else if v == 0x5b {
        27
    } else if v == 0xa3 {
        28
    } else if v == 0x5d {
        29
    } else if v == 0x2191 {
        30
    } else if v == 0x2190 {
        31
    } else if v == 0x2500 {
        64
    } else if v == 0x253c {
        91
    } else if v == 0x2587 {
        209
    } else if v == 0x2592 {
        94
    } else if v == 0x2219 {
        122
    } else if v == 0x2502 {
        93
    } else if v == 0x2510 {
        110
    } else if v == 0x256e {
        73
    } else if v == 0x250c {
        112
    } else if v == 0x256d {
        85
    } else if v == 0x2514 {
        109
    } else if v == 0x2570 {
        74
    } else if v == 0x2518 {
        125
    } else if v == 0x256f {
        75
    } else {
        0
    }
}

/// The sheet index of a symbol: a single glyph of the sheet block stands for
/// its offset in the block, any other single character for its table entry,
/// and every other string for 0.
pub open spec fn symbol_index(s: Seq<char>) -> u8 {
    if s.len() == 1 {
        if is_sheet_glyph(s[0]) {
            (s[0] as u32 - SHEET_BASE) as u8
        } else {
            table_index(s[0])
        }
    } else {
        0
    }
}

/// Looks a character up in the table of common glyphs.
pub fn table_lookup(c: char) -> (idx: u8)
    ensures
        idx == table_index(c),
{
    let v: u32 = c as u32;
    if 0x61 <= v && v <= 0x7a {
        (v - 0x60) as u8
    } else if 0x20 <= v && v <= 0x3f {
        v as u8
    } else if 0x41 <= v && v <= 0x5a {
        v as u8
    } else if v == 0x40 {
        0
    } else if v == 0x5b {
        27
    } else if v == 0xa3 {
        28
    } else if v == 0x5d {
        29
    } else if v == 0x2191 {
        30
    } else if v == 0x2190 {
        31
    } else if v == 0x2500 {
        64
    } else if v == 0x253c {
        91
    } else if v == 0x2587 {
        209
    } else if v == 0x2592 {
        94
    } else if v == 0x2219 {
        122
    } else if v == 0x2502 {
        93
    } else if v == 0x2510 {
        110
    } else if v == 0x256e {
        73
    } else if v == 0x250c {
        112
    } else if v == 0x256d {
        85
    } else if v == 0x2514 {
        109
    } else if v == 0x2570 {
        74
    } else if v == 0x2518 {
        125
    } else if v == 0x256f {
        75
    } else {
        0
    }
}

/// The three bytes that encode a glyph of the sheet block: the first is
/// `0xe2`, the second carries the two high bits of the offset under the
/// prefix `0x22`, the third the six low bits.
proof fn lemma_sheet_glyph_bytes(v: u32)
    by (bit_vector)
    requires
        0x2200 <= v <= 0x22ff,
    ensures
        0xe0u8 | ((v >> 12) & 0x0f) as u8 == 0xe2u8,
        (0x80u8 | ((v >> 6) & 0x3f) as u8) >> 2 == 0x22u8,
        (((0x80u8 | ((v >> 6) & 0x3f) as u8) & 3u8) << 6u8) as u32 + ((0x80u8 | (v & 0x3f) as u8)
            & 0x3fu8) as u32 == v - 0x2200,
        (((0x80u8 | ((v >> 6) & 0x3f) as u8) & 3u8) << 6u8) as u32 + ((0x80u8 | (v & 0x3f) as u8)
            & 0x3fu8) as u32 <= 0xff,
{
}

/// A three-byte scalar whose first byte is `0xe2` and whose second byte
/// carries the prefix `0x22` lies in the sheet block.
proof fn lemma_bytes_sheet_glyph(v: u32)
    by (bit_vector)
    requires
        0x800 <= v <= 0xffff,
        0xe0u8 | ((v >> 12) & 0x0f) as u8 == 0xe2u8,
        (0x80u8 | ((v >> 6) & 0x3f) as u8) >> 2 == 0x22u8,
    ensures
        0x2200 <= v <= 0x22ff,
{
}

/// No scalar of one, two or four bytes starts with the byte `0xe2`.
proof fn lemma_lead_byte_width(v: u32)
    by (bit_vector)
    ensures
        v <= 0x7f ==> (v & 0x7f) as u8 != 0xe2u8,
        0x80 <= v <= 0x7ff ==> 0xc0u8 | ((v >> 6) & 0x1f) as u8 != 0xe2u8,
        0x10000 <= v <= 0x10ffff ==> 0xf0u8 | ((v >> 18) & 0x7) as u8 != 0xe2u8,
{
}

/// Bit extraction on any two bytes stays within a byte.
proof fn lemma_extract_fits(b1: u8, b2: u8)
    by (bit_vector)
    ensures
        ((b1 & 3u8) << 6u8) as u32 + (b2 & 0x3fu8) as u32 <= 0xff,
        ((b1 & 3u8) << 6u8) as u32 <= 0xff,
{
}

/// The UTF-8 encoding of a string is three bytes that start with `0xe2` and
/// carry the prefix `0x22` exactly when the string is one glyph of the sheet
/// block; the bits extracted from the last two bytes are then its offset.
proof fn lemma_sheet_encoding(s: Seq<char>)
    ensures
        ({
            let b = encode_utf8(s);
            let hit = b.len() == 3 && b[0] == 0xe2u8 && (b[1] >> 2) == 0x22u8;
            &&& hit <==> (s.len() == 1 && is_sheet_glyph(s[0]))
            &&& hit ==> ((b[1] & 3u8) << 6u8) as u32 + (b[2] & 0x3fu8) as u32 == s[0] as u32
                - SHEET_BASE
        }),
{
    reveal_with_fuel(encode_utf8, 2);
    let b = encode_utf8(s);
    if s.len() == 0 {
        assert(b.len() == 0);
    } else {
        let v = s[0] as u32;
        let rest = s.drop_first();
        char_is_scalar(s[0]);
        assert(b =~= encode_scalar(v) + encode_utf8(rest));
        lemma_lead_byte_width(v);
        if rest.len() > 0 {
            let first = encode_scalar(rest[0] as u32);
            assert(encode_utf8(rest) =~= first + encode_utf8(rest.drop_first()));
            assert(first.len() >= 1);
            assert(encode_utf8(rest).len() >= 1);
        } else {
            assert(encode_utf8(rest).len() == 0);
        }
        if has_width_3_encoding(v) {
            assert(encode_scalar(v).len() == 3);
            assert(b[0] == leading_byte_width_3(v));
            assert(b[1] == second_last_continuation_byte(v));
            assert(b[2] == last_continuation_byte(v));
            if 0x2200 <= v <= 0x22ff {
                lemma_sheet_glyph_bytes(v);
            }
            if b[0] == 0xe2u8 && (b[1] >> 2) == 0x22u8 {
                lemma_bytes_sheet_glyph(v);
            }
        } else {
            assert(b[0] == encode_scalar(v)[0]);
            assert(!is_sheet_glyph(s[0]));
        }
    }
}

/// Returns the glyph that stands for sheet index `idx`: the character
/// U+2200 + `idx`, as a string of that one character.
pub fn cellsym(idx: u8) -> (sym: &'static str)
    ensures
        sym@ == seq![sheet_glyph(idx)],
{
    proof {
        lemma_sheet_literals();
    }
    match idx {
        0 => "∀",
        1 => "∁",
        2 => "∂",
        3 => "∃",
        4 => "∄",
        5 => "∅",
        6 => "∆",
        7 => "∇",
        8 => "∈",
        9 => "∉",
        10 => "∊",
        11 => "∋",
        12 => "∌",
        13 => "∍",
        14 => "∎",
        15 => "∏",
        16 => "∐",
        17 => "∑",
        18 => "−",
        19 => "∓",
        20 => "∔",
        21 => "∕",
        22 => "∖",
        23 => "∗",
        24 => "∘",
        25 => "∙",
        26 => "√",
        27 => "∛",
        28 => "∜",
        29 => "∝",
        30 => "∞",
        31 => "∟",
        32 => "∠",
        33 => "∡",
        34 => "∢",
        35 => "∣",
        36 => "∤",
        37 => "∥",
        38 => "∦",
        39 => "∧",
        40 => "∨",
        41 => "∩",
        42 => "∪",
        43 => "∫",
        44 => "∬",
        45 => "∭",
        46 => "∮",
        47 => "∯",
        48 => "∰",
        49 => "∱",
        50 => "∲",
        51 => "∳",
        52 => "∴",
        53 => "∵",
        54 => "∶",
        55 => "∷",
        56 => "∸",
        57 => "∹",
        58 => "∺",
        59 => "∻",
        60 => "∼",
        61 => "∽",
        62 => "∾",
        63 => "∿",
        64 => "≀",
        65 => "≁",
        66 => "≂",
        67 => "≃",
        68 => "≄",
        69 => "≅",
        70 => "≆",
        71 => "≇",
        72 => "≈",
        73 => "≉",
        74 => "≊",
        75 => "≋",
        76 => "≌",
        77 => "≍",
        78 => "≎",
        79 => "≏",
        80 => "≐",
        81 => "≑",
        82 => "≒",
        83 => "≓",
        84 => "≔",
        85 => "≕",
        86 => "≖",
        87 => "≗",
        88 => "≘",
        89 => "≙",
        90 => "≚",
        91 => "≛",
        92 => "≜",
        93 => "≝",
        94 => "≞",
        95 => "≟",
        96 => "≠",
        97 => "≡",
        98 => "≢",
        99 => "≣",
        100 => "≤",
        101 => "≥",
        102 => "≦",
        103 => "≧",
        104 => "≨",
        105 => "≩",
        106 => "≪",
        107 => "≫",
        108 => "≬",
        109 => "≭",
        110 => "≮",
        111 => "≯",
        112 => "≰",
        113 => "≱",
        114 => "≲",
        115 => "≳",
        116 => "≴",
        117 => "≵",
        118 => "≶",
        119 => "≷",
        120 => "≸",
        121 => "≹",
        122 => "≺",
        123 => "≻",
        124 => "≼",
        125 => "≽",
        126 => "≾",
        127 => "≿",
        128 => "⊀",
        129 => "⊁",
        130 => "⊂",
        131 => "⊃",
        132 => "⊄",
        133 => "⊅",
        134 => "⊆",
        135 => "⊇",
        136 => "⊈",
        137 => "⊉",
        138 => "⊊",
        139 => "⊋",
        140 => "⊌",
        141 => "⊍",
        142 => "⊎",
        143 => "⊏",
        144 => "⊐",
        145 => "⊑",
        146 => "⊒",
        147 => "⊓",
        148 => "⊔",
        149 => "⊕",
        150 => "⊖",
        151 => "⊗",
        152 => "⊘",
        153 => "⊙",
        154 => "⊚",
        155 => "⊛",
        156 => "⊜",
        157 => "⊝",
        158 => "⊞",
        159 => "⊟",
        160 => "⊠",
        161 => "⊡",
        162 => "⊢",
        163 => "⊣",
        164 => "⊤",
        165 => "⊥",
        166 => "⊦",
        167 => "⊧",
        168 => "⊨",
        169 => "⊩",
        170 => "⊪",
        171 => "⊫",
        172 => "⊬",
        173 => "⊭",
        174 => "⊮",
        175 => "⊯",
        176 => "⊰",
        177 => "⊱",
        178 => "⊲",
        179 => "⊳",
        180 => "⊴",
        181 => "⊵",
        182 => "⊶",
        183 => "⊷",
        184 => "⊸",
        185 => "⊹",
        186 => "⊺",
        187 => "⊻",
        188 => "⊼",
        189 => "⊽",
        190 => "⊾",
        191 => "⊿",
        192 => "⋀",
        193 => "⋁",
        194 => "⋂",
        195 => "⋃",
        196 => "⋄",
        197 => "⋅",
        198 => "⋆",
        199 => "⋇",
        200 => "⋈",
        201 => "⋉",
        202 => "⋊",
        203 => "⋋",
        204 => "⋌",
        205 => "⋍",
        206 => "⋎",
        207 => "⋏",
        208 => "⋐",
        209 => "⋑",
        210 => "⋒",
        211 => "⋓",
        212 => "⋔",
        213 => "⋕",
        214 => "⋖",
        215 => "⋗",
        216 => "⋘",
        217 => "⋙",
        218 => "⋚",
        219 => "⋛",
        220 => "⋜",
        221 => "⋝",
        222 => "⋞",
        223 => "⋟",
        224 => "⋠",
        225 => "⋡",
        226 => "⋢",
        227 => "⋣",
        228 => "⋤",
        229 => "⋥",
        230 => "⋦",
        231 => "⋧",
        232 => "⋨",
        233 => "⋩",
        234 => "⋪",
        235 => "⋫",
        236 => "⋬",
        237 => "⋭",
        238 => "⋮",
        239 => "⋯",
        240 => "⋰",
        241 => "⋱",
        242 => "⋲",
        243 => "⋳",
        244 => "⋴",
        245 => "⋵",
        246 => "⋶",
        247 => "⋷",
        248 => "⋸",
        249 => "⋹",
        250 => "⋺",
        251 => "⋻",
        252 => "⋼",
        253 => "⋽",
        254 => "⋾",
        255 => "⋿",
    }
}

/// Returns the sheet index of a symbol: for a single glyph of the sheet
/// block its offset in the block, read from the low bits of the last two
/// bytes of its encoding; for any other single character its table entry;
/// 0 for everything else.
pub fn cellinfo(symbol: &String) -> (idx: u8)
    ensures
        idx == symbol_index(symbol@),
{
    let text = symbol.as_str();
    let sbts = text.as_bytes();
    proof {
        lemma_sheet_encoding(symbol@);
    }
    if sbts.len() == 3 {
        if sbts[0] == 0xe2 && (sbts[1] >> 2 == 0x22) {
            proof {
                lemma_extract_fits(sbts[1], sbts[2]);
            }
            let idx: u8 = ((sbts[1] & 3) << 6) + (sbts[2] & 0x3f);
            return idx;
        }
    }
    if text.unicode_len() == 1 {
        table_lookup(text.get_char(0))
    } else {
        0
    }
}

/// Encoding after decoding is the identity on all 256 sheet indices.
pub proof fn lemma_symbol_round_trip(idx: u8)
    ensures
        symbol_index(seq![sheet_glyph(idx)]) == idx,
        is_sheet_glyph(sheet_glyph(idx)),
{
    let v: u32 = (SHEET_BASE + idx) as u32;
    assert(0x2200 <= v <= 0x22ff);
    assert(seq![sheet_glyph(idx)][0] == sheet_glyph(idx));
}

/// Each literal that [`cellsym`] hands out holds exactly its sheet glyph.
proof fn lemma_sheet_literals()
    ensures
        "∀"@ == seq![sheet_glyph(0)],
        "∁"@ == seq![sheet_glyph(1)],
        "∂"@ == seq![sheet_glyph(2)],
        "∃"@ == seq![sheet_glyph(3)],
        "∄"@ == seq![sheet_glyph(4)],
        "∅"@ == seq![sheet_glyph(5)],
        "∆"@ == seq![sheet_glyph(6)],
        "∇"@ == seq![sheet_glyph(7)],
        "∈"@ == seq![sheet_glyph(8)],
        "∉"@ == seq![sheet_glyph(9)],
        "∊"@ == seq![sheet_glyph(10)],
        "∋"@ == seq![sheet_glyph(11)],
        "∌"@ == seq![sheet_glyph(12)],
        "∍"@ == seq![sheet_glyph(13)],
        "∎"@ == seq![sheet_glyph(14)],
        "∏"@ == seq![sheet_glyph(15)],
        "∐"@ == seq![sheet_glyph(16)],
        "∑"@ == seq![sheet_glyph(17)],
        "−"@ == seq![sheet_glyph(18)],
        "∓"@ == seq![sheet_glyph(19)],
        "∔"@ == seq![sheet_glyph(20)],
        "∕"@ == seq![sheet_glyph(21)],
        "∖"@ == seq![sheet_glyph(22)],
        "∗"@ == seq![sheet_glyph(23)],
        "∘"@ == seq![sheet_glyph(24)],
        "∙"@ == seq![sheet_glyph(25)],
        "√"@ == seq![sheet_glyph(26)],
        "∛"@ == seq![sheet_glyph(27)],
        "∜"@ == seq![sheet_glyph(28)],
        "∝"@ == seq![sheet_glyph(29)],
        "∞"@ == seq![sheet_glyph(30)],
        "∟"@ == seq![sheet_glyph(31)],
        "∠"@ == seq![sheet_glyph(32)],
        "∡"@ == seq![sheet_glyph(33)],
        "∢"@ == seq![sheet_glyph(34)],
        "∣"@ == seq![sheet_glyph(35)],
        "∤"@ == seq![sheet_glyph(36)],
        "∥"@ == seq![sheet_glyph(37)],
        "∦"@ == seq![sheet_glyph(38)],
        "∧"@ == seq![sheet_glyph(39)],
        "∨"@ == seq![sheet_glyph(40)],
        "∩"@ == seq![sheet_glyph(41)],
        "∪"@ == seq![sheet_glyph(42)],
        "∫"@ == seq![sheet_glyph(43)],
        "∬"@ == seq![sheet_glyph(44)],
        "∭"@ == seq![sheet_glyph(45)],
        "∮"@ == seq![sheet_glyph(46)],
        "∯"@ == seq![sheet_glyph(47)],
        "∰"@ == seq![sheet_glyph(48)],
        "∱"@ == seq![sheet_glyph(49)],
        "∲"@ == seq![sheet_glyph(50)],
        "∳"@ == seq![sheet_glyph(51)],
        "∴"@ == seq![sheet_glyph(52)],
        "∵"@ == seq![sheet_glyph(53)],
        "∶"@ == seq![sheet_glyph(54)],
        "∷"@ == seq![sheet_glyph(55)],
        "∸"@ == seq![sheet_glyph(56)],
        "∹"@ == seq![sheet_glyph(57)],
        "∺"@ == seq![sheet_glyph(58)],
        "∻"@ == seq![sheet_glyph(59)],
        "∼"@ == seq![sheet_glyph(60)],
        "∽"@ == seq![sheet_glyph(61)],
        "∾"@ == seq![sheet_glyph(62)],
        "∿"@ == seq![sheet_glyph(63)],
        "≀"@ == seq![sheet_glyph(64)],
        "≁"@ == seq![sheet_glyph(65)],
        "≂"@ == seq![sheet_glyph(66)],
        "≃"@ == seq![sheet_glyph(67)],
        "≄"@ == seq![sheet_glyph(68)],
        "≅"@ == seq![sheet_glyph(69)],
        "≆"@ == seq![sheet_glyph(70)],
        "≇"@ == seq![sheet_glyph(71)],
        "≈"@ == seq![sheet_glyph(72)],
        "≉"@ == seq![sheet_glyph(73)],
        "≊"@ == seq![sheet_glyph(74)],
        "≋"@ == seq![sheet_glyph(75)],
        "≌"@ == seq![sheet_glyph(76)],
        "≍"@ == seq![sheet_glyph(77)],
        "≎"@ == seq![sheet_glyph(78)],
        "≏"@ == seq![sheet_glyph(79)],
        "≐"@ == seq![sheet_glyph(80)],
        "≑"@ == seq![sheet_glyph(81)],
        "≒"@ == seq![sheet_glyph(82)],
        "≓"@ == seq![sheet_glyph(83)],
        "≔"@ == seq![sheet_glyph(84)],
        "≕"@ == seq![sheet_glyph(85)],
        "≖"@ == seq![sheet_glyph(86)],
        "≗"@ == seq![sheet_glyph(87)],
        "≘"@ == seq![sheet_glyph(88)],
        "≙"@ == seq![sheet_glyph(89)],
        "≚"@ == seq![sheet_glyph(90)],
        "≛"@ == seq![sheet_glyph(91)],
        "≜"@ == seq![sheet_glyph(92)],
        "≝"@ == seq![sheet_glyph(93)],
        "≞"@ == seq![sheet_glyph(94)],
        "≟"@ == seq![sheet_glyph(95)],
        "≠"@ == seq![sheet_glyph(96)],
        "≡"@ == seq![sheet_glyph(97)],
        "≢"@ == seq![sheet_glyph(98)],
        "≣"@ == seq![sheet_glyph(99)],
        "≤"@ == seq![sheet_glyph(100)],
        "≥"@ == seq![sheet_glyph(101)],
        "≦"@ == seq![sheet_glyph(102)],
        "≧"@ == seq![sheet_glyph(103)],
        "≨"@ == seq![sheet_glyph(104)],
        "≩"@ == seq![sheet_glyph(105)],
        "≪"@ == seq![sheet_glyph(106)],
        "≫"@ == seq![sheet_glyph(107)],
        "≬"@ == seq![sheet_glyph(108)],
        "≭"@ == seq![sheet_glyph(109)],
        "≮"@ == seq![sheet_glyph(110)],
        "≯"@ == seq![sheet_glyph(111)],
        "≰"@ == seq![sheet_glyph(112)],
        "≱"@ == seq![sheet_glyph(113)],
        "≲"@ == seq![sheet_glyph(114)],
        "≳"@ == seq![sheet_glyph(115)],
        "≴"@ == seq![sheet_glyph(116)],
        "≵"@ == seq![sheet_glyph(117)],
        "≶"@ == seq![sheet_glyph(118)],
        "≷"@ == seq![sheet_glyph(119)],
        "≸"@ == seq![sheet_glyph(120)],
        "≹"@ == seq![sheet_glyph(121)],
        "≺"@ == seq![sheet_glyph(122)],
        "≻"@ == seq![sheet_glyph(123)],
        "≼"@ == seq![sheet_glyph(124)],
        "≽"@ == seq![sheet_glyph(125)],
        "≾"@ == seq![sheet_glyph(126)],
        "≿"@ == seq![sheet_glyph(127)],
        "⊀"@ == seq![sheet_glyph(128)],
        "⊁"@ == seq![sheet_glyph(129)],
        "⊂"@ == seq![sheet_glyph(130)],
        "⊃"@ == seq![sheet_glyph(131)],
        "⊄"@ == seq![sheet_glyph(132)],
        "⊅"@ == seq![sheet_glyph(133)],
        "⊆"@ == seq![sheet_glyph(134)],
        "⊇"@ == seq![sheet_glyph(135)],
        "⊈"@ == seq![sheet_glyph(136)],
        "⊉"@ == seq![sheet_glyph(137)],
        "⊊"@ == seq![sheet_glyph(138)],
        "⊋"@ == seq![sheet_glyph(139)],
        "⊌"@ == seq![sheet_glyph(140)],
        "⊍"@ == seq![sheet_glyph(141)],
        "⊎"@ == seq![sheet_glyph(142)],
        "⊏"@ == seq![sheet_glyph(143)],
        "⊐"@ == seq![sheet_glyph(144)],
        "⊑"@ == seq![sheet_glyph(145)],
        "⊒"@ == seq![sheet_glyph(146)],
        "⊓"@ == seq![sheet_glyph(147)],
        "⊔"@ == seq![sheet_glyph(148)],
        "⊕"@ == seq![sheet_glyph(149)],
        "⊖"@ == seq![sheet_glyph(150)],
        "⊗"@ == seq![sheet_glyph(151)],
        "⊘"@ == seq![sheet_glyph(152)],
        "⊙"@ == seq![sheet_glyph(153)],
        "⊚"@ == seq![sheet_glyph(154)],
        "⊛"@ == seq![sheet_glyph(155)],
        "⊜"@ == seq![sheet_glyph(156)],
        "⊝"@ == seq![sheet_glyph(157)],
        "⊞"@ == seq![sheet_glyph(158)],
        "⊟"@ == seq![sheet_glyph(159)],
        "⊠"@ == seq![sheet_glyph(160)],
        "⊡"@ == seq![sheet_glyph(161)],
        "⊢"@ == seq![sheet_glyph(162)],
        "⊣"@ == seq![sheet_glyph(163)],
        "⊤"@ == seq![sheet_glyph(164)],
        "⊥"@ == seq![sheet_glyph(165)],
        "⊦"@ == seq![sheet_glyph(166)],
        "⊧"@ == seq![sheet_glyph(167)],
        "⊨"@ == seq![sheet_glyph(168)],
        "⊩"@ == seq![sheet_glyph(169)],
        "⊪"@ == seq![sheet_glyph(170)],
        "⊫"@ == seq![sheet_glyph(171)],
        "⊬"@ == seq![sheet_glyph(172)],
        "⊭"@ == seq![sheet_glyph(173)],
        "⊮"@ == seq![sheet_glyph(174)],
        "⊯"@ == seq![sheet_glyph(175)],
        "⊰"@ == seq![sheet_glyph(176)],
        "⊱"@ == seq![sheet_glyph(177)],
        "⊲"@ == seq![sheet_glyph(178)],
        "⊳"@ == seq![sheet_glyph(179)],
        "⊴"@ == seq![sheet_glyph(180)],
        "⊵"@ == seq![sheet_glyph(181)],
        "⊶"@ == seq![sheet_glyph(182)],
        "⊷"@ == seq![sheet_glyph(183)],
        "⊸"@ == seq![sheet_glyph(184)],
        "⊹"@ == seq![sheet_glyph(185)],
        "⊺"@ == seq![sheet_glyph(186)],
        "⊻"@ == seq![sheet_glyph(187)],
        "⊼"@ == seq![sheet_glyph(188)],
        "⊽"@ == seq![sheet_glyph(189)],
        "⊾"@ == seq![sheet_glyph(190)],
        "⊿"@ == seq![sheet_glyph(191)],
        "⋀"@ == seq![sheet_glyph(192)],
        "⋁"@ == seq![sheet_glyph(193)],
        "⋂"@ == seq![sheet_glyph(194)],
        "⋃"@ == seq![sheet_glyph(195)],
        "⋄"@ == seq![sheet_glyph(196)],
        "⋅"@ == seq![sheet_glyph(197)],
        "⋆"@ == seq![sheet_glyph(198)],
        "⋇"@ == seq![sheet_glyph(199)],
        "⋈"@ == seq![sheet_glyph(200)],
        "⋉"@ == seq![sheet_glyph(201)],
        "⋊"@ == seq![sheet_glyph(202)],
        "⋋"@ == seq![sheet_glyph(203)],
        "⋌"@ == seq![sheet_glyph(204)],
        "⋍"@ == seq![sheet_glyph(205)],
        "⋎"@ == seq![sheet_glyph(206)],
        "⋏"@ == seq![sheet_glyph(207)],
        "⋐"@ == seq![sheet_glyph(208)],
        "⋑"@ == seq![sheet_glyph(209)],
        "⋒"@ == seq![sheet_glyph(210)],
        "⋓"@ == seq![sheet_glyph(211)],
        "⋔"@ == seq![sheet_glyph(212)],
        "⋕"@ == seq![sheet_glyph(213)],
        "⋖"@ == seq![sheet_glyph(214)],
        "⋗"@ == seq![sheet_glyph(215)],
        "⋘"@ == seq![sheet_glyph(216)],
        "⋙"@ == seq![sheet_glyph(217)],
        "⋚"@ == seq![sheet_glyph(218)],
        "⋛"@ == seq![sheet_glyph(219)],
        "⋜"@ == seq![sheet_glyph(220)],
        "⋝"@ == seq![sheet_glyph(221)],
        "⋞"@ == seq![sheet_glyph(222)],
        "⋟"@ == seq![sheet_glyph(223)],
        "⋠"@ == seq![sheet_glyph(224)],
        "⋡"@ == seq![sheet_glyph(225)],
        "⋢"@ == seq![sheet_glyph(226)],
        "⋣"@ == seq![sheet_glyph(227)],
        "⋤"@ == seq![sheet_glyph(228)],
        "⋥"@ == seq![sheet_glyph(229)],
        "⋦"@ == seq![sheet_glyph(230)],
        "⋧"@ == seq![sheet_glyph(231)],
        "⋨"@ == seq![sheet_glyph(232)],
        "⋩"@ == seq![sheet_glyph(233)],
        "⋪"@ == seq![sheet_glyph(234)],
        "⋫"@ == seq![sheet_glyph(235)],
        "⋬"@ == seq![sheet_glyph(236)],
        "⋭"@ == seq![sheet_glyph(237)],
        "⋮"@ == seq![sheet_glyph(238)],
        "⋯"@ == seq![sheet_glyph(239)],
        "⋰"@ == seq![sheet_glyph(240)],
        "⋱"@ == seq![sheet_glyph(241)],
        "⋲"@ == seq![sheet_glyph(242)],
        "⋳"@ == seq![sheet_glyph(243)],
        "⋴"@ == seq![sheet_glyph(244)],
        "⋵"@ == seq![sheet_glyph(245)],
        "⋶"@ == seq![sheet_glyph(246)],
        "⋷"@ == seq![sheet_glyph(247)],
        "⋸"@ == seq![sheet_glyph(248)],
        "⋹"@ == seq![sheet_glyph(249)],
        "⋺"@ == seq![sheet_glyph(250)],
        "⋻"@ == seq![sheet_glyph(251)],
        "⋼"@ == seq![sheet_glyph(252)],
        "⋽"@ == seq![sheet_glyph(253)],
        "⋾"@ == seq![sheet_glyph(254)],
        "⋿"@ == seq![sheet_glyph(255)],
{
    reveal_strlit("∀");
    reveal_strlit("∁");
    reveal_strlit("∂");
    reveal_strlit("∃");
    reveal_strlit("∄");
    reveal_strlit("∅");
    reveal_strlit("∆");
    reveal_strlit("∇");
    reveal_strlit("∈");
    reveal_strlit("∉");
    reveal_strlit("∊");
    reveal_strlit("∋");
    reveal_strlit("∌");
    reveal_strlit("∍");
    reveal_strlit("∎");
    reveal_strlit("∏");
    reveal_strlit("∐");
    reveal_strlit("∑");
    reveal_strlit("−");
    reveal_strlit("∓");
    reveal_strlit("∔");
    reveal_strlit("∕");
    reveal_strlit("∖");
    reveal_strlit("∗");
    reveal_strlit("∘");
    reveal_strlit("∙");
    reveal_strlit("√");
    reveal_strlit("∛");
    reveal_strlit("∜");
    reveal_strlit("∝");
    reveal_strlit("∞");
    reveal_strlit("∟");
    reveal_strlit("∠");
    reveal_strlit("∡");
    reveal_strlit("∢");
    reveal_strlit("∣");
    reveal_strlit("∤");
    reveal_strlit("∥");
    reveal_strlit("∦");
    reveal_strlit("∧");
    reveal_strlit("∨");
    reveal_strlit("∩");
    reveal_strlit("∪");
    reveal_strlit("∫");
    reveal_strlit("∬");
    reveal_strlit("∭");
    reveal_strlit("∮");
    reveal_strlit("∯");
    reveal_strlit("∰");
    reveal_strlit("∱");
    reveal_strlit("∲");
    reveal_strlit("∳");
    reveal_strlit("∴");
    reveal_strlit("∵");
    reveal_strlit("∶");
    reveal_strlit("∷");
    reveal_strlit("∸");
    reveal_strlit("∹");
    reveal_strlit("∺");
    reveal_strlit("∻");
    reveal_strlit("∼");
    reveal_strlit("∽");
    reveal_strlit("∾");
    reveal_strlit("∿");
    reveal_strlit("≀");
    reveal_strlit("≁");
    reveal_strlit("≂");
    reveal_strlit("≃");
    reveal_strlit("≄");
    reveal_strlit("≅");
    reveal_strlit("≆");
    reveal_strlit("≇");
    reveal_strlit("≈");
    reveal_strlit("≉");
    reveal_strlit("≊");
    reveal_strlit("≋");
    reveal_strlit("≌");
    reveal_strlit("≍");
    reveal_strlit("≎");
    reveal_strlit("≏");
    reveal_strlit("≐");
    reveal_strlit("≑");
    reveal_strlit("≒");
    reveal_strlit("≓");
    reveal_strlit("≔");
    reveal_strlit("≕");
    reveal_strlit("≖");
    reveal_strlit("≗");
    reveal_strlit("≘");
    reveal_strlit("≙");
    reveal_strlit("≚");
    reveal_strlit("≛");
    reveal_strlit("≜");
    reveal_strlit("≝");
    reveal_strlit("≞");
    reveal_strlit("≟");
    reveal_strlit("≠");
    reveal_strlit("≡");
    reveal_strlit("≢");
    reveal_strlit("≣");
    reveal_strlit("≤");
    reveal_strlit("≥");
    reveal_strlit("≦");
    reveal_strlit("≧");
    reveal_strlit("≨");
    reveal_strlit("≩");
    reveal_strlit("≪");
    reveal_strlit("≫");
    reveal_strlit("≬");
    reveal_strlit("≭");
    reveal_strlit("≮");
    reveal_strlit("≯");
    reveal_strlit("≰");
    reveal_strlit("≱");
    reveal_strlit("≲");
    reveal_strlit("≳");
    reveal_strlit("≴");
    reveal_strlit("≵");
    reveal_strlit("≶");
    reveal_strlit("≷");
    reveal_strlit("≸");
    reveal_strlit("≹");
    reveal_strlit("≺");
    reveal_strlit("≻");
    reveal_strlit("≼");
    reveal_strlit("≽");
    reveal_strlit("≾");
    reveal_strlit("≿");
    reveal_strlit("⊀");
    reveal_strlit("⊁");
    reveal_strlit("⊂");
    reveal_strlit("⊃");
    reveal_strlit("⊄");
    reveal_strlit("⊅");
    reveal_strlit("⊆");
    reveal_strlit("⊇");
    reveal_strlit("⊈");
    reveal_strlit("⊉");
    reveal_strlit("⊊");
    reveal_strlit("⊋");
    reveal_strlit("⊌");
    reveal_strlit("⊍");
    reveal_strlit("⊎");
    reveal_strlit("⊏");
    reveal_strlit("⊐");
    reveal_strlit("⊑");
    reveal_strlit("⊒");
    reveal_strlit("⊓");
    reveal_strlit("⊔");
    reveal_strlit("⊕");
    reveal_strlit("⊖");
    reveal_strlit("⊗");
    reveal_strlit("⊘");
    reveal_strlit("⊙");
    reveal_strlit("⊚");
    reveal_strlit("⊛");
    reveal_strlit("⊜");
    reveal_strlit("⊝");
    reveal_strlit("⊞");
    reveal_strlit("⊟");
    reveal_strlit("⊠");
    reveal_strlit("⊡");
    reveal_strlit("⊢");
    reveal_strlit("⊣");
    reveal_strlit("⊤");
    reveal_strlit("⊥");
    reveal_strlit("⊦");
    reveal_strlit("⊧");
    reveal_strlit("⊨");
    reveal_strlit("⊩");
    reveal_strlit("⊪");
    reveal_strlit("⊫");
    reveal_strlit("⊬");
    reveal_strlit("⊭");
    reveal_strlit("⊮");
    reveal_strlit("⊯");
    reveal_strlit("⊰");
    reveal_strlit("⊱");
    reveal_strlit("⊲");
    reveal_strlit("⊳");
    reveal_strlit("⊴");
    reveal_strlit("⊵");
    reveal_strlit("⊶");
    reveal_strlit("⊷");
    reveal_strlit("⊸");
    reveal_strlit("⊹");
    reveal_strlit("⊺");
    reveal_strlit("⊻");
    reveal_strlit("⊼");
    reveal_strlit("⊽");
    reveal_strlit("⊾");
    reveal_strlit("⊿");
    reveal_strlit("⋀");
    reveal_strlit("⋁");
    reveal_strlit("⋂");
    reveal_strlit("⋃");
    reveal_strlit("⋄");
    reveal_strlit("⋅");
    reveal_strlit("⋆");
    reveal_strlit("⋇");
    reveal_strlit("⋈");
    reveal_strlit("⋉");
    reveal_strlit("⋊");
    reveal_strlit("⋋");
    reveal_strlit("⋌");
    reveal_strlit("⋍");
    reveal_strlit("⋎");
    reveal_strlit("⋏");
    reveal_strlit("⋐");
    reveal_strlit("⋑");
    reveal_strlit("⋒");
    reveal_strlit("⋓");
    reveal_strlit("⋔");
    reveal_strlit("⋕");
    reveal_strlit("⋖");
    reveal_strlit("⋗");
    reveal_strlit("⋘");
    reveal_strlit("⋙");
    reveal_strlit("⋚");
    reveal_strlit("⋛");
    reveal_strlit("⋜");
    reveal_strlit("⋝");
    reveal_strlit("⋞");
    reveal_strlit("⋟");
    reveal_strlit("⋠");
    reveal_strlit("⋡");
    reveal_strlit("⋢");
    reveal_strlit("⋣");
    reveal_strlit("⋤");
    reveal_strlit("⋥");
    reveal_strlit("⋦");
    reveal_strlit("⋧");
    reveal_strlit("⋨");
    reveal_strlit("⋩");
    reveal_strlit("⋪");
    reveal_strlit("⋫");
    reveal_strlit("⋬");
    reveal_strlit("⋭");
    reveal_strlit("⋮");
    reveal_strlit("⋯");
    reveal_strlit("⋰");
    reveal_strlit("⋱");
    reveal_strlit("⋲");
    reveal_strlit("⋳");
    reveal_strlit("⋴");
    reveal_strlit("⋵");
    reveal_strlit("⋶");
    reveal_strlit("⋷");
    reveal_strlit("⋸");
    reveal_strlit("⋹");
    reveal_strlit("⋺");
    reveal_strlit("⋻");
    reveal_strlit("⋼");
    reveal_strlit("⋽");
    reveal_strlit("⋾");
    reveal_strlit("⋿");
    assert("∀"@ =~= seq![sheet_glyph(0)]);
    assert("∁"@ =~= seq![sheet_glyph(1)]);
    assert("∂"@ =~= seq![sheet_glyph(2)]);
    assert("∃"@ =~= seq![sheet_glyph(3)]);
    assert("∄"@ =~= seq![sheet_glyph(4)]);
    assert("∅"@ =~= seq![sheet_glyph(5)]);
    assert("∆"@ =~= seq![sheet_glyph(6)]);
    assert("∇"@ =~= seq![sheet_glyph(7)]);
    assert("∈"@ =~= seq![sheet_glyph(8)]);
    assert("∉"@ =~= seq![sheet_glyph(9)]);
    assert("∊"@ =~= seq![sheet_glyph(10)]);
    assert("∋"@ =~= seq![sheet_glyph(11)]);
    assert("∌"@ =~= seq![sheet_glyph(12)]);
    assert("∍"@ =~= seq![sheet_glyph(13)]);
    assert("∎"@ =~= seq![sheet_glyph(14)]);
    assert("∏"@ =~= seq![sheet_glyph(15)]);
    assert("∐"@ =~= seq![sheet_glyph(16)]);
    assert("∑"@ =~= seq![sheet_glyph(17)]);
    assert("−"@ =~= seq![sheet_glyph(18)]);
    assert("∓"@ =~= seq![sheet_glyph(19)]);
    assert("∔"@ =~= seq![sheet_glyph(20)]);
    assert("∕"@ =~= seq![sheet_glyph(21)]);
    assert("∖"@ =~= seq![sheet_glyph(22)]);
    assert("∗"@ =~= seq![sheet_glyph(23)]);
    assert("∘"@ =~= seq![sheet_glyph(24)]);
    assert("∙"@ =~= seq![sheet_glyph(25)]);
    assert("√"@ =~= seq![sheet_glyph(26)]);
    assert("∛"@ =~= seq![sheet_glyph(27)]);
    assert("∜"@ =~= seq![sheet_glyph(28)]);
    assert("∝"@ =~= seq![sheet_glyph(29)]);
    assert("∞"@ =~= seq![sheet_glyph(30)]);
    assert("∟"@ =~= seq![sheet_glyph(31)]);
    assert("∠"@ =~= seq![sheet_glyph(32)]);
    assert("∡"@ =~= seq![sheet_glyph(33)]);
    assert("∢"@ =~= seq![sheet_glyph(34)]);
    assert("∣"@ =~= seq![sheet_glyph(35)]);
    assert("∤"@ =~= seq![sheet_glyph(36)]);
    assert("∥"@ =~= seq![sheet_glyph(37)]);
    assert("∦"@ =~= seq![sheet_glyph(38)]);
    assert("∧"@ =~= seq![sheet_glyph(39)]);
    assert("∨"@ =~= seq![sheet_glyph(40)]);
    assert("∩"@ =~= seq![sheet_glyph(41)]);
    assert("∪"@ =~= seq![sheet_glyph(42)]);
    assert("∫"@ =~= seq![sheet_glyph(43)]);
    assert("∬"@ =~= seq![sheet_glyph(44)]);
    assert("∭"@ =~= seq![sheet_glyph(45)]);
    assert("∮"@ =~= seq![sheet_glyph(46)]);
    assert("∯"@ =~= seq![sheet_glyph(47)]);
    assert("∰"@ =~= seq![sheet_glyph(48)]);
    assert("∱"@ =~= seq![sheet_glyph(49)]);
    assert("∲"@ =~= seq![sheet_glyph(50)]);
    assert("∳"@ =~= seq![sheet_glyph(51)]);
    assert("∴"@ =~= seq![sheet_glyph(52)]);
    assert("∵"@ =~= seq![sheet_glyph(53)]);
    assert("∶"@ =~= seq![sheet_glyph(54)]);
    assert("∷"@ =~= seq![sheet_glyph(55)]);
    assert("∸"@ =~= seq![sheet_glyph(56)]);
    assert("∹"@ =~= seq![sheet_glyph(57)]);
    assert("∺"@ =~= seq![sheet_glyph(58)]);
    assert("∻"@ =~= seq![sheet_glyph(59)]);
    assert("∼"@ =~= seq![sheet_glyph(60)]);
    assert("∽"@ =~= seq![sheet_glyph(61)]);
    assert("∾"@ =~= seq![sheet_glyph(62)]);
    assert("∿"@ =~= seq![sheet_glyph(63)]);
    assert("≀"@ =~= seq![sheet_glyph(64)]);
    assert("≁"@ =~= seq![sheet_glyph(65)]);
    assert("≂"@ =~= seq![sheet_glyph(66)]);
    assert("≃"@ =~= seq![sheet_glyph(67)]);
    assert("≄"@ =~= seq![sheet_glyph(68)]);
    assert("≅"@ =~= seq![sheet_glyph(69)]);
    assert("≆"@ =~= seq![sheet_glyph(70)]);
    assert("≇"@ =~= seq![sheet_glyph(71)]);
    assert("≈"@ =~= seq![sheet_glyph(72)]);
    assert("≉"@ =~= seq![sheet_glyph(73)]);
    assert("≊"@ =~= seq![sheet_glyph(74)]);
    assert("≋"@ =~= seq![sheet_glyph(75)]);
    assert("≌"@ =~= seq![sheet_glyph(76)]);
    assert("≍"@ =~= seq![sheet_glyph(77)]);
    assert("≎"@ =~= seq![sheet_glyph(78)]);
    assert("≏"@ =~= seq![sheet_glyph(79)]);
    assert("≐"@ =~= seq![sheet_glyph(80)]);
    assert("≑"@ =~= seq![sheet_glyph(81)]);
    assert("≒"@ =~= seq![sheet_glyph(82)]);
    assert("≓"@ =~= seq![sheet_glyph(83)]);
    assert("≔"@ =~= seq![sheet_glyph(84)]);
    assert("≕"@ =~= seq![sheet_glyph(85)]);
    assert("≖"@ =~= seq![sheet_glyph(86)]);
    assert("≗"@ =~= seq![sheet_glyph(87)]);
    assert("≘"@ =~= seq![sheet_glyph(88)]);
    assert("≙"@ =~= seq![sheet_glyph(89)]);
    assert("≚"@ =~= seq![sheet_glyph(90)]);
    assert("≛"@ =~= seq![sheet_glyph(91)]);
    assert("≜"@ =~= seq![sheet_glyph(92)]);
    assert("≝"@ =~= seq![sheet_glyph(93)]);
    assert("≞"@ =~= seq![sheet_glyph(94)]);
    assert("≟"@ =~= seq![sheet_glyph(95)]);
    assert("≠"@ =~= seq![sheet_glyph(96)]);
    assert("≡"@ =~= seq![sheet_glyph(97)]);
    assert("≢"@ =~= seq![sheet_glyph(98)]);
    assert("≣"@ =~= seq![sheet_glyph(99)]);
    assert("≤"@ =~= seq![sheet_glyph(100)]);
    assert("≥"@ =~= seq![sheet_glyph(101)]);
    assert("≦"@ =~= seq![sheet_glyph(102)]);
    assert("≧"@ =~= seq![sheet_glyph(103)]);
    assert("≨"@ =~= seq![sheet_glyph(104)]);
    assert("≩"@ =~= seq![sheet_glyph(105)]);
    assert("≪"@ =~= seq![sheet_glyph(106)]);
    assert("≫"@ =~= seq![sheet_glyph(107)]);
    assert("≬"@ =~= seq![sheet_glyph(108)]);
    assert("≭"@ =~= seq![sheet_glyph(109)]);
    assert("≮"@ =~= seq![sheet_glyph(110)]);
    assert("≯"@ =~= seq![sheet_glyph(111)]);
    assert("≰"@ =~= seq![sheet_glyph(112)]);
    assert("≱"@ =~= seq![sheet_glyph(113)]);
    assert("≲"@ =~= seq![sheet_glyph(114)]);
    assert("≳"@ =~= seq![sheet_glyph(115)]);
    assert("≴"@ =~= seq![sheet_glyph(116)]);
    assert("≵"@ =~= seq![sheet_glyph(117)]);
    assert("≶"@ =~= seq![sheet_glyph(118)]);
    assert("≷"@ =~= seq![sheet_glyph(119)]);
    assert("≸"@ =~= seq![sheet_glyph(120)]);
    assert("≹"@ =~= seq![sheet_glyph(121)]);
    assert("≺"@ =~= seq![sheet_glyph(122)]);
    assert("≻"@ =~= seq![sheet_glyph(123)]);
    assert("≼"@ =~= seq![sheet_glyph(124)]);
    assert("≽"@ =~= seq![sheet_glyph(125)]);
    assert("≾"@ =~= seq![sheet_glyph(126)]);
    assert("≿"@ =~= seq![sheet_glyph(127)]);
    assert("⊀"@ =~= seq![sheet_glyph(128)]);
    assert("⊁"@ =~= seq![sheet_glyph(129)]);
    assert("⊂"@ =~= seq![sheet_glyph(130)]);
    assert("⊃"@ =~= seq![sheet_glyph(131)]);
    assert("⊄"@ =~= seq![sheet_glyph(132)]);
    assert("⊅"@ =~= seq![sheet_glyph(133)]);
    assert("⊆"@ =~= seq![sheet_glyph(134)]);
    assert("⊇"@ =~= seq![sheet_glyph(135)]);
    assert("⊈"@ =~= seq![sheet_glyph(136)]);
    assert("⊉"@ =~= seq![sheet_glyph(137)]);
    assert("⊊"@ =~= seq![sheet_glyph(138)]);
    assert("⊋"@ =~= seq![sheet_glyph(139)]);
    assert("⊌"@ =~= seq![sheet_glyph(140)]);
    assert("⊍"@ =~= seq![sheet_glyph(141)]);
    assert("⊎"@ =~= seq![sheet_glyph(142)]);
    assert("⊏"@ =~= seq![sheet_glyph(143)]);
    assert("⊐"@ =~= seq![sheet_glyph(144)]);
    assert("⊑"@ =~= seq![sheet_glyph(145)]);
    assert("⊒"@ =~= seq![sheet_glyph(146)]);
    assert("⊓"@ =~= seq![sheet_glyph(147)]);
    assert("⊔"@ =~= seq![sheet_glyph(148)]);
    assert("⊕"@ =~= seq![sheet_glyph(149)]);
    assert("⊖"@ =~= seq![sheet_glyph(150)]);
    assert("⊗"@ =~= seq![sheet_glyph(151)]);
    assert("⊘"@ =~= seq![sheet_glyph(152)]);
    assert("⊙"@ =~= seq![sheet_glyph(153)]);
    assert("⊚"@ =~= seq![sheet_glyph(154)]);
    assert("⊛"@ =~= seq![sheet_glyph(155)]);
    assert("⊜"@ =~= seq![sheet_glyph(156)]);
    assert("⊝"@ =~= seq![sheet_glyph(157)]);
    assert("⊞"@ =~= seq![sheet_glyph(158)]);
    assert("⊟"@ =~= seq![sheet_glyph(159)]);
    assert("⊠"@ =~= seq![sheet_glyph(160)]);
    assert("⊡"@ =~= seq![sheet_glyph(161)]);
    assert("⊢"@ =~= seq![sheet_glyph(162)]);
    assert("⊣"@ =~= seq![sheet_glyph(163)]);
    assert("⊤"@ =~= seq![sheet_glyph(164)]);
    assert("⊥"@ =~= seq![sheet_glyph(165)]);
    assert("⊦"@ =~= seq![sheet_glyph(166)]);
    assert("⊧"@ =~= seq![sheet_glyph(167)]);
    assert("⊨"@ =~= seq![sheet_glyph(168)]);
    assert("⊩"@ =~= seq![sheet_glyph(169)]);
    assert("⊪"@ =~= seq![sheet_glyph(170)]);
    assert("⊫"@ =~= seq![sheet_glyph(171)]);
    assert("⊬"@ =~= seq![sheet_glyph(172)]);
    assert("⊭"@ =~= seq![sheet_glyph(173)]);
    assert("⊮"@ =~= seq![sheet_glyph(174)]);
    assert("⊯"@ =~= seq![sheet_glyph(175)]);
    assert("⊰"@ =~= seq![sheet_glyph(176)]);
    assert("⊱"@ =~= seq![sheet_glyph(177)]);
    assert("⊲"@ =~= seq![sheet_glyph(178)]);
    assert("⊳"@ =~= seq![sheet_glyph(179)]);
    assert("⊴"@ =~= seq![sheet_glyph(180)]);
    assert("⊵"@ =~= seq![sheet_glyph(181)]);
    assert("⊶"@ =~= seq![sheet_glyph(182)]);
    assert("⊷"@ =~= seq![sheet_glyph(183)]);
    assert("⊸"@ =~= seq![sheet_glyph(184)]);
    assert("⊹"@ =~= seq![sheet_glyph(185)]);
    assert("⊺"@ =~= seq![sheet_glyph(186)]);
    assert("⊻"@ =~= seq![sheet_glyph(187)]);
    assert("⊼"@ =~= seq![sheet_glyph(188)]);
    assert("⊽"@ =~= seq![sheet_glyph(189)]);
    assert("⊾"@ =~= seq![sheet_glyph(190)]);
    assert("⊿"@ =~= seq![sheet_glyph(191)]);
    assert("⋀"@ =~= seq![sheet_glyph(192)]);
    assert("⋁"@ =~= seq![sheet_glyph(193)]);
    assert("⋂"@ =~= seq![sheet_glyph(194)]);
    assert("⋃"@ =~= seq![sheet_glyph(195)]);
    assert("⋄"@ =~= seq![sheet_glyph(196)]);
    assert("⋅"@ =~= seq![sheet_glyph(197)]);
    assert("⋆"@ =~= seq![sheet_glyph(198)]);
    assert("⋇"@ =~= seq![sheet_glyph(199)]);
    assert("⋈"@ =~= seq![sheet_glyph(200)]);
    assert("⋉"@ =~= seq![sheet_glyph(201)]);
    assert("⋊"@ =~= seq![sheet_glyph(202)]);
    assert("⋋"@ =~= seq![sheet_glyph(203)]);
    assert("⋌"@ =~= seq![sheet_glyph(204)]);
    assert("⋍"@ =~= seq![sheet_glyph(205)]);
    assert("⋎"@ =~= seq![sheet_glyph(206)]);
    assert("⋏"@ =~= seq![sheet_glyph(207)]);
    assert("⋐"@ =~= seq![sheet_glyph(208)]);
    assert("⋑"@ =~= seq![sheet_glyph(209)]);
    assert("⋒"@ =~= seq![sheet_glyph(210)]);
    assert("⋓"@ =~= seq![sheet_glyph(211)]);
    assert("⋔"@ =~= seq![sheet_glyph(212)]);
    assert("⋕"@ =~= seq![sheet_glyph(213)]);
    assert("⋖"@ =~= seq![sheet_glyph(214)]);
    assert("⋗"@ =~= seq![sheet_glyph(215)]);
    assert("⋘"@ =~= seq![sheet_glyph(216)]);
    assert("⋙"@ =~= seq![sheet_glyph(217)]);
    assert("⋚"@ =~= seq![sheet_glyph(218)]);
    assert("⋛"@ =~= seq![sheet_glyph(219)]);
    assert("⋜"@ =~= seq![sheet_glyph(220)]);
    assert("⋝"@ =~= seq![sheet_glyph(221)]);
    assert("⋞"@ =~= seq![sheet_glyph(222)]);
    assert("⋟"@ =~= seq![sheet_glyph(223)]);
    assert("⋠"@ =~= seq![sheet_glyph(224)]);
    assert("⋡"@ =~= seq![sheet_glyph(225)]);
    assert("⋢"@ =~= seq![sheet_glyph(226)]);
    assert("⋣"@ =~= seq![sheet_glyph(227)]);
    assert("⋤"@ =~= seq![sheet_glyph(228)]);
    assert("⋥"@ =~= seq![sheet_glyph(229)]);
    assert("⋦"@ =~= seq![sheet_glyph(230)]);
    assert("⋧"@ =~= seq![sheet_glyph(231)]);
    assert("⋨"@ =~= seq![sheet_glyph(232)]);
    assert("⋩"@ =~= seq![sheet_glyph(233)]);
    assert("⋪"@ =~= seq![sheet_glyph(234)]);
    assert("⋫"@ =~= seq![sheet_glyph(235)]);
    assert("⋬"@ =~= seq![sheet_glyph(236)]);
    assert("⋭"@ =~= seq![sheet_glyph(237)]);
    assert("⋮"@ =~= seq![sheet_glyph(238)]);
    assert("⋯"@ =~= seq![sheet_glyph(239)]);
    assert("⋰"@ =~= seq![sheet_glyph(240)]);
    assert("⋱"@ =~= seq![sheet_glyph(241)]);
    assert("⋲"@ =~= seq![sheet_glyph(242)]);
    assert("⋳"@ =~= seq![sheet_glyph(243)]);
    assert("⋴"@ =~= seq![sheet_glyph(244)]);
    assert("⋵"@ =~= seq![sheet_glyph(245)]);
    assert("⋶"@ =~= seq![sheet_glyph(246)]);
    assert("⋷"@ =~= seq![sheet_glyph(247)]);
    assert("⋸"@ =~= seq![sheet_glyph(248)]);
    assert("⋹"@ =~= seq![sheet_glyph(249)]);
    assert("⋺"@ =~= seq![sheet_glyph(250)]);
    assert("⋻"@ =~= seq![sheet_glyph(251)]);
    assert("⋼"@ =~= seq![sheet_glyph(252)]);
    assert("⋽"@ =~= seq![sheet_glyph(253)]);
    assert("⋾"@ =~= seq![sheet_glyph(254)]);
    assert("⋿"@ =~= seq![sheet_glyph(255)]);
}

} // verus!

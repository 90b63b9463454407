use vstd::prelude::*;

use crate::HANGEUL_OFFSET;
use crate::is_syllable;
use crate::spec_is_syllable;

verus! {

/// Common interface of the three positional jamo families. Each variant has
/// a conjoined-jamo code point (`to_u32`) and a contribution to the
/// mixed-radix index of a composed syllable (`composable_u32`).
pub trait Syllable {
    /// The contribution of this jamo to the mixed-radix syllable index:
    /// `588 * index` for a lead, `28 * index` for a vowel, and the bare
    /// tail slot `index` for a tail.
    spec fn spec_composable_u32(&self) -> u32;

    /// The conjoined-jamo code point of this jamo.
    spec fn spec_to_u32(&self) -> u32;

    fn composable_u32(&self) -> (r: u32)
        ensures
            r == self.spec_composable_u32(),
    ;

    fn to_u32(&self) -> (r: u32)
        ensures
            r == self.spec_to_u32(),
    ;
}

/// Choseong, the initial sound: the lead consonant of a syllable.
/// The nineteen variants stand in composition-index order.
#[derive(Debug, PartialEq, Eq, Structural, Clone, Copy)]
pub enum Choseong {
    Giyeok,
    SsangGiyeok,
    Nieun,
    Digeut,
    SsangDigeut,
    Rieul,
    Mieum,
    Bieup,
    SsangBieup,
    Siot,
    SsangSiot,
    Ieung,
    Jieut,
    SsangJieut,
    Chieut,
    Kiyeok,
    Tieut,
    Pieup,
    Hieuh,
}

impl Choseong {
    /// The composition index of this lead, `0..=18`.
    pub open spec fn spec_index(self) -> int {
        match self {
            Choseong::Giyeok => 0,
            Choseong::SsangGiyeok => 1,
            Choseong::Nieun => 2,
            Choseong::Digeut => 3,
            Choseong::SsangDigeut => 4,
            Choseong::Rieul => 5,
            Choseong::Mieum => 6,
            Choseong::Bieup => 7,
            Choseong::SsangBieup => 8,
            Choseong::Siot => 9,
            Choseong::SsangSiot => 10,
            Choseong::Ieung => 11,
            Choseong::Jieut => 12,
            Choseong::SsangJieut => 13,
            Choseong::Chieut => 14,
            Choseong::Kiyeok => 15,
            Choseong::Tieut => 16,
            Choseong::Pieup => 17,
            Choseong::Hieuh => 18,
        }
    }

    /// The conjoined-jamo code point: the block `0x1100..=0x1112` is
    /// contiguous in composition-index order.
    pub open spec fn spec_jamo_u32(self) -> u32 {
        (0x1100 + self.spec_index()) as u32
    }

    /// The compatibility-jamo code point. The nineteen values lie in
    /// `0x3131..=0x314E` but are not contiguous: the block interleaves
    /// consonants that are not valid leads.
    pub open spec fn spec_compat_u32(self) -> u32 {
        match self {
            Choseong::Giyeok => 0x3131,
            Choseong::SsangGiyeok => 0x3132,
            Choseong::Nieun => 0x3134,
            Choseong::Digeut => 0x3137,
            Choseong::SsangDigeut => 0x3138,
            Choseong::Rieul => 0x3139,
            Choseong::Mieum => 0x3141,
            Choseong::Bieup => 0x3142,
            Choseong::SsangBieup => 0x3143,
            Choseong::Siot => 0x3145,
            Choseong::SsangSiot => 0x3146,
            Choseong::Ieung => 0x3147,
            Choseong::Jieut => 0x3148,
            Choseong::SsangJieut => 0x3149,
            Choseong::Chieut => 0x314A,
            Choseong::Kiyeok => 0x314B,
            Choseong::Tieut => 0x314C,
            Choseong::Pieup => 0x314D,
            Choseong::Hieuh => 0x314E,
        }
    }

    /// The compatibility-jamo character of this lead.
    pub open spec fn spec_char(self) -> char {
        self.spec_compat_u32() as char
    }
}

/// Every lead's composition index lies in `0..=18`.
pub proof fn lemma_lead_index_bounds(choseong: Choseong)
    ensures
        0 <= choseong.spec_index() <= 18,
{
}

/// The lead with the given composition index; total, with indices outside
/// `0..=18` falling through to the last variant.
pub open spec fn spec_lead_from_index(i: int) -> Choseong {
    if i == 0 {
        Choseong::Giyeok
    } else if i == 1 {
        Choseong::SsangGiyeok
    } else if i == 2 {
        Choseong::Nieun
    } else if i == 3 {
        Choseong::Digeut
    } else if i == 4 {
        Choseong::SsangDigeut
    } else if i == 5 {
        Choseong::Rieul
    } else if i == 6 {
        Choseong::Mieum
    } else if i == 7 {
        Choseong::Bieup
    } else if i == 8 {
        Choseong::SsangBieup
    } else if i == 9 {
        Choseong::Siot
    } else if i == 10 {
        Choseong::SsangSiot
    } else if i == 11 {
        Choseong::Ieung
    } else if i == 12 {
        Choseong::Jieut
    } else if i == 13 {
        Choseong::SsangJieut
    } else if i == 14 {
        Choseong::Chieut
    } else if i == 15 {
        Choseong::Kiyeok
    } else if i == 16 {
        Choseong::Tieut
    } else if i == 17 {
        Choseong::Pieup
    } else {
        Choseong::Hieuh
    }
}

/// The lead denoted by a compatibility-jamo code point. The mapping is
/// irregular: compatibility consonants that are not valid leads (such as
/// the compound 0x3133) have no entry.
pub open spec fn spec_lead_from_compat(code: u32) -> Option<Choseong> {
    if code == 0x3131 {
        Some(Choseong::Giyeok)
    } else if code == 0x3132 {
        Some(Choseong::SsangGiyeok)
    } else if code == 0x3134 {
        Some(Choseong::Nieun)
    } else if code == 0x3137 {
        Some(Choseong::Digeut)
    } else if code == 0x3138 {
        Some(Choseong::SsangDigeut)
    } else if code == 0x3139 {
        Some(Choseong::Rieul)
    } else if code == 0x3141 {
        Some(Choseong::Mieum)
    } else if code == 0x3142 {
        Some(Choseong::Bieup)
    } else if code == 0x3143 {
        Some(Choseong::SsangBieup)
    } else if code == 0x3145 {
        Some(Choseong::Siot)
    } else if code == 0x3146 {
        Some(Choseong::SsangSiot)
    } else if code == 0x3147 {
        Some(Choseong::Ieung)
    } else if code == 0x3148 {
        Some(Choseong::Jieut)
    } else if code == 0x3149 {
        Some(Choseong::SsangJieut)
    } else if code == 0x314A {
        Some(Choseong::Chieut)
    } else if code == 0x314B {
        Some(Choseong::Kiyeok)
    } else if code == 0x314C {
        Some(Choseong::Tieut)
    } else if code == 0x314D {
        Some(Choseong::Pieup)
    } else if code == 0x314E {
        Some(Choseong::Hieuh)
    } else {
        None
    }
}

/// The lead denoted by a jamo code point of either block: the contiguous
/// conjoined-jamo range, or the irregular compatibility table.
pub open spec fn spec_lead_from_jamo(code: u32) -> Option<Choseong> {
    if 0x1100 <= code <= 0x1112 {
        Some(spec_lead_from_index(code - 0x1100))
    } else {
        spec_lead_from_compat(code)
    }
}

/// Lead classification of an arbitrary code point: a composed syllable
/// yields its lead digit, any other code point is looked up as a jamo.
pub open spec fn spec_classify_lead(code: u32) -> Option<Choseong> {
    if spec_is_syllable(code) {
        Some(spec_lead_from_index((code - HANGEUL_OFFSET) / 588))
    } else {
        spec_lead_from_jamo(code)
    }
}

impl Choseong {
    pub fn from_char(c: &char) -> (r: Option<Choseong>)
        ensures
            r == spec_classify_lead(*c as u32),
    {
        Choseong::from_u32(*c as u32)
    }

    pub fn from_u32(code: u32) -> (r: Option<Choseong>)
        ensures
            r == spec_classify_lead(code),
    {
        if is_syllable(code) {
            Choseong::from_syllable(code)
        } else {
            Choseong::from_jamo(code)
        }
    }

    /// The lead digit of a composed syllable: the highest digit of the
    /// mixed-radix index, radix 588 = 21 * 28.
    pub fn from_syllable(code: u32) -> (r: Option<Choseong>)
        requires
            spec_is_syllable(code),
        ensures
            r == Some(spec_lead_from_index((code - HANGEUL_OFFSET) / 588)),
    {
        proof {
            vstd::arithmetic::div_mod::lemma_div_pos_is_pos((code - HANGEUL_OFFSET) as int, 588);
            vstd::arithmetic::div_mod::lemma_div_is_ordered(
                (code - HANGEUL_OFFSET) as int,
                11171,
                588,
            );
        }
        let value: u32 = 1 + (code - HANGEUL_OFFSET) / 588;

        match value {
            1 => Some(Choseong::Giyeok),
            2 => Some(Choseong::SsangGiyeok),
            3 => Some(Choseong::Nieun),
            4 => Some(Choseong::Digeut),
            5 => Some(Choseong::SsangDigeut),
            6 => Some(Choseong::Rieul),
            7 => Some(Choseong::Mieum),
            8 => Some(Choseong::Bieup),
            9 => Some(Choseong::SsangBieup),
            10 => Some(Choseong::Siot),
            11 => Some(Choseong::SsangSiot),
            12 => Some(Choseong::Ieung),
            13 => Some(Choseong::Jieut),
            14 => Some(Choseong::SsangJieut),
            15 => Some(Choseong::Chieut),
            16 => Some(Choseong::Kiyeok),
            17 => Some(Choseong::Tieut),
            18 => Some(Choseong::Pieup),
            19 => Some(Choseong::Hieuh),
            _ => None,
        }
    }

    /// Direct lookup of a lead jamo code point in either jamo block.
    pub fn from_jamo(code: u32) -> (r: Option<Choseong>)
        ensures
            r == spec_lead_from_jamo(code),
    {
        match code {
            0x1100 | 0x3131 => Some(Choseong::Giyeok),
            0x1101 | 0x3132 => Some(Choseong::SsangGiyeok),
            0x1102 | 0x3134 => Some(Choseong::Nieun),
            0x1103 | 0x3137 => Some(Choseong::Digeut),
            0x1104 | 0x3138 => Some(Choseong::SsangDigeut),
            0x1105 | 0x3139 => Some(Choseong::Rieul),
            0x1106 | 0x3141 => Some(Choseong::Mieum),
            0x1107 | 0x3142 => Some(Choseong::Bieup),
            0x1108 | 0x3143 => Some(Choseong::SsangBieup),
            0x1109 | 0x3145 => Some(Choseong::Siot),
            0x110A | 0x3146 => Some(Choseong::SsangSiot),
            0x110B | 0x3147 => Some(Choseong::Ieung),
            0x110C | 0x3148 => Some(Choseong::Jieut),
            0x110D | 0x3149 => Some(Choseong::SsangJieut),
            0x110E | 0x314A => Some(Choseong::Chieut),
            0x110F | 0x314B => Some(Choseong::Kiyeok),
            0x1110 | 0x314C => Some(Choseong::Tieut),
            0x1111 | 0x314D => Some(Choseong::Pieup),
            0x1112 | 0x314E => Some(Choseong::Hieuh),
            _ => None,
        }
    }

    /// The compatibility-jamo character of this lead.
    pub fn to_char(&self) -> (r: char)
        ensures
            r == self.spec_char(),
    {
        match *self {
            Choseong::Giyeok => 'ㄱ',
            Choseong::SsangGiyeok => 'ㄲ',
            Choseong::Nieun => 'ㄴ',
            Choseong::Digeut => 'ㄷ',
            Choseong::SsangDigeut => 'ㄸ',
            Choseong::Rieul => 'ㄹ',
            Choseong::Mieum => 'ㅁ',
            Choseong::Bieup => 'ㅂ',
            Choseong::SsangBieup => 'ㅃ',
            Choseong::Siot => 'ㅅ',
            Choseong::SsangSiot => 'ㅆ',
            Choseong::Ieung => 'ㅇ',
            Choseong::Jieut => 'ㅈ',
            Choseong::SsangJieut => 'ㅉ',
            Choseong::Chieut => 'ㅊ',
            Choseong::Kiyeok => 'ㅋ',
            Choseong::Tieut => 'ㅌ',
            Choseong::Pieup => 'ㅍ',
            Choseong::Hieuh => 'ㅎ',
        }
    }
}

impl Syllable for Choseong {
    open spec fn spec_composable_u32(&self) -> u32 {
        (588 * self.spec_index()) as u32
    }

    open spec fn spec_to_u32(&self) -> u32 {
        self.spec_jamo_u32()
    }

    fn to_u32(&self) -> (r: u32) {
        match *self {
            Choseong::Giyeok => 0x1100,
            Choseong::SsangGiyeok => 0x1101,
            Choseong::Nieun => 0x1102,
            Choseong::Digeut => 0x1103,
            Choseong::SsangDigeut => 0x1104,
            Choseong::Rieul => 0x1105,
            Choseong::Mieum => 0x1106,
            Choseong::Bieup => 0x1107,
            Choseong::SsangBieup => 0x1108,
            Choseong::Siot => 0x1109,
            Choseong::SsangSiot => 0x110A,
            Choseong::Ieung => 0x110B,
            Choseong::Jieut => 0x110C,
            Choseong::SsangJieut => 0x110D,
            Choseong::Chieut => 0x110E,
            Choseong::Kiyeok => 0x110F,
            Choseong::Tieut => 0x1110,
            Choseong::Pieup => 0x1111,
            Choseong::Hieuh => 0x1112,
        }
    }

    fn composable_u32(&self) -> (r: u32) {
        let value: u32 = match *self {
            Choseong::Giyeok => 0,
            Choseong::SsangGiyeok => 1,
            Choseong::Nieun => 2,
            Choseong::Digeut => 3,
            Choseong::SsangDigeut => 4,
            Choseong::Rieul => 5,
            Choseong::Mieum => 6,
            Choseong::Bieup => 7,
            Choseong::SsangBieup => 8,
            Choseong::Siot => 9,
            Choseong::SsangSiot => 10,
            Choseong::Ieung => 11,
            Choseong::Jieut => 12,
            Choseong::SsangJieut => 13,
            Choseong::Chieut => 14,
            Choseong::Kiyeok => 15,
            Choseong::Tieut => 16,
            Choseong::Pieup => 17,
            Choseong::Hieuh => 18,
        };

        value * 588
    }
}

/// Jungseong, the middle sound: the medial vowel of a syllable.
/// The twenty-one variants stand in composition-index order.
#[derive(Debug, PartialEq, Eq, Structural, Clone, Copy)]
pub enum Jungseong {
    A,
    AE,
    YA,
    YAE,
    EO,
    E,
    YEO,
    YE,
    O,
    WA,
    WAE,
    OE,
    YO,
    U,
    WEO,
    WE,
    WI,
    YU,
    EU,
    YI,
    I,
}

impl Jungseong {
    /// The composition index of this vowel, `0..=20`.
    pub open spec fn spec_index(self) -> int {
        match self {
            Jungseong::A => 0,
            Jungseong::AE => 1,
            Jungseong::YA => 2,
            Jungseong::YAE => 3,
            Jungseong::EO => 4,
            Jungseong::E => 5,
            Jungseong::YEO => 6,
            Jungseong::YE => 7,
            Jungseong::O => 8,
            Jungseong::WA => 9,
            Jungseong::WAE => 10,
            Jungseong::OE => 11,
            Jungseong::YO => 12,
            Jungseong::U => 13,
            Jungseong::WEO => 14,
            Jungseong::WE => 15,
            Jungseong::WI => 16,
            Jungseong::YU => 17,
            Jungseong::EU => 18,
            Jungseong::YI => 19,
            Jungseong::I => 20,
        }
    }

    /// The conjoined-jamo code point: the block `0x1161..=0x1175` is
    /// contiguous in composition-index order.
    pub open spec fn spec_jamo_u32(self) -> u32 {
        (0x1161 + self.spec_index()) as u32
    }

    /// The compatibility-jamo code point: vowels, unlike consonants, are
    /// contiguous and index-aligned in `0x314F..=0x3163`.
    pub open spec fn spec_compat_u32(self) -> u32 {
        (0x314F + self.spec_index()) as u32
    }

    /// The compatibility-jamo character of this vowel.
    pub open spec fn spec_char(self) -> char {
        self.spec_compat_u32() as char
    }
}

/// Every vowel's composition index lies in `0..=20`.
pub proof fn lemma_vowel_index_bounds(jungseong: Jungseong)
    ensures
        0 <= jungseong.spec_index() <= 20,
{
}

/// The vowel with the given composition index; total, with indices outside
/// `0..=20` falling through to the last variant.
pub open spec fn spec_vowel_from_index(i: int) -> Jungseong {
    if i == 0 {
        Jungseong::A
    } else if i == 1 {
        Jungseong::AE
    } else if i == 2 {
        Jungseong::YA
    } else if i == 3 {
        Jungseong::YAE
    } else if i == 4 {
        Jungseong::EO
    } else if i == 5 {
        Jungseong::E
    } else if i == 6 {
        Jungseong::YEO
    } else if i == 7 {
        Jungseong::YE
    } else if i == 8 {
        Jungseong::O
    } else if i == 9 {
        Jungseong::WA
    } else if i == 10 {
        Jungseong::WAE
    } else if i == 11 {
        Jungseong::OE
    } else if i == 12 {
        Jungseong::YO
    } else if i == 13 {
        Jungseong::U
    } else if i == 14 {
        Jungseong::WEO
    } else if i == 15 {
        Jungseong::WE
    } else if i == 16 {
        Jungseong::WI
    } else if i == 17 {
        Jungseong::YU
    } else if i == 18 {
        Jungseong::EU
    } else if i == 19 {
        Jungseong::YI
    } else {
        Jungseong::I
    }
}

/// The vowel denoted by a jamo code point of either block; both vowel
/// ranges are contiguous and index-aligned.
pub open spec fn spec_vowel_from_jamo(code: u32) -> Option<Jungseong> {
    if 0x1161 <= code <= 0x1175 {
        Some(spec_vowel_from_index(code - 0x1161))
    } else if 0x314F <= code <= 0x3163 {
        Some(spec_vowel_from_index(code - 0x314F))
    } else {
        None
    }
}

/// Vowel classification of an arbitrary code point: a composed syllable
/// yields its vowel digit, any other code point is looked up as a jamo.
pub open spec fn spec_classify_vowel(code: u32) -> Option<Jungseong> {
    if spec_is_syllable(code) {
        Some(spec_vowel_from_index(((code - HANGEUL_OFFSET) / 28) % 21))
    } else {
        spec_vowel_from_jamo(code)
    }
}

impl Jungseong {
    pub fn from_char(c: &char) -> (r: Option<Jungseong>)
        ensures
            r == spec_classify_vowel(*c as u32),
    {
        Jungseong::from_u32(*c as u32)
    }

    pub fn from_u32(code: u32) -> (r: Option<Jungseong>)
        ensures
            r == spec_classify_vowel(code),
    {
        if is_syllable(code) {
            Jungseong::from_syllable(code)
        } else {
            Jungseong::from_jamo(code)
        }
    }

    /// The vowel digit of a composed syllable: the middle digit of the
    /// mixed-radix index, radix 28, modulus 21.
    pub fn from_syllable(code: u32) -> (r: Option<Jungseong>)
        requires
            spec_is_syllable(code),
        ensures
            r == Some(spec_vowel_from_index(((code - HANGEUL_OFFSET) / 28) % 21)),
    {
        proof {
            vstd::arithmetic::div_mod::lemma_div_pos_is_pos((code - HANGEUL_OFFSET) as int, 28);
            vstd::arithmetic::div_mod::lemma_div_is_ordered(
                (code - HANGEUL_OFFSET) as int,
                11171,
                28,
            );
            vstd::arithmetic::div_mod::lemma_mod_division_less_than_divisor(
                ((code - HANGEUL_OFFSET) / 28) as int,
                21,
            );
        }
        let value: u32 = 1 + ((code - HANGEUL_OFFSET) / 28) % 21;

        match value {
            1 => Some(Jungseong::A),
            2 => Some(Jungseong::AE),
            3 => Some(Jungseong::YA),
            4 => Some(Jungseong::YAE),
            5 => Some(Jungseong::EO),
            6 => Some(Jungseong::E),
            7 => Some(Jungseong::YEO),
            8 => Some(Jungseong::YE),
            9 => Some(Jungseong::O),
            10 => Some(Jungseong::WA),
            11 => Some(Jungseong::WAE),
            12 => Some(Jungseong::OE),
            13 => Some(Jungseong::YO),
            14 => Some(Jungseong::U),
            15 => Some(Jungseong::WEO),
            16 => Some(Jungseong::WE),
            17 => Some(Jungseong::WI),
            18 => Some(Jungseong::YU),
            19 => Some(Jungseong::EU),
            20 => Some(Jungseong::YI),
            21 => Some(Jungseong::I),
            _ => None,
        }
    }

    /// Direct lookup of a vowel jamo code point in either jamo block.
    pub fn from_jamo(code: u32) -> (r: Option<Jungseong>)
        ensures
            r == spec_vowel_from_jamo(code),
    {
        match code {
            0x1161 | 0x314F => Some(Jungseong::A),
            0x1162 | 0x3150 => Some(Jungseong::AE),
            0x1163 | 0x3151 => Some(Jungseong::YA),
            0x1164 | 0x3152 => Some(Jungseong::YAE),
            0x1165 | 0x3153 => Some(Jungseong::EO),
            0x1166 | 0x3154 => Some(Jungseong::E),
            0x1167 | 0x3155 => Some(Jungseong::YEO),
            0x1168 | 0x3156 => Some(Jungseong::YE),
            0x1169 | 0x3157 => Some(Jungseong::O),
            0x116A | 0x3158 => Some(Jungseong::WA),
            0x116B | 0x3159 => Some(Jungseong::WAE),
            0x116C | 0x315A => Some(Jungseong::OE),
            0x116D | 0x315B => Some(Jungseong::YO),
            0x116E | 0x315C => Some(Jungseong::U),
            0x116F | 0x315D => Some(Jungseong::WEO),
            0x1170 | 0x315E => Some(Jungseong::WE),
            0x1171 | 0x315F => Some(Jungseong::WI),
            0x1172 | 0x3160 => Some(Jungseong::YU),
            0x1173 | 0x3161 => Some(Jungseong::EU),
            0x1174 | 0x3162 => Some(Jungseong::YI),
            0x1175 | 0x3163 => Some(Jungseong::I),
            _ => None,
        }
    }

    /// The compatibility-jamo character of this vowel.
    pub fn to_char(&self) -> (r: char)
        ensures
            r == self.spec_char(),
    {
        match *self {
            Jungseong::A => 'ㅏ',
            Jungseong::AE => 'ㅐ',
            Jungseong::YA => 'ㅑ',
            Jungseong::YAE => 'ㅒ',
            Jungseong::EO => 'ㅓ',
            Jungseong::E => 'ㅔ',
            Jungseong::YEO => 'ㅕ',
            Jungseong::YE => 'ㅖ',
            Jungseong::O => 'ㅗ',
            Jungseong::WA => 'ㅘ',
            Jungseong::WAE => 'ㅙ',
            Jungseong::OE => 'ㅚ',
            Jungseong::YO => 'ㅛ',
            Jungseong::U => 'ㅜ',
            Jungseong::WEO => 'ㅝ',
            Jungseong::WE => 'ㅞ',
            Jungseong::WI => 'ㅟ',
            Jungseong::YU => 'ㅠ',
            Jungseong::EU => 'ㅡ',
            Jungseong::YI => 'ㅢ',
            Jungseong::I => 'ㅣ',
        }
    }
}

impl Syllable for Jungseong {
    open spec fn spec_composable_u32(&self) -> u32 {
        (28 * self.spec_index()) as u32
    }

    open spec fn spec_to_u32(&self) -> u32 {
        self.spec_jamo_u32()
    }

    fn to_u32(&self) -> (r: u32) {
        match *self {
            Jungseong::A => 0x1161,
            Jungseong::AE => 0x1162,
            Jungseong::YA => 0x1163,
            Jungseong::YAE => 0x1164,
            Jungseong::EO => 0x1165,
            Jungseong::E => 0x1166,
            Jungseong::YEO => 0x1167,
            Jungseong::YE => 0x1168,
            Jungseong::O => 0x1169,
            Jungseong::WA => 0x116A,
            Jungseong::WAE => 0x116B,
            Jungseong::OE => 0x116C,
            Jungseong::YO => 0x116D,
            Jungseong::U => 0x116E,
            Jungseong::WEO => 0x116F,
            Jungseong::WE => 0x1170,
            Jungseong::WI => 0x1171,
            Jungseong::YU => 0x1172,
            Jungseong::EU => 0x1173,
            Jungseong::YI => 0x1174,
            Jungseong::I => 0x1175,
        }
    }

    fn composable_u32(&self) -> (r: u32) {
        let value: u32 = match *self {
            Jungseong::A => 0,
            Jungseong::AE => 1,
            Jungseong::YA => 2,
            Jungseong::YAE => 3,
            Jungseong::EO => 4,
            Jungseong::E => 5,
            Jungseong::YEO => 6,
            Jungseong::YE => 7,
            Jungseong::O => 8,
            Jungseong::WA => 9,
            Jungseong::WAE => 10,
            Jungseong::OE => 11,
            Jungseong::YO => 12,
            Jungseong::U => 13,
            Jungseong::WEO => 14,
            Jungseong::WE => 15,
            Jungseong::WI => 16,
            Jungseong::YU => 17,
            Jungseong::EU => 18,
            Jungseong::YI => 19,
            Jungseong::I => 20,
        };

        value * 28
    }
}

/// Jongseong, the final sound: the optional tail consonant of a syllable.
/// The twenty-seven variants stand in composition-index order; the tail
/// slot 0 of the mixed-radix encoding means "no tail" and has no variant.
#[derive(Debug, PartialEq, Eq, Structural, Clone, Copy)]
pub enum Jongseong {
    Giyeok,
    SsangGiyeok,
    GiyeokSiot,
    Nieun,
    NieunJieut,
    NieunHieuh,
    Digeut,
    Rieul,
    RieulGiyeok,
    RieulMieum,
    RieulBieup,
    RieulSiot,
    RieulTieut,
    RieulPieup,
    RieulHieuh,
    Mieum,
    Bieup,
    BieupSiot,
    Siot,
    SsangSiot,
    Ieung,
    Jieut,
    Chieut,
    Kieuk,
    Tieut,
    Pieup,
    Hieuh,
}

impl Jongseong {
    /// The composition index of this tail, `1..=27`.
    pub open spec fn spec_index(self) -> int {
        match self {
            Jongseong::Giyeok => 1,
            Jongseong::SsangGiyeok => 2,
            Jongseong::GiyeokSiot => 3,
            Jongseong::Nieun => 4,
            Jongseong::NieunJieut => 5,
            Jongseong::NieunHieuh => 6,
            Jongseong::Digeut => 7,
            Jongseong::Rieul => 8,
            Jongseong::RieulGiyeok => 9,
            Jongseong::RieulMieum => 10,
            Jongseong::RieulBieup => 11,
            Jongseong::RieulSiot => 12,
            Jongseong::RieulTieut => 13,
            Jongseong::RieulPieup => 14,
            Jongseong::RieulHieuh => 15,
            Jongseong::Mieum => 16,
            Jongseong::Bieup => 17,
            Jongseong::BieupSiot => 18,
            Jongseong::Siot => 19,
            Jongseong::SsangSiot => 20,
            Jongseong::Ieung => 21,
            Jongseong::Jieut => 22,
            Jongseong::Chieut => 23,
            Jongseong::Kieuk => 24,
            Jongseong::Tieut => 25,
            Jongseong::Pieup => 26,
            Jongseong::Hieuh => 27,
        }
    }

    /// The conjoined-jamo code point: the block `0x11A8..=0x11C2` is
    /// contiguous in composition-index order, starting at index 1.
    pub open spec fn spec_jamo_u32(self) -> u32 {
        (0x11A7 + self.spec_index()) as u32
    }

    /// The compatibility-jamo code point. The twenty-seven values lie in
    /// `0x3131..=0x314E` but are not contiguous: the doubled consonants
    /// that cannot close a syllable are skipped.
    pub open spec fn spec_compat_u32(self) -> u32 {
        match self {
            Jongseong::Giyeok => 0x3131,
            Jongseong::SsangGiyeok => 0x3132,
            Jongseong::GiyeokSiot => 0x3133,
            Jongseong::Nieun => 0x3134,
            Jongseong::NieunJieut => 0x3135,
            Jongseong::NieunHieuh => 0x3136,
            Jongseong::Digeut => 0x3137,
            Jongseong::Rieul => 0x3139,
            Jongseong::RieulGiyeok => 0x313A,
            Jongseong::RieulMieum => 0x313B,
            Jongseong::RieulBieup => 0x313C,
            Jongseong::RieulSiot => 0x313D,
            Jongseong::RieulTieut => 0x313E,
            Jongseong::RieulPieup => 0x313F,
            Jongseong::RieulHieuh => 0x3140,
            Jongseong::Mieum => 0x3141,
            Jongseong::Bieup => 0x3142,
            Jongseong::BieupSiot => 0x3144,
            Jongseong::Siot => 0x3145,
            Jongseong::SsangSiot => 0x3146,
            Jongseong::Ieung => 0x3147,
            Jongseong::Jieut => 0x3148,
            Jongseong::Chieut => 0x314A,
            Jongseong::Kieuk => 0x314B,
            Jongseong::Tieut => 0x314C,
            Jongseong::Pieup => 0x314D,
            Jongseong::Hieuh => 0x314E,
        }
    }

    /// The compatibility-jamo character of this tail.
    pub open spec fn spec_char(self) -> char {
        self.spec_compat_u32() as char
    }
}

/// Every tail's composition index lies in `1..=27`.
pub proof fn lemma_tail_index_bounds(jongseong: Jongseong)
    ensures
        1 <= jongseong.spec_index() <= 27,
{
}

/// The tail with the given composition index; total, with indices outside
/// `1..=27` falling through to the last variant.
pub open spec fn spec_tail_from_index(i: int) -> Jongseong {
    if i == 1 {
        Jongseong::Giyeok
    } else if i == 2 {
        Jongseong::SsangGiyeok
    } else if i == 3 {
        Jongseong::GiyeokSiot
    } else if i == 4 {
        Jongseong::Nieun
    } else if i == 5 {
        Jongseong::NieunJieut
    } else if i == 6 {
        Jongseong::NieunHieuh
    } else if i == 7 {
        Jongseong::Digeut
    } else if i == 8 {
        Jongseong::Rieul
    } else if i == 9 {
        Jongseong::RieulGiyeok
    } else if i == 10 {
        Jongseong::RieulMieum
    } else if i == 11 {
        Jongseong::RieulBieup
    } else if i == 12 {
        Jongseong::RieulSiot
    } else if i == 13 {
        Jongseong::RieulTieut
    } else if i == 14 {
        Jongseong::RieulPieup
    } else if i == 15 {
        Jongseong::RieulHieuh
    } else if i == 16 {
        Jongseong::Mieum
    } else if i == 17 {
        Jongseong::Bieup
    } else if i == 18 {
        Jongseong::BieupSiot
    } else if i == 19 {
        Jongseong::Siot
    } else if i == 20 {
        Jongseong::SsangSiot
    } else if i == 21 {
        Jongseong::Ieung
    } else if i == 22 {
        Jongseong::Jieut
    } else if i == 23 {
        Jongseong::Chieut
    } else if i == 24 {
        Jongseong::Kieuk
    } else if i == 25 {
        Jongseong::Tieut
    } else if i == 26 {
        Jongseong::Pieup
    } else {
        Jongseong::Hieuh
    }
}

/// The tail denoted by a compatibility-jamo code point. The mapping is
/// irregular: the doubled consonants 0x3138, 0x3143 and 0x3149, which are
/// valid leads, are no valid tails and have no entry.
pub open spec fn spec_tail_from_compat(code: u32) -> Option<Jongseong> {
    if code == 0x3131 {
        Some(Jongseong::Giyeok)
    } else if code == 0x3132 {
        Some(Jongseong::SsangGiyeok)
    } else if code == 0x3133 {
        Some(Jongseong::GiyeokSiot)
    } else if code == 0x3134 {
        Some(Jongseong::Nieun)
    } else if code == 0x3135 {
        Some(Jongseong::NieunJieut)
    } else if code == 0x3136 {
        Some(Jongseong::NieunHieuh)
    } else if code == 0x3137 {
        Some(Jongseong::Digeut)
    } else if code == 0x3139 {
        Some(Jongseong::Rieul)
    } else if code == 0x313A {
        Some(Jongseong::RieulGiyeok)
    } else if code == 0x313B {
        Some(Jongseong::RieulMieum)
    } else if code == 0x313C {
        Some(Jongseong::RieulBieup)
    } else if code == 0x313D {
        Some(Jongseong::RieulSiot)
    } else if code == 0x313E {
        Some(Jongseong::RieulTieut)
    } else if code == 0x313F {
        Some(Jongseong::RieulPieup)
    } else if code == 0x3140 {
        Some(Jongseong::RieulHieuh)
    } else if code == 0x3141 {
        Some(Jongseong::Mieum)
    } else if code == 0x3142 {
        Some(Jongseong::Bieup)
    } else if code == 0x3144 {
        Some(Jongseong::BieupSiot)
    } else if code == 0x3145 {
        Some(Jongseong::Siot)
    } else if code == 0x3146 {
        Some(Jongseong::SsangSiot)
    } else if code == 0x3147 {
        Some(Jongseong::Ieung)
    } else if code == 0x3148 {
        Some(Jongseong::Jieut)
    } else if code == 0x314A {
        Some(Jongseong::Chieut)
    } else if code == 0x314B {
        Some(Jongseong::Kieuk)
    } else if code == 0x314C {
        Some(Jongseong::Tieut)
    } else if code == 0x314D {
        Some(Jongseong::Pieup)
    } else if code == 0x314E {
        Some(Jongseong::Hieuh)
    } else {
        None
    }
}

/// The tail denoted by a jamo code point of either block: the contiguous
/// conjoined-jamo range, or the irregular compatibility table.
pub open spec fn spec_tail_from_jamo(code: u32) -> Option<Jongseong> {
    if 0x11A8 <= code <= 0x11C2 {
        Some(spec_tail_from_index(code - 0x11A7))
    } else {
        spec_tail_from_compat(code)
    }
}

/// The tail slot of a composed syllable: 0 means the syllable has no tail,
/// `1..=27` names a tail variant.
pub open spec fn spec_tail_of_syllable(code: u32) -> Option<Jongseong> {
    if (code - HANGEUL_OFFSET) % 28 == 0 {
        None
    } else {
        Some(spec_tail_from_index((code - HANGEUL_OFFSET) % 28))
    }
}

/// Tail classification of an arbitrary code point: a composed syllable
/// yields its tail digit (`None` for an open syllable), any other code
/// point is looked up as a jamo.
pub open spec fn spec_classify_tail(code: u32) -> Option<Jongseong> {
    if spec_is_syllable(code) {
        spec_tail_of_syllable(code)
    } else {
        spec_tail_from_jamo(code)
    }
}

impl Jongseong {
    pub fn from_char(c: &char) -> (r: Option<Jongseong>)
        ensures
            r == spec_classify_tail(*c as u32),
    {
        Jongseong::from_u32(*c as u32)
    }

    pub fn from_u32(code: u32) -> (r: Option<Jongseong>)
        ensures
            r == spec_classify_tail(code),
    {
        if is_syllable(code) {
            Jongseong::from_syllable(code)
        } else {
            Jongseong::from_jamo(code)
        }
    }

    /// The tail digit of a composed syllable: the lowest digit of the
    /// mixed-radix index, radix 28, where slot 0 means "no tail".
    pub fn from_syllable(code: u32) -> (r: Option<Jongseong>)
        requires
            spec_is_syllable(code),
        ensures
            r == spec_tail_of_syllable(code),
    {
        proof {
            vstd::arithmetic::div_mod::lemma_mod_division_less_than_divisor(
                (code - HANGEUL_OFFSET) as int,
                28,
            );
        }
        let value: u32 = (code - HANGEUL_OFFSET) % 28;

        match value {
            1 => Some(Jongseong::Giyeok),
            2 => Some(Jongseong::SsangGiyeok),
            3 => Some(Jongseong::GiyeokSiot),
            4 => Some(Jongseong::Nieun),
            5 => Some(Jongseong::NieunJieut),
            6 => Some(Jongseong::NieunHieuh),
            7 => Some(Jongseong::Digeut),
            8 => Some(Jongseong::Rieul),
            9 => Some(Jongseong::RieulGiyeok),
            10 => Some(Jongseong::RieulMieum),
            11 => Some(Jongseong::RieulBieup),
            12 => Some(Jongseong::RieulSiot),
            13 => Some(Jongseong::RieulTieut),
            14 => Some(Jongseong::RieulPieup),
            15 => Some(Jongseong::RieulHieuh),
            16 => Some(Jongseong::Mieum),
            17 => Some(Jongseong::Bieup),
            18 => Some(Jongseong::BieupSiot),
            19 => Some(Jongseong::Siot),
            20 => Some(Jongseong::SsangSiot),
            21 => Some(Jongseong::Ieung),
            22 => Some(Jongseong::Jieut),
            23 => Some(Jongseong::Chieut),
            24 => Some(Jongseong::Kieuk),
            25 => Some(Jongseong::Tieut),
            26 => Some(Jongseong::Pieup),
            27 => Some(Jongseong::Hieuh),
            _ => None,
        }
    }

    /// Direct lookup of a tail jamo code point in either jamo block.
    pub fn from_jamo(code: u32) -> (r: Option<Jongseong>)
        ensures
            r == spec_tail_from_jamo(code),
    {
        match code {
            0x11A8 | 0x3131 => Some(Jongseong::Giyeok),
            0x11A9 | 0x3132 => Some(Jongseong::SsangGiyeok),
            0x11AA | 0x3133 => Some(Jongseong::GiyeokSiot),
            0x11AB | 0x3134 => Some(Jongseong::Nieun),
            0x11AC | 0x3135 => Some(Jongseong::NieunJieut),
            0x11AD | 0x3136 => Some(Jongseong::NieunHieuh),
            0x11AE | 0x3137 => Some(Jongseong::Digeut),
            0x11AF | 0x3139 => Some(Jongseong::Rieul),
            0x11B0 | 0x313A => Some(Jongseong::RieulGiyeok),
            0x11B1 | 0x313B => Some(Jongseong::RieulMieum),
            0x11B2 | 0x313C => Some(Jongseong::RieulBieup),
            0x11B3 | 0x313D => Some(Jongseong::RieulSiot),
            0x11B4 | 0x313E => Some(Jongseong::RieulTieut),
            0x11B5 | 0x313F => Some(Jongseong::RieulPieup),
            0x11B6 | 0x3140 => Some(Jongseong::RieulHieuh),
            0x11B7 | 0x3141 => Some(Jongseong::Mieum),
            0x11B8 | 0x3142 => Some(Jongseong::Bieup),
            0x11B9 | 0x3144 => Some(Jongseong::BieupSiot),
            0x11BA | 0x3145 => Some(Jongseong::Siot),
            0x11BB | 0x3146 => Some(Jongseong::SsangSiot),
            0x11BC | 0x3147 => Some(Jongseong::Ieung),
            0x11BD | 0x3148 => Some(Jongseong::Jieut),
            0x11BE | 0x314A => Some(Jongseong::Chieut),
            0x11BF | 0x314B => Some(Jongseong::Kieuk),
            0x11C0 | 0x314C => Some(Jongseong::Tieut),
            0x11C1 | 0x314D => Some(Jongseong::Pieup),
            0x11C2 | 0x314E => Some(Jongseong::Hieuh),
            _ => None,
        }
    }

    /// The compatibility-jamo character of this tail.
    pub fn to_char(&self) -> (r: char)
        ensures
            r == self.spec_char(),
    {
        match *self {
            Jongseong::Giyeok => 'ㄱ',
            Jongseong::SsangGiyeok => 'ㄲ',
            Jongseong::GiyeokSiot => 'ㄳ',
            Jongseong::Nieun => 'ㄴ',
            Jongseong::NieunJieut => 'ㄵ',
            Jongseong::NieunHieuh => 'ㄶ',
            Jongseong::Digeut => 'ㄷ',
            Jongseong::Rieul => 'ㄹ',
            Jongseong::RieulGiyeok => 'ㄺ',
            Jongseong::RieulMieum => 'ㄻ',
            Jongseong::RieulBieup => 'ㄼ',
            Jongseong::RieulSiot => 'ㄽ',
            Jongseong::RieulTieut => 'ㄾ',
            Jongseong::RieulPieup => 'ㄿ',
            Jongseong::RieulHieuh => 'ㅀ',
            Jongseong::Mieum => 'ㅁ',
            Jongseong::Bieup => 'ㅂ',
            Jongseong::BieupSiot => 'ㅄ',
            Jongseong::Siot => 'ㅅ',
            Jongseong::SsangSiot => 'ㅆ',
            Jongseong::Ieung => 'ㅇ',
            Jongseong::Jieut => 'ㅈ',
            Jongseong::Chieut => 'ㅊ',
            Jongseong::Kieuk => 'ㅋ',
            Jongseong::Tieut => 'ㅌ',
            Jongseong::Pieup => 'ㅍ',
            Jongseong::Hieuh => 'ㅎ',
        }
    }
}

impl Syllable for Jongseong {
    open spec fn spec_composable_u32(&self) -> u32 {
        self.spec_index() as u32
    }

    open spec fn spec_to_u32(&self) -> u32 {
        self.spec_jamo_u32()
    }

    fn to_u32(&self) -> (r: u32) {
        match *self {
            Jongseong::Giyeok => 0x11A8,
            Jongseong::SsangGiyeok => 0x11A9,
            Jongseong::GiyeokSiot => 0x11AA,
            Jongseong::Nieun => 0x11AB,
            Jongseong::NieunJieut => 0x11AC,
            Jongseong::NieunHieuh => 0x11AD,
            Jongseong::Digeut => 0x11AE,
            Jongseong::Rieul => 0x11AF,
            Jongseong::RieulGiyeok => 0x11B0,
            Jongseong::RieulMieum => 0x11B1,
            Jongseong::RieulBieup => 0x11B2,
            Jongseong::RieulSiot => 0x11B3,
            Jongseong::RieulTieut => 0x11B4,
            Jongseong::RieulPieup => 0x11B5,
            Jongseong::RieulHieuh => 0x11B6,
            Jongseong::Mieum => 0x11B7,
            Jongseong::Bieup => 0x11B8,
            Jongseong::BieupSiot => 0x11B9,
            Jongseong::Siot => 0x11BA,
            Jongseong::SsangSiot => 0x11BB,
            Jongseong::Ieung => 0x11BC,
            Jongseong::Jieut => 0x11BD,
            Jongseong::Chieut => 0x11BE,
            Jongseong::Kieuk => 0x11BF,
            Jongseong::Tieut => 0x11C0,
            Jongseong::Pieup => 0x11C1,
            Jongseong::Hieuh => 0x11C2,
        }
    }

    fn composable_u32(&self) -> (r: u32) {
        match *self {
            Jongseong::Giyeok => 1,
            Jongseong::SsangGiyeok => 2,
            Jongseong::GiyeokSiot => 3,
            Jongseong::Nieun => 4,
            Jongseong::NieunJieut => 5,
            Jongseong::NieunHieuh => 6,
            Jongseong::Digeut => 7,
            Jongseong::Rieul => 8,
            Jongseong::RieulGiyeok => 9,
            Jongseong::RieulMieum => 10,
            Jongseong::RieulBieup => 11,
            Jongseong::RieulSiot => 12,
            Jongseong::RieulTieut => 13,
            Jongseong::RieulPieup => 14,
            Jongseong::RieulHieuh => 15,
            Jongseong::Mieum => 16,
            Jongseong::Bieup => 17,
            Jongseong::BieupSiot => 18,
            Jongseong::Siot => 19,
            Jongseong::SsangSiot => 20,
            Jongseong::Ieung => 21,
            Jongseong::Jieut => 22,
            Jongseong::Chieut => 23,
            Jongseong::Kieuk => 24,
            Jongseong::Tieut => 25,
            Jongseong::Pieup => 26,
            Jongseong::Hieuh => 27,
        }
    }
}

} // verus!

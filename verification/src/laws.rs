use vstd::prelude::*;

use crate::HANGEUL_OFFSET;
use crate::models::Choseong;
use crate::models::Jongseong;
use crate::models::Jungseong;
use crate::models::spec_classify_lead;
use crate::models::spec_classify_tail;
use crate::models::spec_classify_vowel;
use crate::spec_decompose_parts;
use crate::spec_is_syllable;
use crate::spec_syllable_code;
use vstd::arithmetic::div_mod::lemma_div_denominator;
use vstd::arithmetic::div_mod::lemma_fundamental_div_mod;
use vstd::arithmetic::div_mod::lemma_fundamental_div_mod_converse_div;
use vstd::arithmetic::div_mod::lemma_fundamental_div_mod_converse_mod;

verus! {

/// Round-trip law, one direction: decomposing any composed syllable code
/// point into its three digits and recomposing them by the mixed-radix
/// formula gives back the same code point.
pub proof fn lemma_compose_decompose(code: u32)
    requires
        spec_is_syllable(code),
    ensures
        ({
            let (cho, jung, jong) = spec_decompose_parts(code);
            spec_syllable_code(cho, jung, jong) == code
        }),
{
    let i = (code - HANGEUL_OFFSET) as int;
    lemma_fundamental_div_mod(i, 28);
    lemma_fundamental_div_mod(i / 28, 21);
    lemma_div_denominator(i, 28, 21);
    assert(i == 588 * (i / 588) + 28 * ((i / 28) % 21) + i % 28);
}

/// Round-trip law, the other direction: the mixed-radix code of any triple
/// of parts lies in the syllable block and decomposes back into exactly
/// that triple.
pub proof fn lemma_decompose_compose(
    choseong: Choseong,
    jungseong: Jungseong,
    jongseong: Option<Jongseong>,
)
    ensures
        spec_is_syllable(spec_syllable_code(choseong, jungseong, jongseong) as u32),
        spec_decompose_parts(spec_syllable_code(choseong, jungseong, jongseong) as u32) == (
        choseong,
        jungseong,
        jongseong,
        ),
{
    let a = choseong.spec_index();
    let b = jungseong.spec_index();
    let t = match jongseong {
        Some(jong) => jong.spec_index(),
        None => 0int,
    };
    let i = 588 * a + 28 * b + t;

    assert(0 <= a <= 18) by {
        crate::models::lemma_lead_index_bounds(choseong);
    }
    assert(0 <= b <= 20) by {
        crate::models::lemma_vowel_index_bounds(jungseong);
    }
    assert(0 <= t <= 27) by {
        if let Some(jong) = jongseong {
            crate::models::lemma_tail_index_bounds(jong);
        }
    }

    lemma_fundamental_div_mod_converse_div(i, 588, a, 28 * b + t);
    lemma_fundamental_div_mod_converse_div(i, 28, 21 * a + b, t);
    lemma_fundamental_div_mod_converse_mod(i, 28, 21 * a + b, t);
    lemma_fundamental_div_mod_converse_mod(21 * a + b, 21, a, b);
}

/// Round-trip law at the character level: decomposing a composed syllable
/// character and composing the three resulting compatibility characters
/// gives back the same character.
pub proof fn lemma_char_round_trip(c: char)
    requires
        spec_is_syllable(c as u32),
    ensures
        crate::spec_decompose_char(c as u32) matches Ok(parts) && crate::spec_compose_char(
            parts.0,
            parts.1,
            parts.2,
        ) == Ok::<char, crate::HangeulError>(c),
{
    let code = c as u32;
    let (cho, jung, jong) = spec_decompose_parts(code);
    lemma_lead_table_inverse(cho);
    lemma_vowel_table_inverse(jung);
    if let Some(jong_part) = jong {
        lemma_tail_table_inverse(jong_part);
    }
    lemma_compose_decompose(code);
}

/// Inverse table consistency for leads: classifying either code point of a
/// lead (its compatibility character or its conjoined jamo) gives back the
/// same lead.
pub proof fn lemma_lead_table_inverse(choseong: Choseong)
    ensures
        spec_classify_lead(choseong.spec_char() as u32) == Some(choseong),
        spec_classify_lead(choseong.spec_jamo_u32()) == Some(choseong),
{
}

/// Inverse table consistency for vowels: classifying either code point of
/// a vowel gives back the same vowel.
pub proof fn lemma_vowel_table_inverse(jungseong: Jungseong)
    ensures
        spec_classify_vowel(jungseong.spec_char() as u32) == Some(jungseong),
        spec_classify_vowel(jungseong.spec_jamo_u32()) == Some(jungseong),
{
}

/// Inverse table consistency for tails: classifying either code point of a
/// tail gives back the same tail.
pub proof fn lemma_tail_table_inverse(jongseong: Jongseong)
    ensures
        spec_classify_tail(jongseong.spec_char() as u32) == Some(jongseong),
        spec_classify_tail(jongseong.spec_jamo_u32()) == Some(jongseong),
{
}

/// The compatibility block has gap slots: the compound letter 0x3133
/// is a valid tail and at the same time no valid lead.
pub proof fn lemma_tail_only_gap()
    ensures
        spec_classify_tail(0x3133) is Some,
        spec_classify_lead(0x3133) is None,
{
}

} // verus!

use vstd::prelude::*;

pub mod errors;
pub mod laws;
pub mod models;

pub use crate::errors::HangeulError;
pub use crate::models::{Choseong, Jongseong, Jungseong, Syllable};

/// Alias for is_jaeum.
pub use self::is_jaeum as is_consonant;
/// Alias for is_moeum.
pub use self::is_moeum as is_vowel;
/// Alias for get_choseong.
pub use self::get_choseong as get_lead;
/// Alias for has_jongseong.
pub use self::has_jongseong as has_tail;
/// Alias for is_choseong.
pub use self::is_choseong as is_lead;
/// Alias for is_jongseong.
pub use self::is_jongseong as is_tail;
/// Alias for ends_with_jongseong.
pub use self::ends_with_jongseong as ends_in_consonant;
/// Alias for ends_with_jongseong.
pub use self::ends_with_jongseong as ends_with_bottom;

verus! {

/// Base of the composed-syllable block: the code point of the first syllable.
pub const HANGEUL_OFFSET: u32 = 0xAC00;

/// First and last code points of the composed Hangeul syllable block.
pub const SYLLABLE_START: u32 = 0xAC00;
pub const SYLLABLE_END: u32 = 0xD7A3;

/// First and last code points of the conjoined (positional) jamo block.
pub const JAMO_START: u32 = 0x1100;
pub const JAMO_END: u32 = 0x11FF;

/// First and last code points of the Hangeul compatibility jamo block.
pub const COMPAT_JAMO_START: u32 = 0x3131;
pub const COMPAT_JAMO_END: u32 = 0x318E;

/// Conjoined lead-consonant range.
pub const CHOSEONG_START: u32 = 0x1100;
pub const CHOSEONG_END: u32 = 0x1112;

/// Compatibility consonant range that holds the lead letters.
pub const COMPAT_CHOSEONG_START: u32 = 0x3131;
pub const COMPAT_CHOSEONG_END: u32 = 0x314E;

/// Conjoined vowel range.
pub const JUNGSEONG_START: u32 = 0x1161;
pub const JUNGSEONG_END: u32 = 0x1175;

/// Compatibility vowel range.
pub const COMPAT_JUNGSEONG_START: u32 = 0x314F;
pub const COMPAT_JUNGSEONG_END: u32 = 0x3163;

/// Conjoined tail-consonant range.
pub const JONGSEONG_START: u32 = 0x11A8;
pub const JONGSEONG_END: u32 = 0x11C2;

/// Compatibility consonant range counted as tail letters by the block
/// predicates (the trailing part of the compatibility block).
pub const COMPAT_JONGSEONG_START: u32 = 0x3165;
pub const COMPAT_JONGSEONG_END: u32 = 0x318E;

/// A code point lies in the composed Hangeul syllable block.
pub open spec fn spec_is_syllable(code: u32) -> bool {
    SYLLABLE_START <= code <= SYLLABLE_END
}

/// Check if the u32 is a finished/composed Hangeul syllable,
/// that is, lies in the `0xAC00` to `0xD7A3` range.
#[verifier::when_used_as_spec(spec_is_syllable)]
pub fn is_syllable(code: u32) -> (r: bool)
    ensures
        r == spec_is_syllable(code),
{
    SYLLABLE_START <= code && code <= SYLLABLE_END
}

/// A code point lies in one of the four consonant ranges: the lead and
/// tail sub-ranges of the conjoined block, or the consonant parts of the
/// compatibility block.
pub open spec fn spec_is_jaeum(code: u32) -> bool {
    (COMPAT_CHOSEONG_START <= code <= COMPAT_CHOSEONG_END) || (COMPAT_JONGSEONG_START <= code
        <= COMPAT_JONGSEONG_END) || (CHOSEONG_START <= code <= CHOSEONG_END) || (JONGSEONG_START
        <= code <= JONGSEONG_END)
}

/// Checks if the u32 is a consonant, or jaeum. Checks both the conjoined
/// jamo and the compatibility jamo blocks.
#[verifier::when_used_as_spec(spec_is_jaeum)]
pub fn is_jaeum(code: u32) -> (r: bool)
    ensures
        r == spec_is_jaeum(code),
{
    (COMPAT_CHOSEONG_START <= code && code <= COMPAT_CHOSEONG_END) || (COMPAT_JONGSEONG_START
        <= code && code <= COMPAT_JONGSEONG_END) || (CHOSEONG_START <= code && code
        <= CHOSEONG_END) || (JONGSEONG_START <= code && code <= JONGSEONG_END)
}

/// A code point lies in one of the two vowel ranges.
pub open spec fn spec_is_moeum(code: u32) -> bool {
    (COMPAT_JUNGSEONG_START <= code <= COMPAT_JUNGSEONG_END) || (JUNGSEONG_START <= code
        <= JUNGSEONG_END)
}

/// Checks if the u32 is a vowel, or moeum. Checks both the conjoined
/// jamo and the compatibility jamo blocks.
#[verifier::when_used_as_spec(spec_is_moeum)]
pub fn is_moeum(code: u32) -> (r: bool)
    ensures
        r == spec_is_moeum(code),
{
    (COMPAT_JUNGSEONG_START <= code && code <= COMPAT_JUNGSEONG_END) || (JUNGSEONG_START <= code
        && code <= JUNGSEONG_END)
}

/// A code point lies in the conjoined jamo block.
pub open spec fn spec_is_jamo(code: u32) -> bool {
    JAMO_START <= code <= JAMO_END
}

/// Returns true from `0x1100` to `0x11FF`, the conjoined jamo block.
#[verifier::when_used_as_spec(spec_is_jamo)]
pub fn is_jamo(code: u32) -> (r: bool)
    ensures
        r == spec_is_jamo(code),
{
    JAMO_START <= code && code <= JAMO_END
}

/// A code point lies in the compatibility jamo block.
pub open spec fn spec_is_compat_jamo(code: u32) -> bool {
    COMPAT_JAMO_START <= code <= COMPAT_JAMO_END
}

/// Returns true from `0x3131` to `0x318E`, the compatibility jamo block.
#[verifier::when_used_as_spec(spec_is_compat_jamo)]
pub fn is_compat_jamo(code: u32) -> (r: bool)
    ensures
        r == spec_is_compat_jamo(code),
{
    COMPAT_JAMO_START <= code && code <= COMPAT_JAMO_END
}

/// A code point belongs to any of the three Hangeul blocks.
pub open spec fn spec_is_hangeul(code: u32) -> bool {
    spec_is_syllable(code) || spec_is_jamo(code) || spec_is_compat_jamo(code)
}

/// Checks if a u32 is a (composable) Hangeul syllable or jamo.
/// Archaic Korean outside the three blocks is not supported.
#[verifier::when_used_as_spec(spec_is_hangeul)]
pub fn is_hangeul(code: u32) -> (r: bool)
    ensures
        r == spec_is_hangeul(code),
{
    is_syllable(code) || is_jamo(code) || is_compat_jamo(code)
}

/// Casts a char to u32. Errors if the u32 falls outside of the composed
/// Hangeul syllable range.
pub fn to_hangeul_u32(c: &char) -> (r: Result<u32, HangeulError>)
    ensures
        r == (if spec_is_syllable(*c as u32) {
            Ok::<u32, HangeulError>(*c as u32)
        } else {
            Err::<u32, HangeulError>(HangeulError::NotASyllable)
        }),
{
    let code = *c as u32;

    match is_syllable(code) {
        true => Ok(code),
        false => Err(HangeulError::NotASyllable),
    }
}

/// Wrapper around `Choseong` to get the first/lead character of a Hangeul
/// syllable (or of a lone lead jamo) as a compatibility character.
pub fn get_choseong(c: &char) -> (r: Result<char, HangeulError>)
    ensures
        r == (match crate::models::spec_classify_lead(*c as u32) {
            Some(cho) => Ok::<char, HangeulError>(cho.spec_char()),
            None => Err::<char, HangeulError>(HangeulError::JamoNotFound),
        }),
{
    match Choseong::from_char(c) {
        Some(cho) => Ok(cho.to_char()),
        None => Err(HangeulError::JamoNotFound),
    }
}

/// Wrapper around `Jungseong` to get the middle/vowel character of a
/// Hangeul syllable (or of a lone vowel jamo) as a compatibility character.
pub fn get_jungseong(c: &char) -> (r: Result<char, HangeulError>)
    ensures
        r == (match crate::models::spec_classify_vowel(*c as u32) {
            Some(jung) => Ok::<char, HangeulError>(jung.spec_char()),
            None => Err::<char, HangeulError>(HangeulError::JamoNotFound),
        }),
{
    match Jungseong::from_char(c) {
        Some(jung) => Ok(jung.to_char()),
        None => Err(HangeulError::JamoNotFound),
    }
}

/// The optional bottom/tail character of a composed Hangeul syllable, as a
/// compatibility character: `Ok(None)` for an open syllable, an error for
/// anything outside the syllable block.
pub fn get_jongseong(c: &char) -> (r: Result<Option<char>, HangeulError>)
    ensures
        r == (if spec_is_syllable(*c as u32) {
            Ok::<Option<char>, HangeulError>(
                match crate::models::spec_tail_of_syllable(*c as u32) {
                    Some(jong) => Some(jong.spec_char()),
                    None => None,
                },
            )
        } else {
            Err::<Option<char>, HangeulError>(HangeulError::NotASyllable)
        }),
{
    let code = *c as u32;
    if !is_syllable(code) {
        return Err(HangeulError::NotASyllable);
    }
    match Jongseong::from_syllable(code) {
        Some(jong) => Ok(Some(jong.to_char())),
        None => Ok(None),
    }
}

/// The tail character denoted by a char: the tail of a composed syllable,
/// or a lone tail jamo of either block, as a compatibility character.
pub fn get_tail(c: &char) -> (r: Result<char, HangeulError>)
    ensures
        r == (match crate::models::spec_classify_tail(*c as u32) {
            Some(jong) => Ok::<char, HangeulError>(jong.spec_char()),
            None => Err::<char, HangeulError>(HangeulError::JamoNotFound),
        }),
{
    match Jongseong::from_char(c) {
        Some(jong) => Ok(jong.to_char()),
        None => Err(HangeulError::JamoNotFound),
    }
}

/// Check if the syllable has a tail, or jongseong: the lowest mixed-radix
/// digit of the syllable index is not the empty slot 0.
pub fn has_jongseong(c: &char) -> (r: Result<bool, HangeulError>)
    ensures
        r == (if spec_is_syllable(*c as u32) {
            Ok::<bool, HangeulError>(((*c as u32 - HANGEUL_OFFSET) % 28) != 0)
        } else {
            Err::<bool, HangeulError>(HangeulError::NotASyllable)
        }),
{
    let code = to_hangeul_u32(c)?;

    Ok((code - HANGEUL_OFFSET) % 28 != 0)
}

/// Checks if a code point denotes a lead jamo, or choseong: the lead digit
/// of a composed syllable, or a lead letter of either jamo block.
pub fn is_choseong(code: u32) -> (r: bool)
    ensures
        r == (crate::models::spec_classify_lead(code) is Some),
{
    Choseong::from_u32(code).is_some()
}

/// Checks if a code point denotes a middle/vowel jamo, or jungseong.
pub fn is_jungseong(code: u32) -> (r: bool)
    ensures
        r == (crate::models::spec_classify_vowel(code) is Some),
{
    Jungseong::from_u32(code).is_some()
}

/// Checks if a code point denotes a tail jamo, or jongseong: the tail
/// digit of a composed syllable, or a tail letter of either jamo block.
pub fn is_jongseong(code: u32) -> (r: bool)
    ensures
        r == (crate::models::spec_classify_tail(code) is Some),
{
    Jongseong::from_u32(code).is_some()
}

/// Checks if a str's last character is a syllable closed by a tail
/// consonant. Errors on an empty str and on a last character outside the
/// syllable block.
pub fn ends_with_jongseong(content: &str) -> (r: Result<bool, HangeulError>)
    ensures
        content@.len() == 0 ==> r == Err::<bool, HangeulError>(HangeulError::NotASyllable),
        content@.len() > 0 ==> r == ({
            let code = content@[content@.len() - 1] as u32;
            if spec_is_syllable(code) {
                Ok::<bool, HangeulError>(((code - HANGEUL_OFFSET) % 28) != 0)
            } else {
                Err::<bool, HangeulError>(HangeulError::NotASyllable)
            }
        }),
{
    let n = content.unicode_len();
    if n == 0 {
        return Err(HangeulError::NotASyllable);
    }
    let last = content.get_char(n - 1);
    has_jongseong(&last)
}

/// The three mixed-radix digits of a syllable code point, as enumerated
/// parts: lead `index / 588`, vowel `(index / 28) % 21`, tail `index % 28`
/// with slot 0 standing for "no tail".
pub open spec fn spec_decompose_parts(code: u32) -> (Choseong, Jungseong, Option<Jongseong>) {
    (
        crate::models::spec_lead_from_index((code - HANGEUL_OFFSET) / 588),
        crate::models::spec_vowel_from_index(((code - HANGEUL_OFFSET) / 28) % 21),
        crate::models::spec_tail_of_syllable(code),
    )
}

/// What decomposing one character yields: a syllable gives its three
/// compatibility characters (the tail position may be empty), anything
/// else is rejected.
pub open spec fn spec_decompose_char(code: u32) -> Result<(char, char, Option<char>), HangeulError> {
    if spec_is_syllable(code) {
        let (cho, jung, jong) = spec_decompose_parts(code);
        Ok(
            (
                cho.spec_char(),
                jung.spec_char(),
                match jong {
                    Some(j) => Some(j.spec_char()),
                    None => None,
                },
            ),
        )
    } else {
        Err(HangeulError::NotASyllable)
    }
}

/// Attempts to decompose a composed Hangeul syllable into its lead, vowel
/// and optional tail, each as a compatibility character.
pub fn decompose_char(c: &char) -> (r: Result<(char, char, Option<char>), HangeulError>)
    ensures
        r == spec_decompose_char(*c as u32),
{
    let code = *c as u32;
    if !is_syllable(code) {
        return Err(HangeulError::NotASyllable);
    }

    let choseong = match Choseong::from_syllable(code) {
        Some(cho) => cho.to_char(),
        None => return Err(HangeulError::NotASyllable),
    };
    let jungseong = match Jungseong::from_syllable(code) {
        Some(jung) => jung.to_char(),
        None => return Err(HangeulError::NotASyllable),
    };
    let jongseong = match Jongseong::from_syllable(code) {
        Some(jong) => Some(jong.to_char()),
        None => None,
    };

    Ok((choseong, jungseong, jongseong))
}

/// Attempts to decompose a string of Hangeul characters, one result per
/// character. A failure on one character does not abort the others.
pub fn decompose(content: &str) -> (r: Vec<Result<(char, char, Option<char>), HangeulError>>)
    ensures
        r@.len() == content@.len(),
        forall|i: int| 0 <= i < r@.len() ==> r@[i] == spec_decompose_char(content@[i] as u32),
{
    let n = content.unicode_len();
    let mut result: Vec<Result<(char, char, Option<char>), HangeulError>> = Vec::new();
    let mut idx: usize = 0;

    while idx < n
        invariant
            n as nat == content@.len(),
            idx <= n,
            result@.len() == idx as nat,
            forall|i: int|
                0 <= i < idx as int ==> result@[i] == spec_decompose_char(content@[i] as u32),
        decreases n - idx,
    {
        let c = content.get_char(idx);
        result.push(decompose_char(&c));
        idx += 1;
    }

    result
}

/// The code point composed from three parts by the mixed-radix formula:
/// `0xAC00 + 588 * lead + 28 * vowel + tail slot`.
pub open spec fn spec_syllable_code(
    choseong: Choseong,
    jungseong: Jungseong,
    jongseong: Option<Jongseong>,
) -> int {
    HANGEUL_OFFSET + 588 * choseong.spec_index() + 28 * jungseong.spec_index() + (
    match jongseong {
        Some(jong) => jong.spec_index(),
        None => 0,
    })
}

/// Relies on core::char::from_u32: every value up to 0xD7FF lies below the
/// surrogate range, is hence a Unicode scalar value, and converts to the
/// character with exactly that code.
#[verifier::external_body]
fn syllable_char(code: u32) -> (r: char)
    requires
        code <= 0xD7FF,
    ensures
        r == (code as char),
        r as u32 == code,
{
    char::from_u32(code).unwrap()
}

/// Composes a Hangeul syllable character from enumerated parts. Every
/// well-typed triple composes; the result always lies in the syllable
/// block.
pub fn compose_parts(
    choseong: Choseong,
    jungseong: Jungseong,
    jongseong: Option<Jongseong>,
) -> (r: char)
    ensures
        r as u32 == spec_syllable_code(choseong, jungseong, jongseong),
        spec_is_syllable(r as u32),
{
    proof {
        crate::models::lemma_lead_index_bounds(choseong);
        crate::models::lemma_vowel_index_bounds(jungseong);
        if let Some(jong) = jongseong {
            crate::models::lemma_tail_index_bounds(jong);
        }
    }
    let cho_code = choseong.composable_u32();
    let jung_code = jungseong.composable_u32();
    let jong_code = match jongseong {
        Some(jong) => jong.composable_u32(),
        None => 0,
    };

    let code = cho_code + jung_code + jong_code + HANGEUL_OFFSET;

    syllable_char(code)
}

/// What composing three characters yields: each part must classify as its
/// position's jamo (a composed syllable counts through its own digit),
/// else the triple is uncomposable.
pub open spec fn spec_compose_char(l: char, v: char, t: Option<char>) -> Result<
    char,
    HangeulError,
> {
    match (
        crate::models::spec_classify_lead(l as u32),
        crate::models::spec_classify_vowel(v as u32),
    ) {
        (Some(cho), Some(jung)) => match t {
            Some(tc) => match crate::models::spec_classify_tail(tc as u32) {
                Some(jong) => Ok(spec_syllable_code(cho, jung, Some(jong)) as char),
                None => Err(HangeulError::Uncomposable),
            },
            None => Ok(spec_syllable_code(cho, jung, None) as char),
        },
        _ => Err(HangeulError::Uncomposable),
    }
}

/// Attempts to compose a Hangeul syllable character from a lead, a vowel
/// and an optional tail character. Errors with `Uncomposable` when a part
/// does not classify as its position's jamo.
pub fn compose_char(choseong: &char, jungseong: &char, jongseong: Option<&char>) -> (r: Result<
    char,
    HangeulError,
>)
    ensures
        r == spec_compose_char(
            *choseong,
            *jungseong,
            match jongseong {
                Some(c) => Some(*c),
                None => None,
            },
        ),
{
    let cho = match Choseong::from_char(choseong) {
        Some(cho) => cho,
        None => return Err(HangeulError::Uncomposable),
    };
    let jung = match Jungseong::from_char(jungseong) {
        Some(jung) => jung,
        None => return Err(HangeulError::Uncomposable),
    };
    let jong = match jongseong {
        Some(c) => match Jongseong::from_char(c) {
            Some(jong) => Some(jong),
            None => return Err(HangeulError::Uncomposable),
        },
        None => None,
    };

    Ok(compose_parts(cho, jung, jong))
}

/// Attempts to compose a Hangeul syllable character, taking the parts by
/// value. See `compose_char`.
pub fn compose(choseong: char, jungseong: char, jongseong: Option<char>) -> (r: Result<
    char,
    HangeulError,
>)
    ensures
        r == spec_compose_char(choseong, jungseong, jongseong),
{
    compose_char(&choseong, &jungseong, jongseong.as_ref())
}

/// The lead-extraction transform of one character: a character that
/// classifies as a lead is replaced by that lead's compatibility letter,
/// any other character passes through unchanged.
pub open spec fn spec_lead_extract(c: char) -> char {
    match crate::models::spec_classify_lead(c as u32) {
        Some(cho) => cho.spec_char(),
        None => c,
    }
}

/// Relies on String::push: appends the given character to the end of the
/// string.
#[verifier::external_body]
fn push_char(s: &mut String, c: char)
    ensures
        final(s)@ == old(s)@.push(c),
{
    s.push(c)
}

/// Maps every character of a str to its lead jamo, emitting characters
/// that have no lead (spaces, Latin letters, lone vowels) unchanged:
/// one output character per input character, order preserved.
pub fn get_leads(content: &str) -> (r: String)
    ensures
        r@.len() == content@.len(),
        forall|i: int| 0 <= i < r@.len() ==> r@[i] == spec_lead_extract(content@[i]),
{
    let n = content.unicode_len();
    let mut out = String::new();
    let mut idx: usize = 0;

    while idx < n
        invariant
            n as nat == content@.len(),
            idx <= n,
            out@.len() == idx as nat,
            forall|i: int| 0 <= i < idx as int ==> out@[i] == spec_lead_extract(content@[i]),
        decreases n - idx,
    {
        let c = content.get_char(idx);
        let lead = match Choseong::from_char(&c) {
            Some(cho) => cho.to_char(),
            None => c,
        };
        push_char(&mut out, lead);
        idx += 1;
    }

    out
}

/// Check if the syllable has a tail, taking the char by value.
/// See `has_jongseong`.
pub fn has_bottom(c: char) -> (r: Result<bool, HangeulError>)
    ensures
        r == (if spec_is_syllable(c as u32) {
            Ok::<bool, HangeulError>(((c as u32 - HANGEUL_OFFSET) % 28) != 0)
        } else {
            Err::<bool, HangeulError>(HangeulError::NotASyllable)
        }),
{
    has_jongseong(&c)
}

/// Checks if a char is a lead jamo. See `is_choseong`.
pub fn is_top(c: char) -> (r: bool)
    ensures
        r == (crate::models::spec_classify_lead(c as u32) is Some),
{
    is_choseong(c as u32)
}

/// Checks if a char is a tail jamo. See `is_jongseong`.
pub fn is_bottom(c: char) -> (r: bool)
    ensures
        r == (crate::models::spec_classify_tail(c as u32) is Some),
{
    is_jongseong(c as u32)
}

/// The lead character of a syllable, taking the char by value.
/// See `get_choseong`.
pub fn get_top(c: char) -> (r: Result<char, HangeulError>)
    ensures
        r == (match crate::models::spec_classify_lead(c as u32) {
            Some(cho) => Ok::<char, HangeulError>(cho.spec_char()),
            None => Err::<char, HangeulError>(HangeulError::JamoNotFound),
        }),
{
    get_choseong(&c)
}

/// The vowel character of a syllable, taking the char by value.
/// See `get_jungseong`.
pub fn get_middle(c: char) -> (r: Result<char, HangeulError>)
    ensures
        r == (match crate::models::spec_classify_vowel(c as u32) {
            Some(jung) => Ok::<char, HangeulError>(jung.spec_char()),
            None => Err::<char, HangeulError>(HangeulError::JamoNotFound),
        }),
{
    get_jungseong(&c)
}

/// The optional tail character of a syllable, taking the char by value.
/// See `get_jongseong`.
pub fn get_bottom(c: char) -> (r: Result<Option<char>, HangeulError>)
    ensures
        r == (if spec_is_syllable(c as u32) {
            Ok::<Option<char>, HangeulError>(
                match crate::models::spec_tail_of_syllable(c as u32) {
                    Some(jong) => Some(jong.spec_char()),
                    None => None,
                },
            )
        } else {
            Err::<Option<char>, HangeulError>(HangeulError::NotASyllable)
        }),
{
    get_jongseong(&c)
}

} // verus!

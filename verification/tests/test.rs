use hangeul::models::Choseong;
use hangeul::models::Jongseong;
use hangeul::compose;
use hangeul::ends_with_bottom;
use hangeul::get_bottom;
use hangeul::get_choseong;
use hangeul::get_jongseong;
use hangeul::get_jungseong;
use hangeul::get_middle;
use hangeul::get_top;
use hangeul::has_bottom;
use hangeul::has_jongseong;
use hangeul::is_bottom;
use hangeul::is_choseong;
use hangeul::is_compat_jamo;
use hangeul::is_consonant;
use hangeul::is_jaeum;
use hangeul::is_jamo;
use hangeul::is_jongseong;
use hangeul::is_top;
use hangeul::is_vowel;

#[test]
fn jamo_table_test() {
    for code in 0x3131u32..=0x314E {
        if let Some(cho) = Choseong::from_u32(code) {
            assert_eq!(cho.to_char() as u32, code);
        }
    }

    for code in 0x3131u32..=0x314E {
        if let Some(jong) = Jongseong::from_u32(code) {
            assert_eq!(jong.to_char() as u32, code);
        }
    }
}

#[test]
fn decomposition_test() {
    let han = '한';
    let ha = '하';
    assert_eq!(get_choseong(&han).unwrap(), 'ㅎ');
    assert_eq!(get_jungseong(&han).unwrap(), 'ㅏ');
    assert_eq!(get_jongseong(&han).unwrap().unwrap(), 'ㄴ');
    assert_eq!(has_jongseong(&han).unwrap(), true);
    assert_eq!(has_jongseong(&ha).unwrap(), false);
    assert_eq!(get_jongseong(&ha).unwrap(), None);
}

#[test]
fn check_jamo_test() {
    assert_eq!(is_jamo('ㄱ' as u32) || is_compat_jamo('ㄱ' as u32), true);
    assert_eq!(is_jamo('ㅣ' as u32) || is_compat_jamo('ㅣ' as u32), true);
    assert_eq!(is_jamo('a' as u32) || is_compat_jamo('a' as u32), false);
    assert_eq!(is_jaeum('ㄱ' as u32), true);
    assert_eq!(is_jaeum('ㅎ' as u32), true);
    assert_eq!(is_jaeum('ㅏ' as u32), false);
    assert_eq!(is_choseong('ㄱ' as u32), true);
    assert_eq!(is_choseong('ㅎ' as u32), true);
    assert_eq!(is_choseong('ㄸ' as u32), true);
    assert_eq!(is_choseong('ㄳ' as u32), false);
    assert_eq!(is_choseong('ㅉ' as u32), true);
    assert_eq!(is_choseong('ㅃ' as u32), true);
    assert_eq!(is_choseong('ㅄ' as u32), false);
    assert_eq!(is_choseong('\u{3130}' as u32), false);
    assert_eq!(is_choseong('\u{314F}' as u32), false);
    assert_eq!(is_jongseong('ㄱ' as u32), true);
    assert_eq!(is_jongseong('ㅎ' as u32), true);
    assert_eq!(is_jongseong('ㄸ' as u32), false);
    assert_eq!(is_jongseong('ㄳ' as u32), true);
    assert_eq!(is_jongseong('ㅉ' as u32), false);
    assert_eq!(is_jongseong('ㅃ' as u32), false);
    assert_eq!(is_jongseong('ㅄ' as u32), true);
    assert_eq!(is_jongseong('A' as u32), false);
    assert_eq!(is_jongseong('\u{3130}' as u32), false);
    assert_eq!(is_jongseong('\u{314F}' as u32), false);
}

#[test]
fn compose_test() {
    assert_eq!(compose('ㄱ', 'ㅏ', None).unwrap(), '가');
    assert_eq!(compose('ㄱ', 'ㅏ', Some('ㄱ')).unwrap(), '각');
    assert_eq!(compose('ㄱ', 'ㅏ', Some('ㅄ')).unwrap(), '값');
    assert_eq!(compose('ㅎ', 'ㅘ', Some('ㅎ')).unwrap(), '홯');
    compose('ㄳ', 'ㅏ', None).unwrap_err();
}

#[test]
fn alias_test() {
    assert_eq!(is_top('ㄱ'), true);
    assert_eq!(is_bottom('ㄳ'), true);
    assert_eq!(has_bottom('감').unwrap(), true);
    assert_eq!(ends_with_bottom(&"감감").unwrap(), true);
    assert_eq!(is_consonant('ㄱ' as u32), true);
    assert_eq!(is_vowel('ㅏ' as u32), true);
    let gam = '감';
    assert_eq!(get_top(gam).unwrap(), 'ㄱ');
    assert_eq!(get_middle(gam).unwrap(), 'ㅏ');
    assert_eq!(get_bottom(gam).unwrap().unwrap(), 'ㅁ');
}

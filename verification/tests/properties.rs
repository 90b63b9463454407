use hangeul::errors::HangeulError;
use hangeul::models::Choseong;
use hangeul::models::Jongseong;
use hangeul::models::Jungseong;
use hangeul::models::Syllable;
use hangeul::compose;
use hangeul::compose_char;
use hangeul::compose_parts;
use hangeul::decompose_char;
use hangeul::ends_with_jongseong;
use hangeul::get_choseong;
use hangeul::get_leads;
use hangeul::get_tail;
use hangeul::is_hangeul;
use hangeul::is_lead;
use hangeul::is_moeum;
use hangeul::is_syllable;
use hangeul::is_tail;
use hangeul::to_hangeul_u32;

#[test]
fn syllable_boundary() {
    assert_eq!(is_syllable(0xABFF), false);
    assert_eq!(is_syllable(0xAC00), true);
    assert_eq!(is_syllable(0xD7A3), true);
    assert_eq!(is_syllable(0xD7A4), false);
}

#[test]
fn round_trip_every_syllable() {
    for code in 0xAC00u32..=0xD7A3 {
        let c = char::from_u32(code).unwrap();
        let (cho, jung, jong) = decompose_char(&c).unwrap();
        let recomposed = compose_char(&cho, &jung, jong.as_ref()).unwrap();
        assert_eq!(recomposed as u32, code);
    }
}

#[test]
fn conjoined_table_round_trip() {
    for code in 0x1100u32..=0x1112 {
        let cho = Choseong::from_u32(code).unwrap();
        assert_eq!(cho.to_u32(), code);
    }
    for code in 0x1161u32..=0x1175 {
        let jung = Jungseong::from_u32(code).unwrap();
        assert_eq!(jung.to_u32(), code);
    }
    for code in 0x11A8u32..=0x11C2 {
        let jong = Jongseong::from_u32(code).unwrap();
        assert_eq!(jong.to_u32(), code);
    }
    for code in 0x314Fu32..=0x3163 {
        let jung = Jungseong::from_u32(code).unwrap();
        assert_eq!(jung.to_char() as u32, code);
    }
}

#[test]
fn concrete_decomposition_parts() {
    assert_eq!(Choseong::from_char(&'한'), Some(Choseong::Hieuh));
    assert_eq!(Jungseong::from_char(&'한'), Some(Jungseong::A));
    assert_eq!(Jongseong::from_char(&'한'), Some(Jongseong::Nieun));
    assert_eq!(Choseong::from_char(&'하'), Some(Choseong::Hieuh));
    assert_eq!(Jungseong::from_char(&'하'), Some(Jungseong::A));
    assert_eq!(Jongseong::from_char(&'하'), None);
}

#[test]
fn concrete_composition_parts() {
    assert_eq!(compose_parts(Choseong::Giyeok, Jungseong::A, None), '가');
    assert_eq!(
        compose_parts(Choseong::Giyeok, Jungseong::A, Some(Jongseong::BieupSiot)),
        '값'
    );
    assert_eq!(
        compose_parts(Choseong::Hieuh, Jungseong::A, Some(Jongseong::Nieun)),
        '한'
    );
    assert_eq!(compose('ㄳ', 'ㅏ', None), Err(HangeulError::Uncomposable));
}

#[test]
fn composable_contributions() {
    assert_eq!(Choseong::Giyeok.composable_u32(), 0);
    assert_eq!(Choseong::Hieuh.composable_u32(), 18 * 588);
    assert_eq!(Jungseong::A.composable_u32(), 0);
    assert_eq!(Jungseong::I.composable_u32(), 20 * 28);
    assert_eq!(Jongseong::Giyeok.composable_u32(), 1);
    assert_eq!(Jongseong::Hieuh.composable_u32(), 27);
}

#[test]
fn tail_lead_gap() {
    assert_eq!(is_tail('ㄳ' as u32), true);
    assert_eq!(is_lead('ㄳ' as u32), false);
    assert_eq!(is_tail('ㅄ' as u32), true);
    assert_eq!(is_lead('ㅄ' as u32), false);
    assert_eq!(is_lead('ㄸ' as u32), true);
    assert_eq!(is_tail('ㄸ' as u32), false);
}

#[test]
fn lead_extraction_pass_through() {
    assert_eq!(get_leads("a한b"), "aㅎb");
    assert_eq!(get_leads("피카츄"), "ㅍㅋㅊ");
    assert_eq!(get_leads(""), "");
}

#[test]
fn hangeul_u32_values() {
    assert_eq!(to_hangeul_u32(&'뉂'), Ok(0xB242));
    assert_eq!(to_hangeul_u32(&'뷆'), Ok(0xBDC6));
    assert_eq!(to_hangeul_u32(&'ㅏ'), Err(HangeulError::NotASyllable));
    assert_eq!(to_hangeul_u32(&'何'), Err(HangeulError::NotASyllable));
}

#[test]
fn last_character_tail() {
    assert_eq!(ends_with_jongseong("피카츄"), Ok(false));
    assert_eq!(ends_with_jongseong("이상해꽃"), Ok(true));
    assert_eq!(ends_with_jongseong(""), Err(HangeulError::NotASyllable));
    assert_eq!(ends_with_jongseong("한a"), Err(HangeulError::NotASyllable));
}

#[test]
fn error_kinds() {
    assert_eq!(get_choseong(&'ㅏ'), Err(HangeulError::JamoNotFound));
    assert_eq!(get_tail(&'ㅏ'), Err(HangeulError::JamoNotFound));
    assert_eq!(decompose_char(&'a'), Err(HangeulError::NotASyllable));
    assert_eq!(
        compose_char(&'ㄱ', &'ㅏ', Some(&'a')),
        Err(HangeulError::Uncomposable)
    );
    assert_eq!(compose('ㄱ', 'ㄱ', None), Err(HangeulError::Uncomposable));
    assert_eq!(
        HangeulError::JamoNotFound.description(),
        "HangeulError: Jamo not found"
    );
    assert_eq!(
        HangeulError::NotASyllable.description(),
        "HangeulError: Not a correct Hangeul syllable"
    );
    assert_eq!(
        HangeulError::Uncomposable.description(),
        "HangeulError: Uncomposable"
    );
}

#[test]
fn block_membership() {
    assert_eq!(is_hangeul('한' as u32), true);
    assert_eq!(is_hangeul('ㅏ' as u32), true);
    assert_eq!(is_hangeul('ᆶ' as u32), true);
    assert_eq!(is_hangeul('a' as u32), false);
    assert_eq!(is_moeum('ᅡ' as u32), true);
    assert_eq!(is_moeum('ㅏ' as u32), true);
    assert_eq!(is_moeum('ㄱ' as u32), false);
}

#[test]
fn doc_samples() {
    assert_eq!(decompose_char(&'밮'), Ok(('ㅂ', 'ㅏ', Some('ㅍ'))));
    assert_eq!(compose_char(&'ㅂ', &'ㅏ', Some(&'ㅍ')), Ok('밮'));
    assert_eq!(get_choseong(&'갅'), Ok('ㄱ'));
    assert_eq!(get_tail(&'갅'), Ok('ㄵ'));
}

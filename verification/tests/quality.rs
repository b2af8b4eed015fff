use ttf2mesh::{Error, Quality};

#[test]
fn test_from_str() {
    assert_eq!(Quality::from_str("low").unwrap(), Quality::Low);
    assert_eq!(Quality::from_str("medium").unwrap(), Quality::Medium);
    assert_eq!(Quality::from_str("255").unwrap(), Quality::Custom(255));
    assert!(Quality::from_str("1000").is_err());
    assert!(Quality::from_str("Medium").is_err());
}

#[test]
fn quality_words_are_case_sensitive() {
    assert_eq!(Quality::from_str("high").unwrap(), Quality::High);
    assert!(Quality::from_str("Low").is_err());
    assert!(Quality::from_str("LOW").is_err());
    assert!(Quality::from_str("HIGH").is_err());
    assert!(Quality::from_str("hig").is_err());
    assert!(Quality::from_str("highh").is_err());
    assert!(Quality::from_str(" low").is_err());
    assert!(Quality::from_str("low ").is_err());
}

#[test]
fn quality_numbers_of_the_named_levels_normalize() {
    assert_eq!(Quality::from_str("10").unwrap(), Quality::Low);
    assert_eq!(Quality::from_str("20").unwrap(), Quality::Medium);
    assert_eq!(Quality::from_str("50").unwrap(), Quality::High);
    assert_eq!(Quality::from_str("010").unwrap(), Quality::Low);
    assert_eq!(Quality::from_str("+20").unwrap(), Quality::Medium);
}

#[test]
fn quality_other_numbers_are_custom() {
    assert_eq!(Quality::from_str("0").unwrap(), Quality::Custom(0));
    assert_eq!(Quality::from_str("8").unwrap(), Quality::Custom(8));
    assert_eq!(Quality::from_str("11").unwrap(), Quality::Custom(11));
    assert_eq!(Quality::from_str("128").unwrap(), Quality::Custom(128));
    assert_eq!(Quality::from_str("129").unwrap(), Quality::Custom(129));
    assert_eq!(Quality::from_str("+7").unwrap(), Quality::Custom(7));
    assert_eq!(Quality::from_str("000000000000000000000255").unwrap(), Quality::Custom(255));
}

#[test]
fn quality_rejects_what_is_no_numeral() {
    for text in [
        "", "+", "-", "-1", "-0", "++1", "+-1", "256", "300", "1000", "99999999999999999999",
        "1.0", "1e1", "0x10", "1_0", " 1", "1 ", "١٢", "１２", "12a", "a12", "lo", "med",
    ] {
        assert!(Quality::from_str(text).is_err(), "{:?}", text);
    }
}

#[test]
fn quality_parse_error_keeps_the_text() {
    match Quality::from_str("Medium") {
        Err(Error::QualityParse(text)) => assert_eq!(text, "Medium"),
        other => panic!("{:?}", other),
    }
    match Quality::from_str("") {
        Err(Error::QualityParse(text)) => assert_eq!(text, ""),
        other => panic!("{:?}", other),
    }
    match Quality::from_str("1000") {
        Err(Error::QualityParse(text)) => assert_eq!(text, "1000"),
        other => panic!("{:?}", other),
    }
}

#[test]
fn quality_as_u8_values() {
    assert_eq!(Quality::Low.as_u8(), 10);
    assert_eq!(Quality::Medium.as_u8(), 20);
    assert_eq!(Quality::High.as_u8(), 50);
    assert_eq!(Quality::Custom(0).as_u8(), 0);
    assert_eq!(Quality::Custom(7).as_u8(), 7);
    assert_eq!(Quality::Custom(10).as_u8(), 10);
    assert_eq!(Quality::Custom(200).as_u8(), 200);
    assert_eq!(Quality::Custom(255).as_u8(), 255);
}

#[test]
fn quality_default_is_medium() {
    assert_eq!(Quality::default(), Quality::Medium);
}

#[test]
fn quality_round_trip() {
    assert_eq!(Quality::from_str("low").unwrap().as_u8(), 10);
    assert_eq!(Quality::from_str("medium").unwrap().as_u8(), 20);
    assert_eq!(Quality::from_str("high").unwrap().as_u8(), 50);
    assert_eq!(Quality::from_str("255").unwrap().as_u8(), 255);
    for number in 0..=255u8 {
        let text = format!("{}", number);
        assert_eq!(Quality::from_str(&text).unwrap().as_u8(), number);
    }
}

#[test]
fn quality_numerals_read_as_std_reads_them() {
    let mut texts: Vec<String> = Vec::new();
    for number in 0..400u32 {
        texts.push(format!("{}", number));
        texts.push(format!("+{}", number));
        texts.push(format!("-{}", number));
        texts.push(format!("0{}", number));
        texts.push(format!("+00{}", number));
        texts.push(format!("{} ", number));
        texts.push(format!(" {}", number));
        texts.push(format!("{}+", number));
    }
    for text in texts {
        let expected = u8::from_str_radix(&text, 10).ok();
        let got = Quality::from_str(&text).ok().map(|quality| quality.as_u8());
        assert_eq!(got, expected, "{:?}", text);
    }
}

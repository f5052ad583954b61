use carbonintensity::{Region, RegionError};

fn parse_number_for_region() -> Result<(), RegionError> {
    // Propagate ParseIntError to test conversion to RegionError
    let _: u8 = "foo".parse()?;

    Ok(())
}

#[test]
fn ids_match() {
    assert_eq!(1_u8, Region::NorthScotland.id());
    assert_eq!(2_u8, Region::SouthScotland.id());
    assert_eq!(3_u8, Region::NorthWestEngland.id());
    assert_eq!(4_u8, Region::NorthEastEngland.id());
    assert_eq!(5_u8, Region::SouthYorkshire.id());
    assert_eq!(6_u8, Region::NorthWalesMerseysideAndCheshire.id());
    assert_eq!(7_u8, Region::SouthWales.id());
    assert_eq!(8_u8, Region::WestMidlands.id());
    assert_eq!(9_u8, Region::EastMidlands.id());
    assert_eq!(10_u8, Region::EastEngland.id());
    assert_eq!(11_u8, Region::SouthWestEngland.id());
    assert_eq!(12_u8, Region::SouthEngland.id());
    assert_eq!(13_u8, Region::London.id());
    assert_eq!(14_u8, Region::SouthEastEngland.id());
    assert_eq!(15_u8, Region::England.id());
    assert_eq!(16_u8, Region::Scotland.id());
    assert_eq!(17_u8, Region::Wales.id());
}

#[test]
fn from_str() {
    assert_eq!("1".parse::<Region>(), Ok(Region::NorthScotland));
    assert_eq!("2".parse::<Region>(), Ok(Region::SouthScotland));
    assert_eq!("3".parse::<Region>(), Ok(Region::NorthWestEngland));
    assert_eq!("4".parse::<Region>(), Ok(Region::NorthEastEngland));
    assert_eq!("5".parse::<Region>(), Ok(Region::SouthYorkshire));
    assert_eq!(
        "6".parse::<Region>(),
        Ok(Region::NorthWalesMerseysideAndCheshire)
    );
    assert_eq!("7".parse::<Region>(), Ok(Region::SouthWales));
    assert_eq!("8".parse::<Region>(), Ok(Region::WestMidlands));
    assert_eq!("9".parse::<Region>(), Ok(Region::EastMidlands));
    assert_eq!("10".parse::<Region>(), Ok(Region::EastEngland));
    assert_eq!("11".parse::<Region>(), Ok(Region::SouthWestEngland));
    assert_eq!("12".parse::<Region>(), Ok(Region::SouthEngland));
    assert_eq!("13".parse::<Region>(), Ok(Region::London));
    assert_eq!("14".parse::<Region>(), Ok(Region::SouthEastEngland));
    assert_eq!("15".parse::<Region>(), Ok(Region::England));
    assert_eq!("16".parse::<Region>(), Ok(Region::Scotland));
    assert_eq!("17".parse::<Region>(), Ok(Region::Wales));
}

#[test]
fn region_display() {
    assert_eq!(Region::NorthScotland.to_string(), "North Scotland");
    assert_eq!(Region::SouthScotland.to_string(), "South Scotland");
    assert_eq!(Region::NorthWestEngland.to_string(), "North West England");
    assert_eq!(Region::NorthEastEngland.to_string(), "North East England");
    assert_eq!(Region::SouthYorkshire.to_string(), "South Yorkshire");
    assert_eq!(
        Region::NorthWalesMerseysideAndCheshire.to_string(),
        "North Wales, Merseyside and Cheshire"
    );
    assert_eq!(Region::SouthWales.to_string(), "South Wales");
    assert_eq!(Region::WestMidlands.to_string(), "West Midlands");
    assert_eq!(Region::EastMidlands.to_string(), "East Midlands");
    assert_eq!(Region::EastEngland.to_string(), "East England");
    assert_eq!(Region::SouthWestEngland.to_string(), "South West England");
    assert_eq!(Region::SouthEngland.to_string(), "South England");
    assert_eq!(Region::London.to_string(), "London");
    assert_eq!(Region::SouthEastEngland.to_string(), "South East England");
    assert_eq!(Region::England.to_string(), "England");
    assert_eq!(Region::Scotland.to_string(), "Scotland");
    assert_eq!(Region::Wales.to_string(), "Wales");
}

#[test]
fn error_display() {
    assert_eq!(
        RegionError::ParseError.to_string(),
        "Failed to parse region id"
    );
    assert_eq!(
        RegionError::OutsideRange.to_string(),
        "Region id outside allowed range. Must be between 1 and 17 (inclusive)"
    );
}

#[test]
fn error_parse_int_conversion() {
    assert_eq!(parse_number_for_region(), Err(RegionError::ParseError));
}

#[test]
fn region_numbers_outside_range() {
    assert_eq!(Region::parse("0"), Err(RegionError::OutsideRange));
    assert_eq!(Region::parse("18"), Err(RegionError::OutsideRange));
    assert_eq!(Region::parse("255"), Err(RegionError::OutsideRange));
    assert_eq!("200".parse::<Region>(), Err(RegionError::OutsideRange));
}

#[test]
fn region_texts_that_are_no_number() {
    assert_eq!(Region::parse(""), Err(RegionError::ParseError));
    assert_eq!(Region::parse("+"), Err(RegionError::ParseError));
    assert_eq!(Region::parse("-1"), Err(RegionError::ParseError));
    assert_eq!(Region::parse(" 13"), Err(RegionError::ParseError));
    assert_eq!(Region::parse("13 "), Err(RegionError::ParseError));
    assert_eq!(Region::parse("1x"), Err(RegionError::ParseError));
    assert_eq!(Region::parse("BS7"), Err(RegionError::ParseError));
    assert_eq!(Region::parse("256"), Err(RegionError::ParseError));
    assert_eq!(Region::parse("1000000"), Err(RegionError::ParseError));
    assert_eq!(Region::parse("\u{ff11}\u{ff13}"), Err(RegionError::ParseError));
}

#[test]
fn region_numbers_with_sign_and_zeros() {
    assert_eq!(Region::parse("+13"), Ok(Region::London));
    assert_eq!(Region::parse("013"), Ok(Region::London));
    assert_eq!(Region::parse("+0000000000000017"), Ok(Region::Wales));
    assert_eq!(Region::parse("000"), Err(RegionError::OutsideRange));
}

#[test]
fn region_parse_agrees_with_std() {
    let texts = [
        "", "+", "-", "0", "1", "17", "18", "99", "255", "256", "300", "+5", "-5", "05", "5 ", "a",
        "1a", "+-1", "++1", "2550", "0255", "0256",
    ];
    for text in texts {
        let expected = match text.parse::<u8>() {
            Err(_) => Err(RegionError::ParseError),
            Ok(id) => match Region::from_id(id) {
                Some(region) => Ok(region),
                None => Err(RegionError::OutsideRange),
            },
        };
        assert_eq!(Region::parse(text), expected);
    }
}

#[test]
fn region_from_id_and_back() {
    for id in 0..=255_u8 {
        match Region::from_id(id) {
            Some(region) => {
                assert!((1..=17).contains(&id));
                assert_eq!(region.id(), id);
                assert_eq!(region.id_str(), id.to_string());
                assert_eq!(Region::parse(region.id_str()), Ok(region));
            }
            None => assert!(!(1..=17).contains(&id)),
        }
    }
}

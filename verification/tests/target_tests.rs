use carbonintensity::{Region, Target};

#[test]
fn target_from_region_number() {
    let target = Target::from("13".to_string());
    assert_eq!(target, Target::Region(Region::London));
    assert_eq!(Target::from("16".to_string()), Target::Region(Region::Scotland));
    assert_eq!(Target::from("1".to_string()), Target::Region(Region::NorthScotland));
    assert_eq!(Target::from("17".to_string()), Target::Region(Region::Wales));
    assert_eq!(Target::from("+7".to_string()), Target::Region(Region::SouthWales));
}

#[test]
fn target_from_postcode() {
    let target = Target::from("BS7".to_string());
    let bs7 = Target::Postcode("BS7".to_string());
    assert_eq!(target, bs7);
    assert_eq!(Target::from("bs7".to_string()), Target::Postcode("bs7".to_string()));
    // numbers that are no region, and texts of any length, are postcodes
    assert_eq!(Target::from("0".to_string()), Target::Postcode("0".to_string()));
    assert_eq!(Target::from("18".to_string()), Target::Postcode("18".to_string()));
    assert_eq!(Target::from("256".to_string()), Target::Postcode("256".to_string()));
    assert_eq!(Target::from(" ".to_string()), Target::Postcode(" ".to_string()));
    assert_eq!(
        Target::from("not a postcode at all".to_string()),
        Target::Postcode("not a postcode at all".to_string())
    );
    assert_eq!(Target::from("nationale".to_string()), Target::Postcode("nationale".to_string()));
    assert_eq!(Target::from("nationa".to_string()), Target::Postcode("nationa".to_string()));
    assert_eq!(Target::from("nati0nal".to_string()), Target::Postcode("nati0nal".to_string()));
    assert_eq!(Target::from("N@TIONAL".to_string()), Target::Postcode("N@TIONAL".to_string()));
    assert_eq!(
        Target::from("\u{212a}ational".to_string()),
        Target::Postcode("\u{212a}ational".to_string())
    );
}

#[test]
fn target_from_national() {
    assert_eq!(Target::from("".to_string()), Target::National);
    assert_eq!(Target::from("national".to_string()), Target::National);
    assert_eq!(Target::from("NATIONAL".to_string()), Target::National);
    assert_eq!(Target::from("National".to_string()), Target::National);
    assert_eq!(Target::from("nAtIoNaL".to_string()), Target::National);
}

#[test]
fn target_display() {
    assert_eq!(Target::Postcode("BS7".to_string()).to_string(), "postcode BS7");
    assert_eq!(Target::Region(Region::London).to_string(), "London");
    assert_eq!(
        Target::Region(Region::NorthWalesMerseysideAndCheshire).to_string(),
        "North Wales, Merseyside and Cheshire"
    );
    assert_eq!(Target::National.to_string(), "national");
    assert_eq!(Target::from(Target::National.to_string()), Target::National);
}

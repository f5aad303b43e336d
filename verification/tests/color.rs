use rrd::ops::graph::Color;

#[test]
fn parse_color_no_alpha() {
    assert_eq!(
        Color {
            red: 0x01,
            green: 0x23,
            blue: 0x45,
            alpha: None,
        },
        "#012345".parse().unwrap()
    )
}

#[test]
fn parse_color_with_alpha() {
    assert_eq!(
        Color {
            red: 0x01,
            green: 0x23,
            blue: 0x45,
            alpha: Some(0x67),
        },
        "#01234567".parse().unwrap()
    )
}

#[test]
fn parse_color_err_invalid_hex() {
    assert!("#0000ZZ".parse::<Color>().is_err());
}

#[test]
fn parse_color_err_no_prefix() {
    assert!("FFFFFF".parse::<Color>().is_err());
}

#[test]
fn parse_color_err_wrong_length() {
    // too short
    assert!("#FFFFF".parse::<Color>().is_err());
    // in between rgb and rgba
    assert!("#FFFFFFF".parse::<Color>().is_err());
    // too long
    assert!("#FFFFFFFFF".parse::<Color>().is_err());
}

#[test]
fn parse_color_channels() {
    assert_eq!(
        Color::parse("#010203").unwrap(),
        Color { red: 0x01, green: 0x02, blue: 0x03, alpha: None }
    );
    assert_eq!(
        Color::parse("#01020304").unwrap(),
        Color { red: 0x01, green: 0x02, blue: 0x03, alpha: Some(0x04) }
    );
}

#[test]
fn parse_color_takes_both_cases() {
    assert_eq!(
        Color::parse("#aBcDeF").unwrap(),
        Color { red: 0xab, green: 0xcd, blue: 0xef, alpha: None }
    );
    assert_eq!(
        Color::parse("#ffFF0099").unwrap(),
        Color { red: 0xff, green: 0xff, blue: 0x00, alpha: Some(0x99) }
    );
}

#[test]
fn parse_color_errors() {
    assert_eq!(Color::parse("").unwrap_err().0, "Invalid color");
    assert!(Color::parse("#").is_err());
    assert!(Color::parse("#01020G").is_err());
    assert!(Color::parse("#010203ZZ").is_err());
    assert!(Color::parse("#0102030").is_err());
    assert!(Color::parse(" #010203").is_err());
    assert!(Color::parse("#010203 ").is_err());
    assert!(Color::parse("#\u{e9}1020").is_err());
    assert!(Color::parse("#+10203").is_err());
    assert!(Color::parse("##010203").is_err());
}

#[test]
fn color_text_is_upper_case_with_two_digits_each() {
    let mut s = String::from("c");
    Color { red: 0x0a, green: 0xff, blue: 0x00, alpha: None }.append_to(&mut s);
    assert_eq!(s, "c#0AFF00");
    let mut s = String::new();
    Color { red: 0x9f, green: 0x10, blue: 0xe3, alpha: Some(0x07) }.append_to(&mut s);
    assert_eq!(s, "#9F10E307");
}

#[test]
fn color_text_reads_back() {
    for color in [
        Color { red: 0, green: 0, blue: 0, alpha: None },
        Color { red: 255, green: 254, blue: 1, alpha: Some(0) },
        Color { red: 18, green: 52, blue: 86, alpha: Some(255) },
    ] {
        let mut s = String::new();
        color.append_to(&mut s);
        assert_eq!(Color::parse(&s).unwrap(), color);
    }
}

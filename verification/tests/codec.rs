use id30::{Id30, Id30Parse, ParseError};

fn id(v: u32) -> Id30 {
    Id30::try_from(v).unwrap()
}

#[test]
fn display() {
    assert_eq!(id(0).encode(), "000000");
    assert_eq!(id(1).encode(), "000001");
    assert_eq!(id((1 << 30) - 1).encode(), "zzzzzz");

    assert_eq!(id(347485647).encode(), "abcdef");
}

#[test]
fn parse_id30() {
    assert_eq!("000000".parse(), Ok(id(0)));
    assert_eq!("000001".parse(), Ok(id(1)));
    assert_eq!("zzzzzz".parse(), Ok(id((1 << 30) - 1)));

    assert_eq!("abcdef".parse(), Ok(id(347485647)));
    assert_eq!("ABCDEF".parse(), Ok(id(347485647)));

    assert_eq!("0oO0oO".parse(), Ok(id(0)));
    assert_eq!("1lLiI1".parse(), Ok(id(34636833)));

    assert_eq!("00000!".parse::<Id30>(), Err(ParseError::InvalidCharacters));
    assert_eq!("00000".parse::<Id30>(), Err(ParseError::InvalidLength));
    assert_eq!("0000000".parse::<Id30>(), Err(ParseError::InvalidLength));
}

#[test]
fn parse_id30parse() {
    assert!(matches!(
        "000000".parse(),
        Ok(Id30Parse {
            id30,
            is_canonical: true,
        }) if id30 == id(0)
    ));
    assert!(matches!(
        "00oo00".parse(),
        Ok(Id30Parse {
            id30,
            is_canonical: false,
        }) if id30 == id(0)
    ));
}

#[test]
fn free_from_str_reports_canonical_flag() {
    let parse = id30::from_str("abcdef").unwrap();
    assert_eq!(parse.id30, id(347485647));
    assert!(parse.is_canonical);

    let parse = id30::from_str("aBcdef").unwrap();
    assert_eq!(parse.id30, id(347485647));
    assert!(!parse.is_canonical);
}

#[test]
fn round_trip_is_canonical() {
    for v in [
        0u32,
        1,
        2,
        31,
        32,
        1000,
        34636833,
        347485647,
        0x1234_5678,
        (1 << 30) - 2,
        (1 << 30) - 1,
    ] {
        let encoded = id(v).encode();
        let parse: Id30Parse = encoded.parse().unwrap();
        assert_eq!(parse.id30, id(v));
        assert!(parse.is_canonical);
    }
}

#[test]
fn encode_has_fixed_width() {
    for v in [0u32, 1, 31, 32, 1023, 347485647, (1 << 30) - 1] {
        assert_eq!(id(v).encode().len(), 6);
    }
}

#[test]
fn encode_preserves_order() {
    let values = [0u32, 1, 2, 31, 32, 33, 1000, 34636833, 347485647, (1 << 30) - 1];
    for a in values {
        for b in values {
            if a < b {
                assert!(id(a).encode() < id(b).encode());
            }
        }
    }
}

#[test]
fn aliases_decode_like_canonical() {
    // Each canonical string next to variants built from aliases and case.
    let cases = [
        ("000000", "oOoOoO"),
        ("111111", "iIlL1i"),
        ("abcdef", "ABCDEF"),
        ("ssssss", "SSSSSS"),
        ("zzzzzz", "ZZZZZZ"),
    ];
    for (canonical, variant) in cases {
        let c: Id30Parse = canonical.parse().unwrap();
        let v: Id30Parse = variant.parse().unwrap();
        assert_eq!(c.id30, v.id30);
        assert!(c.is_canonical);
        assert!(!v.is_canonical);
    }
}

#[test]
fn with_str_passes_the_encoding() {
    let got = id30::with_str(&id(347485647), |s: &str| s.to_owned());
    assert_eq!(got, "abcdef");

    let len = id30::with_str(&id(0), |s: &str| s.len());
    assert_eq!(len, 6);
}

#[test]
fn confusable_scenarios() {
    let p: Id30Parse = "0oO0oO".parse().unwrap();
    assert_eq!(u32::from(p.id30), 0);
    assert!(!p.is_canonical);

    let p: Id30Parse = "1lLiI1".parse().unwrap();
    assert_eq!(u32::from(p.id30), 34636833);
    assert!(!p.is_canonical);

    let p: Id30Parse = "ABCDEF".parse().unwrap();
    assert_eq!(u32::from(p.id30), 347485647);
    assert!(!p.is_canonical);
}

#[test]
fn wrong_length_rejected_before_content() {
    // Length is checked first: even garbage bytes give InvalidLength.
    assert_eq!("!!!!!".parse::<Id30>(), Err(ParseError::InvalidLength));
    assert_eq!("!!!!!!!".parse::<Id30>(), Err(ParseError::InvalidLength));
    assert_eq!("".parse::<Id30>(), Err(ParseError::InvalidLength));
    assert_eq!("zzzzz".parse::<Id30>(), Err(ParseError::InvalidLength));
    assert_eq!("zzzzzzz".parse::<Id30>(), Err(ParseError::InvalidLength));
}

#[test]
fn bytes_outside_alphabet_rejected() {
    // u and U are not part of the alphabet, nor are punctuation or non-ASCII.
    assert_eq!("00000u".parse::<Id30>(), Err(ParseError::InvalidCharacters));
    assert_eq!("U00000".parse::<Id30>(), Err(ParseError::InvalidCharacters));
    assert_eq!("ab cd!".parse::<Id30>(), Err(ParseError::InvalidCharacters));
    // A non-ASCII character: two bytes, neither in the alphabet. The string
    // below is six bytes long, so it reaches the character check.
    assert_eq!("\u{e9}0000".parse::<Id30>(), Err(ParseError::InvalidCharacters));
}

use siblings::region::{Regions, UnsupportedRegion};

fn rejected(s: &str) -> UnsupportedRegion {
    match Regions::parse(s) {
        Ok(r) => panic!("{s:?} was read as {r:?}"),
        Err(e) => e,
    }
}

#[test]
fn parse_reads_the_four_aliases() {
    assert_eq!(Regions::parse("IN").unwrap(), Regions::IN);
    assert_eq!(Regions::parse("IND").unwrap(), Regions::IN);
    assert_eq!(Regions::parse("US").unwrap(), Regions::US);
    assert_eq!(Regions::parse("USA").unwrap(), Regions::US);
}

#[test]
fn parse_ignores_letter_case() {
    assert_eq!(Regions::parse("in").unwrap(), Regions::IN);
    assert_eq!(Regions::parse("Ind").unwrap(), Regions::IN);
    assert_eq!(Regions::parse("iNd").unwrap(), Regions::IN);
    assert_eq!(Regions::parse("us").unwrap(), Regions::US);
    assert_eq!(Regions::parse("uSa").unwrap(), Regions::US);
}

#[test]
fn parse_rejects_everything_else() {
    for s in ["", "EU", "INDIA", "I", "U", "USAA", " IN", "IN ", "U S", "UK", "I-N"] {
        assert_eq!(rejected(s).region, s);
    }
}

#[test]
fn parse_folds_ascii_letters_only() {
    // A dotless i and a long s have I and S as their upper case in Unicode,
    // but they are no ASCII letters.
    assert_eq!(rejected("\u{131}n").region, "\u{131}n");
    assert_eq!(rejected("u\u{17f}").region, "u\u{17f}");
}

#[test]
fn unsupported_region_message() {
    assert_eq!(rejected("EU").message(), "Region EU not supported");
    assert_eq!(rejected("").message(), "Region  not supported");
}

#[test]
fn parse_request_passes_absence_through() {
    assert_eq!(Regions::parse_request(None).unwrap(), None);
    assert_eq!(Regions::parse_request(Some("usa")).unwrap(), Some(Regions::US));
    assert_eq!(Regions::parse_request(Some("IND")).unwrap(), Some(Regions::IN));
    match Regions::parse_request(Some("apac")) {
        Ok(r) => panic!("read as {r:?}"),
        Err(e) => assert_eq!(e.region, "apac"),
    }
}

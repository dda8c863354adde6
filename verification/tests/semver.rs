use hpydev::decimal::{digit_text, digit_value, parse_u64, push_decimal};
use hpydev::semver::{BuildMetadata, PreRelease, SemanticVersion, VersionParseError};

fn numbers(major: u64, minor: u64, patch: Option<u64>) -> SemanticVersion {
    SemanticVersion {
        major,
        minor,
        patch,
        pre_release: None,
        build_metadata: None,
    }
}

#[test]
fn parse() {
    assert_eq!(
        "v0.1.2".parse::<SemanticVersion>().ok(),
        Some(SemanticVersion {
            major: 0,
            minor: 1,
            patch: Some(2),
            ..Default::default()
        })
    );
    // without prefix v
    assert_eq!(
        "0.1.2".parse::<SemanticVersion>().ok(),
        Some(SemanticVersion {
            major: 0,
            minor: 1,
            patch: Some(2),
            ..Default::default()
        })
    );
    assert_eq!(
        "0.1".parse::<SemanticVersion>().ok(),
        Some(SemanticVersion {
            major: 0,
            minor: 1,
            patch: None,
            ..Default::default()
        })
    );
}

#[test]
fn format() {
    let v = SemanticVersion {
        major: 1,
        minor: 2,
        patch: Some(3),
        ..Default::default()
    };

    assert_eq!(v.format_without_prefix(), "1.2.3",);

    let v = SemanticVersion {
        major: 1,
        minor: 2,
        patch: None,
        ..Default::default()
    };

    assert_eq!(v.format_without_prefix(), "1.2",);
}

#[test]
fn default_is_0_1_0() {
    let v = SemanticVersion::default();
    assert_eq!(v.major, 0);
    assert_eq!(v.minor, 1);
    assert_eq!(v.patch, Some(0));
    assert!(v.pre_release.is_none());
    assert!(v.build_metadata.is_none());
}

#[test]
fn round_trip_of_rendering() {
    for v in [
        numbers(1, 15, Some(0)),
        numbers(0, 0, None),
        numbers(10, 200, Some(3000)),
        numbers(u64::MAX, u64::MAX, Some(u64::MAX)),
        numbers(7, 0, Some(0)),
    ] {
        let text = v.format_without_prefix();
        assert_eq!(SemanticVersion::parse(&text), Ok(v.clone()));
        assert_eq!(SemanticVersion::parse(&text).unwrap().format_without_prefix(), text);
        assert_eq!(SemanticVersion::parse(&v.to_string()), Ok(v));
    }
}

#[test]
fn round_trip_example() {
    let v = SemanticVersion::parse("1.15.0").unwrap();
    assert_eq!(v, numbers(1, 15, Some(0)));
    assert_eq!(v.format_without_prefix(), "1.15.0");
}

#[test]
fn prefix_is_tolerated() {
    assert_eq!(SemanticVersion::parse("v0.1.2"), SemanticVersion::parse("0.1.2"));
    assert_eq!(SemanticVersion::parse("v0.1.2"), Ok(numbers(0, 1, Some(2))));
    assert_eq!(SemanticVersion::parse("v1"), SemanticVersion::parse("1"));
    assert_eq!(SemanticVersion::parse("vx.y"), SemanticVersion::parse("x.y"));
}

#[test]
fn only_one_prefix_is_taken() {
    assert_eq!(SemanticVersion::parse("vv1.2"), Err(VersionParseError::InvalidNumber));
    assert_eq!(SemanticVersion::parse("V1.2"), Err(VersionParseError::InvalidNumber));
}

#[test]
fn one_component_is_too_few() {
    assert_eq!(SemanticVersion::parse("1"), Err(VersionParseError::InvalidFormat));
    assert_eq!(SemanticVersion::parse("v1"), Err(VersionParseError::InvalidFormat));
    assert_eq!(SemanticVersion::parse(""), Err(VersionParseError::InvalidFormat));
    assert_eq!(SemanticVersion::parse("v"), Err(VersionParseError::InvalidFormat));
    assert_eq!(SemanticVersion::parse("abc"), Err(VersionParseError::InvalidFormat));
}

#[test]
fn patch_is_optional() {
    let v = SemanticVersion::parse("0.1").unwrap();
    assert_eq!(v.patch, None);
    assert_eq!(v.format_without_prefix(), "0.1");
    assert_eq!(v.to_string(), "v0.1");
}

#[test]
fn numbers_that_are_none() {
    for text in [
        "1.x",
        "x.1",
        "1.",
        ".1",
        ".",
        "1..2",
        "1.2.",
        "1.2.x",
        "1.2.3-beta",
        "1.2-rc.1",
        "1.2.3+build",
        "-1.2",
        "1.-2",
        "1 .2",
        "1.2 ",
        "+.2",
        "1.+",
        "18446744073709551616.0",
        "0.18446744073709551616",
        "0.0.99999999999999999999999",
        "١.٢",
    ] {
        assert_eq!(
            SemanticVersion::parse(text),
            Err(VersionParseError::InvalidNumber),
            "{:?}",
            text
        );
    }
}

#[test]
fn numbers_as_the_standard_library_reads_them() {
    assert_eq!(SemanticVersion::parse("+1.+2.+3"), Ok(numbers(1, 2, Some(3))));
    assert_eq!(SemanticVersion::parse("01.002.0003"), Ok(numbers(1, 2, Some(3))));
    assert_eq!(
        SemanticVersion::parse("18446744073709551615.0"),
        Ok(numbers(u64::MAX, 0, None))
    );
    assert_eq!(
        SemanticVersion::parse("000018446744073709551615.0"),
        Ok(numbers(u64::MAX, 0, None))
    );
    for text in [
        "0",
        "7",
        "+7",
        "007",
        "",
        "+",
        "++7",
        "-7",
        "7a",
        " 7",
        "7.0",
        "é7",
        "18446744073709551615",
        "18446744073709551616",
        "99999999999999999999",
    ] {
        let expected = text.parse::<u64>().ok();
        assert_eq!(parse_u64(text), expected, "{:?}", text);
    }
}

#[test]
fn components_after_the_third_are_ignored() {
    assert_eq!(SemanticVersion::parse("1.2.3.4"), Ok(numbers(1, 2, Some(3))));
    assert_eq!(SemanticVersion::parse("v1.2.3.x.y"), Ok(numbers(1, 2, Some(3))));
}

#[test]
fn rendering_with_prefix() {
    assert_eq!(numbers(1, 2, Some(3)).to_string(), "v1.2.3");
    assert_eq!(numbers(1, 2, None).to_string(), "v1.2");
    assert_eq!(numbers(0, 0, Some(0)).to_string(), "v0.0.0");
    assert_eq!(
        numbers(u64::MAX, 10, Some(100)).to_string(),
        "v18446744073709551615.10.100"
    );
}

#[test]
fn equality_is_structural() {
    let plain = numbers(1, 2, Some(3));
    assert!(plain == numbers(1, 2, Some(3)));
    assert!(plain != numbers(1, 2, None));
    assert!(plain != numbers(1, 2, Some(4)));
    assert!(plain != numbers(1, 3, Some(3)));
    assert!(plain != numbers(2, 2, Some(3)));
    let tagged = |pre: &str, build: &str| SemanticVersion {
        major: 1,
        minor: 2,
        patch: Some(3),
        pre_release: Some(PreRelease { raw: pre.to_string() }),
        build_metadata: Some(BuildMetadata { raw: build.to_string() }),
    };
    assert!(tagged("rc.1", "5") == tagged("rc.1", "5"));
    assert!(tagged("rc.1", "5") != tagged("rc.2", "5"));
    assert!(tagged("rc.1", "5") != tagged("rc.1", "6"));
    assert!(tagged("rc.1", "5") != plain);
    assert!(PreRelease { raw: "a".to_string() } == PreRelease { raw: "a".to_string() });
    assert!(BuildMetadata { raw: "a".to_string() } != BuildMetadata { raw: "b".to_string() });
}

#[test]
fn decimal_digits() {
    assert_eq!(digit_value('0'), Some(0));
    assert_eq!(digit_value('9'), Some(9));
    assert_eq!(digit_value('a'), None);
    assert_eq!(digit_value('+'), None);
    assert_eq!(digit_text(0), "0");
    assert_eq!(digit_text(5), "5");
    assert_eq!(digit_text(9), "9");
    let mut out = String::from("n=");
    push_decimal(&mut out, 0);
    push_decimal(&mut out, 1234567890);
    assert_eq!(out, "n=01234567890");
}

#[test]
fn numbers_between_other_characters() {
    assert_eq!(SemanticVersion::parse("é.1"), Err(VersionParseError::InvalidNumber));
    assert_eq!(SemanticVersion::parse("1.2.3.é"), Ok(numbers(1, 2, Some(3))));
    assert_eq!(SemanticVersion::parse("v12.345.6789.é"), Ok(numbers(12, 345, Some(6789))));
}

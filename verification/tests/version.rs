use pvb::version::{Increment, Version};

#[test]
fn test_version_from_str() {
    let version = Version::from_str("1.2.3");
    assert_eq!(version.major, 1);
    assert_eq!(version.minor, 2);
    assert_eq!(version.patch, 3);
}

#[test]
fn test_version_increment_major() {
    let mut version = Version::from_str("1.2.3");
    version.increment_major();
    assert_eq!(version.major, 2);
    assert_eq!(version.minor, 0);
    assert_eq!(version.patch, 0);
}

#[test]
fn test_version_increment_minor() {
    let mut version = Version::from_str("1.2.3");
    version.increment_minor();
    assert_eq!(version.major, 1);
    assert_eq!(version.minor, 3);
    assert_eq!(version.patch, 0);
}

#[test]
fn test_version_increment_patch() {
    let mut version = Version::from_str("1.2.3");
    version.increment_patch();
    assert_eq!(version.major, 1);
    assert_eq!(version.minor, 2);
    assert_eq!(version.patch, 4);
}

#[test]
fn test_version_display() {
    let version = Version::from_str("1.2.3");
    assert_eq!(version.to_string(), "1.2.3");
}

#[test]
fn new_keeps_the_components() {
    let version = Version::new(7, 8, 9);
    assert_eq!(version, Version { major: 7, minor: 8, patch: 9 });
}

#[test]
fn missing_parts_count_as_zero() {
    assert_eq!(Version::from_str(""), Version::new(0, 0, 0));
    assert_eq!(Version::from_str("4"), Version::new(4, 0, 0));
    assert_eq!(Version::from_str("4.5"), Version::new(4, 5, 0));
    assert_eq!(Version::from_str("4.5."), Version::new(4, 5, 0));
    assert_eq!(Version::from_str("..6"), Version::new(0, 0, 6));
    assert_eq!(Version::from_str("1..3"), Version::new(1, 0, 3));
}

#[test]
fn parts_that_are_no_numbers_count_as_zero() {
    assert_eq!(Version::from_str("a.b.c"), Version::new(0, 0, 0));
    assert_eq!(Version::from_str("1.x.3"), Version::new(1, 0, 3));
    assert_eq!(Version::from_str("1.2.3-beta"), Version::new(1, 2, 0));
    assert_eq!(Version::from_str("v1.2.3"), Version::new(0, 2, 3));
    assert_eq!(Version::from_str(" 1.2.3"), Version::new(0, 2, 3));
    assert_eq!(Version::from_str("1.2.3\n"), Version::new(1, 2, 0));
    assert_eq!(Version::from_str("-1.2.3"), Version::new(0, 2, 3));
    assert_eq!(Version::from_str("1.+.3"), Version::new(1, 0, 3));
    assert_eq!(Version::from_str("1.++2.3"), Version::new(1, 0, 3));
    assert_eq!(Version::from_str("٣.2.3"), Version::new(0, 2, 3));
}

#[test]
fn a_leading_plus_and_leading_zeros_are_read() {
    assert_eq!(Version::from_str("+1.+2.+3"), Version::new(1, 2, 3));
    assert_eq!(Version::from_str("01.002.0003"), Version::new(1, 2, 3));
    assert_eq!(Version::from_str("0.0.0"), Version::new(0, 0, 0));
}

#[test]
fn parts_beyond_the_third_are_ignored() {
    assert_eq!(Version::from_str("1.2.3.4"), Version::new(1, 2, 3));
    assert_eq!(Version::from_str("1.2.3.x.y"), Version::new(1, 2, 3));
}

#[test]
fn a_number_too_large_counts_as_zero() {
    assert_eq!(
        Version::from_str("18446744073709551615.2.3"),
        Version::new(u64::MAX, 2, 3)
    );
    assert_eq!(Version::from_str("18446744073709551616.2.3"), Version::new(0, 2, 3));
    assert_eq!(
        Version::from_str("1.99999999999999999999999999.3"),
        Version::new(1, 0, 3)
    );
    assert_eq!(
        Version::from_str("1.2.000000000000000000000000000007"),
        Version::new(1, 2, 7)
    );
}

#[test]
fn reading_agrees_with_the_standard_integer_parser() {
    let parts = [
        "", "0", "7", "+7", "-7", "+", "-", "++7", "007", "7a", "a7", " 7", "7 ", "1_000",
        "18446744073709551615", "18446744073709551616", "+18446744073709551615", "0x10", "१",
    ];
    for part in parts {
        let text = format!("{}.{}.{}", part, part, part);
        let expected = part.parse::<u64>().unwrap_or(0);
        assert_eq!(
            Version::from_str(&text),
            Version::new(expected, expected, expected),
            "for {:?}",
            part
        );
    }
}

#[test]
fn the_text_is_the_three_numerals_joined_by_dots() {
    assert_eq!(Version::new(0, 0, 0).to_string(), "0.0.0");
    assert_eq!(Version::new(0, 10, 0).to_string(), "0.10.0");
    assert_eq!(Version::new(12, 345, 6789).to_string(), "12.345.6789");
    assert_eq!(
        Version::new(u64::MAX, 0, u64::MAX).to_string(),
        "18446744073709551615.0.18446744073709551615"
    );
}

#[test]
fn reading_the_text_of_a_version_gives_it_back() {
    let samples = [0u64, 1, 9, 10, 11, 99, 100, 1234567890, u64::MAX - 1, u64::MAX];
    for major in samples {
        for minor in samples {
            for patch in samples {
                let version = Version::new(major, minor, patch);
                assert_eq!(version.to_string(), format!("{}.{}.{}", major, minor, patch));
                assert_eq!(Version::from_str(&version.to_string()), version);
            }
        }
    }
}

#[test]
fn a_major_bump_resets_minor_and_patch_whatever_they_were() {
    for (minor, patch) in [(0u64, 0u64), (5, 0), (0, 5), (u64::MAX, u64::MAX)] {
        let mut version = Version::new(41, minor, patch);
        version.increment_major();
        assert_eq!(version, Version::new(42, 0, 0));
    }
}

#[test]
fn a_minor_bump_does_not_carry_into_major() {
    let mut version = Version::from_str("0.9.9");
    version.increment_minor();
    assert_eq!(version, Version::new(0, 10, 0));
    assert_eq!(version.to_string(), "0.10.0");
}

#[test]
fn a_patch_bump_changes_only_the_patch() {
    let mut version = Version::new(u64::MAX, u64::MAX, 8);
    version.increment_patch();
    assert_eq!(version, Version::new(u64::MAX, u64::MAX, 9));
}

#[test]
fn increments_are_distinct() {
    assert_ne!(Increment::Major, Increment::Minor);
    assert_ne!(Increment::Minor, Increment::Patch);
}

#[test]
fn test_version_serialize() {
    let version = Version::from_str("1.2.3");
    let serialized = serde_json::to_string(&version.to_value()).unwrap();
    assert_eq!(serialized, "\"1.2.3\"");
}

#[test]
fn test_version_deserialize() {
    let value: serde_json::Value = serde_json::from_str("\"1.2.3\"").unwrap();
    let version = Version::from_value(&value).unwrap();
    assert_eq!(version.major, 1);
    assert_eq!(version.minor, 2);
    assert_eq!(version.patch, 3);
}

#[test]
fn a_value_that_is_no_text_denotes_no_version() {
    for text in ["3", "null", "true", "[\"1.2.3\"]", "{\"version\": \"1.2.3\"}"] {
        let value: serde_json::Value = serde_json::from_str(text).unwrap();
        assert_eq!(Version::from_value(&value), None, "for {}", text);
    }
}

#[test]
fn versions_are_ordered_by_major_then_minor_then_patch() {
    let ordered = [
        Version::new(0, 0, 0),
        Version::new(0, 0, 1),
        Version::new(0, 1, 0),
        Version::new(0, 9, 9),
        Version::new(0, 10, 0),
        Version::new(1, 0, 0),
        Version::new(1, 0, u64::MAX),
        Version::new(2, 0, 0),
        Version::new(u64::MAX, u64::MAX, u64::MAX),
    ];
    for (i, a) in ordered.iter().enumerate() {
        for (j, b) in ordered.iter().enumerate() {
            assert_eq!(a.partial_cmp(b), Some(i.cmp(&j)), "{:?} and {:?}", a, b);
            assert_eq!(a < b, i < j);
            assert_eq!(a == b, i == j);
            assert_eq!(a >= b, i >= j);
        }
    }
}

#[test]
fn every_bump_leads_to_a_later_version() {
    for start in [Version::new(0, 0, 0), Version::new(3, 7, 9), Version::new(0, u64::MAX - 1, 5)] {
        for increment in [Increment::Major, Increment::Minor, Increment::Patch] {
            let mut version = start;
            match increment {
                Increment::Major => version.increment_major(),
                Increment::Minor => version.increment_minor(),
                Increment::Patch => version.increment_patch(),
            }
            assert!(start < version);
        }
    }
}

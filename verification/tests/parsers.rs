use scraper::error::ParseError;
use scraper::models::Degrees;
use scraper::parsers::{
    altitude_from_groups, coordinates_from_groups, dms_to_dec, extract_altitude_info,
    wind_directions,
};

fn strings(items: &[&str]) -> Vec<String> {
    items.iter().map(|s| s.to_string()).collect()
}

fn decimal(angle: Degrees) -> f64 {
    angle.arcseconds as f64 / 3600.0
}

#[test]
fn dms_gives_decimal_degrees() {
    let (latitude, longitude) = dms_to_dec("N 60° 38' 44''  E 6° 24' 28''").unwrap();
    assert!((decimal(latitude) - 60.645556).abs() < 1e-4);
    assert!((decimal(longitude) - 6.407778).abs() < 1e-4);
}

#[test]
fn dms_is_exact_in_arcseconds() {
    let (latitude, longitude) = dms_to_dec("DMS: N 60° 38' 44''  E 6° 24' 28''").unwrap();
    assert_eq!(latitude, Degrees { arcseconds: 60 * 3600 + 38 * 60 + 44 });
    assert_eq!(longitude, Degrees { arcseconds: 6 * 3600 + 24 * 60 + 28 });
    assert_eq!(latitude.arcseconds, 218_324);
    assert_eq!(longitude.arcseconds, 23_068);
}

#[test]
fn dms_with_fewer_than_six_groups_is_a_format_error() {
    assert_eq!(dms_to_dec("N 60° 38' 44''  E 6° 24'"), Err(ParseError::Format));
    assert_eq!(dms_to_dec("no numbers here"), Err(ParseError::Format));
    assert_eq!(dms_to_dec(""), Err(ParseError::Format));
}

#[test]
fn dms_ignores_groups_after_the_sixth() {
    assert_eq!(
        dms_to_dec("1 2 3 4 5 6 7 8"),
        Ok((Degrees { arcseconds: 3723 }, Degrees { arcseconds: 4 * 3600 + 5 * 60 + 6 }))
    );
}

#[test]
fn dms_takes_groups_of_any_size_that_the_angle_can_hold() {
    assert_eq!(
        dms_to_dec("4294967296 0 0 0 0 0"),
        Ok((Degrees { arcseconds: 4_294_967_296u64 * 3600 }, Degrees { arcseconds: 0 }))
    );
    // Fifteen digits in every group.
    let most = 999_999_999_999_999u64;
    assert_eq!(
        dms_to_dec("999999999999999 999999999999999 999999999999999 0 0 999999999999999"),
        Ok((Degrees { arcseconds: most * 3661 }, Degrees { arcseconds: most }))
    );
    // The greatest angle: u64::MAX arc-seconds.
    assert_eq!(
        dms_to_dec("0 0 18446744073709551615 5124095576030431 0 15"),
        Ok((Degrees { arcseconds: u64::MAX }, Degrees { arcseconds: u64::MAX }))
    );
    assert_eq!(
        dms_to_dec("000000000000000000000060 38 44 6 24 28"),
        Ok((Degrees { arcseconds: 218_324 }, Degrees { arcseconds: 23_068 }))
    );
}

#[test]
fn dms_rejects_an_angle_that_is_too_large_to_hold() {
    assert_eq!(dms_to_dec("0 0 18446744073709551616 0 0 0"), Err(ParseError::Format));
    assert_eq!(dms_to_dec("0 0 0 5124095576030431 0 16"), Err(ParseError::Format));
    assert_eq!(dms_to_dec("5124095576030432 0 0 0 0 0"), Err(ParseError::Format));
    assert_eq!(
        dms_to_dec("99999999999999999999999999999999999999999 0 0 0 0 0"),
        Err(ParseError::Format)
    );
}

#[test]
fn digit_groups_are_runs_of_ascii_digits() {
    // Digits of other scripts are no digit groups.
    assert_eq!(
        dms_to_dec("٣ N 60° 38' 44''  E 6° 24' 28''"),
        Ok((Degrees { arcseconds: 218_324 }, Degrees { arcseconds: 23_068 }))
    );
    assert_eq!(extract_altitude_info("٣٣ 12a34"), Ok((Some(12), Some(34))));
}

#[test]
fn coordinates_from_groups_reads_six_numerals() {
    assert_eq!(
        coordinates_from_groups(&strings(&["60", "38", "44", "6", "24", "28"])),
        Ok((Degrees { arcseconds: 218_324 }, Degrees { arcseconds: 23_068 }))
    );
    assert_eq!(
        coordinates_from_groups(&strings(&["60", "38", "44", "6", "24"])),
        Err(ParseError::Format)
    );
    assert_eq!(
        coordinates_from_groups(&strings(&["60", "38", "x", "6", "24", "28"])),
        Err(ParseError::Format)
    );
    assert_eq!(
        coordinates_from_groups(&strings(&["60", "38", "", "6", "24", "28"])),
        Err(ParseError::Format)
    );
    assert_eq!(
        coordinates_from_groups(&strings(&["007", "0", "0", "0", "0", "1", "junk"])),
        Ok((Degrees { arcseconds: 7 * 3600 }, Degrees { arcseconds: 1 }))
    );
}

#[test]
fn altitude_and_difference() {
    assert_eq!(
        extract_altitude_info("790 meters asl Top to bottom 740 meters"),
        Ok((Some(790), Some(740)))
    );
}

#[test]
fn altitude_without_numbers() {
    assert_eq!(extract_altitude_info("no numbers here"), Ok((None, None)));
    assert_eq!(extract_altitude_info(""), Ok((None, None)));
}

#[test]
fn altitude_alone() {
    assert_eq!(extract_altitude_info("500 meters"), Ok((Some(500), None)));
}

#[test]
fn altitude_ignores_groups_after_the_second() {
    assert_eq!(extract_altitude_info("1 2 3 99999999999"), Ok((Some(1), Some(2))));
}

#[test]
fn altitude_that_does_not_fit_is_a_format_error() {
    assert_eq!(extract_altitude_info("2147483647 meters"), Ok((Some(2147483647), None)));
    assert_eq!(extract_altitude_info("2147483648 meters"), Err(ParseError::Format));
    assert_eq!(extract_altitude_info("5 meters, 99999999999 down"), Err(ParseError::Format));
}

#[test]
fn altitude_from_groups_reads_up_to_two_numerals() {
    assert_eq!(altitude_from_groups(&Vec::new()), Ok((None, None)));
    assert_eq!(altitude_from_groups(&strings(&["12"])), Ok((Some(12), None)));
    assert_eq!(altitude_from_groups(&strings(&["12", "0"])), Ok((Some(12), Some(0))));
    assert_eq!(altitude_from_groups(&strings(&["12", "-3"])), Err(ParseError::Format));
    assert_eq!(altitude_from_groups(&strings(&["+12"])), Err(ParseError::Format));
    assert_eq!(altitude_from_groups(&strings(&["12", "3", "x"])), Ok((Some(12), Some(3))));
}

#[test]
fn wind_directions_are_the_words_of_the_alt_text() {
    assert_eq!(wind_directions("N NE E"), strings(&["N", "NE", "E"]));
    assert_eq!(wind_directions("  S   SW \t W\n"), strings(&["S", "SW", "W"]));
    assert_eq!(wind_directions(""), Vec::<String>::new());
    assert_eq!(wind_directions("   "), Vec::<String>::new());
    assert_eq!(wind_directions("NW"), strings(&["NW"]));
}

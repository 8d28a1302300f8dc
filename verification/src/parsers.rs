use crate::error::ParseError;
use crate::models::Degrees;
use crate::pattern::{find_all, is_pattern, matches_of};
use crate::text::{chars_of, is_numeral, numeral_value, parse_numeral, split_words, words};
use vstd::prelude::*;

verus! {

/// The pattern of one group of decimal digits.
pub const DIGIT_GROUP: &'static str = "([0-9]+)";

/// The greatest altitude figure that a record can hold.
pub const MAX_ALTITUDE: u64 = 2_147_483_647;

/// The number of arc-seconds in `degrees`, `minutes` and `seconds`.
pub open spec fn arcseconds_of(degrees: Seq<char>, minutes: Seq<char>, seconds: Seq<char>) -> nat {
    3600 * numeral_value(degrees) + 60 * numeral_value(minutes) + numeral_value(seconds)
}

/// Whether three digit groups give an angle that [`Degrees`] can hold: each
/// is a numeral, and together they are no more than `u64::MAX` arc-seconds.
pub open spec fn is_angle(degrees: Seq<char>, minutes: Seq<char>, seconds: Seq<char>) -> bool {
    &&& is_numeral(degrees)
    &&& is_numeral(minutes)
    &&& is_numeral(seconds)
    &&& arcseconds_of(degrees, minutes, seconds) <= u64::MAX
}

/// Whether `group` is a numeral that an altitude figure can hold.
pub open spec fn is_altitude(group: Seq<char>) -> bool {
    is_numeral(group) && numeral_value(group) <= MAX_ALTITUDE
}

/// The angle of `degrees`, `minutes` and `seconds`:
/// `degrees + minutes / 60 + seconds / 3600` degrees.
pub open spec fn angle(degrees: Seq<char>, minutes: Seq<char>, seconds: Seq<char>) -> Degrees {
    Degrees { arcseconds: arcseconds_of(degrees, minutes, seconds) as u64 }
}

/// The position that six digit groups give: north degrees, minutes and
/// seconds, then east degrees, minutes and seconds. Further groups are
/// ignored. With fewer than six groups there is no position, nor with
/// groups that are no numerals or give an angle too large to hold.
pub open spec fn coordinates_of(groups: Seq<Seq<char>>) -> Result<(Degrees, Degrees), ParseError> {
    if groups.len() >= 6 && is_angle(groups[0], groups[1], groups[2]) && is_angle(
        groups[3],
        groups[4],
        groups[5],
    ) {
        Ok((angle(groups[0], groups[1], groups[2]), angle(groups[3], groups[4], groups[5])))
    } else {
        Err(ParseError::Format)
    }
}

/// The figure that the digit group at `index` gives, if there is one.
pub open spec fn figure_at(groups: Seq<Seq<char>>, index: int) -> Option<i32> {
    if index < groups.len() {
        Some(numeral_value(groups[index]) as i32)
    } else {
        None
    }
}

/// The altitude and the altitude difference that digit groups give: the
/// first group, if any, is the altitude, and the second, if any, the
/// difference. Further groups are ignored. A group among the first two that
/// is no numeral or too large is an error.
pub open spec fn altitude_of(groups: Seq<Seq<char>>) -> Result<
    (Option<i32>, Option<i32>),
    ParseError,
> {
    if forall|i: int| 0 <= i < groups.len() && i < 2 ==> is_altitude(#[trigger] groups[i]) {
        Ok((figure_at(groups, 0), figure_at(groups, 1)))
    } else {
        Err(ParseError::Format)
    }
}

/// The position written in `text`: the one that its digit groups give.
pub open spec fn position_in(text: Seq<char>) -> Result<(Degrees, Degrees), ParseError> {
    if is_pattern(DIGIT_GROUP@) {
        coordinates_of(matches_of(DIGIT_GROUP@, text))
    } else {
        Err(ParseError::Pattern)
    }
}

/// The altitude figures written in `text`: those that its digit groups give.
pub open spec fn altitude_in(text: Seq<char>) -> Result<(Option<i32>, Option<i32>), ParseError> {
    if is_pattern(DIGIT_GROUP@) {
        altitude_of(matches_of(DIGIT_GROUP@, text))
    } else {
        Err(ParseError::Pattern)
    }
}

/// Reads one angle from its three digit groups.
fn read_angle(degrees: &String, minutes: &String, seconds: &String) -> (out: Option<Degrees>)
    ensures
        out is Some <==> is_angle(degrees@, minutes@, seconds@),
        out matches Some(value) ==> value == angle(degrees@, minutes@, seconds@),
{
    let d = match parse_numeral(&chars_of(degrees.as_str()), u64::MAX) {
        Some(d) => d,
        None => {
            return None;
        },
    };
    let m = match parse_numeral(&chars_of(minutes.as_str()), u64::MAX) {
        Some(m) => m,
        None => {
            return None;
        },
    };
    let s = match parse_numeral(&chars_of(seconds.as_str()), u64::MAX) {
        Some(s) => s,
        None => {
            return None;
        },
    };
    let total: u128 = 3600 * (d as u128) + 60 * (m as u128) + (s as u128);
    if total > u64::MAX as u128 {
        return None;
    }
    Some(Degrees { arcseconds: total as u64 })
}

/// Builds latitude and longitude from the digit groups of a coordinate text.
pub fn coordinates_from_groups(groups: &Vec<String>) -> (out: Result<(Degrees, Degrees), ParseError>)
    ensures
        out == coordinates_of(groups.deep_view()),
{
    if groups.len() < 6 {
        return Err(ParseError::Format);
    }
    let latitude = match read_angle(&groups[0], &groups[1], &groups[2]) {
        Some(angle) => angle,
        None => {
            return Err(ParseError::Format);
        },
    };
    let longitude = match read_angle(&groups[3], &groups[4], &groups[5]) {
        Some(angle) => angle,
        None => {
            return Err(ParseError::Format);
        },
    };
    Ok((latitude, longitude))
}

/// Convert a string of DMS coordinates to latitude and longitude.
///
/// The digit groups of `text` (e.g. `DMS: N 60° 38' 44''  E 6° 24' 28''`) are
/// found with [`DIGIT_GROUP`]; the first six give the position.
pub fn dms_to_dec(text: &str) -> (out: Result<(Degrees, Degrees), ParseError>)
    ensures
        out == position_in(text@),
{
    match find_all(DIGIT_GROUP, text) {
        Ok(groups) => coordinates_from_groups(&groups),
        Err(_) => Err(ParseError::Pattern),
    }
}

/// Reads one altitude figure.
fn figure(group: &String) -> (value: Option<i32>)
    ensures
        value is Some <==> is_altitude(group@),
        value matches Some(v) ==> v == numeral_value(group@),
{
    let chars = chars_of(group.as_str());
    match parse_numeral(&chars, MAX_ALTITUDE) {
        Some(v) => Some(v as i32),
        None => None,
    }
}

/// Builds altitude and altitude difference from the digit groups of an
/// altitude text.
pub fn altitude_from_groups(groups: &Vec<String>) -> (out: Result<
    (Option<i32>, Option<i32>),
    ParseError,
>)
    ensures
        out == altitude_of(groups.deep_view()),
{
    let mut altitude: Option<i32> = None;
    let mut altitude_diff: Option<i32> = None;
    if groups.len() >= 1 {
        match figure(&groups[0]) {
            Some(v) => {
                altitude = Some(v);
            },
            None => {
                return Err(ParseError::Format);
            },
        }
    }
    if groups.len() >= 2 {
        match figure(&groups[1]) {
            Some(v) => {
                altitude_diff = Some(v);
            },
            None => {
                return Err(ParseError::Format);
            },
        }
    }
    Ok((altitude, altitude_diff))
}

/// Extract altitude info from a string.
///
/// The digit groups of `text` (e.g. `790 meters asl Top to bottom 740 meters`)
/// are found with [`DIGIT_GROUP`]; the first is the altitude and the second
/// the altitude difference.
pub fn extract_altitude_info(text: &str) -> (out: Result<(Option<i32>, Option<i32>), ParseError>)
    ensures
        out == altitude_in(text@),
{
    match find_all(DIGIT_GROUP, text) {
        Ok(groups) => altitude_from_groups(&groups),
        Err(_) => Err(ParseError::Pattern),
    }
}

/// The wind directions named by the alternative text of a wind icon: its
/// words, in order.
pub fn wind_directions(alt: &str) -> (out: Vec<String>)
    ensures
        out.deep_view() == words(alt@),
{
    let chars = chars_of(alt);
    split_words(&chars)
}

} // verus!

use scraper::error::ScrapeError;
use scraper::parse_kml::{
    decode_reference, decode_references, filter_known, get_missing_urls, get_urls, is_known,
};

fn strings(items: &[&str]) -> Vec<String> {
    items.iter().map(|s| s.to_string()).collect()
}

#[test]
fn decodes_the_doubled_ampersand_and_strips_the_close() {
    assert_eq!(
        decode_reference("https://site/fl.html?x=1&amp;amp;y=2&quot;&gt;"),
        "https://site/fl.html?x=1&y=2"
    );
}

#[test]
fn decoding_is_a_single_pass() {
    // The ampersand that a replacement produced is not matched again.
    assert_eq!(decode_reference("a&amp;amp;amp;b"), "a&amp;b");
    assert_eq!(decode_reference("&amp;amp;amp;amp;"), "&amp;amp;");
    assert_eq!(decode_reference("&amp;amp;&amp;amp;"), "&&");
}

#[test]
fn decoding_leaves_a_decoded_address_alone() {
    let plain = "https://flightlog.org/fl.html?l=1&a=22&start_id=7";
    assert_eq!(decode_reference(plain), plain);
    assert_eq!(decode_reference(""), "");
}

#[test]
fn decoding_strips_only_the_close_at_the_end() {
    assert_eq!(decode_reference("a&quot;&gt;b&quot;&gt;"), "a&quot;&gt;b");
    assert_eq!(decode_reference("&quot;&gt;"), "");
    assert_eq!(decode_reference("&quot;&gt;x"), "&quot;&gt;x");
}

#[test]
fn decodes_each_match_in_order() {
    let raw = strings(&["a&amp;amp;b&quot;&gt;", "c", "a&amp;amp;b&quot;&gt;"]);
    assert_eq!(decode_references(&raw), strings(&["a&b", "c", "a&b"]));
    assert_eq!(decode_references(&Vec::new()), Vec::<String>::new());
}

#[test]
fn finds_every_reference_among_unrelated_text() {
    let markup = "<kml><Placemark><description>&lt;a href=&quot;https://flightlog.org/fl.html?l=1&amp;amp;a=22&amp;amp;country_id=160&amp;amp;start_id=101&quot;&gt;Site A&lt;/a&gt;</description></Placemark>\n\
        <name>https://example.org/other.html?start_id=5</name>\n\
        <Placemark><description>&lt;a href=&quot;https://flightlog.org/fl.html?l=1&amp;amp;a=22&amp;amp;country_id=160&amp;amp;start_id=7&quot;&gt;Site B&lt;/a&gt;</description></Placemark>\n\
        <coordinates>6.4,60.6,790</coordinates>\n\
        <Placemark><description>&lt;a href=&quot;https://flightlog.org/fl.html?l=1&amp;amp;a=22&amp;amp;country_id=160&amp;amp;start_id=101&quot;&gt;Site A again&lt;/a&gt;</description></Placemark>\n</kml>";
    let urls = get_urls(markup).unwrap();
    assert_eq!(
        urls,
        strings(&[
            "https://flightlog.org/fl.html?l=1&a=22&country_id=160&start_id=101",
            "https://flightlog.org/fl.html?l=1&a=22&country_id=160&start_id=7",
            "https://flightlog.org/fl.html?l=1&a=22&country_id=160&start_id=101",
        ])
    );
}

#[test]
fn no_reference_is_no_error() {
    assert_eq!(get_urls(""), Ok(Vec::new()));
    assert_eq!(get_urls("<kml>nothing here</kml>"), Ok(Vec::new()));
    // Without the escaped close, or without digits, there is no reference.
    assert_eq!(get_urls("https://flightlog.org/fl.html?a=1&start_id=12\">"), Ok(Vec::new()));
    assert_eq!(get_urls("https://flightlog.org/fl.html?a=1&start_id=&quot;&gt;"), Ok(Vec::new()));
}

#[test]
fn the_reference_pattern_is_well_formed() {
    assert_ne!(get_urls("anything"), Err(ScrapeError::Pattern));
}

#[test]
fn filter_removes_the_known_and_keeps_the_order() {
    let refs = strings(&["u1", "u2", "u3", "u2", "u4"]);
    let known = strings(&["u2", "u9"]);
    assert_eq!(filter_known(&refs, &known), strings(&["u1", "u3", "u4"]));
}

#[test]
fn filter_with_nothing_known_returns_its_input() {
    let refs = strings(&["b", "a", "b"]);
    assert_eq!(filter_known(&refs, &Vec::new()), refs);
    assert_eq!(filter_known(&Vec::new(), &Vec::new()), Vec::<String>::new());
}

#[test]
fn filter_by_the_references_themselves_leaves_nothing() {
    let refs = strings(&["b", "a", "b", "c"]);
    assert_eq!(filter_known(&refs, &refs), Vec::<String>::new());
}

#[test]
fn filter_compares_whole_addresses() {
    let refs = strings(&["https://x/fl.html?start_id=1", "https://x/fl.html?a=2&start_id=1"]);
    let known = strings(&["https://x/fl.html?start_id=1"]);
    assert_eq!(filter_known(&refs, &known), strings(&["https://x/fl.html?a=2&start_id=1"]));
    assert!(is_known(&known, &"https://x/fl.html?start_id=1".to_string()));
    assert!(!is_known(&known, &"https://x/fl.html?start_id=10".to_string()));
    assert!(!is_known(&Vec::new(), &"".to_string()));
}

#[test]
fn missing_urls_are_the_extracted_ones_that_are_not_known() {
    let markup = "&quot;https://flightlog.org/fl.html?l=1&amp;amp;start_id=1&quot;&gt;\n\
        &quot;https://flightlog.org/fl.html?l=1&amp;amp;start_id=2&quot;&gt;\n\
        &quot;https://flightlog.org/fl.html?l=1&amp;amp;start_id=3&quot;&gt;\n";
    let known = strings(&["https://flightlog.org/fl.html?l=1&start_id=2"]);
    assert_eq!(
        get_missing_urls(markup, &known),
        Ok(strings(&[
            "https://flightlog.org/fl.html?l=1&start_id=1",
            "https://flightlog.org/fl.html?l=1&start_id=3",
        ]))
    );
}

#[test]
fn two_references_on_one_line_are_two_addresses() {
    let markup = "https://flightlog.org/fl.html?l=1&amp;amp;start_id=1&quot;&gt; https://flightlog.org/fl.html?l=1&amp;amp;start_id=2&quot;&gt;";
    assert_eq!(
        get_urls(markup),
        Ok(strings(&[
            "https://flightlog.org/fl.html?l=1&start_id=1",
            "https://flightlog.org/fl.html?l=1&start_id=2",
        ]))
    );
    // Also where nothing but markup stands between them.
    let markup = "&lt;a href=&quot;https://flightlog.org/fl.html?l=1&amp;amp;start_id=10&quot;&gt;A&lt;/a&gt;&lt;a href=&quot;https://flightlog.org/fl.html?l=1&amp;amp;start_id=20&quot;&gt;B&lt;/a&gt;&lt;a href=&quot;https://flightlog.org/fl.html?l=1&amp;amp;start_id=30&quot;&gt;C&lt;/a&gt;";
    assert_eq!(
        get_urls(markup),
        Ok(strings(&[
            "https://flightlog.org/fl.html?l=1&start_id=10",
            "https://flightlog.org/fl.html?l=1&start_id=20",
            "https://flightlog.org/fl.html?l=1&start_id=30",
        ]))
    );
}

#[test]
fn a_match_does_not_begin_in_an_address_that_is_no_reference() {
    // The first address has no start_id and is closed before the reference begins.
    let markup = "&quot;https://flightlog.org/fl.html?l=1&amp;amp;a=5&quot;&gt;x&quot;https://flightlog.org/fl.html?l=1&amp;amp;start_id=2&quot;&gt;";
    assert_eq!(get_urls(markup), Ok(strings(&["https://flightlog.org/fl.html?l=1&start_id=2"])));
    let markup = "see https://flightlog.org/fl.html?l=1 and https://flightlog.org/fl.html?l=1&amp;amp;start_id=3&quot;&gt;";
    assert_eq!(get_urls(markup), Ok(strings(&["https://flightlog.org/fl.html?l=1&start_id=3"])));
    // A start_id that is not the last parameter is no end of a reference.
    let markup = "https://flightlog.org/fl.html?start_id=4&amp;amp;l=1&quot;&gt;";
    assert_eq!(get_urls(markup), Ok(Vec::new()));
}

#[test]
fn a_reference_may_have_start_id_as_its_only_parameter() {
    assert_eq!(
        get_urls("&quot;https://flightlog.org/fl.html?start_id=77&quot;&gt;"),
        Ok(strings(&["https://flightlog.org/fl.html?start_id=77"]))
    );
}

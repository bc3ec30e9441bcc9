use gofile::error::Error;
use gofile::urlparse::parse_page_url;

#[test]
fn extracts_the_folder_id() {
    assert_eq!(parse_page_url("https://gofile.io/d/1smiQC").unwrap(), "1smiQC");
}

#[test]
fn discards_a_query() {
    assert_eq!(parse_page_url("https://gofile.io/d/a?b").unwrap(), "a");
    assert_eq!(
        parse_page_url("https://gofile.io/d/1smiQC?download=1&x=2").unwrap(),
        "1smiQC"
    );
}

#[test]
fn discards_a_fragment() {
    assert_eq!(parse_page_url("https://gofile.io/d/a#frag").unwrap(), "a");
}

#[test]
fn matches_scheme_and_host_without_regard_to_case() {
    assert_eq!(parse_page_url("HTTPS://GOFILE.IO/d/1smiQC").unwrap(), "1smiQC");
    assert_eq!(parse_page_url("https://GoFile.io/d/AbC").unwrap(), "AbC");
}

#[test]
fn the_d_path_segment_must_be_lower_case() {
    // Only the scheme and host tolerate case; the path shape is fixed.
    assert_eq!(
        parse_page_url("https://gofile.io/D/abc").unwrap_err(),
        Error::Decode
    );
    assert_eq!(
        parse_page_url("HTTPS://GOFILE.IO/D/abc").unwrap_err(),
        Error::Decode
    );
}

#[test]
fn rejects_other_hosts() {
    assert_eq!(
        parse_page_url("https://example.com/d/1smiQC").unwrap_err(),
        Error::Decode
    );
}

#[test]
fn rejects_plain_http() {
    // Only the https shape of the documented link is accepted; any other
    // scheme is rejected rather than guessed at.
    assert_eq!(
        parse_page_url("http://gofile.io/d/1smiQC").unwrap_err(),
        Error::Decode
    );
}

#[test]
fn rejects_other_path_shapes() {
    assert_eq!(parse_page_url("https://gofile.io/x/1smiQC").unwrap_err(), Error::Decode);
    assert_eq!(parse_page_url("https://gofile.io/1smiQC").unwrap_err(), Error::Decode);
}

#[test]
fn rejects_a_missing_id() {
    assert_eq!(parse_page_url("https://gofile.io/d/").unwrap_err(), Error::Decode);
    assert_eq!(parse_page_url("https://gofile.io/d/?q").unwrap_err(), Error::Decode);
    assert_eq!(parse_page_url("https://gofile.io/d/#f").unwrap_err(), Error::Decode);
}

#[test]
fn rejects_extra_segments() {
    assert_eq!(
        parse_page_url("https://gofile.io/d/1smiQC/extra").unwrap_err(),
        Error::Decode
    );
    assert_eq!(
        parse_page_url("https://gofile.io/d/1smiQC/").unwrap_err(),
        Error::Decode
    );
    assert_eq!(
        parse_page_url("https://gofile.io/d/1smiQC/?q").unwrap_err(),
        Error::Decode
    );
}

#[test]
fn rejects_the_empty_string() {
    assert_eq!(parse_page_url("").unwrap_err(), Error::Decode);
}

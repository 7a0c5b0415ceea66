use cleverbot::cookie::{cookie_request_url, extract_cookie};

#[test]
fn header_is_cut_at_first_semicolon() {
    assert_eq!(
        extract_cookie("XVIS=abc; expires=Mon; path=/").unwrap(),
        "XVIS=abc"
    );
}

#[test]
fn header_without_semicolon_is_taken_whole() {
    assert_eq!(extract_cookie("XVIS=abc").unwrap(), "XVIS=abc");
}

#[test]
fn literal_b_percent_becomes_32_everywhere() {
    assert_eq!(extract_cookie("B%B%").unwrap(), "3232");
    assert_eq!(extract_cookie("xB%y; z").unwrap(), "x32y");
    // A lone `B` or `%` is kept as it is.
    assert_eq!(extract_cookie("B%%B").unwrap(), "32%B");
}

#[test]
fn replacement_applies_only_before_the_semicolon() {
    assert_eq!(extract_cookie("a; B%").unwrap(), "a");
}

#[test]
fn empty_token_is_no_cookie() {
    // Nothing before the first `;`, or nothing at all: no usable session.
    assert!(extract_cookie("").is_none());
    assert!(extract_cookie(";").is_none());
    assert!(extract_cookie("; expires=Mon").is_none());
}

#[test]
fn cookie_url_carries_the_date_parameter() {
    let url = cookie_request_url();
    let base = "https://www.cleverbot.com/extras/conversation-social-min.js?";
    assert!(url.starts_with(base));
    let query = &url[base.len()..];
    assert!(query.len() >= 8);
    assert!(query.chars().all(|c| c.is_ascii_digit()));
}

use cleverbot::pythonic_encode;

#[test]
fn plain_ascii_words_pass_through() {
    assert_eq!(pythonic_encode("hi"), "hi");
    assert_eq!(pythonic_encode("Hello42"), "Hello42");
}

#[test]
fn space_is_percent_encoded() {
    assert_eq!(pythonic_encode("hello world"), "hello%20world");
}

#[test]
fn extra_safe_set_is_never_encoded() {
    let safe = "!#$%&'()*+,/:;=?@[]~";
    assert_eq!(pythonic_encode(safe), safe);
}

#[test]
fn unsafe_punctuation_is_encoded_uppercase() {
    assert_eq!(pythonic_encode("a b\"c"), "a%20b%22c");
    assert_eq!(pythonic_encode("x<y>z"), "x%3Cy%3Ez");
}

#[test]
fn multibyte_input_is_encoded_bytewise() {
    assert_eq!(pythonic_encode("café"), "caf%C3%A9");
}

#[test]
fn empty_input_stays_empty() {
    assert_eq!(pythonic_encode(""), "");
}

#[test]
fn matches_reference_percent_encoder() {
    // utf8_percent_encode wants a 'static set; leak the one test copy.
    let set: &'static percent_encoding::AsciiSet = Box::leak(Box::new(
        percent_encoding::NON_ALPHANUMERIC
        .remove(b'!')
        .remove(b'#')
        .remove(b'$')
        .remove(b'%')
        .remove(b'&')
        .remove(b'\'')
        .remove(b'(')
        .remove(b')')
        .remove(b'*')
        .remove(b'+')
        .remove(b',')
        .remove(b'/')
        .remove(b':')
        .remove(b';')
        .remove(b'=')
        .remove(b'?')
        .remove(b'@')
        .remove(b'[')
        .remove(b']')
        .remove(b'~'),
    ));
    let samples = [
        "hello world",
        "are you a bot?",
        "café au lait",
        "100% sure <really>",
        "line\nbreak\ttab",
        "",
        "日本語テキスト",
    ];
    for s in samples {
        let expected: String = percent_encoding::utf8_percent_encode(s, set).to_string();
        assert_eq!(pythonic_encode(s), expected);
    }
}

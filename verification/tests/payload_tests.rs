use cleverbot::payload::build_payload;

const SETTINGS: &str = "&cb_settings_scripting=no&islearning=1&icognoid=wsf&icognocheck=";

fn md5_hex(bytes: &[u8]) -> String {
    format!("{:x}", md5::compute(bytes))
}

#[test]
fn empty_history_scenario() {
    // Capacity plays no part in the encoder; an empty snapshot stands for
    // a fresh client with capacity 5.
    let history: Vec<String> = Vec::new();
    let payload = build_payload("hi", &history);

    let prefix = format!("stimulus=hi{}", SETTINGS);
    let digest = md5_hex(&prefix.as_bytes()[7..33]);
    assert_eq!(payload, format!("{}{}", prefix, digest));

    assert!(!payload.contains("vText"));
    let tail = &payload[payload.len() - 32..];
    assert_eq!(tail.len(), 32);
    assert!(tail.chars().all(|c| c.is_ascii_hexdigit() && !c.is_ascii_uppercase()));
}

#[test]
fn three_entry_history_numbering() {
    let history = vec!["m1".to_string(), "m2".to_string(), "m3".to_string()];
    let payload = build_payload("q", &history);

    let prefix = format!("stimulus=q&vText2=m3&vText3=m2&vText4=m1{}", SETTINGS);
    let digest = md5_hex(&prefix.as_bytes()[7..33]);
    assert_eq!(payload, format!("{}{}", prefix, digest));
}

#[test]
fn history_entries_are_percent_encoded() {
    let history = vec!["are you a bot?".to_string()];
    let payload = build_payload("no, I'm a human", &history);
    assert!(payload.starts_with("stimulus=no,%20I'm%20a%20human&vText2=are%20you%20a%20bot?"));
}

#[test]
fn encoder_is_deterministic() {
    let history = vec!["one".to_string(), "two".to_string()];
    let a = build_payload("same question", &history);
    let b = build_payload("same question", &history);
    assert_eq!(a, b);
}

#[test]
fn checksum_covers_bytes_seven_to_thirty_three() {
    let history = vec!["earlier turn".to_string()];
    let payload = build_payload("a question long enough to matter", &history);
    let bytes = payload.as_bytes();
    let body = &payload[..payload.len() - 32];
    let tail = &payload[payload.len() - 32..];
    assert_eq!(tail, md5_hex(&body.as_bytes()[7..33]));
    // The digest input starts inside the `stimulus=` field name.
    assert_eq!(&bytes[7..9], b"s=");
}

#[test]
fn short_message_still_has_defined_checksum() {
    // Even an empty message leaves the checksum range in bounds: the fixed
    // settings string follows immediately.
    let history: Vec<String> = Vec::new();
    let payload = build_payload("", &history);
    let prefix = format!("stimulus={}", SETTINGS);
    let digest = md5_hex(&prefix.as_bytes()[7..33]);
    assert_eq!(payload, format!("{}{}", prefix, digest));
}

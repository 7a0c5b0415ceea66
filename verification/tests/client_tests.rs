use cleverbot::{Cleverbot, CleverbotBuilder, CookieReply, Error, FirstOutcome, Reply};

const SENTINEL: &[u8] = b"Hello from Cleverbot\n";

fn built_client(retries: bool) -> Cleverbot {
    CleverbotBuilder::default()
        .with_retries(retries)
        .with_custom_history_size(5)
        .build(CookieReply::Header(Some("XVIS=TEI939B%25AAAA; path=/".to_string())))
        .expect("a cookie header should yield a client")
}

#[test]
fn construction_without_cookie_header_fails() {
    let r = CleverbotBuilder::default().build(CookieReply::Header(None));
    assert!(matches!(r, Err(Error::NoCookieFound)));
}

#[test]
fn construction_with_transport_failure_fails() {
    let r = CleverbotBuilder::default().build(CookieReply::Transport("no route".to_string()));
    assert!(matches!(r, Err(Error::TransportError(m)) if m == "no route"));
}

#[test]
fn construction_with_empty_token_fails() {
    // A header with nothing before its first `;` yields an empty token,
    // which would leave the session empty: construction must fail.
    let r = CleverbotBuilder::default().build(CookieReply::Header(Some("; path=/".to_string())));
    assert!(matches!(r, Err(Error::NoCookieFound)));
    let r = CleverbotBuilder::default().build(CookieReply::Header(Some(String::new())));
    assert!(matches!(r, Err(Error::NoCookieFound)));
}

#[test]
fn refresh_with_empty_token_keeps_the_session() {
    let mut client = built_client(true);
    let r = client.recookie(CookieReply::Header(Some(";".to_string())));
    assert!(matches!(r, Err(Error::NoCookieFound)));
    assert_eq!(client.session_cookie(), "XVIS=TEI9393225AAAA");
}

#[test]
fn construction_extracts_and_rewrites_the_cookie() {
    let client = built_client(true);
    // Portion before the first `;`, with `B%` rewritten to `32`.
    assert_eq!(client.session_cookie(), "XVIS=TEI9393225AAAA");
    assert!(client.get_history().is_empty());
}

#[test]
fn successful_exchange_appends_message_then_answer() {
    let mut client = built_client(true);
    let ex = client.begin_exchange("hi");
    let reply = Reply::Body(b"Nice to meet you\rIAI\r12345".to_vec());
    match client.respond_first(&ex, reply) {
        FirstOutcome::Done(answer) => assert_eq!(answer, "Nice to meet you"),
        other => panic!("expected an answer, got {}", describe(&other)),
    }
    assert_eq!(client.get_history(), vec!["hi".to_string(), "Nice to meet you".to_string()]);
}

#[test]
fn bad_answer_without_retries_surfaces_immediately() {
    let mut client = built_client(false);
    let ex = client.begin_exchange("hi");
    match client.respond_first(&ex, Reply::Body(SENTINEL.to_vec())) {
        FirstOutcome::Failed(Error::BadResponse(text)) => {
            assert_eq!(text, "Hello from Cleverbot\n");
        },
        other => panic!("expected BadResponse, got {}", describe(&other)),
    }
    assert!(client.get_history().is_empty());
}

#[test]
fn bad_answer_with_retries_asks_for_one_retry() {
    let mut client = built_client(true);
    let ex = client.begin_exchange("hi");
    let first = client.respond_first(&ex, Reply::Body(SENTINEL.to_vec()));
    assert!(matches!(first, FirstOutcome::RetryNeeded));
    // Nothing changed yet: same cookie, empty history.
    assert_eq!(client.session_cookie(), "XVIS=TEI9393225AAAA");
    assert!(client.get_history().is_empty());

    // The driver now fetches exactly one fresh cookie...
    let r = client.recookie(CookieReply::Header(Some("XVIS=NEW; path=/".to_string())));
    assert!(r.is_ok());
    assert_eq!(client.session_cookie(), "XVIS=NEW");

    // ...and resends once; a second sentinel is the distinct error kind.
    let second = client.respond_retry(&ex, Reply::Body(SENTINEL.to_vec()));
    assert!(matches!(second, Err(Error::BadResponseAfterRetrying(t)) if t == "Hello from Cleverbot\n"));
    assert!(client.get_history().is_empty());
}

#[test]
fn retry_can_still_succeed() {
    let mut client = built_client(true);
    let ex = client.begin_exchange("hi");
    assert!(matches!(
        client.respond_first(&ex, Reply::Transport("reset".to_string())),
        FirstOutcome::RetryNeeded
    ));
    client
        .recookie(CookieReply::Header(Some("k=v".to_string())))
        .expect("fresh cookie accepted");
    let second = client.respond_retry(&ex, Reply::Body(b"for real this time\rextra".to_vec()));
    assert_eq!(second.unwrap(), "for real this time");
    assert_eq!(
        client.get_history(),
        vec!["hi".to_string(), "for real this time".to_string()]
    );
}

#[test]
fn transport_error_without_retries_is_fatal() {
    let mut client = built_client(false);
    let ex = client.begin_exchange("hi");
    let outcome = client.respond_first(&ex, Reply::Transport("boom".to_string()));
    assert!(matches!(outcome, FirstOutcome::Failed(Error::TransportError(m)) if m == "boom"));
}

#[test]
fn undecodable_body_is_fatal_even_with_retries() {
    let mut client = built_client(true);
    let ex = client.begin_exchange("hi");
    let outcome = client.respond_first(&ex, Reply::Body(vec![0xff, 0xfe, 0x00]));
    assert!(matches!(outcome, FirstOutcome::Failed(Error::DecodeError)));
}

#[test]
fn empty_body_is_fatal_even_with_retries() {
    let mut client = built_client(true);
    let ex = client.begin_exchange("hi");
    let outcome = client.respond_first(&ex, Reply::Body(Vec::new()));
    assert!(matches!(outcome, FirstOutcome::Failed(Error::EmptyResponse)));
}

#[test]
fn html_prefixed_answer_is_a_sentinel() {
    let mut client = built_client(false);
    let ex = client.begin_exchange("hi");
    let outcome = client.respond_first(&ex, Reply::Body(b"<html><body>busy</body>".to_vec()));
    assert!(matches!(outcome, FirstOutcome::Failed(Error::BadResponse(_))));
}

#[test]
fn failed_cookie_refresh_reports_no_cookie() {
    let mut client = built_client(true);
    let r = client.recookie(CookieReply::Header(None));
    assert!(matches!(r, Err(Error::NoCookieFound)));
    // The previous session survives a failed refresh.
    assert_eq!(client.session_cookie(), "XVIS=TEI9393225AAAA");
}

#[test]
fn clear_history_removes_recorded_exchanges() {
    let mut client = built_client(true);
    let ex = client.begin_exchange("hi");
    client.respond_first(&ex, Reply::Body(b"sure".to_vec()));
    assert_eq!(client.get_history().len(), 2);
    client.clear_history();
    assert!(client.get_history().is_empty());
}

#[test]
fn history_eviction_is_single_item_across_exchanges() {
    let mut client = CleverbotBuilder::default()
        .with_custom_history_size(3)
        .build(CookieReply::Header(Some("k=v".to_string())))
        .unwrap();
    let ex = client.begin_exchange("one");
    client.respond_first(&ex, Reply::Body(b"two".to_vec()));
    let ex = client.begin_exchange("three");
    client.respond_first(&ex, Reply::Body(b"four".to_vec()));
    // Capacity 3: the oldest single entry was evicted on each overflow.
    assert_eq!(
        client.get_history(),
        vec!["two".to_string(), "three".to_string(), "four".to_string()]
    );
}

fn describe(outcome: &FirstOutcome) -> String {
    match outcome {
        FirstOutcome::Done(a) => format!("Done({})", a),
        FirstOutcome::Failed(e) => format!("Failed({:?})", e),
        FirstOutcome::RetryNeeded => "RetryNeeded".to_string(),
    }
}

use fetcher::telegram::{plan_message, prepare_text, send_with_retry, Media, Message, SendOutcome,
    SendPayload, Telegram};

#[test]
fn short_text_is_untouched() {
    assert_eq!(prepare_text("hello"), "hello");
}

#[test]
fn long_text_is_cut_to_limit_with_ellipsis() {
    let long: String = std::iter::repeat('x').take(5000).collect();
    let prepared = prepare_text(&long);
    assert_eq!(prepared.chars().count(), 4096);
    let expected: String =
        std::iter::repeat('x').take(4093).collect::<String>() + "...";
    assert_eq!(prepared, expected);
}

#[test]
fn text_exactly_at_limit_is_untouched() {
    let exact: String = std::iter::repeat('y').take(4096).collect();
    assert_eq!(prepare_text(&exact), exact);
}

#[test]
fn text_only_message_plans_a_text_call() {
    let m = Message { text: "hi".to_string(), media: None };
    match plan_message(&m) {
        SendPayload::Text(t) => assert_eq!(t, "hi"),
        _ => panic!("expected a text call"),
    }
}

#[test]
fn media_message_plans_one_group_with_captions() {
    let m = Message {
        text: "cap".to_string(),
        media: Some(vec![
            Media::Photo("https://example.com/p.png".to_string()),
            Media::Video("https://example.com/v.mp4".to_string()),
        ]),
    };
    match plan_message(&m) {
        SendPayload::MediaGroup(items) => {
            assert_eq!(items.len(), 2);
            assert!(items[0].is_photo);
            assert_eq!(items[0].url, "https://example.com/p.png");
            assert_eq!(items[0].caption, "cap");
            assert!(!items[1].is_photo);
            assert_eq!(items[1].caption, "cap");
        }
        _ => panic!("expected a media group"),
    }
}

#[test]
fn retry_after_then_success_makes_two_attempts_and_sleeps() {
    // The rate-limit contract: a throttle of 2 seconds once, then success,
    // gives exactly two attempts, one 2-second sleep and one delivery.
    let script = vec![SendOutcome::RetryAfter(2), SendOutcome::Sent];
    let report = send_with_retry(&script);
    assert_eq!(report.attempts, 2);
    assert_eq!(report.slept, 2);
    assert!(report.delivered);
    assert!(report.error.is_none());
}

#[test]
fn immediate_success_is_one_attempt() {
    let report = send_with_retry(&vec![SendOutcome::Sent]);
    assert_eq!(report.attempts, 1);
    assert_eq!(report.slept, 0);
    assert!(report.delivered);
}

#[test]
fn fatal_error_stops_without_delivery() {
    let script = vec![
        SendOutcome::RetryAfter(1),
        SendOutcome::Fatal("forbidden".to_string()),
        SendOutcome::Sent,
    ];
    let report = send_with_retry(&script);
    assert_eq!(report.attempts, 2);
    assert_eq!(report.slept, 1);
    assert!(!report.delivered);
    assert_eq!(report.error.as_deref(), Some("forbidden"));
}

#[test]
fn many_retries_accumulate_sleep() {
    let script = vec![
        SendOutcome::RetryAfter(2),
        SendOutcome::RetryAfter(3),
        SendOutcome::RetryAfter(5),
        SendOutcome::Sent,
    ];
    let report = send_with_retry(&script);
    assert_eq!(report.attempts, 4);
    assert_eq!(report.slept, 10);
    assert!(report.delivered);
}

#[test]
fn sink_remembers_its_chat() {
    let t = Telegram::new(-100123);
    assert_eq!(t.chat_id, -100123);
}

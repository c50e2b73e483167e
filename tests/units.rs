use channel_purge::backoff::{Backoff, INITIAL_BACKOFF_MS, MAX_BACKOFF_MS};
use channel_purge::deleter::{classify_delete, delete_step, DeleteOutcome, DeleteReply, DeleteStep};
use channel_purge::input::{parse_u64, read_number_input, NumberInputError};
use channel_purge::lister::{Lister, Message, Prompt};
use channel_purge::snowflake::validate_snowflake;
use channel_purge::stats::Stats;

#[test]
fn snowflake_lengths_and_digits() {
    assert!(validate_snowflake("12345678901234567"));
    assert!(validate_snowflake("12345678901234567890"));
    assert!(!validate_snowflake("1234567890123456"));
    assert!(!validate_snowflake("123456789012345678901"));
    assert!(!validate_snowflake("1234567890123456a"));
    assert!(!validate_snowflake(""));
    assert!(!validate_snowflake("１２３４５６７８９０１２３４５６７"));
}

#[test]
fn number_input_default_and_bounds() {
    assert_eq!(read_number_input("", 50, 5000, 200), Ok(200));
    assert_eq!(read_number_input("50", 50, 5000, 200), Ok(50));
    assert_eq!(read_number_input("5000", 50, 5000, 200), Ok(5000));
    assert_eq!(read_number_input("+75", 50, 5000, 200), Ok(75));
    assert_eq!(
        read_number_input("49", 50, 5000, 200),
        Err(NumberInputError::OutOfRange { min: 50, max: 5000 })
    );
    assert_eq!(
        read_number_input("5001", 50, 5000, 200),
        Err(NumberInputError::OutOfRange { min: 50, max: 5000 })
    );
    assert_eq!(read_number_input("abc", 50, 5000, 200), Err(NumberInputError::InvalidFormat));
    assert_eq!(read_number_input("-5", 50, 5000, 200), Err(NumberInputError::InvalidFormat));
    assert_eq!(read_number_input("+", 50, 5000, 200), Err(NumberInputError::InvalidFormat));
}

#[test]
fn decimal_parse_matches_std() {
    for s in ["0", "7", "42", "+42", "18446744073709551615", "18446744073709551616", "", "+", "1x", "-1", "++1", "007"] {
        assert_eq!(parse_u64(s), s.parse::<u64>().ok(), "input {:?}", s);
    }
}

#[test]
fn backoff_doubles_and_caps() {
    let mut b = Backoff::new();
    assert_eq!(b.delay_ms, INITIAL_BACKOFF_MS);
    assert_eq!(b.on_status(503, None), Some(1000));
    assert_eq!(b.on_status(500, None), Some(2000));
    assert_eq!(b.on_status(429, Some(100)), Some(4000));
    assert_eq!(b.on_status(429, Some(9000)), Some(9000));
    assert_eq!(b.on_status(599, None), Some(16000));
    assert_eq!(b.delay_ms, MAX_BACKOFF_MS);
    assert_eq!(b.on_status(429, None), Some(30000));
    assert_eq!(b.delay_ms, MAX_BACKOFF_MS);
    assert_eq!(b.on_status(404, None), None);
    assert_eq!(b.on_status(200, None), None);
    assert_eq!(b.on_status(600, None), None);
    assert_eq!(b.delay_ms, MAX_BACKOFF_MS);
    b.reset();
    assert_eq!(b.delay_ms, 1000);
}

#[test]
fn rate_limit_wait_is_at_least_retry_after() {
    let mut b = Backoff::new();
    // 2.5 s from the server
    assert_eq!(b.on_status(429, Some(2500)), Some(2500));
    // second consecutive 429: max(retry_after, 2 x previous backoff)
    assert_eq!(b.on_status(429, Some(500)), Some(2000));
}

#[test]
fn delete_statuses_classified() {
    assert_eq!(classify_delete(200), DeleteOutcome::Deleted);
    assert_eq!(classify_delete(204), DeleteOutcome::Deleted);
    assert_eq!(classify_delete(404), DeleteOutcome::AlreadyGone);
    assert_eq!(classify_delete(403), DeleteOutcome::Failed);
    assert_eq!(classify_delete(400), DeleteOutcome::Failed);
    assert_eq!(classify_delete(301), DeleteOutcome::Failed);
    let mut b = Backoff::new();
    assert_eq!(
        delete_step(&mut b, DeleteReply::Status { code: 429, retry_after_ms: None }),
        DeleteStep::Retry { wait_ms: 1000 }
    );
    assert_eq!(delete_step(&mut b, DeleteReply::Broken), DeleteStep::Resolved(DeleteOutcome::Failed));
    assert_eq!(b.delay_ms, 2000);
}

#[test]
fn stats_record_outcomes() {
    let mut s = Stats::new();
    s.begin_batch(3);
    s.record(DeleteOutcome::Deleted);
    s.record(DeleteOutcome::AlreadyGone);
    s.record(DeleteOutcome::Failed);
    assert_eq!((s.total_deleted, s.total_failed, s.messages_in_process), (1, 1, 0));
    // never below zero
    s.record(DeleteOutcome::AlreadyGone);
    assert_eq!(s.messages_in_process, 0);
}

#[test]
fn lister_filters_and_marks_seen() {
    let mut l = Lister::new("7".to_string());
    let page = vec![
        Message { id: "30".to_string(), author_id: "7".to_string() },
        Message { id: "20".to_string(), author_id: "8".to_string() },
        Message { id: "10".to_string(), author_id: "7".to_string() },
    ];
    let batch = l.on_page(&page);
    assert_eq!(batch, vec!["30".to_string(), "10".to_string()]);
    assert_eq!(l.cursor.as_deref(), Some("10"));
    assert!(l.has_seen(&"30".to_string()));
    assert!(!l.has_seen(&"20".to_string()));
    assert_eq!(l.total_batches, 1);
    let again = l.on_page(&page);
    assert!(again.is_empty());
    assert_eq!(l.zero_match_batches, 0);
    assert_eq!(l.prompt, None);
    let none = l.on_page(&vec![Message { id: "5".to_string(), author_id: "8".to_string() }]);
    assert!(none.is_empty());
    assert_eq!(l.zero_match_batches, 1);
    assert_eq!(l.prompt, None::<Prompt>);
    assert_eq!(l.cursor.as_deref(), Some("5"));
}

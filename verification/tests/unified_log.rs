use xai_grok_pager::unified_log::{build_notification, LogForwarder, LogLevel, LogSource, AUTO_FLUSH_BATCH, LOG_METHOD};

#[test]
fn set_sender_rebinds_future_flushes() {
    let mut log: LogForwarder<u32> = LogForwarder::new(Some(7), Some("1.2.3"));
    log.set_sender(1);
    log.set_sender(2);
    assert!(log.info("rebound log entry", None, None).is_none());
    let batch = log.flush().expect("a bound sender gets the batch");
    assert_eq!(log.current_sender(), Some(&2));
    assert_eq!(batch.len(), 1);
    assert_eq!(batch[0].msg, "rebound log entry");
    assert_eq!(batch[0].lvl, LogLevel::Info);
    assert_eq!(batch[0].pid, Some(7));
    assert_eq!(batch[0].ver.as_deref(), Some("1.2.3"));
    assert!(batch[0].ts.ends_with('Z'));
    assert!(log.flush().is_none());
}

#[test]
fn sixteenth_entry_sends_the_batch_when_a_sender_is_bound() {
    let mut log: LogForwarder<&str> = LogForwarder::new(None, None);
    log.set_sender("tx");
    for i in 0..AUTO_FLUSH_BATCH - 1 {
        assert!(log.debug(&format!("entry {i}"), Some("s1"), None).is_none());
    }
    let batch = log.warn("last", None, Some(serde_json::Value::Bool(true))).expect("auto flush");
    assert_eq!(batch.len(), AUTO_FLUSH_BATCH);
    assert_eq!(batch[0].msg, "entry 0");
    assert_eq!(batch[0].sid.as_deref(), Some("s1"));
    assert_eq!(batch[AUTO_FLUSH_BATCH - 1].lvl, LogLevel::Warn);
    assert!(batch[AUTO_FLUSH_BATCH - 1].ctx.is_some());
    assert!(log.buffered().is_empty());
}

#[test]
fn entries_wait_without_a_sender() {
    let mut log: LogForwarder<u8> = LogForwarder::new(None, None);
    for _ in 0..40 {
        assert!(log.error("waiting", None, None).is_none());
    }
    assert_eq!(log.buffered().len(), 40);
    log.set_sender(1);
    let batch = log.info("now", None, None).expect("buffer past a batch goes out once a sender is bound");
    assert_eq!(batch.len(), 41);
}

#[test]
fn flush_without_a_sender_drops_the_entries() {
    let mut log: LogForwarder<u8> = LogForwarder::new(None, None);
    log.info("lost", None, None);
    assert!(log.flush().is_none());
    assert!(log.buffered().is_empty());
}

#[test]
fn reset_forgets_sender_and_entries() {
    let mut log: LogForwarder<u8> = LogForwarder::new(None, None);
    log.set_sender(3);
    log.info("a", None, None);
    log.reset_for_tests();
    assert!(log.current_sender().is_none());
    assert!(log.buffered().is_empty());
}

#[test]
fn notifications_carry_non_empty_batches_from_the_pager() {
    assert!(build_notification(Vec::new()).is_none());
    let mut log: LogForwarder<u8> = LogForwarder::new(None, None);
    log.set_sender(1);
    log.info("x", None, None);
    let params = build_notification(log.flush().unwrap()).unwrap();
    assert_eq!(params.src, LogSource::GrokPager);
    assert_eq!(params.entries.len(), 1);
    assert_eq!(LOG_METHOD, "x.ai/log");
}

#[test]
fn entries_are_stamped_with_utc_millisecond_timestamps() {
    let mut log: LogForwarder<u32> = LogForwarder::new(None, None);
    log.set_sender(1);
    assert!(log.info("stamped", None, None).is_none());
    let batch = log.flush().expect("a bound sender gets the batch");
    let ts: Vec<char> = batch[0].ts.chars().collect();
    let n = ts.len();
    assert!(n >= 24);
    let tail = &ts[n - 20..];
    for (i, c) in tail.iter().enumerate() {
        match i {
            0 | 3 => assert_eq!(*c, '-'),
            6 => assert_eq!(*c, 'T'),
            9 | 12 => assert_eq!(*c, ':'),
            15 => assert_eq!(*c, '.'),
            19 => assert_eq!(*c, 'Z'),
            _ => assert!(c.is_ascii_digit()),
        }
    }
    assert!(ts[..n - 20].iter().all(|c| c.is_ascii_digit()));
}

use sidecar_supervisor::diag::DiagnosticEvent;
use sidecar_supervisor::diag::DiagnosticLog;
use sidecar_supervisor::diag::decimal_string;
use sidecar_supervisor::diag::escape_quotes;
use sidecar_supervisor::diag::render_line;

#[test]
fn decimal_writing_is_exact() {
    assert_eq!(decimal_string(0), "0");
    assert_eq!(decimal_string(7), "7");
    assert_eq!(decimal_string(10), "10");
    assert_eq!(decimal_string(5000), "5000");
    assert_eq!(decimal_string(1759968000123), "1759968000123");
    assert_eq!(decimal_string(u64::MAX), "18446744073709551615");
}

#[test]
fn escaping_touches_only_double_quotes() {
    assert_eq!(escape_quotes(""), "");
    assert_eq!(escape_quotes("plain"), "plain");
    assert_eq!(escape_quotes("say \"hi\""), "say \\\"hi\\\"");
    assert_eq!(escape_quotes("\""), "\\\"");
    assert_eq!(escape_quotes("back\\slash"), "back\\slash");
}

#[test]
fn renders_the_exact_line() {
    let ev = DiagnosticEvent {
        location: "main:setup".to_string(),
        message: "it \"works\"".to_string(),
        data: "{\"step\":\"start\"}".to_string(),
        timestamp: 42,
        session_id: "debug-session".to_string(),
        run_id: "run1".to_string(),
    };
    assert_eq!(
        render_line(&ev),
        "{\"location\":\"main:setup\",\"message\":\"it \\\"works\\\"\",\"data\":{\"step\":\"start\"},\"timestamp\":42,\"sessionId\":\"debug-session\",\"runId\":\"run1\"}"
    );
}

#[test]
fn record_appends_in_order_and_stamps_the_ids() {
    let mut log = DiagnosticLog::new("debug-session".to_string(), "run1".to_string());
    let l1 = log.record("here", "first", "{}", 5);
    let l2 = log.record("there", "second", "{}", 9);
    assert_eq!(log.entries.len(), 2);
    assert_eq!(log.entries[0].location, "here");
    assert_eq!(log.entries[0].message, "first");
    assert_eq!(log.entries[0].timestamp, 5);
    assert_eq!(log.entries[1].location, "there");
    assert_eq!(log.entries[1].timestamp, 9);
    for ev in &log.entries {
        assert_eq!(ev.session_id, "debug-session");
        assert_eq!(ev.run_id, "run1");
    }
    assert_eq!(
        l1,
        "{\"location\":\"here\",\"message\":\"first\",\"data\":{},\"timestamp\":5,\"sessionId\":\"debug-session\",\"runId\":\"run1\"}"
    );
    assert_eq!(
        l2,
        "{\"location\":\"there\",\"message\":\"second\",\"data\":{},\"timestamp\":9,\"sessionId\":\"debug-session\",\"runId\":\"run1\"}"
    );
}

#[test]
fn timestamps_never_decrease() {
    let mut log = DiagnosticLog::new("s".to_string(), "r".to_string());
    log.record("a", "m", "{}", 10);
    log.record("b", "m", "{}", 3);
    log.record("c", "m", "{}", 12);
    assert_eq!(log.entries[0].timestamp, 10);
    assert_eq!(log.entries[1].timestamp, 10);
    assert_eq!(log.entries[2].timestamp, 12);
}

#[test]
fn recording_never_fails_and_never_mutates_old_entries() {
    let mut log = DiagnosticLog::new("s".to_string(), "r".to_string());
    log.record("a", "first", "{}", 1);
    let before = log.entries[0].message.clone();
    for i in 0..100u64 {
        log.record("b", "again", "{}", i);
    }
    assert_eq!(log.entries.len(), 101);
    assert_eq!(log.entries[0].message, before);
}

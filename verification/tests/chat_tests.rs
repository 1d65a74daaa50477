use std::sync::atomic::{AtomicBool, Ordering};
use std::sync::mpsc::channel;
use std::sync::Arc;

use secops_endpoint_ui::chat::{
    inbound_payload, next_connect_step, outbound_line, wants_connection, ChatHandle, ConnectStep, Message,
    CONNECT_TIMEOUT_MS, RETRY_PAUSE_MS,
};

fn msg(kind: &str, text: &str) -> Message {
    Message {
        kind: kind.to_string(),
        session_id: "s1".to_string(),
        from: "admin".to_string(),
        text: text.to_string(),
        ts: 7,
    }
}

#[test]
fn inbound_lines_are_trimmed_and_blank_lines_skipped() {
    assert_eq!(inbound_payload("  {\"type\":\"chat\"}\r"), Some("{\"type\":\"chat\"}"));
    assert_eq!(inbound_payload("   \t"), None);
    assert_eq!(inbound_payload(""), None);
}

#[test]
fn outbound_line_ends_in_newline() {
    assert_eq!(outbound_line("{}"), "{}\n");
    assert_eq!(outbound_line(""), "\n");
}

#[test]
fn handle_drains_sends_and_reports_flags() {
    let (in_tx, in_rx) = channel::<Message>();
    let (out_tx, out_rx) = channel::<Message>();
    let connected = Arc::new(AtomicBool::new(false));
    let failed = Arc::new(AtomicBool::new(false));
    let mut h = ChatHandle::new(in_rx, out_tx, connected.clone(), failed.clone());

    assert!(h.poll().is_empty());
    in_tx.send(msg("chat", "one")).unwrap();
    in_tx.send(msg("chat", "two")).unwrap();
    let got = h.poll();
    assert_eq!(got.len(), 2);
    assert_eq!(got[0].text, "one");
    assert_eq!(got[1].text, "two");
    assert!(h.poll().is_empty());

    h.send(msg("disconnect", ""));
    assert_eq!(out_rx.try_recv().unwrap().kind, "disconnect");

    assert!(!h.connected());
    connected.store(true, Ordering::Relaxed);
    assert!(h.connected());
    assert!(!h.failed());
    failed.store(true, Ordering::Relaxed);
    assert!(h.failed());
}

#[test]
fn send_after_the_other_end_is_gone_is_silent() {
    let (_in_tx, in_rx) = channel::<Message>();
    let (out_tx, out_rx) = channel::<Message>();
    drop(out_rx);
    let mut h = ChatHandle::new(in_rx, out_tx, Arc::new(AtomicBool::new(false)), Arc::new(AtomicBool::new(false)));
    h.send(msg("chat", "lost"));
}

#[test]
fn connection_policy() {
    assert!(!wants_connection(""));
    assert!(wants_connection("127.0.0.1:9765"));
    for failures in 0..10u32 {
        assert_eq!(next_connect_step(failures), ConnectStep::Attempt);
    }
    assert_eq!(next_connect_step(10), ConnectStep::GiveUp);
    assert_eq!(next_connect_step(u32::MAX), ConnectStep::GiveUp);
    assert_eq!(CONNECT_TIMEOUT_MS, 2000);
    assert_eq!(RETRY_PAUSE_MS, 500);
}

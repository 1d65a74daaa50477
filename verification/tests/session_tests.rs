use std::sync::atomic::{AtomicBool, Ordering};
use std::sync::mpsc::{channel, Receiver, Sender};
use std::sync::Arc;

use secops_endpoint_ui::chat::{ChatHandle, Message};
use secops_endpoint_ui::session::{
    connection_status, disconnect_message, is_user_line, sender_label, speaker_breaks,
    user_chat_message, ChatLine, ConnectionStatus, SessionApp,
};

struct Rig {
    app: SessionApp,
    to_app: Sender<Message>,
    from_app: Receiver<Message>,
    connected: Arc<AtomicBool>,
    failed: Arc<AtomicBool>,
}

fn rig() -> Rig {
    let (to_app, in_rx) = channel::<Message>();
    let (out_tx, from_app) = channel::<Message>();
    let connected = Arc::new(AtomicBool::new(false));
    let failed = Arc::new(AtomicBool::new(false));
    let chat = ChatHandle::new(in_rx, out_tx, connected.clone(), failed.clone());
    let app = SessionApp::new("Dana".to_string(), "sess-9".to_string(), chat);
    Rig { app, to_app, from_app, connected, failed }
}

fn incoming(kind: &str, from: &str, text: &str, ts: u64) -> Message {
    Message {
        kind: kind.to_string(),
        session_id: "sess-9".to_string(),
        from: from.to_string(),
        text: text.to_string(),
        ts,
    }
}

#[test]
fn new_session_is_empty_and_wants_focus() {
    let r = rig();
    assert!(r.app.history.is_empty());
    assert!(r.app.input.is_empty());
    assert!(r.app.toast.is_none());
    assert!(r.app.closing_at_ms.is_none());
    assert!(r.app.pending_focus);
    assert!(!r.app.positioned);
}

#[test]
fn blank_input_is_not_sent() {
    let mut r = rig();
    r.app.input = "  \t ".to_string();
    r.app.pending_focus = false;
    r.app.send_user_text_at(5);
    assert!(r.app.history.is_empty());
    assert_eq!(r.app.input, "  \t ");
    assert!(!r.app.pending_focus);
    assert!(r.from_app.try_recv().is_err());
}

#[test]
fn typed_text_is_trimmed_sent_and_recorded() {
    let mut r = rig();
    r.app.input = "  hello there  ".to_string();
    r.app.pending_focus = false;
    r.app.send_user_text_at(1234);
    assert_eq!(r.app.history.len(), 1);
    assert_eq!(r.app.history[0].from, "user");
    assert_eq!(r.app.history[0].text, "hello there");
    assert_eq!(r.app.history[0].ts, 1234);
    assert!(r.app.input.is_empty());
    assert!(r.app.pending_focus);
    let sent = r.from_app.try_recv().unwrap();
    assert_eq!(sent.kind, "chat");
    assert_eq!(sent.session_id, "sess-9");
    assert_eq!(sent.from, "user");
    assert_eq!(sent.text, "hello there");
    assert_eq!(sent.ts, 1234);
}

#[test]
fn send_user_text_stamps_current_time() {
    let mut r = rig();
    r.app.input = "hi".to_string();
    r.app.send_user_text();
    assert!(r.app.history[0].ts > 1_577_836_800_000);
}

#[test]
fn incoming_chat_defaults_sender_and_time() {
    let mut r = rig();
    r.app.receive(&incoming("chat", "", "hello", 0), 10, 777);
    r.app.receive(&incoming("chat", "Tech", "again", 55), 10, 777);
    r.app.receive(&incoming("typing", "Tech", "...", 1), 10, 777);
    assert_eq!(r.app.history.len(), 2);
    assert_eq!(r.app.history[0].from, "admin");
    assert_eq!(r.app.history[0].ts, 777);
    assert_eq!(r.app.history[1].from, "Tech");
    assert_eq!(r.app.history[1].ts, 55);
    assert!(r.app.toast.is_none());
}

#[test]
fn session_end_schedules_close_in_three_seconds() {
    let mut r = rig();
    r.app.receive(&incoming("session_end", "", "", 0), 1000, 1);
    let t = r.app.toast.as_ref().unwrap();
    assert_eq!(t.text, "Session ended by technician");
    assert_eq!(t.until_ms, 4000);
    assert!(t.danger);
    assert_eq!(r.app.closing_at_ms, Some(4000));
    assert!(!r.app.frame_start(3999, false));
    assert!(r.app.frame_start(4000, false));
}

#[test]
fn disconnect_happens_once() {
    let mut r = rig();
    r.app.disconnect(100);
    assert_eq!(r.app.closing_at_ms, Some(1100));
    let t = r.app.toast.as_ref().unwrap();
    assert_eq!(t.text, "Disconnecting…");
    assert_eq!(t.until_ms, 1200);
    assert!(!t.danger);
    let sent = r.from_app.try_recv().unwrap();
    assert_eq!(sent.kind, "disconnect");
    assert_eq!(sent.text, "");
    r.app.disconnect(500);
    assert_eq!(r.app.closing_at_ms, Some(1100));
    assert_eq!(r.app.toast.as_ref().unwrap().until_ms, 1200);
    assert!(r.from_app.try_recv().is_err());
}

#[test]
fn frame_start_polls_and_turns_close_request_into_disconnect() {
    let mut r = rig();
    r.to_app.send(incoming("chat", "admin", "a", 3)).unwrap();
    r.to_app.send(incoming("chat", "admin", "b", 4)).unwrap();
    assert!(!r.app.frame_start(50, true));
    assert_eq!(r.app.history.len(), 2);
    assert_eq!(r.app.closing_at_ms, Some(1050));
    assert_eq!(r.from_app.try_recv().unwrap().kind, "disconnect");
    assert!(r.app.frame_start(1050, false));
}

#[test]
fn history_only_grows() {
    let mut r = rig();
    r.app.receive(&incoming("chat", "x", "1", 1), 0, 0);
    r.app.input = "2".to_string();
    r.app.send_user_text_at(2);
    r.app.receive(&incoming("session_end", "", "", 0), 0, 0);
    r.app.disconnect(0);
    r.app.expire_toast(10_000);
    r.app.receive(&incoming("chat", "x", "3", 3), 0, 0);
    let texts: Vec<&str> = r.app.history.iter().map(|l| l.text.as_str()).collect();
    assert_eq!(texts, vec!["1", "2", "3"]);
    assert_eq!(r.app.closing_at_ms, Some(3000));
}

#[test]
fn submit_sends_or_hands_over_focus() {
    let mut r = rig();
    assert!(r.app.submit_at(false, false, 1));
    assert!(!r.app.pending_focus);
    assert!(!r.app.submit_at(false, false, 1));
    r.app.input = "   ".to_string();
    assert!(!r.app.submit_at(true, false, 1));
    assert!(r.app.history.is_empty());
    r.app.input = "ok".to_string();
    assert!(r.app.submit_at(false, true, 9));
    assert_eq!(r.app.history.len(), 1);
    assert_eq!(r.app.history[0].ts, 9);
    assert!(r.app.pending_focus);
    r.app.input = "now".to_string();
    assert!(r.app.submit(true, false));
    assert_eq!(r.app.history.len(), 2);
}

#[test]
fn toast_expires_at_its_deadline() {
    let mut r = rig();
    r.app.disconnect(0);
    r.app.expire_toast(1099);
    assert!(r.app.toast.is_some());
    r.app.expire_toast(1100);
    assert!(r.app.toast.is_none());
}

#[test]
fn bubble_helpers() {
    assert!(is_user_line("user"));
    assert!(is_user_line("USER"));
    assert!(!is_user_line("admin"));
    assert_eq!(sender_label("", "Dana"), "Dana");
    assert_eq!(sender_label("Admin", "Dana"), "Dana");
    assert_eq!(sender_label("Tech Two", "Dana"), "Tech Two");
    let lines = vec![
        ChatLine { from: "admin".into(), text: "a".into(), ts: 1 },
        ChatLine { from: "Admin".into(), text: "b".into(), ts: 2 },
        ChatLine { from: "user".into(), text: "c".into(), ts: 3 },
        ChatLine { from: "".into(), text: "d".into(), ts: 4 },
    ];
    assert_eq!(speaker_breaks(&lines), vec![true, false, true, true]);
    let first_blank = vec![ChatLine { from: "".into(), text: "x".into(), ts: 1 }];
    assert_eq!(speaker_breaks(&first_blank), vec![false]);
}

#[test]
fn status_follows_flags() {
    assert_eq!(connection_status(true, true), ConnectionStatus::Disconnected);
    assert_eq!(connection_status(false, false), ConnectionStatus::Connecting);
    assert_eq!(connection_status(false, true), ConnectionStatus::Connected);
    assert_eq!(ConnectionStatus::Connecting.label(), "Connecting…");
    let r = rig();
    assert_eq!(r.app.status(), ConnectionStatus::Connecting);
    r.connected.store(true, Ordering::Relaxed);
    assert_eq!(r.app.status(), ConnectionStatus::Connected);
    r.failed.store(true, Ordering::Relaxed);
    assert_eq!(r.app.status(), ConnectionStatus::Disconnected);
}

#[test]
fn outgoing_messages() {
    let m = user_chat_message("s", "t", 3);
    assert_eq!((m.kind.as_str(), m.session_id.as_str(), m.from.as_str(), m.text.as_str(), m.ts), ("chat", "s", "user", "t", 3));
    let d = disconnect_message("s", 4);
    assert_eq!((d.kind.as_str(), d.from.as_str(), d.text.as_str(), d.ts), ("disconnect", "user", "", 4));
}

#[test]
fn a_batch_is_taken_in_order_with_its_stamps() {
    let mut r = rig();
    let batch = vec![
        incoming("chat", "", "first", 0),
        incoming("typing", "x", "ignored", 0),
        incoming("chat", "Tech", "second", 0),
        incoming("session_end", "", "", 0),
    ];
    r.app.receive_all(&batch, &vec![11, 22, 33, 44], 500);
    assert_eq!(r.app.history.len(), 2);
    assert_eq!((r.app.history[0].from.as_str(), r.app.history[0].text.as_str(), r.app.history[0].ts), ("admin", "first", 11));
    assert_eq!((r.app.history[1].from.as_str(), r.app.history[1].text.as_str(), r.app.history[1].ts), ("Tech", "second", 33));
    assert_eq!(r.app.closing_at_ms, Some(3500));
    assert!(r.app.toast.as_ref().unwrap().danger);
}

#[test]
fn disconnect_at_sends_the_stamped_message_once() {
    let mut r = rig();
    r.app.disconnect_at(10, 4242);
    let sent = r.from_app.try_recv().unwrap();
    assert_eq!((sent.kind.as_str(), sent.session_id.as_str(), sent.from.as_str(), sent.text.as_str(), sent.ts), ("disconnect", "sess-9", "user", "", 4242));
    r.app.disconnect_at(20, 1);
    assert!(r.from_app.try_recv().is_err());
    assert_eq!(r.app.closing_at_ms, Some(1010));
}

#[test]
fn disconnect_while_closing_changes_nothing_even_late_on_the_clock() {
    let mut r = rig();
    r.app.disconnect_at(100, 5);
    assert_eq!(r.app.closing_at_ms, Some(1100));
    assert_eq!(r.from_app.try_recv().unwrap().ts, 5);
    r.app.disconnect_at(u64::MAX, 6);
    r.app.disconnect(u64::MAX);
    assert_eq!(r.app.closing_at_ms, Some(1100));
    assert_eq!(r.app.toast.as_ref().unwrap().until_ms, 1200);
    assert!(r.from_app.try_recv().is_err());
}

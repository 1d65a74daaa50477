use secops_endpoint_ui::consent::{countdown_tone, result_line, ConsentApp, Decision, Tone};

fn app(session: &str, timeout: u64) -> ConsentApp {
    ConsentApp::new("IT Support".to_string(), "it@example.com".to_string(), session.to_string(), timeout)
}

#[test]
fn result_line_reports_decision_and_escaped_id() {
    assert_eq!(
        result_line(Some(Decision::Accepted), "abc"),
        r#"{"result":"accepted","session_id":"abc"}"#
    );
    assert_eq!(
        result_line(Some(Decision::Declined), "a\"b"),
        r#"{"result":"declined","session_id":"a\"b"}"#
    );
    assert_eq!(result_line(None, ""), r#"{"result":"declined","session_id":""}"#);
}

#[test]
fn new_dialog_starts_undecided() {
    let a = app("s", 0);
    assert_eq!(a.countdown_total(), 1);
    assert_eq!(a.countdown().total_secs(), 1);
    assert!(a.decision().is_none());
    assert!(a.closing_at_ms().is_none());
    assert!(!a.output_written());
    let b = app("s", 45);
    assert_eq!(b.countdown_total(), 45);
}

#[test]
fn first_decision_is_final_and_written_once() {
    let mut a = app("sess-1", 30);
    let line = a.record(Decision::Accepted, 1000);
    assert_eq!(line.as_deref(), Some(r#"{"result":"accepted","session_id":"sess-1"}"#));
    assert_eq!(a.decision(), Some(Decision::Accepted));
    assert_eq!(a.closing_at_ms(), Some(1180));
    assert!(a.output_written());
    assert_eq!(a.record(Decision::Declined, 2000), None);
    assert_eq!(a.decision(), Some(Decision::Accepted));
    assert_eq!(a.closing_at_ms(), Some(1180));
}

#[test]
fn close_request_declines() {
    let mut a = app("x", 30);
    let f = a.frame(true, true, 500);
    assert_eq!(f.output.as_deref(), Some(r#"{"result":"declined","session_id":"x"}"#));
    assert!(!f.close_window);
    assert_eq!(a.decision(), Some(Decision::Declined));
}

#[test]
fn expiry_accepts_and_window_closes_after_delay() {
    let mut a = app("x", 30);
    let f = a.frame(false, false, 100);
    assert!(f.output.is_none() && !f.close_window);
    let f = a.frame(false, true, 200);
    assert_eq!(f.output.as_deref(), Some(r#"{"result":"accepted","session_id":"x"}"#));
    assert!(!f.close_window);
    let f = a.frame(false, true, 379);
    assert!(f.output.is_none() && !f.close_window);
    let f = a.frame(true, true, 380);
    assert!(f.output.is_none() && f.close_window);
    assert_eq!(a.decision(), Some(Decision::Accepted));
}

#[test]
fn only_one_line_over_many_frames() {
    let mut a = app("y", 5);
    let mut lines = 0;
    for (i, (close, expired)) in [(false, false), (false, true), (true, true), (true, false), (false, true)]
        .iter()
        .enumerate()
    {
        if a.frame(*close, *expired, i as u64 * 100).output.is_some() {
            lines += 1;
        }
        if a.record(Decision::Declined, i as u64 * 100).is_some() {
            lines += 1;
        }
    }
    assert_eq!(lines, 1);
    assert_eq!(a.decision(), Some(Decision::Declined));
}

#[test]
fn update_reads_the_countdown() {
    let mut a = app("z", 30);
    let f = a.update(false, 10);
    assert!(f.output.is_none());
    assert!(a.decision().is_none());
    assert!(a.remaining_secs() <= 30);
    let f = a.update(true, 20);
    assert!(f.output.is_some());
    assert_eq!(a.decision(), Some(Decision::Declined));
}

#[test]
fn tone_follows_remaining_seconds() {
    assert_eq!(countdown_tone(0), Tone::Danger);
    assert_eq!(countdown_tone(5), Tone::Danger);
    assert_eq!(countdown_tone(6), Tone::Warning);
    assert_eq!(countdown_tone(15), Tone::Warning);
    assert_eq!(countdown_tone(16), Tone::Primary);
}

#[test]
fn result_line_with_line_break_in_id_stays_one_json_line() {
    let line = result_line(Some(Decision::Accepted), "id\nwith \"break\"");
    assert!(!line.contains('\n'));
    let v: serde_json::Value = serde_json::from_str(&line).unwrap();
    assert_eq!(v["result"], "accepted");
    assert_eq!(v["session_id"], "id\nwith \"break\"");
}

#[test]
fn second_decision_changes_nothing_even_late_on_the_clock() {
    let mut a = app("late", 30);
    assert!(a.record(Decision::Declined, 10).is_some());
    assert_eq!(a.record(Decision::Accepted, u64::MAX), None);
    assert_eq!(a.decision(), Some(Decision::Declined));
    assert_eq!(a.closing_at_ms(), Some(190));
}

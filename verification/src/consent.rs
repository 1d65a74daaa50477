use vstd::prelude::*;

use crate::text::{
    escape_json, escape_spec, is_json_control, is_json_string_body,
    lemma_escape_is_json_string_body, lemma_escape_no_control, lemma_unescape_escape,
    unescape_spec,
};
use crate::timer::{expired_spec, nanos_per_sec, remaining_nanos_spec, Countdown};

verus! {

/// The user's answer to the access request.
#[derive(Debug, Clone, Copy, PartialEq, Eq, Structural)]
pub enum Decision {
    Accepted,
    Declined,
}

/// The colour role of the countdown: calm, then warning, then danger.
#[derive(Debug, Clone, Copy, PartialEq, Eq, Structural)]
pub enum Tone {
    Primary,
    Warning,
    Danger,
}

/// The countdown's colour for `remaining_secs` seconds left: danger from
/// five seconds down, warning from fifteen, calm above.
pub open spec fn tone_spec(remaining_secs: u64) -> Tone {
    if remaining_secs <= 5 {
        Tone::Danger
    } else if remaining_secs <= 15 {
        Tone::Warning
    } else {
        Tone::Primary
    }
}

/// The countdown's colour for `remaining_secs` seconds left.
pub fn countdown_tone(remaining_secs: u64) -> (t: Tone)
    ensures
        t == tone_spec(remaining_secs),
{
    if remaining_secs <= 5 {
        Tone::Danger
    } else if remaining_secs <= 15 {
        Tone::Warning
    } else {
        Tone::Primary
    }
}

/// The word that reports a decision; no decision counts as declined.
pub open spec fn result_word(d: Option<Decision>) -> Seq<char> {
    match d {
        Some(Decision::Accepted) => "accepted"@,
        _ => "declined"@,
    }
}

/// The one JSON line that the consent dialog writes on stdout:
/// `{"result":"accepted|declined","session_id":"<id>"}`, the session id
/// escaped.
pub open spec fn result_line_spec(d: Option<Decision>, session_id: Seq<char>) -> Seq<char> {
    result_line_head(d) + escape_spec(session_id) + "\"}"@
}

/// The result line up to where the session id's text starts.
pub open spec fn result_line_head(d: Option<Decision>) -> Seq<char> {
    "{\"result\":\""@ + result_word(d) + "\",\"session_id\":\""@
}

/// The result line is one line of JSON: it holds no control character (so
/// no line break), and the text between the session id's quotes reads back
/// as the session id.
pub proof fn lemma_result_line_is_one_json_line(d: Option<Decision>, session_id: Seq<char>)
    ensures
        forall|i: int|
            0 <= i < result_line_spec(d, session_id).len() ==> !is_json_control(
                #[trigger] result_line_spec(d, session_id)[i],
            ),
        result_line_spec(d, session_id).subrange(
            result_line_head(d).len() as int,
            (result_line_head(d).len() + escape_spec(session_id).len()) as int,
        ) == escape_spec(session_id),
        unescape_spec(escape_spec(session_id)) == session_id,
        is_json_string_body(escape_spec(session_id)),
{
    lemma_escape_is_json_string_body(session_id);
    reveal_strlit("{\"result\":\"");
    reveal_strlit("accepted");
    reveal_strlit("declined");
    reveal_strlit("\",\"session_id\":\"");
    reveal_strlit("\"}");
    lemma_escape_no_control(session_id);
    lemma_unescape_escape(session_id);
    let head = result_line_head(d);
    let esc = escape_spec(session_id);
    let tail = "\"}"@;
    let line = result_line_spec(d, session_id);
    assert(line == head + esc + tail);
    assert(line.subrange(head.len() as int, (head.len() + esc.len()) as int) =~= esc);
    assert forall|i: int| 0 <= i < line.len() implies !is_json_control(#[trigger] line[i]) by {
        if i < head.len() {
            assert(line[i] == head[i]);
            assert(forall|k: int| 0 <= k < head.len() ==> (#[trigger] head[k] as u32) >= 0x20);
        } else if i < head.len() + esc.len() {
            assert(line[i] == esc[i - head.len()]);
        } else {
            assert(line[i] == tail[i - head.len() - esc.len()]);
        }
    }
}

/// The JSON line that reports decision `d` for the session `session_id`.
pub fn result_line(d: Option<Decision>, session_id: &str) -> (r: String)
    ensures
        r@ == result_line_spec(d, session_id@),
{
    let mut out = "{\"result\":\"".to_owned();
    match d {
        Some(Decision::Accepted) => out.append("accepted"),
        _ => out.append("declined"),
    }
    out.append("\",\"session_id\":\"");
    let esc = escape_json(session_id);
    out.append(esc.as_str());
    out.append("\"}");
    out
}

/// Milliseconds between a decision and the dialog closing.
pub open spec fn close_delay_ms() -> u64 {
    180
}

/// The part of the dialog's state that its decisions change.
pub struct ConsentState {
    pub decision: Option<Decision>,
    pub closing_at_ms: Option<u64>,
    pub output_written: bool,
}

/// The state before anything has happened.
pub open spec fn initial_consent_state() -> ConsentState {
    ConsentState { decision: None, closing_at_ms: None, output_written: false }
}

/// Writing the result: done once; afterwards nothing more is written.
/// The flag says whether a line is written now.
pub open spec fn write_output_spec(s: ConsentState) -> (ConsentState, bool) {
    if s.output_written {
        (s, false)
    } else {
        (ConsentState { output_written: true, ..s }, true)
    }
}

/// Recording decision `d` at `now_ms`: only the first decision counts; it is
/// written out and the dialog is set to close shortly after.
pub open spec fn record_spec(s: ConsentState, d: Decision, now_ms: u64) -> (ConsentState, bool) {
    if s.decision is Some {
        (s, false)
    } else {
        let s1 = ConsentState { decision: Some(d), ..s };
        let (s2, wrote) = write_output_spec(s1);
        (ConsentState { closing_at_ms: Some((now_ms + close_delay_ms()) as u64), ..s2 }, wrote)
    }
}

/// One frame of the dialog at `now_ms`: a close request without a decision
/// declines; an expired countdown without a decision accepts. The second
/// flag says whether the window is to close now.
pub open spec fn frame_spec(s: ConsentState, close_requested: bool, expired: bool, now_ms: u64) -> (
    ConsentState,
    bool,
    bool,
) {
    let (s1, w1) = if close_requested && s.decision is None {
        record_spec(s, Decision::Declined, now_ms)
    } else {
        (s, false)
    };
    let close = match s1.closing_at_ms {
        Some(t) => now_ms >= t,
        None => false,
    };
    let (s2, w2) = if s1.decision is None && expired {
        record_spec(s1, Decision::Accepted, now_ms)
    } else {
        (s1, false)
    };
    (s2, w1 || w2, close)
}

/// Whether a countdown of `total_secs` seconds has run out `now_ms`
/// milliseconds after it started.
pub open spec fn countdown_over(total_secs: u64, now_ms: u64) -> bool {
    expired_spec(total_secs, (now_ms * 1_000_000) as u128)
}

/// A countdown has run out exactly when the milliseconds since it started
/// reach its length in seconds times a thousand.
pub proof fn lemma_countdown_over(total_secs: u64, now_ms: u64)
    ensures
        countdown_over(total_secs, now_ms) <==> now_ms >= total_secs * 1000,
{
    assert(now_ms * 1_000_000 >= total_secs * nanos_per_sec() <==> now_ms >= total_secs * 1000)
        by (nonlinear_arith);
}

/// What one frame of the consent dialog asks of the window.
pub struct ConsentFrame {
    /// The result line to print on stdout, when one is due.
    pub output: Option<String>,
    /// Whether the window is to close.
    pub close_window: bool,
}

/// The consent dialog as plain values: who asks, for which session, the
/// countdown, and the state that the decisions change.
pub struct ConsentView {
    pub admin_name: Seq<char>,
    pub admin_email: Seq<char>,
    pub session_id: Seq<char>,
    pub countdown: Countdown,
    pub countdown_total: u64,
    pub state: ConsentState,
}

/// The consent dialog: who asks, for which session, the countdown, and the
/// user's decision.
pub struct ConsentApp {
    admin_name: String,
    admin_email: String,
    session_id: String,
    countdown: Countdown,
    countdown_total: u64,
    decision: Option<Decision>,
    closing_at_ms: Option<u64>,
    output_written: bool,
}

impl View for ConsentApp {
    type V = ConsentView;

    closed spec fn view(&self) -> ConsentView {
        ConsentView {
            admin_name: self.admin_name@,
            admin_email: self.admin_email@,
            session_id: self.session_id@,
            countdown: self.countdown,
            countdown_total: self.countdown_total,
            state: ConsentState {
                decision: self.decision,
                closing_at_ms: self.closing_at_ms,
                output_written: self.output_written,
            },
        }
    }
}

impl ConsentApp {
    /// The technician asking for access.
    pub fn admin_name(&self) -> (r: &str)
        ensures
            r@ == self@.admin_name,
    {
        self.admin_name.as_str()
    }

    /// The technician's e-mail address; empty when not known.
    pub fn admin_email(&self) -> (r: &str)
        ensures
            r@ == self@.admin_email,
    {
        self.admin_email.as_str()
    }

    /// The session the request is for.
    pub fn session_id(&self) -> (r: &str)
        ensures
            r@ == self@.session_id,
    {
        self.session_id.as_str()
    }

    /// The countdown's length in seconds.
    pub fn countdown_total(&self) -> (r: u64)
        ensures
            r == self@.countdown_total,
    {
        self.countdown_total
    }

    /// The dialog's countdown.
    pub fn countdown(&self) -> (c: &Countdown)
        ensures
            *c == self@.countdown,
    {
        &self.countdown
    }

    /// The decision made, if any.
    pub fn decision(&self) -> (d: Option<Decision>)
        ensures
            d == self@.state.decision,
    {
        self.decision
    }

    /// When the window is to close, in milliseconds on its clock, once a
    /// decision is made.
    pub fn closing_at_ms(&self) -> (t: Option<u64>)
        ensures
            t == self@.state.closing_at_ms,
    {
        self.closing_at_ms
    }

    /// Whether the result line has been given out.
    pub fn output_written(&self) -> (w: bool)
        ensures
            w == self@.state.output_written,
    {
        self.output_written
    }

    /// A dialog for `admin_name` asking access to `session_id`, which
    /// accepts by itself after `timeout` seconds (at least one).
    pub fn new(admin_name: String, admin_email: String, session_id: String, timeout: u64) -> (app:
        Self)
        ensures
            app@.admin_name == admin_name@,
            app@.admin_email == admin_email@,
            app@.session_id == session_id@,
            app@.countdown_total == if timeout == 0 { 1 } else { timeout },
            app@.countdown.total_secs_spec() == app@.countdown_total,
            app@.state == initial_consent_state(),
    {
        let countdown = Countdown::new(timeout);
        ConsentApp {
            admin_name,
            admin_email,
            session_id,
            countdown,
            countdown_total: if timeout == 0 {
                1
            } else {
                timeout
            },
            decision: None,
            closing_at_ms: None,
            output_written: false,
        }
    }

    /// The result line, the first time it is asked for; `None` afterwards.
    fn write_output(&mut self) -> (line: Option<String>)
        ensures
            final(self)@ == (ConsentView {
                state: write_output_spec(old(self)@.state).0,
                ..old(self)@
            }),
            line is Some == write_output_spec(old(self)@.state).1,
            line matches Some(l) ==> l@ == result_line_spec(
                old(self)@.state.decision,
                old(self)@.session_id,
            ),
    {
        if self.output_written {
            return None;
        }
        self.output_written = true;
        Some(result_line(self.decision, self.session_id.as_str()))
    }

    /// Records decision `d` at `now_ms` (milliseconds on the window's
    /// clock), unless a decision was made before. Gives the result line to
    /// print, the first time one is due.
    pub fn record(&mut self, d: Decision, now_ms: u64) -> (line: Option<String>)
        requires
            old(self)@.state.decision is None ==> now_ms + close_delay_ms() <= u64::MAX,
        ensures
            final(self)@ == (ConsentView {
                state: record_spec(old(self)@.state, d, now_ms).0,
                ..old(self)@
            }),
            line is Some == record_spec(old(self)@.state, d, now_ms).1,
            line matches Some(l) ==> l@ == result_line_spec(Some(d), old(self)@.session_id),
    {
        if self.decision.is_some() {
            return None;
        }
        self.decision = Some(d);
        let line = self.write_output();
        self.closing_at_ms = Some(now_ms + 180);
        line
    }

    /// One frame at `now_ms`, given whether the user asked to close the
    /// window and whether the countdown has run out.
    pub fn frame(&mut self, close_requested: bool, expired: bool, now_ms: u64) -> (f: ConsentFrame)
        requires
            old(self)@.state.decision is None ==> now_ms + close_delay_ms() <= u64::MAX,
        ensures
            final(self)@ == (ConsentView {
                state: frame_spec(old(self)@.state, close_requested, expired, now_ms).0,
                ..old(self)@
            }),
            f.output is Some == frame_spec(old(self)@.state, close_requested, expired, now_ms).1,
            f.close_window == frame_spec(old(self)@.state, close_requested, expired, now_ms).2,
            f.output matches Some(l) ==> l@ == result_line_spec(
                final(self)@.state.decision,
                old(self)@.session_id,
            ),
    {
        let mut output: Option<String> = None;
        if close_requested && self.decision.is_none() {
            output = self.record(Decision::Declined, now_ms);
        }
        let close_window = match self.closing_at_ms {
            Some(t) => now_ms >= t,
            None => false,
        };
        if self.decision.is_none() && expired {
            output = self.record(Decision::Accepted, now_ms);
        }
        ConsentFrame { output, close_window }
    }

    /// One frame at `now_ms`, the milliseconds since the dialog opened: as
    /// `frame`, with the countdown counted as run out once `now_ms` has
    /// reached its length. With no decision made and no close request, a
    /// countdown that has run out accepts and gives the accepted line; one
    /// that has not changes nothing.
    pub fn update(&mut self, close_requested: bool, now_ms: u64) -> (f: ConsentFrame)
        requires
            old(self)@.state.decision is None ==> now_ms + close_delay_ms() <= u64::MAX,
        ensures
            final(self)@ == (ConsentView {
                state: frame_spec(
                    old(self)@.state,
                    close_requested,
                    countdown_over(old(self)@.countdown.total_secs_spec(), now_ms),
                    now_ms,
                ).0,
                ..old(self)@
            }),
            f.output is Some == frame_spec(
                old(self)@.state,
                close_requested,
                countdown_over(old(self)@.countdown.total_secs_spec(), now_ms),
                now_ms,
            ).1,
            f.close_window == frame_spec(
                old(self)@.state,
                close_requested,
                countdown_over(old(self)@.countdown.total_secs_spec(), now_ms),
                now_ms,
            ).2,
            f.output matches Some(l) ==> l@ == result_line_spec(
                final(self)@.state.decision,
                old(self)@.session_id,
            ),
            old(self)@.state.decision is None && !old(self)@.state.output_written
                && !close_requested && now_ms >= old(self)@.countdown.total_secs_spec() * 1000
                ==> final(self)@.state.decision == Some(Decision::Accepted) && f.output
                is Some && f.output.unwrap()@ == result_line_spec(
                Some(Decision::Accepted),
                old(self)@.session_id,
            ) && final(self)@.state.closing_at_ms == Some((now_ms + close_delay_ms()) as u64),
            old(self)@.state.decision is None && !close_requested && now_ms
                < old(self)@.countdown.total_secs_spec() * 1000 ==> final(self)@ == old(self)@
                && f.output is None,
    {
        let elapsed: u128 = now_ms as u128 * 1_000_000;
        let expired = self.countdown.expired_at(elapsed);
        proof {
            lemma_countdown_over(self@.countdown.total_secs_spec(), now_ms);
        }
        self.frame(close_requested, expired, now_ms)
    }

    /// Whole seconds left on the countdown now.
    pub fn remaining_secs(&self) -> (r: u64)
        ensures
            exists|elapsed: u128|
                r == remaining_nanos_spec(self@.countdown.total_secs_spec(), elapsed)
                    / nanos_per_sec(),
    {
        let r = self.countdown.remaining_secs();
        let ghost e = choose|e: u128|
            r == remaining_nanos_spec(self.countdown.total_secs_spec(), e) / nanos_per_sec();
        assert(r == remaining_nanos_spec(self@.countdown.total_secs_spec(), e) / nanos_per_sec());
        r
    }
}

/// Something that happens to the consent dialog.
pub enum ConsentEvent {
    /// A button press recording a decision at a time.
    Record(Decision, u64),
    /// A frame: close requested, countdown expired, time.
    Frame(bool, bool, u64),
}

/// The state after one event, and whether a result line is written.
pub open spec fn consent_step_spec(s: ConsentState, e: ConsentEvent) -> (ConsentState, bool) {
    match e {
        ConsentEvent::Record(d, now) => record_spec(s, d, now),
        ConsentEvent::Frame(c, x, now) => {
            let (s1, w, _) = frame_spec(s, c, x, now);
            (s1, w)
        },
    }
}

/// The state after a run of events, and how many result lines were
/// written along the way.
pub open spec fn consent_run_spec(s: ConsentState, events: Seq<ConsentEvent>) -> (ConsentState, nat)
    decreases events.len(),
{
    if events.len() == 0 {
        (s, 0)
    } else {
        let (s1, n) = consent_run_spec(s, events.drop_last());
        let (s2, w) = consent_step_spec(s1, events.last());
        (s2, n + if w {
            1nat
        } else {
            0nat
        })
    }
}

/// A state in which the result has been written exactly when a decision
/// has been made.
pub open spec fn consent_consistent(s: ConsentState) -> bool {
    s.output_written == (s.decision is Some)
}

/// One event keeps the state consistent; a decision, once made, never
/// changes; a line is written exactly when the first decision is made.
pub proof fn lemma_consent_step(s: ConsentState, e: ConsentEvent)
    requires
        consent_consistent(s),
    ensures
        consent_consistent(consent_step_spec(s, e).0),
        s.decision is Some ==> consent_step_spec(s, e).0.decision == s.decision
            && !consent_step_spec(s, e).1,
        s.decision is None ==> consent_step_spec(s, e).1 == (consent_step_spec(
            s,
            e,
        ).0.decision is Some),
{
}

/// Over any run of events from a consistent state, the decision made first
/// is final, and the dialog writes its result line at most once: exactly
/// once if a decision is made, never if it was made before the run.
pub proof fn lemma_consent_single_output(s: ConsentState, events: Seq<ConsentEvent>)
    requires
        consent_consistent(s),
    ensures
        consent_consistent(consent_run_spec(s, events).0),
        s.decision is Some ==> consent_run_spec(s, events).0.decision == s.decision
            && consent_run_spec(s, events).1 == 0,
        s.decision is None ==> consent_run_spec(s, events).1 == if consent_run_spec(
            s,
            events,
        ).0.decision is Some {
            1nat
        } else {
            0nat
        },
        consent_run_spec(s, events).1 <= 1,
    decreases events.len(),
{
    if events.len() > 0 {
        lemma_consent_single_output(s, events.drop_last());
        let (s1, n) = consent_run_spec(s, events.drop_last());
        lemma_consent_step(s1, events.last());
    }
}

/// Once a decision is made, recording another changes nothing and writes
/// nothing: the first decision wins.
pub proof fn lemma_record_after_decision(s: ConsentState, d: Decision, now_ms: u64)
    requires
        s.decision is Some,
    ensures
        record_spec(s, d, now_ms) == (s, false),
{
}

/// Once the result line is written, writing it again changes nothing and
/// writes nothing.
pub proof fn lemma_write_output_once(s: ConsentState)
    requires
        s.output_written,
    ensures
        write_output_spec(s) == (s, false),
{
}

/// From the start, a close request before any decision declines, and the
/// line written says so.
pub proof fn lemma_close_declines(now_ms: u64, expired: bool)
    requires
        now_ms + close_delay_ms() <= u64::MAX,
    ensures
        frame_spec(initial_consent_state(), true, expired, now_ms).0.decision == Some(
            Decision::Declined,
        ),
        frame_spec(initial_consent_state(), true, expired, now_ms).1,
        !frame_spec(initial_consent_state(), true, expired, now_ms).2,
{
}

/// From the start, an expired countdown with no close request accepts.
pub proof fn lemma_expiry_accepts(now_ms: u64)
    requires
        now_ms + close_delay_ms() <= u64::MAX,
    ensures
        frame_spec(initial_consent_state(), false, true, now_ms).0.decision == Some(
            Decision::Accepted,
        ),
        frame_spec(initial_consent_state(), false, true, now_ms).1,
{
}

/// The window closes once the close delay after the decision has passed,
/// and not before.
pub proof fn lemma_closes_after_delay(s: ConsentState, d: Decision, at: u64, later: u64)
    requires
        s.decision is None,
        at + close_delay_ms() <= u64::MAX,
        later + close_delay_ms() <= u64::MAX,
    ensures
        frame_spec(record_spec(s, d, at).0, false, false, later).2 == (later >= at
            + close_delay_ms()),
{
}

/// With no decision made and no close request, a frame accepts by itself
/// exactly when the countdown's length has passed: it then writes the
/// accepted line and schedules the close; before that it changes nothing.
pub proof fn lemma_accepts_exactly_when_time_is_up(s: ConsentState, total_secs: u64, now_ms: u64)
    requires
        consent_consistent(s),
        s.decision is None,
        now_ms + close_delay_ms() <= u64::MAX,
    ensures
        frame_spec(s, false, countdown_over(total_secs, now_ms), now_ms).0.decision == (if now_ms
            >= total_secs * 1000 {
            Some(Decision::Accepted)
        } else {
            None
        }),
        frame_spec(s, false, countdown_over(total_secs, now_ms), now_ms).1 == (now_ms
            >= total_secs * 1000),
        now_ms >= total_secs * 1000 ==> frame_spec(
            s,
            false,
            countdown_over(total_secs, now_ms),
            now_ms,
        ).0.closing_at_ms == Some((now_ms + close_delay_ms()) as u64),
        now_ms < total_secs * 1000 ==> frame_spec(
            s,
            false,
            countdown_over(total_secs, now_ms),
            now_ms,
        ).0 == s,
{
    lemma_countdown_over(total_secs, now_ms);
}

} // verus!

use vstd::prelude::*;

use crate::chat::{message_views, ChatHandle, ChatView, Message, MessageView};
use crate::text::{
    eq_ignore_ascii_case, eq_ignore_ascii_case_spec, lemma_trim_has_no_outer_space,
    is_white_space, str_equal, trim, trim_spec,
};
use crate::timer::{unix_ms, Elapsed};

verus! {

// ---------------------------------------------------------------------------
// Plain views of the session's values
// ---------------------------------------------------------------------------

/// One line of the chat history.
pub struct ChatLine {
    pub from: String,
    pub text: String,
    pub ts: u64,
}

/// A history line as plain text values.
pub struct ChatLineView {
    pub from: Seq<char>,
    pub text: Seq<char>,
    pub ts: u64,
}

impl View for ChatLine {
    type V = ChatLineView;

    open spec fn view(&self) -> ChatLineView {
        ChatLineView { from: self.from@, text: self.text@, ts: self.ts }
    }
}

/// A short notice shown over the chat until a deadline.
pub struct Toast {
    pub text: String,
    /// The deadline, in milliseconds on the window's clock.
    pub until_ms: u64,
    pub danger: bool,
}

/// A notice as plain values.
pub struct ToastView {
    pub text: Seq<char>,
    pub until_ms: u64,
    pub danger: bool,
}

impl View for Toast {
    type V = ToastView;

    open spec fn view(&self) -> ToastView {
        ToastView { text: self.text@, until_ms: self.until_ms, danger: self.danger }
    }
}

/// The notice as plain values, if any.
pub open spec fn toast_view(t: Option<Toast>) -> Option<ToastView> {
    match t {
        Some(t) => Some(t@),
        None => None,
    }
}

/// The history as plain values.
pub open spec fn history_view(h: Seq<ChatLine>) -> Seq<ChatLineView> {
    h.map_values(|l: ChatLine| l@)
}

/// The session window's state as plain values: who and which session,
/// the chat history, the message being typed, the notice, the closing
/// schedule, the focus request, whether the window has been placed, and the
/// chat handle with its records of messages sent and taken in.
pub struct SessionView {
    pub admin_name: Seq<char>,
    pub session_id: Seq<char>,
    pub history: Seq<ChatLineView>,
    pub input: Seq<char>,
    pub toast: Option<ToastView>,
    pub closing_at_ms: Option<u64>,
    pub pending_focus: bool,
    pub positioned: bool,
    pub chat: ChatView,
}

/// The message that carries the user's `text` for session `session_id`.
pub open spec fn user_message_spec(session_id: Seq<char>, text: Seq<char>, ts: u64) -> MessageView {
    MessageView { kind: "chat"@, session_id, from: "user"@, text, ts }
}

/// The message that tells the agent the user ends session `session_id`.
pub open spec fn disconnect_message_spec(session_id: Seq<char>, ts: u64) -> MessageView {
    MessageView { kind: "disconnect"@, session_id, from: "user"@, text: Seq::empty(), ts }
}

// ---------------------------------------------------------------------------
// What the session logic does, on plain values
// ---------------------------------------------------------------------------

/// Milliseconds the "Disconnecting…" notice stays up.
pub open spec fn disconnect_toast_ms() -> u64 {
    1100
}

/// Milliseconds between asking to disconnect and the window closing.
pub open spec fn disconnect_close_ms() -> u64 {
    1000
}

/// Milliseconds between the technician ending the session and the window
/// closing; the notice stays up as long.
pub open spec fn session_end_ms() -> u64 {
    3000
}

/// Sending what the user typed, at Unix time `ts`: blank input sends
/// nothing; otherwise the trimmed text goes to the agent and joins the
/// history as the user's, the input is cleared and the input field is to
/// take the focus.
pub open spec fn send_spec(v: SessionView, ts: u64) -> SessionView {
    let text = trim_spec(v.input);
    if text.len() == 0 {
        v
    } else {
        SessionView {
            history: v.history.push(ChatLineView { from: "user"@, text, ts }),
            input: Seq::empty(),
            pending_focus: true,
            chat: ChatView {
                sent: v.chat.sent.push(user_message_spec(v.session_id, text, ts)),
                ..v.chat
            },
            ..v
        }
    }
}

/// Asking to disconnect at `now_ms` (window clock), Unix time `ts`: the
/// first time, the disconnect message goes to the agent, a notice goes up
/// and the window is set to close; once a close is scheduled nothing
/// changes and nothing is sent.
pub open spec fn disconnect_spec(v: SessionView, now_ms: u64, ts: u64) -> SessionView {
    if v.closing_at_ms is Some {
        v
    } else {
        SessionView {
            chat: ChatView {
                sent: v.chat.sent.push(disconnect_message_spec(v.session_id, ts)),
                ..v.chat
            },
            toast: Some(
                ToastView {
                    text: "Disconnecting…"@,
                    until_ms: (now_ms + disconnect_toast_ms()) as u64,
                    danger: false,
                },
            ),
            closing_at_ms: Some((now_ms + disconnect_close_ms()) as u64),
            ..v
        }
    }
}

/// A message from the agent at `now_ms` (window clock) and `unix_now`
/// (wall clock): a chat line joins the history, with "admin" for a missing
/// sender and the current time for a missing timestamp; a session end puts
/// up a notice and sets the window to close; anything else is ignored.
pub open spec fn receive_spec(v: SessionView, m: MessageView, now_ms: u64, unix_now: u64) -> SessionView {
    if m.kind == "chat"@ {
        SessionView {
            history: v.history.push(
                ChatLineView {
                    from: if m.from.len() == 0 {
                        "admin"@
                    } else {
                        m.from
                    },
                    text: m.text,
                    ts: if m.ts > 0 {
                        m.ts
                    } else {
                        unix_now
                    },
                },
            ),
            ..v
        }
    } else if m.kind == "session_end"@ {
        SessionView {
            toast: Some(
                ToastView {
                    text: "Session ended by technician"@,
                    until_ms: (now_ms + session_end_ms()) as u64,
                    danger: true,
                },
            ),
            closing_at_ms: Some((now_ms + session_end_ms()) as u64),
            ..v
        }
    } else {
        v
    }
}

/// Taking in a run of messages, each with the wall-clock time at which
/// it is taken in, at `now_ms` on the window's clock.
pub open spec fn receive_all_spec(v: SessionView, received: Seq<(MessageView, u64)>, now_ms: u64) -> SessionView
    decreases received.len(),
{
    if received.len() == 0 {
        v
    } else {
        let (m, unix_now) = received.last();
        receive_spec(receive_all_spec(v, received.drop_last(), now_ms), m, now_ms, unix_now)
    }
}

/// Message `i` of `ms` paired with stamp `i` of `stamps`.
pub open spec fn zip_spec(ms: Seq<MessageView>, stamps: Seq<u64>) -> Seq<(MessageView, u64)> {
    Seq::new(ms.len(), |i: int| (ms[i], stamps[i]))
}

/// The state once `polled` has joined the chat handle's record of
/// messages taken in, and `drained` tells whether the incoming queue was
/// then found empty, before any of the messages is acted on.
pub open spec fn with_polled(v: SessionView, polled: Seq<MessageView>, drained: bool) -> SessionView {
    SessionView {
        chat: ChatView { received: v.chat.received + polled, drained, ..v.chat },
        ..v
    }
}

/// Whether a poll could have this outcome: one wall-clock stamp per
/// message taken, and the queue found empty at the end unless the list of
/// messages filled all of memory.
pub open spec fn poll_outcome(polled: Seq<MessageView>, drained: bool, stamps: Seq<u64>) -> bool {
    &&& polled.len() == stamps.len()
    &&& polled.len() < usize::MAX ==> drained
}

/// Taking in the messages `polled` from the agent at `now_ms`, message `i`
/// stamped with Unix time `stamps[i]`, after which the queue was found
/// empty if `drained`.
pub open spec fn poll_chat_spec(
    v: SessionView,
    polled: Seq<MessageView>,
    drained: bool,
    stamps: Seq<u64>,
    now_ms: u64,
) -> SessionView {
    receive_all_spec(with_polled(v, polled, drained), zip_spec(polled, stamps), now_ms)
}

/// The start of a frame at `now_ms`: the messages `polled` are taken in,
/// message `i` at Unix time `stamps[i]`; the window is due to close if its
/// schedule says so; and a close request becomes a disconnect stamped
/// `ts`. Gives the new state and whether the window is to close.
pub open spec fn frame_start_spec(
    v: SessionView,
    polled: Seq<MessageView>,
    drained: bool,
    stamps: Seq<u64>,
    now_ms: u64,
    close_requested: bool,
    ts: u64,
) -> (SessionView, bool) {
    let mid = poll_chat_spec(v, polled, drained, stamps, now_ms);
    (
        if close_requested {
            disconnect_spec(mid, now_ms, ts)
        } else {
            mid
        },
        due_to_close(mid, now_ms),
    )
}

/// Taking down the notice once its deadline has come.
pub open spec fn expire_toast_spec(v: SessionView, now_ms: u64) -> SessionView {
    match v.toast {
        Some(t) => if now_ms >= t.until_ms {
            SessionView { toast: None, ..v }
        } else {
            v
        },
        None => v,
    }
}

/// Whether the composer sends: Enter or the send button, with text that is
/// not blank.
pub open spec fn should_send_spec(enter_pressed: bool, send_clicked: bool, input: Seq<char>) -> bool {
    (enter_pressed || send_clicked) && trim_spec(input).len() > 0
}

/// What the composer does with a key press or click at Unix time `ts`: it
/// sends, or else hands over a pending focus request. The flag says
/// whether the input field is to take the focus.
pub open spec fn submit_spec(v: SessionView, enter_pressed: bool, send_clicked: bool, ts: u64) -> (
    SessionView,
    bool,
) {
    if should_send_spec(enter_pressed, send_clicked, v.input) {
        (send_spec(v, ts), true)
    } else if v.pending_focus {
        (SessionView { pending_focus: false, ..v }, true)
    } else {
        (v, false)
    }
}

/// Whether the window is due to close at `now_ms`.
pub open spec fn due_to_close(v: SessionView, now_ms: u64) -> bool {
    match v.closing_at_ms {
        Some(t) => now_ms >= t,
        None => false,
    }
}

// ---------------------------------------------------------------------------
// Messages the session sends
// ---------------------------------------------------------------------------

/// The chat message that carries the user's `text`.
pub fn user_chat_message(session_id: &str, text: &str, ts: u64) -> (m: Message)
    ensures
        m@ == (MessageView {
            kind: "chat"@,
            session_id: session_id@,
            from: "user"@,
            text: text@,
            ts,
        }),
{
    Message {
        kind: "chat".to_owned(),
        session_id: session_id.to_owned(),
        from: "user".to_owned(),
        text: text.to_owned(),
        ts,
    }
}

/// The message that tells the agent the user ends the session.
pub fn disconnect_message(session_id: &str, ts: u64) -> (m: Message)
    ensures
        m@ == (MessageView {
            kind: "disconnect"@,
            session_id: session_id@,
            from: "user"@,
            text: Seq::empty(),
            ts,
        }),
{
    Message {
        kind: "disconnect".to_owned(),
        session_id: session_id.to_owned(),
        from: "user".to_owned(),
        text: String::new(),
        ts,
    }
}

// ---------------------------------------------------------------------------
// How the chat is shown
// ---------------------------------------------------------------------------

/// Whether a history line was written by the user.
pub fn is_user_line(from: &str) -> (r: bool)
    ensures
        r == eq_ignore_ascii_case_spec(from@, "user"@),
{
    eq_ignore_ascii_case(from, "user")
}

/// The name shown over a line from the technician's side.
pub open spec fn sender_label_spec(from: Seq<char>, admin_name: Seq<char>) -> Seq<char> {
    if from.len() == 0 || eq_ignore_ascii_case_spec(from, "admin"@) {
        admin_name
    } else {
        from
    }
}

/// The name shown over a line from `from`: the technician's name for an
/// empty sender or "admin", the sender otherwise.
pub fn sender_label<'a>(from: &'a str, admin_name: &'a str) -> (r: &'a str)
    ensures
        r@ == sender_label_spec(from@, admin_name@),
{
    if from.unicode_len() == 0 || eq_ignore_ascii_case(from, "admin") {
        admin_name
    } else {
        from
    }
}

/// Whether line `i` of a history starts a new run of lines by one speaker
/// (speakers compared ignoring ASCII case; the first line is compared with
/// an empty name).
pub open spec fn starts_group_spec(h: Seq<ChatLineView>, i: int) -> bool {
    let prev = if i == 0 {
        Seq::<char>::empty()
    } else {
        h[i - 1].from
    };
    !eq_ignore_ascii_case_spec(h[i].from, prev)
}

/// For each history line, whether it starts a new run by one speaker, so
/// that the sender's name is shown over it.
pub fn speaker_breaks(history: &Vec<ChatLine>) -> (r: Vec<bool>)
    ensures
        r@.len() == history@.len(),
        forall|i: int|
            0 <= i < r@.len() ==> #[trigger] r@[i] == starts_group_spec(history_view(history@), i),
{
    let mut r: Vec<bool> = Vec::new();
    let mut i: usize = 0;
    let ghost hv = history_view(history@);
    while i < history.len()
        invariant
            i <= history@.len(),
            hv == history_view(history@),
            r@.len() == i,
            forall|k: int| 0 <= k < i ==> #[trigger] r@[k] == starts_group_spec(hv, k),
        decreases history@.len() - i,
    {
        let b = if i == 0 {
            !eq_ignore_ascii_case(history[i].from.as_str(), "")
        } else {
            !eq_ignore_ascii_case(history[i].from.as_str(), history[i - 1].from.as_str())
        };
        proof {
            if i == 0 {
                reveal_strlit("");
                assert(""@.len() == 0);
                assert(""@ =~= Seq::<char>::empty());
            }
        }
        r.push(b);
        i = i + 1;
    }
    r
}

/// The state of the connection to the agent as the status line shows it.
#[derive(Debug, Clone, Copy, PartialEq, Eq, Structural)]
pub enum ConnectionStatus {
    Disconnected,
    Connecting,
    Connected,
}

/// A failed connection shows as disconnected, one not yet up as
/// connecting.
pub open spec fn connection_status_spec(failed: bool, connected: bool) -> ConnectionStatus {
    if failed {
        ConnectionStatus::Disconnected
    } else if !connected {
        ConnectionStatus::Connecting
    } else {
        ConnectionStatus::Connected
    }
}

/// The status shown for the connection's two flags.
pub fn connection_status(failed: bool, connected: bool) -> (s: ConnectionStatus)
    ensures
        s == connection_status_spec(failed, connected),
{
    if failed {
        ConnectionStatus::Disconnected
    } else if !connected {
        ConnectionStatus::Connecting
    } else {
        ConnectionStatus::Connected
    }
}

impl ConnectionStatus {
    /// The words shown for the status.
    pub fn label(&self) -> (r: &'static str)
        ensures
            r@ == match self {
                ConnectionStatus::Disconnected => "Disconnected"@,
                ConnectionStatus::Connecting => "Connecting…"@,
                ConnectionStatus::Connected => "Connected"@,
            },
    {
        match self {
            ConnectionStatus::Disconnected => "Disconnected",
            ConnectionStatus::Connecting => "Connecting…",
            ConnectionStatus::Connected => "Connected",
        }
    }
}

// ---------------------------------------------------------------------------
// The session window
// ---------------------------------------------------------------------------

/// The live-session overlay: the technician's name, the chat, the message
/// being typed, the session clock, and the notices and closing schedule.
pub struct SessionApp {
    pub admin_name: String,
    pub session_id: String,
    pub chat: ChatHandle,
    pub history: Vec<ChatLine>,
    pub input: String,
    pub elapsed: Elapsed,
    pub toast: Option<Toast>,
    /// When the window is to close, in milliseconds on the window's clock.
    pub closing_at_ms: Option<u64>,
    pub pending_focus: bool,
    pub positioned: bool,
}

impl View for SessionApp {
    type V = SessionView;

    open spec fn view(&self) -> SessionView {
        SessionView {
            admin_name: self.admin_name@,
            session_id: self.session_id@,
            history: history_view(self.history@),
            input: self.input@,
            toast: toast_view(self.toast),
            closing_at_ms: self.closing_at_ms,
            pending_focus: self.pending_focus,
            positioned: self.positioned,
            chat: self.chat@,
        }
    }
}

impl SessionApp {
    /// A fresh session window for `admin_name` and `session_id`, talking to
    /// the agent through `chat`.
    pub fn new(admin_name: String, session_id: String, chat: ChatHandle) -> (app: Self)
        ensures
            app.admin_name == admin_name,
            app.session_id == session_id,
            app@ == (SessionView {
                admin_name: admin_name@,
                session_id: session_id@,
                history: Seq::empty(),
                input: Seq::empty(),
                toast: None,
                closing_at_ms: None,
                pending_focus: true,
                positioned: false,
                chat: chat@,
            }),
    {
        let app = SessionApp {
            admin_name,
            session_id,
            chat,
            history: Vec::new(),
            input: String::new(),
            elapsed: Elapsed::new(),
            toast: None,
            closing_at_ms: None,
            pending_focus: true,
            positioned: false,
        };
        assert(app@.history =~= Seq::<ChatLineView>::empty());
        app
    }

    /// Sends what the user typed, stamped with Unix time `ts`, and adds it
    /// to the history.
    pub fn send_user_text_at(&mut self, ts: u64)
        ensures
            final(self)@ == send_spec(old(self)@, ts),
            final(self).session_id == old(self).session_id,
            final(self).admin_name == old(self).admin_name,
    {
        let ghost before = self@;
        let text = trim(self.input.as_str()).to_owned();
        if text.as_str().unicode_len() == 0 {
            return;
        }
        self.chat.send(user_chat_message(self.session_id.as_str(), text.as_str(), ts));
        let line = ChatLine { from: "user".to_owned(), text, ts };
        self.history.push(line);
        self.input = String::new();
        self.pending_focus = true;
        assert(self@.history =~= before.history.push(
            ChatLineView { from: "user"@, text: trim_spec(before.input), ts },
        ));
        assert(self@ == send_spec(before, ts));
    }

    /// Sends what the user typed, stamped with the current time.
    pub fn send_user_text(&mut self)
        ensures
            exists|ts: u64| final(self)@ == send_spec(old(self)@, ts),
            final(self).session_id == old(self).session_id,
            final(self).admin_name == old(self).admin_name,
    {
        let ts = unix_ms();
        self.send_user_text_at(ts);
    }

    /// Tells the agent, with Unix time `ts`, that the user ends the session,
    /// puts up a notice and sets the window to close (at `now_ms` on the
    /// window's clock), unless a close is already scheduled.
    pub fn disconnect_at(&mut self, now_ms: u64, ts: u64)
        requires
            old(self).closing_at_ms is None ==> now_ms + disconnect_toast_ms() <= u64::MAX,
        ensures
            final(self)@ == disconnect_spec(old(self)@, now_ms, ts),
            final(self).session_id == old(self).session_id,
            final(self).admin_name == old(self).admin_name,
    {
        if self.closing_at_ms.is_some() {
            return;
        }
        self.chat.send(disconnect_message(self.session_id.as_str(), ts));
        self.toast = Some(
            Toast { text: "Disconnecting…".to_owned(), until_ms: now_ms + 1100, danger: false },
        );
        self.closing_at_ms = Some(now_ms + 1000);
    }

    /// As `disconnect_at`, stamping the message with the current time.
    pub fn disconnect(&mut self, now_ms: u64)
        requires
            old(self).closing_at_ms is None ==> now_ms + disconnect_toast_ms() <= u64::MAX,
        ensures
            exists|ts: u64| final(self)@ == disconnect_spec(old(self)@, now_ms, ts),
            final(self).session_id == old(self).session_id,
            final(self).admin_name == old(self).admin_name,
    {
        if self.closing_at_ms.is_some() {
            assert(self@ == disconnect_spec(self@, now_ms, 0));
            return;
        }
        let ts = unix_ms();
        self.disconnect_at(now_ms, ts);
    }

    /// Takes in one message from the agent, at `now_ms` on the window's
    /// clock and `unix_now` on the wall clock.
    pub fn receive(&mut self, m: &Message, now_ms: u64, unix_now: u64)
        requires
            now_ms + session_end_ms() <= u64::MAX,
        ensures
            final(self)@ == receive_spec(old(self)@, m@, now_ms, unix_now),
            final(self).session_id == old(self).session_id,
            final(self).admin_name == old(self).admin_name,
    {
        let ghost before = self@;
        let ghost mv = m@;
        if str_equal(m.kind.as_str(), "chat") {
            let from = if m.from.as_str().unicode_len() == 0 {
                "admin".to_owned()
            } else {
                m.from.clone()
            };
            let ts = if m.ts > 0 {
                m.ts
            } else {
                unix_now
            };
            let line = ChatLine { from, text: m.text.clone(), ts };
            self.history.push(line);
            assert(self@.history =~= receive_spec(before, mv, now_ms, unix_now).history);
        } else if str_equal(m.kind.as_str(), "session_end") {
            self.toast = Some(
                Toast {
                    text: "Session ended by technician".to_owned(),
                    until_ms: now_ms + 3000,
                    danger: true,
                },
            );
            self.closing_at_ms = Some(now_ms + 3000);
        }
    }

    /// Takes in a batch of messages from the agent in order, message `i`
    /// with wall-clock time `stamps[i]`, at `now_ms` on the window's clock.
    pub fn receive_all(&mut self, incoming: &Vec<Message>, stamps: &Vec<u64>, now_ms: u64)
        requires
            incoming@.len() == stamps@.len(),
            now_ms + session_end_ms() <= u64::MAX,
        ensures
            final(self)@ == receive_all_spec(
                old(self)@,
                zip_spec(message_views(incoming@), stamps@),
                now_ms,
            ),
            final(self).session_id == old(self).session_id,
            final(self).admin_name == old(self).admin_name,
    {
        let ghost all = zip_spec(message_views(incoming@), stamps@);
        let mut i: usize = 0;
        assert(all.take(0) =~= Seq::<(MessageView, u64)>::empty());
        while i < incoming.len()
            invariant
                i <= incoming@.len(),
                incoming@.len() == stamps@.len(),
                all == zip_spec(message_views(incoming@), stamps@),
                now_ms + session_end_ms() <= u64::MAX,
                self.session_id == old(self).session_id,
                self.admin_name == old(self).admin_name,
                self@ == receive_all_spec(old(self)@, all.take(i as int), now_ms),
            decreases incoming@.len() - i,
        {
            self.receive(&incoming[i], now_ms, stamps[i]);
            assert(all.take(i + 1).drop_last() =~= all.take(i as int));
            assert(all.take(i + 1).last() == (incoming@[i as int]@, stamps@[i as int]));
            i = i + 1;
        }
        assert(all.take(incoming@.len() as int) =~= all);
    }

    /// Takes in every message waiting from the agent, in the order they
    /// arrived, each stamped with the wall-clock time at which it is taken
    /// in, at `now_ms` on the window's clock. Which messages are waiting
    /// depends on the connection; they are the ones that join the chat
    /// handle's record of messages taken in.
    pub fn poll_chat(&mut self, now_ms: u64)
        requires
            now_ms + session_end_ms() <= u64::MAX,
        ensures
            exists|polled: Seq<MessageView>, drained: bool, stamps: Seq<u64>|
                poll_outcome(polled, drained, stamps) && final(self)@ == #[trigger] poll_chat_spec(
                    old(self)@,
                    polled,
                    drained,
                    stamps,
                    now_ms,
                ),
            final(self).session_id == old(self).session_id,
            final(self).admin_name == old(self).admin_name,
    {
        let ghost before = self@;
        let incoming = self.chat.poll();
        let ghost polled = message_views(incoming@);
        let ghost drained = self@.chat.drained;
        assert(self@ == with_polled(before, polled, drained));
        let mut stamps: Vec<u64> = Vec::new();
        let mut i: usize = 0;
        while i < incoming.len()
            invariant
                i <= incoming@.len(),
                stamps@.len() == i,
            decreases incoming@.len() - i,
        {
            stamps.push(unix_ms());
            i = i + 1;
        }
        self.receive_all(&incoming, &stamps, now_ms);
        assert(poll_outcome(polled, drained, stamps@));
        assert(self@ == poll_chat_spec(before, polled, drained, stamps@, now_ms));
    }

    /// The start of one frame at `now_ms`: takes in the agent's messages,
    /// tells whether the window is due to close, and turns a close request
    /// into a disconnect.
    pub fn frame_start(&mut self, now_ms: u64, close_requested: bool) -> (close_window: bool)
        requires
            now_ms + session_end_ms() <= u64::MAX,
        ensures
            exists|polled: Seq<MessageView>, drained: bool, stamps: Seq<u64>, ts: u64|
                poll_outcome(polled, drained, stamps) && (final(self)@, close_window)
                    == #[trigger] frame_start_spec(
                    old(self)@,
                    polled,
                    drained,
                    stamps,
                    now_ms,
                    close_requested,
                    ts,
                ),
            final(self).session_id == old(self).session_id,
            final(self).admin_name == old(self).admin_name,
    {
        let ghost before = self@;
        self.poll_chat(now_ms);
        let ghost (polled, drained, stamps) = choose|p: Seq<MessageView>, d: bool, st: Seq<u64>|
            poll_outcome(p, d, st) && self@ == #[trigger] poll_chat_spec(before, p, d, st, now_ms);
        let ghost mid = self@;
        let close_window = match self.closing_at_ms {
            Some(t) => now_ms >= t,
            None => false,
        };
        let ghost mut ts: u64 = 0;
        if close_requested && self.closing_at_ms.is_none() {
            let stamp = unix_ms();
            self.disconnect_at(now_ms, stamp);
            proof {
                ts = stamp;
            }
        }
        assert(self@ == if close_requested {
            disconnect_spec(mid, now_ms, ts)
        } else {
            mid
        });
        assert((self@, close_window) == frame_start_spec(
            before,
            polled,
            drained,
            stamps,
            now_ms,
            close_requested,
            ts,
        ));
        close_window
    }

    /// The composer after a key press or click: sends the typed text when
    /// Enter or the send button asks for it and it is not blank, stamped
    /// with Unix time `ts`. Tells whether the input field is to take the
    /// focus.
    pub fn submit_at(&mut self, enter_pressed: bool, send_clicked: bool, ts: u64) -> (focus: bool)
        ensures
            (final(self)@, focus) == submit_spec(old(self)@, enter_pressed, send_clicked, ts),
            final(self).session_id == old(self).session_id,
            final(self).admin_name == old(self).admin_name,
    {
        let has_text = trim(self.input.as_str()).unicode_len() > 0;
        if (enter_pressed || send_clicked) && has_text {
            self.send_user_text_at(ts);
            true
        } else if self.pending_focus {
            self.pending_focus = false;
            true
        } else {
            false
        }
    }

    /// The composer after a key press or click, stamping a sent message
    /// with the current time.
    pub fn submit(&mut self, enter_pressed: bool, send_clicked: bool) -> (focus: bool)
        ensures
            exists|ts: u64|
                (final(self)@, focus) == submit_spec(old(self)@, enter_pressed, send_clicked, ts),
    {
        let ts = unix_ms();
        self.submit_at(enter_pressed, send_clicked, ts)
    }

    /// Takes down the notice once its deadline `now_ms` has come.
    pub fn expire_toast(&mut self, now_ms: u64)
        ensures
            final(self)@ == expire_toast_spec(old(self)@, now_ms),
            final(self).session_id == old(self).session_id,
    {
        let expired = match &self.toast {
            Some(t) => now_ms >= t.until_ms,
            None => false,
        };
        if expired {
            self.toast = None;
        }
    }

    /// The connection status to show now.
    pub fn status(&self) -> (s: ConnectionStatus) {
        let failed = self.chat.failed();
        let connected = self.chat.connected();
        connection_status(failed, connected)
    }
}

// ---------------------------------------------------------------------------
// Laws
// ---------------------------------------------------------------------------

/// Something that happens to the session window.
pub enum SessionEvent {
    /// The user sends, at a Unix time.
    Send(u64),
    /// The user asks to disconnect, at a window time and a Unix time.
    Disconnect(u64, u64),
    /// A message arrives, at a window time and a Unix time.
    Receive(MessageView, u64, u64),
    /// The notice is checked, at a window time.
    ExpireToast(u64),
}

/// The state after one event.
pub open spec fn session_step_spec(v: SessionView, e: SessionEvent) -> SessionView {
    match e {
        SessionEvent::Send(ts) => send_spec(v, ts),
        SessionEvent::Disconnect(now, ts) => disconnect_spec(v, now, ts),
        SessionEvent::Receive(m, now, unix_now) => receive_spec(v, m, now, unix_now),
        SessionEvent::ExpireToast(now) => expire_toast_spec(v, now),
    }
}

/// The state after a run of events.
pub open spec fn session_run_spec(v: SessionView, events: Seq<SessionEvent>) -> SessionView
    decreases events.len(),
{
    if events.len() == 0 {
        v
    } else {
        session_step_spec(session_run_spec(v, events.drop_last()), events.last())
    }
}

/// The chat history only grows: over any run of events, what was in it
/// stays, in order, at its start.
pub proof fn lemma_history_append_only(v: SessionView, events: Seq<SessionEvent>)
    ensures
        v.history.len() <= session_run_spec(v, events).history.len(),
        session_run_spec(v, events).history.subrange(0, v.history.len() as int) == v.history,
    decreases events.len(),
{
    if events.len() == 0 {
        assert(v.history.subrange(0, v.history.len() as int) =~= v.history);
    } else {
        lemma_history_append_only(v, events.drop_last());
        let w = session_run_spec(v, events.drop_last());
        let u = session_step_spec(w, events.last());
        assert(u.history.len() >= w.history.len());
        assert(u.history.subrange(0, w.history.len() as int) =~= w.history);
        assert(u.history.subrange(0, v.history.len() as int) =~= w.history.subrange(
            0,
            v.history.len() as int,
        ));
    }
}

/// Once the window is set to close, it stays set to close: no event clears
/// the schedule.
pub proof fn lemma_closing_stays(v: SessionView, events: Seq<SessionEvent>)
    requires
        v.closing_at_ms is Some,
    ensures
        session_run_spec(v, events).closing_at_ms is Some,
    decreases events.len(),
{
    if events.len() > 0 {
        lemma_closing_stays(v, events.drop_last());
    }
}

/// Once a close is scheduled, asking to disconnect changes nothing and
/// sends nothing.
pub proof fn lemma_disconnect_when_closing(v: SessionView, now_ms: u64, ts: u64)
    requires
        v.closing_at_ms is Some,
    ensures
        disconnect_spec(v, now_ms, ts) == v,
{
}

/// Asking to disconnect a second time changes nothing and sends nothing.
pub proof fn lemma_disconnect_idempotent(v: SessionView, first: u64, ts1: u64, second: u64, ts2: u64)
    requires
        first + disconnect_toast_ms() <= u64::MAX,
    ensures
        disconnect_spec(disconnect_spec(v, first, ts1), second, ts2) == disconnect_spec(
            v,
            first,
            ts1,
        ),
{
}

/// The first disconnect sends exactly one message, the disconnect message
/// for the window's session.
pub proof fn lemma_disconnect_sends_once(v: SessionView, now_ms: u64, ts: u64)
    requires
        v.closing_at_ms is None,
        now_ms + disconnect_toast_ms() <= u64::MAX,
    ensures
        disconnect_spec(v, now_ms, ts).chat.sent == v.chat.sent.push(
            disconnect_message_spec(v.session_id, ts),
        ),
{
}

/// What the window has handed to the agent only grows, and every message
/// in it is for the window's own session.
pub proof fn lemma_sent_messages_for_session(v: SessionView, events: Seq<SessionEvent>)
    requires
        forall|i: int| 0 <= i < v.chat.sent.len() ==> (#[trigger] v.chat.sent[i]).session_id
            == v.session_id,
    ensures
        session_run_spec(v, events).session_id == v.session_id,
        v.chat.sent.len() <= session_run_spec(v, events).chat.sent.len(),
        session_run_spec(v, events).chat.sent.subrange(0, v.chat.sent.len() as int)
            == v.chat.sent,
        forall|i: int|
            0 <= i < session_run_spec(v, events).chat.sent.len() ==> (
            #[trigger] session_run_spec(v, events).chat.sent[i]).session_id == v.session_id,
    decreases events.len(),
{
    if events.len() == 0 {
        assert(v.chat.sent.subrange(0, v.chat.sent.len() as int) =~= v.chat.sent);
    } else {
        lemma_sent_messages_for_session(v, events.drop_last());
        let w = session_run_spec(v, events.drop_last());
        let u = session_step_spec(w, events.last());
        assert(u.chat.sent.len() >= w.chat.sent.len());
        assert(u.chat.sent.subrange(0, w.chat.sent.len() as int) =~= w.chat.sent);
        assert(u.chat.sent.subrange(0, v.chat.sent.len() as int) =~= w.chat.sent.subrange(
            0,
            v.chat.sent.len() as int,
        ));
        assert forall|i: int| 0 <= i < u.chat.sent.len() implies (
        #[trigger] u.chat.sent[i]).session_id == v.session_id by {
            if i < w.chat.sent.len() {
                assert(u.chat.sent[i] == w.chat.sent[i]);
            }
        }
    }
}

/// Blank input is never sent: the state stays as it was.
pub proof fn lemma_blank_input_not_sent(v: SessionView, ts: u64)
    requires
        forall|i: int| 0 <= i < v.input.len() ==> is_white_space(#[trigger] v.input[i]),
    ensures
        send_spec(v, ts) == v,
    decreases v.input.len(),
{
    lemma_trim_start_all_space(v.input);
}

/// Trimming text made only of white space leaves nothing.
proof fn lemma_trim_start_all_space(s: Seq<char>)
    requires
        forall|i: int| 0 <= i < s.len() ==> is_white_space(#[trigger] s[i]),
    ensures
        trim_spec(s).len() == 0,
    decreases s.len(),
{
    if s.len() > 0 {
        assert forall|i: int| 0 <= i < s.drop_first().len() implies is_white_space(
            #[trigger] s.drop_first()[i],
        ) by {
            assert(s.drop_first()[i] == s[i + 1]);
        }
        lemma_trim_start_all_space(s.drop_first());
        assert(crate::text::trim_start_spec(s) == crate::text::trim_start_spec(s.drop_first()));
    }
}

/// A line the user sends neither starts nor ends with white space, and is
/// never empty.
pub proof fn lemma_sent_text_trimmed(v: SessionView, ts: u64)
    requires
        trim_spec(v.input).len() > 0,
    ensures
        send_spec(v, ts).history.len() == v.history.len() + 1,
        send_spec(v, ts).history.last().text.len() > 0,
        !is_white_space(send_spec(v, ts).history.last().text[0]),
        !is_white_space(send_spec(v, ts).history.last().text.last()),
        send_spec(v, ts).input.len() == 0,
        send_spec(v, ts).chat.sent == v.chat.sent.push(
            user_message_spec(v.session_id, send_spec(v, ts).history.last().text, ts),
        ),
{
    lemma_trim_has_no_outer_space(v.input);
}

/// When the technician ends the session, the window closes three seconds
/// later, and not before.
pub proof fn lemma_session_end_closes(
    v: SessionView,
    m: MessageView,
    now_ms: u64,
    unix_now: u64,
    later: u64,
)
    requires
        m.kind == "session_end"@,
        now_ms + session_end_ms() <= u64::MAX,
    ensures
        due_to_close(receive_spec(v, m, now_ms, unix_now), later) == (later >= now_ms
            + session_end_ms()),
{
    reveal_strlit("session_end");
    reveal_strlit("chat");
    assert("session_end"@.len() == 11);
    assert("chat"@.len() == 4);
    assert(m.kind != "chat"@);
}

} // verus!

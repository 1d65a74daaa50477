use std::sync::atomic::AtomicBool;
use std::sync::atomic::Ordering;
use std::sync::mpsc::{Receiver, Sender};
use std::sync::Arc;

use vstd::prelude::*;

use crate::text::{push_char, trim, trim_spec};

verus! {

/// One line of the newline-delimited JSON chat protocol.
#[derive(Debug, Clone)]
pub struct Message {
    /// The JSON `"type"` field. Known values: "chat", "session_end",
    /// "disconnect". Any other value is ignored by the receiver.
    pub kind: String,
    pub session_id: String,
    pub from: String,
    pub text: String,
    pub ts: u64,
}

/// `std::sync::mpsc::Receiver`, the receiving end of a channel.
#[verifier::external_type_specification]
#[verifier::external_body]
#[verifier::reject_recursive_types(T)]
pub struct ExReceiver<T>(Receiver<T>);

/// `std::sync::mpsc::Sender`, the sending end of a channel.
#[verifier::external_type_specification]
#[verifier::external_body]
#[verifier::reject_recursive_types(T)]
pub struct ExSender<T>(Sender<T>);

/// The messages that have been taken from the receiving end `rx` so far,
/// in the order `Receiver::try_recv` handed them out.
pub uninterp spec fn taken(rx: Receiver<Message>) -> Seq<MessageView>;

/// Whether the last look at the receiving end `rx` found nothing waiting
/// (`Receiver::try_recv` gave an error).
pub uninterp spec fn drained(rx: Receiver<Message>) -> bool;

/// The messages that have been handed to the sending end `tx` so far, in
/// the order they were given to `Sender::send`.
pub uninterp spec fn handed(tx: Sender<Message>) -> Seq<MessageView>;

/// `Receiver::try_recv`: the next message already waiting, or `None` when
/// none is waiting or the other end is gone. A message that comes back
/// joins what has been taken from `rx`; on `None` nothing was taken and the
/// receiving end is marked as found empty. Which of the two happens depends
/// on other threads and is not stated.
#[verifier::external_body]
fn try_recv_message(rx: &mut Receiver<Message>) -> (r: Option<Message>)
    ensures
        match r {
            Some(m) => taken(*final(rx)) == taken(*old(rx)).push(m@),
            None => taken(*final(rx)) == taken(*old(rx)),
        },
        drained(*final(rx)) == r is None,
{
    match rx.try_recv() {
        Ok(m) => Some(m),
        Err(_) => None,
    }
}

/// `Sender::send`: hands `m` to the channel, which joins what has been
/// handed to `tx`; `false` when the receiving end is gone. Whether it is
/// gone depends on other threads, so the flag is not stated.
#[verifier::external_body]
fn send_message(tx: &mut Sender<Message>, m: Message) -> (ok: bool)
    ensures
        handed(*final(tx)) == handed(*old(tx)).push(m@),
{
    tx.send(m).is_ok()
}

/// A chat message as plain text values.
pub struct MessageView {
    pub kind: Seq<char>,
    pub session_id: Seq<char>,
    pub from: Seq<char>,
    pub text: Seq<char>,
    pub ts: u64,
}

impl View for Message {
    type V = MessageView;

    open spec fn view(&self) -> MessageView {
        MessageView {
            kind: self.kind@,
            session_id: self.session_id@,
            from: self.from@,
            text: self.text@,
            ts: self.ts,
        }
    }
}

/// The messages of a list as plain values.
pub open spec fn message_views(ms: Seq<Message>) -> Seq<MessageView> {
    ms.map_values(|m: Message| m@)
}

/// A chat handle as the library sees it: its two status flags, every message handed to the outgoing queue so far, every message
/// taken from the incoming queue so far, in order, and whether the last
/// look at the incoming queue found it empty.
pub struct ChatView {
    pub connected: Arc<AtomicBool>,
    pub failed: Arc<AtomicBool>,
    pub sent: Seq<MessageView>,
    pub received: Seq<MessageView>,
    pub drained: bool,
}

/// The UI side of the chat connection: a queue of incoming messages, a
/// queue of outgoing ones, and two flags that the I/O threads keep.
pub struct ChatHandle {
    rx: Receiver<Message>,
    tx: Sender<Message>,
    connected: Arc<AtomicBool>,
    failed: Arc<AtomicBool>,
}

impl View for ChatHandle {
    type V = ChatView;

    closed spec fn view(&self) -> ChatView {
        ChatView {
            connected: self.connected,
            failed: self.failed,
            sent: handed(self.tx),
            received: taken(self.rx),
            drained: drained(self.rx),
        }
    }
}

impl ChatHandle {
    /// Joins the two channel ends and the two status flags into a handle.
    pub fn new(
        rx: Receiver<Message>,
        tx: Sender<Message>,
        connected: Arc<AtomicBool>,
        failed: Arc<AtomicBool>,
    ) -> (h: Self)
        ensures
            h@ == (ChatView {
                connected,
                failed,
                sent: handed(tx),
                received: taken(rx),
                drained: drained(rx),
            }),
    {
        ChatHandle { rx, tx, connected, failed }
    }

    /// Drain all currently-buffered incoming messages without blocking.
    /// The caller (UI thread) calls this once per frame. Which messages are
    /// waiting depends on the other threads; what is returned is exactly
    /// what was taken from the receiving end, in order, and unless the list
    /// filled all of memory the queue was found empty at the end.
    pub fn poll(&mut self) -> (out: Vec<Message>)
        ensures
            final(self)@ == (ChatView {
                received: old(self)@.received + message_views(out@),
                drained: final(self)@.drained,
                ..old(self)@
            }),
            out@.len() < usize::MAX ==> final(self)@.drained,
    {
        let mut out: Vec<Message> = Vec::new();
        assert(message_views(out@) =~= Seq::<MessageView>::empty());
        loop
            invariant
                taken(self.rx) == taken(old(self).rx) + message_views(out@),
                self.tx == old(self).tx,
                self.connected == old(self).connected,
                self.failed == old(self).failed,
            ensures
                taken(self.rx) == taken(old(self).rx) + message_views(out@),
                out@.len() < usize::MAX ==> drained(self.rx),
                self.tx == old(self).tx,
                self.connected == old(self).connected,
                self.failed == old(self).failed,
            decreases usize::MAX - out.len(),
        {
            if out.len() == usize::MAX {
                break;
            }
            match try_recv_message(&mut self.rx) {
                Some(m) => {
                    let ghost mv = m@;
                    let ghost before = out@;
                    out.push(m);
                    assert(message_views(out@) =~= message_views(before).push(mv));
                },
                None => break,
            }
        }
        out
    }

    /// Queue a message for the writer thread. Drops silently if the
    /// connection died; the UI surfaces that via `failed()` / `connected()`.
    /// The message is the one handed to the sending end; whether the writer
    /// gets it depends on the other threads.
    pub fn send(&mut self, m: Message)
        ensures
            final(self)@ == (ChatView { sent: old(self)@.sent.push(m@), ..old(self)@ }),
    {
        let _ = send_message(&mut self.tx, m);
    }

    /// Whether the connection to the agent is up.
    pub fn connected(&self) -> bool {
        self.connected.load(Ordering::Relaxed)
    }

    /// Whether connecting to the agent failed for good.
    pub fn failed(&self) -> bool {
        self.failed.load(Ordering::Relaxed)
    }
}

/// Milliseconds the connecting thread waits for one connection attempt.
pub const CONNECT_TIMEOUT_MS: u64 = 2000;

/// Milliseconds the connecting thread pauses after a failed attempt.
pub const RETRY_PAUSE_MS: u64 = 500;

/// How many connection attempts are made before giving up.
pub open spec fn max_connect_attempts() -> u32 {
    10
}

/// Whether a chat address asks for a connection at all: an empty address
/// runs the window on its own, and sending becomes a silent no-op.
pub fn wants_connection(addr: &str) -> (r: bool)
    ensures
        r == (addr@.len() > 0),
{
    addr.unicode_len() > 0
}

/// What the connecting thread does next.
#[derive(Debug, Clone, Copy, PartialEq, Eq, Structural)]
pub enum ConnectStep {
    /// Make another connection attempt.
    Attempt,
    /// Stop and mark the connection as failed.
    GiveUp,
}

/// After `failures` failed attempts (each followed by a pause), the
/// connecting thread tries again until ten attempts have failed: the agent
/// may not have its listener up yet when the window starts.
pub fn next_connect_step(failures: u32) -> (step: ConnectStep)
    ensures
        step == if failures < max_connect_attempts() {
            ConnectStep::Attempt
        } else {
            ConnectStep::GiveUp
        },
{
    if failures < 10 {
        ConnectStep::Attempt
    } else {
        ConnectStep::GiveUp
    }
}

/// The JSON text carried by one received line: the line without its
/// surrounding white space, or `None` for a blank line, which the reader
/// skips.
pub fn inbound_payload(line: &str) -> (r: Option<&str>)
    ensures
        match r {
            Some(p) => p@ == trim_spec(line@) && p@.len() > 0,
            None => trim_spec(line@).len() == 0,
        },
{
    let t = trim(line);
    if t.unicode_len() == 0 {
        None
    } else {
        Some(t)
    }
}

/// The bytes written for one outgoing message: its JSON text and a newline.
pub fn outbound_line(json: &str) -> (r: String)
    ensures
        r@ == json@.push('\n'),
{
    let mut out = json.to_owned();
    push_char(&mut out, '\n');
    out
}

} // verus!

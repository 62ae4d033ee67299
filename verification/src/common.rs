//! Per-connection session engine.
//!
//! The engine consumes one ordered stream of [`InternalMessage`] events —
//! keyboard input, inbound frames, and lifecycle signals — and decides, for
//! each event, which frame to send, what to surface to the user, and whether
//! the session is over. The surrounding tasks only carry events in and
//! perform the decided actions; every decision lives here.

use vstd::prelude::*;
use vstd::utf8::{valid_utf8, decode_utf8, encode_utf8};
use vstd::string::StrSliceExecFns;
use crate::codec::{ChatMessage, FrameView, spec_encode, spec_decode};
use crate::codec::lemma_decode_encode;

verus! {

/// One event on the session engine's ordered stream.
pub enum InternalMessage {
    /// A line the local user typed, to be sent to the peer.
    Input(String),
    /// Text received from the peer, to be surfaced and acknowledged.
    Message(String),
    /// The peer acknowledged the message most recently sent.
    ACK,
    /// The peer announced that it closed the connection.
    Disconnected,
    /// The process was asked to terminate (external interrupt).
    Terminated,
    /// The local user asked to quit.
    Quit,
    /// The transport or the codec failed.
    Error,
}

/// Mathematical model of an event: the text as a character sequence.
pub enum EventView {
    Input(Seq<char>),
    Message(Seq<char>),
    ACK,
    Disconnected,
    Terminated,
    Quit,
    Error,
}

impl DeepView for InternalMessage {
    type V = EventView;

    open spec fn deep_view(&self) -> EventView {
        match self {
            InternalMessage::Input(t) => EventView::Input(t@),
            InternalMessage::Message(t) => EventView::Message(t@),
            InternalMessage::ACK => EventView::ACK,
            InternalMessage::Disconnected => EventView::Disconnected,
            InternalMessage::Terminated => EventView::Terminated,
            InternalMessage::Quit => EventView::Quit,
            InternalMessage::Error => EventView::Error,
        }
    }
}

/// Terminal classification of a finished session.
#[derive(Clone, Copy, Debug, PartialEq, Eq, Structural)]
pub enum ProcessResult {
    PeerDisconnected,
    UserQuit,
    Terminated,
    Error,
}

/// The frame the engine sends in reaction to an event: an acknowledgement
/// for received text, the text itself for local input, a disconnect notice
/// when the local side shuts down, and nothing otherwise.
pub open spec fn frame_for(e: Option<EventView>) -> Option<FrameView> {
    match e {
        Some(EventView::Message(_)) => Some(FrameView::ACK),
        Some(EventView::Input(t)) => Some(FrameView::Message(encode_utf8(t))),
        Some(EventView::Quit) => Some(FrameView::Disconnected),
        Some(EventView::Terminated) => Some(FrameView::Disconnected),
        _ => None,
    }
}

/// The terminal outcome an event forces, if any: a closed or failed stream
/// ends the session; input, received text and acknowledgements keep it
/// running.
pub open spec fn outcome_for(e: Option<EventView>) -> Option<ProcessResult> {
    match e {
        Some(EventView::Quit) => Some(ProcessResult::UserQuit),
        Some(EventView::Terminated) => Some(ProcessResult::Terminated),
        Some(EventView::Disconnected) => Some(ProcessResult::PeerDisconnected),
        Some(EventView::Error) => Some(ProcessResult::Error),
        None => Some(ProcessResult::Error),
        _ => None,
    }
}

/// The text the engine surfaces to the user: exactly the text of a received
/// message.
pub open spec fn display_for(e: Option<EventView>) -> Option<Seq<char>> {
    match e {
        Some(EventView::Message(t)) => Some(t),
        _ => None,
    }
}

/// The round-trip timestamp after an event: taken when input is sent,
/// consumed when the matching acknowledgement arrives, kept otherwise.
pub open spec fn timer_after(e: Option<EventView>, sent_at: Option<u64>, now: u64) -> Option<u64> {
    match e {
        Some(EventView::Input(_)) => Some(now),
        Some(EventView::ACK) => None,
        _ => sent_at,
    }
}

/// The round-trip latency reported for an event: on an acknowledgement, the
/// time since the matching input was sent; nothing when no input is in
/// flight (a stray acknowledgement reports no latency).
pub open spec fn latency_for(e: Option<EventView>, sent_at: Option<u64>, now: u64) -> Option<u64> {
    match e {
        Some(EventView::ACK) => match sent_at {
            Some(t0) => if now >= t0 {
                Some((now - t0) as u64)
            } else {
                None
            },
            None => None,
        },
        _ => None,
    }
}

/// What the engine decides for one event.
pub struct Step {
    /// Frame to write and flush before the next event, if any.
    pub send: Option<ChatMessage>,
    /// Received text to surface to the user, if any.
    pub display: Option<String>,
    /// Round-trip latency to report, if any.
    pub latency: Option<u64>,
    /// Terminal outcome; `None` keeps the session running.
    pub outcome: Option<ProcessResult>,
}

/// The session engine's state between events: the time at which the one
/// in-flight input was sent, if any. Because the event stream holds at most
/// one outstanding event, a single timestamp suffices — no correlation
/// identifier is needed.
pub struct SessionEngine {
    pub sent_at: Option<u64>,
}

impl SessionEngine {
    pub fn new() -> (e: SessionEngine)
        ensures
            e.sent_at is None,
    {
        SessionEngine { sent_at: None }
    }

    /// Decides the reaction to one event. `event` is the next event off the
    /// stream (`None`: the stream closed without one); `now` is the current
    /// reading of a monotonic clock.
    pub fn step(&mut self, event: Option<InternalMessage>, now: u64) -> (s: Step)
        ensures
            s.send.deep_view() == frame_for(event.deep_view()),
            s.display.deep_view() == display_for(event.deep_view()),
            s.latency == latency_for(event.deep_view(), old(self).sent_at, now),
            s.outcome == outcome_for(event.deep_view()),
            final(self).sent_at == timer_after(event.deep_view(), old(self).sent_at, now),
    {
        match event {
            Some(InternalMessage::Message(msg)) => Step {
                send: Some(ChatMessage::ACK),
                display: Some(msg),
                latency: None,
                outcome: None,
            },
            Some(InternalMessage::Input(msg)) => {
                self.sent_at = Some(now);
                let buf = msg.as_str().as_bytes_vec();
                Step { send: Some(ChatMessage::Message(buf)), display: None, latency: None, outcome: None }
            },
            Some(InternalMessage::ACK) => {
                let latency = match self.sent_at {
                    Some(t0) => if now >= t0 {
                        Some(now - t0)
                    } else {
                        None
                    },
                    None => None,
                };
                self.sent_at = None;
                Step { send: None, display: None, latency, outcome: None }
            },
            Some(InternalMessage::Quit) => Step {
                send: Some(ChatMessage::Disconnected),
                display: None,
                latency: None,
                outcome: Some(ProcessResult::UserQuit),
            },
            Some(InternalMessage::Terminated) => Step {
                send: Some(ChatMessage::Disconnected),
                display: None,
                latency: None,
                outcome: Some(ProcessResult::Terminated),
            },
            Some(InternalMessage::Disconnected) => Step {
                send: None,
                display: None,
                latency: None,
                outcome: Some(ProcessResult::PeerDisconnected),
            },
            Some(InternalMessage::Error) => Step {
                send: None,
                display: None,
                latency: None,
                outcome: Some(ProcessResult::Error),
            },
            None => Step {
                send: None,
                display: None,
                latency: None,
                outcome: Some(ProcessResult::Error),
            },
        }
    }
}

/// The event the inbound reader forwards for a decoded frame: received text
/// when the payload is valid UTF-8, an error otherwise, and the matching
/// lifecycle events for the control frames.
pub open spec fn reader_event(f: FrameView) -> EventView {
    match f {
        FrameView::Message(p) => if valid_utf8(p) {
            EventView::Message(decode_utf8(p))
        } else {
            EventView::Error
        },
        FrameView::ACK => EventView::ACK,
        FrameView::Disconnected => EventView::Disconnected,
    }
}

/// Whether the inbound reader stops after a frame: it does on a disconnect
/// notice and on a malformed payload.
pub open spec fn reader_stops(f: FrameView) -> bool {
    match f {
        FrameView::Message(p) => !valid_utf8(p),
        FrameView::ACK => false,
        FrameView::Disconnected => true,
    }
}

/// Relies on `String::from_utf8`: it succeeds exactly when the bytes are
/// valid UTF-8, and then returns the string whose encoding is those bytes.
#[verifier::external_body]
fn bytes_to_text(bytes: Vec<u8>) -> (r: Option<String>)
    ensures
        r is Some <==> valid_utf8(bytes@),
        r matches Some(s) ==> encode_utf8(s@) == bytes@,
{
    match String::from_utf8(bytes) {
        Ok(s) => Some(s),
        Err(_) => None,
    }
}

/// Maps one decoded frame to the event the inbound reader forwards, and says
/// whether the reader stops afterwards.
pub fn frame_to_event(frame: ChatMessage) -> (r: (InternalMessage, bool))
    ensures
        r.0.deep_view() == reader_event(frame@),
        r.1 == reader_stops(frame@),
{
    match frame {
        ChatMessage::Message(buf) => {
            match bytes_to_text(buf) {
                Some(text) => {
                    proof {
                        vstd::utf8::encode_utf8_decode_utf8(text@);
                    }
                    (InternalMessage::Message(text), false)
                },
                None => (InternalMessage::Error, true),
            }
        },
        ChatMessage::ACK => (InternalMessage::ACK, false),
        ChatMessage::Disconnected => (InternalMessage::Disconnected, true),
    }
}

/// Law: a line of local input becomes a message frame carrying the text's
/// encoding; the peer decodes that frame back to the same frame, reads the
/// same text out of it, keeps reading, and answers with an acknowledgement.
pub proof fn lemma_message_reaches_peer(text: Seq<char>)
    ensures
        frame_for(Some(EventView::Input(text))) == Some(FrameView::Message(encode_utf8(text))),
        spec_decode(spec_encode(FrameView::Message(encode_utf8(text))))
            == Some(FrameView::Message(encode_utf8(text))),
        reader_event(FrameView::Message(encode_utf8(text))) == EventView::Message(text),
        !reader_stops(FrameView::Message(encode_utf8(text))),
        frame_for(Some(EventView::Message(text))) == Some(FrameView::ACK),
{
    lemma_decode_encode(FrameView::Message(encode_utf8(text)));
    vstd::utf8::encode_utf8_valid_utf8(text);
    vstd::utf8::encode_utf8_decode_utf8(text);
}

/// Law: when the matching acknowledgement arrives, the engine reports the
/// elapsed time since the input was sent — never a negative span.
pub proof fn lemma_ack_reports_elapsed(t0: u64, now: u64)
    requires
        now >= t0,
    ensures
        latency_for(Some(EventView::ACK), Some(t0), now) == Some((now - t0) as u64),
        outcome_for(Some(EventView::ACK)) is None,
{
}

/// Law: a local quit or termination sends a disconnect frame and ends the
/// session with the matching outcome; the peer decodes that frame to a
/// disconnect event, its reader stops, and its session ends as
/// peer-disconnected.
pub proof fn lemma_shutdown_reaches_peer(e: EventView)
    requires
        e == EventView::Quit || e == EventView::Terminated,
    ensures
        frame_for(Some(e)) == Some(FrameView::Disconnected),
        e == EventView::Quit ==> outcome_for(Some(e)) == Some(ProcessResult::UserQuit),
        e == EventView::Terminated ==> outcome_for(Some(e)) == Some(ProcessResult::Terminated),
        spec_decode(spec_encode(FrameView::Disconnected)) == Some(FrameView::Disconnected),
        reader_event(FrameView::Disconnected) == EventView::Disconnected,
        reader_stops(FrameView::Disconnected),
        outcome_for(Some(EventView::Disconnected)) == Some(ProcessResult::PeerDisconnected),
{
    lemma_decode_encode(FrameView::Disconnected);
}

/// Law: a message frame whose payload is not valid UTF-8 becomes an error
/// event, the reader stops, and the session ends with the error outcome —
/// nothing panics along the way.
pub proof fn lemma_malformed_payload_errors(payload: Seq<u8>)
    requires
        !valid_utf8(payload),
    ensures
        reader_event(FrameView::Message(payload)) == EventView::Error,
        reader_stops(FrameView::Message(payload)),
        outcome_for(Some(EventView::Error)) == Some(ProcessResult::Error),
{
}

} // verus!

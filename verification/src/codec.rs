//! Wire framing codec.
//!
//! A frame is one tag byte followed by an optional payload:
//! `0x0A` is an acknowledgement, `0x0C` a disconnect notice (both without a
//! payload), and every other tag byte introduces a message whose payload is
//! the rest of the buffer. The codec is not length-delimited: one transport
//! read or write carries exactly one frame.

use vstd::prelude::*;

verus! {

/// One frame of the wire protocol.
pub enum ChatMessage {
    /// A chat message; the payload carries the text as bytes.
    Message(Vec<u8>),
    /// The peer announces that it is closing the connection.
    Disconnected,
    /// Acknowledgement of a received message.
    ACK,
}

/// Mathematical model of a frame: the payload as a byte sequence.
pub enum FrameView {
    Message(Seq<u8>),
    Disconnected,
    ACK,
}

impl View for ChatMessage {
    type V = FrameView;

    open spec fn view(&self) -> FrameView {
        match self {
            ChatMessage::Message(payload) => FrameView::Message(payload@),
            ChatMessage::Disconnected => FrameView::Disconnected,
            ChatMessage::ACK => FrameView::ACK,
        }
    }
}

impl DeepView for ChatMessage {
    type V = FrameView;

    open spec fn deep_view(&self) -> FrameView {
        self.view()
    }
}

/// Tag byte of each frame kind.
pub open spec fn spec_byte_value(m: FrameView) -> u8 {
    match m {
        FrameView::ACK => 0x0A,
        FrameView::Message(_) => 0x0B,
        FrameView::Disconnected => 0x0C,
    }
}

fn byte_value(m: &ChatMessage) -> (b: u8)
    ensures
        b == spec_byte_value(m@),
{
    match m {
        ChatMessage::ACK => 0x0A,
        ChatMessage::Message(_) => 0x0B,
        ChatMessage::Disconnected => 0x0C,
    }
}

/// The byte sequence that a frame is written as: its tag byte, then, for a
/// message, the payload verbatim.
pub open spec fn spec_encode(m: FrameView) -> Seq<u8> {
    match m {
        FrameView::Message(payload) => seq![spec_byte_value(m)] + payload,
        _ => seq![spec_byte_value(m)],
    }
}

/// The frame that a buffered byte sequence is read as: nothing when the
/// buffer is empty; otherwise the first byte picks the kind, and any tag that
/// is neither the acknowledgement nor the disconnect tag is a message whose
/// payload is the rest of the buffer.
pub open spec fn spec_decode(b: Seq<u8>) -> Option<FrameView> {
    if b.len() == 0 {
        None
    } else if b[0] == spec_byte_value(FrameView::ACK) {
        Some(FrameView::ACK)
    } else if b[0] == spec_byte_value(FrameView::Disconnected) {
        Some(FrameView::Disconnected)
    } else {
        Some(FrameView::Message(b.subrange(1, b.len() as int)))
    }
}

/// Stateless codec between raw bytes and [`ChatMessage`] frames.
#[derive(Clone, Copy)]
pub struct BytesCodecExt(());

impl BytesCodecExt {
    pub fn new() -> BytesCodecExt {
        BytesCodecExt(())
    }

    /// Appends the encoding of `data` to `buf`.
    pub fn encode(&mut self, data: ChatMessage, buf: &mut Vec<u8>)
        ensures
            final(buf)@ == old(buf)@ + spec_encode(data@),
    {
        let header = byte_value(&data);
        match data {
            ChatMessage::ACK | ChatMessage::Disconnected => {
                buf.push(header);
                assert(buf@ =~= old(buf)@ + spec_encode(data@));
            },
            ChatMessage::Message(msg) => {
                buf.push(header);
                let mut i: usize = 0;
                while i < msg.len()
                    invariant
                        i <= msg.len(),
                        buf@ == old(buf)@ + seq![0x0Bu8] + msg@.subrange(0, i as int),
                    decreases msg.len() - i,
                {
                    buf.push(msg[i]);
                    i = i + 1;
                    assert(buf@ =~= old(buf)@ + seq![0x0Bu8] + msg@.subrange(0, i as int));
                }
                assert(msg@.subrange(0, msg@.len() as int) =~= msg@);
                assert(buf@ =~= old(buf)@ + spec_encode(FrameView::Message(msg@)));
            },
        }
    }

    /// Reads the whole buffer as one frame and consumes it; an empty buffer
    /// yields nothing.
    pub fn decode(&mut self, buf: &mut Vec<u8>) -> (r: Option<ChatMessage>)
        ensures
            final(buf)@.len() == 0,
            match r {
                None => spec_decode(old(buf)@) is None,
                Some(m) => spec_decode(old(buf)@) == Some(m@),
            },
    {
        if buf.len() == 0 {
            return None;
        }

        // the header is the first byte
        let header = buf[0];

        if header == byte_value(&ChatMessage::ACK) {
            buf.clear();
            return Some(ChatMessage::ACK);
        }

        if header == byte_value(&ChatMessage::Disconnected) {
            buf.clear();
            return Some(ChatMessage::Disconnected);
        }

        // any other tag: the contents start after the first byte
        let mut contents: Vec<u8> = Vec::new();
        let mut i: usize = 1;
        while i < buf.len()
            invariant
                1 <= i <= buf@.len(),
                buf@ == old(buf)@,
                contents@ == buf@.subrange(1, i as int),
            decreases buf.len() - i,
        {
            contents.push(buf[i]);
            i = i + 1;
            assert(contents@ =~= buf@.subrange(1, i as int));
        }
        buf.clear();
        Some(ChatMessage::Message(contents))
    }
}

/// Law: decoding the encoding of any frame gives the frame back, for every
/// payload, the empty one included.
pub proof fn lemma_decode_encode(m: FrameView)
    ensures
        spec_decode(spec_encode(m)) == Some(m),
{
    match m {
        FrameView::Message(payload) => {
            assert(spec_encode(m)[0] == 0x0B);
            assert(spec_encode(m).subrange(1, spec_encode(m).len() as int) =~= payload);
        },
        _ => {},
    }
}

/// Law: the acknowledgement and disconnect frames each encode as exactly one
/// byte.
pub proof fn lemma_control_frames_one_byte()
    ensures
        spec_encode(FrameView::ACK).len() == 1,
        spec_encode(FrameView::Disconnected).len() == 1,
{
}

/// Law: any tag byte other than the acknowledgement and disconnect tags,
/// followed by any payload, decodes as a message with exactly that payload.
pub proof fn lemma_unknown_tag_is_message(tag: u8, payload: Seq<u8>)
    requires
        tag != spec_byte_value(FrameView::ACK),
        tag != spec_byte_value(FrameView::Disconnected),
    ensures
        spec_decode(seq![tag] + payload) == Some(FrameView::Message(payload)),
{
    let b = seq![tag] + payload;
    assert(b[0] == tag);
    assert(b.subrange(1, b.len() as int) =~= payload);
}

} // verus!

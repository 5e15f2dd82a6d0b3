//! What the next frame of a WebSocket brings.

use vstd::prelude::*;
use vstd::string::*;

verus! {

/// The outcome of waiting for a frame.
#[derive(Debug)]
pub enum FrameEvent {
    /// No frame came in the time allowed.
    TimedOut,
    /// The stream ended.
    Ended,
    /// The socket reported an error.
    SocketError,
    Text(String),
    Close,
    /// A frame of another kind.
    Other,
}

/// Why there is no message.
#[derive(Debug, Clone, Copy, PartialEq, Eq, Structural)]
pub enum RecvError {
    TimedOut,
    Ended,
    SocketError,
    ClosedByPeer,
    NotText,
}

/// Takes the text out of a text frame. Everything else is an error.
pub fn frame_text(event: FrameEvent) -> (res: Result<String, RecvError>)
    ensures
        match event {
            FrameEvent::TimedOut => res == Err::<String, RecvError>(RecvError::TimedOut),
            FrameEvent::Ended => res == Err::<String, RecvError>(RecvError::Ended),
            FrameEvent::SocketError => res == Err::<String, RecvError>(RecvError::SocketError),
            FrameEvent::Text(text) => res == Ok::<String, RecvError>(text),
            FrameEvent::Close => res == Err::<String, RecvError>(RecvError::ClosedByPeer),
            FrameEvent::Other => res == Err::<String, RecvError>(RecvError::NotText),
        },
{
    match event {
        FrameEvent::TimedOut => Err(RecvError::TimedOut),
        FrameEvent::Ended => Err(RecvError::Ended),
        FrameEvent::SocketError => Err(RecvError::SocketError),
        FrameEvent::Text(text) => Ok(text),
        FrameEvent::Close => Err(RecvError::ClosedByPeer),
        FrameEvent::Other => Err(RecvError::NotText),
    }
}

impl RecvError {
    /// How the error reads, where `shown` is how the frame at hand reads.
    pub open spec fn spec_message(self, shown: Seq<char>) -> Seq<char> {
        match self {
            RecvError::TimedOut => "timed out waiting for next message"@,
            RecvError::Ended => "websocket closed unexpectedly"@,
            RecvError::SocketError => "websocket error"@,
            RecvError::ClosedByPeer => "websocket closed by peer mid-protocol"@,
            RecvError::NotText => "expected text frame, got "@ + shown,
        }
    }

    /// How the error reads, where `shown` is how the frame at hand reads.
    pub fn message(&self, shown: &str) -> (res: String)
        ensures
            res@ == self.spec_message(shown@),
    {
        match self {
            RecvError::TimedOut => String::from_str("timed out waiting for next message"),
            RecvError::Ended => String::from_str("websocket closed unexpectedly"),
            RecvError::SocketError => String::from_str("websocket error"),
            RecvError::ClosedByPeer => String::from_str("websocket closed by peer mid-protocol"),
            RecvError::NotText => String::from_str("expected text frame, got ").concat(shown),
        }
    }
}

/// A message is had exactly from a text frame, and is its text.
pub proof fn only_text_frames_hold_a_message(event: FrameEvent, res: Result<String, RecvError>)
    requires
        call_ensures(frame_text, (event,), res),
    ensures
        res is Ok <==> event is Text,
        event matches FrameEvent::Text(text) ==> res == Ok::<String, RecvError>(text),
        res == Err::<String, RecvError>(RecvError::TimedOut) <==> event is TimedOut,
        res == Err::<String, RecvError>(RecvError::Ended) <==> event is Ended,
        res == Err::<String, RecvError>(RecvError::SocketError) <==> event is SocketError,
        res == Err::<String, RecvError>(RecvError::ClosedByPeer) <==> event is Close,
        res == Err::<String, RecvError>(RecvError::NotText) <==> event is Other,
{
}

/// What a frame of the wrong kind reads like stands at the end of the error, in
/// full; no other error depends on it.
pub proof fn a_wrong_frame_is_shown_in_full(
    error: RecvError,
    shown: &str,
    nothing: &str,
    res: String,
    bare: String,
)
    requires
        call_ensures(RecvError::message, (&error, shown), res),
        call_ensures(RecvError::message, (&error, nothing), bare),
        nothing@.len() == 0,
    ensures
        error == RecvError::NotText ==> res@ == bare@ + shown@,
        error != RecvError::NotText ==> res@ == bare@,
{
    if error == RecvError::NotText {
        assert("expected text frame, got "@ + nothing@ =~= "expected text frame, got "@);
    }
}

} // verus!

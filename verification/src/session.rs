//! Decisions of a websocket terminal session.
//!
//! The server runs one loop per client: it waits for whichever comes first
//! of container output, a client message, the container's exit or an idle
//! timeout, and hands that event to [`session_step`], which says what to
//! send to the client, what to write to the container and whether the
//! session goes on.

use vstd::prelude::*;
use vstd::utf8::{decode_utf8, encode_utf8, valid_utf8};

use crate::inputproto::{
    data_frame, encode_data_frame, lemma_data_frame_roundtrip, reads_as, Decoded, InputEvent,
    ReadError,
};

verus! {

/// Seconds a session may wait for its next event before it is closed.
pub const IDLE_TIMEOUT_SECS: u64 = 600;

/// Size of the buffer into which container output is read.
pub const READ_BUFFER_LEN: usize = 2048;

/// What `String::from_utf8_lossy` makes of `bytes`.
pub uninterp spec fn lossy_utf8(bytes: Seq<u8>) -> Seq<char>;

/// Calls `String::from_utf8_lossy` and takes the owned result: the text of
/// `bytes` with every invalid sequence replaced by U+FFFD. Its result is
/// named by `lossy_utf8`; where `bytes` is valid UTF-8 it is the decoded
/// text. What replaces an invalid sequence is left unsaid.
#[verifier::external_body]
fn text_from_utf8_lossy(bytes: &[u8]) -> (s: String)
    ensures
        s@ == lossy_utf8(bytes@),
        valid_utf8(bytes@) ==> s@ == decode_utf8(bytes@),
{
    String::from_utf8_lossy(bytes).into_owned()
}

/// Something that happened in a session.
#[derive(Debug)]
pub enum SessionEvent {
    /// A read of the container's output returned these bytes (possibly none).
    ContainerOutput(Vec<u8>),
    /// The client sent a binary message.
    ClientBinary(Vec<u8>),
    /// The client sent a text message.
    ClientText(String),
    /// The client sent a ping with this payload.
    ClientPing(Vec<u8>),
    /// The client sent a pong.
    ClientPong(Vec<u8>),
    /// The client sent a close message.
    ClientClose,
    /// The client's message stream ended.
    ClientGone,
    /// The container exited.
    ContainerExited,
    /// Nothing happened for [`IDLE_TIMEOUT_SECS`] seconds.
    IdleTimeout,
    /// Reading the container's output or the client's messages failed, with
    /// this error text.
    Failure(String),
}

/// A message sent to the client.
#[derive(Debug)]
pub enum Reply {
    Text(String),
    Pong(Vec<u8>),
}

/// Whether a session goes on after a step.
#[derive(Debug)]
pub enum Flow {
    /// Wait for the next event.
    Continue,
    /// Stop the container and end the session normally.
    Finish,
    /// End the session with the given error text.
    Fail(String),
}

/// What to do for one event.
#[derive(Debug)]
pub struct Step {
    /// The message to send to the client, if any.
    pub reply: Option<Reply>,
    /// Whether a failure to send `reply` fails the session; where it is
    /// false such a failure is ignored.
    pub reply_failure_fatal: bool,
    /// The bytes to write to the container's input, if any.
    pub to_container: Option<Vec<u8>>,
    /// How the session goes on.
    pub flow: Flow,
}

/// `reply` is a text message whose text is `text`.
pub open spec fn replies_text(reply: Option<Reply>, text: Seq<char>) -> bool {
    reply matches Some(Reply::Text(t)) && t@ == text
}

/// `step` is the answer to `event`.
pub open spec fn answers(event: SessionEvent, step: Step) -> bool {
    match event {
        SessionEvent::ContainerOutput(bytes) => {
            &&& replies_text(step.reply, lossy_utf8(bytes@))
            &&& step.reply_failure_fatal
            &&& step.to_container is None
            &&& step.flow is Continue
        },
        SessionEvent::ClientBinary(bytes) => {
            &&& step.reply is None
            &&& !step.reply_failure_fatal
            &&& step.to_container matches Some(w) && w@ == bytes@
            &&& step.flow is Continue
        },
        SessionEvent::ClientText(text) => {
            &&& step.reply is None
            &&& !step.reply_failure_fatal
            &&& step.to_container matches Some(w) && w@ == data_frame(encode_utf8(text@))
            &&& step.flow is Continue
        },
        SessionEvent::ClientPing(payload) => {
            &&& step.reply matches Some(Reply::Pong(p)) && p@ == payload@
            &&& step.reply_failure_fatal
            &&& step.to_container is None
            &&& step.flow is Continue
        },
        SessionEvent::ClientPong(_) => {
            &&& step.reply is None
            &&& !step.reply_failure_fatal
            &&& step.to_container is None
            &&& step.flow is Continue
        },
        SessionEvent::ClientClose | SessionEvent::ClientGone => {
            &&& step.reply is None
            &&& !step.reply_failure_fatal
            &&& step.to_container is None
            &&& step.flow is Finish
        },
        SessionEvent::ContainerExited => {
            &&& replies_text(step.reply, "\n\rContainer exited.\n"@)
            &&& !step.reply_failure_fatal
            &&& step.to_container is None
            &&& step.flow is Finish
        },
        SessionEvent::IdleTimeout => {
            &&& replies_text(step.reply, "\n\rSession terminated due to timeout.\n"@)
            &&& !step.reply_failure_fatal
            &&& step.to_container is None
            &&& step.flow is Finish
        },
        SessionEvent::Failure(error) => {
            &&& step.reply is None
            &&& !step.reply_failure_fatal
            &&& step.to_container is None
            &&& step.flow matches Flow::Fail(e) && e@ == error@
        },
    }
}

/// Decides what a session does for one event.
///
/// Container output goes to the client as text; a binary message goes to the
/// container as it is, and a text message as a data frame of its UTF-8
/// bytes; a ping is answered with a pong of the same payload. A close
/// message, the end of the client's stream, the container's exit and the
/// idle timeout end the session, the last two with a notice to the client.
pub fn session_step(event: SessionEvent) -> (step: Step)
    ensures
        answers(event, step),
{
    match event {
        SessionEvent::ContainerOutput(bytes) => Step {
            reply: Some(Reply::Text(text_from_utf8_lossy(bytes.as_slice()))),
            reply_failure_fatal: true,
            to_container: None,
            flow: Flow::Continue,
        },
        SessionEvent::ClientBinary(bytes) => Step {
            reply: None,
            reply_failure_fatal: false,
            to_container: Some(bytes),
            flow: Flow::Continue,
        },
        SessionEvent::ClientText(text) => {
            let frame = encode_data_frame(text.as_str().as_bytes());
            Step {
                reply: None,
                reply_failure_fatal: false,
                to_container: Some(frame),
                flow: Flow::Continue,
            }
        },
        SessionEvent::ClientPing(payload) => Step {
            reply: Some(Reply::Pong(payload)),
            reply_failure_fatal: true,
            to_container: None,
            flow: Flow::Continue,
        },
        SessionEvent::ClientPong(_) => Step {
            reply: None,
            reply_failure_fatal: false,
            to_container: None,
            flow: Flow::Continue,
        },
        SessionEvent::ClientClose | SessionEvent::ClientGone => Step {
            reply: None,
            reply_failure_fatal: false,
            to_container: None,
            flow: Flow::Finish,
        },
        SessionEvent::ContainerExited => Step {
            reply: Some(Reply::Text(String::from_str("\n\rContainer exited.\n"))),
            reply_failure_fatal: false,
            to_container: None,
            flow: Flow::Finish,
        },
        SessionEvent::IdleTimeout => Step {
            reply: Some(Reply::Text(String::from_str("\n\rSession terminated due to timeout.\n"))),
            reply_failure_fatal: false,
            to_container: None,
            flow: Flow::Finish,
        },
        SessionEvent::Failure(error) => Step {
            reply: None,
            reply_failure_fatal: false,
            to_container: None,
            flow: Flow::Fail(error),
        },
    }
}

/// The notice sent to a client when its session starts.
pub fn starting_notice() -> (s: String)
    ensures
        s@ == "Starting container, please wait...\n\r"@,
{
    String::from_str("Starting container, please wait...\n\r")
}

/// The notice sent to a client when its session fails with `error`, before
/// the container is stopped.
pub fn failure_notice(error: &str) -> (s: String)
    ensures
        s@ == "Error: "@ + error@ + "\n\rWill now exit.\n\r"@,
{
    let mut s = String::from_str("Error: ");
    s.append(error);
    s.append("\n\rWill now exit.\n\r");
    s
}

/// The last notice sent to a client whose session ended with `error`.
pub fn closing_notice(error: &str) -> (s: String)
    ensures
        s@ == "\n\rError: "@ + error@ + "\n"@,
{
    let mut s = String::from_str("\n\rError: ");
    s.append(error);
    s.append("\n");
    s
}

/// What a client types as a text message reaches the terminal unchanged:
/// the terminal helper, reading the bytes that the session writes to the
/// container for it, gets back exactly the text's UTF-8 bytes and takes all
/// that was written (for texts of at most `u32::MAX` bytes).
pub proof fn lemma_client_text_reaches_terminal(
    text: String,
    step: Step,
    res: Result<Decoded, ReadError>,
)
    requires
        encode_utf8(text@).len() <= u32::MAX,
        answers(SessionEvent::ClientText(text), step),
        reads_as(step.to_container->Some_0@, res),
    ensures
        res matches Ok(d),
        res->Ok_0.consumed == step.to_container->Some_0@.len(),
        res->Ok_0.event matches InputEvent::Data(bytes) && bytes@ == encode_utf8(text@),
{
    let payload = encode_utf8(text@);
    assert(data_frame(payload) + Seq::<u8>::empty() =~= data_frame(payload));
    lemma_data_frame_roundtrip(payload, Seq::<u8>::empty(), res);
}

} // verus!

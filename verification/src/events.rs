//! The worker's events and the notifications they become.

use vstd::prelude::*;

verus! {

/// Which of the worker's output streams a line came from.
#[derive(Debug, Clone, Copy, PartialEq, Eq)]
pub enum Stream {
    Stdout,
    Stderr,
}

/// One event from the worker's output channel.
#[derive(Debug, PartialEq, Eq)]
pub enum LifecycleEvent {
    /// A raw line of output.
    OutputLine { stream: Stream, bytes: Vec<u8> },
    /// The worker exited; `exit` is the exit descriptor as the channel
    /// renders it, passed on untouched.
    Terminated { exit: String },
}

/// What is sent to the notification sink for one event.
#[derive(Debug, PartialEq, Eq)]
pub struct Notification {
    pub channel: &'static str,
    pub payload: String,
}

/// The text that lossy UTF-8 decoding makes of `bytes`.
pub uninterp spec fn lossy_text(bytes: Seq<u8>) -> Seq<char>;

/// The channel on which a line of output from `stream` is announced.
pub open spec fn output_channel(stream: Stream) -> &'static str {
    match stream {
        Stream::Stdout => "go-backend-log",
        Stream::Stderr => "go-backend-error",
    }
}

/// The channel on which an event is announced.
pub open spec fn channel_of(event: LifecycleEvent) -> &'static str {
    match event {
        LifecycleEvent::OutputLine { stream, .. } => output_channel(stream),
        LifecycleEvent::Terminated { .. } => "go-backend-terminated",
    }
}

/// The text that is announced for an event.
pub open spec fn payload_of(event: LifecycleEvent) -> Seq<char> {
    match event {
        LifecycleEvent::OutputLine { bytes, .. } => lossy_text(bytes@),
        LifecycleEvent::Terminated { exit } => exit@,
    }
}

/// Calls `String::from_utf8_lossy` and takes the text it gives as an owned
/// string. The text depends on the bytes alone; the contract gives it the
/// name [`lossy_text`] and claims nothing else of it.
#[verifier::external_body]
fn decode_lossy(bytes: &Vec<u8>) -> (text: String)
    ensures
        text@ == lossy_text(bytes@),
{
    String::from_utf8_lossy(bytes).into_owned()
}

/// Announces a decoded line of output on the channel of its stream.
pub fn announce(stream: Stream, text: String) -> (note: Notification)
    ensures
        note.channel == output_channel(stream),
        note.payload == text,
{
    match stream {
        Stream::Stdout => Notification { channel: "go-backend-log", payload: text },
        Stream::Stderr => Notification { channel: "go-backend-error", payload: text },
    }
}

/// Turns one event into the one notification that stands for it.
pub fn notification(event: LifecycleEvent) -> (note: Notification)
    ensures
        note.channel == channel_of(event),
        note.payload@ == payload_of(event),
{
    match event {
        LifecycleEvent::OutputLine { stream, bytes } => {
            let text = decode_lossy(&bytes);
            announce(stream, text)
        },
        LifecycleEvent::Terminated { exit } => {
            Notification { channel: "go-backend-terminated", payload: exit }
        },
    }
}

} // verus!

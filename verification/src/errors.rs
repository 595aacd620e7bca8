//! Error values produced while decoding a `sequence` notification or while
//! operating the listener's socket.

use vstd::prelude::*;

verus! {

/// Everything that can go wrong while decoding one multi-frame message or
/// while receiving it from the socket.
///
/// Decode-time errors say exactly which requirement of the wire format the
/// message broke; `TransportError` carries a socket-level failure (during
/// connect or receive) as plain text.
#[derive(Clone, Debug, PartialEq, Eq)]
pub enum ZMQSeqListenerError {
    /// The message held fewer than the three required frames.
    TooFewFrames,
    /// The topic frame was valid text, but not the text `sequence`.
    UnexpectedTopic(String),
    /// The topic frame was not valid UTF-8.
    TopicNotUtf8,
    /// The sequence frame held fewer than the 4 bytes of the transport
    /// counter.
    TruncatedSequenceNumber,
    /// The body frame held fewer than the 33 bytes of hash plus
    /// discriminator.
    TruncatedBody,
    /// The discriminator byte was none of the four known event tags.
    UnknownDiscriminator(u8),
    /// A mempool event's body held fewer than the 41 bytes needed for the
    /// mempool sequence number.
    TruncatedMempoolSequence,
    /// A socket-level failure, reported by the transport library.
    TransportError(String),
}

} // verus!

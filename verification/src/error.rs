//! The failures that the session layer reports.
use vstd::prelude::*;
use vstd::string::StringExecFns;
use crate::category::Category;

verus! {

/// Why a session could not be had or used.
#[derive(Clone, Copy, Debug, PartialEq, Eq, Structural)]
pub enum SessionError {
    /// The endpoint could not be reached, or its certificate was not the
    /// pinned one.
    ConnectionUnreachable,
    /// There is no active session.
    SessionNotActive,
}

/// Why a channel handshake failed.
#[derive(Clone, Copy, Debug, PartialEq, Eq, Structural)]
pub enum HandshakeError {
    /// There is no active session to open the channel on.
    SessionNotActive,
    /// The transport refused a new pair of streams.
    StreamOpenFailed,
    /// The init envelope could not be written.
    WriteFailed,
    /// The acknowledgment could not be read.
    ReadFailed,
    /// The stream ended before an acknowledgment came.
    EmptyResponse,
    /// What came was no acknowledgment envelope.
    MalformedAck,
    /// The server answered with something other than success.
    Rejected,
}

/// Why a send failed.
#[derive(Clone, Copy, Debug, PartialEq, Eq, Structural)]
pub enum SendError {
    /// The outbound stream is closed.
    StreamClosed,
}

/// Why the receive loop of a channel ended.
#[derive(Clone, Copy, Debug, PartialEq, Eq, Structural)]
pub enum ChannelEnd {
    /// A chunk was not UTF-8.
    DecodeError,
    /// The inbound stream ended, or the session was closed.
    ChannelClosed,
    /// A read failed.
    ReadFailed,
}

/// The end of one channel's receive loop, reported for that channel alone.
#[derive(Clone, Copy, Debug, PartialEq, Eq, Structural)]
pub struct ChannelEvent {
    pub category: Category,
    pub end: ChannelEnd,
}

impl SessionError {
    /// The words of `message`.
    pub open spec fn message_text(self) -> Seq<char> {
        match self {
            SessionError::ConnectionUnreachable => "connect: endpoint unreachable"@,
            SessionError::SessionNotActive => "session: not active"@,
        }
    }

    /// A description of the failure, naming the operation.
    pub fn message(&self) -> (words: String)
        ensures
            words@ == self.message_text(),
    {
        match self {
            SessionError::ConnectionUnreachable => String::from_str("connect: endpoint unreachable"),
            SessionError::SessionNotActive => String::from_str("session: not active"),
        }
    }
}

impl HandshakeError {
    /// What went wrong, without the channel.
    pub open spec fn reason_text(self) -> Seq<char> {
        match self {
            HandshakeError::SessionNotActive => "session not active"@,
            HandshakeError::StreamOpenFailed => "stream could not be opened"@,
            HandshakeError::WriteFailed => "init message could not be written"@,
            HandshakeError::ReadFailed => "init response could not be read"@,
            HandshakeError::EmptyResponse => "init response was empty"@,
            HandshakeError::MalformedAck => "init response was no server message"@,
            HandshakeError::Rejected => "server rejected the channel"@,
        }
    }

    /// The words of `message`.
    pub open spec fn message_text(self, category: Category) -> Seq<char> {
        "handshake on "@ + category.tag_text() + ": "@ + self.reason_text()
    }

    /// What went wrong, without the channel.
    pub fn reason(&self) -> (words: &'static str)
        ensures
            words@ == self.reason_text(),
    {
        match self {
            HandshakeError::SessionNotActive => "session not active",
            HandshakeError::StreamOpenFailed => "stream could not be opened",
            HandshakeError::WriteFailed => "init message could not be written",
            HandshakeError::ReadFailed => "init response could not be read",
            HandshakeError::EmptyResponse => "init response was empty",
            HandshakeError::MalformedAck => "init response was no server message",
            HandshakeError::Rejected => "server rejected the channel",
        }
    }

    /// A description of the failure, naming the operation and the channel.
    pub fn message(&self, category: Category) -> (words: String)
        ensures
            words@ == self.message_text(category),
    {
        let mut words = String::from_str("handshake on ");
        words.append(category.tag());
        words.append(": ");
        words.append(self.reason());
        words
    }
}

impl SendError {
    /// The words of `message`.
    pub open spec fn message_text(self, category: Category) -> Seq<char> {
        "send on "@ + category.tag_text() + ": stream closed"@
    }

    /// A description of the failure, naming the operation and the channel.
    pub fn message(&self, category: Category) -> (words: String)
        ensures
            words@ == self.message_text(category),
    {
        let mut words = String::from_str("send on ");
        words.append(category.tag());
        words.append(": stream closed");
        words
    }
}

impl ChannelEnd {
    /// What ended the loop, without the channel.
    pub open spec fn reason_text(self) -> Seq<char> {
        match self {
            ChannelEnd::DecodeError => "message was not UTF-8"@,
            ChannelEnd::ChannelClosed => "channel closed"@,
            ChannelEnd::ReadFailed => "message could not be read"@,
        }
    }

    /// What ended the loop, without the channel.
    pub fn reason(&self) -> (words: &'static str)
        ensures
            words@ == self.reason_text(),
    {
        match self {
            ChannelEnd::DecodeError => "message was not UTF-8",
            ChannelEnd::ChannelClosed => "channel closed",
            ChannelEnd::ReadFailed => "message could not be read",
        }
    }
}

impl ChannelEvent {
    /// The words of `message`.
    pub open spec fn message_text(self) -> Seq<char> {
        "receive on "@ + self.category.tag_text() + ": "@ + self.end.reason_text()
    }

    /// A description of the event, naming the operation and the channel.
    pub fn message(&self) -> (words: String)
        ensures
            words@ == self.message_text(),
    {
        let mut words = String::from_str("receive on ");
        words.append(self.category.tag());
        words.append(": ");
        words.append(self.end.reason());
        words
    }
}

} // verus!

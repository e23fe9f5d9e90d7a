//! The state of one channel slot, and the handles and steps of its two
//! directions.
use vstd::prelude::*;
use crate::category::Category;
use crate::error::{ChannelEvent, SendError};

verus! {

/// Where the inbound direction of a channel stands.
#[derive(Clone, Copy, Debug, PartialEq, Eq, Structural)]
pub enum ChannelPhase {
    /// No channel of this category exists.
    Vacant,
    /// The channel is established; its receive loop has not started.
    Ready,
    /// The receive loop runs.
    Receiving,
    /// The receive loop has ended.
    Ended(crate::error::ChannelEnd),
}

/// Where the outbound direction of a channel stands.
#[derive(Clone, Copy, Debug, PartialEq, Eq, Structural)]
pub enum Outbound {
    /// The stream takes a write.
    Open,
    /// One write is in flight; no other may start.
    Writing,
    /// The stream takes no write any more.
    Closed,
}

/// The slot of one category in a session.
#[derive(Clone, Copy, Debug, PartialEq, Eq, Structural)]
pub struct Slot {
    /// The inbound direction.
    pub phase: ChannelPhase,
    /// The number of the channel that holds the slot; 0 while it is vacant.
    pub serial: u64,
    /// The outbound direction.
    pub outbound: Outbound,
}

/// Names one channel: the category, and the number that the channel got when
/// it was established. A channel that was replaced or whose session is gone
/// keeps its handle, which then names nothing.
#[derive(Clone, Copy, Debug, PartialEq, Eq, Structural)]
pub struct ChannelHandle {
    pub category: Category,
    pub serial: u64,
}

impl Slot {
    /// The slot without a channel.
    pub open spec fn vacant() -> Slot {
        Slot { phase: ChannelPhase::Vacant, serial: 0, outbound: Outbound::Closed }
    }

    /// The slot of a channel that has just been established under a number.
    pub open spec fn fresh(serial: u64) -> Slot {
        Slot { phase: ChannelPhase::Ready, serial, outbound: Outbound::Open }
    }

    /// The slot after its session was closed: a channel that was ready or
    /// receiving has ended as closed, and the outbound stream is closed.
    pub open spec fn shut(self) -> Slot {
        Slot {
            phase: match self.phase {
                ChannelPhase::Ready => ChannelPhase::Ended(crate::error::ChannelEnd::ChannelClosed),
                ChannelPhase::Receiving => ChannelPhase::Ended(
                    crate::error::ChannelEnd::ChannelClosed,
                ),
                other => other,
            },
            serial: self.serial,
            outbound: Outbound::Closed,
        }
    }

    /// Whether a channel holds the slot.
    pub open spec fn occupied(self) -> bool {
        self.phase != ChannelPhase::Vacant
    }
}

/// What a receive loop does with the answer to one read.
#[derive(Debug, PartialEq, Eq)]
pub enum ReceiveStep {
    /// Hand this message to the consumer of the channel, and read again.
    Deliver(String),
    /// Report the event and end the loop.
    Stop(ChannelEvent),
}

/// A `ReceiveStep` with its text as a sequence.
pub enum ReceiveStepView {
    Deliver(Seq<char>),
    Stop(ChannelEvent),
}

impl View for ReceiveStep {
    type V = ReceiveStepView;

    open spec fn view(&self) -> ReceiveStepView {
        match self {
            ReceiveStep::Deliver(message) => ReceiveStepView::Deliver(message@),
            ReceiveStep::Stop(event) => ReceiveStepView::Stop(*event),
        }
    }
}

/// What a sender does after asking for the outbound stream.
#[derive(Debug, PartialEq, Eq)]
pub enum SendStep {
    /// The stream is the sender's: write these bytes in one write, then report
    /// how the write ended.
    Write(Vec<u8>),
    /// Another write is in flight: wait and ask again.
    Wait,
    /// The send has failed.
    Refused(SendError),
}

/// A `SendStep` with its bytes as a sequence.
pub enum SendStepView {
    Write(Seq<u8>),
    Wait,
    Refused(SendError),
}

impl View for SendStep {
    type V = SendStepView;

    open spec fn view(&self) -> SendStepView {
        match self {
            SendStep::Write(bytes) => SendStepView::Write(bytes@),
            SendStep::Wait => SendStepView::Wait,
            SendStep::Refused(error) => SendStepView::Refused(*error),
        }
    }
}

} // verus!

//! The session as a mathematical object: what a client holds, and how each
//! operation changes it.
use vstd::prelude::*;
use vstd::utf8::encode_utf8;
use crate::category::{Category, CATEGORY_COUNT};
use crate::channel::{ChannelHandle, ChannelPhase, Outbound, ReceiveStepView, SendStepView, Slot};
use crate::error::{ChannelEnd, ChannelEvent, HandshakeError, SendError, SessionError};
use crate::handshake::{HandshakeActionView, HandshakeEventView, HandshakePhase, HandshakeView};
use crate::text::chunk_text;
use crate::transport::{ConnectOutcome, ReadView, WriteOutcome};

verus! {

/// Where the connection of a client stands.
#[derive(Clone, Copy, Debug, PartialEq, Eq, Structural)]
pub enum SessionPhase {
    /// No session was established yet.
    Idle,
    /// A session is established.
    Active,
    /// The session was closed, by the client or by the transport.
    Closed,
}

/// What a client holds.
pub struct ClientView {
    /// The address of the endpoint.
    pub url: Seq<char>,
    /// The digest of the certificate that the endpoint must present.
    pub certificate: Seq<u8>,
    /// Where the connection stands.
    pub phase: SessionPhase,
    /// The number of the session, counted from 1; 0 before the first.
    pub session: u64,
    /// How many channels were established so far, over all sessions.
    pub issued: u64,
    /// One slot for each category.
    pub slots: Seq<Slot>,
}

/// How far a channel setup has come.
pub enum SetupView {
    /// The driver has to perform this operation next.
    Continue(HandshakeActionView),
    /// The channel is established and registered.
    Established { channel: ChannelHandle, replaced: bool },
    /// The setup has failed; no channel was registered.
    Failed(HandshakeError),
}

/// The handles of the channels that are ready among the first `upto` slots, in
/// the order of the slots.
pub open spec fn ready_handles(slots: Seq<Slot>, upto: nat) -> Seq<ChannelHandle>
    decreases upto,
{
    if upto == 0 {
        Seq::empty()
    } else {
        let before = ready_handles(slots, (upto - 1) as nat);
        let slot = slots[upto - 1];
        if slot.phase == ChannelPhase::Ready {
            before.push(
                ChannelHandle { category: Category::at_slot(upto - 1), serial: slot.serial },
            )
        } else {
            before
        }
    }
}

impl ClientView {
    /// What every client satisfies: one slot for each category, none of them
    /// numbered beyond the channels established so far.
    pub open spec fn wf(self) -> bool {
        &&& self.slots.len() == CATEGORY_COUNT
        &&& forall|i: int| 0 <= i < self.slots.len() ==> (#[trigger] self.slots[i]).serial <= self.issued
    }

    /// The slot of a category.
    pub open spec fn slot(self, category: Category) -> Slot {
        self.slots[category.slot()]
    }

    /// The client with another slot for a category.
    pub open spec fn with_slot(self, category: Category, slot: Slot) -> ClientView {
        ClientView { slots: self.slots.update(category.slot(), slot), ..self }
    }

    /// Whether a handle names the channel that holds the slot of its category
    /// in the active session.
    pub open spec fn current(self, channel: ChannelHandle) -> bool {
        &&& self.phase == SessionPhase::Active
        &&& self.slot(channel.category).occupied()
        &&& self.slot(channel.category).serial == channel.serial
    }

    /// A client that was just made for an endpoint.
    pub open spec fn initial(url: Seq<char>, certificate: Seq<u8>) -> ClientView {
        ClientView {
            url,
            certificate,
            phase: SessionPhase::Idle,
            session: 0,
            issued: 0,
            slots: Seq::new(CATEGORY_COUNT as nat, |i: int| Slot::vacant()),
        }
    }

    /// The client after a connection attempt. A connection that was made
    /// starts the next session, with every slot vacant: the channels of an
    /// earlier session are gone with it. Without one, and where the session
    /// numbers are used up, nothing changes.
    pub open spec fn connected(self, outcome: ConnectOutcome) -> ClientView {
        if outcome == ConnectOutcome::Connected && self.session < u64::MAX {
            ClientView {
                phase: SessionPhase::Active,
                session: (self.session + 1) as u64,
                slots: Seq::new(CATEGORY_COUNT as nat, |i: int| Slot::vacant()),
                ..self
            }
        } else {
            self
        }
    }

    /// What a connection attempt returns.
    pub open spec fn connect_result(self, outcome: ConnectOutcome) -> Result<(), SessionError> {
        if outcome == ConnectOutcome::Connected && self.session < u64::MAX {
            Ok(())
        } else {
            Err(SessionError::ConnectionUnreachable)
        }
    }

    /// Whether the session with the given number is the active one.
    pub open spec fn holds_session(self, session: u64) -> bool {
        self.phase == SessionPhase::Active && self.session == session
    }

    /// The client after the session with the given number was closed: where
    /// that session is the active one, it is closed and so is every slot.
    pub open spec fn shut(self, session: u64) -> ClientView {
        if self.holds_session(session) {
            ClientView {
                phase: SessionPhase::Closed,
                slots: Seq::new(self.slots.len(), |i: int| self.slots[i].shut()),
                ..self
            }
        } else {
            self
        }
    }

    /// The handle that the next established channel of a category gets.
    pub open spec fn next_handle(self, category: Category) -> ChannelHandle {
        ChannelHandle { category, serial: (self.issued + 1) as u64 }
    }

    /// The client after a channel of a category was established: the channel
    /// takes the slot, whatever held it.
    pub open spec fn registered(self, category: Category) -> ClientView {
        ClientView {
            issued: (self.issued + 1) as u64,
            slots: self.slots.update(category.slot(), Slot::fresh((self.issued + 1) as u64)),
            ..self
        }
    }

    /// A step of a channel setup: the handshake takes the event in. Where that
    /// establishes the channel, the channel is registered, provided that the
    /// session on which the handshake began is still the active one and that a
    /// channel number is left. Nothing else changes the client.
    pub open spec fn setup(self, handshake: HandshakeView, event: HandshakeEventView) -> (
        ClientView,
        HandshakeView,
        SetupView,
    ) {
        let after = handshake.step(event);
        if handshake.phase == HandshakePhase::AwaitingAck && after.phase
            == HandshakePhase::Established {
            if !self.holds_session(handshake.session) {
                (
                    self,
                    after.failed(HandshakeError::SessionNotActive),
                    SetupView::Failed(HandshakeError::SessionNotActive),
                )
            } else if self.issued == u64::MAX {
                (
                    self,
                    after.failed(HandshakeError::StreamOpenFailed),
                    SetupView::Failed(HandshakeError::StreamOpenFailed),
                )
            } else {
                (
                    self.registered(after.category()),
                    after,
                    SetupView::Established {
                        channel: self.next_handle(after.category()),
                        replaced: self.slot(after.category()).occupied(),
                    },
                )
            }
        } else {
            match after.phase {
                HandshakePhase::Failed(error) => (self, after, SetupView::Failed(error)),
                _ => (self, after, SetupView::Continue(after.pending())),
            }
        }
    }

    /// The client after the receive loops were started: every channel that was
    /// ready is receiving.
    pub open spec fn listening(self) -> ClientView {
        if self.phase == SessionPhase::Active {
            ClientView {
                slots: Seq::new(
                    self.slots.len(),
                    |i: int|
                        if self.slots[i].phase == ChannelPhase::Ready {
                            Slot { phase: ChannelPhase::Receiving, ..self.slots[i] }
                        } else {
                            self.slots[i]
                        },
                ),
                ..self
            }
        } else {
            self
        }
    }

    /// Whether the receive loop of a channel runs.
    pub open spec fn receiving(self, channel: ChannelHandle) -> bool {
        self.current(channel) && self.slot(channel.category).phase == ChannelPhase::Receiving
    }

    /// Why the receive loop of a channel ends on the answer to a read, if it
    /// does: on bytes that are not UTF-8, at the end of the stream, on a failed
    /// read.
    pub open spec fn read_end(answer: ReadView) -> Option<ChannelEnd> {
        match answer {
            ReadView::Failed => Some(ChannelEnd::ReadFailed),
            ReadView::End => Some(ChannelEnd::ChannelClosed),
            ReadView::Data(bytes) => if bytes.len() == 0 {
                Some(ChannelEnd::ChannelClosed)
            } else if chunk_text(bytes) is None {
                Some(ChannelEnd::DecodeError)
            } else {
                None
            },
        }
    }

    /// What the receive loop of a channel does with the answer to a read. A
    /// loop that runs delivers the text of the bytes, or ends for the reason
    /// that the answer gives. A loop whose channel is gone, replaced or ended
    /// stops: with the reason for which it ended, else as closed.
    pub open spec fn receive_step(self, channel: ChannelHandle, answer: ReadView) -> ReceiveStepView {
        if self.receiving(channel) {
            match ClientView::read_end(answer) {
                Some(end) => ReceiveStepView::Stop(ChannelEvent { category: channel.category, end }),
                None => ReceiveStepView::Deliver(chunk_text(answer->Data_0).unwrap()),
            }
        } else if self.current(channel) {
            match self.slot(channel.category).phase {
                ChannelPhase::Ended(end) => ReceiveStepView::Stop(
                    ChannelEvent { category: channel.category, end },
                ),
                _ => ReceiveStepView::Stop(
                    ChannelEvent { category: channel.category, end: ChannelEnd::ChannelClosed },
                ),
            }
        } else {
            ReceiveStepView::Stop(
                ChannelEvent { category: channel.category, end: ChannelEnd::ChannelClosed },
            )
        }
    }

    /// The client after the receive loop of a channel took in the answer to a
    /// read: a running loop that ends leaves its slot ended; nothing else
    /// changes.
    pub open spec fn received(self, channel: ChannelHandle, answer: ReadView) -> ClientView {
        if self.receiving(channel) {
            match ClientView::read_end(answer) {
                Some(end) => self.with_slot(
                    channel.category,
                    Slot { phase: ChannelPhase::Ended(end), ..self.slot(channel.category) },
                ),
                None => self,
            }
        } else {
            self
        }
    }

    /// Whether the outbound stream of a channel takes writes.
    pub open spec fn sendable(self, channel: ChannelHandle) -> bool {
        self.current(channel) && self.slot(channel.category).outbound != Outbound::Closed
    }

    /// What a sender gets when it asks for the outbound stream of a channel
    /// with a message: the whole message to write, where the stream is open
    /// and free; the order to wait, where a write is in flight; a refusal,
    /// where the stream is closed or the channel gone.
    pub open spec fn send_step(self, channel: ChannelHandle, message: Seq<char>) -> SendStepView {
        if !self.sendable(channel) {
            SendStepView::Refused(SendError::StreamClosed)
        } else if self.slot(channel.category).outbound == Outbound::Writing {
            SendStepView::Wait
        } else {
            SendStepView::Write(encode_utf8(message))
        }
    }

    /// The client after a sender asked for the outbound stream of a channel:
    /// a stream that was open and free has a write in flight.
    pub open spec fn send_begun(self, channel: ChannelHandle) -> ClientView {
        if self.sendable(channel) && self.slot(channel.category).outbound == Outbound::Open {
            self.with_slot(
                channel.category,
                Slot { outbound: Outbound::Writing, ..self.slot(channel.category) },
            )
        } else {
            self
        }
    }

    /// What a send returns once its write has ended: success for a write that
    /// was done on a channel that still takes writes, else a closed stream.
    pub open spec fn send_result(self, channel: ChannelHandle, outcome: WriteOutcome) -> Result<
        (),
        SendError,
    > {
        if self.sendable(channel) && outcome == WriteOutcome::Done {
            Ok(())
        } else {
            Err(SendError::StreamClosed)
        }
    }

    /// The client after the write of a send has ended: the stream is free
    /// again after a write that was done, and closed after one that failed.
    pub open spec fn send_ended(self, channel: ChannelHandle, outcome: WriteOutcome) -> ClientView {
        if self.sendable(channel) {
            self.with_slot(
                channel.category,
                Slot {
                    outbound: if outcome == WriteOutcome::Done {
                        Outbound::Open
                    } else {
                        Outbound::Closed
                    },
                    ..self.slot(channel.category)
                },
            )
        } else {
            self
        }
    }
}

} // verus!

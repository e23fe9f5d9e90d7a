//! The client: an endpoint, its session, and the channels of that session.
//!
//! A client performs no network operation. Its driver connects, opens
//! streams, writes and reads, and reports each answer of the transport; the
//! client decides what follows.
use vstd::prelude::*;
use vstd::string::StrSliceExecFns;
use crate::category::{Category, CATEGORY_COUNT};
use crate::channel::{ChannelHandle, ChannelPhase, Outbound, ReceiveStep, SendStep, Slot};
use crate::error::{ChannelEnd, ChannelEvent, HandshakeError, SendError, SessionError};
use crate::handshake::{Handshake, HandshakeAction, HandshakeEvent, HandshakePhase};
use crate::session::{ready_handles, ClientView, SessionPhase, SetupView};
use crate::text::decode_chunk;
use crate::transport::{ConnectOutcome, ReadOutcome, WriteOutcome};

verus! {

/// A client of one endpoint.
#[derive(Debug)]
pub struct WebTransportClient {
    url: String,
    certificate: Vec<u8>,
    phase: SessionPhase,
    session: u64,
    issued: u64,
    slots: Vec<Slot>,
}

/// The sending side of one channel. It can be copied and held by several
/// senders: the client lets one of them write at a time.
#[derive(Clone, Copy, Debug, PartialEq, Eq, Structural)]
pub struct WebTransportSendStream {
    channel: ChannelHandle,
}

/// The connection under one session, for closing it and for watching it
/// close.
#[derive(Clone, Copy, Debug, PartialEq, Eq, Structural)]
pub struct WebTransportTransport {
    session: u64,
}

/// How far a channel setup has come.
#[derive(Debug, PartialEq, Eq)]
pub enum SetupProgress {
    /// The driver has to perform this operation next.
    Continue(HandshakeAction),
    /// The channel is established and registered. `replaced` tells that a
    /// channel of the same category was there and is gone.
    Established { stream: WebTransportSendStream, replaced: bool },
    /// The setup has failed; no channel was registered.
    Failed(HandshakeError),
}

impl View for SetupProgress {
    type V = SetupView;

    open spec fn view(&self) -> SetupView {
        match self {
            SetupProgress::Continue(action) => SetupView::Continue(action@),
            SetupProgress::Established { stream, replaced } => SetupView::Established {
                channel: stream.handle(),
                replaced: *replaced,
            },
            SetupProgress::Failed(error) => SetupView::Failed(*error),
        }
    }
}

impl View for WebTransportClient {
    type V = ClientView;

    closed spec fn view(&self) -> ClientView {
        ClientView {
            url: self.url@,
            certificate: self.certificate@,
            phase: self.phase,
            session: self.session,
            issued: self.issued,
            slots: self.slots@,
        }
    }
}

/// Five vacant slots.
fn vacant_slots() -> (slots: Vec<Slot>)
    ensures
        slots@ == Seq::new(CATEGORY_COUNT as nat, |i: int| Slot::vacant()),
{
    let mut slots: Vec<Slot> = Vec::new();
    let mut i: usize = 0;
    while i < CATEGORY_COUNT
        invariant
            i <= CATEGORY_COUNT,
            slots@.len() == i,
            forall|j: int| 0 <= j < i ==> slots@[j] == Slot::vacant(),
        decreases CATEGORY_COUNT - i,
    {
        slots.push(Slot { phase: ChannelPhase::Vacant, serial: 0, outbound: Outbound::Closed });
        i += 1;
    }
    assert(slots@ =~= Seq::new(CATEGORY_COUNT as nat, |i: int| Slot::vacant()));
    slots
}

/// The slots with one of them exchanged.
fn slots_with(slots: &Vec<Slot>, index: usize, slot: Slot) -> (out: Vec<Slot>)
    requires
        index < slots@.len(),
    ensures
        out@ == slots@.update(index as int, slot),
{
    let mut out: Vec<Slot> = Vec::new();
    let mut i: usize = 0;
    while i < slots.len()
        invariant
            i <= slots@.len(),
            index < slots@.len(),
            out@.len() == i,
            forall|j: int| 0 <= j < i ==> out@[j] == slots@.update(index as int, slot)[j],
        decreases slots@.len() - i,
    {
        if i == index {
            out.push(slot);
        } else {
            out.push(slots[i]);
        }
        i += 1;
    }
    assert(out@ =~= slots@.update(index as int, slot));
    out
}

impl WebTransportClient {
    #[verifier::type_invariant]
    spec fn inv(&self) -> bool {
        self@.wf()
    }

    /// A client for the endpoint at `url` that must present the certificate
    /// with the given digest. It has no session yet.
    pub fn new(url: String, certificate_bytes: Vec<u8>) -> (client: WebTransportClient)
        ensures
            client@ == ClientView::initial(url@, certificate_bytes@),
            client@.wf(),
    {
        WebTransportClient {
            url,
            certificate: certificate_bytes,
            phase: SessionPhase::Idle,
            session: 0,
            issued: 0,
            slots: vacant_slots(),
        }
    }

    /// The address of the endpoint.
    pub fn url(&self) -> (url: &str)
        ensures
            url@ == self@.url,
    {
        self.url.as_str()
    }

    /// The digest of the pinned certificate.
    pub fn certificate(&self) -> (digest: &Vec<u8>)
        ensures
            digest@ == self@.certificate,
    {
        &self.certificate
    }

    /// Where the connection stands. Every client is well formed, which a
    /// caller that was handed one learns here.
    pub fn session_phase(&self) -> (phase: SessionPhase)
        ensures
            phase == self@.phase,
            self@.wf(),
    {
        proof {
            use_type_invariant(self);
        }
        self.phase
    }

    /// Whether a session is active.
    pub fn is_active(&self) -> (active: bool)
        ensures
            active == (self@.phase == SessionPhase::Active),
    {
        self.phase == SessionPhase::Active
    }

    /// Where the channel of a category stands.
    pub fn channel_phase(&self, category: Category) -> (phase: ChannelPhase)
        ensures
            phase == self@.slot(category).phase,
    {
        proof {
            use_type_invariant(self);
        }
        self.slots[category.index()].phase
    }

    /// Whether a handle names a channel of the active session.
    pub fn is_current(&self, channel: ChannelHandle) -> (current: bool)
        ensures
            current == self@.current(channel),
    {
        proof {
            use_type_invariant(self);
        }
        let slot = self.slots[channel.category.index()];
        self.phase == SessionPhase::Active && slot.phase != ChannelPhase::Vacant && slot.serial
            == channel.serial
    }

    /// Takes in how the connection attempt ended. A connection that was made
    /// starts a new session; the channels of an earlier one are gone. Once
    /// the session numbers are used up no connection is taken any more, and
    /// the call answers as for an endpoint that was not reached.
    pub fn init_session(&mut self, outcome: ConnectOutcome) -> (result: Result<(), SessionError>)
        ensures
            final(self)@ == old(self)@.connected(outcome),
            result == old(self)@.connect_result(outcome),
            final(self)@.wf(),
    {
        proof {
            use_type_invariant(&*self);
        }
        if outcome == ConnectOutcome::Connected && self.session < u64::MAX {
            let slots = vacant_slots();
            self.phase = SessionPhase::Active;
            self.session = self.session + 1;
            self.slots = slots;
            Ok(())
        } else {
            Err(SessionError::ConnectionUnreachable)
        }
    }

    /// Begins the setup of a channel for a category tag and a context. The
    /// handshake that comes back names the operations to perform; hand their
    /// answers to `continue_setup`.
    pub fn setup_connection(&self, event_category: String, context_id: String) -> (result: Result<
        Handshake,
        HandshakeError,
    >)
        ensures
            self@.phase != SessionPhase::Active ==> result == Err::<Handshake, HandshakeError>(
                HandshakeError::SessionNotActive,
            ),
            self@.phase == SessionPhase::Active ==> result is Ok && result.unwrap()@ == (
            crate::handshake::HandshakeView {
                event_category: event_category@,
                context_id: context_id@,
                session: self@.session,
                phase: HandshakePhase::Opening,
                ack: None,
            }),
    {
        if self.phase == SessionPhase::Active {
            Ok(Handshake::open(event_category, context_id, self.session))
        } else {
            Err(HandshakeError::SessionNotActive)
        }
    }

    /// Takes in how the pending operation of a handshake ended. The step that
    /// establishes the channel registers it and hands out its sending side,
    /// unless the session of the handshake is no longer the active one or the
    /// channel numbers are used up: then the setup fails and nothing is
    /// registered.
    pub fn continue_setup(&mut self, handshake: &mut Handshake, event: HandshakeEvent) -> (progress:
        SetupProgress)
        ensures
            final(self)@ == old(self)@.setup(old(handshake)@, event@).0,
            final(handshake)@ == old(self)@.setup(old(handshake)@, event@).1,
            progress@ == old(self)@.setup(old(handshake)@, event@).2,
            final(self)@.wf(),
    {
        proof {
            use_type_invariant(&*self);
        }
        let before = handshake.phase();
        handshake.advance(event);
        let after = handshake.phase();
        if before == HandshakePhase::AwaitingAck && after == HandshakePhase::Established {
            if !(self.phase == SessionPhase::Active && self.session == handshake.session()) {
                handshake.abandon(HandshakeError::SessionNotActive);
                SetupProgress::Failed(HandshakeError::SessionNotActive)
            } else if self.issued == u64::MAX {
                handshake.abandon(HandshakeError::StreamOpenFailed);
                SetupProgress::Failed(HandshakeError::StreamOpenFailed)
            } else {
                let category = handshake.category();
                let slot = category.index();
                let replaced = self.slots[slot].phase != ChannelPhase::Vacant;
                let serial = self.issued + 1;
                self.issued = serial;
                self.slots = slots_with(&self.slots, slot, Slot { phase: ChannelPhase::Ready, serial, outbound: Outbound::Open });
                SetupProgress::Established {
                    stream: WebTransportSendStream { channel: ChannelHandle { category, serial } },
                    replaced,
                }
            }
        } else {
            match after {
                HandshakePhase::Failed(error) => SetupProgress::Failed(error),
                _ => SetupProgress::Continue(handshake.pending()),
            }
        }
    }

    /// The connection of the active session.
    pub fn get_transport(&self) -> (result: Result<WebTransportTransport, SessionError>)
        ensures
            self@.phase != SessionPhase::Active ==> result == Err::<
                WebTransportTransport,
                SessionError,
            >(SessionError::SessionNotActive),
            self@.phase == SessionPhase::Active ==> result is Ok && result.unwrap().session_number()
                == self@.session,
    {
        if self.phase == SessionPhase::Active {
            Ok(WebTransportTransport { session: self.session })
        } else {
            Err(SessionError::SessionNotActive)
        }
    }

    /// Closes the session with the given number, if it is the active one.
    fn shut_session(&mut self, session: u64) -> (closed: bool)
        ensures
            final(self)@ == old(self)@.shut(session),
            closed == old(self)@.holds_session(session),
            final(self)@.wf(),
    {
        proof {
            use_type_invariant(&*self);
        }
        if !(self.phase == SessionPhase::Active && self.session == session) {
            return false;
        }
        let mut slots: Vec<Slot> = Vec::new();
        let mut i: usize = 0;
        while i < CATEGORY_COUNT
            invariant
                i <= CATEGORY_COUNT,
                self.slots@.len() == CATEGORY_COUNT,
                slots@.len() == i,
                forall|j: int| 0 <= j < i ==> slots@[j] == self.slots@[j].shut(),
            decreases CATEGORY_COUNT - i,
        {
            let slot = self.slots[i];
            let phase = match slot.phase {
                ChannelPhase::Ready => ChannelPhase::Ended(ChannelEnd::ChannelClosed),
                ChannelPhase::Receiving => ChannelPhase::Ended(ChannelEnd::ChannelClosed),
                other => other,
            };
            slots.push(Slot { phase, serial: slot.serial, outbound: Outbound::Closed });
            i += 1;
        }
        assert(slots@ =~= Seq::new(self.slots@.len(), |i: int| self.slots@[i].shut()));
        self.phase = SessionPhase::Closed;
        self.slots = slots;
        true
    }

    /// Starts the receive loops: every channel that is ready becomes
    /// receiving. The handles that come back name the channels whose loops the
    /// driver has to run, one independent task each.
    pub fn connect_to_context(&mut self) -> (result: Result<Vec<ChannelHandle>, SessionError>)
        ensures
            final(self)@ == old(self)@.listening(),
            old(self)@.phase != SessionPhase::Active ==> result == Err::<
                Vec<ChannelHandle>,
                SessionError,
            >(SessionError::SessionNotActive),
            old(self)@.phase == SessionPhase::Active ==> result is Ok && result.unwrap()@
                == ready_handles(old(self)@.slots, CATEGORY_COUNT as nat),
            final(self)@.wf(),
    {
        proof {
            use_type_invariant(&*self);
        }
        if self.phase != SessionPhase::Active {
            return Err(SessionError::SessionNotActive);
        }
        let mut slots: Vec<Slot> = Vec::new();
        let mut started: Vec<ChannelHandle> = Vec::new();
        let mut i: usize = 0;
        while i < CATEGORY_COUNT
            invariant
                i <= CATEGORY_COUNT,
                self.slots@.len() == CATEGORY_COUNT,
                slots@.len() == i,
                forall|j: int|
                    0 <= j < i ==> slots@[j] == (if self.slots@[j].phase == ChannelPhase::Ready {
                        Slot { phase: ChannelPhase::Receiving, ..self.slots@[j] }
                    } else {
                        self.slots@[j]
                    }),
                started@ == ready_handles(self.slots@, i as nat),
            decreases CATEGORY_COUNT - i,
        {
            let slot = self.slots[i];
            if slot.phase == ChannelPhase::Ready {
                match Category::from_index(i) {
                    Some(category) => {
                        started.push(ChannelHandle { category, serial: slot.serial });
                    },
                    None => {},
                }
                slots.push(
                    Slot { phase: ChannelPhase::Receiving, serial: slot.serial, outbound: slot.outbound },
                );
            } else {
                slots.push(slot);
            }
            i += 1;
        }
        assert(slots@ =~= old(self)@.listening().slots);
        self.slots = slots;
        Ok(started)
    }

    /// Takes in the answer to one read of a channel's receive loop, and says
    /// what the loop does with it.
    pub fn receive(&mut self, channel: ChannelHandle, outcome: ReadOutcome) -> (step: ReceiveStep)
        ensures
            final(self)@ == old(self)@.received(channel, outcome@),
            step@ == old(self)@.receive_step(channel, outcome@),
            final(self)@.wf(),
    {
        proof {
            use_type_invariant(&*self);
        }
        let category = channel.category;
        let index = category.index();
        let slot = self.slots[index];
        let current = self.phase == SessionPhase::Active && slot.phase != ChannelPhase::Vacant
            && slot.serial == channel.serial;
        if !current {
            return ReceiveStep::Stop(ChannelEvent { category, end: ChannelEnd::ChannelClosed });
        }
        match slot.phase {
            ChannelPhase::Receiving => {},
            ChannelPhase::Ended(end) => {
                return ReceiveStep::Stop(ChannelEvent { category, end });
            },
            _ => {
                return ReceiveStep::Stop(ChannelEvent { category, end: ChannelEnd::ChannelClosed });
            },
        }
        let end = match outcome {
            ReadOutcome::Failed => ChannelEnd::ReadFailed,
            ReadOutcome::End => ChannelEnd::ChannelClosed,
            ReadOutcome::Data(bytes) => {
                if bytes.len() == 0 {
                    ChannelEnd::ChannelClosed
                } else {
                    match decode_chunk(bytes.as_slice()) {
                        Some(message) => {
                            return ReceiveStep::Deliver(message);
                        },
                        None => ChannelEnd::DecodeError,
                    }
                }
            },
        };
        self.slots = slots_with(&self.slots, index, Slot { phase: ChannelPhase::Ended(end), serial: slot.serial, outbound: slot.outbound });
        ReceiveStep::Stop(ChannelEvent { category, end })
    }
}

impl WebTransportSendStream {
    /// The channel that the stream belongs to.
    pub closed spec fn handle(&self) -> ChannelHandle {
        self.channel
    }

    /// The channel that the stream belongs to.
    pub fn channel(&self) -> (channel: ChannelHandle)
        ensures
            channel == self.handle(),
    {
        self.channel
    }

    /// Asks for the outbound stream in order to send a message. The sender
    /// that gets `Write` holds the stream until it reports the end of its write
    /// with `finish_send`; until then every other sender gets `Wait`.
    pub fn send_message(&self, client: &mut WebTransportClient, message: String) -> (step: SendStep)
        ensures
            final(client)@ == old(client)@.send_begun(self.handle()),
            step@ == old(client)@.send_step(self.handle(), message@),
            final(client)@.wf(),
    {
        proof {
            use_type_invariant(&*client);
        }
        let index = self.channel.category.index();
        let slot = client.slots[index];
        let current = client.phase == SessionPhase::Active && slot.phase != ChannelPhase::Vacant
            && slot.serial == self.channel.serial;
        if !current {
            return SendStep::Refused(SendError::StreamClosed);
        }
        match slot.outbound {
            Outbound::Closed => SendStep::Refused(SendError::StreamClosed),
            Outbound::Writing => SendStep::Wait,
            Outbound::Open => {
                client.slots = slots_with(&client.slots, index, Slot { phase: slot.phase, serial: slot.serial, outbound: Outbound::Writing });
                SendStep::Write(message.as_str().as_bytes_vec())
            },
        }
    }

    /// Takes in how the write of a send ended, and gives the stream free.
    pub fn finish_send(&self, client: &mut WebTransportClient, outcome: WriteOutcome) -> (result:
        Result<(), SendError>)
        ensures
            final(client)@ == old(client)@.send_ended(self.handle(), outcome),
            result == old(client)@.send_result(self.handle(), outcome),
            final(client)@.wf(),
    {
        proof {
            use_type_invariant(&*client);
        }
        let index = self.channel.category.index();
        let slot = client.slots[index];
        let current = client.phase == SessionPhase::Active && slot.phase != ChannelPhase::Vacant
            && slot.serial == self.channel.serial;
        if !current || slot.outbound == Outbound::Closed {
            return Err(SendError::StreamClosed);
        }
        match outcome {
            WriteOutcome::Done => {
                client.slots = slots_with(&client.slots, index, Slot { phase: slot.phase, serial: slot.serial, outbound: Outbound::Open });
                Ok(())
            },
            WriteOutcome::Failed => {
                client.slots = slots_with(&client.slots, index, Slot { phase: slot.phase, serial: slot.serial, outbound: Outbound::Closed });
                Err(SendError::StreamClosed)
            },
        }
    }
}

impl WebTransportTransport {
    /// The number of the session that the connection carries.
    pub closed spec fn session_number(&self) -> u64 {
        self.session
    }

    /// The number of the session that the connection carries.
    pub fn session(&self) -> (session: u64)
        ensures
            session == self.session_number(),
    {
        self.session
    }

    /// Closes the session. Returns whether there was one to close: then the
    /// driver has to tear the connection down. Closing again changes nothing.
    pub fn close(&self, client: &mut WebTransportClient) -> (torn_down: bool)
        ensures
            final(client)@ == old(client)@.shut(self.session_number()),
            torn_down == old(client)@.holds_session(self.session_number()),
            final(client)@.wf(),
    {
        client.shut_session(self.session)
    }

    /// Takes in the signal that the transport has closed the connection.
    /// Returns whether the signal was news, which it is once.
    pub fn on_closed(&self, client: &mut WebTransportClient) -> (news: bool)
        ensures
            final(client)@ == old(client)@.shut(self.session_number()),
            news == old(client)@.holds_session(self.session_number()),
            final(client)@.wf(),
    {
        client.shut_session(self.session)
    }

    /// Whether the session of this connection is over.
    pub fn is_closed(&self, client: &WebTransportClient) -> (closed: bool)
        ensures
            closed == !client@.holds_session(self.session_number()),
    {
        !(client.phase == SessionPhase::Active && client.session == self.session)
    }
}

} // verus!

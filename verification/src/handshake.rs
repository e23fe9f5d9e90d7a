//! The handshake that establishes one channel, as a state machine.
//!
//! The machine never touches the network. In each phase it names the one
//! operation that its driver has to perform, and it moves on when the driver
//! reports how that operation ended.
use vstd::prelude::*;
use vstd::string::StrSliceExecFns;
use vstd::utf8::encode_utf8;
use crate::category::Category;
use crate::envelope::{accepts, ack_of_bytes, init_text, InitMessage, ServerMessage};
use crate::error::HandshakeError;
use crate::text::MAX_CHUNK;
use crate::transport::{OpenOutcome, ReadOutcome, ReadView, WriteOutcome};

verus! {

/// Where a handshake stands.
#[derive(Clone, Copy, Debug, PartialEq, Eq, Structural)]
pub enum HandshakePhase {
    /// A pair of streams has been asked for.
    Opening,
    /// The pair is open and the init envelope is being written.
    Announcing,
    /// The init envelope is out and the acknowledgment is awaited.
    AwaitingAck,
    /// The server accepted: the channel exists.
    Established,
    /// The handshake failed: there is no channel.
    Failed(HandshakeError),
}

/// What the driver reports to a handshake.
#[derive(Debug, PartialEq, Eq)]
pub enum HandshakeEvent {
    /// How the request for a pair of streams ended.
    Opened(OpenOutcome),
    /// How the write of the init envelope ended.
    Written(WriteOutcome),
    /// What the one read for the acknowledgment yielded.
    Answered(ReadOutcome),
}

/// A `HandshakeEvent` with its bytes as a sequence.
pub enum HandshakeEventView {
    Opened(OpenOutcome),
    Written(WriteOutcome),
    Answered(ReadView),
}

impl View for HandshakeEvent {
    type V = HandshakeEventView;

    open spec fn view(&self) -> HandshakeEventView {
        match self {
            HandshakeEvent::Opened(outcome) => HandshakeEventView::Opened(*outcome),
            HandshakeEvent::Written(outcome) => HandshakeEventView::Written(*outcome),
            HandshakeEvent::Answered(outcome) => HandshakeEventView::Answered(outcome@),
        }
    }
}

/// What a handshake asks of its driver.
#[derive(Debug, PartialEq, Eq)]
pub enum HandshakeAction {
    /// Ask the session for a new pair of streams.
    OpenStream,
    /// Write these bytes, in one write, to the outbound stream.
    WriteInit(Vec<u8>),
    /// Read once from the inbound stream, no more than `limit` bytes.
    ReadAck { limit: usize },
    /// Nothing more: the channel is established.
    Finish,
    /// Nothing more: the handshake has failed.
    GiveUp(HandshakeError),
}

/// A `HandshakeAction` with its bytes as a sequence.
pub enum HandshakeActionView {
    OpenStream,
    WriteInit(Seq<u8>),
    ReadAck { limit: usize },
    Finish,
    GiveUp(HandshakeError),
}

impl View for HandshakeAction {
    type V = HandshakeActionView;

    open spec fn view(&self) -> HandshakeActionView {
        match self {
            HandshakeAction::OpenStream => HandshakeActionView::OpenStream,
            HandshakeAction::WriteInit(bytes) => HandshakeActionView::WriteInit(bytes@),
            HandshakeAction::ReadAck { limit } => HandshakeActionView::ReadAck { limit: *limit },
            HandshakeAction::Finish => HandshakeActionView::Finish,
            HandshakeAction::GiveUp(error) => HandshakeActionView::GiveUp(*error),
        }
    }
}

/// The handshake of one channel.
#[derive(Debug)]
pub struct Handshake {
    event_category: String,
    context_id: String,
    session: u64,
    phase: HandshakePhase,
    ack: Option<ServerMessage>,
}

/// What a `Handshake` holds.
pub struct HandshakeView {
    /// The category tag, as the caller gave it and as the server gets it.
    pub event_category: Seq<char>,
    /// The context that the channel belongs to.
    pub context_id: Seq<char>,
    /// The number of the session that the channel is opened on.
    pub session: u64,
    /// Where the handshake stands.
    pub phase: HandshakePhase,
    /// The fields of the acknowledgment, once one has been read.
    pub ack: Option<(Seq<char>, Seq<char>)>,
}

/// Where the read of the acknowledgment leaves a handshake: no bytes mean an
/// empty response; bytes that hold no acknowledgment, a malformed one; an
/// acknowledgment is accepted only where its type is `success`.
pub open spec fn verdict(answer: ReadView) -> HandshakePhase {
    match answer {
        ReadView::Failed => HandshakePhase::Failed(HandshakeError::ReadFailed),
        ReadView::End => HandshakePhase::Failed(HandshakeError::EmptyResponse),
        ReadView::Data(bytes) => if bytes.len() == 0 {
            HandshakePhase::Failed(HandshakeError::EmptyResponse)
        } else {
            match ack_of_bytes(bytes) {
                None => HandshakePhase::Failed(HandshakeError::MalformedAck),
                Some(fields) => if accepts(fields.0) {
                    HandshakePhase::Established
                } else {
                    HandshakePhase::Failed(HandshakeError::Rejected)
                },
            }
        },
    }
}

/// The phase that follows a phase on an event. An event that the phase does
/// not wait for changes nothing.
pub open spec fn next_phase(phase: HandshakePhase, event: HandshakeEventView) -> HandshakePhase {
    match (phase, event) {
        (HandshakePhase::Opening, HandshakeEventView::Opened(OpenOutcome::Opened)) => {
            HandshakePhase::Announcing
        },
        (HandshakePhase::Opening, HandshakeEventView::Opened(OpenOutcome::SessionGone)) => {
            HandshakePhase::Failed(HandshakeError::SessionNotActive)
        },
        (HandshakePhase::Opening, HandshakeEventView::Opened(OpenOutcome::Refused)) => {
            HandshakePhase::Failed(HandshakeError::StreamOpenFailed)
        },
        (HandshakePhase::Announcing, HandshakeEventView::Written(WriteOutcome::Done)) => {
            HandshakePhase::AwaitingAck
        },
        (HandshakePhase::Announcing, HandshakeEventView::Written(WriteOutcome::Failed)) => {
            HandshakePhase::Failed(HandshakeError::WriteFailed)
        },
        (HandshakePhase::AwaitingAck, HandshakeEventView::Answered(answer)) => verdict(answer),
        _ => phase,
    }
}

/// The acknowledgment that a handshake holds after an event: the one just
/// read, where the event is the awaited answer and holds one.
pub open spec fn next_ack(
    phase: HandshakePhase,
    ack: Option<(Seq<char>, Seq<char>)>,
    event: HandshakeEventView,
) -> Option<(Seq<char>, Seq<char>)> {
    match (phase, event) {
        (HandshakePhase::AwaitingAck, HandshakeEventView::Answered(ReadView::Data(bytes))) => {
            if bytes.len() == 0 {
                ack
            } else {
                ack_of_bytes(bytes)
            }
        },
        _ => ack,
    }
}

impl HandshakePhase {
    /// Whether the handshake is over.
    pub open spec fn is_terminal(self) -> bool {
        self is Established || self is Failed
    }

    /// Whether the handshake is over.
    pub fn terminal(&self) -> (over: bool)
        ensures
            over == self.is_terminal(),
    {
        match self {
            HandshakePhase::Established => true,
            HandshakePhase::Failed(_) => true,
            _ => false,
        }
    }
}

impl HandshakeView {
    /// The handshake after an event.
    pub open spec fn step(self, event: HandshakeEventView) -> HandshakeView {
        HandshakeView {
            phase: next_phase(self.phase, event),
            ack: next_ack(self.phase, self.ack, event),
            ..self
        }
    }

    /// The handshake, failed.
    pub open spec fn failed(self, error: HandshakeError) -> HandshakeView {
        HandshakeView { phase: HandshakePhase::Failed(error), ..self }
    }

    /// The category that the channel is registered under.
    pub open spec fn category(self) -> Category {
        Category::of_tag(self.event_category)
    }

    /// The operation that the handshake waits for.
    pub open spec fn pending(self) -> HandshakeActionView {
        match self.phase {
            HandshakePhase::Opening => HandshakeActionView::OpenStream,
            HandshakePhase::Announcing => HandshakeActionView::WriteInit(
                encode_utf8(init_text("init"@, self.event_category, self.context_id)),
            ),
            HandshakePhase::AwaitingAck => HandshakeActionView::ReadAck { limit: MAX_CHUNK },
            HandshakePhase::Established => HandshakeActionView::Finish,
            HandshakePhase::Failed(error) => HandshakeActionView::GiveUp(error),
        }
    }
}

impl View for Handshake {
    type V = HandshakeView;

    closed spec fn view(&self) -> HandshakeView {
        HandshakeView {
            event_category: self.event_category@,
            context_id: self.context_id@,
            session: self.session,
            phase: self.phase,
            ack: match self.ack {
                Some(message) => Some(message.fields()),
                None => None,
            },
        }
    }
}

impl Handshake {
    /// A handshake for a category tag and a context, on the session with the
    /// given number. It starts by asking for a pair of streams.
    pub fn open(event_category: String, context_id: String, session: u64) -> (handshake: Handshake)
        ensures
            handshake@ == (HandshakeView {
                event_category: event_category@,
                context_id: context_id@,
                session,
                phase: HandshakePhase::Opening,
                ack: None,
            }),
    {
        Handshake { event_category, context_id, session, phase: HandshakePhase::Opening, ack: None }
    }

    /// Where the handshake stands.
    pub fn phase(&self) -> (phase: HandshakePhase)
        ensures
            phase == self@.phase,
    {
        self.phase
    }

    /// The category that the channel will be registered under.
    pub fn category(&self) -> (category: Category)
        ensures
            category == self@.category(),
    {
        Category::from_tag(self.event_category.as_str())
    }

    /// The number of the session that the handshake was opened on.
    pub fn session(&self) -> (session: u64)
        ensures
            session == self@.session,
    {
        self.session
    }

    /// The acknowledgment that the server sent, if one has been read.
    pub fn acknowledgment(&self) -> (ack: &Option<ServerMessage>)
        ensures
            ack is Some <==> self@.ack is Some,
            ack matches Some(message) ==> Some(message.fields()) == self@.ack,
    {
        &self.ack
    }

    /// The failure of a failed handshake.
    pub fn error(&self) -> (error: Option<HandshakeError>)
        ensures
            error == (match self@.phase {
                HandshakePhase::Failed(e) => Some(e),
                _ => None,
            }),
    {
        match self.phase {
            HandshakePhase::Failed(e) => Some(e),
            _ => None,
        }
    }

    /// The operation that the driver has to perform next.
    pub fn pending(&self) -> (action: HandshakeAction)
        ensures
            action@ == self@.pending(),
    {
        match self.phase {
            HandshakePhase::Opening => HandshakeAction::OpenStream,
            HandshakePhase::Announcing => {
                let message = InitMessage::new(self.event_category.clone(), self.context_id.clone());
                let json = message.encode();
                HandshakeAction::WriteInit(json.as_str().as_bytes_vec())
            },
            HandshakePhase::AwaitingAck => HandshakeAction::ReadAck { limit: MAX_CHUNK },
            HandshakePhase::Established => HandshakeAction::Finish,
            HandshakePhase::Failed(error) => HandshakeAction::GiveUp(error),
        }
    }

    /// Ends the handshake with a failure that its driver met outside the
    /// three operations.
    pub(crate) fn abandon(&mut self, error: HandshakeError)
        ensures
            final(self)@ == old(self)@.failed(error),
    {
        self.phase = HandshakePhase::Failed(error);
    }

    /// Takes in how the pending operation ended.
    pub fn advance(&mut self, event: HandshakeEvent)
        ensures
            final(self)@ == old(self)@.step(event@),
    {
        match self.phase {
            HandshakePhase::Opening => match event {
                HandshakeEvent::Opened(OpenOutcome::Opened) => {
                    self.phase = HandshakePhase::Announcing;
                },
                HandshakeEvent::Opened(OpenOutcome::SessionGone) => {
                    self.phase = HandshakePhase::Failed(HandshakeError::SessionNotActive);
                },
                HandshakeEvent::Opened(OpenOutcome::Refused) => {
                    self.phase = HandshakePhase::Failed(HandshakeError::StreamOpenFailed);
                },
                _ => {},
            },
            HandshakePhase::Announcing => match event {
                HandshakeEvent::Written(WriteOutcome::Done) => {
                    self.phase = HandshakePhase::AwaitingAck;
                },
                HandshakeEvent::Written(WriteOutcome::Failed) => {
                    self.phase = HandshakePhase::Failed(HandshakeError::WriteFailed);
                },
                _ => {},
            },
            HandshakePhase::AwaitingAck => match event {
                HandshakeEvent::Answered(ReadOutcome::Failed) => {
                    self.phase = HandshakePhase::Failed(HandshakeError::ReadFailed);
                },
                HandshakeEvent::Answered(ReadOutcome::End) => {
                    self.phase = HandshakePhase::Failed(HandshakeError::EmptyResponse);
                },
                HandshakeEvent::Answered(ReadOutcome::Data(bytes)) => {
                    if bytes.len() == 0 {
                        self.phase = HandshakePhase::Failed(HandshakeError::EmptyResponse);
                    } else {
                        match ServerMessage::from_bytes(bytes.as_slice()) {
                            None => {
                                self.phase = HandshakePhase::Failed(HandshakeError::MalformedAck);
                                self.ack = None;
                            },
                            Some(message) => {
                                if message.is_success() {
                                    self.phase = HandshakePhase::Established;
                                } else {
                                    self.phase = HandshakePhase::Failed(HandshakeError::Rejected);
                                }
                                self.ack = Some(message);
                            },
                        }
                    }
                },
                _ => {},
            },
            _ => {},
        }
    }
}

} // verus!

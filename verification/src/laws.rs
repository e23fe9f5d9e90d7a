//! What holds of every session, proved from the transitions of the model.
use vstd::prelude::*;
use vstd::utf8::encode_utf8;
use crate::category::lemma_slot_roundtrip;
use crate::channel::{ChannelHandle, ReceiveStepView, SendStepView};
use crate::envelope::{accepts, ack_of_bytes};
use crate::error::{ChannelEnd, ChannelEvent, HandshakeError, SendError};
use crate::handshake::{verdict, HandshakeEventView, HandshakePhase, HandshakeView};
use crate::session::{ClientView, SessionPhase, SetupView};
use crate::text::{chunk_text, lemma_chunk_bytes, lemma_text_bytes_decode};
use crate::transport::{ConnectOutcome, ReadView, WriteOutcome};

verus! {

/// A channel that a setup step has just established takes a send. Once the
/// session is closed after that step, by the client or by the signal of the
/// transport, the next send on the channel is refused as a closed stream and
/// hands out no bytes, whatever the category, the context and the message.
pub proof fn law_send_after_close_is_refused(
    client: ClientView,
    handshake: HandshakeView,
    event: HandshakeEventView,
    message: Seq<char>,
)
    requires
        client.wf(),
        client.setup(handshake, event).2 is Established,
    ensures
        ({
            let established = client.setup(handshake, event).0;
            let channel = client.setup(handshake, event).2->Established_channel;
            let closed = established.shut(established.session);
            &&& established.send_step(channel, message) == SendStepView::Write(encode_utf8(message))
            &&& closed.phase == SessionPhase::Closed
            &&& closed.send_step(channel, message) == SendStepView::Refused(SendError::StreamClosed)
            &&& closed.send_begun(channel) == closed
        }),
{
    let established = client.setup(handshake, event).0;
    let channel = client.setup(handshake, event).2->Established_channel;
    lemma_slot_roundtrip(channel.category);
}

/// In a closed session no channel takes a send and no receive loop goes on:
/// every send is refused as a closed stream, and every loop stops, reporting
/// its own category.
pub proof fn law_closed_session_ends_every_channel(
    client: ClientView,
    channel: ChannelHandle,
    message: Seq<char>,
    answer: ReadView,
)
    requires
        client.wf(),
        client.phase == SessionPhase::Active,
    ensures
        ({
            let closed = client.shut(client.session);
            &&& closed.wf()
            &&& closed.send_step(channel, message) == SendStepView::Refused(SendError::StreamClosed)
            &&& closed.receive_step(channel, answer) is Stop
            &&& closed.receive_step(channel, answer)->Stop_0.category == channel.category
            &&& closed.received(channel, answer) == closed
            &&& closed.shut(client.session) == closed
        }),
{
}

/// A receive loop that runs when its session is closed reports, at its next
/// step, that its channel was closed.
pub proof fn law_running_loop_reports_closure(
    client: ClientView,
    channel: ChannelHandle,
    answer: ReadView,
)
    requires
        client.wf(),
        client.receiving(channel),
    ensures
        client.shut(client.session).receive_step(channel, answer) == ReceiveStepView::Stop(
            ChannelEvent { category: channel.category, end: ChannelEnd::ChannelClosed },
        ),
{
    lemma_slot_roundtrip(channel.category);
    let closed = client.shut(client.session);
    assert(closed.slots[channel.category.slot()] == client.slots[channel.category.slot()].shut());
}

/// An acknowledgment whose type is not `success` fails the handshake as
/// rejected, and the setup step that reads it leaves the client as it was: no
/// channel is registered. The acknowledgment is one that was read: it has
/// bytes.
pub proof fn law_rejected_ack_registers_nothing(
    client: ClientView,
    handshake: HandshakeView,
    bytes: Seq<u8>,
)
    requires
        handshake.phase == HandshakePhase::AwaitingAck,
        bytes.len() > 0,
        ack_of_bytes(bytes) is Some,
        !accepts(ack_of_bytes(bytes).unwrap().0),
    ensures
        verdict(ReadView::Data(bytes)) == HandshakePhase::Failed(HandshakeError::Rejected),
        client.setup(handshake, HandshakeEventView::Answered(ReadView::Data(bytes))).0 == client,
        client.setup(handshake, HandshakeEventView::Answered(ReadView::Data(bytes))).1.phase
            == HandshakePhase::Failed(HandshakeError::Rejected),
        client.setup(handshake, HandshakeEventView::Answered(ReadView::Data(bytes))).2
            == SetupView::Failed(HandshakeError::Rejected),
{
}

/// A setup step registers a channel only when it establishes one: a step that
/// fails or that goes on leaves the client as it was.
pub proof fn law_only_established_registers(
    client: ClientView,
    handshake: HandshakeView,
    event: HandshakeEventView,
)
    ensures
        !(client.setup(handshake, event).2 is Established) ==> client.setup(handshake, event).0
            == client,
        client.setup(handshake, event).2 is Established ==> client.setup(handshake, event).1.phase
            == HandshakePhase::Established,
        client.setup(handshake, event).2 is Failed ==> client.setup(handshake, event).1.phase
            is Failed,
{
}

/// One write at a time. The sender that gets the stream gets its whole
/// message to write. While that write is in flight every other sender on the
/// channel is told to wait and gets no bytes. When the write is done, the
/// next sender gets the stream, again with its whole message.
pub proof fn law_one_write_at_a_time(
    client: ClientView,
    channel: ChannelHandle,
    first: Seq<char>,
    second: Seq<char>,
)
    requires
        client.wf(),
        client.send_step(channel, first) is Write,
    ensures
        ({
            let busy = client.send_begun(channel);
            let free = busy.send_ended(channel, WriteOutcome::Done);
            &&& client.send_step(channel, first) == SendStepView::Write(encode_utf8(first))
            &&& chunk_text(encode_utf8(first)) == Some(first)
            &&& busy.send_step(channel, second) == SendStepView::Wait
            &&& busy.send_begun(channel) == busy
            &&& busy.send_result(channel, WriteOutcome::Done) == Ok::<(), SendError>(())
            &&& free.send_step(channel, second) == SendStepView::Write(encode_utf8(second))
        }),
{
    lemma_slot_roundtrip(channel.category);
    lemma_text_bytes_decode(first);
}

/// A write that fails closes the outbound stream: that send and every later
/// one on the channel are refused as a closed stream.
pub proof fn law_failed_write_closes_stream(
    client: ClientView,
    channel: ChannelHandle,
    message: Seq<char>,
)
    requires
        client.wf(),
    ensures
        client.send_result(channel, WriteOutcome::Failed) == Err::<(), SendError>(
            SendError::StreamClosed,
        ),
        client.send_ended(channel, WriteOutcome::Failed).send_step(channel, message)
            == SendStepView::Refused(SendError::StreamClosed),
{
    lemma_slot_roundtrip(channel.category);
}

/// What happens on one channel stays on that channel. Whatever the receive
/// loop of a channel is answered, a failure to decode included, the slot of
/// every other category is as before, and so is every step that a receive
/// loop or a sender of another category takes next.
pub proof fn law_channels_are_isolated(
    client: ClientView,
    channel: ChannelHandle,
    answer: ReadView,
    other: ChannelHandle,
    next: ReadView,
    message: Seq<char>,
)
    requires
        client.wf(),
        other.category != channel.category,
    ensures
        ({
            let after = client.received(channel, answer);
            &&& after.wf()
            &&& after.slot(other.category) == client.slot(other.category)
            &&& after.receiving(other) == client.receiving(other)
            &&& after.receive_step(other, next) == client.receive_step(other, next)
            &&& after.send_step(other, message) == client.send_step(other, message)
        }),
{
    lemma_slot_roundtrip(channel.category);
    lemma_slot_roundtrip(other.category);
}

/// A receive loop that runs delivers every chunk of well-formed text as it
/// came, and goes on: the message is the text of the bytes, its bytes are the
/// bytes read, and the channel is receiving as before.
pub proof fn law_delivery_is_verbatim(client: ClientView, channel: ChannelHandle, bytes: Seq<u8>)
    requires
        client.receiving(channel),
        bytes.len() > 0,
        chunk_text(bytes) is Some,
    ensures
        client.receive_step(channel, ReadView::Data(bytes)) == ReceiveStepView::Deliver(
            chunk_text(bytes).unwrap(),
        ),
        encode_utf8(chunk_text(bytes).unwrap()) == bytes,
        client.received(channel, ReadView::Data(bytes)) == client,
{
    lemma_chunk_bytes(bytes);
}

/// A channel that is replaced is gone. Once a new channel of a category is
/// registered, every handle that was given out before for that category names
/// nothing: its sends are refused as a closed stream and its receive loop
/// stops, reporting the channel as closed.
pub proof fn law_replaced_channel_is_gone(
    client: ClientView,
    earlier: ChannelHandle,
    message: Seq<char>,
    answer: ReadView,
)
    requires
        client.wf(),
        client.issued < u64::MAX,
        earlier.serial <= client.issued,
    ensures
        ({
            let after = client.registered(earlier.category);
            &&& after.wf()
            &&& after.current(client.next_handle(earlier.category)) == (client.phase
                == SessionPhase::Active)
            &&& !after.current(earlier)
            &&& after.send_step(earlier, message) == SendStepView::Refused(SendError::StreamClosed)
            &&& after.receive_step(earlier, answer) == ReceiveStepView::Stop(
                ChannelEvent { category: earlier.category, end: ChannelEnd::ChannelClosed },
            )
        }),
{
    lemma_slot_roundtrip(earlier.category);
}

/// A session does not hand its channels on. After a new session has started,
/// every slot is vacant, and every handle of the session before names
/// nothing.
pub proof fn law_new_session_starts_empty(
    client: ClientView,
    earlier: ChannelHandle,
    message: Seq<char>,
    answer: ReadView,
)
    requires
        client.wf(),
        client.session < u64::MAX,
    ensures
        ({
            let after = client.connected(ConnectOutcome::Connected);
            &&& after.wf()
            &&& after.phase == SessionPhase::Active
            &&& after.session == client.session + 1
            &&& !after.slot(earlier.category).occupied()
            &&& after.send_step(earlier, message) == SendStepView::Refused(SendError::StreamClosed)
            &&& after.receive_step(earlier, answer) == ReceiveStepView::Stop(
                ChannelEvent { category: earlier.category, end: ChannelEnd::ChannelClosed },
            )
        }),
{
    lemma_slot_roundtrip(earlier.category);
}

} // verus!

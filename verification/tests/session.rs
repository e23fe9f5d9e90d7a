use wasm_webtransport::category::Category;
use wasm_webtransport::channel::{ChannelHandle, ChannelPhase, ReceiveStep, SendStep};
use wasm_webtransport::client::{
    SetupProgress, WebTransportClient, WebTransportSendStream, WebTransportTransport,
};
use wasm_webtransport::error::{ChannelEnd, ChannelEvent, HandshakeError, SendError, SessionError};
use wasm_webtransport::handshake::{HandshakeAction, HandshakeEvent, HandshakePhase};
use wasm_webtransport::session::SessionPhase;
use wasm_webtransport::transport::{ConnectOutcome, OpenOutcome, ReadOutcome, WriteOutcome};

const SUCCESS: &[u8] = b"{\"messageType\":\"success\",\"body\":\"\"}";

fn digest() -> Vec<u8> {
    (0u8..32).collect()
}

fn connected() -> WebTransportClient {
    let mut client = WebTransportClient::new("https://example.test:4433".to_string(), digest());
    assert_eq!(client.init_session(ConnectOutcome::Connected), Ok(()));
    client
}

fn data(bytes: &[u8]) -> ReadOutcome {
    ReadOutcome::Data(bytes.to_vec())
}

fn open_channel_with(
    client: &mut WebTransportClient,
    category: &str,
    context: &str,
    answer: ReadOutcome,
) -> SetupProgress {
    let mut handshake = client
        .setup_connection(category.to_string(), context.to_string())
        .unwrap();
    assert_eq!(handshake.pending(), HandshakeAction::OpenStream);
    let step = client.continue_setup(&mut handshake, HandshakeEvent::Opened(OpenOutcome::Opened));
    assert!(matches!(step, SetupProgress::Continue(HandshakeAction::WriteInit(_))));
    let step = client.continue_setup(&mut handshake, HandshakeEvent::Written(WriteOutcome::Done));
    assert_eq!(step, SetupProgress::Continue(HandshakeAction::ReadAck { limit: 65536 }));
    client.continue_setup(&mut handshake, HandshakeEvent::Answered(answer))
}

fn open_channel(client: &mut WebTransportClient, category: &str) -> WebTransportSendStream {
    match open_channel_with(client, category, "abc123", data(SUCCESS)) {
        SetupProgress::Established { stream, .. } => stream,
        other => panic!("not established: {other:?}"),
    }
}

fn closed_event(category: Category) -> ReceiveStep {
    ReceiveStep::Stop(ChannelEvent { category, end: ChannelEnd::ChannelClosed })
}

#[test]
fn new_client_holds_its_endpoint_and_no_session() {
    let client = WebTransportClient::new("https://example.test:4433".to_string(), digest());
    assert_eq!(client.url(), "https://example.test:4433");
    assert_eq!(client.certificate(), &digest());
    assert_eq!(client.session_phase(), SessionPhase::Idle);
    assert!(!client.is_active());
    assert_eq!(client.get_transport(), Err(SessionError::SessionNotActive));
    for category in
        [Category::Board, Category::Element, Category::ActiveMember, Category::Client, Category::Default]
    {
        assert_eq!(client.channel_phase(category), ChannelPhase::Vacant);
    }
}

#[test]
fn unreachable_endpoint_gives_no_session() {
    let mut client = WebTransportClient::new("https://nowhere.test".to_string(), digest());
    assert_eq!(
        client.init_session(ConnectOutcome::Unreachable),
        Err(SessionError::ConnectionUnreachable)
    );
    assert_eq!(client.session_phase(), SessionPhase::Idle);
    assert!(!client.is_active());
    assert_eq!(
        client.setup_connection("board".to_string(), "abc123".to_string()).err(),
        Some(HandshakeError::SessionNotActive)
    );
}

#[test]
fn connection_starts_a_session() {
    let client = connected();
    assert_eq!(client.session_phase(), SessionPhase::Active);
    assert!(client.is_active());
    let transport = client.get_transport().unwrap();
    assert_eq!(transport.session(), 1);
    assert!(!transport.is_closed(&client));
}

#[test]
fn channel_cannot_be_opened_without_a_session() {
    let mut client = WebTransportClient::new("https://example.test".to_string(), digest());
    assert_eq!(
        client.setup_connection("board".to_string(), "abc123".to_string()).err(),
        Some(HandshakeError::SessionNotActive)
    );
    assert_eq!(client.connect_to_context(), Err(SessionError::SessionNotActive));
    let mut client = connected();
    let transport = client.get_transport().unwrap();
    assert!(transport.close(&mut client));
    assert_eq!(
        client.setup_connection("board".to_string(), "abc123".to_string()).err(),
        Some(HandshakeError::SessionNotActive)
    );
    assert_eq!(client.connect_to_context(), Err(SessionError::SessionNotActive));
    assert_eq!(client.get_transport(), Err(SessionError::SessionNotActive));
}

#[test]
fn board_channel_delivers_server_push_once() {
    let mut client = WebTransportClient::new("https://example.test:4433".to_string(), vec![0xd; 32]);
    assert_eq!(client.init_session(ConnectOutcome::Connected), Ok(()));
    let mut handshake = client.setup_connection("board".to_string(), "abc123".to_string()).unwrap();
    client.continue_setup(&mut handshake, HandshakeEvent::Opened(OpenOutcome::Opened));
    assert_eq!(
        handshake.pending(),
        HandshakeAction::WriteInit(
            b"{\"messageType\":\"init\",\"eventCategory\":\"board\",\"contextId\":\"abc123\"}".to_vec()
        )
    );
    client.continue_setup(&mut handshake, HandshakeEvent::Written(WriteOutcome::Done));
    let progress = client.continue_setup(&mut handshake, HandshakeEvent::Answered(data(SUCCESS)));
    let stream = match progress {
        SetupProgress::Established { stream, replaced } => {
            assert!(!replaced);
            stream
        }
        other => panic!("not established: {other:?}"),
    };
    assert_eq!(stream.channel().category, Category::Board);
    assert_eq!(client.channel_phase(Category::Board), ChannelPhase::Ready);
    let loops = client.connect_to_context().unwrap();
    assert_eq!(loops, vec![stream.channel()]);
    assert_eq!(client.channel_phase(Category::Board), ChannelPhase::Receiving);

    let mut delivered: Vec<String> = Vec::new();
    match client.receive(loops[0], data(b"hello-board")) {
        ReceiveStep::Deliver(message) => delivered.push(message),
        other => panic!("not delivered: {other:?}"),
    }
    assert_eq!(delivered, vec!["hello-board".to_string()]);
    assert_eq!(client.channel_phase(Category::Board), ChannelPhase::Receiving);
    for category in [Category::Element, Category::ActiveMember, Category::Client, Category::Default] {
        assert_eq!(client.channel_phase(category), ChannelPhase::Vacant);
    }
}

#[test]
fn rejected_handshake_registers_no_channel() {
    let mut client = connected();
    let progress = open_channel_with(
        &mut client,
        "board",
        "abc123",
        data(b"{\"messageType\":\"error\",\"body\":\"bad cert\"}"),
    );
    assert_eq!(progress, SetupProgress::Failed(HandshakeError::Rejected));
    assert_eq!(client.channel_phase(Category::Board), ChannelPhase::Vacant);
    assert_eq!(client.connect_to_context(), Ok(vec![]));
    assert_eq!(client.channel_phase(Category::Board), ChannelPhase::Vacant);
}

#[test]
fn failed_handshakes_register_no_channel() {
    let answers = [
        (ReadOutcome::Failed, HandshakeError::ReadFailed),
        (ReadOutcome::End, HandshakeError::EmptyResponse),
        (data(b""), HandshakeError::EmptyResponse),
        (data(b"not json"), HandshakeError::MalformedAck),
        (data(&[0xc3]), HandshakeError::MalformedAck),
        (data(b"{\"messageType\":\"nope\",\"body\":\"\"}"), HandshakeError::Rejected),
    ];
    for (answer, error) in answers {
        let mut client = connected();
        assert_eq!(
            open_channel_with(&mut client, "element", "ctx", answer),
            SetupProgress::Failed(error)
        );
        assert_eq!(client.channel_phase(Category::Element), ChannelPhase::Vacant);
    }
    let mut client = connected();
    let mut refused = client.setup_connection("element".to_string(), "ctx".to_string()).unwrap();
    assert_eq!(
        client.continue_setup(&mut refused, HandshakeEvent::Opened(OpenOutcome::Refused)),
        SetupProgress::Failed(HandshakeError::StreamOpenFailed)
    );
    let mut unwritten = client.setup_connection("element".to_string(), "ctx".to_string()).unwrap();
    client.continue_setup(&mut unwritten, HandshakeEvent::Opened(OpenOutcome::Opened));
    assert_eq!(
        client.continue_setup(&mut unwritten, HandshakeEvent::Written(WriteOutcome::Failed)),
        SetupProgress::Failed(HandshakeError::WriteFailed)
    );
    assert_eq!(client.channel_phase(Category::Element), ChannelPhase::Vacant);
}

#[test]
fn established_setup_is_registered_once() {
    let mut client = connected();
    let mut handshake = client.setup_connection("client".to_string(), "ctx".to_string()).unwrap();
    client.continue_setup(&mut handshake, HandshakeEvent::Opened(OpenOutcome::Opened));
    client.continue_setup(&mut handshake, HandshakeEvent::Written(WriteOutcome::Done));
    let first = client.continue_setup(&mut handshake, HandshakeEvent::Answered(data(SUCCESS)));
    let stream = match first {
        SetupProgress::Established { stream, replaced: false } => stream,
        other => panic!("not established: {other:?}"),
    };
    let again = client.continue_setup(&mut handshake, HandshakeEvent::Answered(data(SUCCESS)));
    assert_eq!(again, SetupProgress::Continue(HandshakeAction::Finish));
    assert!(client.is_current(stream.channel()));
}

#[test]
fn setup_of_a_closed_session_fails() {
    let mut client = connected();
    let transport = client.get_transport().unwrap();
    let mut handshake = client.setup_connection("board".to_string(), "ctx".to_string()).unwrap();
    client.continue_setup(&mut handshake, HandshakeEvent::Opened(OpenOutcome::Opened));
    client.continue_setup(&mut handshake, HandshakeEvent::Written(WriteOutcome::Done));
    assert!(transport.on_closed(&mut client));
    let progress = client.continue_setup(&mut handshake, HandshakeEvent::Answered(data(SUCCESS)));
    assert_eq!(progress, SetupProgress::Failed(HandshakeError::SessionNotActive));
    assert_eq!(handshake.phase(), HandshakePhase::Failed(HandshakeError::SessionNotActive));
    assert_eq!(client.channel_phase(Category::Board), ChannelPhase::Vacant);
}

#[test]
fn setup_of_an_earlier_session_fails() {
    let mut client = connected();
    let mut handshake = client.setup_connection("board".to_string(), "ctx".to_string()).unwrap();
    client.continue_setup(&mut handshake, HandshakeEvent::Opened(OpenOutcome::Opened));
    client.continue_setup(&mut handshake, HandshakeEvent::Written(WriteOutcome::Done));
    assert_eq!(client.init_session(ConnectOutcome::Connected), Ok(()));
    let progress = client.continue_setup(&mut handshake, HandshakeEvent::Answered(data(SUCCESS)));
    assert_eq!(progress, SetupProgress::Failed(HandshakeError::SessionNotActive));
    assert_eq!(client.channel_phase(Category::Board), ChannelPhase::Vacant);
}

#[test]
fn unknown_tag_opens_the_default_channel() {
    let mut client = connected();
    let stream = open_channel(&mut client, "whiteboard");
    assert_eq!(stream.channel().category, Category::Default);
    assert_eq!(client.channel_phase(Category::Default), ChannelPhase::Ready);
    assert_eq!(client.channel_phase(Category::Client), ChannelPhase::Vacant);
}

#[test]
fn second_channel_of_a_category_replaces_the_first() {
    let mut client = connected();
    let first = open_channel(&mut client, "board");
    let loops = client.connect_to_context().unwrap();
    let progress = open_channel_with(&mut client, "board", "other", data(SUCCESS));
    let second = match progress {
        SetupProgress::Established { stream, replaced } => {
            assert!(replaced);
            stream
        }
        other => panic!("not established: {other:?}"),
    };
    assert_ne!(first.channel(), second.channel());
    assert!(!client.is_current(first.channel()));
    assert!(client.is_current(second.channel()));
    assert_eq!(
        first.send_message(&mut client, "late".to_string()),
        SendStep::Refused(SendError::StreamClosed)
    );
    assert_eq!(client.receive(loops[0], data(b"late")), closed_event(Category::Board));
    assert_eq!(client.channel_phase(Category::Board), ChannelPhase::Ready);
    assert_eq!(
        second.send_message(&mut client, "now".to_string()),
        SendStep::Write(b"now".to_vec())
    );
}

#[test]
fn send_after_closed_signal_is_stream_closed() {
    for (category, context) in
        [("board", "abc123"), ("element", ""), ("active_member", "x"), ("client", "y"), ("other", "z")]
    {
        let mut client = connected();
        let transport = client.get_transport().unwrap();
        let progress = open_channel_with(&mut client, category, context, data(SUCCESS));
        let stream = match progress {
            SetupProgress::Established { stream, .. } => stream,
            other => panic!("not established: {other:?}"),
        };
        assert!(transport.on_closed(&mut client));
        assert_eq!(
            stream.send_message(&mut client, "hello".to_string()),
            SendStep::Refused(SendError::StreamClosed)
        );
        assert_eq!(
            stream.finish_send(&mut client, WriteOutcome::Done),
            Err(SendError::StreamClosed)
        );
    }
}

#[test]
fn send_writes_the_message_verbatim() {
    let mut client = connected();
    let stream = open_channel(&mut client, "board");
    assert_eq!(
        stream.send_message(&mut client, "héllo {\"x\":1}\n".to_string()),
        SendStep::Write("héllo {\"x\":1}\n".as_bytes().to_vec())
    );
    assert_eq!(stream.finish_send(&mut client, WriteOutcome::Done), Ok(()));
    assert_eq!(stream.send_message(&mut client, String::new()), SendStep::Write(Vec::new()));
    assert_eq!(stream.finish_send(&mut client, WriteOutcome::Done), Ok(()));
}

#[test]
fn failed_write_closes_the_stream() {
    let mut client = connected();
    let stream = open_channel(&mut client, "board");
    assert_eq!(
        stream.send_message(&mut client, "one".to_string()),
        SendStep::Write(b"one".to_vec())
    );
    assert_eq!(stream.finish_send(&mut client, WriteOutcome::Failed), Err(SendError::StreamClosed));
    assert_eq!(
        stream.send_message(&mut client, "two".to_string()),
        SendStep::Refused(SendError::StreamClosed)
    );
    assert_eq!(stream.finish_send(&mut client, WriteOutcome::Done), Err(SendError::StreamClosed));
    assert_eq!(client.channel_phase(Category::Board), ChannelPhase::Ready);
}

#[test]
fn concurrent_sends_never_interleave() {
    let mut client = connected();
    let stream = open_channel(&mut client, "board");
    let callers: Vec<WebTransportSendStream> = (0..10).map(|_| stream).collect();
    let mut waiting: Vec<(usize, usize)> =
        (0..100).map(|call| (call % 10, call)).collect();
    let mut wire: Vec<u8> = Vec::new();
    let mut expected: Vec<u8> = Vec::new();
    let mut in_flight: Option<(usize, Vec<u8>, usize)> = None;
    let mut round = 0usize;
    while !waiting.is_empty() || in_flight.is_some() {
        round += 1;
        let mut still_waiting = Vec::new();
        for (caller, call) in waiting.drain(..) {
            let message = format!("<caller {caller} call {call}>");
            match callers[caller].send_message(&mut client, message.clone()) {
                SendStep::Write(bytes) => {
                    assert!(in_flight.is_none(), "two writes in flight");
                    assert_eq!(bytes, message.as_bytes());
                    expected.extend_from_slice(message.as_bytes());
                    in_flight = Some((caller, bytes, 0));
                }
                SendStep::Wait => {
                    assert!(in_flight.is_some());
                    still_waiting.push((caller, call));
                }
                SendStep::Refused(error) => panic!("refused: {error:?}"),
            }
            if let Some((_, bytes, written)) = in_flight.as_mut() {
                let end = (*written + 5).min(bytes.len());
                wire.extend_from_slice(&bytes[*written..end]);
                *written = end;
            }
        }
        if let Some((caller, bytes, written)) = in_flight.take() {
            wire.extend_from_slice(&bytes[written..]);
            assert_eq!(callers[caller].finish_send(&mut client, WriteOutcome::Done), Ok(()));
        }
        waiting = still_waiting;
        assert!(round <= 200);
    }
    assert_eq!(wire, expected);
    assert_eq!(round, 100);
}

#[test]
fn decode_failure_on_one_channel_leaves_the_others_running() {
    let mut client = connected();
    let board = open_channel(&mut client, "board");
    let element = open_channel(&mut client, "element");
    let loops = client.connect_to_context().unwrap();
    assert_eq!(loops, vec![board.channel(), element.channel()]);

    assert_eq!(
        client.receive(board.channel(), data(&[b'o', b'k', 0xff])),
        ReceiveStep::Stop(ChannelEvent { category: Category::Board, end: ChannelEnd::DecodeError })
    );
    assert_eq!(client.channel_phase(Category::Board), ChannelPhase::Ended(ChannelEnd::DecodeError));
    assert_eq!(client.channel_phase(Category::Element), ChannelPhase::Receiving);
    assert_eq!(
        client.receive(element.channel(), data(b"still here")),
        ReceiveStep::Deliver("still here".to_string())
    );
    assert_eq!(
        client.receive(element.channel(), data(b"and again")),
        ReceiveStep::Deliver("and again".to_string())
    );
    assert_eq!(
        element.send_message(&mut client, "out".to_string()),
        SendStep::Write(b"out".to_vec())
    );
    assert_eq!(
        client.receive(board.channel(), data(b"late")),
        ReceiveStep::Stop(ChannelEvent { category: Category::Board, end: ChannelEnd::DecodeError })
    );
    assert_eq!(
        board.send_message(&mut client, "out".to_string()),
        SendStep::Write(b"out".to_vec())
    );
}

#[test]
fn stream_end_closes_only_its_channel() {
    let mut client = connected();
    let board = open_channel(&mut client, "board");
    let element = open_channel(&mut client, "element");
    let member = open_channel(&mut client, "active-member");
    client.connect_to_context().unwrap();
    assert_eq!(client.receive(board.channel(), ReadOutcome::End), closed_event(Category::Board));
    assert_eq!(client.receive(element.channel(), data(b"")), closed_event(Category::Element));
    assert_eq!(
        client.receive(member.channel(), ReadOutcome::Failed),
        ReceiveStep::Stop(ChannelEvent {
            category: Category::ActiveMember,
            end: ChannelEnd::ReadFailed
        })
    );
    assert_eq!(client.channel_phase(Category::Board), ChannelPhase::Ended(ChannelEnd::ChannelClosed));
    assert_eq!(
        client.channel_phase(Category::Element),
        ChannelPhase::Ended(ChannelEnd::ChannelClosed)
    );
    assert_eq!(
        client.channel_phase(Category::ActiveMember),
        ChannelPhase::Ended(ChannelEnd::ReadFailed)
    );
    assert!(client.is_active());
}

#[test]
fn close_ends_both_pending_receive_loops() {
    let mut client = connected();
    let board = open_channel(&mut client, "board");
    let client_channel = open_channel(&mut client, "client");
    let loops = client.connect_to_context().unwrap();
    assert_eq!(loops.len(), 2);
    let transport = client.get_transport().unwrap();
    assert!(transport.close(&mut client));
    assert_eq!(client.session_phase(), SessionPhase::Closed);
    assert!(transport.is_closed(&client));
    assert_eq!(client.channel_phase(Category::Board), ChannelPhase::Ended(ChannelEnd::ChannelClosed));
    assert_eq!(
        client.channel_phase(Category::Client),
        ChannelPhase::Ended(ChannelEnd::ChannelClosed)
    );
    assert_eq!(client.receive(board.channel(), ReadOutcome::Failed), closed_event(Category::Board));
    assert_eq!(
        client.receive(client_channel.channel(), data(b"too late")),
        closed_event(Category::Client)
    );
}

#[test]
fn close_is_idempotent() {
    let mut client = connected();
    open_channel(&mut client, "board");
    let transport = client.get_transport().unwrap();
    assert!(!transport.is_closed(&client));
    assert!(transport.close(&mut client));
    let phase = client.channel_phase(Category::Board);
    assert!(!transport.close(&mut client));
    assert!(!transport.on_closed(&mut client));
    assert_eq!(client.session_phase(), SessionPhase::Closed);
    assert_eq!(client.channel_phase(Category::Board), phase);
    assert!(transport.is_closed(&client));
}

#[test]
fn closed_signal_is_news_once() {
    let mut client = connected();
    let transport = client.get_transport().unwrap();
    assert!(transport.on_closed(&mut client));
    assert!(!transport.on_closed(&mut client));
    assert!(!transport.close(&mut client));
}

#[test]
fn stale_transport_does_not_close_a_later_session() {
    let mut client = connected();
    let old: WebTransportTransport = client.get_transport().unwrap();
    assert_eq!(client.init_session(ConnectOutcome::Connected), Ok(()));
    let new = client.get_transport().unwrap();
    assert_eq!(new.session(), 2);
    assert!(old.is_closed(&client));
    assert!(!old.close(&mut client));
    assert!(client.is_active());
    assert!(new.close(&mut client));
    assert!(!client.is_active());
}

#[test]
fn new_session_drops_the_channels_of_the_old() {
    let mut client = connected();
    let stream = open_channel(&mut client, "board");
    let loops = client.connect_to_context().unwrap();
    assert_eq!(client.init_session(ConnectOutcome::Connected), Ok(()));
    assert_eq!(client.channel_phase(Category::Board), ChannelPhase::Vacant);
    assert_eq!(
        stream.send_message(&mut client, "x".to_string()),
        SendStep::Refused(SendError::StreamClosed)
    );
    assert_eq!(client.receive(loops[0], data(b"x")), closed_event(Category::Board));
    let fresh = open_channel(&mut client, "board");
    assert_ne!(fresh.channel(), stream.channel());
    assert_eq!(
        stream.send_message(&mut client, "x".to_string()),
        SendStep::Refused(SendError::StreamClosed)
    );
}

#[test]
fn failed_reconnect_keeps_the_session() {
    let mut client = connected();
    let stream = open_channel(&mut client, "board");
    assert_eq!(
        client.init_session(ConnectOutcome::Unreachable),
        Err(SessionError::ConnectionUnreachable)
    );
    assert!(client.is_active());
    assert!(client.is_current(stream.channel()));
}

#[test]
fn receive_loops_start_in_slot_order() {
    let mut client = connected();
    let default = open_channel(&mut client, "anything");
    let member = open_channel(&mut client, "active_member");
    let board = open_channel(&mut client, "board");
    let loops = client.connect_to_context().unwrap();
    assert_eq!(loops, vec![board.channel(), member.channel(), default.channel()]);
    assert_eq!(client.connect_to_context(), Ok(vec![]));
    let element = open_channel(&mut client, "element");
    assert_eq!(client.connect_to_context(), Ok(vec![element.channel()]));
}

#[test]
fn chunk_for_a_loop_that_does_not_run_is_not_delivered() {
    let mut client = connected();
    let stream = open_channel(&mut client, "board");
    assert_eq!(client.receive(stream.channel(), data(b"early")), closed_event(Category::Board));
    assert_eq!(client.channel_phase(Category::Board), ChannelPhase::Ready);
    let never = ChannelHandle { category: Category::Element, serial: 99 };
    assert_eq!(client.receive(never, data(b"x")), closed_event(Category::Element));
}

#[test]
fn errors_describe_operation_and_channel() {
    assert_eq!(SessionError::ConnectionUnreachable.message(), "connect: endpoint unreachable");
    assert_eq!(SessionError::SessionNotActive.message(), "session: not active");
    assert_eq!(SendError::StreamClosed.message(Category::Board), "send on board: stream closed");
    assert_eq!(
        ChannelEvent { category: Category::Element, end: ChannelEnd::DecodeError }.message(),
        "receive on element: message was not UTF-8"
    );
    assert_eq!(
        ChannelEvent { category: Category::ActiveMember, end: ChannelEnd::ChannelClosed }.message(),
        "receive on active_member: channel closed"
    );
    assert_eq!(
        ChannelEvent { category: Category::Default, end: ChannelEnd::ReadFailed }.message(),
        "receive on default: message could not be read"
    );
}

#[test]
fn read_answer_is_the_filled_part_of_the_buffer() {
    assert_eq!(ReadOutcome::of_read(vec![1, 2, 3, 0, 0], Some(3)), ReadOutcome::Data(vec![1, 2, 3]));
    assert_eq!(ReadOutcome::of_read(vec![1, 2, 3], Some(3)), ReadOutcome::Data(vec![1, 2, 3]));
    assert_eq!(ReadOutcome::of_read(vec![1, 2, 3], Some(0)), ReadOutcome::Data(vec![]));
    assert_eq!(ReadOutcome::of_read(vec![1, 2, 3], Some(9)), ReadOutcome::Data(vec![1, 2, 3]));
    assert_eq!(ReadOutcome::of_read(vec![1, 2, 3], None), ReadOutcome::End);
    assert_eq!(ReadOutcome::of_read(vec![], None), ReadOutcome::End);
}

#[test]
fn write_is_done_only_when_whole() {
    assert_eq!(WriteOutcome::of_count(5, 5), WriteOutcome::Done);
    assert_eq!(WriteOutcome::of_count(0, 0), WriteOutcome::Done);
    assert_eq!(WriteOutcome::of_count(4, 5), WriteOutcome::Failed);
    assert_eq!(WriteOutcome::of_count(0, 5), WriteOutcome::Failed);
    assert_eq!(WriteOutcome::of_count(6, 5), WriteOutcome::Failed);
}

#[test]
fn open_and_connect_answers() {
    assert_eq!(OpenOutcome::of_attempt(false, false), OpenOutcome::SessionGone);
    assert_eq!(OpenOutcome::of_attempt(false, true), OpenOutcome::SessionGone);
    assert_eq!(OpenOutcome::of_attempt(true, false), OpenOutcome::Refused);
    assert_eq!(OpenOutcome::of_attempt(true, true), OpenOutcome::Opened);
    assert_eq!(ConnectOutcome::of_attempt(true), ConnectOutcome::Connected);
    assert_eq!(ConnectOutcome::of_attempt(false), ConnectOutcome::Unreachable);
}

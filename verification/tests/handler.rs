use dualstream::counter::MAX_VALUE;
use dualstream::frame::{EncodingError, Frame};
use dualstream::handler::{
    Completion, CounterHandler, FrameHandler, HandlerAction, FRAME_PACING_MILLIS, GRACE_MILLIS,
};
use dualstream::listener::{ConnectionError, ConnectionOutcome, Transport};

const FINISHED: HandlerAction = HandlerAction::Close(ConnectionOutcome::Finished);
const TRANSMIT_FAILED: HandlerAction =
    HandlerAction::Close(ConnectionOutcome::Failed(ConnectionError::Transmit));
const ENCODING_FAILED: HandlerAction =
    HandlerAction::Close(ConnectionOutcome::Failed(ConnectionError::Encoding));

#[test]
fn pacing_constants() {
    assert_eq!(GRACE_MILLIS, 3_000);
    assert_eq!(FRAME_PACING_MILLIS, 16);
}

#[test]
fn framed_counter_sends_the_first_values() {
    let mut handler = CounterHandler::new(Transport::FramedSocket);
    assert_eq!(handler.action(), HandlerAction::Message);
    assert_eq!(handler.payload(), Some([0, 0, 0, 0, 0, 0, 0, 0]));
    assert_eq!(handler.on_completion(Completion::Done), HandlerAction::Message);
    assert_eq!(handler.payload(), Some([0, 0, 0, 0, 0, 0, 0, 1]));
    assert_eq!(handler.on_completion(Completion::Done), HandlerAction::Message);
    assert_eq!(handler.payload(), Some([0, 0, 0, 0, 0, 0, 0, 2]));
}

#[test]
fn framed_counter_stream_is_complete_and_in_order() {
    let mut handler = CounterHandler::new(Transport::FramedSocket);
    let mut action = handler.action();
    let mut received: u64 = 0;
    while action == HandlerAction::Message {
        assert_eq!(handler.payload(), Some(received.to_be_bytes()));
        received += 1;
        action = handler.on_completion(Completion::Done);
    }
    assert_eq!(received, MAX_VALUE);
    // The framed socket closes as soon as the stream is out.
    assert_eq!(action, FINISHED);
    assert_eq!(handler.payload(), None);
    assert_eq!(handler.on_completion(Completion::Done), FINISHED);
    assert_eq!(handler.on_completion(Completion::Failed), FINISHED);
}

#[test]
fn multiplexed_counter_yields_after_every_datagram() {
    let mut handler = CounterHandler::new(Transport::Multiplexed);
    assert_eq!(handler.action(), HandlerAction::Datagram);
    assert_eq!(handler.payload(), Some(0u64.to_be_bytes()));
    assert_eq!(handler.on_completion(Completion::Done), HandlerAction::Yield);
    assert_eq!(handler.payload(), None);
    assert_eq!(handler.on_completion(Completion::Done), HandlerAction::Datagram);
    assert_eq!(handler.payload(), Some(1u64.to_be_bytes()));
    assert_eq!(handler.on_completion(Completion::Done), HandlerAction::Yield);
    assert_eq!(handler.on_completion(Completion::Done), HandlerAction::Datagram);
    assert_eq!(handler.payload(), Some(2u64.to_be_bytes()));
}

#[test]
fn multiplexed_counter_stream_ends_with_a_grace_period() {
    let mut handler = CounterHandler::new(Transport::Multiplexed);
    let mut action = handler.action();
    let mut received: u64 = 0;
    let mut yields: u64 = 0;
    loop {
        match action {
            HandlerAction::Datagram => {
                assert_eq!(handler.payload(), Some(received.to_be_bytes()));
                received += 1;
            }
            HandlerAction::Yield => {
                yields += 1;
                assert_eq!(yields, received);
            }
            _ => break,
        }
        action = handler.on_completion(Completion::Done);
    }
    assert_eq!(received, MAX_VALUE);
    assert_eq!(yields, MAX_VALUE);
    // The connection stays open for three seconds, and closes only then.
    assert_eq!(action, HandlerAction::Sleep(3_000));
    assert_eq!(handler.payload(), None);
    assert_eq!(handler.on_completion(Completion::Done), FINISHED);
    assert_eq!(handler.on_completion(Completion::Done), FINISHED);
}

#[test]
fn counter_send_failure_ends_the_task() {
    for transport in [Transport::Multiplexed, Transport::FramedSocket] {
        let mut handler = CounterHandler::new(transport);
        handler.on_completion(Completion::Done);
        handler.on_completion(Completion::Done);
        assert_eq!(handler.on_completion(Completion::Failed), TRANSMIT_FAILED);
        assert_eq!(handler.payload(), None);
        // Nothing is tried again.
        assert_eq!(handler.on_completion(Completion::Done), TRANSMIT_FAILED);
        assert_eq!(handler.action(), TRANSMIT_FAILED);
    }
}

#[test]
fn counter_failure_of_the_first_send() {
    let mut handler = CounterHandler::new(Transport::Multiplexed);
    assert_eq!(handler.on_completion(Completion::Failed), TRANSMIT_FAILED);
}

#[test]
fn each_connection_has_its_own_counter() {
    let mut first = CounterHandler::new(Transport::FramedSocket);
    for _ in 0..10 {
        first.on_completion(Completion::Done);
    }
    let second = CounterHandler::new(Transport::FramedSocket);
    assert_eq!(first.payload(), Some(10u64.to_be_bytes()));
    assert_eq!(second.payload(), Some(0u64.to_be_bytes()));
}

#[test]
fn multiplexed_frames_go_out_on_streams_with_a_pause() {
    let mut handler = FrameHandler::new(Transport::Multiplexed);
    assert_eq!(handler.action(), HandlerAction::Produce);
    assert_eq!(handler.payload(), None);
    for round in 0..50u8 {
        let frame = Frame::with_bitstream(vec![0, 0, 0, 1, round]).unwrap();
        assert_eq!(handler.on_frame(Ok(frame)), HandlerAction::UniStream);
        assert_eq!(handler.payload(), Some(&[0, 0, 0, 1, round][..]));
        assert_eq!(handler.on_completion(Completion::Done), HandlerAction::Sleep(16));
        assert_eq!(handler.payload(), None);
        assert_eq!(handler.on_completion(Completion::Done), HandlerAction::Produce);
        assert_eq!(handler.sent(), round as u64 + 1);
    }
}

#[test]
fn framed_frames_go_out_as_messages_without_a_pause() {
    let mut handler = FrameHandler::new(Transport::FramedSocket);
    assert_eq!(handler.action(), HandlerAction::Produce);
    for round in 0..50u8 {
        let frame = Frame::with_bitstream(vec![round, 1, 2]).unwrap();
        assert_eq!(handler.on_frame(Ok(frame)), HandlerAction::Message);
        assert_eq!(handler.payload(), Some(&[round, 1, 2][..]));
        assert_eq!(handler.on_completion(Completion::Done), HandlerAction::Produce);
    }
    assert_eq!(handler.sent(), 50);
}

#[test]
fn frame_stream_has_no_end_of_its_own() {
    let mut handler = FrameHandler::new(Transport::FramedSocket);
    for _ in 0..10_000 {
        assert_eq!(handler.on_frame(Ok(Frame::with_bitstream(vec![1]).unwrap())), HandlerAction::Message);
        assert_ne!(handler.on_completion(Completion::Done), FINISHED);
    }
    assert_eq!(handler.action(), HandlerAction::Produce);
}

#[test]
fn encoder_refusal_ends_the_frame_task() {
    for error in [EncodingError::Encoder, EncodingError::Picture, EncodingError::Canvas] {
        let mut handler = FrameHandler::new(Transport::Multiplexed);
        assert_eq!(handler.on_frame(Err(error)), ENCODING_FAILED);
        assert_eq!(handler.on_frame(Ok(Frame::with_bitstream(vec![1]).unwrap())), ENCODING_FAILED);
        assert_eq!(handler.on_completion(Completion::Done), ENCODING_FAILED);
        assert_eq!(handler.payload(), None);
    }
}

#[test]
fn skipped_frame_is_passed_over_on_the_framed_socket() {
    let mut handler = FrameHandler::new(Transport::FramedSocket);
    // Nothing is sent for a frame that the encoder skipped; the task yields
    // and asks for the next.
    assert_eq!(handler.on_frame(Err(EncodingError::Skipped)), HandlerAction::Yield);
    assert_eq!(handler.payload(), None);
    assert_eq!(handler.on_completion(Completion::Done), HandlerAction::Produce);
    assert_eq!(handler.on_frame(Err(EncodingError::Skipped)), HandlerAction::Yield);
    assert_eq!(handler.on_completion(Completion::Done), HandlerAction::Produce);
    assert_eq!(handler.sent(), 0);
    let frame = Frame::with_bitstream(vec![5, 6]).unwrap();
    assert_eq!(handler.on_frame(Ok(frame)), HandlerAction::Message);
    assert_eq!(handler.payload(), Some(&[5u8, 6][..]));
    assert_eq!(handler.on_completion(Completion::Done), HandlerAction::Produce);
    assert_eq!(handler.sent(), 1);
}

#[test]
fn skipped_frame_keeps_the_pace_on_the_multiplexed_transport() {
    let mut handler = FrameHandler::new(Transport::Multiplexed);
    assert_eq!(handler.on_frame(Err(EncodingError::Skipped)), HandlerAction::Sleep(16));
    assert_eq!(handler.payload(), None);
    assert_eq!(handler.on_completion(Completion::Done), HandlerAction::Produce);
    assert_eq!(handler.sent(), 0);
    let frame = Frame::with_bitstream(vec![7]).unwrap();
    assert_eq!(handler.on_frame(Ok(frame)), HandlerAction::UniStream);
    assert_eq!(handler.payload(), Some(&[7u8][..]));
}

#[test]
fn payload_of_a_frame_is_never_empty() {
    for transport in [Transport::Multiplexed, Transport::FramedSocket] {
        let mut handler = FrameHandler::new(transport);
        let mut action = handler.action();
        for round in 0..200u32 {
            action = match action {
                HandlerAction::Produce => {
                    if round % 3 == 0 {
                        handler.on_frame(Err(EncodingError::Skipped))
                    } else {
                        handler.on_frame(Ok(Frame::with_bitstream(vec![round as u8]).unwrap()))
                    }
                }
                HandlerAction::UniStream | HandlerAction::Message => {
                    assert!(!handler.payload().unwrap().is_empty());
                    handler.on_completion(Completion::Done)
                }
                _ => handler.on_completion(Completion::Done),
            };
            assert!(!matches!(action, HandlerAction::Close(_)));
        }
    }
}

#[test]
fn frame_send_failure_ends_the_task() {
    for transport in [Transport::Multiplexed, Transport::FramedSocket] {
        let mut handler = FrameHandler::new(transport);
        handler.on_frame(Ok(Frame::with_bitstream(vec![1, 2, 3]).unwrap()));
        assert_eq!(handler.on_completion(Completion::Failed), TRANSMIT_FAILED);
        assert_eq!(handler.sent(), 0);
        assert_eq!(handler.on_frame(Ok(Frame::with_bitstream(vec![4]).unwrap())), TRANSMIT_FAILED);
        assert_eq!(handler.payload(), None);
    }
}

#[test]
fn frame_reports_out_of_turn_change_nothing() {
    let mut handler = FrameHandler::new(Transport::Multiplexed);
    // Nothing is in flight yet, so there is nothing to complete.
    assert_eq!(handler.on_completion(Completion::Done), HandlerAction::Produce);
    assert_eq!(handler.on_completion(Completion::Failed), HandlerAction::Produce);
    assert_eq!(handler.on_frame(Ok(Frame::with_bitstream(vec![1]).unwrap())), HandlerAction::UniStream);
    // A second frame while the first is in flight is dropped.
    assert_eq!(handler.on_frame(Ok(Frame::with_bitstream(vec![2]).unwrap())), HandlerAction::UniStream);
    assert_eq!(handler.on_frame(Err(EncodingError::Encoder)), HandlerAction::UniStream);
    assert_eq!(handler.payload(), Some(&[1u8][..]));
    assert_eq!(handler.on_completion(Completion::Done), HandlerAction::Sleep(16));
    assert_eq!(handler.on_frame(Ok(Frame::with_bitstream(vec![3]).unwrap())), HandlerAction::Sleep(16));
    assert_eq!(handler.sent(), 1);
}

//! What a connection's task does once the connection stands, as decisions.
//!
//! A handler says what to do next; the caller does it and reports how it
//! ended. The payload that a send is about is read from the handler. Sends
//! go out in the order in which the payloads were produced. A send that fails
//! ends the task, and nothing is tried again.

use crate::counter::{be_bytes, CounterGenerator, MAX_VALUE};
use crate::frame::{EncodingError, Frame};
use crate::listener::{ConnectionError, ConnectionOutcome, Transport};
use vstd::prelude::*;

verus! {

/// How long the multiplexed transport keeps a connection open once the
/// counter stream is out, in milliseconds.
pub const GRACE_MILLIS: u64 = 3_000;

/// Pause between two frames on the multiplexed transport, in milliseconds.
pub const FRAME_PACING_MILLIS: u64 = 16;

/// How the action that a handler asked for ended.
#[derive(Clone, Copy, Debug, PartialEq, Eq, Structural)]
pub enum Completion {
    /// It was carried out.
    Done,
    /// It failed.
    Failed,
}

/// What a handler asks of the caller.
#[derive(Clone, Copy, Debug, PartialEq, Eq, Structural)]
pub enum HandlerAction {
    /// Draw the next picture, have it encoded and report the frame.
    Produce,
    /// Send the payload as one unreliable datagram.
    Datagram,
    /// Open a one-way reliable stream, write the whole payload and close it.
    UniStream,
    /// Send the payload as one binary message.
    Message,
    /// Yield to the scheduler.
    Yield,
    /// Sleep for this many milliseconds.
    Sleep(u64),
    /// End the task with this outcome; the connection is dropped.
    Close(ConnectionOutcome),
}

/// Where a counter handler stands.
#[derive(Clone, Copy, Debug, PartialEq, Eq, Structural)]
pub enum CounterPhase {
    /// A value is being sent.
    Sending,
    /// The datagram is out and the task yields before the next.
    Yielding,
    /// Every value is out and the connection is held open.
    Grace,
    /// The task has ended.
    Closed(ConnectionOutcome),
}

/// What follows a successful send or yield when `cursor` values have been
/// taken from the generator: the next value if there is one; at the end of
/// the stream the grace period on the multiplexed transport, and the end of
/// the task on the framed socket.
pub open spec fn counter_produce(transport: Transport, cursor: int) -> (CounterPhase, int) {
    if cursor < MAX_VALUE {
        (CounterPhase::Sending, cursor + 1)
    } else {
        match transport {
            Transport::Multiplexed => (CounterPhase::Grace, cursor),
            Transport::FramedSocket => (CounterPhase::Closed(ConnectionOutcome::Finished), cursor),
        }
    }
}

/// The phase and cursor that follow when the pending action ends with
/// `completion`.
pub open spec fn counter_step(
    transport: Transport,
    phase: CounterPhase,
    cursor: int,
    completion: Completion,
) -> (CounterPhase, int) {
    match phase {
        CounterPhase::Closed(_) => (phase, cursor),
        _ => match completion {
            Completion::Failed => (
                CounterPhase::Closed(ConnectionOutcome::Failed(ConnectionError::Transmit)),
                cursor,
            ),
            Completion::Done => match phase {
                CounterPhase::Sending => match transport {
                    Transport::Multiplexed => (CounterPhase::Yielding, cursor),
                    Transport::FramedSocket => counter_produce(transport, cursor),
                },
                CounterPhase::Yielding => counter_produce(transport, cursor),
                CounterPhase::Grace => (
                    CounterPhase::Closed(ConnectionOutcome::Finished),
                    cursor,
                ),
                CounterPhase::Closed(_) => (phase, cursor),
            },
        },
    }
}

/// What a counter handler in `phase` asks for.
pub open spec fn counter_action(transport: Transport, phase: CounterPhase) -> HandlerAction {
    match phase {
        CounterPhase::Sending => match transport {
            Transport::Multiplexed => HandlerAction::Datagram,
            Transport::FramedSocket => HandlerAction::Message,
        },
        CounterPhase::Yielding => HandlerAction::Yield,
        CounterPhase::Grace => HandlerAction::Sleep(GRACE_MILLIS),
        CounterPhase::Closed(outcome) => HandlerAction::Close(outcome),
    }
}

/// What holds of every counter handler: the cursor stays within the stream;
/// a value in flight has been taken; only the multiplexed transport yields
/// and holds the connection open; and the grace period and a good end come
/// only when the stream is out.
pub open spec fn counter_inv(transport: Transport, phase: CounterPhase, cursor: int) -> bool {
    &&& 0 <= cursor <= MAX_VALUE
    &&& match phase {
        CounterPhase::Sending => 1 <= cursor,
        CounterPhase::Yielding => 1 <= cursor && transport == Transport::Multiplexed,
        CounterPhase::Grace => cursor == MAX_VALUE && transport == Transport::Multiplexed,
        CounterPhase::Closed(outcome) => outcome == ConnectionOutcome::Finished ==> cursor
            == MAX_VALUE,
    }
}

/// The phase and cursor of a fresh handler after `n` actions in a row have
/// been carried out.
pub open spec fn counter_after(transport: Transport, n: nat) -> (CounterPhase, int)
    decreases n,
{
    if n == 0 {
        counter_produce(transport, 0)
    } else {
        let before = counter_after(transport, (n - 1) as nat);
        counter_step(transport, before.0, before.1, Completion::Done)
    }
}

/// Sends the counter stream over one connection.
pub struct CounterHandler {
    transport: Transport,
    phase: CounterPhase,
    generator: CounterGenerator,
    in_flight: [u8; 8],
}

impl CounterHandler {
    /// The transport of the connection.
    pub closed spec fn transport(&self) -> Transport {
        self.transport
    }

    /// Where the handler stands.
    pub closed spec fn phase(&self) -> CounterPhase {
        self.phase
    }

    /// How many values have been taken from the generator.
    pub closed spec fn cursor(&self) -> int {
        self.generator.cursor() as int
    }

    /// The bytes of the value taken last.
    pub closed spec fn in_flight(&self) -> Seq<u8> {
        self.in_flight@
    }

    /// While a value is being sent, the bytes in flight are those of the
    /// value taken last.
    pub closed spec fn wf(&self) -> bool {
        &&& counter_inv(self.transport, self.phase, self.generator.cursor() as int)
        &&& self.phase is Sending ==> self.in_flight@ == be_bytes(
            (self.generator.cursor() - 1) as u64,
        )
    }

    /// A well-formed handler is in a state that `counter_inv` allows.
    pub proof fn lemma_wf(&self)
        requires
            self.wf(),
        ensures
            counter_inv(self.transport(), self.phase(), self.cursor()),
            self.phase() is Sending ==> self.in_flight() == be_bytes((self.cursor() - 1) as u64),
    {
    }

    /// A handler for a connection that has just been established: the first
    /// value is in flight.
    pub fn new(transport: Transport) -> (handler: Self)
        ensures
            handler.wf(),
            handler.transport() == transport,
            (handler.phase(), handler.cursor()) == counter_produce(transport, 0),
            handler.in_flight() == be_bytes(0),
    {
        let mut generator = CounterGenerator::new();
        let first = generator.next();
        let in_flight = match first {
            Some(bytes) => bytes,
            None => [0u8; 8],
        };
        CounterHandler { transport, phase: CounterPhase::Sending, generator, in_flight }
    }

    /// Takes the next value from the generator, or moves to what follows
    /// the stream.
    fn produce(&mut self)
        requires
            old(self).generator.wf(),
            old(self).phase is Sending && old(self).transport == Transport::FramedSocket || old(
                self,
            ).phase is Yielding && old(self).transport == Transport::Multiplexed,
        ensures
            final(self).wf(),
            final(self).transport() == old(self).transport(),
            (final(self).phase(), final(self).cursor()) == counter_produce(
                old(self).transport(),
                old(self).cursor(),
            ),
            final(self).phase() is Sending ==> final(self).in_flight() == be_bytes(
                old(self).cursor() as u64,
            ),
    {
        match self.generator.next() {
            Some(bytes) => {
                self.in_flight = bytes;
                self.phase = CounterPhase::Sending;
            },
            None => {
                self.phase = match self.transport {
                    Transport::Multiplexed => CounterPhase::Grace,
                    Transport::FramedSocket => CounterPhase::Closed(ConnectionOutcome::Finished),
                };
            },
        }
    }

    /// What the handler is waiting for.
    pub fn action(&self) -> (action: HandlerAction)
        ensures
            action == counter_action(self.transport(), self.phase()),
    {
        match self.phase {
            CounterPhase::Sending => match self.transport {
                Transport::Multiplexed => HandlerAction::Datagram,
                Transport::FramedSocket => HandlerAction::Message,
            },
            CounterPhase::Yielding => HandlerAction::Yield,
            CounterPhase::Grace => HandlerAction::Sleep(GRACE_MILLIS),
            CounterPhase::Closed(outcome) => HandlerAction::Close(outcome),
        }
    }

    /// The payload to send: the eight bytes of the value in flight, while
    /// one is being sent.
    pub fn payload(&self) -> (payload: Option<[u8; 8]>)
        requires
            self.wf(),
        ensures
            self.phase() is Sending <==> payload is Some,
            payload matches Some(bytes) ==> bytes@ == self.in_flight() && bytes@ == be_bytes(
                (self.cursor() - 1) as u64,
            ),
    {
        match self.phase {
            CounterPhase::Sending => Some(self.in_flight),
            _ => None,
        }
    }

    /// Takes in how the pending action ended and says what to do next.
    pub fn on_completion(&mut self, completion: Completion) -> (action: HandlerAction)
        requires
            old(self).wf(),
        ensures
            final(self).wf(),
            final(self).transport() == old(self).transport(),
            (final(self).phase(), final(self).cursor()) == counter_step(
                old(self).transport(),
                old(self).phase(),
                old(self).cursor(),
                completion,
            ),
            action == counter_action(final(self).transport(), final(self).phase()),
    {
        match self.phase {
            CounterPhase::Closed(_) => {},
            _ => match completion {
                Completion::Failed => {
                    self.phase = CounterPhase::Closed(
                        ConnectionOutcome::Failed(ConnectionError::Transmit),
                    );
                },
                Completion::Done => match self.phase {
                    CounterPhase::Sending => match self.transport {
                        Transport::Multiplexed => {
                            self.phase = CounterPhase::Yielding;
                        },
                        Transport::FramedSocket => {
                            self.produce();
                        },
                    },
                    CounterPhase::Yielding => {
                        self.produce();
                    },
                    CounterPhase::Grace => {
                        self.phase = CounterPhase::Closed(ConnectionOutcome::Finished);
                    },
                    CounterPhase::Closed(_) => {},
                },
            },
        }
        self.action()
    }
}

/// On the framed socket, while every send succeeds: after `n` sends the value
/// `n` is in flight, for every `n` below `MAX_VALUE`; after `MAX_VALUE` sends
/// the task has ended well, with no pause.
pub proof fn lemma_framed_counter_stream(n: nat)
    ensures
        n < MAX_VALUE ==> counter_after(Transport::FramedSocket, n) == (
            CounterPhase::Sending,
            (n + 1) as int,
        ),
        n >= MAX_VALUE ==> counter_after(Transport::FramedSocket, n) == (
            CounterPhase::Closed(ConnectionOutcome::Finished),
            MAX_VALUE as int,
        ),
    decreases n,
{
    if n > 0 {
        lemma_framed_counter_stream((n - 1) as nat);
    }
}

/// On the multiplexed transport, while every action succeeds: datagram and
/// yield take turns, the datagram after `2 * k` actions carries the value
/// `k`, for every `k` below `MAX_VALUE`; then comes the grace period, and
/// only after it the end of the task.
pub proof fn lemma_multiplexed_counter_stream(n: nat)
    ensures
        n < 2 * MAX_VALUE && n % 2 == 0 ==> counter_after(Transport::Multiplexed, n) == (
            CounterPhase::Sending,
            (n / 2 + 1) as int,
        ),
        n < 2 * MAX_VALUE && n % 2 == 1 ==> counter_after(Transport::Multiplexed, n) == (
            CounterPhase::Yielding,
            (n / 2 + 1) as int,
        ),
        n == 2 * MAX_VALUE ==> counter_after(Transport::Multiplexed, n) == (
            CounterPhase::Grace,
            MAX_VALUE as int,
        ),
        n > 2 * MAX_VALUE ==> counter_after(Transport::Multiplexed, n) == (
            CounterPhase::Closed(ConnectionOutcome::Finished),
            MAX_VALUE as int,
        ),
    decreases n,
{
    if n > 0 {
        lemma_multiplexed_counter_stream((n - 1) as nat);
    }
}

/// Every state that a handler reaches is one that `counter_inv` allows. The
/// cursor never goes back, and it moves by one exactly when a new value goes
/// into flight; the task ends well only when the stream is out.
pub proof fn lemma_counter_in_order(
    transport: Transport,
    phase: CounterPhase,
    cursor: int,
    completion: Completion,
)
    requires
        counter_inv(transport, phase, cursor),
    ensures
        counter_inv(transport, counter_produce(transport, 0).0, counter_produce(transport, 0).1),
        ({
            let next = counter_step(transport, phase, cursor, completion);
            &&& counter_inv(transport, next.0, next.1)
            &&& cursor <= next.1 <= cursor + 1
            &&& next.1 == cursor + 1 <==> next.0 is Sending && completion is Done && !(phase
                is Closed) && !(phase is Sending && transport == Transport::Multiplexed)
            &&& next.0 == CounterPhase::Closed(ConnectionOutcome::Finished) && !(phase
                is Closed) ==> cursor == MAX_VALUE
        }),
{
}

/// A failure ends the task at once, and a task that has ended stays ended.
pub proof fn lemma_counter_failure_is_final(
    transport: Transport,
    phase: CounterPhase,
    cursor: int,
    completion: Completion,
)
    ensures
        !(phase is Closed) ==> counter_step(transport, phase, cursor, Completion::Failed).0
            == CounterPhase::Closed(ConnectionOutcome::Failed(ConnectionError::Transmit)),
        phase is Closed ==> counter_step(transport, phase, cursor, completion) == (phase, cursor),
{
}

/// Where a frame handler stands.
#[derive(Clone, Copy, Debug, PartialEq, Eq, Structural)]
pub enum FramePhase {
    /// The next frame is being drawn and encoded.
    Producing,
    /// A frame is being sent.
    Sending,
    /// The round is over and the task pauses before the next.
    Pacing,
    /// A frame was skipped on the framed socket and the task yields before
    /// the next.
    Yielding,
    /// The task has ended.
    Closed(ConnectionOutcome),
}

/// Why no frame came out, if none did.
pub open spec fn refusal_of(frame: Result<Frame, EncodingError>) -> Option<EncodingError> {
    match frame {
        Ok(_) => None,
        Err(error) => Some(error),
    }
}

/// What follows a round in which all went well: a pause on the multiplexed
/// transport, the next frame at once on the framed socket.
pub open spec fn after_round(transport: Transport) -> FramePhase {
    match transport {
        Transport::Multiplexed => FramePhase::Pacing,
        Transport::FramedSocket => FramePhase::Producing,
    }
}

/// What follows a frame that the encoder skipped: nothing is sent, and the
/// task lets others run before it asks again. On the multiplexed transport
/// it pauses as after a send; on the framed socket, where only sending
/// would have made it wait, it yields.
pub open spec fn after_skip(transport: Transport) -> FramePhase {
    match transport {
        Transport::Multiplexed => FramePhase::Pacing,
        Transport::FramedSocket => FramePhase::Yielding,
    }
}

/// The phase that follows `phase` when the frame asked for is reported;
/// `refusal` says why none came out, if none did. A frame goes into flight.
/// A frame that the encoder skipped is passed over. Any other refusal ends
/// the task. A report that was not asked for changes nothing.
pub open spec fn frame_step_produced(
    transport: Transport,
    phase: FramePhase,
    refusal: Option<EncodingError>,
) -> FramePhase {
    match phase {
        FramePhase::Producing => match refusal {
            None => FramePhase::Sending,
            Some(EncodingError::Skipped) => after_skip(transport),
            Some(_) => FramePhase::Closed(ConnectionOutcome::Failed(ConnectionError::Encoding)),
        },
        _ => phase,
    }
}

/// The phase that follows `phase` when the pending send or pause ends with
/// `completion`. While a frame is being produced there is nothing to
/// complete, and the report changes nothing.
pub open spec fn frame_step_completed(
    transport: Transport,
    phase: FramePhase,
    completion: Completion,
) -> FramePhase {
    match phase {
        FramePhase::Sending => match completion {
            Completion::Failed => FramePhase::Closed(
                ConnectionOutcome::Failed(ConnectionError::Transmit),
            ),
            Completion::Done => after_round(transport),
        },
        FramePhase::Pacing | FramePhase::Yielding => match completion {
            Completion::Failed => FramePhase::Closed(
                ConnectionOutcome::Failed(ConnectionError::Transmit),
            ),
            Completion::Done => FramePhase::Producing,
        },
        _ => phase,
    }
}

/// What a frame handler in `phase` asks for.
pub open spec fn frame_action(transport: Transport, phase: FramePhase) -> HandlerAction {
    match phase {
        FramePhase::Producing => HandlerAction::Produce,
        FramePhase::Sending => match transport {
            Transport::Multiplexed => HandlerAction::UniStream,
            Transport::FramedSocket => HandlerAction::Message,
        },
        FramePhase::Pacing => HandlerAction::Sleep(FRAME_PACING_MILLIS),
        FramePhase::Yielding => HandlerAction::Yield,
        FramePhase::Closed(outcome) => HandlerAction::Close(outcome),
    }
}

/// Sends encoded frames over one connection for as long as it lasts.
pub struct FrameHandler {
    transport: Transport,
    phase: FramePhase,
    in_flight: Vec<u8>,
    sent: u64,
}

impl FrameHandler {
    /// What is being sent is never empty.
    #[verifier::type_invariant]
    spec fn sends_bytes(self) -> bool {
        self.phase is Sending ==> self.in_flight@.len() > 0
    }

    /// The transport of the connection.
    pub closed spec fn transport(&self) -> Transport {
        self.transport
    }

    /// Where the handler stands.
    pub closed spec fn phase(&self) -> FramePhase {
        self.phase
    }

    /// The bytes of the frame reported last.
    pub closed spec fn in_flight(&self) -> Seq<u8> {
        self.in_flight@
    }

    /// How many frames have been sent, counted up to `u64::MAX`.
    pub closed spec fn frames_sent(&self) -> int {
        self.sent as int
    }

    /// A handler for a connection that has just been established: it asks
    /// for the first frame.
    pub fn new(transport: Transport) -> (handler: Self)
        ensures
            handler.transport() == transport,
            handler.phase() == FramePhase::Producing,
            handler.frames_sent() == 0,
    {
        FrameHandler { transport, phase: FramePhase::Producing, in_flight: Vec::new(), sent: 0 }
    }

    /// What the handler is waiting for.
    pub fn action(&self) -> (action: HandlerAction)
        ensures
            action == frame_action(self.transport(), self.phase()),
    {
        match self.phase {
            FramePhase::Producing => HandlerAction::Produce,
            FramePhase::Sending => match self.transport {
                Transport::Multiplexed => HandlerAction::UniStream,
                Transport::FramedSocket => HandlerAction::Message,
            },
            FramePhase::Pacing => HandlerAction::Sleep(FRAME_PACING_MILLIS),
            FramePhase::Yielding => HandlerAction::Yield,
            FramePhase::Closed(outcome) => HandlerAction::Close(outcome),
        }
    }

    /// The payload to send: the bytes of the frame in flight, while one is
    /// being sent. There is at least one byte to send.
    pub fn payload(&self) -> (payload: Option<&[u8]>)
        ensures
            self.phase() is Sending <==> payload is Some,
            payload matches Some(bytes) ==> bytes@ == self.in_flight() && bytes@.len() > 0,
    {
        proof {
            use_type_invariant(self);
        }
        match self.phase {
            FramePhase::Sending => Some(self.in_flight.as_slice()),
            _ => None,
        }
    }

    /// How many frames have been sent, counted up to `u64::MAX`.
    pub fn sent(&self) -> (count: u64)
        ensures
            count == self.frames_sent(),
    {
        self.sent
    }

    /// Takes in the frame that was asked for, or the reason why there is
    /// none, and says what to do next. A frame goes into flight as it is. A
    /// frame that the encoder skipped is passed over and the handler goes on
    /// to the next. Any other refusal ends the task.
    pub fn on_frame(&mut self, frame: Result<Frame, EncodingError>) -> (action: HandlerAction)
        ensures
            final(self).transport() == old(self).transport(),
            final(self).phase() == frame_step_produced(
                old(self).transport(),
                old(self).phase(),
                refusal_of(frame),
            ),
            final(self).frames_sent() == old(self).frames_sent(),
            old(self).phase() is Producing && frame is Ok ==> final(self).in_flight()
                == frame.unwrap()@ && final(self).in_flight().len() > 0,
            !(old(self).phase() is Producing && frame is Ok) ==> final(self).in_flight() == old(
                self,
            ).in_flight(),
            action == frame_action(final(self).transport(), final(self).phase()),
    {
        match self.phase {
            FramePhase::Producing => match frame {
                Ok(made) => {
                    self.in_flight = made.to_vec();
                    self.phase = FramePhase::Sending;
                },
                Err(EncodingError::Skipped) => {
                    self.phase = match self.transport {
                        Transport::Multiplexed => FramePhase::Pacing,
                        Transport::FramedSocket => FramePhase::Yielding,
                    };
                },
                Err(_) => {
                    self.phase = FramePhase::Closed(
                        ConnectionOutcome::Failed(ConnectionError::Encoding),
                    );
                },
            },
            _ => {},
        }
        self.action()
    }

    /// Takes in how the pending send or pause ended and says what to do
    /// next.
    pub fn on_completion(&mut self, completion: Completion) -> (action: HandlerAction)
        ensures
            final(self).transport() == old(self).transport(),
            final(self).phase() == frame_step_completed(
                old(self).transport(),
                old(self).phase(),
                completion,
            ),
            final(self).in_flight() == old(self).in_flight(),
            final(self).frames_sent() == if old(self).phase() is Sending && completion is Done
                && old(self).frames_sent() < u64::MAX {
                old(self).frames_sent() + 1
            } else {
                old(self).frames_sent()
            },
            action == frame_action(final(self).transport(), final(self).phase()),
    {
        match self.phase {
            FramePhase::Sending => match completion {
                Completion::Failed => {
                    self.phase = FramePhase::Closed(
                        ConnectionOutcome::Failed(ConnectionError::Transmit),
                    );
                },
                Completion::Done => {
                    self.phase = match self.transport {
                        Transport::Multiplexed => FramePhase::Pacing,
                        Transport::FramedSocket => FramePhase::Producing,
                    };
                    if self.sent < u64::MAX {
                        self.sent = self.sent + 1;
                    }
                },
            },
            FramePhase::Pacing | FramePhase::Yielding => match completion {
                Completion::Failed => {
                    self.phase = FramePhase::Closed(
                        ConnectionOutcome::Failed(ConnectionError::Transmit),
                    );
                },
                Completion::Done => {
                    self.phase = FramePhase::Producing;
                },
            },
            _ => {},
        }
        self.action()
    }
}

/// The frame stream has no end of its own: a frame handler never finishes
/// well. Its task ends only when a send fails or the encoder refuses.
pub proof fn lemma_frames_never_finish(
    transport: Transport,
    phase: FramePhase,
    refusal: Option<EncodingError>,
    completion: Completion,
)
    requires
        phase != FramePhase::Closed(ConnectionOutcome::Finished),
    ensures
        frame_step_produced(transport, phase, refusal) != FramePhase::Closed(
            ConnectionOutcome::Finished,
        ),
        frame_step_completed(transport, phase, completion) != FramePhase::Closed(
            ConnectionOutcome::Finished,
        ),
{
}

/// One round of a frame handler while all goes well: the frame that was
/// produced is sent; on the multiplexed transport a pause of sixteen
/// milliseconds follows before the next frame is asked for, on the framed
/// socket the next is asked for at once.
pub proof fn lemma_frame_round(transport: Transport)
    ensures
        frame_action(transport, FramePhase::Producing) == HandlerAction::Produce,
        frame_step_produced(transport, FramePhase::Producing, None) == FramePhase::Sending,
        transport == Transport::Multiplexed ==> {
            let paced = frame_step_completed(transport, FramePhase::Sending, Completion::Done);
            &&& frame_action(transport, FramePhase::Sending) == HandlerAction::UniStream
            &&& frame_action(transport, paced) == HandlerAction::Sleep(FRAME_PACING_MILLIS)
            &&& frame_step_completed(transport, paced, Completion::Done) == FramePhase::Producing
        },
        transport == Transport::FramedSocket ==> {
            &&& frame_action(transport, FramePhase::Sending) == HandlerAction::Message
            &&& frame_step_completed(transport, FramePhase::Sending, Completion::Done)
                == FramePhase::Producing
        },
{
}

/// A frame that the encoder skipped is never sent and never ends the task:
/// the task pauses or yields, and then asks for the next frame.
pub proof fn lemma_skipped_frame_is_passed_over(transport: Transport)
    ensures
        ({
            let next = frame_step_produced(
                transport,
                FramePhase::Producing,
                Some(EncodingError::Skipped),
            );
            &&& next == after_skip(transport)
            &&& !(next is Sending)
            &&& !(next is Closed)
            &&& frame_action(transport, next) == match transport {
                Transport::Multiplexed => HandlerAction::Sleep(FRAME_PACING_MILLIS),
                Transport::FramedSocket => HandlerAction::Yield,
            }
            &&& frame_step_completed(transport, next, Completion::Done) == FramePhase::Producing
        }),
{
}

/// Nothing but a frame goes into flight: the handler starts to send only
/// when a frame is reported that it asked for.
pub proof fn lemma_only_frames_are_sent(
    transport: Transport,
    phase: FramePhase,
    refusal: Option<EncodingError>,
    completion: Completion,
)
    requires
        !(phase is Sending),
    ensures
        frame_step_produced(transport, phase, refusal) is Sending <==> phase is Producing
            && refusal is None,
        !(frame_step_completed(transport, phase, completion) is Sending),
{
}

} // verus!

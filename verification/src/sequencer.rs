//! The synchronization sequencer: an identifier is read from the serial
//! line, the peer's heartbeat and then its status frame are awaited, the
//! test frame is submitted, and the trigger output is raised.
//!
//! The sequencer does no input or output. It is handed the result of each
//! piece of outside work as an [`Event`] and answers with an [`Action`]: the
//! next piece of outside work, the level to drive the trigger output to, and
//! what to report.

use vstd::prelude::*;
use crate::frame::{
    CanFrame,
    CanIdentifier,
    FrameId,
    FrameView,
    test_frame_view,
    HEARTBEAT_ID,
    MAX_STANDARD_ID,
    STATUS_ID,
};
use crate::intake::{intake_step, HexIdIntake, IntakeOutcome};
use crate::monotimer::{Deadline, MonoTimer};
use crate::waiter::FrameWaiter;

verus! {

/// Time allowed for the heartbeat frame, in milliseconds.
pub const HEARTBEAT_TIMEOUT_MS: u32 = 1000;

/// Time allowed for the status frame, in milliseconds.
pub const STATUS_TIMEOUT_MS: u32 = 250;

/// Where in its cycle the sequencer stands.
#[derive(Clone, Copy, Debug, PartialEq, Eq, Structural)]
pub enum SequencerState {
    /// Bytes from the serial line are collected into an identifier.
    AwaitingIdentifier,
    /// An identifier was accepted; the heartbeat frame is awaited.
    AwaitingHeartbeat,
    /// The heartbeat frame was seen; the status frame is awaited.
    AwaitingStatus,
    /// The status frame was seen; the test frame is being submitted.
    Transmitting,
}

/// The result of one piece of outside work.
#[derive(Debug, PartialEq, Eq)]
pub enum Event {
    /// The serial line was read: a byte, or nothing where none was waiting.
    Serial(Option<u8>),
    /// The cycle counter was read.
    Clock(u32),
    /// The bus was polled: a received frame, or nothing.
    Bus(Option<CanFrame>),
    /// The test frame was handed to the transport, which took it (`true`)
    /// or refused it (`false`).
    Submitted(bool),
}

/// An event, with frames as what they are.
pub enum EventView {
    Serial(Option<u8>),
    Clock(u32),
    Bus(Option<FrameView>),
    Submitted(bool),
}

impl View for Event {
    type V = EventView;

    open spec fn view(&self) -> EventView {
        match *self {
            Event::Serial(byte) => EventView::Serial(byte),
            Event::Clock(now) => EventView::Clock(now),
            Event::Bus(Some(frame)) => EventView::Bus(Some(frame@)),
            Event::Bus(None) => EventView::Bus(None),
            Event::Submitted(taken) => EventView::Submitted(taken),
        }
    }
}

/// The outside work that the sequencer asks for next.
#[derive(Debug, PartialEq, Eq)]
pub enum Request {
    /// Read the serial line and answer with `Event::Serial`.
    ReadSerial,
    /// Read the cycle counter and answer with `Event::Clock`.
    ReadClock,
    /// Poll the bus for a received frame and answer with `Event::Bus`.
    PollBus,
    /// Hand this frame to the transport and answer with `Event::Submitted`.
    Submit(CanFrame),
    /// Stop the device: the frame could not be submitted.
    Halt,
}

/// A request, with frames as what they are.
pub enum RequestView {
    ReadSerial,
    ReadClock,
    PollBus,
    Submit(FrameView),
    Halt,
}

impl View for Request {
    type V = RequestView;

    open spec fn view(&self) -> RequestView {
        match *self {
            Request::ReadSerial => RequestView::ReadSerial,
            Request::ReadClock => RequestView::ReadClock,
            Request::PollBus => RequestView::PollBus,
            Request::Submit(frame) => RequestView::Submit(frame@),
            Request::Halt => RequestView::Halt,
        }
    }
}

/// What a step gives to report.
#[derive(Clone, Copy, Debug, PartialEq, Eq, Structural)]
pub enum Notice {
    /// Nothing to report.
    Quiet,
    /// An identifier was read and accepted.
    IdentifierRead(u16),
    /// A line held digits worth more than 16 bits.
    MalformedInput,
    /// A ninth digit arrived before the end of a line.
    BufferOverflow,
    /// A value was read that is no 11-bit identifier.
    IdentifierOutOfRange(u16),
    /// No heartbeat frame arrived in time; the cycle was given up.
    HeartbeatTimeout,
    /// No status frame arrived in time; the cycle was given up.
    StatusTimeout,
    /// The test frame was taken by the transport.
    FrameSent,
    /// The test frame was not taken by the transport.
    SubmissionFailed,
}

/// The sequencer's answer to an event.
#[derive(Debug, PartialEq, Eq)]
pub struct Action {
    /// The outside work to do next.
    pub request: Request,
    /// The level to drive the trigger output to: high (`true`) or low.
    pub trigger_high: bool,
    /// What to report.
    pub notice: Notice,
}

/// An action, with frames as what they are.
pub struct ActionView {
    pub request: RequestView,
    pub trigger_high: bool,
    pub notice: Notice,
}

impl View for Action {
    type V = ActionView;

    open spec fn view(&self) -> ActionView {
        ActionView {
            request: self.request@,
            trigger_high: self.trigger_high,
            notice: self.notice,
        }
    }
}

/// What a sequencer is, without how it is stored.
pub struct SequencerView {
    /// Where in its cycle the sequencer stands.
    pub state: SequencerState,
    /// The hex digits collected on the current line.
    pub held: Seq<u8>,
    /// The identifier of the current cycle; meaningless while one is awaited.
    pub id: u16,
    /// The deadline of the current wait, once the clock was read for it.
    pub deadline: Option<Deadline>,
    /// Ticks allowed for the heartbeat frame.
    pub heartbeat_ticks: u32,
    /// Ticks allowed for the status frame.
    pub status_ticks: u32,
}

/// The sequencer at startup.
pub open spec fn initial(heartbeat_ticks: u32, status_ticks: u32) -> SequencerView {
    SequencerView {
        state: SequencerState::AwaitingIdentifier,
        held: Seq::empty(),
        id: 0,
        deadline: None,
        heartbeat_ticks,
        status_ticks,
    }
}

/// An action with the trigger low.
pub open spec fn idle(request: RequestView, notice: Notice) -> ActionView {
    ActionView { request, trigger_high: false, notice }
}

/// The identifier awaited in a state: the status frame's in
/// `AwaitingStatus`, the heartbeat frame's otherwise.
pub open spec fn awaited_id(state: SequencerState) -> u16 {
    if state == SequencerState::AwaitingStatus {
        STATUS_ID
    } else {
        HEARTBEAT_ID
    }
}

/// The ticks allowed for the wait of the sequencer's state.
pub open spec fn allowed_ticks(s: SequencerView) -> u32 {
    if s.state == SequencerState::AwaitingStatus {
        s.status_ticks
    } else {
        s.heartbeat_ticks
    }
}

/// A step while an identifier is awaited. Only a byte from the serial line
/// does anything: it goes to the intake, and a value that comes out is
/// accepted when it is an 11-bit identifier.
pub open spec fn identifier_next(s: SequencerView, e: EventView) -> (SequencerView, ActionView) {
    match e {
        EventView::Serial(Some(byte)) => {
            let (outcome, held) = intake_step(s.held, byte);
            let kept = SequencerView { held, ..s };
            match outcome {
                IntakeOutcome::Pending => (kept, idle(RequestView::ReadSerial, Notice::Quiet)),
                IntakeOutcome::NoValue => (kept, idle(RequestView::ReadSerial, Notice::Quiet)),
                IntakeOutcome::FormatError => (
                    kept,
                    idle(RequestView::ReadSerial, Notice::MalformedInput),
                ),
                IntakeOutcome::Overflow => (
                    kept,
                    idle(RequestView::ReadSerial, Notice::BufferOverflow),
                ),
                IntakeOutcome::Value(value) => if value <= MAX_STANDARD_ID {
                    (
                        SequencerView {
                            state: SequencerState::AwaitingHeartbeat,
                            id: value,
                            deadline: None,
                            ..kept
                        },
                        idle(RequestView::ReadClock, Notice::IdentifierRead(value)),
                    )
                } else {
                    (kept, idle(RequestView::ReadSerial, Notice::IdentifierOutOfRange(value)))
                },
            }
        },
        _ => (s, idle(RequestView::ReadSerial, Notice::Quiet)),
    }
}

/// A step while a frame is awaited.
///
/// A clock reading begins the wait if it has not begun, and ends the cycle
/// if the deadline has passed. Once the wait has begun, a frame with the
/// awaited identifier moves the sequencer on; any other frame is dropped.
pub open spec fn waiting_next(s: SequencerView, e: EventView) -> (SequencerView, ActionView) {
    match e {
        EventView::Clock(now) => {
            let deadline = match s.deadline {
                Some(deadline) => deadline,
                None => Deadline { start: now, duration: allowed_ticks(s) },
            };
            if deadline.expired_at(now) {
                (
                    SequencerView {
                        state: SequencerState::AwaitingIdentifier,
                        deadline: None,
                        ..s
                    },
                    idle(
                        RequestView::ReadSerial,
                        if s.state == SequencerState::AwaitingStatus {
                            Notice::StatusTimeout
                        } else {
                            Notice::HeartbeatTimeout
                        },
                    ),
                )
            } else {
                (
                    SequencerView { deadline: Some(deadline), ..s },
                    idle(RequestView::PollBus, Notice::Quiet),
                )
            }
        },
        EventView::Bus(Some(frame)) => {
            if s.deadline is Some && frame.id == FrameId::Standard(awaited_id(s.state)) {
                if s.state == SequencerState::AwaitingStatus {
                    (
                        SequencerView {
                            state: SequencerState::Transmitting,
                            deadline: None,
                            ..s
                        },
                        idle(RequestView::Submit(test_frame_view(s.id)), Notice::Quiet),
                    )
                } else {
                    (
                        SequencerView {
                            state: SequencerState::AwaitingStatus,
                            deadline: None,
                            ..s
                        },
                        idle(RequestView::ReadClock, Notice::Quiet),
                    )
                }
            } else {
                (s, idle(RequestView::ReadClock, Notice::Quiet))
            }
        },
        _ => (s, idle(RequestView::ReadClock, Notice::Quiet)),
    }
}

/// A step while the test frame is being submitted: the transport took the
/// frame, and the trigger goes high for the new cycle's first step; or it
/// did not, and the device is to halt.
pub open spec fn transmitting_next(s: SequencerView, e: EventView) -> (SequencerView, ActionView) {
    match e {
        EventView::Submitted(true) => (
            SequencerView { state: SequencerState::AwaitingIdentifier, ..s },
            ActionView {
                request: RequestView::ReadSerial,
                trigger_high: true,
                notice: Notice::FrameSent,
            },
        ),
        _ => (s, idle(RequestView::Halt, Notice::SubmissionFailed)),
    }
}

/// The sequencer's transition function: the state after `e` and the answer
/// to it.
pub open spec fn sequencer_next(s: SequencerView, e: EventView) -> (SequencerView, ActionView) {
    match s.state {
        SequencerState::AwaitingIdentifier => identifier_next(s, e),
        SequencerState::AwaitingHeartbeat => waiting_next(s, e),
        SequencerState::AwaitingStatus => waiting_next(s, e),
        SequencerState::Transmitting => transmitting_next(s, e),
    }
}

/// The synchronization sequencer.
pub struct TriggerSequencer {
    state: SequencerState,
    intake: HexIdIntake,
    id: CanIdentifier,
    deadline: Option<Deadline>,
    heartbeat_ticks: u32,
    status_ticks: u32,
}

impl View for TriggerSequencer {
    type V = SequencerView;

    closed spec fn view(&self) -> SequencerView {
        SequencerView {
            state: self.state,
            held: self.intake@,
            id: self.id@,
            deadline: self.deadline,
            heartbeat_ticks: self.heartbeat_ticks,
            status_ticks: self.status_ticks,
        }
    }
}

fn idle_action(request: Request, notice: Notice) -> (action: Action)
    ensures
        action@ == idle(request@, notice),
        action.request == request,
{
    Action { request, trigger_high: false, notice }
}

impl TriggerSequencer {
    /// A sequencer at startup that allows the given numbers of ticks for
    /// the heartbeat and for the status frame.
    pub fn with_timeouts(heartbeat_ticks: u32, status_ticks: u32) -> (sequencer: Self)
        ensures
            sequencer@ == initial(heartbeat_ticks, status_ticks),
    {
        TriggerSequencer {
            state: SequencerState::AwaitingIdentifier,
            intake: HexIdIntake::new(),
            id: CanIdentifier::zero(),
            deadline: None,
            heartbeat_ticks,
            status_ticks,
        }
    }

    /// A sequencer at startup whose timeouts of 1000 ms for the heartbeat
    /// and 250 ms for the status frame are counted in ticks of `timer`;
    /// nothing where one of them cannot be had in ticks.
    pub fn new<const FREQ_HZ: u32>(timer: &MonoTimer<FREQ_HZ>) -> (sequencer: Option<Self>)
        ensures
            match (
                MonoTimer::<FREQ_HZ>::spec_timeout_ticks(HEARTBEAT_TIMEOUT_MS),
                MonoTimer::<FREQ_HZ>::spec_timeout_ticks(STATUS_TIMEOUT_MS),
            ) {
                (Some(heartbeat_ticks), Some(status_ticks)) => sequencer is Some
                    && sequencer.unwrap()@ == initial(heartbeat_ticks, status_ticks),
                _ => sequencer is None,
            },
    {
        match timer.timeout_ticks(HEARTBEAT_TIMEOUT_MS) {
            Some(heartbeat_ticks) => match timer.timeout_ticks(STATUS_TIMEOUT_MS) {
                Some(status_ticks) => Some(Self::with_timeouts(heartbeat_ticks, status_ticks)),
                None => None,
            },
            None => None,
        }
    }

    /// Where in its cycle the sequencer stands.
    pub fn state(&self) -> (state: SequencerState)
        ensures
            state == self@.state,
    {
        self.state
    }

    /// Takes the result of the outside work last asked for and answers with
    /// what to do next.
    ///
    /// An event that the current state has no use for changes nothing: the
    /// request of the state is made again. The one exception is
    /// `Transmitting`, where anything but a successful submission asks for
    /// the device to halt.
    pub fn step(&mut self, event: Event) -> (action: Action)
        ensures
            (final(self)@, action@) == sequencer_next(old(self)@, event@),
    {
        match self.state {
            SequencerState::AwaitingIdentifier => self.identifier_step(event),
            SequencerState::AwaitingHeartbeat => self.waiting_step(event),
            SequencerState::AwaitingStatus => self.waiting_step(event),
            SequencerState::Transmitting => self.transmitting_step(event),
        }
    }

    fn identifier_step(&mut self, event: Event) -> (action: Action)
        requires
            old(self)@.state == SequencerState::AwaitingIdentifier,
        ensures
            (final(self)@, action@) == identifier_next(old(self)@, event@),
    {
        match event {
            Event::Serial(Some(byte)) => {
                match self.intake.feed(byte) {
                    IntakeOutcome::Pending => idle_action(Request::ReadSerial, Notice::Quiet),
                    IntakeOutcome::NoValue => idle_action(Request::ReadSerial, Notice::Quiet),
                    IntakeOutcome::FormatError => idle_action(
                        Request::ReadSerial,
                        Notice::MalformedInput,
                    ),
                    IntakeOutcome::Overflow => idle_action(
                        Request::ReadSerial,
                        Notice::BufferOverflow,
                    ),
                    IntakeOutcome::Value(value) => match CanIdentifier::new(value) {
                        Some(id) => {
                            self.state = SequencerState::AwaitingHeartbeat;
                            self.id = id;
                            self.deadline = None;
                            idle_action(Request::ReadClock, Notice::IdentifierRead(value))
                        },
                        None => idle_action(
                            Request::ReadSerial,
                            Notice::IdentifierOutOfRange(value),
                        ),
                    },
                }
            },
            _ => idle_action(Request::ReadSerial, Notice::Quiet),
        }
    }

    fn waiting_step(&mut self, event: Event) -> (action: Action)
        requires
            old(self)@.state == SequencerState::AwaitingHeartbeat || old(self)@.state
                == SequencerState::AwaitingStatus,
        ensures
            (final(self)@, action@) == waiting_next(old(self)@, event@),
    {
        let for_status = self.state == SequencerState::AwaitingStatus;
        let target = if for_status {
            FrameId::Standard(STATUS_ID)
        } else {
            FrameId::Standard(HEARTBEAT_ID)
        };
        match event {
            Event::Clock(now) => {
                let waiter = match self.deadline {
                    Some(deadline) => FrameWaiter { target, deadline },
                    None => FrameWaiter::wait_for(
                        target,
                        now,
                        if for_status {
                            self.status_ticks
                        } else {
                            self.heartbeat_ticks
                        },
                    ),
                };
                if waiter.timed_out(now) {
                    self.state = SequencerState::AwaitingIdentifier;
                    self.deadline = None;
                    idle_action(
                        Request::ReadSerial,
                        if for_status {
                            Notice::StatusTimeout
                        } else {
                            Notice::HeartbeatTimeout
                        },
                    )
                } else {
                    self.deadline = Some(waiter.deadline);
                    idle_action(Request::PollBus, Notice::Quiet)
                }
            },
            Event::Bus(Some(frame)) => {
                let matched = match self.deadline {
                    Some(deadline) => (FrameWaiter { target, deadline }).offer(frame),
                    None => None,
                };
                match matched {
                    Some(_) => {
                        self.deadline = None;
                        if for_status {
                            self.state = SequencerState::Transmitting;
                            idle_action(
                                Request::Submit(CanFrame::test_frame(self.id)),
                                Notice::Quiet,
                            )
                        } else {
                            self.state = SequencerState::AwaitingStatus;
                            idle_action(Request::ReadClock, Notice::Quiet)
                        }
                    },
                    None => idle_action(Request::ReadClock, Notice::Quiet),
                }
            },
            _ => idle_action(Request::ReadClock, Notice::Quiet),
        }
    }

    fn transmitting_step(&mut self, event: Event) -> (action: Action)
        requires
            old(self)@.state == SequencerState::Transmitting,
        ensures
            (final(self)@, action@) == transmitting_next(old(self)@, event@),
    {
        match event {
            Event::Submitted(true) => {
                self.state = SequencerState::AwaitingIdentifier;
                Action {
                    request: Request::ReadSerial,
                    trigger_high: true,
                    notice: Notice::FrameSent,
                }
            },
            _ => idle_action(Request::Halt, Notice::SubmissionFailed),
        }
    }
}

/// The sequencer after the events of `events` were taken in turn, starting
/// from `start`.
pub open spec fn state_after(start: SequencerView, events: Seq<EventView>) -> SequencerView
    decreases events.len(),
{
    if events.len() == 0 {
        start
    } else {
        sequencer_next(state_after(start, events.drop_last()), events.last()).0
    }
}

/// The state in which the event at position `at` of `events` is taken.
pub open spec fn state_at(
    start: SequencerView,
    events: Seq<EventView>,
    at: int,
) -> SequencerState {
    state_after(start, events.take(at)).state
}

/// The answer to the event at position `at` of `events`.
pub open spec fn action_at(start: SequencerView, events: Seq<EventView>, at: int) -> ActionView {
    sequencer_next(state_after(start, events.take(at)), events[at]).1
}

/// The event is a frame from the bus with the standard identifier `id`.
pub open spec fn delivers(e: EventView, id: u16) -> bool {
    e matches EventView::Bus(Some(frame)) && frame.id == FrameId::Standard(id)
}

/// The events at the positions `accepted`, `heartbeat` and `status` make up
/// one whole cycle for the identifier `id`: the identifier is accepted at the
/// first; from then up to the second the sequencer awaits the heartbeat
/// frame, which the second delivers; from then up to the third it awaits the
/// status frame, which the third delivers and which is answered with the
/// request to submit the test frame for `id`.
pub open spec fn is_cycle(
    start: SequencerView,
    events: Seq<EventView>,
    id: u16,
    accepted: int,
    heartbeat: int,
    status: int,
) -> bool {
    &&& 0 <= accepted < heartbeat < status < events.len()
    &&& id <= MAX_STANDARD_ID
    &&& state_at(start, events, accepted) == SequencerState::AwaitingIdentifier
    &&& action_at(start, events, accepted).notice == Notice::IdentifierRead(id)
    &&& forall|j: int|
        accepted < j <= heartbeat ==> #[trigger] state_at(start, events, j)
            == SequencerState::AwaitingHeartbeat
    &&& delivers(events[heartbeat], HEARTBEAT_ID)
    &&& forall|j: int|
        heartbeat < j <= status ==> #[trigger] state_at(start, events, j)
            == SequencerState::AwaitingStatus
    &&& delivers(events[status], STATUS_ID)
    &&& action_at(start, events, status).request == RequestView::Submit(test_frame_view(id))
}

/// Taking one more event is one more step.
pub proof fn lemma_state_after_next(start: SequencerView, events: Seq<EventView>, at: int)
    requires
        0 <= at < events.len(),
    ensures
        state_after(start, events.take(at + 1)) == sequencer_next(
            state_after(start, events.take(at)),
            events[at],
        ).0,
{
    assert(events.take(at + 1).drop_last() =~= events.take(at));
}

/// A sequencer that awaits the heartbeat frame has accepted an identifier
/// and has awaited the heartbeat frame ever since.
proof fn lemma_heartbeat_entry(start: SequencerView, events: Seq<EventView>, at: int) -> (accepted:
    int)
    requires
        start.state == SequencerState::AwaitingIdentifier,
        0 <= at <= events.len(),
        state_at(start, events, at) == SequencerState::AwaitingHeartbeat,
    ensures
        0 <= accepted < at,
        state_at(start, events, accepted) == SequencerState::AwaitingIdentifier,
        action_at(start, events, accepted).notice == Notice::IdentifierRead(
            state_after(start, events.take(at)).id,
        ),
        state_after(start, events.take(at)).id <= MAX_STANDARD_ID,
        forall|j: int|
            accepted < j <= at ==> #[trigger] state_at(start, events, j)
                == SequencerState::AwaitingHeartbeat,
    decreases at,
{
    if at == 0 {
        assert(events.take(0) =~= Seq::<EventView>::empty());
        0
    } else {
        lemma_state_after_next(start, events, at - 1);
        let before = state_after(start, events.take(at - 1));
        if before.state == SequencerState::AwaitingHeartbeat {
            lemma_heartbeat_entry(start, events, at - 1)
        } else {
            at - 1
        }
    }
}

/// A sequencer that awaits the status frame was brought there by the
/// heartbeat frame and has awaited the status frame ever since.
proof fn lemma_status_entry(start: SequencerView, events: Seq<EventView>, at: int) -> (heartbeat:
    int)
    requires
        start.state == SequencerState::AwaitingIdentifier,
        0 <= at <= events.len(),
        state_at(start, events, at) == SequencerState::AwaitingStatus,
    ensures
        0 <= heartbeat < at,
        state_at(start, events, heartbeat) == SequencerState::AwaitingHeartbeat,
        delivers(events[heartbeat], HEARTBEAT_ID),
        state_after(start, events.take(heartbeat)).id == state_after(start, events.take(at)).id,
        forall|j: int|
            heartbeat < j <= at ==> #[trigger] state_at(start, events, j)
                == SequencerState::AwaitingStatus,
    decreases at,
{
    if at == 0 {
        assert(events.take(0) =~= Seq::<EventView>::empty());
        0
    } else {
        lemma_state_after_next(start, events, at - 1);
        let before = state_after(start, events.take(at - 1));
        if before.state == SequencerState::AwaitingStatus {
            lemma_status_entry(start, events, at - 1)
        } else {
            at - 1
        }
    }
}

/// The test frame is never asked to be submitted before the heartbeat frame
/// and then the status frame were seen in the same cycle.
///
/// Whatever events a sequencer is handed from startup on: where it answers
/// one with the request to submit, that event delivers the status frame,
/// and the events before it hold a whole cycle that ends there. In that
/// cycle the heartbeat frame is taken once, which ends the wait for it, and
/// the status frame once, which ends the cycle; the frame to submit is the
/// test frame for the identifier accepted at the cycle's start. The result
/// names the identifier and the positions of its acceptance and of the
/// heartbeat frame.
pub proof fn submit_follows_heartbeat_then_status(
    start: SequencerView,
    events: Seq<EventView>,
    at: int,
) -> (cycle: (u16, int, int))
    requires
        start.state == SequencerState::AwaitingIdentifier,
        0 <= at < events.len(),
        action_at(start, events, at).request is Submit,
    ensures
        is_cycle(start, events, cycle.0, cycle.1, cycle.2, at),
{
    let before = state_after(start, events.take(at));
    let heartbeat = lemma_status_entry(start, events, at);
    let accepted = lemma_heartbeat_entry(start, events, heartbeat);
    (before.id, accepted, heartbeat)
}

/// The states follow one another in a circle: a step leaves the state as
/// it is, moves it on to the next one, or gives the cycle up and goes back
/// to awaiting an identifier.
pub open spec fn successor(state: SequencerState) -> SequencerState {
    match state {
        SequencerState::AwaitingIdentifier => SequencerState::AwaitingHeartbeat,
        SequencerState::AwaitingHeartbeat => SequencerState::AwaitingStatus,
        SequencerState::AwaitingStatus => SequencerState::Transmitting,
        SequencerState::Transmitting => SequencerState::AwaitingIdentifier,
    }
}

/// No step skips a state: whatever the event, the state afterwards is the
/// one before, its successor, or `AwaitingIdentifier`; and the timeouts that
/// the sequencer was made with never change.
pub proof fn states_follow_the_cycle(s: SequencerView, e: EventView)
    ensures
        ({
            let after = sequencer_next(s, e).0;
            &&& after.state == s.state || after.state == successor(s.state) || after.state
                == SequencerState::AwaitingIdentifier
            &&& after.heartbeat_ticks == s.heartbeat_ticks
            &&& after.status_ticks == s.status_ticks
        }),
{
}

/// A wait ends the cycle as soon as the clock shows that its time is up:
/// the sequencer reports the timeout, asks for nothing on the bus, and
/// awaits an identifier again.
pub proof fn expired_wait_gives_up(s: SequencerView, now: u32)
    requires
        s.state == SequencerState::AwaitingHeartbeat || s.state == SequencerState::AwaitingStatus,
        s.deadline matches Some(deadline) && deadline.expired_at(now),
    ensures
        sequencer_next(s, EventView::Clock(now)).0.state == SequencerState::AwaitingIdentifier,
        sequencer_next(s, EventView::Clock(now)).1 == idle(
            RequestView::ReadSerial,
            if s.state == SequencerState::AwaitingStatus {
                Notice::StatusTimeout
            } else {
                Notice::HeartbeatTimeout
            },
        ),
{
}

/// An accepted identifier reaches the bus or the device stops: once the
/// test frame is to be submitted, the only way on is the news that the
/// transport took it, and everything else is answered with `Halt`.
pub proof fn failed_submission_halts(s: SequencerView, e: EventView)
    requires
        s.state == SequencerState::Transmitting,
    ensures
        e == EventView::Submitted(true) ==> sequencer_next(s, e).0.state
            == SequencerState::AwaitingIdentifier,
        e != EventView::Submitted(true) ==> sequencer_next(s, e) == (
            s,
            idle(RequestView::Halt, Notice::SubmissionFailed),
        ),
{
}

/// The trigger output is driven high by one step only: the one that takes
/// the news of a successful submission. Every other answer drives it low.
pub proof fn trigger_marks_submission(s: SequencerView, e: EventView)
    ensures
        sequencer_next(s, e).1.trigger_high <==> s.state == SequencerState::Transmitting && e
            == EventView::Submitted(true),
        sequencer_next(s, e).1.trigger_high <==> sequencer_next(s, e).1.notice == Notice::FrameSent,
{
}

} // verus!

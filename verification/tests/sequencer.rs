use can_trigger::frame::{CanFrame, FrameId, HEARTBEAT_ID, STATUS_ID};
use can_trigger::monotimer::MonoTimer;
use can_trigger::sequencer::{
    Action, Event, Notice, Request, SequencerState, TriggerSequencer, HEARTBEAT_TIMEOUT_MS,
    STATUS_TIMEOUT_MS,
};

fn standard(raw: u16) -> CanFrame {
    CanFrame::new(FrameId::Standard(raw), &[0x11; 8]).unwrap()
}

fn test_frame(raw: u16) -> CanFrame {
    CanFrame::new(FrameId::Standard(raw), &[0xFF; 8]).unwrap()
}

fn idle(request: Request, notice: Notice) -> Action {
    Action {
        request,
        trigger_high: false,
        notice,
    }
}

fn type_line(sequencer: &mut TriggerSequencer, text: &[u8]) -> Vec<Action> {
    text.iter()
        .map(|b| sequencer.step(Event::Serial(Some(*b))))
        .collect()
}

fn accept(sequencer: &mut TriggerSequencer, text: &[u8]) {
    let actions = type_line(sequencer, text);
    assert_eq!(actions.last().unwrap().request, Request::ReadClock);
    assert_eq!(sequencer.state(), SequencerState::AwaitingHeartbeat);
}

#[test]
fn the_timeouts_are_a_second_and_a_quarter() {
    assert_eq!(HEARTBEAT_TIMEOUT_MS, 1000);
    assert_eq!(STATUS_TIMEOUT_MS, 250);
}

#[test]
fn a_sequencer_starts_awaiting_an_identifier() {
    let sequencer = TriggerSequencer::with_timeouts(1000, 250);
    assert_eq!(sequencer.state(), SequencerState::AwaitingIdentifier);
}

#[test]
fn end_to_end_the_frame_is_sent_after_heartbeat_and_status() {
    let timer = MonoTimer::<64_000_000>::new(64_000_000);
    let mut sequencer = TriggerSequencer::new(&timer).unwrap();

    assert_eq!(
        sequencer.step(Event::Serial(Some(b'5'))),
        idle(Request::ReadSerial, Notice::Quiet)
    );
    assert_eq!(
        sequencer.step(Event::Serial(Some(b'5'))),
        idle(Request::ReadSerial, Notice::Quiet)
    );
    assert_eq!(
        sequencer.step(Event::Serial(Some(b'\n'))),
        idle(Request::ReadClock, Notice::IdentifierRead(0x55))
    );
    assert_eq!(sequencer.state(), SequencerState::AwaitingHeartbeat);

    assert_eq!(
        sequencer.step(Event::Clock(1_000)),
        idle(Request::PollBus, Notice::Quiet)
    );
    assert_eq!(
        sequencer.step(Event::Bus(Some(standard(0x55E)))),
        idle(Request::ReadClock, Notice::Quiet)
    );
    assert_eq!(sequencer.state(), SequencerState::AwaitingStatus);

    assert_eq!(
        sequencer.step(Event::Clock(2_000)),
        idle(Request::PollBus, Notice::Quiet)
    );
    assert_eq!(
        sequencer.step(Event::Bus(Some(standard(0x197)))),
        idle(Request::Submit(test_frame(0x55)), Notice::Quiet)
    );
    assert_eq!(sequencer.state(), SequencerState::Transmitting);

    assert_eq!(
        sequencer.step(Event::Submitted(true)),
        Action {
            request: Request::ReadSerial,
            trigger_high: true,
            notice: Notice::FrameSent,
        }
    );
    assert_eq!(sequencer.state(), SequencerState::AwaitingIdentifier);

    assert_eq!(
        sequencer.step(Event::Serial(None)),
        idle(Request::ReadSerial, Notice::Quiet)
    );
}

#[test]
fn the_submitted_frame_carries_the_identifier_and_eight_fill_bytes() {
    let mut sequencer = TriggerSequencer::with_timeouts(100, 100);
    accept(&mut sequencer, b"7fF\n");
    sequencer.step(Event::Clock(0));
    sequencer.step(Event::Bus(Some(standard(HEARTBEAT_ID))));
    sequencer.step(Event::Clock(0));
    let action = sequencer.step(Event::Bus(Some(standard(STATUS_ID))));
    match action.request {
        Request::Submit(frame) => {
            assert_eq!(frame.id(), FrameId::Standard(0x7FF));
            assert_eq!(frame.data(), &[0xFF; 8]);
        }
        other => panic!("expected a submission, got {:?}", other),
    }
}

#[test]
fn end_to_end_an_identifier_of_twelve_bits_is_refused() {
    let mut sequencer = TriggerSequencer::with_timeouts(1000, 250);
    let actions = type_line(&mut sequencer, b"800\n");
    assert_eq!(
        actions,
        vec![
            idle(Request::ReadSerial, Notice::Quiet),
            idle(Request::ReadSerial, Notice::Quiet),
            idle(Request::ReadSerial, Notice::Quiet),
            idle(Request::ReadSerial, Notice::IdentifierOutOfRange(0x800)),
        ]
    );
    assert_eq!(sequencer.state(), SequencerState::AwaitingIdentifier);
    assert!(actions.iter().all(|a| !a.trigger_high));
    assert!(actions
        .iter()
        .all(|a| !matches!(a.request, Request::Submit(_) | Request::PollBus)));
}

#[test]
fn the_largest_identifier_is_accepted_and_the_next_value_is_not() {
    let mut sequencer = TriggerSequencer::with_timeouts(1000, 250);
    let actions = type_line(&mut sequencer, b"7ff\n");
    assert_eq!(
        actions[3],
        idle(Request::ReadClock, Notice::IdentifierRead(0x7FF))
    );
    let mut sequencer = TriggerSequencer::with_timeouts(1000, 250);
    let actions = type_line(&mut sequencer, b"ffff\n");
    assert_eq!(
        actions[4],
        idle(Request::ReadSerial, Notice::IdentifierOutOfRange(0xFFFF))
    );
}

#[test]
fn input_errors_are_reported_and_the_sequencer_stays() {
    let mut sequencer = TriggerSequencer::with_timeouts(1000, 250);
    let actions = type_line(&mut sequencer, b"12345\n");
    assert_eq!(
        actions[5],
        idle(Request::ReadSerial, Notice::MalformedInput)
    );
    let actions = type_line(&mut sequencer, b"123456789");
    assert_eq!(
        actions[8],
        idle(Request::ReadSerial, Notice::BufferOverflow)
    );
    let actions = type_line(&mut sequencer, b"zz\n\n");
    assert!(actions
        .iter()
        .all(|a| *a == idle(Request::ReadSerial, Notice::Quiet)));
    assert_eq!(sequencer.state(), SequencerState::AwaitingIdentifier);
    accept(&mut sequencer, b"55\n");
}

#[test]
fn a_status_frame_before_the_heartbeat_is_lost() {
    let mut sequencer = TriggerSequencer::with_timeouts(1000, 250);
    accept(&mut sequencer, b"55\n");
    sequencer.step(Event::Clock(0));
    assert_eq!(
        sequencer.step(Event::Bus(Some(standard(STATUS_ID)))),
        idle(Request::ReadClock, Notice::Quiet)
    );
    assert_eq!(sequencer.state(), SequencerState::AwaitingHeartbeat);
    sequencer.step(Event::Clock(1));
    sequencer.step(Event::Bus(Some(standard(HEARTBEAT_ID))));
    assert_eq!(sequencer.state(), SequencerState::AwaitingStatus);
    sequencer.step(Event::Clock(2));
    assert_eq!(
        sequencer.step(Event::Bus(Some(standard(HEARTBEAT_ID)))),
        idle(Request::ReadClock, Notice::Quiet)
    );
    assert_eq!(sequencer.state(), SequencerState::AwaitingStatus);
}

#[test]
fn an_extended_frame_with_the_same_number_is_no_match() {
    let mut sequencer = TriggerSequencer::with_timeouts(1000, 250);
    accept(&mut sequencer, b"55\n");
    sequencer.step(Event::Clock(0));
    let extended = CanFrame::new(FrameId::Extended(0x55E), &[]).unwrap();
    assert_eq!(
        sequencer.step(Event::Bus(Some(extended))),
        idle(Request::ReadClock, Notice::Quiet)
    );
    assert_eq!(sequencer.state(), SequencerState::AwaitingHeartbeat);
}

#[test]
fn a_frame_offered_before_the_wait_began_is_dropped() {
    let mut sequencer = TriggerSequencer::with_timeouts(1000, 250);
    accept(&mut sequencer, b"55\n");
    assert_eq!(
        sequencer.step(Event::Bus(Some(standard(HEARTBEAT_ID)))),
        idle(Request::ReadClock, Notice::Quiet)
    );
    assert_eq!(sequencer.state(), SequencerState::AwaitingHeartbeat);
}

#[test]
fn a_heartbeat_that_does_not_come_ends_the_cycle() {
    let mut sequencer = TriggerSequencer::with_timeouts(1000, 250);
    accept(&mut sequencer, b"55\n");
    assert_eq!(
        sequencer.step(Event::Clock(5_000)),
        idle(Request::PollBus, Notice::Quiet)
    );
    assert_eq!(
        sequencer.step(Event::Bus(None)),
        idle(Request::ReadClock, Notice::Quiet)
    );
    assert_eq!(
        sequencer.step(Event::Clock(5_999)),
        idle(Request::PollBus, Notice::Quiet)
    );
    assert_eq!(
        sequencer.step(Event::Bus(Some(standard(0x123)))),
        idle(Request::ReadClock, Notice::Quiet)
    );
    assert_eq!(
        sequencer.step(Event::Clock(6_000)),
        idle(Request::ReadSerial, Notice::HeartbeatTimeout)
    );
    assert_eq!(sequencer.state(), SequencerState::AwaitingIdentifier);
    accept(&mut sequencer, b"1a3\n");
}

#[test]
fn a_status_frame_that_does_not_come_ends_the_cycle() {
    let mut sequencer = TriggerSequencer::with_timeouts(1000, 250);
    accept(&mut sequencer, b"55\n");
    sequencer.step(Event::Clock(0));
    sequencer.step(Event::Bus(Some(standard(HEARTBEAT_ID))));
    assert_eq!(
        sequencer.step(Event::Clock(900)),
        idle(Request::PollBus, Notice::Quiet)
    );
    assert_eq!(
        sequencer.step(Event::Clock(1_149)),
        idle(Request::PollBus, Notice::Quiet)
    );
    assert_eq!(
        sequencer.step(Event::Clock(1_150)),
        idle(Request::ReadSerial, Notice::StatusTimeout)
    );
    assert_eq!(sequencer.state(), SequencerState::AwaitingIdentifier);
    assert_eq!(
        sequencer.step(Event::Bus(Some(standard(STATUS_ID)))),
        idle(Request::ReadSerial, Notice::Quiet)
    );
}

#[test]
fn a_wait_across_the_wraparound_times_out_on_time() {
    let mut sequencer = TriggerSequencer::with_timeouts(1000, 250);
    accept(&mut sequencer, b"55\n");
    sequencer.step(Event::Clock(u32::MAX - 99));
    assert_eq!(
        sequencer.step(Event::Clock(899)),
        idle(Request::PollBus, Notice::Quiet)
    );
    assert_eq!(
        sequencer.step(Event::Clock(900)),
        idle(Request::ReadSerial, Notice::HeartbeatTimeout)
    );
}

#[test]
fn a_timeout_of_no_ticks_ends_the_cycle_at_the_first_reading() {
    let mut sequencer = TriggerSequencer::with_timeouts(0, 250);
    accept(&mut sequencer, b"55\n");
    assert_eq!(
        sequencer.step(Event::Clock(42)),
        idle(Request::ReadSerial, Notice::HeartbeatTimeout)
    );
}

#[test]
fn a_refused_submission_halts() {
    let mut sequencer = TriggerSequencer::with_timeouts(1000, 250);
    accept(&mut sequencer, b"55\n");
    sequencer.step(Event::Clock(0));
    sequencer.step(Event::Bus(Some(standard(HEARTBEAT_ID))));
    sequencer.step(Event::Clock(0));
    sequencer.step(Event::Bus(Some(standard(STATUS_ID))));
    assert_eq!(
        sequencer.step(Event::Submitted(false)),
        idle(Request::Halt, Notice::SubmissionFailed)
    );
    assert_eq!(sequencer.state(), SequencerState::Transmitting);
}

#[test]
fn anything_but_a_taken_frame_halts_while_transmitting() {
    let events: [fn() -> Event; 5] = [
        || Event::Serial(Some(b'5')),
        || Event::Serial(None),
        || Event::Clock(3),
        || Event::Bus(None),
        || Event::Bus(Some(CanFrame::new(FrameId::Standard(0x197), &[]).unwrap())),
    ];
    for event in events {
        let mut sequencer = TriggerSequencer::with_timeouts(1000, 250);
        accept(&mut sequencer, b"55\n");
        sequencer.step(Event::Clock(0));
        sequencer.step(Event::Bus(Some(standard(HEARTBEAT_ID))));
        sequencer.step(Event::Clock(0));
        sequencer.step(Event::Bus(Some(standard(STATUS_ID))));
        assert_eq!(
            sequencer.step(event()),
            idle(Request::Halt, Notice::SubmissionFailed)
        );
    }
}

#[test]
fn events_without_use_repeat_the_request_of_the_state() {
    let mut sequencer = TriggerSequencer::with_timeouts(1000, 250);
    for event in [
        Event::Serial(None),
        Event::Clock(9),
        Event::Bus(None),
        Event::Bus(Some(standard(HEARTBEAT_ID))),
        Event::Submitted(true),
        Event::Submitted(false),
    ] {
        assert_eq!(
            sequencer.step(event),
            idle(Request::ReadSerial, Notice::Quiet)
        );
        assert_eq!(sequencer.state(), SequencerState::AwaitingIdentifier);
    }
    accept(&mut sequencer, b"55\n");
    for event in [
        Event::Serial(Some(b'1')),
        Event::Serial(None),
        Event::Submitted(true),
        Event::Bus(None),
    ] {
        assert_eq!(
            sequencer.step(event),
            idle(Request::ReadClock, Notice::Quiet)
        );
        assert_eq!(sequencer.state(), SequencerState::AwaitingHeartbeat);
    }
}

#[test]
fn bytes_typed_during_a_wait_do_not_reach_the_intake() {
    let mut sequencer = TriggerSequencer::with_timeouts(10, 10);
    accept(&mut sequencer, b"55\n");
    sequencer.step(Event::Serial(Some(b'1')));
    sequencer.step(Event::Serial(Some(b'2')));
    sequencer.step(Event::Clock(0));
    sequencer.step(Event::Clock(10));
    assert_eq!(sequencer.state(), SequencerState::AwaitingIdentifier);
    let actions = type_line(&mut sequencer, b"3\n");
    assert_eq!(
        actions[1],
        idle(Request::ReadClock, Notice::IdentifierRead(3))
    );
}

#[test]
fn the_trigger_is_high_for_one_step_in_a_cycle() {
    let mut sequencer = TriggerSequencer::with_timeouts(1000, 250);
    let mut levels: Vec<bool> = Vec::new();
    for _ in 0..3 {
        for action in type_line(&mut sequencer, b"55\n") {
            levels.push(action.trigger_high);
        }
        for event in [
            Event::Clock(0),
            Event::Bus(Some(standard(HEARTBEAT_ID))),
            Event::Clock(0),
            Event::Bus(Some(standard(STATUS_ID))),
            Event::Submitted(true),
        ] {
            levels.push(sequencer.step(event).trigger_high);
        }
    }
    let expected: Vec<bool> = (0..24).map(|i| i % 8 == 7).collect();
    assert_eq!(levels, expected);
}

#[test]
fn a_sequencer_takes_its_timeouts_from_the_timer() {
    let timer = MonoTimer::<1000>::new(1000);
    let mut sequencer = TriggerSequencer::new(&timer).unwrap();
    accept(&mut sequencer, b"55\n");
    sequencer.step(Event::Clock(0));
    assert_eq!(
        sequencer.step(Event::Clock(999)),
        idle(Request::PollBus, Notice::Quiet)
    );
    assert_eq!(
        sequencer.step(Event::Clock(1000)),
        idle(Request::ReadSerial, Notice::HeartbeatTimeout)
    );
    accept(&mut sequencer, b"55\n");
    sequencer.step(Event::Clock(0));
    sequencer.step(Event::Bus(Some(standard(HEARTBEAT_ID))));
    sequencer.step(Event::Clock(5000));
    assert_eq!(
        sequencer.step(Event::Clock(5249)),
        idle(Request::PollBus, Notice::Quiet)
    );
    assert_eq!(
        sequencer.step(Event::Clock(5250)),
        idle(Request::ReadSerial, Notice::StatusTimeout)
    );
}

#[test]
fn a_timer_too_fast_for_the_timeouts_gives_no_sequencer() {
    let timer = MonoTimer::<4_000_000_000>::new(4_000_000_000);
    assert!(TriggerSequencer::new(&timer).is_none());
}

fn next_random(state: &mut u64) -> u64 {
    *state = state
        .wrapping_mul(6364136223846793005)
        .wrapping_add(1442695040888963407);
    *state >> 33
}

fn random_event(state: &mut u64) -> Event {
    match next_random(state) % 12 {
        0 => Event::Serial(Some(b'5')),
        1 => Event::Serial(Some(b'\n')),
        2 => Event::Serial(Some(b'8')),
        3 => Event::Serial(None),
        4 | 5 => Event::Clock((next_random(state) % 400) as u32),
        6 | 7 => Event::Bus(Some(standard(HEARTBEAT_ID))),
        8 | 9 => Event::Bus(Some(standard(STATUS_ID))),
        10 => Event::Bus(Some(standard(0x123))),
        _ => Event::Submitted(true),
    }
}

#[test]
fn on_random_events_a_submission_always_ends_a_whole_cycle() {
    let mut random = 0x5EED_u64;
    let mut submissions = 0;
    for _ in 0..200 {
        let mut sequencer = TriggerSequencer::with_timeouts(300, 300);
        let mut heartbeat_taken = false;
        for _ in 0..400 {
            let before = sequencer.state();
            let action = sequencer.step(random_event(&mut random));
            let after = sequencer.state();
            if before == SequencerState::AwaitingHeartbeat && after == SequencerState::AwaitingStatus
            {
                heartbeat_taken = true;
            }
            if after == SequencerState::AwaitingIdentifier
                || after == SequencerState::AwaitingHeartbeat
            {
                heartbeat_taken = false;
            }
            if let Request::Submit(frame) = &action.request {
                assert!(heartbeat_taken);
                assert_eq!(before, SequencerState::AwaitingStatus);
                assert_eq!(after, SequencerState::Transmitting);
                assert_eq!(frame.data(), &[0xFF; 8]);
                submissions += 1;
            }
            assert_eq!(
                action.trigger_high,
                before == SequencerState::Transmitting && action.notice == Notice::FrameSent
            );
        }
    }
    assert!(submissions > 0);
}

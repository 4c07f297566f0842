use hyper_rustls::error::ErrorKind;
use hyper_rustls::progress::Progress;
use hyper_rustls::tls_stream::{
    surface, Action, Call, Event, Failure, HandshakeState, Op, Step, StreamError, TlsStream,
};

type Stream = TlsStream<&'static str, &'static str>;
type TestEvent = Event<&'static str, &'static str, &'static str>;
type TestStep = Step<&'static str, &'static str>;
type Outcome = Progress<usize, StreamError<&'static str, &'static str>>;

/// Runs one operation: performs each action by taking the next scripted
/// event, and records the actions that the adapter asked for.
fn run(
    stream: &mut Stream,
    op: Op,
    wants_write_at_first: bool,
    script: Vec<(TestEvent, bool)>,
) -> (Outcome, Vec<Action>) {
    let mut asked = Vec::new();
    let mut script = script.into_iter();
    let mut step: TestStep = stream.begin(op, wants_write_at_first);
    loop {
        match step {
            Step::Return(outcome) => {
                assert!(script.next().is_none(), "the script was not used up");
                return (outcome, asked);
            },
            Step::Continue(call) => {
                assert_eq!(call.op, op);
                asked.push(call.awaiting);
                let (event, wants_write) = script.next().expect("the script ended too early");
                step = stream.advance(call, event, wants_write);
            },
        }
    }
}

fn established() -> Stream {
    let mut stream = Stream::new("handshake");
    let (outcome, _) =
        run(&mut stream, Op::Flush, false, vec![]);
    assert_eq!(outcome, Progress::Done(0));
    let call = Call { op: Op::Read(1), awaiting: Action::Handshake, written: 0 };
    let step: TestStep = stream.advance(call, Event::Handshake(Progress::Done("stream")), false);
    assert_eq!(
        step,
        Step::Continue(Call { op: Op::Read(1), awaiting: Action::ReadPlaintext, written: 0 })
    );
    assert_eq!(stream.state(), HandshakeState::Established);
    stream
}

#[test]
fn new_stream_is_handshaking() {
    let mut stream = Stream::new("handshake");
    assert_eq!(stream.state(), HandshakeState::Handshaking);
    assert_eq!(stream.handshake_count(), 0);
    assert_eq!(stream.handshake_mut(), Some(&mut "handshake"));
    assert_eq!(stream.stream_mut(), None);
}

#[test]
fn handshake_mut_lets_the_caller_drive_the_handshake() {
    let mut stream: TlsStream<Vec<u8>, ()> = TlsStream::new(vec![]);
    stream.handshake_mut().unwrap().push(22);
    assert_eq!(stream.handshake_mut().unwrap().as_slice(), &[22]);
    assert_eq!(stream.state(), HandshakeState::Handshaking);
}

#[test]
fn read_during_handshake_waits_for_the_connection() {
    let mut stream = Stream::new("handshake");
    let (outcome, asked) = run(
        &mut stream,
        Op::Read(100),
        false,
        vec![(Event::Handshake(Progress::Pending), false)],
    );
    assert_eq!(outcome, Progress::Pending);
    assert_eq!(asked, vec![Action::Handshake]);
    assert_eq!(stream.state(), HandshakeState::Handshaking);
    assert_eq!(stream.handshake_count(), 0);
}

#[test]
fn read_completes_the_handshake_and_reads_in_the_same_call() {
    let mut stream = Stream::new("handshake");
    let (outcome, asked) = run(
        &mut stream,
        Op::Read(100),
        false,
        vec![(Event::Handshake(Progress::Done("stream")), false), (Event::Plaintext(5), false)],
    );
    assert_eq!(outcome, Progress::Done(5));
    assert_eq!(asked, vec![Action::Handshake, Action::ReadPlaintext]);
    assert_eq!(stream.state(), HandshakeState::Established);
    assert_eq!(stream.stream_mut(), Some(&mut "stream"));
    assert_eq!(stream.handshake_mut(), None);
}

#[test]
fn write_completes_the_handshake_and_writes_in_the_same_call() {
    let mut stream = Stream::new("handshake");
    let (outcome, asked) = run(
        &mut stream,
        Op::Write(3),
        false,
        vec![
            (Event::Handshake(Progress::Done("stream")), true),
            (Event::Accepted(3), true),
            (Event::CiphertextOut(Progress::Done(25)), false),
        ],
    );
    assert_eq!(outcome, Progress::Done(3));
    assert_eq!(asked, vec![Action::Handshake, Action::WritePlaintext, Action::WriteCiphertext]);
    assert_eq!(stream.state(), HandshakeState::Established);
}

#[test]
fn failed_handshake_aborts_the_connection() {
    let mut stream = Stream::new("handshake");
    let (outcome, asked) = run(
        &mut stream,
        Op::Read(100),
        false,
        vec![(Event::Handshake(Progress::Failed(Failure::Protocol("bad certificate"))), false)],
    );
    assert_eq!(outcome, Progress::Failed(StreamError::ConnectionAborted("bad certificate")));
    assert_eq!(asked, vec![Action::Handshake]);
    assert_eq!(stream.state(), HandshakeState::Handshaking);
    assert_eq!(stream.handshake_count(), 0);
}

#[test]
fn transport_failure_during_handshake_is_passed_on() {
    let mut stream = Stream::new("handshake");
    let (outcome, _) = run(
        &mut stream,
        Op::Write(10),
        false,
        vec![(Event::Handshake(Progress::Failed(Failure::Transport("reset by peer"))), false)],
    );
    assert_eq!(outcome, Progress::Failed(StreamError::Transport("reset by peer")));
}

#[test]
fn flush_and_shutdown_during_handshake_do_nothing() {
    let mut stream = Stream::new("handshake");
    for op in [Op::Flush, Op::Shutdown] {
        for wants_write in [false, true] {
            let (outcome, asked) = run(&mut stream, op, wants_write, vec![]);
            assert_eq!(outcome, Progress::Done(0));
            assert!(asked.is_empty());
        }
    }
    assert_eq!(stream.state(), HandshakeState::Handshaking);
}

#[test]
fn handshake_completes_exactly_once() {
    let mut stream = Stream::new("handshake");
    let mut handshakes_driven = 0;
    let mut completions = 0;
    let mut reads = 0;
    while reads < 20 {
        let before = stream.state();
        let mut step: TestStep = stream.begin(Op::Read(8), false);
        loop {
            match step {
                Step::Return(_) => break,
                Step::Continue(call) => {
                    let event = match call.awaiting {
                        Action::Handshake => {
                            handshakes_driven += 1;
                            if handshakes_driven < 3 {
                                Event::Handshake(Progress::Pending)
                            } else {
                                Event::Handshake(Progress::Done("stream"))
                            }
                        },
                        Action::ReadPlaintext => Event::Plaintext(8),
                        other => panic!("unexpected action {:?}", other),
                    };
                    step = stream.advance(call, event, false);
                },
            }
        }
        if before == HandshakeState::Handshaking && stream.state() == HandshakeState::Established {
            completions += 1;
        }
        assert!(!(before == HandshakeState::Established && stream.state() == HandshakeState::Handshaking));
        reads += 1;
    }
    assert_eq!(handshakes_driven, 3);
    assert_eq!(completions, 1);
    assert_eq!(stream.handshake_count(), 1);
    assert_eq!(stream.state(), HandshakeState::Established);
}

#[test]
fn established_stream_ignores_handshake_events() {
    let mut stream = established();
    let call = Call { op: Op::Read(4), awaiting: Action::Handshake, written: 0 };
    let step: TestStep = stream.advance(call, Event::Handshake(Progress::Done("again")), false);
    assert_eq!(step, Step::Return(Progress::Pending));
    assert_eq!(stream.stream_mut(), Some(&mut "stream"));
    assert_eq!(stream.handshake_count(), 1);
    let failed: TestStep = stream.advance(
        call,
        Event::Handshake(Progress::Failed(Failure::Protocol("late"))),
        false,
    );
    assert_eq!(failed, Step::Return(Progress::Pending));
    assert_eq!(stream.state(), HandshakeState::Established);
}

#[test]
fn handshaking_stream_ignores_other_events() {
    let mut stream = Stream::new("handshake");
    let call = Call { op: Op::Read(4), awaiting: Action::ReadPlaintext, written: 0 };
    let step: TestStep = stream.advance(call, Event::Plaintext(4), false);
    assert_eq!(step, Step::Return(Progress::Pending));
    let call = Call { op: Op::Read(4), awaiting: Action::ReadPlaintext, written: 0 };
    let step: TestStep = stream.advance(call, Event::Handshake(Progress::Done("stream")), false);
    assert_eq!(step, Step::Return(Progress::Pending));
    let call = Call { op: Op::Read(4), awaiting: Action::Handshake, written: 0 };
    let step: TestStep = stream.advance(call, Event::Plaintext(4), false);
    assert_eq!(step, Step::Return(Progress::Pending));
    assert_eq!(stream.state(), HandshakeState::Handshaking);
    assert_eq!(stream.handshake_mut(), Some(&mut "handshake"));
}

#[test]
fn read_takes_buffered_plaintext_first() {
    let mut stream = established();
    let (outcome, asked) = run(&mut stream, Op::Read(16), false, vec![(Event::Plaintext(16), false)]);
    assert_eq!(outcome, Progress::Done(16));
    assert_eq!(asked, vec![Action::ReadPlaintext]);
}

#[test]
fn read_pumps_ciphertext_when_no_plaintext_is_buffered() {
    let mut stream = established();
    let (outcome, asked) = run(
        &mut stream,
        Op::Read(16),
        false,
        vec![
            (Event::Plaintext(0), false),
            (Event::CiphertextIn(Progress::Done(5)), false),
            (Event::Plaintext(0), false),
            (Event::CiphertextIn(Progress::Done(40)), false),
            (Event::Plaintext(11), false),
        ],
    );
    assert_eq!(outcome, Progress::Done(11));
    assert_eq!(
        asked,
        vec![
            Action::ReadPlaintext,
            Action::ReadCiphertext,
            Action::ReadPlaintext,
            Action::ReadCiphertext,
            Action::ReadPlaintext
        ]
    );
}

#[test]
fn read_reports_clean_end_of_stream() {
    let mut stream = established();
    let (outcome, asked) = run(
        &mut stream,
        Op::Read(16),
        false,
        vec![(Event::Plaintext(0), false), (Event::CiphertextIn(Progress::Done(0)), false)],
    );
    assert_eq!(outcome, Progress::Done(0));
    assert_eq!(asked, vec![Action::ReadPlaintext, Action::ReadCiphertext]);
    assert_eq!(stream.state(), HandshakeState::Established);
}

#[test]
fn read_waits_when_the_connection_is_not_ready() {
    let mut stream = established();
    let (outcome, asked) = run(
        &mut stream,
        Op::Read(16),
        false,
        vec![(Event::Plaintext(0), false), (Event::CiphertextIn(Progress::Pending), false)],
    );
    assert_eq!(outcome, Progress::Pending);
    assert_eq!(asked, vec![Action::ReadPlaintext, Action::ReadCiphertext]);
}

#[test]
fn read_surfaces_transport_error_unchanged() {
    let mut stream = established();
    let (outcome, _) = run(
        &mut stream,
        Op::Read(16),
        false,
        vec![
            (Event::Plaintext(0), false),
            (Event::CiphertextIn(Progress::Failed(Failure::Transport("broken pipe"))), false),
        ],
    );
    assert_eq!(outcome, Progress::Failed(StreamError::Transport("broken pipe")));
}

#[test]
fn read_surfaces_protocol_error_as_aborted_connection() {
    let mut stream = established();
    let (outcome, _) = run(
        &mut stream,
        Op::Read(16),
        false,
        vec![
            (Event::Plaintext(0), false),
            (Event::CiphertextIn(Progress::Failed(Failure::Protocol("bad record mac"))), true),
        ],
    );
    assert_eq!(outcome, Progress::Failed(StreamError::ConnectionAborted("bad record mac")));
}

#[test]
fn read_into_no_room_is_not_ready() {
    let mut stream = established();
    let (outcome, asked) = run(&mut stream, Op::Read(0), false, vec![]);
    assert_eq!(outcome, Progress::Pending);
    assert!(asked.is_empty());
}

#[test]
fn read_never_reports_more_than_the_room() {
    let mut stream = established();
    let (outcome, _) = run(&mut stream, Op::Read(4), false, vec![(Event::Plaintext(9), false)]);
    assert_eq!(outcome, Progress::Done(4));
}

#[test]
fn write_hands_bytes_to_the_session_and_pumps_ciphertext() {
    let mut stream = established();
    let (outcome, asked) = run(
        &mut stream,
        Op::Write(100),
        false,
        vec![
            (Event::Accepted(100), true),
            (Event::CiphertextOut(Progress::Done(60)), true),
            (Event::CiphertextOut(Progress::Done(62)), false),
        ],
    );
    assert_eq!(outcome, Progress::Done(100));
    assert_eq!(
        asked,
        vec![Action::WritePlaintext, Action::WriteCiphertext, Action::WriteCiphertext]
    );
}

#[test]
fn write_without_ciphertext_to_send_finishes_at_once() {
    let mut stream = established();
    let (outcome, asked) = run(&mut stream, Op::Write(7), true, vec![(Event::Accepted(7), false)]);
    assert_eq!(outcome, Progress::Done(7));
    assert_eq!(asked, vec![Action::WritePlaintext]);
}

#[test]
fn partial_write_reports_what_the_session_took() {
    let mut stream = established();
    let (outcome, asked) = run(
        &mut stream,
        Op::Write(50_000),
        false,
        vec![
            (Event::Accepted(16_384), true),
            (Event::CiphertextOut(Progress::Done(16_406)), false),
        ],
    );
    assert_eq!(outcome, Progress::Done(16_384));
    assert_eq!(asked, vec![Action::WritePlaintext, Action::WriteCiphertext]);
}

#[test]
fn write_blocked_after_the_session_took_bytes_reports_them() {
    let mut stream = established();
    let (outcome, _) = run(
        &mut stream,
        Op::Write(10),
        false,
        vec![(Event::Accepted(10), true), (Event::CiphertextOut(Progress::Pending), true)],
    );
    assert_eq!(outcome, Progress::Done(10));
    let (outcome, _) = run(
        &mut stream,
        Op::Write(10),
        false,
        vec![(Event::Accepted(4), true), (Event::CiphertextOut(Progress::Done(0)), true)],
    );
    assert_eq!(outcome, Progress::Done(4));
}

#[test]
fn write_with_no_progress_is_not_ready() {
    let mut stream = established();
    let (outcome, asked) = run(
        &mut stream,
        Op::Write(10),
        true,
        vec![(Event::Accepted(0), true), (Event::CiphertextOut(Progress::Pending), true)],
    );
    assert_eq!(outcome, Progress::Pending);
    assert_eq!(asked, vec![Action::WritePlaintext, Action::WriteCiphertext]);

    let (outcome, _) = run(
        &mut stream,
        Op::Write(10),
        true,
        vec![(Event::Accepted(0), true), (Event::CiphertextOut(Progress::Done(0)), true)],
    );
    assert_eq!(outcome, Progress::Pending);

    let (outcome, asked) = run(&mut stream, Op::Write(10), false, vec![(Event::Accepted(0), false)]);
    assert_eq!(outcome, Progress::Pending);
    assert_eq!(asked, vec![Action::WritePlaintext]);
}

#[test]
fn write_offers_the_bytes_again_once_the_session_has_room() {
    let mut stream = established();
    let (outcome, asked) = run(
        &mut stream,
        Op::Write(10),
        true,
        vec![
            (Event::Accepted(0), true),
            (Event::CiphertextOut(Progress::Done(4_000)), true),
            (Event::CiphertextOut(Progress::Done(4_000)), false),
            (Event::Accepted(10), true),
            (Event::CiphertextOut(Progress::Done(32)), false),
        ],
    );
    assert_eq!(outcome, Progress::Done(10));
    assert_eq!(
        asked,
        vec![
            Action::WritePlaintext,
            Action::WriteCiphertext,
            Action::WriteCiphertext,
            Action::WritePlaintext,
            Action::WriteCiphertext
        ]
    );
}

#[test]
fn write_of_no_bytes_is_not_ready() {
    let mut stream = established();
    let (outcome, asked) = run(&mut stream, Op::Write(0), false, vec![]);
    assert_eq!(outcome, Progress::Pending);
    assert!(asked.is_empty());
}

#[test]
fn write_never_reports_more_than_was_offered() {
    let mut stream = established();
    let (outcome, _) = run(&mut stream, Op::Write(5), false, vec![(Event::Accepted(9), false)]);
    assert_eq!(outcome, Progress::Done(5));
}

#[test]
fn write_failure_is_final() {
    let mut stream = established();
    let (outcome, asked) = run(
        &mut stream,
        Op::Write(10),
        false,
        vec![
            (Event::Accepted(10), true),
            (Event::CiphertextOut(Progress::Failed("connection reset")), true),
        ],
    );
    assert_eq!(outcome, Progress::Failed(StreamError::Transport("connection reset")));
    assert_eq!(asked, vec![Action::WritePlaintext, Action::WriteCiphertext]);
}

#[test]
fn flush_pumps_pending_ciphertext_before_the_connection() {
    let mut stream = established();
    let (outcome, asked) = run(
        &mut stream,
        Op::Flush,
        true,
        vec![
            (Event::CiphertextOut(Progress::Done(100)), true),
            (Event::CiphertextOut(Progress::Done(20)), false),
            (Event::Closed(Progress::Done(())), false),
        ],
    );
    assert_eq!(outcome, Progress::Done(0));
    assert_eq!(asked, vec![Action::WriteCiphertext, Action::WriteCiphertext, Action::Flush]);
}

#[test]
fn flush_with_nothing_pending_goes_to_the_connection() {
    let mut stream = established();
    let (outcome, asked) =
        run(&mut stream, Op::Flush, false, vec![(Event::Closed(Progress::Done(())), false)]);
    assert_eq!(outcome, Progress::Done(0));
    assert_eq!(asked, vec![Action::Flush]);
}

#[test]
fn flush_waits_while_ciphertext_cannot_be_written() {
    let mut stream = established();
    let (outcome, asked) =
        run(&mut stream, Op::Flush, true, vec![(Event::CiphertextOut(Progress::Pending), true)]);
    assert_eq!(outcome, Progress::Pending);
    assert_eq!(asked, vec![Action::WriteCiphertext]);
    let (outcome, _) =
        run(&mut stream, Op::Flush, true, vec![(Event::CiphertextOut(Progress::Done(0)), true)]);
    assert_eq!(outcome, Progress::Pending);
    let (outcome, _) =
        run(&mut stream, Op::Flush, false, vec![(Event::Closed(Progress::Pending), false)]);
    assert_eq!(outcome, Progress::Pending);
}

#[test]
fn shutdown_pumps_pending_ciphertext_then_shuts_down() {
    let mut stream = established();
    let (outcome, asked) = run(
        &mut stream,
        Op::Shutdown,
        true,
        vec![
            (Event::CiphertextOut(Progress::Done(24)), false),
            (Event::Closed(Progress::Done(())), false),
        ],
    );
    assert_eq!(outcome, Progress::Done(0));
    assert_eq!(asked, vec![Action::WriteCiphertext, Action::Shutdown]);
}

#[test]
fn shutdown_and_flush_failures_are_passed_on() {
    let mut stream = established();
    let (outcome, _) = run(
        &mut stream,
        Op::Shutdown,
        false,
        vec![(Event::Closed(Progress::Failed("not connected")), false)],
    );
    assert_eq!(outcome, Progress::Failed(StreamError::Transport("not connected")));
    let (outcome, _) = run(
        &mut stream,
        Op::Flush,
        true,
        vec![(Event::CiphertextOut(Progress::Failed("broken pipe")), true)],
    );
    assert_eq!(outcome, Progress::Failed(StreamError::Transport("broken pipe")));
}

#[test]
fn event_that_answers_another_action_ends_the_call_as_not_ready() {
    let mut stream = established();
    let read = Call { op: Op::Read(8), awaiting: Action::ReadPlaintext, written: 0 };
    let step: TestStep = stream.advance(read, Event::Accepted(8), false);
    assert_eq!(step, Step::Return(Progress::Pending));
    let write = Call { op: Op::Write(8), awaiting: Action::ReadCiphertext, written: 0 };
    let step: TestStep = stream.advance(write, Event::CiphertextIn(Progress::Done(0)), false);
    assert_eq!(step, Step::Return(Progress::Pending));
    let flush = Call { op: Op::Flush, awaiting: Action::Shutdown, written: 0 };
    let step: TestStep = stream.advance(flush, Event::Closed(Progress::Done(())), false);
    assert_eq!(step, Step::Return(Progress::Pending));
    let shutdown = Call { op: Op::Shutdown, awaiting: Action::Shutdown, written: 0 };
    let step: TestStep = stream.advance(shutdown, Event::Closed(Progress::Done(())), false);
    assert_eq!(step, Step::Return(Progress::Done(0)));
}

#[test]
fn surface_keeps_transport_errors_and_wraps_protocol_errors() {
    assert_eq!(
        surface::<&str, &str>(Failure::Transport("timed out")),
        StreamError::Transport("timed out")
    );
    assert_eq!(
        surface::<&str, &str>(Failure::Protocol("handshake failure")),
        StreamError::ConnectionAborted("handshake failure")
    );
}

#[test]
fn shared_access_follows_the_state() {
    let mut stream = Stream::new("handshake");
    assert_eq!(stream.handshake_ref(), Some(&"handshake"));
    assert_eq!(stream.stream_ref(), None);
    let call = Call { op: Op::Write(1), awaiting: Action::Handshake, written: 0 };
    let _: TestStep = stream.advance(call, Event::Handshake(Progress::Done("stream")), false);
    assert_eq!(stream.handshake_ref(), None);
    assert_eq!(stream.stream_ref(), Some(&"stream"));
}

#[test]
fn write_never_suspends_with_bytes_taken() {
    let mut stream = established();
    let taken = Call { op: Op::Write(10), awaiting: Action::WriteCiphertext, written: 6 };
    let step: TestStep = stream.advance(taken, Event::CiphertextOut(Progress::Pending), true);
    assert_eq!(step, Step::Return(Progress::Done(6)));
    let step: TestStep = stream.advance(taken, Event::Plaintext(3), true);
    assert_eq!(step, Step::Return(Progress::Done(6)));
    let step: TestStep = stream.advance(taken, Event::CiphertextOut(Progress::Done(9)), true);
    assert_eq!(
        step,
        Step::Continue(Call { op: Op::Write(10), awaiting: Action::WriteCiphertext, written: 6 })
    );
    let step: TestStep = stream.advance(taken, Event::CiphertextOut(Progress::Done(9)), false);
    assert_eq!(step, Step::Return(Progress::Done(6)));
    let more = Call { op: Op::Write(10), awaiting: Action::WritePlaintext, written: 6 };
    let step: TestStep = stream.advance(more, Event::Accepted(100), false);
    assert_eq!(step, Step::Return(Progress::Done(10)));
    let beyond = Call { op: Op::Write(10), awaiting: Action::WriteCiphertext, written: 60 };
    let step: TestStep = stream.advance(beyond, Event::CiphertextOut(Progress::Pending), false);
    assert_eq!(step, Step::Return(Progress::Done(10)));
}

#[test]
fn no_two_actions_in_a_row_move_nothing() {
    let idle: Vec<fn() -> TestEvent> = vec![
        || Event::Handshake(Progress::Pending),
        || Event::Plaintext(0),
        || Event::CiphertextIn(Progress::Pending),
        || Event::CiphertextIn(Progress::Done(0)),
        || Event::Accepted(0),
        || Event::CiphertextOut(Progress::Pending),
        || Event::CiphertextOut(Progress::Done(0)),
        || Event::Closed(Progress::Pending),
        || Event::Closed(Progress::Done(())),
    ];
    let actions = [
        Action::Handshake,
        Action::ReadPlaintext,
        Action::ReadCiphertext,
        Action::WritePlaintext,
        Action::WriteCiphertext,
        Action::Flush,
        Action::Shutdown,
    ];
    for op in [Op::Read(8), Op::Write(8), Op::Flush, Op::Shutdown] {
        for awaiting in actions {
            for first in &idle {
                for second in &idle {
                    for wants_write in [false, true] {
                        for start_established in [false, true] {
                            let mut stream =
                                if start_established { established() } else { Stream::new("h") };
                            let call = Call { op, awaiting, written: 0 };
                            let step: TestStep = stream.advance(call, first(), wants_write);
                            if let Step::Continue(then) = step {
                                let after: TestStep = stream.advance(then, second(), wants_write);
                                assert!(
                                    matches!(after, Step::Return(_)),
                                    "{:?} then {:?} went on after {:?} and {:?}",
                                    call,
                                    then,
                                    first(),
                                    second()
                                );
                            }
                        }
                    }
                }
            }
        }
    }
}

#[test]
fn stream_error_kinds() {
    assert_eq!(StreamError::<&str, &str>::Transport("reset").kind(), ErrorKind::Transport);
    assert_eq!(
        StreamError::<&str, &str>::ConnectionAborted("bad certificate").kind(),
        ErrorKind::Protocol
    );
}

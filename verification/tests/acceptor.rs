use hyper_rustls::acceptor::builder::AcceptorBuilder;
use hyper_rustls::acceptor::{AcceptStep, TlsAcceptor};
use hyper_rustls::progress::Progress;
use hyper_rustls::stream::MaybeHttpsStream;
use hyper_rustls::tls_stream::{Action, Event, HandshakeState, Op, Step};

#[derive(Debug, Clone, PartialEq, Eq)]
struct Config(u32);

#[derive(Debug, PartialEq, Eq)]
struct Socket(u32);

/// A server handshake that has not begun: the connection and the
/// configuration to handshake with.
#[derive(Debug, PartialEq, Eq)]
struct Handshake {
    socket: Socket,
    config: Config,
}

impl From<(Socket, Config)> for Handshake {
    fn from(parts: (Socket, Config)) -> Self {
        Handshake { socket: parts.0, config: parts.1 }
    }
}

type Acceptor = TlsAcceptor<Config, Vec<Socket>>;
type Stream = MaybeHttpsStream<Socket, Handshake, Socket>;
type Accepted = Progress<Option<Stream>, &'static str>;

fn handshake_of(stream: &mut Stream) -> &mut Handshake {
    match stream {
        MaybeHttpsStream::Https(tls) => {
            assert_eq!(tls.state(), HandshakeState::Handshaking);
            assert_eq!(tls.handshake_count(), 0);
            tls.handshake_mut().unwrap()
        },
        MaybeHttpsStream::Http(_) => panic!("not an encrypted stream"),
    }
}

#[test]
fn accepted_connection_is_wrapped_at_once() {
    let mut acceptor = Acceptor::new(Config(7), Vec::new());
    assert_eq!(acceptor.begin(), AcceptStep::Pull);
    let accepted: Accepted = acceptor.poll_accept(Progress::Done(Some(Socket(1))));
    match accepted {
        Progress::Done(Some(mut stream)) => {
            assert!(stream.is_https());
            assert_eq!(*handshake_of(&mut stream), Handshake { socket: Socket(1), config: Config(7) });
        },
        _ => panic!("no stream was yielded"),
    }
    assert_eq!(acceptor.begin(), AcceptStep::Pull);
}

#[test]
fn stalled_peer_does_not_hold_up_the_next_accept() {
    let mut acceptor = Acceptor::new(Config(7), Vec::new());
    let first: Accepted = acceptor.poll_accept(Progress::Done(Some(Socket(1))));
    let mut stalled = match first {
        Progress::Done(Some(stream)) => stream,
        _ => panic!("no stream was yielded"),
    };
    // The first peer never sends a byte: its handshake stays pending.
    for _ in 0..5 {
        let step: Step<&str, &str> = match &stalled {
            MaybeHttpsStream::Https(tls) => tls.begin(Op::Read(64), false),
            MaybeHttpsStream::Http(_) => panic!("not an encrypted stream"),
        };
        let call = match step {
            Step::Continue(call) => call,
            Step::Return(_) => panic!("the read ended without the handshake"),
        };
        assert_eq!(call.awaiting, Action::Handshake);
        let step: Step<&str, &str> = stalled.advance(call, Event::Handshake(Progress::Pending), false);
        assert_eq!(step, Step::Return(Progress::Pending));

        assert_eq!(acceptor.begin(), AcceptStep::Pull);
    }
    let second: Accepted = acceptor.poll_accept(Progress::Done(Some(Socket(2))));
    match second {
        Progress::Done(Some(mut stream)) => {
            assert_eq!(handshake_of(&mut stream).socket, Socket(2));
        },
        _ => panic!("the second connection was held up"),
    }
    assert_eq!(handshake_of(&mut stalled).socket, Socket(1));
    assert_eq!(acceptor.begin(), AcceptStep::Pull);
}

#[test]
fn pending_source_suspends_the_acceptor() {
    let mut acceptor = Acceptor::new(Config(7), Vec::new());
    let accepted: Accepted = acceptor.poll_accept(Progress::Pending);
    assert!(matches!(accepted, Progress::Pending));
    assert_eq!(acceptor.begin(), AcceptStep::Pull);
}

#[test]
fn source_error_is_passed_on_and_ends_the_acceptor() {
    let mut acceptor = Acceptor::new(Config(7), Vec::new());
    let accepted: Accepted = acceptor.poll_accept(Progress::Failed("address in use"));
    assert!(matches!(accepted, Progress::Failed("address in use")));
    assert_eq!(acceptor.begin(), AcceptStep::End);
    let later: Accepted = acceptor.poll_accept(Progress::Done(Some(Socket(3))));
    assert!(matches!(later, Progress::Done(None)));
    let again: Accepted = acceptor.poll_accept(Progress::Failed("again"));
    assert!(matches!(again, Progress::Done(None)));
    assert_eq!(acceptor.begin(), AcceptStep::End);
}

#[test]
fn end_of_source_ends_the_acceptor() {
    let mut acceptor = Acceptor::new(Config(7), Vec::new());
    let accepted: Accepted = acceptor.poll_accept(Progress::Done(None));
    assert!(matches!(accepted, Progress::Done(None)));
    assert_eq!(acceptor.begin(), AcceptStep::End);
    let later: Accepted = acceptor.poll_accept(Progress::Pending);
    assert!(matches!(later, Progress::Done(None)));
}

#[test]
fn incoming_mut_gives_the_inbound_source() {
    let mut acceptor = Acceptor::new(Config(7), vec![Socket(1), Socket(2)]);
    let next = acceptor.incoming_mut().pop();
    assert_eq!(next, Some(Socket(2)));
    let accepted: Accepted = acceptor.poll_accept(Progress::Done(next));
    assert!(matches!(accepted, Progress::Done(Some(_))));
    assert_eq!(acceptor.incoming_mut().len(), 1);
}

#[test]
fn acceptor_from_parts_and_from_builder_listen() {
    let mut from_parts = Acceptor::from((Config(7), vec![Socket(1)]));
    assert_eq!(from_parts.begin(), AcceptStep::Pull);
    assert_eq!(from_parts.incoming_mut().len(), 1);
    let mut built: Acceptor =
        AcceptorBuilder::new().with_tls_config(Config(8)).with_incoming(vec![Socket(4)]);
    assert_eq!(built.begin(), AcceptStep::Pull);
    let accepted: Accepted = built.poll_accept(Progress::Done(Some(Socket(5))));
    match accepted {
        Progress::Done(Some(mut stream)) => {
            assert_eq!(handshake_of(&mut stream).config, Config(8));
        },
        _ => panic!("no stream was yielded"),
    }
    let mut through_type: Acceptor =
        Acceptor::builder().with_tls_config(Config(9)).with_incoming(Vec::new());
    assert_eq!(through_type.begin(), AcceptStep::Pull);
    assert!(through_type.incoming_mut().is_empty());
}

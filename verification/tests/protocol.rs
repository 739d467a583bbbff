//! Hellos, frames, the long-poll loop and reaching the daemon.

use teiryo::client::{
    is_version_mismatch, newest_poll_id, socket_path, AfterFailure, ClientError, NetEvent, Reaching,
    Seen, AWAIT_TIMEOUT_MS, CONNECT_ATTEMPTS,
};
use teiryo::domain::{Account, PollEvent, PollOutcome, PollTrigger};
use teiryo::error::{ErrorKind, HandshakeError};
use teiryo::ids::{AccountId, PollId};
use teiryo::protocol::codec::{frame_bytes, next_frame, MAX_FRAME_LEN};
use teiryo::protocol::handshake::{
    client_verdict, server_verdict, Hello, HELLO_ACCEPTED, HELLO_REJECTED_VERSION, PROTOCOL_MAGIC,
    PROTOCOL_VERSION,
};
use teiryo::protocol::wire::{AccountStatus, ConfigState, ConfigView, Request, Response};
use teiryo::time::Timestamp;

/// Wait for the next few milliseconds, so that two ids differ in their time.
fn pause() {
    let start = std::time::Instant::now();
    while start.elapsed() < std::time::Duration::from_millis(3) {}
}

fn now() -> Timestamp {
    Timestamp::from_nanos(1_787_313_600_000_000_000)
}

#[test]
fn hello_roundtrip() {
    let hello = Hello::current();
    assert_eq!(Hello::from_bytes(hello.to_bytes()), hello);
    assert_eq!(&hello.to_bytes()[..4], b"TEIR");
    assert_eq!(hello.to_bytes()[4..], [6, 0]);
    let other = Hello {
        magic: *b"ABCD",
        protocol_version: 0x1234,
    };
    assert_eq!(other.to_bytes(), [b'A', b'B', b'C', b'D', 0x34, 0x12]);
    assert_eq!(Hello::from_bytes(other.to_bytes()), other);
}

#[test]
fn handshake_accepts_matching_version() {
    let verdict = server_verdict(Hello::current().to_bytes());
    assert_eq!(verdict.outcome, Ok(()));
    assert_eq!(verdict.reply, Some(HELLO_ACCEPTED));
    assert_eq!(client_verdict(HELLO_ACCEPTED), Ok(()));
}

#[test]
fn handshake_rejects_version_mismatch() {
    let stale = Hello {
        magic: PROTOCOL_MAGIC,
        protocol_version: 999,
    };
    let verdict = server_verdict(stale.to_bytes());
    assert_eq!(verdict.reply, Some(HELLO_REJECTED_VERSION));
    match verdict.outcome {
        Err(HandshakeError::VersionMismatch { ours, theirs }) => {
            assert_eq!(ours, PROTOCOL_VERSION);
            assert_eq!(theirs, 999);
        }
        other => panic!("expected version mismatch, got {other:?}"),
    }
    assert_eq!(
        client_verdict(HELLO_REJECTED_VERSION),
        Err(HandshakeError::Rejected(HELLO_REJECTED_VERSION))
    );
    assert_eq!(client_verdict(7), Err(HandshakeError::UnexpectedReply(7)));
}

#[test]
fn handshake_rejects_bad_magic() {
    let verdict = server_verdict(*b"NOPE\x01\x00");
    assert_eq!(verdict.reply, None, "nothing is said to a stranger");
    match verdict.outcome {
        Err(HandshakeError::BadMagic(m)) => assert_eq!(&m, b"NOPE"),
        other => panic!("expected bad magic, got {other:?}"),
    }
}

#[test]
fn handshake_failures_read_as_sentences() {
    assert_eq!(
        HandshakeError::BadMagic(*b"NOPE").message(),
        "bad handshake magic [78, 79, 80, 69]"
    );
    assert_eq!(
        HandshakeError::VersionMismatch { ours: 6, theirs: 5 }.message(),
        "protocol version mismatch: ours v6, peer v5 — restart the daemon"
    );
    assert_eq!(
        HandshakeError::Rejected(1).message(),
        "daemon rejected handshake (code 0x01): daemon and client protocol versions differ — restart the daemon"
    );
    assert_eq!(
        HandshakeError::UnexpectedReply(0xab).message(),
        "unexpected handshake reply 0xab"
    );
    assert_eq!(
        HandshakeError::Io("early eof".to_owned()).message(),
        "handshake i/o: early eof"
    );
    assert_eq!(ErrorKind::Internal.message(), "internal error");
    assert_eq!(ErrorKind::UnknownProvider.message(), "unknown provider");
}

#[test]
fn oversized_frame_is_rejected() {
    // A frame header claiming more than MAX_FRAME_LEN must error, not buffer.
    let mut buf = (MAX_FRAME_LEN as u32 + 1).to_le_bytes().to_vec();
    buf.extend_from_slice(&[0u8; 16]);
    assert!(next_frame(&buf).is_err());
    // And one cannot be written.
    assert!(frame_bytes(&vec![0u8; MAX_FRAME_LEN + 1]).is_err());
}

#[test]
fn frames_read_back_one_by_one() {
    let mut stream = frame_bytes(b"hello").unwrap();
    assert_eq!(stream, [5, 0, 0, 0, b'h', b'e', b'l', b'l', b'o']);
    stream.extend(frame_bytes(b"").unwrap());
    stream.extend(frame_bytes(b"x").unwrap());
    let mut seen = Vec::new();
    while let Some((frame, rest)) = next_frame(&stream).unwrap() {
        seen.push(frame);
        stream = rest;
    }
    assert_eq!(seen, [b"hello".to_vec(), vec![], b"x".to_vec()]);
    assert!(stream.is_empty());
}

#[test]
fn a_frame_is_not_there_until_its_last_byte_is() {
    let whole = frame_bytes(b"hello").unwrap();
    for n in 0..whole.len() {
        assert_eq!(next_frame(&whole[..n]), Ok(None), "{n} bytes");
    }
    assert_eq!(next_frame(&whole), Ok(Some((b"hello".to_vec(), vec![]))));
}

fn poll(id: PollId) -> PollEvent {
    PollEvent {
        id,
        ts: now(),
        provider: "p".to_owned(),
        account: AccountId::from("a"),
        trigger: PollTrigger::Scheduled,
        outcome: PollOutcome::Success { windows: vec![] },
        latency_ms: 0,
    }
}

fn status(last_poll: Option<PollId>) -> AccountStatus {
    AccountStatus {
        account: Account {
            id: AccountId::from("a"),
            provider: "p".to_owned(),
            label: "a".to_owned(),
        },
        windows: vec![],
        last_poll: last_poll.map(poll),
        last_success: None,
        poll_interval_secs: 60,
    }
}

#[test]
fn newest_poll_id_empty_is_zero() {
    assert_eq!(newest_poll_id(&[]), PollId::zero());
    assert_eq!(newest_poll_id(&[status(None)]), PollId::zero());
}

#[test]
fn newest_poll_id_takes_max() {
    let older = PollId::generate();
    pause();
    let newer = PollId::generate();
    assert_eq!(
        newest_poll_id(&[
            status(Some(older)),
            status(None),
            status(Some(newer)),
        ]),
        newer
    );
    assert_eq!(
        newest_poll_id(&[status(Some(PollId(9))), status(Some(PollId(5)))]),
        PollId(9)
    );
}

#[test]
fn only_a_version_rejection_is_a_version_mismatch() {
    assert!(is_version_mismatch(&ClientError::Handshake(
        HandshakeError::Rejected(1)
    )));
    assert!(is_version_mismatch(&ClientError::Handshake(
        HandshakeError::VersionMismatch { ours: 6, theirs: 5 }
    )));
    for other in [
        ClientError::Io("gone".to_owned()),
        ClientError::DaemonStart("gone".to_owned()),
        ClientError::Handshake(HandshakeError::UnexpectedReply(9)),
        ClientError::Handshake(HandshakeError::BadMagic([0; 4])),
        ClientError::Wire("short".to_owned()),
        ClientError::Closed,
    ] {
        assert!(!is_version_mismatch(&other), "{other:?}");
    }
}

#[test]
fn client_failures_read_as_sentences() {
    assert_eq!(
        ClientError::Io("refused".to_owned()).message(),
        "socket error: refused"
    );
    assert_eq!(
        ClientError::DaemonStart("teiryod died, see log".to_owned()).message(),
        "teiryod died, see log"
    );
    assert_eq!(
        ClientError::Handshake(HandshakeError::UnexpectedReply(9)).message(),
        "handshake failed: unexpected handshake reply 0x09"
    );
    assert_eq!(
        ClientError::Wire("bad".to_owned()).message(),
        "wire error: bad"
    );
    assert_eq!(
        ClientError::Closed.message(),
        "daemon closed the connection"
    );
}

fn config(generation: u64) -> ConfigState {
    ConfigState {
        path: "/c.toml".to_owned(),
        generation,
        effective: ConfigView {
            poll_interval_secs: None,
            default_poll_interval_secs: 60,
            min_poll_interval_secs: 10,
            providers: vec![],
        },
        loaded_at: now(),
        warnings: vec![],
        error: None,
    }
}

#[test]
fn the_update_loop_hands_news_on_and_never_looks_back() {
    let seen = Seen {
        since: PollId(4),
        config_gen: 7,
    };
    assert_eq!(
        seen.request(),
        Request::AwaitUpdate {
            since: PollId(4),
            config_gen: 7,
            timeout_ms: AWAIT_TIMEOUT_MS
        }
    );
    assert_eq!(AWAIT_TIMEOUT_MS, 25_000);

    let step = seen.absorb(Ok(Response::Update(poll(PollId(9)))), "");
    assert!(step.goes_on);
    assert_eq!(step.seen.since, PollId(9));
    assert_eq!(step.event, Some(NetEvent::Update(poll(PollId(9)))));

    // An older poll is still news, but does not move the mark back.
    let step = seen.absorb(Ok(Response::Update(poll(PollId(2)))), "");
    assert_eq!(step.seen, seen);
    assert!(step.event.is_some());

    let step = seen.absorb(Ok(Response::Config(config(8))), "");
    assert!(step.goes_on);
    assert_eq!(step.seen.config_gen, 8);
    assert_eq!(
        step.event,
        Some(NetEvent::Config(Box::new(config(8))))
    );
    assert_eq!(seen.absorb(Ok(Response::Config(config(3))), "").seen, seen);

    let step = seen.absorb(Ok(Response::NoUpdate), "");
    assert!(step.goes_on && step.event.is_none() && step.seen == seen);

    let step = seen.absorb(Ok(Response::Ack), "Ack");
    assert!(!step.goes_on);
    assert_eq!(
        step.event,
        Some(NetEvent::Disconnected(
            "unexpected reply to AwaitUpdate: Ack".to_owned()
        ))
    );
    let step = seen.absorb(Err(ClientError::Closed), "");
    assert!(!step.goes_on);
    assert_eq!(
        step.event,
        Some(NetEvent::Disconnected(
            "daemon closed the connection".to_owned()
        ))
    );
}

#[test]
fn a_daemon_is_spawned_once_and_waited_for() {
    let AfterFailure::Spawn(mut state) = Reaching::First.failed() else {
        panic!("the first failure spawns the daemon");
    };
    let mut failures = 0;
    loop {
        failures += 1;
        match state.failed() {
            AfterFailure::Retry(next) => state = next,
            AfterFailure::GiveUp => break,
            AfterFailure::Spawn(_) => panic!("spawned twice"),
        }
    }
    assert_eq!(failures, CONNECT_ATTEMPTS);
    assert_eq!(CONNECT_ATTEMPTS, 25);
}

#[test]
fn socket_path_resolution() {
    assert_eq!(
        socket_path(Some("/run/user/1000"), 1000),
        "/run/user/1000/teiryo.sock",
        "XDG_RUNTIME_DIR takes precedence"
    );
    assert_eq!(
        socket_path(None, 1000),
        "/tmp/teiryo-1000.sock",
        "falls back to /tmp with the real uid"
    );
    assert_eq!(
        socket_path(Some(""), 0),
        "/tmp/teiryo-0.sock",
        "an empty XDG_RUNTIME_DIR counts as unset"
    );
    // As joining a path does, no second separator.
    assert_eq!(socket_path(Some("/run/"), 0), "/run/teiryo.sock");
}

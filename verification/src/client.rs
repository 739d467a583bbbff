//! The client's side of the protocol: failures, the long-poll loop's
//! decisions, and reaching the daemon.

use vstd::prelude::*;

use crate::domain::PollEvent;
use crate::error::HandshakeError;
use crate::ids::PollId;
use crate::protocol::wire::{AccountStatus, ConfigState, Request, Response};
use crate::text;

verus! {

/// How long the daemon may hold one `AwaitUpdate` open.
pub const AWAIT_TIMEOUT_MS: u32 = 25_000;

/// Client-side connection/protocol failures.
#[derive(Debug, PartialEq, Eq)]
pub enum ClientError {
    /// Socket-level failure (connect, read, write), in words.
    Io(String),
    /// The daemon could not be started: its binary is missing, or it was
    /// spawned and died before binding. Carries a message that already names
    /// the log file, so it reads as a complete sentence to the user.
    DaemonStart(String),
    /// Handshake failed; `VersionMismatch`-shaped rejections mean a stale
    /// daemon from a previous install is still running.
    Handshake(HandshakeError),
    /// Frame (de)serialization failed, in words.
    Wire(String),
    /// The daemon closed the connection.
    Closed,
}

impl ClientError {
    /// The failure in words.
    pub open spec fn words(self) -> Seq<char> {
        match self {
            ClientError::Io(e) => "socket error: "@ + e@,
            ClientError::DaemonStart(message) => message@,
            ClientError::Handshake(e) => "handshake failed: "@ + e.words(),
            ClientError::Wire(e) => "wire error: "@ + e@,
            ClientError::Closed => "daemon closed the connection"@,
        }
    }

    /// The failure in words.
    pub fn message(&self) -> (r: String)
        ensures
            r@ == self.words(),
    {
        match self {
            ClientError::Io(e) => "socket error: ".to_owned().concat(e.as_str()),
            ClientError::DaemonStart(message) => message.clone(),
            ClientError::Handshake(e) => "handshake failed: ".to_owned().concat(
                e.message().as_str(),
            ),
            ClientError::Wire(e) => "wire error: ".to_owned().concat(e.as_str()),
            ClientError::Closed => "daemon closed the connection".to_owned(),
        }
    }
}

/// Whether a handshake failure is the "stale daemon of a different protocol
/// version" case that the user must resolve by letting the daemon restart.
pub fn is_version_mismatch(err: &ClientError) -> (r: bool)
    ensures
        r == match *err {
            ClientError::Handshake(HandshakeError::Rejected(_)) => true,
            ClientError::Handshake(HandshakeError::VersionMismatch { .. }) => true,
            _ => false,
        },
{
    match err {
        ClientError::Handshake(HandshakeError::Rejected(_)) => true,
        ClientError::Handshake(HandshakeError::VersionMismatch { .. }) => true,
        _ => false,
    }
}

/// The newest poll id among the first `n` statuses; zero if none has polled.
pub open spec fn newest_among(statuses: Seq<AccountStatus>, n: nat) -> u128
    decreases n,
{
    if n == 0 {
        0
    } else {
        let rest = newest_among(statuses, (n - 1) as nat);
        match statuses[n - 1].last_poll {
            Some(p) => if p.id.0 > rest {
                p.id.0
            } else {
                rest
            },
            None => rest,
        }
    }
}

/// The newest poll id visible in a status snapshot; the starting point for
/// `AwaitUpdate { since }`.
pub fn newest_poll_id(statuses: &[AccountStatus]) -> (r: PollId)
    ensures
        r.0 == newest_among(statuses@, statuses@.len()),
{
    let mut newest = PollId::zero();
    let mut i: usize = 0;
    while i < statuses.len()
        invariant
            i <= statuses@.len(),
            newest.0 == newest_among(statuses@, i as nat),
        decreases statuses@.len() - i,
    {
        if let Some(p) = &statuses[i].last_poll {
            if p.id.0 > newest.0 {
                newest = p.id;
            }
        }
        i += 1;
    }
    newest
}

/// No poll in a status snapshot is newer than the newest, and unless it is
/// zero it is one of them.
pub proof fn the_newest_poll_is_the_greatest(statuses: Seq<AccountStatus>, n: nat)
    requires
        n <= statuses.len(),
    ensures
        forall|i: int|
            0 <= i < n ==> ((#[trigger] statuses[i]).last_poll matches Some(p) ==> p.id.0
                <= newest_among(statuses, n)),
        newest_among(statuses, n) == 0 || exists|i: int|
            0 <= i < n && ((#[trigger] statuses[i]).last_poll matches Some(p) && p.id.0
                == newest_among(statuses, n)),
    decreases n,
{
    if n > 0 {
        the_newest_poll_is_the_greatest(statuses, (n - 1) as nat);
        let rest = newest_among(statuses, (n - 1) as nat);
        if newest_among(statuses, n) == rest && rest != 0 {
            let i = choose|i: int|
                0 <= i < n - 1 && ((#[trigger] statuses[i]).last_poll matches Some(p) && p.id.0
                    == rest);
            assert(statuses[i].last_poll matches Some(p) && p.id.0 == newest_among(statuses, n));
        } else if newest_among(statuses, n) != rest {
            assert(statuses[n - 1].last_poll matches Some(p) && p.id.0 == newest_among(
                statuses,
                n,
            ));
        }
    }
}

// ---------------------------------------------------------------------------
// The long-poll loop
// ---------------------------------------------------------------------------

/// What the long-poll loop has already seen.
#[derive(Debug, Clone, Copy, PartialEq, Eq, Structural)]
pub struct Seen {
    /// Newest poll.
    pub since: PollId,
    /// Newest config generation.
    pub config_gen: u64,
}

/// Events flowing into the TUI event loop from the update connection.
#[derive(Debug, PartialEq, Eq)]
pub enum NetEvent {
    /// A poll completed daemon-side; refresh status.
    Update(PollEvent),
    /// The daemon reloaded `config.toml` — from a `SetConfig` of ours or from
    /// someone editing the file — and the settings may have changed.
    Config(Box<ConfigState>),
    /// The update connection died; the TUI should reconnect.
    Disconnected(String),
}

/// What the long-poll loop does with one reply.
#[derive(Debug, PartialEq, Eq)]
pub struct LoopStep {
    /// What it has seen after it.
    pub seen: Seen,
    /// What it hands on.
    pub event: Option<NetEvent>,
    /// Whether it asks again.
    pub goes_on: bool,
}

impl Seen {
    /// The next long-poll request.
    pub fn request(self) -> (r: Request)
        ensures
            r == (Request::AwaitUpdate {
                since: self.since,
                config_gen: self.config_gen,
                timeout_ms: AWAIT_TIMEOUT_MS,
            }),
    {
        Request::AwaitUpdate {
            since: self.since,
            config_gen: self.config_gen,
            timeout_ms: AWAIT_TIMEOUT_MS,
        }
    }

    /// What comes of one reply: an update advances `since`, a config reload
    /// `config_gen`, and both are handed on; no news just asks again; anything
    /// else ends the loop. `shown` is the reply as a message would show it.
    ///
    /// One request covers both of the daemon's clocks, so a `config.toml` edit
    /// reaches the TUI as promptly as a completed poll does.
    pub fn absorb(self, reply: Result<Response, ClientError>, shown: &str) -> (r: LoopStep)
        ensures
            r.seen.since.0 >= self.since.0 && r.seen.config_gen >= self.config_gen,
            match reply {
                Ok(Response::Update(event)) => {
                    &&& r.goes_on
                    &&& r.event == Some(NetEvent::Update(event))
                    &&& r.seen.since.0 == if event.id.0 > self.since.0 {
                        event.id.0
                    } else {
                        self.since.0
                    }
                    &&& r.seen.config_gen == self.config_gen
                },
                Ok(Response::Config(state)) => {
                    &&& r.goes_on
                    &&& r.event matches Some(NetEvent::Config(c)) && *c == state
                    &&& r.seen.since == self.since
                    &&& r.seen.config_gen == if state.generation > self.config_gen {
                        state.generation
                    } else {
                        self.config_gen
                    }
                },
                Ok(Response::NoUpdate) => r.goes_on && r.event is None && r.seen == self,
                Ok(_) => {
                    &&& !r.goes_on
                    &&& r.seen == self
                    &&& r.event matches Some(NetEvent::Disconnected(m)) && m@
                        == "unexpected reply to AwaitUpdate: "@ + shown@
                },
                Err(e) => {
                    &&& !r.goes_on
                    &&& r.seen == self
                    &&& r.event matches Some(NetEvent::Disconnected(m)) && m@ == e.words()
                },
            },
    {
        match reply {
            Ok(Response::Update(event)) => {
                let since = if event.id.0 > self.since.0 {
                    event.id
                } else {
                    self.since
                };
                LoopStep {
                    seen: Seen { since, config_gen: self.config_gen },
                    event: Some(NetEvent::Update(event)),
                    goes_on: true,
                }
            },
            Ok(Response::Config(state)) => {
                let config_gen: u64 = if state.generation > self.config_gen {
                    state.generation
                } else {
                    self.config_gen
                };
                LoopStep {
                    seen: Seen { since: self.since, config_gen },
                    event: Some(NetEvent::Config(Box::new(state))),
                    goes_on: true,
                }
            },
            Ok(Response::NoUpdate) => LoopStep { seen: self, event: None, goes_on: true },
            Ok(_) => LoopStep {
                seen: self,
                event: Some(
                    NetEvent::Disconnected(
                        "unexpected reply to AwaitUpdate: ".to_owned().concat(shown),
                    ),
                ),
                goes_on: false,
            },
            Err(e) => LoopStep {
                seen: self,
                event: Some(NetEvent::Disconnected(e.message())),
                goes_on: false,
            },
        }
    }
}

// ---------------------------------------------------------------------------
// Reaching the daemon
// ---------------------------------------------------------------------------

/// Attempts made while waiting for a freshly spawned daemon to bind.
pub const CONNECT_ATTEMPTS: u32 = 25;

/// Milliseconds between connection attempts.
pub const CONNECT_BACKOFF_MS: u64 = 200;

/// Where a client that is not connected yet stands.
#[derive(Debug, Clone, Copy, PartialEq, Eq, Structural)]
pub enum Reaching {
    /// Nothing has been tried.
    First,
    /// The daemon has been spawned, and so many attempts are left.
    Waiting(u32),
}

/// What to do after a failed connection attempt.
#[derive(Debug, Clone, Copy, PartialEq, Eq, Structural)]
pub enum AfterFailure {
    /// Spawn the daemon, then wait and try again from there.
    Spawn(Reaching),
    /// Wait and try again from there.
    Retry(Reaching),
    /// Report the failure.
    GiveUp,
}

impl Reaching {
    /// What to do after a failed connection attempt.
    pub open spec fn after(self) -> AfterFailure {
        match self {
            Reaching::First => AfterFailure::Spawn(Reaching::Waiting(CONNECT_ATTEMPTS)),
            Reaching::Waiting(left) => if left > 1 {
                AfterFailure::Retry(Reaching::Waiting((left - 1) as u32))
            } else {
                AfterFailure::GiveUp
            },
        }
    }

    /// How many attempts are left, this one included.
    pub open spec fn attempts(self) -> int {
        match self {
            Reaching::First => 1 + CONNECT_ATTEMPTS,
            Reaching::Waiting(left) => if left > 1 {
                left as int
            } else {
                1
            },
        }
    }

    /// What to do after a failed connection attempt: the first spawns the
    /// daemon, once, and [`CONNECT_ATTEMPTS`] more are made while it starts.
    pub fn failed(self) -> (r: AfterFailure)
        ensures
            r == self.after(),
    {
        match self {
            Reaching::First => AfterFailure::Spawn(Reaching::Waiting(CONNECT_ATTEMPTS)),
            Reaching::Waiting(left) => if left > 1 {
                AfterFailure::Retry(Reaching::Waiting(left - 1))
            } else {
                AfterFailure::GiveUp
            },
        }
    }
}

/// A client that is never answered gives up after one attempt more than it
/// makes while the daemon starts, and spawns the daemon once: every failure
/// leaves one attempt fewer, the last gives up, and only the first spawns.
pub proof fn an_unanswered_client_gives_up(state: Reaching)
    ensures
        state.attempts() >= 1,
        match state.after() {
            AfterFailure::Spawn(next) => state == Reaching::First && next.attempts()
                == state.attempts() - 1 && next != Reaching::First,
            AfterFailure::Retry(next) => next.attempts() == state.attempts() - 1 && next
                != Reaching::First,
            AfterFailure::GiveUp => state.attempts() == 1,
        },
{
}

/// The daemon socket's path, from the runtime directory and the user.
pub open spec fn socket_at(runtime_dir: Option<Seq<char>>, uid: u32) -> Seq<char> {
    match runtime_dir {
        Some(dir) => if dir.len() == 0 {
            "/tmp/teiryo-"@ + text::decimal(uid as nat) + ".sock"@
        } else if dir.last() == '/' {
            dir + "teiryo.sock"@
        } else {
            dir + "/"@ + "teiryo.sock"@
        },
        None => "/tmp/teiryo-"@ + text::decimal(uid as nat) + ".sock"@,
    }
}

/// The daemon socket path: `$XDG_RUNTIME_DIR/teiryo.sock`, falling back to
/// `/tmp/teiryo-$UID.sock`. Must match the daemon's resolution exactly.
pub fn socket_path(runtime_dir: Option<&str>, uid: u32) -> (r: String)
    ensures
        r@ == socket_at(
            match runtime_dir {
                Some(d) => Some(d@),
                None => None,
            },
            uid,
        ),
{
    if let Some(dir) = runtime_dir {
        if !dir.is_empty() {
            let chars = text::chars_of(dir);
            return if chars[chars.len() - 1] == '/' {
                dir.to_owned().concat("teiryo.sock")
            } else {
                dir.to_owned().concat("/").concat("teiryo.sock")
            };
        }
    }
    "/tmp/teiryo-".to_owned().concat(text::decimal_of(uid as u64).as_str()).concat(".sock")
}

/// The first failure starts the daemon; twenty-five more attempts follow, and
/// the last of those gives up.
pub proof fn a_client_tries_twenty_six_times(left: u32)
    ensures
        Reaching::First.attempts() == 26,
        Reaching::First.after() == AfterFailure::Spawn(Reaching::Waiting(25)),
        left >= 2 ==> Reaching::Waiting(left).after() == AfterFailure::Retry(
            Reaching::Waiting((left - 1) as u32),
        ),
        left < 2 ==> Reaching::Waiting(left).after() is GiveUp,
        CONNECT_BACKOFF_MS == 200,
        AWAIT_TIMEOUT_MS == 25_000,
{
}

/// The socket lies in the runtime directory, one slash behind it; without such a
/// directory, or with an empty one, it lies in `/tmp` under the user's number.
pub proof fn the_socket_lies_in_the_runtime_directory(dir: Seq<char>, uid: u32)
    ensures
        socket_at(None, uid) == "/tmp/teiryo-"@ + text::decimal(uid as nat) + ".sock"@,
        socket_at(Some(Seq::empty()), uid) == socket_at(None, uid),
        dir.len() > 0 && dir.last() != '/' ==> socket_at(Some(dir), uid) == dir + "/teiryo.sock"@,
        dir.len() > 0 && dir.last() == '/' ==> socket_at(Some(dir), uid) == dir.drop_last()
            + "/teiryo.sock"@,
{
    reveal_strlit("/teiryo.sock");
    reveal_strlit("teiryo.sock");
    reveal_strlit("/");
    if dir.len() > 0 && dir.last() != '/' {
        assert(dir + "/"@ + "teiryo.sock"@ =~= dir + "/teiryo.sock"@);
    }
    if dir.len() > 0 && dir.last() == '/' {
        assert(dir + "teiryo.sock"@ =~= dir.drop_last() + "/teiryo.sock"@);
    }
}

/// A failure's words name what failed, and repeat what was said of it.
pub proof fn a_failure_repeats_what_was_said(e: ClientError)
    ensures
        e matches ClientError::Io(m) ==> e.words() == "socket error: "@ + m@,
        e matches ClientError::DaemonStart(m) ==> e.words() == m@,
        e matches ClientError::Handshake(h) ==> e.words() == "handshake failed: "@ + h.words(),
        e matches ClientError::Wire(m) ==> e.words() == "wire error: "@ + m@,
        e is Closed ==> e.words() == "daemon closed the connection"@,
{
}

} // verus!

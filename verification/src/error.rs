//! Error types.

use vstd::prelude::*;

use crate::text;
use crate::time::Duration;

verus! {

/// Handshake failure (before any framed bytes are exchanged).
#[derive(Debug, PartialEq, Eq)]
pub enum HandshakeError {
    /// Peer sent something that is not a Teiryo hello.
    BadMagic([u8; 4]),
    /// Peer speaks a different protocol version.
    VersionMismatch {
        /// Our protocol version.
        ours: u16,
        /// The peer's protocol version.
        theirs: u16,
    },
    /// Daemon replied with a reject code (client side).
    Rejected(u8),
    /// Daemon replied with an unknown code.
    UnexpectedReply(u8),
    /// I/O failure during the handshake.
    Io(String),
}

impl HandshakeError {
    /// The failure in words.
    pub open spec fn words(self) -> Seq<char> {
        match self {
            HandshakeError::BadMagic(m) => "bad handshake magic ["@ + text::decimal(m@[0] as nat)
                + ", "@ + text::decimal(m@[1] as nat) + ", "@ + text::decimal(m@[2] as nat) + ", "@
                + text::decimal(m@[3] as nat) + "]"@,
            HandshakeError::VersionMismatch { ours, theirs } => {
                "protocol version mismatch: ours v"@ + text::decimal(ours as nat) + ", peer v"@
                    + text::decimal(theirs as nat) + " — restart the daemon"@
            },
            HandshakeError::Rejected(code) => "daemon rejected handshake (code "@ + text::hex_byte(
                code,
            ) + "): daemon and client protocol versions differ — restart the daemon"@,
            HandshakeError::UnexpectedReply(code) => "unexpected handshake reply "@
                + text::hex_byte(code),
            HandshakeError::Io(e) => "handshake i/o: "@ + e@,
        }
    }

    /// The failure in words.
    pub fn message(&self) -> (r: String)
        ensures
            r@ == self.words(),
    {
        match self {
            HandshakeError::BadMagic(m) => "bad handshake magic [".to_owned().concat(
                text::decimal_of(m[0] as u64).as_str(),
            ).concat(", ").concat(text::decimal_of(m[1] as u64).as_str()).concat(", ").concat(
                text::decimal_of(m[2] as u64).as_str(),
            ).concat(", ").concat(text::decimal_of(m[3] as u64).as_str()).concat("]"),
            HandshakeError::VersionMismatch { ours, theirs } => {
                "protocol version mismatch: ours v".to_owned().concat(
                    text::decimal_of(*ours as u64).as_str(),
                ).concat(", peer v").concat(text::decimal_of(*theirs as u64).as_str()).concat(
                    " — restart the daemon",
                )
            },
            HandshakeError::Rejected(code) => "daemon rejected handshake (code ".to_owned().concat(
                text::hex_of(*code).as_str(),
            ).concat("): daemon and client protocol versions differ — restart the daemon"),
            HandshakeError::UnexpectedReply(code) => {
                "unexpected handshake reply ".to_owned().concat(text::hex_of(*code).as_str())
            },
            HandshakeError::Io(e) => "handshake i/o: ".to_owned().concat(e.as_str()),
        }
    }
}

/// Machine-readable error category carried in `Response::Failed`.
#[derive(Debug, Clone, Copy, PartialEq, Eq, Structural)]
pub enum ErrorKind {
    /// Request named a provider the daemon does not know.
    UnknownProvider,
    /// Request named an account the daemon does not know.
    UnknownAccount,
    /// Request was structurally valid but semantically bad.
    BadRequest,
    /// Storage layer failure.
    Storage,
    /// Anything else that went wrong inside the daemon.
    Internal,
}

impl ErrorKind {
    /// The category in words.
    pub open spec fn words(self) -> Seq<char> {
        match self {
            ErrorKind::UnknownProvider => "unknown provider"@,
            ErrorKind::UnknownAccount => "unknown account"@,
            ErrorKind::BadRequest => "bad request"@,
            ErrorKind::Storage => "storage error"@,
            ErrorKind::Internal => "internal error"@,
        }
    }

    /// The category in words.
    pub fn message(self) -> (r: &'static str)
        ensures
            r@ == self.words(),
    {
        match self {
            ErrorKind::UnknownProvider => "unknown provider",
            ErrorKind::UnknownAccount => "unknown account",
            ErrorKind::BadRequest => "bad request",
            ErrorKind::Storage => "storage error",
            ErrorKind::Internal => "internal error",
        }
    }
}

/// Why no credential could be had for an account.
#[derive(Debug, PartialEq, Eq)]
pub enum AuthError {
    /// Nobody is logged in.
    NotLoggedIn(String),
    /// The stored credential has expired.
    Expired(String),
    /// The credential store could not be read.
    Store(String),
}

/// Why a probe produced no response to parse.
#[derive(Debug, PartialEq, Eq)]
pub enum ProbeError {
    /// The provider refused the credential.
    Auth(String),
    /// The request did not go through.
    Network(String),
    /// The provider rate-limited the probe.
    RateLimited {
        /// Provider-suggested retry delay, if any.
        retry_after: Option<Duration>,
    },
    /// The provider answered with an error of its own.
    Provider(String),
}

/// Why a response could not be parsed.
#[derive(Debug, PartialEq, Eq)]
pub enum ParseError {
    /// The response no longer matches the expected schema.
    SchemaDrift(String),
}

/// What an error category is called.
pub proof fn categories_are_named(kind: ErrorKind)
    ensures
        kind is UnknownProvider ==> kind.words() == "unknown provider"@,
        kind is UnknownAccount ==> kind.words() == "unknown account"@,
        kind is BadRequest ==> kind.words() == "bad request"@,
        kind is Storage ==> kind.words() == "storage error"@,
        kind is Internal ==> kind.words() == "internal error"@,
{
}

/// A version mismatch names both versions, ours first, and says what to do.
pub proof fn a_mismatch_names_both_versions(ours: u16, theirs: u16, code: u8)
    ensures
        (HandshakeError::VersionMismatch { ours, theirs }).words()
            == "protocol version mismatch: ours v"@ + text::decimal(ours as nat) + ", peer v"@
            + text::decimal(theirs as nat) + " — restart the daemon"@,
        HandshakeError::Rejected(code).words() == "daemon rejected handshake (code "@
            + text::hex_byte(code)
            + "): daemon and client protocol versions differ — restart the daemon"@,
        HandshakeError::UnexpectedReply(code).words() == "unexpected handshake reply "@
            + text::hex_byte(code),
{
}

} // verus!

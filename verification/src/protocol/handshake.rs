//! Hand-decoded, never-changing connection handshake.
//!
//! First 6 bytes on every connection, raw, so the handshake itself can never
//! go stale across versions. The daemon replies with a single fixed byte and
//! closes the connection on mismatch.

use vstd::prelude::*;

use crate::error::HandshakeError;

verus! {

/// Magic bytes opening every connection: `TEIR`.
pub const PROTOCOL_MAGIC: [u8; 4] = [0x54, 0x45, 0x49, 0x52];

/// Current wire protocol version (little-endian u16 on the wire).
pub const PROTOCOL_VERSION: u16 = 6;

/// Daemon reply: handshake accepted, framed messages may follow.
pub const HELLO_ACCEPTED: u8 = 0x00;

/// Daemon reply: protocol version mismatch, connection will be closed.
pub const HELLO_REJECTED_VERSION: u8 = 0x01;

/// The 6-byte hello: magic followed by the protocol version.
#[derive(Debug, Clone, Copy, PartialEq, Eq)]
pub struct Hello {
    /// Must equal [`PROTOCOL_MAGIC`].
    pub magic: [u8; 4],
    /// Sender's protocol version.
    pub protocol_version: u16,
}

/// The wire form of a hello: four magic bytes, then the version, low byte
/// first.
pub open spec fn wire_form(magic: Seq<u8>, version: u16) -> Seq<u8> {
    seq![
        magic[0],
        magic[1],
        magic[2],
        magic[3],
        (version % 256) as u8,
        (version / 256) as u8,
    ]
}

impl Hello {
    /// Hello for the running build.
    pub fn current() -> (r: Self)
        ensures
            r.magic@ == PROTOCOL_MAGIC@,
            r.protocol_version == PROTOCOL_VERSION,
    {
        Hello { magic: PROTOCOL_MAGIC, protocol_version: PROTOCOL_VERSION }
    }

    /// Raw wire representation.
    pub fn to_bytes(self) -> (r: [u8; 6])
        ensures
            r@ == wire_form(self.magic@, self.protocol_version),
    {
        let r = [
            self.magic[0],
            self.magic[1],
            self.magic[2],
            self.magic[3],
            (self.protocol_version % 256) as u8,
            (self.protocol_version / 256) as u8,
        ];
        assert(r@ =~= wire_form(self.magic@, self.protocol_version));
        r
    }

    /// Parse the raw wire representation.
    pub fn from_bytes(buf: [u8; 6]) -> (r: Self)
        ensures
            r.magic@ == buf@.take(4),
            r.protocol_version == buf@[4] + buf@[5] * 256,
    {
        let magic = [buf[0], buf[1], buf[2], buf[3]];
        assert(magic@ =~= buf@.take(4));
        Hello { magic, protocol_version: buf[4] as u16 + buf[5] as u16 * 256 }
    }
}

/// What a hello is written as reads back as that hello: the magic and the
/// version of the wire form are those it was made from.
pub proof fn hellos_round_trip(magic: Seq<u8>, version: u16)
    requires
        magic.len() == 4,
    ensures
        wire_form(magic, version).len() == 6,
        wire_form(magic, version).take(4) == magic,
        wire_form(magic, version)[4] + wire_form(magic, version)[5] * 256 == version,
{
    assert(wire_form(magic, version).take(4) =~= magic);
}

/// Client side: what the daemon's reply to our hello means.
pub fn client_verdict(reply: u8) -> (r: Result<(), HandshakeError>)
    ensures
        match r {
            Ok(()) => reply == HELLO_ACCEPTED,
            Err(HandshakeError::Rejected(code)) => reply == HELLO_REJECTED_VERSION && code
                == reply,
            Err(HandshakeError::UnexpectedReply(code)) => {
                &&& reply != HELLO_ACCEPTED
                &&& reply != HELLO_REJECTED_VERSION
                &&& code == reply
            },
            Err(_) => false,
        },
{
    if reply == HELLO_ACCEPTED {
        Ok(())
    } else if reply == HELLO_REJECTED_VERSION {
        Err(HandshakeError::Rejected(HELLO_REJECTED_VERSION))
    } else {
        Err(HandshakeError::UnexpectedReply(reply))
    }
}

/// What the daemon does with a hello: the byte it answers, if any, and whether
/// framed messages may follow.
#[derive(Debug, PartialEq, Eq)]
pub struct ServerVerdict {
    /// The byte to write before anything else.
    pub reply: Option<u8>,
    /// Whether the connection goes on.
    pub outcome: Result<(), HandshakeError>,
}

/// Server side: accept or reject a peer's hello.
///
/// On success the accept byte is to be written and framed messages may follow.
/// On failure the reject byte is to be written (where applicable) and the
/// connection closed without decoding anything further.
pub fn server_verdict(buf: [u8; 6]) -> (r: ServerVerdict)
    ensures
        ({
            let magic = buf@.take(4);
            let version = buf@[4] + buf@[5] * 256;
            if magic != PROTOCOL_MAGIC@ {
                &&& r.reply is None
                &&& r.outcome matches Err(HandshakeError::BadMagic(m)) && m@ == magic
            } else if version != PROTOCOL_VERSION {
                &&& r.reply == Some(HELLO_REJECTED_VERSION)
                &&& r.outcome matches Err(HandshakeError::VersionMismatch { ours, theirs }) && ours
                    == PROTOCOL_VERSION && theirs == version
            } else {
                &&& r.reply == Some(HELLO_ACCEPTED)
                &&& r.outcome is Ok
            }
        }),
{
    let hello = Hello::from_bytes(buf);
    let ours = hello.magic[0] == PROTOCOL_MAGIC[0] && hello.magic[1] == PROTOCOL_MAGIC[1]
        && hello.magic[2] == PROTOCOL_MAGIC[2] && hello.magic[3] == PROTOCOL_MAGIC[3];
    assert(ours ==> hello.magic@ =~= PROTOCOL_MAGIC@);
    if !ours {
        return ServerVerdict {
            reply: None,
            outcome: Err(HandshakeError::BadMagic(hello.magic)),
        };
    }
    if hello.protocol_version != PROTOCOL_VERSION {
        return ServerVerdict {
            reply: Some(HELLO_REJECTED_VERSION),
            outcome: Err(
                HandshakeError::VersionMismatch {
                    ours: PROTOCOL_VERSION,
                    theirs: hello.protocol_version,
                },
            ),
        };
    }
    ServerVerdict { reply: Some(HELLO_ACCEPTED), outcome: Ok(()) }
}

/// A peer of the same build is accepted, and hears so.
pub proof fn a_current_hello_is_accepted(buf: Seq<u8>)
    requires
        buf == wire_form(PROTOCOL_MAGIC@, PROTOCOL_VERSION),
    ensures
        buf.take(4) == PROTOCOL_MAGIC@,
        buf[4] + buf[5] * 256 == PROTOCOL_VERSION,
{
    hellos_round_trip(PROTOCOL_MAGIC@, PROTOCOL_VERSION);
}

/// A hello is six bytes: the four of the magic, then the version, its lower byte
/// first.
pub proof fn a_hello_is_magic_then_version(magic: Seq<u8>, version: u16)
    requires
        magic.len() == 4,
    ensures
        wire_form(magic, version).len() == 6,
        wire_form(magic, version).take(4) == magic,
        wire_form(magic, version)[4] + 0x100 * wire_form(magic, version)[5] == version,
{
    assert(wire_form(magic, version).take(4) =~= magic);
}

/// What both sides speak: version six, behind the letters `TEIR`; and how a hello
/// is answered.
pub proof fn what_both_sides_speak()
    ensures
        PROTOCOL_MAGIC@ == seq!['T' as u8, 'E' as u8, 'I' as u8, 'R' as u8],
        PROTOCOL_VERSION == 6,
        HELLO_ACCEPTED == 0,
        HELLO_REJECTED_VERSION == 1,
{
    assert(PROTOCOL_MAGIC@ =~= seq!['T' as u8, 'E' as u8, 'I' as u8, 'R' as u8]);
}

} // verus!

//! Length-delimited framing.
//!
//! Both sides must configure the codec identically: u32 little-endian length
//! prefix, frames capped at [`MAX_FRAME_LEN`] so a garbage or oversized frame
//! from a misbehaving peer is rejected instead of buffered unbounded.

use tokio_util::codec::{Decoder, Encoder, LengthDelimitedCodec};
use vstd::prelude::*;

verus! {

/// Maximum frame payload size (1 MiB).
pub const MAX_FRAME_LEN: usize = 1_048_576;

/// A frame longer than [`MAX_FRAME_LEN`].
#[derive(Debug, Clone, Copy, PartialEq, Eq, Structural)]
pub struct FrameTooLong;

/// A number below two to the 32nd, low byte first.
pub open spec fn prefix(n: int) -> Seq<u8> {
    seq![
        (n % 256) as u8,
        (n / 256 % 256) as u8,
        (n / 65_536 % 256) as u8,
        (n / 16_777_216 % 256) as u8,
    ]
}

/// The number four bytes spell, low byte first.
pub open spec fn prefixed(buf: Seq<u8>) -> int {
    buf[0] + buf[1] * 256 + buf[2] * 65_536 + buf[3] * 16_777_216
}

/// A payload as a frame: its length, then itself.
pub open spec fn framed(payload: Seq<u8>) -> Seq<u8> {
    prefix(payload.len() as int) + payload
}

/// What the front of a buffer holds.
pub enum Front {
    /// Not a whole frame yet.
    Partial,
    /// The length of a frame that is too long.
    TooLong,
    /// A frame, and what follows it.
    Frame(Seq<u8>, Seq<u8>),
}

/// What the front of a buffer holds, with frames capped at `max`.
pub open spec fn front_of(buf: Seq<u8>, max: int) -> Front {
    if buf.len() < 4 {
        Front::Partial
    } else if prefixed(buf) > max {
        Front::TooLong
    } else if buf.len() < 4 + prefixed(buf) {
        Front::Partial
    } else {
        Front::Frame(buf.subrange(4, 4 + prefixed(buf)), buf.skip(4 + prefixed(buf)))
    }
}

/// `LengthDelimitedCodec`'s encoder, with a little-endian `u32` length field
/// and frames capped at `max`, writes a payload's length and then the payload;
/// a payload longer than `max` is an error.
#[verifier::external_body]
fn codec_encode(payload: &[u8], max: usize) -> (r: Option<Vec<u8>>)
    requires
        max <= 0xffff_ffff,
    ensures
        r is Some <==> payload@.len() <= max,
        r matches Some(bytes) ==> bytes@ == framed(payload@),
{
    let mut codec = LengthDelimitedCodec::builder()
        .length_field_type::<u32>()
        .little_endian()
        .max_frame_length(max)
        .new_codec();
    let mut dst = bytes::BytesMut::new();
    codec.encode(bytes::Bytes::copy_from_slice(payload), &mut dst).ok()?;
    Some(dst.to_vec())
}

/// `LengthDelimitedCodec`'s decoder, configured the same way and starting
/// afresh, takes one frame off the front of a buffer: nothing while the frame
/// is not whole, an error when its length is over `max`.
#[verifier::external_body]
fn codec_decode(buf: &[u8], max: usize) -> (r: Result<Option<(Vec<u8>, Vec<u8>)>, ()>)
    requires
        max <= 0xffff_ffff,
    ensures
        match front_of(buf@, max as int) {
            Front::Partial => r matches Ok(None),
            Front::TooLong => r is Err,
            Front::Frame(frame, rest) => r matches Ok(Some((f, s))) && f@ == frame && s@ == rest,
        },
{
    let mut codec = LengthDelimitedCodec::builder()
        .length_field_type::<u32>()
        .little_endian()
        .max_frame_length(max)
        .new_codec();
    let mut src = bytes::BytesMut::from(buf);
    let frame = codec.decode(&mut src).map_err(|_| ())?;
    Ok(frame.map(|f| (f.to_vec(), src.to_vec())))
}

/// A payload as a frame.
pub fn frame_bytes(payload: &[u8]) -> (r: Result<Vec<u8>, FrameTooLong>)
    ensures
        match r {
            Ok(bytes) => payload@.len() <= MAX_FRAME_LEN && bytes@ == framed(payload@),
            Err(_) => payload@.len() > MAX_FRAME_LEN,
        },
{
    match codec_encode(payload, MAX_FRAME_LEN) {
        Some(bytes) => Ok(bytes),
        None => Err(FrameTooLong),
    }
}

/// The frame at the front of a buffer, and what follows it; `None` while it is
/// not whole.
pub fn next_frame(buf: &[u8]) -> (r: Result<Option<(Vec<u8>, Vec<u8>)>, FrameTooLong>)
    ensures
        match front_of(buf@, MAX_FRAME_LEN as int) {
            Front::Partial => r matches Ok(None),
            Front::TooLong => r is Err,
            Front::Frame(frame, rest) => r matches Ok(Some((f, s))) && f@ == frame && s@ == rest,
        },
{
    match codec_decode(buf, MAX_FRAME_LEN) {
        Ok(front) => Ok(front),
        Err(_) => Err(FrameTooLong),
    }
}

/// A frame that was written reads back as its payload, and leaves what follows
/// it alone.
pub proof fn frames_round_trip(payload: Seq<u8>, rest: Seq<u8>)
    requires
        payload.len() <= MAX_FRAME_LEN,
    ensures
        front_of(framed(payload) + rest, MAX_FRAME_LEN as int) == Front::Frame(payload, rest),
{
    let n = payload.len() as int;
    let buf = framed(payload) + rest;
    assert(prefixed(buf) == n);
    assert(buf.subrange(4, 4 + n) =~= payload);
    assert(buf.skip(4 + n) =~= rest);
}

/// Until its last byte has arrived, a frame is not there.
pub proof fn a_cut_frame_is_partial(payload: Seq<u8>, n: int)
    requires
        payload.len() <= MAX_FRAME_LEN,
        0 <= n < framed(payload).len(),
    ensures
        front_of(framed(payload).take(n), MAX_FRAME_LEN as int) == Front::Partial,
{
    let buf = framed(payload).take(n);
    if n >= 4 {
        assert(prefixed(buf) == payload.len());
    }
}

/// A header that claims too much is refused at once, however little has
/// arrived behind it.
pub proof fn an_oversized_header_is_refused(buf: Seq<u8>)
    requires
        buf.len() >= 4,
        prefixed(buf) > MAX_FRAME_LEN,
    ensures
        front_of(buf, MAX_FRAME_LEN as int) == Front::TooLong,
{
}

/// What stands at the front of a buffer is a frame exactly when the buffer is a
/// payload that is not too long, behind its length, and what follows it; and
/// then it is that payload, and that is what is left.
pub proof fn a_frame_is_a_payload_behind_its_length(
    buf: Seq<u8>,
    payload: Seq<u8>,
    rest: Seq<u8>,
    max: int,
)
    requires
        0 <= max < 0x1_0000_0000,
    ensures
        front_of(buf, max) == Front::Frame(payload, rest) <==> payload.len() <= max && buf
            == framed(payload) + rest,
        framed(payload).len() == payload.len() + 4,
        framed(payload).skip(4) == payload,
        payload.len() <= max ==> framed(payload)[0] + 0x100 * framed(payload)[1] + 0x1_0000
            * framed(payload)[2] + 0x100_0000 * framed(payload)[3] == payload.len(),
{
    assert(framed(payload).skip(4) =~= payload);
    let n = payload.len() as int;
    if n <= max {
        let b = framed(payload) + rest;
        assert(prefixed(b) == n);
        assert(b.subrange(4, 4 + n) =~= payload);
        assert(b.skip(4 + n) =~= rest);
    }
    if front_of(buf, max) == Front::Frame(payload, rest) {
        let k = prefixed(buf);
        assert(payload == buf.subrange(4, 4 + k));
        assert(n == k);
        let (a, b, c, d) = (buf[0] as int, buf[1] as int, buf[2] as int, buf[3] as int);
        assert(k == a + b * 256 + c * 65_536 + d * 16_777_216);
        assert(k % 256 == a);
        assert(k / 256 % 256 == b);
        assert(k / 65_536 % 256 == c);
        assert(k / 16_777_216 % 256 == d);
        assert(prefix(k) =~= buf.take(4));
        assert(buf =~= buf.take(4) + payload + rest);
        assert(buf =~= framed(payload) + rest);
    }
}

/// A length that is too great is told from its four bytes alone, the lowest
/// first; a payload of a mebibyte is not too long, one byte more is.
pub proof fn too_long_is_told_from_the_header(buf: Seq<u8>, max: int)
    ensures
        front_of(buf, max) is TooLong <==> buf.len() >= 4 && buf[0] + 0x100 * buf[1] + 0x1_0000
            * buf[2] + 0x100_0000 * buf[3] > max,
        MAX_FRAME_LEN == 0x10_0000,
{
}

} // verus!

//! Framing of messages between the daemon and the settings UI: every
//! message is a 4-byte little-endian length followed by that many bytes of
//! body. Bodies longer than [`MAX_MESSAGE_LEN`] are refused.

use vstd::prelude::*;

verus! {

/// Largest body a peer accepts (10 MiB).
pub const MAX_MESSAGE_LEN: usize = 10485760;

/// The four little-endian bytes of `n`.
pub open spec fn le32(n: nat) -> Seq<u8>
    recommends
        n < 0x1_0000_0000,
{
    seq![(n % 256) as u8, ((n / 256) % 256) as u8, ((n / 65536) % 256) as u8, ((n / 16777216) % 256) as u8]
}

/// The number that four little-endian bytes stand for.
pub open spec fn le32_value(b: Seq<u8>) -> nat
    recommends
        b.len() >= 4,
{
    (b[0] + 256 * b[1] + 65536 * b[2] + 16777216 * b[3]) as nat
}

/// The bytes that carry `body` on the wire. The length field holds the
/// body's length modulo 2^32, as a `u32` cast of it does.
pub open spec fn frame_bytes(body: Seq<u8>) -> Seq<u8> {
    le32(body.len() % 0x1_0000_0000) + body
}

/// What a reader makes of the bytes it has received so far.
pub enum FrameView {
    /// More bytes are needed before a frame is complete.
    Incomplete,
    /// The length field announces a body over the limit.
    TooLarge(nat),
    /// A whole frame: its body and the number of bytes it took.
    Complete(Seq<u8>, nat),
}

/// The frame at the start of `buf`, as the protocol defines it.
pub open spec fn spec_parse_frame(buf: Seq<u8>) -> FrameView {
    if buf.len() < 4 {
        FrameView::Incomplete
    } else {
        let n = le32_value(buf);
        if n > MAX_MESSAGE_LEN {
            FrameView::TooLarge(n)
        } else if buf.len() < 4 + n {
            FrameView::Incomplete
        } else {
            FrameView::Complete(buf.subrange(4, 4 + n as int), 4 + n)
        }
    }
}

/// Result of reading a frame from the front of a buffer.
#[derive(Debug)]
pub enum Frame {
    Incomplete,
    TooLarge(usize),
    Complete { body: Vec<u8>, consumed: usize },
}

impl View for Frame {
    type V = FrameView;

    open spec fn view(&self) -> FrameView {
        match self {
            Frame::Incomplete => FrameView::Incomplete,
            Frame::TooLarge(n) => FrameView::TooLarge(*n as nat),
            Frame::Complete { body, consumed } => FrameView::Complete(body@, *consumed as nat),
        }
    }
}

/// Why a length prefix was refused.
#[derive(Debug, Clone, Copy, PartialEq, Eq, Structural)]
pub enum FrameError {
    /// The announced body length exceeds [`MAX_MESSAGE_LEN`].
    TooLarge(usize),
}

/// Masking and shifting take out the little-endian bytes of `n`.
pub proof fn lemma_le32_bytes(n: u32)
    ensures
        (n & 0xff) as u8 == (n % 256) as u8,
        ((n >> 8) & 0xff) as u8 == ((n / 256) % 256) as u8,
        ((n >> 16) & 0xff) as u8 == ((n / 65536) % 256) as u8,
        ((n >> 24) & 0xff) as u8 == ((n / 16777216) % 256) as u8,
{
    assert((n & 0xff) as u8 == (n % 256) as u8) by (bit_vector);
    assert(((n >> 8) & 0xff) as u8 == ((n / 256) % 256) as u8) by (bit_vector);
    assert(((n >> 16) & 0xff) as u8 == ((n / 65536) % 256) as u8) by (bit_vector);
    assert(((n >> 24) & 0xff) as u8 == ((n / 16777216) % 256) as u8) by (bit_vector);
}

proof fn lemma_le32_compose(b0: u8, b1: u8, b2: u8, b3: u8)
    ensures
        ((b0 as u32) | ((b1 as u32) << 8) | ((b2 as u32) << 16) | ((b3 as u32) << 24)) as int
            == b0 + 256 * b1 + 65536 * b2 + 16777216 * b3,
{
    assert(((b0 as u32) | ((b1 as u32) << 8) | ((b2 as u32) << 16) | ((b3 as u32) << 24)) as int
        == b0 + 256 * b1 + 65536 * b2 + 16777216 * b3) by (bit_vector);
}

/// Little-endian bytes of a length, truncated to 32 bits.
pub fn encode_length(len: usize) -> (r: [u8; 4])
    ensures
        r@ == le32(len as nat % 0x1_0000_0000),
{
    let n = len as u32;
    proof {
        assert(n as nat == len as nat % 0x1_0000_0000) by (bit_vector)
            requires n == len as u32;
        lemma_le32_bytes(n);
    }
    let r = [(n & 0xff) as u8, ((n >> 8) & 0xff) as u8, ((n >> 16) & 0xff) as u8, ((n >> 24) & 0xff) as u8];
    assert(r@ =~= le32(len as nat % 0x1_0000_0000));
    r
}

/// Frame a message body for the wire: its length, then the body.
pub fn encode_frame(body: &[u8]) -> (r: Vec<u8>)
    requires
        body@.len() + 4 <= usize::MAX,
    ensures
        r@ == frame_bytes(body@),
{
    let prefix = encode_length(body.len());
    let mut out: Vec<u8> = Vec::with_capacity(body.len() + 4);
    out.push(prefix[0]);
    out.push(prefix[1]);
    out.push(prefix[2]);
    out.push(prefix[3]);
    assert(out@ =~= le32(body@.len() % 0x1_0000_0000));
    let mut i: usize = 0;
    while i < body.len()
        invariant
            i <= body@.len(),
            out@ =~= le32(body@.len() % 0x1_0000_0000) + body@.subrange(0, i as int),
        decreases body@.len() - i,
    {
        out.push(body[i]);
        assert(body@.subrange(0, i + 1) =~= body@.subrange(0, i as int).push(body@[i as int]));
        i = i + 1;
    }
    assert(body@.subrange(0, body@.len() as int) =~= body@);
    out
}

/// Check a received length prefix: its value, or the refusal when it
/// announces more than [`MAX_MESSAGE_LEN`] bytes.
pub fn decode_length(prefix: [u8; 4]) -> (r: Result<usize, FrameError>)
    ensures
        le32_value(prefix@) <= MAX_MESSAGE_LEN ==> r == Ok::<usize, FrameError>(le32_value(prefix@) as usize),
        le32_value(prefix@) > MAX_MESSAGE_LEN ==> r == Err::<usize, FrameError>(FrameError::TooLarge(le32_value(prefix@) as usize)),
{
    let v: u32 = (prefix[0] as u32) | ((prefix[1] as u32) << 8) | ((prefix[2] as u32) << 16) | ((prefix[3] as u32) << 24);
    proof {
        lemma_le32_compose(prefix[0], prefix[1], prefix[2], prefix[3]);
    }
    let len = v as usize;
    if len > MAX_MESSAGE_LEN {
        Err(FrameError::TooLarge(len))
    } else {
        Ok(len)
    }
}

/// Read the frame at the front of `buf`.
pub fn parse_frame(buf: &[u8]) -> (r: Frame)
    ensures
        r@ == spec_parse_frame(buf@),
{
    if buf.len() < 4 {
        return Frame::Incomplete;
    }
    let prefix = [buf[0], buf[1], buf[2], buf[3]];
    assert(le32_value(prefix@) == le32_value(buf@));
    match decode_length(prefix) {
        Err(FrameError::TooLarge(n)) => Frame::TooLarge(n),
        Ok(n) => {
            if buf.len() - 4 < n {
                Frame::Incomplete
            } else {
                let mut body: Vec<u8> = Vec::with_capacity(n);
                let mut i: usize = 0;
                while i < n
                    invariant
                        i <= n,
                        n + 4 <= buf@.len(),
                        buf@.len() == buf.len(),
                        body@ =~= buf@.subrange(4, 4 + i as int),
                    decreases n - i,
                {
                    body.push(buf[4 + i]);
                    assert(buf@.subrange(4, 4 + i + 1) =~= buf@.subrange(4, 4 + i as int).push(buf@[4 + i]));
                    i = i + 1;
                }
                Frame::Complete { body, consumed: n + 4 }
            }
        },
    }
}

/// Reading back a framed body gives the body, whatever bytes follow it,
/// provided the body is within the size limit.
pub proof fn lemma_frame_roundtrip(body: Seq<u8>, rest: Seq<u8>)
    requires
        body.len() <= MAX_MESSAGE_LEN,
    ensures
        spec_parse_frame(frame_bytes(body) + rest) == FrameView::Complete(body, body.len() + 4),
{
    let n = body.len();
    let buf = frame_bytes(body) + rest;
    assert(n % 0x1_0000_0000 == n);
    let b = le32(n);
    assert(le32_value(buf) == le32_value(b));
    assert(b[0] + 256 * b[1] + 65536 * b[2] + 16777216 * b[3] == n) by {
        let m = n as int;
        assert(0 <= m < 0x1_0000_0000);
        assert((m % 256) + 256 * ((m / 256) % 256) + 65536 * ((m / 65536) % 256) + 16777216 * ((m / 16777216) % 256) == m) by (nonlinear_arith)
            requires 0 <= m < 0x1_0000_0000;
    }
    assert(buf.subrange(4, 4 + n as int) =~= body);
}

/// A body over the limit is refused as soon as its length prefix arrives.
pub proof fn lemma_oversized_refused(body: Seq<u8>, rest: Seq<u8>)
    requires
        MAX_MESSAGE_LEN < body.len() < 0x1_0000_0000,
    ensures
        spec_parse_frame(frame_bytes(body) + rest) == FrameView::TooLarge(body.len()),
{
    let n = body.len();
    let buf = frame_bytes(body) + rest;
    let b = le32(n);
    assert(le32_value(buf) == le32_value(b));
    assert(b[0] + 256 * b[1] + 65536 * b[2] + 16777216 * b[3] == n) by {
        let m = n as int;
        assert((m % 256) + 256 * ((m / 256) % 256) + 65536 * ((m / 65536) % 256) + 16777216 * ((m / 16777216) % 256) == m) by (nonlinear_arith)
            requires 0 <= m < 0x1_0000_0000;
    }
}

} // verus!

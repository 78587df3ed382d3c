//! Framing of the byte stream: `action: u16 | length: u32 | payload`, both
//! integers big-endian, and what a read from the connection means.

use vstd::prelude::*;
use crate::endian::{be_value, read_u16_at, read_u32_at};

verus! {

/// Bytes before the payload: the action code and the payload length.
pub const HEADER_LEN: usize = 6;

/// One complete request frame.
#[derive(Debug)]
pub struct Frame {
    pub action: u16,
    pub payload: Vec<u8>,
    /// Bytes of the buffer that the frame took: header and payload.
    pub consumed: usize,
}

/// The payload length that the header of `buf` announces.
pub open spec fn announced_len(buf: Seq<u8>) -> nat {
    be_value(buf.subrange(2, 6))
}

/// Whether `buf` begins with a complete frame.
pub open spec fn frame_complete(buf: Seq<u8>) -> bool {
    buf.len() >= 6 && buf.len() >= 6 + announced_len(buf)
}

/// The frame that `buf` begins with, once it is complete. Bytes after it
/// are left for the next frame.
pub fn parse_frame(buf: &[u8]) -> (r: Option<Frame>)
    ensures
        r is Some <==> frame_complete(buf@),
        r matches Some(f) ==> {
            &&& f.action as nat == be_value(buf@.subrange(0, 2))
            &&& f.consumed == 6 + announced_len(buf@)
            &&& f.payload@ == buf@.subrange(6, f.consumed as int)
        },
{
    if buf.len() < HEADER_LEN {
        return None;
    }
    let n = read_u32_at(buf, 2);
    if ((buf.len() - HEADER_LEN) as u64) < (n as u64) {
        return None;
    }
    let action = read_u16_at(buf, 0);
    let end: usize = HEADER_LEN + n as usize;
    let mut payload: Vec<u8> = Vec::new();
    let mut i: usize = HEADER_LEN;
    while i < end
        invariant
            HEADER_LEN <= i <= end <= buf@.len(),
            payload@ == buf@.subrange(6, i as int),
        decreases end - i,
    {
        payload.push(buf[i]);
        i = i + 1;
        assert(payload@ =~= buf@.subrange(6, i as int));
    }
    Some(Frame { action, payload, consumed: end })
}

/// What a read from the connection means for the frame being gathered.
#[derive(Debug, Clone, Copy, PartialEq, Eq, Structural)]
pub enum ReadOutcome {
    /// Bytes arrived: keep gathering.
    Continue,
    /// The peer closed between frames.
    Closed,
    /// The peer closed in the middle of a frame.
    Reset,
}

/// The meaning of a read of `n` bytes onto `buffered` bytes already held.
pub fn after_read(buffered: usize, n: usize) -> (r: ReadOutcome)
    ensures
        n > 0 ==> r == ReadOutcome::Continue,
        n == 0 && buffered == 0 ==> r == ReadOutcome::Closed,
        n == 0 && buffered > 0 ==> r == ReadOutcome::Reset,
{
    if n > 0 {
        ReadOutcome::Continue
    } else if buffered == 0 {
        ReadOutcome::Closed
    } else {
        ReadOutcome::Reset
    }
}

} // verus!

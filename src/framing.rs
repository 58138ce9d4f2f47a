//! Byte-level framing of a log stream: splitting it into lines at each
//! newline byte, and unwrapping the container engine's multiplexed frames
//! (an 8-byte header whose last four bytes give the payload's length, big
//! endian, followed by that many payload bytes).

use vstd::prelude::*;

verus! {

/// The byte that ends a line.
pub const NEWLINE: u8 = 10;

/// Length of a multiplexed frame's header.
pub const FRAME_HEADER_LEN: usize = 8;

/// Collects the bytes of the line being read.
pub struct LineFramer {
    pub pending: Vec<u8>,
}

impl View for LineFramer {
    type V = Seq<u8>;

    open spec fn view(&self) -> Seq<u8> {
        self.pending@
    }
}

/// One byte through the line framer: a newline hands out the pending bytes as
/// a line and starts a new one; any other byte is appended.
pub open spec fn frame_step(pending: Seq<u8>, b: u8) -> (Seq<u8>, Option<Seq<u8>>) {
    if b == NEWLINE {
        (Seq::empty(), Some(pending))
    } else {
        (pending.push(b), None)
    }
}

impl LineFramer {
    pub fn new() -> (r: LineFramer)
        ensures
            r@ == Seq::<u8>::empty(),
    {
        LineFramer { pending: Vec::new() }
    }

    /// Takes one byte; returns the line it completes, without the newline.
    pub fn push(&mut self, b: u8) -> (line: Option<Vec<u8>>)
        ensures
            frame_step(old(self)@, b) == (final(self)@, match line {
                Some(l) => Some(l@),
                None => None::<Seq<u8>>,
            }),
    {
        if b == NEWLINE {
            let mut line: Vec<u8> = Vec::new();
            std::mem::swap(&mut line, &mut self.pending);
            proof {
                assert(self.pending@ =~= Seq::<u8>::empty());
            }
            Some(line)
        } else {
            self.pending.push(b);
            None
        }
    }
}

/// The payload length that a frame header gives: its last four bytes, big
/// endian.
pub open spec fn frame_length(h: Seq<u8>) -> int {
    h[4] as int * 16777216 + h[5] as int * 65536 + h[6] as int * 256 + h[7] as int
}

/// Unwraps multiplexed frames: the header read so far, and how many payload
/// bytes of the current frame are still to come.
pub struct FrameDecoder {
    pub header: Vec<u8>,
    pub remaining: u32,
}

impl View for FrameDecoder {
    type V = (Seq<u8>, u32);

    open spec fn view(&self) -> (Seq<u8>, u32) {
        (self.header@, self.remaining)
    }
}

/// A decoder is between frames or inside a payload, never both, and holds
/// less than a whole header.
pub open spec fn decoder_wf(d: (Seq<u8>, u32)) -> bool {
    d.0.len() < FRAME_HEADER_LEN && (d.1 > 0 ==> d.0.len() == 0)
}

/// One byte through the decoder: a payload byte passes through; a header
/// byte is kept, and the eighth one starts the payload that the header
/// announces.
pub open spec fn decode_step(d: (Seq<u8>, u32), b: u8) -> ((Seq<u8>, u32), Option<u8>) {
    if d.1 > 0 {
        ((d.0, (d.1 - 1) as u32), Some(b))
    } else if d.0.len() + 1 < FRAME_HEADER_LEN {
        ((d.0.push(b), 0), None)
    } else {
        ((Seq::empty(), frame_length(d.0.push(b)) as u32), None)
    }
}

impl FrameDecoder {
    pub fn new() -> (r: FrameDecoder)
        ensures
            r@ == (Seq::<u8>::empty(), 0u32),
            decoder_wf(r@),
    {
        FrameDecoder { header: Vec::new(), remaining: 0 }
    }

    /// Takes one byte of the multiplexed stream; returns it when it belongs
    /// to a payload.
    pub fn push(&mut self, b: u8) -> (payload: Option<u8>)
        requires
            decoder_wf(old(self)@),
        ensures
            decode_step(old(self)@, b) == (final(self)@, payload),
            decoder_wf(final(self)@),
    {
        if self.remaining > 0 {
            self.remaining = self.remaining - 1;
            return Some(b);
        }
        self.header.push(b);
        if self.header.len() < FRAME_HEADER_LEN {
            return None;
        }
        let h4 = self.header[4] as u32;
        let h5 = self.header[5] as u32;
        let h6 = self.header[6] as u32;
        let h7 = self.header[7] as u32;
        let len = h4 * 16777216 + h5 * 65536 + h6 * 256 + h7;
        self.header = Vec::new();
        self.remaining = len;
        proof {
            assert(self.header@ =~= Seq::<u8>::empty());
        }
        None
    }
}

} // verus!

//! Line framing: splitting a raw byte stream into discrete chunks at
//! terminator boundaries.
//!
//! A chunk is emitted for every `\n` or `\r` seen, tagged with which of the
//! two ended it. A bare carriage return (typical of progress indicators) must
//! surface as its own chunk rather than be coalesced into the next
//! newline-terminated line, so the two terminators are never conflated.

use vstd::prelude::*;

verus! {

/// Which byte ended a framed chunk. A bare carriage return signals
/// in-place-updating output and is kept distinct from a newline.
#[derive(Clone, Copy, Debug, PartialEq, Eq, Structural)]
pub enum LineEnding {
    Newline,
    CarriageReturn,
}

impl LineEnding {
    pub fn is_carriage_return(&self) -> (r: bool)
        ensures
            r == (*self is CarriageReturn),
    {
        match self {
            LineEnding::CarriageReturn => true,
            LineEnding::Newline => false,
        }
    }
}

/// The newline byte `\n`.
pub const NEWLINE_BYTE: u8 = 10;

/// The carriage-return byte `\r`.
pub const CARRIAGE_RETURN_BYTE: u8 = 13;

pub open spec fn is_terminator_byte(b: u8) -> bool {
    b == NEWLINE_BYTE || b == CARRIAGE_RETURN_BYTE
}

pub open spec fn ending_of_byte(b: u8) -> LineEnding
    recommends
        is_terminator_byte(b),
{
    if b == CARRIAGE_RETURN_BYTE {
        LineEnding::CarriageReturn
    } else {
        LineEnding::Newline
    }
}

/// The chunks produced by consuming `input` with `buf` already buffered,
/// paired with the bytes left buffered afterwards. Each chunk carries the
/// terminator that ended it; the terminator byte itself is excluded from the
/// chunk's payload.
pub open spec fn frame_from(buf: Seq<u8>, input: Seq<u8>) -> (Seq<(LineEnding, Seq<u8>)>, Seq<u8>)
    decreases input.len(),
{
    if input.len() == 0 {
        (Seq::empty(), buf)
    } else if is_terminator_byte(input[0]) {
        let rest = frame_from(Seq::empty(), input.skip(1));
        (seq![(ending_of_byte(input[0]), buf)] + rest.0, rest.1)
    } else {
        frame_from(buf.push(input[0]), input.skip(1))
    }
}

/// The view of a finished chunk list: each payload as a byte sequence.
pub open spec fn chunks_view(chunks: Seq<(LineEnding, Vec<u8>)>) -> Seq<(LineEnding, Seq<u8>)> {
    chunks.map_values(|c: (LineEnding, Vec<u8>)| (c.0, c.1@))
}

/// The terminator byte a rendered chunk ends with: a carriage return passes
/// through only while a single worker runs, so live-updating output keeps
/// rewriting its line; with several workers it becomes a newline, or one
/// worker's rewrite would corrupt another's line.
pub open spec fn render_terminator(num_cmds: int, ending: LineEnding) -> u8 {
    if num_cmds == 1 && ending is CarriageReturn {
        CARRIAGE_RETURN_BYTE
    } else {
        NEWLINE_BYTE
    }
}

/// Decides the terminator byte a rendered chunk ends with, from how many
/// workers run and which terminator ended the chunk.
pub fn chunk_terminator(num_cmds: usize, ending: LineEnding) -> (r: u8)
    ensures
        r == render_terminator(num_cmds as int, ending),
{
    if num_cmds == 1 && ending.is_carriage_return() {
        CARRIAGE_RETURN_BYTE
    } else {
        NEWLINE_BYTE
    }
}

/// Consumes a raw byte stream and emits discrete chunks split on `\n` or
/// `\r`, tagging each chunk with which terminator produced it. One framer is
/// used per stream, per worker.
pub struct LineFramer {
    buf: Vec<u8>,
}

impl View for LineFramer {
    type V = Seq<u8>;

    closed spec fn view(&self) -> Seq<u8> {
        self.buf@
    }
}

impl LineFramer {
    /// A framer with nothing buffered yet.
    pub fn new() -> (r: LineFramer)
        ensures
            r@ == Seq::<u8>::empty(),
    {
        LineFramer { buf: Vec::new() }
    }

    /// Consumes the next bytes read from the stream and returns every chunk
    /// they complete, in order; bytes after the last terminator stay
    /// buffered for the next call.
    pub fn feed(&mut self, input: &[u8]) -> (out: Vec<(LineEnding, Vec<u8>)>)
        ensures
            chunks_view(out@) == frame_from(old(self)@, input@).0,
            final(self)@ == frame_from(old(self)@, input@).1,
    {
        let ghost orig_buf: Seq<u8> = self.buf@;
        let mut out: Vec<(LineEnding, Vec<u8>)> = Vec::new();
        let mut i: usize = 0;
        proof {
            assert(input@.skip(0) =~= input@);
        }
        while i < input.len()
            invariant
                i <= input@.len(),
                frame_from(orig_buf, input@).0 =~= chunks_view(out@) + frame_from(
                    self.buf@,
                    input@.skip(i as int),
                ).0,
                frame_from(orig_buf, input@).1 == frame_from(self.buf@, input@.skip(i as int)).1,
            decreases input@.len() - i,
        {
            let b = input[i];
            let ghost rest = input@.skip(i as int);
            proof {
                assert(rest[0] == input@[i as int]);
                assert(rest.skip(1) =~= input@.skip(i + 1));
            }
            if b == NEWLINE_BYTE || b == CARRIAGE_RETURN_BYTE {
                let ending = if b == CARRIAGE_RETURN_BYTE {
                    LineEnding::CarriageReturn
                } else {
                    LineEnding::Newline
                };
                let mut chunk: Vec<u8> = Vec::new();
                core::mem::swap(&mut chunk, &mut self.buf);
                out.push((ending, chunk));
                proof {
                    assert(chunks_view(out@) =~= chunks_view(out@.drop_last()) + seq![
                        (ending, chunk@),
                    ]);
                }
            } else {
                self.buf.push(b);
            }
            i = i + 1;
        }
        proof {
            assert(input@.skip(input@.len() as int) =~= Seq::<u8>::empty());
        }
        out
    }

    /// Ends the stream. A non-empty buffer becomes one final chunk, framed
    /// as newline-terminated: the stream ended without a terminator, and the
    /// remaining bytes must not be lost.
    pub fn finish(self) -> (r: Option<(LineEnding, Vec<u8>)>)
        ensures
            r is Some <==> self@.len() > 0,
            r is Some ==> r->Some_0.0 is Newline && r->Some_0.1@ == self@,
    {
        if self.buf.len() == 0 {
            None
        } else {
            Some((LineEnding::Newline, self.buf))
        }
    }
}

} // verus!

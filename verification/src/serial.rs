//! Framing of the serial command channel: received bytes accumulate in a
//! fixed 32-byte buffer until a carriage return or line feed arrives or the
//! buffer fills, at which point the accumulated line is handed out and the
//! buffer cleared; a framed line is then parsed as a command.

use vstd::prelude::*;

verus! {

/// The fixed-capacity vector of the `heapless` crate, used as the line
/// buffer exactly as the firmware uses it on the board.
#[verifier::external_type_specification]
#[verifier::external_body]
#[verifier::reject_recursive_types(T)]
pub struct ExHeaplessVec<T, const N: usize>(heapless::Vec<T, N>);

/// The bytes a line buffer holds, oldest first.
pub uninterp spec fn buffer_bytes(v: heapless::Vec<u8, 32>) -> Seq<u8>;

/// Relies on heapless::Vec::new: a freshly constructed vector is empty.
#[verifier::external_body]
fn buffer_new() -> (v: heapless::Vec<u8, 32>)
    ensures
        buffer_bytes(v) == Seq::<u8>::empty(),
{
    heapless::Vec::new()
}

/// Relies on heapless::Vec::push: appends the item and returns `Ok` while
/// the vector holds fewer items than its capacity of 32, and returns the
/// item back in `Err`, leaving the contents unchanged, once it is full.
#[verifier::external_body]
fn buffer_push(v: &mut heapless::Vec<u8, 32>, b: u8) -> (r: Result<(), u8>)
    ensures
        r == (if buffer_bytes(*old(v)).len() < 32 {
            Ok::<(), u8>(())
        } else {
            Err::<(), u8>(b)
        }),
        buffer_bytes(*final(v)) == (if buffer_bytes(*old(v)).len() < 32 {
            buffer_bytes(*old(v)).push(b)
        } else {
            buffer_bytes(*old(v))
        }),
{
    v.push(b)
}

/// Relies on heapless::Vec::as_slice: the stored items, oldest first.
#[verifier::external_body]
fn buffer_as_slice(v: &heapless::Vec<u8, 32>) -> (s: &[u8])
    ensures
        s@ == buffer_bytes(*v),
{
    v.as_slice()
}

/// Relies on heapless::Vec::clear: removes every stored item.
#[verifier::external_body]
fn buffer_clear(v: &mut heapless::Vec<u8, 32>)
    ensures
        buffer_bytes(*final(v)) == Seq::<u8>::empty(),
{
    v.clear()
}

/// A carriage return or a line feed ends the current line.
pub open spec fn is_terminator(b: u8) -> bool {
    b == 13 || b == 10
}

/// The line, if any, framed when byte `b` reaches a buffer holding `s`: a
/// terminator yields the buffered bytes with the terminator excluded; a byte
/// that fills the buffer to 32 forces a flush of all 32; any other byte
/// yields no line yet.
pub open spec fn spec_line(s: Seq<u8>, b: u8) -> Option<Seq<u8>> {
    if is_terminator(b) {
        Some(s)
    } else if s.len() + 1 == 32 {
        Some(s.push(b))
    } else {
        None
    }
}

/// What stays buffered after byte `b`: nothing when a line was framed,
/// otherwise the old bytes with `b` appended.
pub open spec fn spec_rest(s: Seq<u8>, b: u8) -> Seq<u8> {
    if spec_line(s, b) is Some {
        Seq::<u8>::empty()
    } else {
        s.push(b)
    }
}

/// Accumulates received serial bytes into framed lines.
pub struct LineAccumulator {
    buf: heapless::Vec<u8, 32>,
}

impl LineAccumulator {
    /// The bytes buffered so far.
    pub closed spec fn bytes(self) -> Seq<u8> {
        buffer_bytes(self.buf)
    }

    /// Between calls the buffer is never full: the push that would fill it
    /// flushes instead.
    pub open spec fn wf(self) -> bool {
        self.bytes().len() < 32
    }

    /// An empty accumulator.
    pub fn new() -> (a: LineAccumulator)
        ensures
            a.wf(),
            a.bytes() == Seq::<u8>::empty(),
    {
        LineAccumulator { buf: buffer_new() }
    }

    /// Feed one received byte; returns the framed line when `b` completes
    /// one (terminator excluded, or all 32 bytes on a forced flush), after
    /// which the buffer is empty.
    pub fn push_byte(&mut self, b: u8) -> (line: Option<Vec<u8>>)
        requires
            old(self).wf(),
        ensures
            final(self).wf(),
            final(self).bytes() == spec_rest(old(self).bytes(), b),
            line is Some <==> spec_line(old(self).bytes(), b) is Some,
            line matches Some(l) ==> l@ == spec_line(old(self).bytes(), b)->Some_0,
    {
        if b == 13 || b == 10 {
            let line = vstd::slice::slice_to_vec(buffer_as_slice(&self.buf));
            buffer_clear(&mut self.buf);
            Some(line)
        } else {
            let r = buffer_push(&mut self.buf, b);
            match r {
                Ok(_) => {},
                Err(_) => {
                    proof {
                        assert(false);
                    }
                },
            }
            if buffer_as_slice(&self.buf).len() == 32 {
                let line = vstd::slice::slice_to_vec(buffer_as_slice(&self.buf));
                buffer_clear(&mut self.buf);
                Some(line)
            } else {
                None
            }
        }
    }
}

/// The one recognized command token: the ASCII bytes `SCAL`.
pub open spec fn scal_token() -> Seq<u8> {
    seq![83u8, 67u8, 65u8, 76u8]
}

/// A parsed serial command: the fixed recalibration trigger, or anything
/// else, which is reported and changes nothing.
#[derive(Clone, Copy, Debug, PartialEq, Eq, Structural)]
pub enum Command {
    Recalibrate,
    Unknown,
}

/// Parse one framed line: exactly the token `SCAL` is the recalibration
/// command; every other line is unknown.
pub fn parse_command(line: &Vec<u8>) -> (c: Command)
    ensures
        c == Command::Recalibrate <==> line@ == scal_token(),
{
    if line.len() == 4 && line[0] == 83 && line[1] == 67 && line[2] == 65 && line[3] == 76 {
        proof {
            assert(line@ =~= scal_token());
        }
        Command::Recalibrate
    } else {
        proof {
            if line@ == scal_token() {
                assert(line@.len() == 4);
                assert(line@[0] == 83 && line@[1] == 67 && line@[2] == 65 && line@[3] == 76);
                assert(false);
            }
        }
        Command::Unknown
    }
}

} // verus!

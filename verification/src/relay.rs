//! Byte relay between the two sides of a bridged session.
//!
//! An [`Endpoint`] models one side of the bridge (the PTY or the local
//! terminal) by the finite byte sequence its device makes available for
//! reading during a session, a cursor over how much of it reads have
//! consumed, and the bytes written to it. A read that returns no bytes
//! means the device's side has closed.

use vstd::prelude::*;

verus! {

/// Size in bytes of the fixed relay buffer: the most one read transfers.
pub const RELAY_CHUNK: usize = 4096;

/// Mathematical model of one side of the bridge.
#[verifier::ext_equal]
pub struct EndpointModel {
    /// Every byte the device makes available for reading, in order.
    pub input: Seq<u8>,
    /// How many of those bytes reads have consumed.
    pub read_pos: int,
    /// Every byte written to the device, in order.
    pub output: Seq<u8>,
}

impl EndpointModel {
    /// The read cursor stays within the available bytes.
    pub open spec fn wf(self) -> bool {
        0 <= self.read_pos <= self.input.len()
    }

    /// The bytes still to be read.
    pub open spec fn pending(self) -> Seq<u8> {
        self.input.subrange(self.read_pos, self.input.len() as int)
    }

    /// All available bytes are consumed: the next read reports end of file.
    pub open spec fn at_eof(self) -> bool {
        self.read_pos == self.input.len()
    }
}

/// The bytes one read of at most `max` bytes returns.
pub open spec fn spec_chunk(r: EndpointModel, max: int) -> Seq<u8> {
    if r.input.len() - r.read_pos <= max {
        r.input.subrange(r.read_pos, r.input.len() as int)
    } else {
        r.input.subrange(r.read_pos, r.read_pos + max)
    }
}

/// The reading side after one read of at most `max` bytes.
pub open spec fn spec_after_read(r: EndpointModel, max: int) -> EndpointModel {
    EndpointModel { read_pos: r.read_pos + spec_chunk(r, max).len(), ..r }
}

/// The writing side after `bytes` were written to it.
pub open spec fn spec_after_write(w: EndpointModel, bytes: Seq<u8>) -> EndpointModel {
    EndpointModel { output: w.output + bytes, ..w }
}

/// One side of the bridge, as the relay sees it.
pub struct Endpoint {
    input: Vec<u8>,
    read_pos: usize,
    output: Vec<u8>,
}

impl View for Endpoint {
    type V = EndpointModel;

    closed spec fn view(&self) -> EndpointModel {
        EndpointModel {
            input: self.input@,
            read_pos: self.read_pos as int,
            output: self.output@,
        }
    }
}

impl Endpoint {
    /// Invariant of the endpoint.
    pub open spec fn wf(&self) -> bool {
        self@.wf()
    }

    /// A fresh endpoint whose device will make exactly `input` available.
    pub fn new(input: Vec<u8>) -> (e: Endpoint)
        ensures
            e@.input == input@,
            e@.read_pos == 0,
            e@.output == Seq::<u8>::empty(),
            e.wf(),
    {
        let e = Endpoint { input, read_pos: 0, output: Vec::new() };
        proof {
            assert(e@.output =~= Seq::<u8>::empty());
        }
        e
    }

    /// Read at most `max` of the available bytes, in order. An empty
    /// result means everything available has been consumed: end of file.
    pub fn read_chunk(&mut self, max: usize) -> (chunk: Vec<u8>)
        requires
            old(self).wf(),
            1 <= max,
        ensures
            final(self).wf(),
            chunk@ == spec_chunk(old(self)@, max as int),
            final(self)@ == spec_after_read(old(self)@, max as int),
            chunk@.len() == 0 <==> old(self)@.at_eof(),
    {
        let ghost base = self@;
        let avail = self.input.len() - self.read_pos;
        let k = if max < avail { max } else { avail };
        let end = self.read_pos + k;
        let mut chunk: Vec<u8> = Vec::new();
        let mut idx = self.read_pos;
        while idx < end
            invariant
                self@ == base,
                base.wf(),
                base.read_pos <= idx as int <= end as int,
                end as int <= base.input.len(),
                chunk@ == base.input.subrange(base.read_pos, idx as int),
            decreases end - idx,
        {
            chunk.push(self.input[idx]);
            proof {
                assert(chunk@ =~= base.input.subrange(base.read_pos, idx + 1));
            }
            idx = idx + 1;
        }
        self.read_pos = end;
        proof {
            assert(chunk@ =~= spec_chunk(base, max as int));
            assert(self@ =~= spec_after_read(base, max as int));
        }
        chunk
    }

    /// Append `bytes` to what has been written to this endpoint.
    pub fn write_bytes(&mut self, bytes: &Vec<u8>)
        requires
            old(self).wf(),
        ensures
            final(self).wf(),
            final(self)@ == spec_after_write(old(self)@, bytes@),
    {
        let ghost base = self@;
        let mut i: usize = 0;
        while i < bytes.len()
            invariant
                i <= bytes@.len(),
                self@.input == base.input,
                self@.read_pos == base.read_pos,
                base.wf(),
                self@.output == base.output + bytes@.subrange(0, i as int),
            decreases bytes@.len() - i,
        {
            self.output.push(bytes[i]);
            proof {
                assert(self@.output =~= base.output + bytes@.subrange(0, i + 1));
            }
            i = i + 1;
        }
        proof {
            assert(bytes@.subrange(0, bytes@.len() as int) =~= bytes@);
            assert(self@ =~= spec_after_write(base, bytes@));
        }
    }

    /// The endpoint's read cursor consumed everything available.
    pub fn fully_read(&self) -> (r: bool)
        ensures
            r == self@.at_eof(),
    {
        self.read_pos == self.input.len()
    }

    /// The bytes written to this endpoint so far.
    pub fn written(&self) -> (r: &Vec<u8>)
        ensures
            r@ == self@.output,
    {
        &self.output
    }
}

/// Relay one chunk from `r` to `w`: read up to `max` bytes; a zero-length
/// read means the far side closed, which ends the session (the result is
/// `true`); otherwise write the whole chunk to `w`, in order.
pub fn proxy_write(max: usize, r: &mut Endpoint, w: &mut Endpoint) -> (done: bool)
    requires
        old(r).wf(),
        old(w).wf(),
        1 <= max,
    ensures
        final(r).wf(),
        final(w).wf(),
        done == old(r)@.at_eof(),
        done ==> final(r)@ == old(r)@ && final(w)@ == old(w)@,
        !done ==> final(r)@ == spec_after_read(old(r)@, max as int),
        !done ==> final(w)@ == spec_after_write(old(w)@, spec_chunk(old(r)@, max as int)),
{
    let chunk = r.read_chunk(max);
    if chunk.len() == 0 {
        proof {
            assert(r@ =~= old(r)@);
        }
        return true;
    }
    w.write_bytes(&chunk);
    false
}

/// Outcome of one write attempt against a real device, as the driving
/// process reports it.
#[derive(Clone, Copy, PartialEq, Eq, Structural, Debug)]
pub enum WriteOutcome {
    /// The device accepted this many bytes — possibly fewer than offered.
    Wrote(usize),
    /// The call was interrupted by a signal before writing anything.
    Interrupted,
    /// The call failed with this error number.
    Failed(i32),
}

/// The relay's policy for writing a whole chunk to a device that may
/// accept it piecemeal: `written` of `total` bytes are out so far, and
/// one write attempt on the remainder came back with `outcome`. A short
/// write advances the cursor and the rest is offered again; an
/// interrupted write is retried with nothing advanced; any other failure
/// aborts with its error number. The cursor never skips and never moves
/// back, so each byte of the chunk goes out exactly once, in order.
pub fn write_advance(total: usize, written: usize, outcome: WriteOutcome) -> (r: Result<
    usize,
    i32,
>)
    requires
        written <= total,
        outcome matches WriteOutcome::Wrote(n) ==> n <= total - written,
    ensures
        outcome matches WriteOutcome::Wrote(n) ==> r == Ok::<usize, i32>((written + n) as usize),
        outcome is Interrupted ==> r == Ok::<usize, i32>(written),
        outcome matches WriteOutcome::Failed(e) ==> r == Err::<usize, i32>(e),
        r matches Ok(w) ==> written <= w <= total,
{
    match outcome {
        WriteOutcome::Wrote(n) => Ok(written + n),
        WriteOutcome::Interrupted => Ok(written),
        WriteOutcome::Failed(e) => Err(e),
    }
}

/// Relay chunks from `r` to `w` until `r` reports end of file: every byte
/// still pending on `r` ends up appended to `w`'s output, in order, and
/// nothing else does.
pub fn relay_all(max: usize, r: &mut Endpoint, w: &mut Endpoint)
    requires
        old(r).wf(),
        old(w).wf(),
        1 <= max,
    ensures
        final(r).wf(),
        final(w).wf(),
        final(r)@.at_eof(),
        final(r)@.input == old(r)@.input,
        final(r)@.output == old(r)@.output,
        final(w)@.output == old(w)@.output + old(r)@.pending(),
        final(w)@.input == old(w)@.input,
        final(w)@.read_pos == old(w)@.read_pos,
{
    let ghost r0 = r@;
    let ghost w0 = w@;
    loop
        invariant
            r.wf(),
            w.wf(),
            1 <= max,
            r0.wf(),
            r@.input == r0.input,
            r@.output == r0.output,
            r0.read_pos <= r@.read_pos,
            w@.output == w0.output + r@.input.subrange(r0.read_pos, r@.read_pos),
            w@.input == w0.input,
            w@.read_pos == w0.read_pos,
        ensures
            r@.at_eof(),
            w@.output == w0.output + r@.input.subrange(r0.read_pos, r@.input.len() as int),
        decreases r@.input.len() - r@.read_pos,
    {
        let ghost pos_before = r@.read_pos;
        let done = proxy_write(max, r, w);
        if done {
            break;
        }
        proof {
            assert(r@.input.subrange(r0.read_pos, pos_before)
                + r@.input.subrange(pos_before, r@.read_pos)
                =~= r@.input.subrange(r0.read_pos, r@.read_pos));
        }
    }
}

} // verus!

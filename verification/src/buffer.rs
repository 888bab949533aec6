//! The output buffer and the pump that fills it.
//!
//! Everything the child writes is kept, in the order in which it arrived.
//! The buffer only grows: no operation removes or rewrites a byte that it
//! already holds.

use vstd::prelude::*;

verus! {

/// How many bytes the pump asks for in one read.
pub const READ_CHUNK: usize = 8192;

/// True when `later` starts with `earlier`: what was observed before is
/// still there, unchanged, and anything new stands behind it.
pub open spec fn extends(later: Seq<u8>, earlier: Seq<u8>) -> bool {
    earlier.len() <= later.len() && later.take(earlier.len() as int) == earlier
}

/// The bytes that the child has written so far.
#[derive(Debug)]
pub struct OutputBuffer {
    bytes: Vec<u8>,
}

impl View for OutputBuffer {
    type V = Seq<u8>;

    closed spec fn view(&self) -> Seq<u8> {
        self.bytes@
    }
}

/// How one read from the child ended.
#[derive(Debug, Clone, Copy, PartialEq, Eq, Structural)]
pub enum ReadOutcome {
    /// The read stored this many bytes at the start of the scratch space.
    /// Zero means that the child closed its side.
    Bytes(usize),
    /// The read failed.
    Failed,
}

/// What the pump does after a read.
#[derive(Debug, Clone, Copy, PartialEq, Eq, Structural)]
pub struct PumpStep {
    /// Read again.  When false the pump ends.
    pub keep_reading: bool,
    /// Tell the render loop that there is something new to show.
    pub mark_dirty: bool,
}

/// True when a read brought bytes to keep: it succeeded, was not empty, and
/// fits the scratch space it claims to have filled.
pub open spec fn brought_data(scratch: Seq<u8>, outcome: ReadOutcome) -> bool {
    outcome matches ReadOutcome::Bytes(n) && 0 < n <= scratch.len()
}

impl OutputBuffer {
    /// An empty buffer.
    pub fn new() -> (buffer: OutputBuffer)
        ensures
            buffer@ == Seq::<u8>::empty(),
    {
        OutputBuffer { bytes: Vec::new() }
    }

    /// The number of bytes held.
    pub fn len(&self) -> (n: usize)
        ensures
            n == self@.len(),
    {
        self.bytes.len()
    }

    /// The bytes held, oldest first.
    pub fn as_slice(&self) -> (bytes: &[u8])
        ensures
            bytes@ == self@,
    {
        self.bytes.as_slice()
    }

    /// Adds `chunk` behind what the buffer holds.
    pub fn append(&mut self, chunk: &[u8])
        ensures
            final(self)@ == old(self)@ + chunk@,
            extends(final(self)@, old(self)@),
    {
        self.bytes.extend_from_slice(chunk);
        assert((old(self)@ + chunk@).take(old(self)@.len() as int) =~= old(self)@);
    }

    /// One step of the pump, after a read into `scratch` ended as `outcome`.
    ///
    /// A read that brought bytes has them added to the buffer and the pump
    /// goes on.  An empty read, a failed one, or one that claims more bytes
    /// than `scratch` holds ends the pump and leaves the buffer as it was.
    /// Every step asks for the dirty flag to be raised, the last one too, so
    /// that a final frame is drawn.
    pub fn pump_step(&mut self, scratch: &[u8], outcome: ReadOutcome) -> (step: PumpStep)
        ensures
            step.mark_dirty,
            step.keep_reading == brought_data(scratch@, outcome),
            brought_data(scratch@, outcome) ==> final(self)@ == old(self)@ + scratch@.take(
                outcome->Bytes_0 as int,
            ),
            !brought_data(scratch@, outcome) ==> final(self)@ == old(self)@,
            extends(final(self)@, old(self)@),
    {
        match outcome {
            ReadOutcome::Bytes(n) => {
                if 0 < n && n <= scratch.len() {
                    let chunk = vstd::slice::slice_subrange(scratch, 0, n);
                    self.append(chunk);
                    PumpStep { keep_reading: true, mark_dirty: true }
                } else {
                    assert(self@.take(self@.len() as int) =~= self@);
                    PumpStep { keep_reading: false, mark_dirty: true }
                }
            },
            ReadOutcome::Failed => {
                assert(self@.take(self@.len() as int) =~= self@);
                PumpStep { keep_reading: false, mark_dirty: true }
            },
        }
    }
}

/// Whatever a buffer held at one observation, it holds at the next one of
/// itself: an observation extends itself.
pub proof fn lemma_extends_reflexive(bytes: Seq<u8>)
    ensures
        extends(bytes, bytes),
{
    assert(bytes.take(bytes.len() as int) =~= bytes);
}

/// Over any number of operations the buffer keeps what it held: if a later
/// observation extends a middle one, and that one extends an earlier one,
/// then the later one extends the earlier one, and is at least as long.
pub proof fn lemma_extends_transitive(first: Seq<u8>, second: Seq<u8>, third: Seq<u8>)
    requires
        extends(second, first),
        extends(third, second),
    ensures
        extends(third, first),
        first.len() <= third.len(),
{
    assert(third.take(first.len() as int) =~= third.take(second.len() as int).take(
        first.len() as int,
    ));
}

/// What the pump has added stays where it was added: every later
/// observation of the buffer holds the bytes of the chunk, in the place
/// behind what the buffer held before.  A frame that is fed the whole
/// buffer after the pump step therefore shows them.
pub proof fn lemma_pumped_bytes_stay(before: Seq<u8>, chunk: Seq<u8>, later: Seq<u8>)
    requires
        extends(later, before + chunk),
    ensures
        before.len() + chunk.len() <= later.len(),
        later.subrange(before.len() as int, (before.len() + chunk.len()) as int) == chunk,
{
    let grown = before + chunk;
    assert(later.subrange(before.len() as int, (before.len() + chunk.len()) as int) =~= later.take(
        grown.len() as int,
    ).subrange(before.len() as int, (before.len() + chunk.len()) as int));
}

} // verus!

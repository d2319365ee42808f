//! Collecting a reply of the modem from the serial line.
//!
//! The line is read one byte at a time with a short timeout. A read that
//! fails ends the reply; so does the sixth read that times out with no byte.

use vstd::prelude::*;

verus! {

/// Most reads that may come back empty before a reply is taken as complete.
pub const MAX_EMPTY_READS: usize = 5;

/// What one read of the line gave.
#[derive(Clone, Copy, Debug, PartialEq, Eq)]
pub enum LineRead {
    /// A byte arrived
    Byte(u8),
    /// The read timed out with no byte
    Nothing,
    /// The read failed
    Failed,
}

/// A reply being collected: the bytes so far and the count of empty reads.
pub struct ReplyCollector {
    bytes: Vec<u8>,
    empty_reads: usize,
}

impl ReplyCollector {
    /// The bytes collected so far.
    pub closed spec fn spec_bytes(&self) -> Seq<u8> {
        self.bytes@
    }

    /// How many reads came back empty so far.
    pub closed spec fn spec_empty_reads(&self) -> nat {
        self.empty_reads as nat
    }

    /// Nothing collected yet.
    pub fn new() -> (r: ReplyCollector)
        ensures
            r.spec_bytes() == Seq::<u8>::empty(),
            r.spec_empty_reads() == 0,
    {
        ReplyCollector { bytes: Vec::new(), empty_reads: 0 }
    }

    /// Takes the outcome of one read; gives whether to read again. A byte
    /// is kept; an empty read is counted, and reading stops once more than
    /// [`MAX_EMPTY_READS`] reads came back empty; a failed read stops
    /// reading.
    pub fn on_read(&mut self, outcome: LineRead) -> (more: bool)
        requires
            old(self).spec_empty_reads() <= MAX_EMPTY_READS,
        ensures
            outcome matches LineRead::Byte(b) ==> final(self).spec_bytes() == old(
                self,
            ).spec_bytes().push(b) && final(self).spec_empty_reads() == old(self).spec_empty_reads(),
            outcome == LineRead::Nothing ==> final(self).spec_bytes() == old(self).spec_bytes()
                && final(self).spec_empty_reads() == old(self).spec_empty_reads() + 1,
            outcome == LineRead::Failed ==> final(self).spec_bytes() == old(self).spec_bytes()
                && final(self).spec_empty_reads() == old(self).spec_empty_reads(),
            more <==> outcome != LineRead::Failed && final(self).spec_empty_reads()
                <= MAX_EMPTY_READS,
    {
        match outcome {
            LineRead::Byte(b) => {
                self.bytes.push(b);
                true
            },
            LineRead::Nothing => {
                self.empty_reads = self.empty_reads + 1;
                self.empty_reads <= MAX_EMPTY_READS
            },
            LineRead::Failed => false,
        }
    }

    /// The reply.
    pub fn into_bytes(self) -> (r: Vec<u8>)
        ensures
            r@ == self.spec_bytes(),
    {
        self.bytes
    }
}

} // verus!

//! The reader: it turns what was read from the input into blocks, counts
//! them, and offers them to the queue.
//!
//! The reader performs no input itself. It says what it needs next, and is
//! told what came of it.

use crate::error::PipeError;
use crate::queue::{BlockQueue, Enqueued, QueueView};
use vstd::prelude::*;

verus! {

/// What the reader needs next.
#[derive(Clone, Copy, Debug, PartialEq, Eq)]
pub enum ReaderAction {
    /// Read up to this many bytes from the input and report what came.
    Read(u64),
    /// The queue is full: wait until a block has left it, then try again.
    Wait,
    /// The reader is done, with this result.
    Stop(Result<(), PipeError>),
}

/// Where a reader stands.
pub enum ReaderPhaseView {
    /// It waits for the next read.
    Reading,
    /// It holds a block that the queue has not taken yet.
    Offering(Seq<u8>),
    /// It is done.
    Finished(Result<(), PipeError>),
}

/// What a `Reader` stands for.
pub struct ReaderView {
    /// The number of bytes in a full block.
    pub block_size: nat,
    /// What the reader is doing.
    pub phase: ReaderPhaseView,
    /// The number of blocks read so far.
    pub blocks_read: nat,
}

impl ReaderView {
    /// The reader before its first read.
    pub open spec fn fresh(block_size: nat) -> ReaderView {
        ReaderView { block_size, phase: ReaderPhaseView::Reading, blocks_read: 0 }
    }

    /// A full block holds a byte at least, and a block held back is neither
    /// empty nor larger than a full one.
    pub open spec fn wf(self) -> bool {
        &&& self.block_size > 0
        &&& self.phase matches ReaderPhaseView::Offering(block) ==> 0 < block.len()
            <= self.block_size
    }

    /// What the reader needs next.
    pub open spec fn action(self) -> ReaderAction {
        match self.phase {
            ReaderPhaseView::Reading => ReaderAction::Read(self.block_size as u64),
            ReaderPhaseView::Offering(_) => ReaderAction::Wait,
            ReaderPhaseView::Finished(result) => ReaderAction::Stop(result),
        }
    }

    /// The bytes that the reader holds and the queue has not taken.
    pub open spec fn pending(self) -> Seq<u8> {
        match self.phase {
            ReaderPhaseView::Offering(block) => block,
            _ => Seq::empty(),
        }
    }

    /// The reader with another phase.
    pub open spec fn at(self, phase: ReaderPhaseView) -> ReaderView {
        ReaderView { phase, ..self }
    }
}

/// The reader and the queue after `block`, already counted, was offered.
///
/// A queue that takes no more blocks ends the reader with `SendFailed`. A
/// full queue leaves the block with the reader. Otherwise the block is
/// enqueued; a block shorter than a full one is the last, and after it the
/// reader closes the queue and ends.
pub open spec fn offer(reader: ReaderView, queue: QueueView, block: Seq<u8>) -> (
    ReaderView,
    QueueView,
) {
    if queue.refuses() {
        (reader.at(ReaderPhaseView::Finished(Err(PipeError::SendFailed))), queue.close())
    } else if queue.full() {
        (reader.at(ReaderPhaseView::Offering(block)), queue)
    } else if block.len() < reader.block_size {
        (reader.at(ReaderPhaseView::Finished(Ok(()))), queue.enqueue(block).close())
    } else {
        (reader.at(ReaderPhaseView::Reading), queue.enqueue(block))
    }
}

/// Whether a read that gave `bytes` is what `reader` waits for.
pub open spec fn read_expected(reader: ReaderView, bytes: Seq<u8>) -> bool {
    reader.phase is Reading && bytes.len() <= reader.block_size
}

/// The reader and the queue after a read gave `bytes`.
///
/// No bytes at all are the end of the input: the reader closes the queue and
/// ends. Otherwise the block is counted and then offered to the queue.
pub open spec fn read_done(reader: ReaderView, queue: QueueView, bytes: Seq<u8>) -> (
    ReaderView,
    QueueView,
) {
    if !read_expected(reader, bytes) {
        (reader, queue)
    } else if bytes.len() == 0 {
        (reader.at(ReaderPhaseView::Finished(Ok(()))), queue.close())
    } else {
        offer(ReaderView { blocks_read: reader.blocks_read + 1, ..reader }, queue, bytes)
    }
}

/// The reader and the queue after a read failed: the queue is closed, so
/// that the writer does not wait for blocks that will not come.
pub open spec fn read_failed(reader: ReaderView, queue: QueueView) -> (ReaderView, QueueView) {
    if reader.phase is Reading {
        (reader.at(ReaderPhaseView::Finished(Err(PipeError::ReadFailed))), queue.close())
    } else {
        (reader, queue)
    }
}

/// The reader and the queue after the block held back was offered again.
pub open spec fn retry(reader: ReaderView, queue: QueueView) -> (ReaderView, QueueView) {
    match reader.phase {
        ReaderPhaseView::Offering(block) => offer(reader, queue, block),
        _ => (reader, queue),
    }
}

enum ReaderPhase {
    Reading,
    Offering(Vec<u8>),
    Finished(Result<(), PipeError>),
}

impl View for ReaderPhase {
    type V = ReaderPhaseView;

    closed spec fn view(&self) -> ReaderPhaseView {
        match self {
            ReaderPhase::Reading => ReaderPhaseView::Reading,
            ReaderPhase::Offering(block) => ReaderPhaseView::Offering(block@),
            ReaderPhase::Finished(result) => ReaderPhaseView::Finished(*result),
        }
    }
}

/// The reading end of a pipe.
pub struct Reader {
    block_size: u64,
    phase: ReaderPhase,
    blocks_read: u64,
}

impl View for Reader {
    type V = ReaderView;

    closed spec fn view(&self) -> ReaderView {
        ReaderView {
            block_size: self.block_size as nat,
            phase: self.phase@,
            blocks_read: self.blocks_read as nat,
        }
    }
}

impl Reader {
    #[verifier::type_invariant]
    spec fn inv(self) -> bool {
        self@.wf()
    }

    /// A reader of blocks of `block_size` bytes, before its first read.
    pub fn new(block_size: u64) -> (reader: Reader)
        requires
            block_size > 0,
        ensures
            reader@ == ReaderView::fresh(block_size as nat),
    {
        Reader { block_size, phase: ReaderPhase::Reading, blocks_read: 0 }
    }

    /// The number of bytes in a full block.
    pub fn block_size(&self) -> (size: u64)
        ensures
            size == self@.block_size,
            size > 0,
    {
        proof {
            use_type_invariant(self);
        }
        self.block_size
    }

    /// The number of blocks read so far.
    pub fn blocks_read(&self) -> (count: u64)
        ensures
            count == self@.blocks_read,
    {
        self.blocks_read
    }

    /// What the reader needs next.
    pub fn action(&self) -> (action: ReaderAction)
        ensures
            action == self@.action(),
    {
        match &self.phase {
            ReaderPhase::Reading => ReaderAction::Read(self.block_size),
            ReaderPhase::Offering(_) => ReaderAction::Wait,
            ReaderPhase::Finished(result) => ReaderAction::Stop(*result),
        }
    }

    /// Offers a counted block to the queue and moves on by what came of it.
    fn offer(&mut self, queue: &mut BlockQueue, block: Vec<u8>) -> (action: ReaderAction)
        requires
            0 < block@.len() <= old(self)@.block_size,
        ensures
            (final(self)@, final(queue)@) == offer(old(self)@, old(queue)@, block@),
            action == final(self)@.action(),
            final(self)@.wf(),
            final(queue)@.wf(),
    {
        proof {
            use_type_invariant(&*self);
        }
        let short = (block.len() as u64) < self.block_size;
        match queue.try_enqueue(block) {
            Enqueued::Accepted => {
                if short {
                    queue.close();
                    self.phase = ReaderPhase::Finished(Ok(()));
                } else {
                    self.phase = ReaderPhase::Reading;
                }
            },
            Enqueued::Full(back) => {
                self.phase = ReaderPhase::Offering(back);
            },
            Enqueued::Refused(_) => {
                queue.close();
                self.phase = ReaderPhase::Finished(Err(PipeError::SendFailed));
            },
        }
        self.action()
    }

    /// Takes in what a read gave.
    ///
    /// `bytes` holds what the read returned, at most a full block. Fewer
    /// bytes than a full block mean that the input has ended; what came is
    /// still passed on, unless it is nothing. Each block that holds a byte is
    /// counted before it is offered to the queue.
    pub fn read_done(&mut self, queue: &mut BlockQueue, bytes: Vec<u8>) -> (action: ReaderAction)
        requires
            read_expected(old(self)@, bytes@),
            old(self)@.blocks_read < u64::MAX,
        ensures
            (final(self)@, final(queue)@) == read_done(old(self)@, old(queue)@, bytes@),
            action == final(self)@.action(),
            final(self)@.blocks_read == old(self)@.blocks_read + if bytes@.len() > 0 {
                1nat
            } else {
                0nat
            },
            final(self)@.wf(),
            final(queue)@.wf(),
    {
        proof {
            use_type_invariant(&*self);
        }
        if bytes.len() == 0 {
            queue.close();
            self.phase = ReaderPhase::Finished(Ok(()));
            self.action()
        } else {
            self.blocks_read = self.blocks_read + 1;
            self.offer(queue, bytes)
        }
    }

    /// Takes in that a read failed: the reader closes the queue and ends.
    pub fn read_failed(&mut self, queue: &mut BlockQueue) -> (action: ReaderAction)
        requires
            old(self)@.phase is Reading,
        ensures
            (final(self)@, final(queue)@) == read_failed(old(self)@, old(queue)@),
            action == ReaderAction::Stop(Err(PipeError::ReadFailed)),
            final(self)@.blocks_read == old(self)@.blocks_read,
            final(self)@.wf(),
            final(queue)@.wf(),
    {
        proof {
            use_type_invariant(&*self);
        }
        queue.close();
        self.phase = ReaderPhase::Finished(Err(PipeError::ReadFailed));
        self.action()
    }

    /// Offers the block held back once more, after a wait.
    pub fn retry(&mut self, queue: &mut BlockQueue) -> (action: ReaderAction)
        requires
            old(self)@.phase is Offering,
        ensures
            (final(self)@, final(queue)@) == retry(old(self)@, old(queue)@),
            action == final(self)@.action(),
            final(self)@.blocks_read == old(self)@.blocks_read,
            final(self)@.wf(),
            final(queue)@.wf(),
    {
        proof {
            use_type_invariant(&*self);
        }
        let mut phase = ReaderPhase::Reading;
        std::mem::swap(&mut self.phase, &mut phase);
        match phase {
            ReaderPhase::Offering(block) => self.offer(queue, block),
            _ => self.action(),
        }
    }
}

} // verus!

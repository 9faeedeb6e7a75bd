//! The writer: it takes blocks from the queue in the order in which they
//! were put there, hands each out to be written, and counts it once it has
//! been written in full.
//!
//! The writer performs no output itself. It says what it needs next, and is
//! told what came of it.

use crate::error::PipeError;
use crate::queue::{BlockQueue, Dequeued, QueueView};
use vstd::prelude::*;

verus! {

/// What the writer needs next.
#[derive(Clone, Copy, Debug, PartialEq, Eq)]
pub enum WriterAction {
    /// Poll the queue for the next block. After a poll that found the queue
    /// empty, wait until a block has come before polling again.
    Poll,
    /// Write the block that the writer holds, all of it, and report.
    Write,
    /// The writer is done, with this result.
    Stop(Result<(), PipeError>),
}

/// Where a writer stands.
pub enum WriterPhaseView {
    /// It holds no block.
    Idle,
    /// It holds a block that is being written.
    Writing(Seq<u8>),
    /// It is done.
    Finished(Result<(), PipeError>),
}

/// What a `Writer` stands for.
pub struct WriterView {
    /// What the writer is doing.
    pub phase: WriterPhaseView,
    /// The number of blocks written so far.
    pub blocks_written: nat,
}

impl WriterView {
    /// The writer before its first block.
    pub open spec fn fresh() -> WriterView {
        WriterView { phase: WriterPhaseView::Idle, blocks_written: 0 }
    }

    /// What the writer needs next.
    pub open spec fn action(self) -> WriterAction {
        match self.phase {
            WriterPhaseView::Idle => WriterAction::Poll,
            WriterPhaseView::Writing(_) => WriterAction::Write,
            WriterPhaseView::Finished(result) => WriterAction::Stop(result),
        }
    }

    /// The bytes that have left the queue and are not written yet.
    pub open spec fn in_flight(self) -> Seq<u8> {
        match self.phase {
            WriterPhaseView::Writing(block) => block,
            _ => Seq::empty(),
        }
    }

    /// The writer with another phase.
    pub open spec fn at(self, phase: WriterPhaseView) -> WriterView {
        WriterView { phase, ..self }
    }
}

/// The writer and the queue after an idle writer polled the queue.
///
/// It takes the oldest block, if there is one. If there is none and none
/// will come, it ends. Otherwise nothing changes, and the writer waits.
pub open spec fn poll(writer: WriterView, queue: QueueView) -> (WriterView, QueueView) {
    if !(writer.phase is Idle) {
        (writer, queue)
    } else if queue.blocks.len() > 0 {
        (writer.at(WriterPhaseView::Writing(queue.blocks[0])), queue.dequeue())
    } else if queue.refuses() {
        (writer.at(WriterPhaseView::Finished(Ok(()))), queue)
    } else {
        (writer, queue)
    }
}

/// The writer after the block it held was written in full: the block is
/// counted and let go.
pub open spec fn write_done(writer: WriterView) -> WriterView {
    if writer.phase is Writing {
        WriterView { phase: WriterPhaseView::Idle, blocks_written: writer.blocks_written + 1 }
    } else {
        writer
    }
}

/// The writer and the queue after writing failed: the writer ends, and the
/// queue is abandoned, so that the reader does not wait for room that will
/// never be made.
pub open spec fn write_failed(writer: WriterView, queue: QueueView) -> (WriterView, QueueView) {
    if writer.phase is Writing {
        (writer.at(WriterPhaseView::Finished(Err(PipeError::WriteFailed))), queue.abandon())
    } else {
        (writer, queue)
    }
}

enum WriterPhase {
    Idle,
    Writing(Vec<u8>),
    Finished(Result<(), PipeError>),
}

impl View for WriterPhase {
    type V = WriterPhaseView;

    closed spec fn view(&self) -> WriterPhaseView {
        match self {
            WriterPhase::Idle => WriterPhaseView::Idle,
            WriterPhase::Writing(block) => WriterPhaseView::Writing(block@),
            WriterPhase::Finished(result) => WriterPhaseView::Finished(*result),
        }
    }
}

/// The writing end of a pipe.
pub struct Writer {
    phase: WriterPhase,
    blocks_written: u64,
}

impl View for Writer {
    type V = WriterView;

    closed spec fn view(&self) -> WriterView {
        WriterView { phase: self.phase@, blocks_written: self.blocks_written as nat }
    }
}

impl Writer {
    /// A writer before its first block.
    pub fn new() -> (writer: Writer)
        ensures
            writer@ == WriterView::fresh(),
    {
        Writer { phase: WriterPhase::Idle, blocks_written: 0 }
    }

    /// The number of blocks written so far.
    pub fn blocks_written(&self) -> (count: u64)
        ensures
            count == self@.blocks_written,
    {
        self.blocks_written
    }

    /// What the writer needs next.
    pub fn action(&self) -> (action: WriterAction)
        ensures
            action == self@.action(),
    {
        match &self.phase {
            WriterPhase::Idle => WriterAction::Poll,
            WriterPhase::Writing(_) => WriterAction::Write,
            WriterPhase::Finished(result) => WriterAction::Stop(*result),
        }
    }

    /// The block to write, while there is one.
    pub fn block(&self) -> (block: Option<&Vec<u8>>)
        ensures
            match block {
                Some(bytes) => self@.phase == WriterPhaseView::Writing(bytes@),
                None => !(self@.phase is Writing),
            },
    {
        match &self.phase {
            WriterPhase::Writing(block) => Some(block),
            _ => None,
        }
    }

    /// Looks into the queue for the next block.
    pub fn poll(&mut self, queue: &mut BlockQueue) -> (action: WriterAction)
        requires
            old(self)@.phase is Idle,
        ensures
            (final(self)@, final(queue)@) == poll(old(self)@, old(queue)@),
            action == final(self)@.action(),
            final(self)@.blocks_written == old(self)@.blocks_written,
            final(queue)@.wf(),
    {
        match queue.try_dequeue() {
            Dequeued::Block(block) => {
                self.phase = WriterPhase::Writing(block);
            },
            Dequeued::Empty => {},
            Dequeued::Drained => {
                self.phase = WriterPhase::Finished(Ok(()));
            },
        }
        self.action()
    }

    /// Takes in that the block was written in full.
    pub fn write_done(&mut self) -> (action: WriterAction)
        requires
            old(self)@.phase is Writing,
            old(self)@.blocks_written < u64::MAX,
        ensures
            final(self)@ == write_done(old(self)@),
            action == WriterAction::Poll,
            final(self)@.blocks_written == old(self)@.blocks_written + 1,
    {
        self.blocks_written = self.blocks_written + 1;
        self.phase = WriterPhase::Idle;
        self.action()
    }

    /// Takes in that writing the block failed: the writer abandons the queue
    /// and ends.
    pub fn write_failed(&mut self, queue: &mut BlockQueue) -> (action: WriterAction)
        requires
            old(self)@.phase is Writing,
        ensures
            (final(self)@, final(queue)@) == write_failed(old(self)@, old(queue)@),
            action == WriterAction::Stop(Err(PipeError::WriteFailed)),
            final(self)@.blocks_written == old(self)@.blocks_written,
            final(queue)@.wf(),
    {
        queue.abandon();
        self.phase = WriterPhase::Finished(Err(PipeError::WriteFailed));
        self.action()
    }
}

} // verus!

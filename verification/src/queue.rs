//! The bounded queue of blocks between one producer and one consumer.
//!
//! The queue never waits. Where a caller would have to wait, an operation
//! says so in what it returns and leaves the queue as it was.
//!
//! The bound counts blocks, not bytes: a queue of short blocks holds fewer
//! bytes than one of full blocks.

use std::collections::VecDeque;
use vstd::prelude::*;

verus! {

/// What a `BlockQueue` stands for.
pub struct QueueView {
    /// The blocks that wait, the oldest first.
    pub blocks: Seq<Seq<u8>>,
    /// The number of blocks that may wait at once.
    pub capacity: nat,
    /// The producer has said that no more blocks will come.
    pub closed: bool,
    /// The consumer has gone away.
    pub abandoned: bool,
}

/// What an attempt to put a block into the queue came to.
#[derive(Debug)]
pub enum Enqueued {
    /// The block is now the newest in the queue.
    Accepted,
    /// The queue is full. The block comes back; the producer waits.
    Full(Vec<u8>),
    /// The queue is closed or its consumer is gone. The block comes back.
    Refused(Vec<u8>),
}

/// What an attempt to take a block from the queue came to.
#[derive(Debug)]
pub enum Dequeued {
    /// The oldest block, now out of the queue.
    Block(Vec<u8>),
    /// Nothing waits, but more may come. The consumer waits.
    Empty,
    /// Nothing waits and nothing will come.
    Drained,
}

impl QueueView {
    /// The empty, open queue of the given capacity.
    pub open spec fn fresh(capacity: nat) -> QueueView {
        QueueView { blocks: Seq::empty(), capacity, closed: false, abandoned: false }
    }

    /// The bound holds, and an abandoned queue is empty.
    pub open spec fn wf(self) -> bool {
        &&& self.capacity > 0
        &&& self.blocks.len() <= self.capacity
        &&& self.abandoned ==> self.blocks.len() == 0
    }

    /// No block is taken any more.
    pub open spec fn refuses(self) -> bool {
        self.closed || self.abandoned
    }

    /// As many blocks wait as may.
    pub open spec fn full(self) -> bool {
        self.blocks.len() >= self.capacity
    }

    /// Nothing waits and nothing will come.
    pub open spec fn drained(self) -> bool {
        self.blocks.len() == 0 && self.refuses()
    }

    /// The queue takes `block` as it is now.
    pub open spec fn accepts(self) -> bool {
        !self.refuses() && !self.full()
    }

    /// The queue after an attempt to enqueue `block`.
    pub open spec fn enqueue(self, block: Seq<u8>) -> QueueView {
        if self.accepts() {
            QueueView { blocks: self.blocks.push(block), ..self }
        } else {
            self
        }
    }

    /// The queue after an attempt to dequeue.
    pub open spec fn dequeue(self) -> QueueView {
        if self.blocks.len() > 0 {
            QueueView { blocks: self.blocks.drop_first(), ..self }
        } else {
            self
        }
    }

    /// The queue after the producer has closed it.
    pub open spec fn close(self) -> QueueView {
        QueueView { closed: true, ..self }
    }

    /// The queue after the consumer has gone: what waited is discarded.
    pub open spec fn abandon(self) -> QueueView {
        QueueView { blocks: Seq::empty(), abandoned: true, ..self }
    }

    /// All the bytes that wait, in the order in which they will leave.
    pub open spec fn bytes(self) -> Seq<u8> {
        self.blocks.flatten()
    }
}

/// The blocks of a deque as sequences of bytes.
spec fn block_views(blocks: Seq<Vec<u8>>) -> Seq<Seq<u8>> {
    Seq::new(blocks.len(), |i: int| blocks[i]@)
}

/// A bounded first-in, first-out queue of blocks.
pub struct BlockQueue {
    blocks: VecDeque<Vec<u8>>,
    capacity: usize,
    closed: bool,
    abandoned: bool,
}

impl View for BlockQueue {
    type V = QueueView;

    closed spec fn view(&self) -> QueueView {
        QueueView {
            blocks: block_views(self.blocks@),
            capacity: self.capacity as nat,
            closed: self.closed,
            abandoned: self.abandoned,
        }
    }
}

impl BlockQueue {
    #[verifier::type_invariant]
    spec fn inv(self) -> bool {
        self@.wf()
    }

    /// An empty, open queue that holds up to `capacity` blocks.
    pub fn new(capacity: usize) -> (queue: BlockQueue)
        requires
            capacity > 0,
        ensures
            queue@ == QueueView::fresh(capacity as nat),
    {
        let queue = BlockQueue {
            blocks: VecDeque::new(),
            capacity,
            closed: false,
            abandoned: false,
        };
        assert(queue@.blocks =~= Seq::<Seq<u8>>::empty());
        queue
    }

    /// Puts `block` behind the blocks that wait, if the queue takes it.
    ///
    /// A closed or abandoned queue refuses the block, full or not. An open
    /// queue that is full hands it back for a later attempt.
    pub fn try_enqueue(&mut self, block: Vec<u8>) -> (outcome: Enqueued)
        ensures
            final(self)@ == old(self)@.enqueue(block@),
            final(self)@.wf(),
            match outcome {
                Enqueued::Accepted => old(self)@.accepts(),
                Enqueued::Full(back) => {
                    &&& !old(self)@.refuses()
                    &&& old(self)@.full()
                    &&& back@ == block@
                },
                Enqueued::Refused(back) => old(self)@.refuses() && back@ == block@,
            },
    {
        proof {
            use_type_invariant(&*self);
        }
        if self.closed || self.abandoned {
            Enqueued::Refused(block)
        } else if self.blocks.len() >= self.capacity {
            Enqueued::Full(block)
        } else {
            let mut blocks = VecDeque::new();
            std::mem::swap(&mut self.blocks, &mut blocks);
            blocks.push_back(block);
            assert(block_views(blocks@) =~= block_views(old(self).blocks@).push(block@));
            self.blocks = blocks;
            Enqueued::Accepted
        }
    }

    /// Takes the oldest block out of the queue, if one waits.
    pub fn try_dequeue(&mut self) -> (outcome: Dequeued)
        ensures
            final(self)@ == old(self)@.dequeue(),
            final(self)@.wf(),
            match outcome {
                Dequeued::Block(block) => {
                    &&& old(self)@.blocks.len() > 0
                    &&& block@ == old(self)@.blocks[0]
                },
                Dequeued::Empty => old(self)@.blocks.len() == 0 && !old(self)@.refuses(),
                Dequeued::Drained => old(self)@.drained(),
            },
    {
        proof {
            use_type_invariant(&*self);
        }
        let mut blocks = VecDeque::new();
        std::mem::swap(&mut self.blocks, &mut blocks);
        let oldest = blocks.pop_front();
        assert(oldest.is_some() ==> block_views(blocks@) =~= block_views(
            old(self).blocks@,
        ).drop_first());
        self.blocks = blocks;
        match oldest {
            Some(block) => Dequeued::Block(block),
            None => {
                if self.closed || self.abandoned {
                    Dequeued::Drained
                } else {
                    Dequeued::Empty
                }
            },
        }
    }

    /// Says that no more blocks will come. What waits can still be taken.
    pub fn close(&mut self)
        ensures
            final(self)@ == old(self)@.close(),
            final(self)@.wf(),
    {
        proof {
            use_type_invariant(&*self);
        }
        self.closed = true;
    }

    /// Says that the consumer is gone, and discards the blocks that wait.
    pub fn abandon(&mut self)
        ensures
            final(self)@ == old(self)@.abandon(),
            final(self)@.wf(),
    {
        proof {
            use_type_invariant(&*self);
        }
        self.blocks = VecDeque::new();
        self.abandoned = true;
        assert(block_views(self.blocks@) =~= Seq::<Seq<u8>>::empty());
    }

    /// The number of blocks that wait.
    pub fn len(&self) -> (len: usize)
        ensures
            len == self@.blocks.len(),
            len <= self@.capacity,
    {
        proof {
            use_type_invariant(self);
        }
        self.blocks.len()
    }

    /// The number of blocks that may wait at once.
    pub fn capacity(&self) -> (capacity: usize)
        ensures
            capacity == self@.capacity,
            capacity > 0,
    {
        proof {
            use_type_invariant(self);
        }
        self.capacity
    }

    /// Whether no block waits.
    pub fn is_empty(&self) -> (empty: bool)
        ensures
            empty == (self@.blocks.len() == 0),
    {
        self.blocks.len() == 0
    }

    /// Whether as many blocks wait as may.
    pub fn is_full(&self) -> (full: bool)
        ensures
            full == self@.full(),
    {
        self.blocks.len() >= self.capacity
    }

    /// Whether the producer has closed the queue.
    pub fn is_closed(&self) -> (closed: bool)
        ensures
            closed == self@.closed,
    {
        self.closed
    }

    /// Whether the consumer has gone away.
    pub fn is_abandoned(&self) -> (abandoned: bool)
        ensures
            abandoned == self@.abandoned,
    {
        self.abandoned
    }
}

} // verus!

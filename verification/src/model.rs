//! The pipe as a whole: a reader, a queue and a writer that take turns in any
//! order, and what holds of every such run.
//!
//! A run is a sequence of events. Each event is one call of a method of
//! `Reader` or `Writer`, and the state after it is given by the same functions
//! that the contracts of those methods use. An event that the reader or the
//! writer does not wait for changes nothing.

use crate::error::PipeError;
use crate::queue::QueueView;
use crate::reader::{
    read_done, read_expected, read_failed, retry, ReaderAction, ReaderPhaseView, ReaderView,
};
use crate::writer::{poll, write_done, write_failed, WriterPhaseView, WriterView};
use vstd::arithmetic::div_mod::lemma_fundamental_div_mod_converse;
use vstd::prelude::*;

verus! {

/// One turn of the reader or of the writer.
pub enum Event {
    /// A read gave these bytes.
    ReadDone(Seq<u8>),
    /// A read failed.
    ReadFailed,
    /// The reader offered the block it held back once more.
    Retry,
    /// The writer looked into the queue.
    Poll,
    /// The block that the writer held was written in full.
    WriteDone,
    /// Writing the block that the writer held failed.
    WriteFailed,
}

/// A reader, a queue and a writer that work together.
pub struct PipeView {
    pub reader: ReaderView,
    pub queue: QueueView,
    pub writer: WriterView,
}

impl PipeView {
    /// The pipe before anything has happened.
    pub open spec fn fresh(block_size: nat, capacity: nat) -> PipeView {
        PipeView {
            reader: ReaderView::fresh(block_size),
            queue: QueueView::fresh(capacity),
            writer: WriterView::fresh(),
        }
    }

    /// The pipe after `event`.
    pub open spec fn step(self, event: Event) -> PipeView {
        match event {
            Event::ReadDone(bytes) => {
                let (reader, queue) = read_done(self.reader, self.queue, bytes);
                PipeView { reader, queue, ..self }
            },
            Event::ReadFailed => {
                let (reader, queue) = read_failed(self.reader, self.queue);
                PipeView { reader, queue, ..self }
            },
            Event::Retry => {
                let (reader, queue) = retry(self.reader, self.queue);
                PipeView { reader, queue, ..self }
            },
            Event::Poll => {
                let (writer, queue) = poll(self.writer, self.queue);
                PipeView { writer, queue, ..self }
            },
            Event::WriteDone => PipeView { writer: write_done(self.writer), ..self },
            Event::WriteFailed => {
                let (writer, queue) = write_failed(self.writer, self.queue);
                PipeView { writer, queue, ..self }
            },
        }
    }

    /// The bytes that `event` takes from the input.
    pub open spec fn taken_in(self, event: Event) -> Seq<u8> {
        match event {
            Event::ReadDone(bytes) => if read_expected(self.reader, bytes) {
                bytes
            } else {
                Seq::empty()
            },
            _ => Seq::empty(),
        }
    }

    /// The bytes that `event` adds to the output.
    pub open spec fn put_out(self, event: Event) -> Seq<u8> {
        match event {
            Event::WriteDone => self.writer.in_flight(),
            _ => Seq::empty(),
        }
    }

    /// Whether `event` is a read that the reader waited for.
    pub open spec fn is_read(self, event: Event) -> bool {
        event matches Event::ReadDone(bytes) && read_expected(self.reader, bytes)
    }

    /// Whether `event` puts a block into the queue.
    pub open spec fn is_enqueue(self, event: Event) -> bool {
        self.step(event).queue.blocks.len() > self.queue.blocks.len()
    }

    /// The bytes that are inside the pipe: taken in and not yet put out, in
    /// the order in which they will leave.
    pub open spec fn held(self) -> Seq<u8> {
        self.writer.in_flight() + self.queue.bytes() + self.reader.pending()
    }

    /// The number of blocks inside the pipe.
    pub open spec fn blocks_held(self) -> nat {
        let writing: nat = if self.writer.phase is Writing {
            1
        } else {
            0
        };
        let offering: nat = if self.reader.phase is Offering {
            1
        } else {
            0
        };
        writing + self.queue.blocks.len() + offering
    }

    /// Reader and writer have both ended without a failure.
    pub open spec fn completed(self) -> bool {
        &&& self.reader.phase == ReaderPhaseView::Finished(Ok(()))
        &&& self.writer.phase == WriterPhaseView::Finished(Ok(()))
    }
}

/// A pipe together with what has gone through it.
pub struct History {
    pub state: PipeView,
    /// All bytes taken from the input so far.
    pub input: Seq<u8>,
    /// All bytes written to the output so far.
    pub output: Seq<u8>,
    /// The number of reads so far.
    pub reads: nat,
    /// The number of blocks put into the queue so far.
    pub enqueues: nat,
}

impl History {
    /// The history of a pipe in which nothing has happened.
    pub open spec fn fresh(block_size: nat, capacity: nat) -> History {
        History {
            state: PipeView::fresh(block_size, capacity),
            input: Seq::empty(),
            output: Seq::empty(),
            reads: 0,
            enqueues: 0,
        }
    }

    /// The history after `events`, the first of them first.
    pub open spec fn replay(self, events: Seq<Event>) -> History
        decreases events.len(),
    {
        if events.len() == 0 {
            self
        } else {
            self.replay(events.drop_last()).advance(events.last())
        }
    }

    /// The history after one more event.
    pub open spec fn advance(self, event: Event) -> History {
        History {
            state: self.state.step(event),
            input: self.input + self.state.taken_in(event),
            output: self.output + self.state.put_out(event),
            reads: if self.state.is_read(event) {
                self.reads + 1
            } else {
                self.reads
            },
            enqueues: if self.state.is_enqueue(event) {
                self.enqueues + 1
            } else {
                self.enqueues
            },
        }
    }
}

/// The history of a fresh pipe after `events`, the first of them first.
pub open spec fn history(block_size: nat, capacity: nat, events: Seq<Event>) -> History {
    History::fresh(block_size, capacity).replay(events)
}

/// The turns in which a writer that is left alone writes `blocks` blocks and
/// then finds the queue empty: for each block it looks into the queue and
/// writes what it holds, and at the end it looks once more.
pub open spec fn writer_turns(blocks: nat) -> Seq<Event>
    decreases blocks,
{
    if blocks == 0 {
        seq![Event::Poll]
    } else {
        seq![Event::Poll, Event::WriteDone] + writer_turns((blocks - 1) as nat)
    }
}

/// The events of the run that moves `data` one block at a time: each block
/// is read, taken from the queue and written before the next is read. The
/// last read gives what is left of `data`, less than a full block.
pub open spec fn lockstep(data: Seq<u8>, block_size: nat) -> Seq<Event>
    decreases data.len(),
{
    if block_size == 0 || data.len() < block_size {
        seq![Event::ReadDone(data)] + writer_turns(
            if data.len() == 0 {
                0
            } else {
                1
            },
        )
    } else {
        seq![Event::ReadDone(data.take(block_size as int)), Event::Poll, Event::WriteDone]
            + lockstep(data.skip(block_size as int), block_size)
    }
}

/// The number of blocks that `len` bytes make: full blocks of `block_size`
/// bytes, and one more for a rest.
pub open spec fn block_count(len: nat, block_size: nat) -> nat {
    if len == 0 {
        0
    } else {
        ((len - 1) / (block_size as int) + 1) as nat
    }
}

/// How the parts of a pipe stand to each other in every run.
spec fn shaped(block_size: nat, capacity: nat, s: PipeView) -> bool {
    &&& s.reader.wf()
    &&& s.queue.wf()
    &&& s.reader.block_size == block_size
    &&& s.queue.capacity == capacity
    // No block is empty, and none is larger than a full one.
    &&& forall|i: int|
        0 <= i < s.queue.blocks.len() ==> 0 < (#[trigger] s.queue.blocks[i]).len() <= block_size
    &&& s.writer.phase matches WriterPhaseView::Writing(block) ==> 0 < block.len() <= block_size
    // The reader closes the queue when it ends, and only the writer's
    // failure abandons it.
    &&& s.queue.closed == (s.reader.phase is Finished)
    &&& s.queue.abandoned == (s.writer.phase == WriterPhaseView::Finished(
        Err(PipeError::WriteFailed),
    ))
    &&& s.writer.phase is Finished ==> s.queue.abandoned || (s.writer.phase
        == WriterPhaseView::Finished(Ok(())) && s.queue.closed && s.queue.blocks.len() == 0)
}

/// Bytes and blocks are neither lost nor made.
spec fn conserved(h: History) -> bool {
    let s = h.state;
    &&& h.output.is_prefix_of(h.input)
    &&& s.writer.blocks_written <= s.reader.blocks_read
    &&& !s.queue.abandoned ==> {
        &&& h.input == h.output + s.held()
        &&& s.reader.blocks_read == s.writer.blocks_written + s.blocks_held()
    }
}

/// The reader counts the blocks of the input, and reads until a read comes
/// short.
spec fn counted(block_size: nat, h: History) -> bool {
    let s = h.state;
    &&& s.reader.blocks_read == block_count(h.input.len(), block_size)
    &&& match s.reader.phase {
        ReaderPhaseView::Reading => {
            &&& h.input.len() == s.reader.blocks_read * block_size
            &&& h.reads == s.reader.blocks_read
            &&& h.enqueues == s.reader.blocks_read
        },
        ReaderPhaseView::Offering(block) => {
            &&& h.input.len() == (s.reader.blocks_read - 1) * block_size + block.len()
            &&& h.reads == s.reader.blocks_read
            &&& h.enqueues + 1 == s.reader.blocks_read
        },
        ReaderPhaseView::Finished(Ok(_)) => {
            &&& h.reads == h.input.len() / block_size + 1
            &&& h.enqueues == s.reader.blocks_read
        },
        ReaderPhaseView::Finished(Err(_)) => true,
    }
}

/// What holds of the history of every run.
spec fn consistent(block_size: nat, capacity: nat, h: History) -> bool {
    &&& shaped(block_size, capacity, h.state)
    &&& conserved(h)
    &&& counted(block_size, h)
}

/// `k` full blocks make `k` blocks.
proof fn lemma_count_full(k: nat, block_size: nat)
    requires
        block_size > 0,
    ensures
        block_count(k * block_size, block_size) == k,
        (k * block_size) / block_size == k,
{
    let d = block_size as int;
    lemma_fundamental_div_mod_converse((k * block_size) as int, d, k as int, 0);
    if k > 0 {
        assert(k * block_size == (k - 1) * d + d) by (nonlinear_arith)
            requires
                d == block_size,
        ;
        lemma_fundamental_div_mod_converse(k * block_size - 1, d, k - 1, d - 1);
    } else {
        assert(k * block_size == 0) by (nonlinear_arith)
            requires
                k == 0,
        ;
    }
}

/// `k` full blocks and a rest of `rest` bytes make `k + 1` blocks.
proof fn lemma_count_rest(k: nat, rest: nat, block_size: nat)
    requires
        block_size > 0,
        0 < rest <= block_size,
    ensures
        block_count(k * block_size + rest, block_size) == k + 1,
        rest < block_size ==> (k * block_size + rest) / block_size == k,
        rest == block_size ==> k * block_size + rest == (k + 1) * block_size,
{
    let d = block_size as int;
    lemma_fundamental_div_mod_converse(k * block_size + rest - 1, d, k as int, rest - 1);
    if rest < block_size {
        lemma_fundamental_div_mod_converse((k * block_size + rest) as int, d, k as int, rest as int);
    } else {
        assert(k * block_size + block_size == (k + 1) * block_size) by (nonlinear_arith);
    }
}

/// A prefix of a sequence is a prefix of every extension of it.
proof fn lemma_prefix_extends(a: Seq<u8>, b: Seq<u8>, more: Seq<u8>)
    requires
        a.is_prefix_of(b),
    ensures
        a.is_prefix_of(b + more),
{
    assert(a =~= (b + more).subrange(0, a.len() as int));
}

/// The parts of a pipe stand to each other after an event as before it.
proof fn lemma_step_shaped(block_size: nat, capacity: nat, s: PipeView, event: Event)
    requires
        block_size > 0,
        capacity > 0,
        shaped(block_size, capacity, s),
    ensures
        shaped(block_size, capacity, s.step(event)),
{
}

/// No event loses or makes bytes or blocks.
proof fn lemma_advance_conserved(block_size: nat, capacity: nat, h: History, event: Event)
    requires
        block_size > 0,
        capacity > 0,
        shaped(block_size, capacity, h.state),
        conserved(h),
    ensures
        conserved(h.advance(event)),
{
    broadcast use Seq::lemma_flatten_push;

    let s = h.state;
    let after = h.advance(event);
    let t = after.state;
    lemma_prefix_extends(h.output, h.input, s.taken_in(event));
    match event {
        Event::ReadDone(bytes) => {
            assert(after.output =~= h.output);
            if !s.queue.abandoned {
                assert(after.input =~= after.output + t.held());
            }
        },
        Event::ReadFailed => {
            assert(after.input =~= h.input);
            assert(after.output =~= h.output);
        },
        Event::Retry => {
            assert(after.input =~= h.input);
            assert(after.output =~= h.output);
            if !s.queue.abandoned {
                assert(after.input =~= after.output + t.held());
            }
        },
        Event::Poll => {
            assert(after.input =~= h.input);
            assert(after.output =~= h.output);
            if s.writer.phase is Idle && s.queue.blocks.len() > 0 {
                assert(s.queue.bytes() =~= s.queue.blocks[0] + s.queue.blocks.drop_first().flatten());
                assert(after.input =~= after.output + t.held());
            }
        },
        Event::WriteDone => {
            assert(after.input =~= h.input);
            if s.writer.phase is Writing {
                assert(after.input =~= after.output + t.held());
                assert(after.output =~= after.input.subrange(0, after.output.len() as int));
            } else {
                assert(after.output =~= h.output);
            }
        },
        Event::WriteFailed => {
            assert(after.input =~= h.input);
            assert(after.output =~= h.output);
        },
    }
}

/// After every event the reader has counted the blocks of the input.
proof fn lemma_advance_counted(block_size: nat, capacity: nat, h: History, event: Event)
    requires
        block_size > 0,
        capacity > 0,
        shaped(block_size, capacity, h.state),
        counted(block_size, h),
    ensures
        counted(block_size, h.advance(event)),
{
    let s = h.state;
    let after = h.advance(event);
    let read = s.reader.blocks_read;
    match event {
        Event::ReadDone(bytes) => {
            if read_expected(s.reader, bytes) {
                lemma_count_full(read, block_size);
                if bytes.len() == 0 {
                    assert(after.input =~= h.input);
                } else {
                    lemma_count_rest(read, bytes.len(), block_size);
                }
            } else {
                assert(after.input =~= h.input);
            }
        },
        Event::Retry => {
            assert(after.input =~= h.input);
            if let ReaderPhaseView::Offering(block) = s.reader.phase {
                lemma_count_rest((read - 1) as nat, block.len(), block_size);
            }
        },
        _ => {
            assert(after.input =~= h.input);
        },
    }
}

/// What holds of every run still holds after one more event.
proof fn lemma_advance_consistent(block_size: nat, capacity: nat, h: History, event: Event)
    requires
        block_size > 0,
        capacity > 0,
        consistent(block_size, capacity, h),
    ensures
        consistent(block_size, capacity, h.advance(event)),
{
    lemma_step_shaped(block_size, capacity, h.state, event);
    lemma_advance_conserved(block_size, capacity, h, event);
    lemma_advance_counted(block_size, capacity, h, event);
}

/// What holds of every run holds of the history of every sequence of events.
proof fn lemma_history_consistent(block_size: nat, capacity: nat, events: Seq<Event>)
    requires
        block_size > 0,
        capacity > 0,
    ensures
        consistent(block_size, capacity, history(block_size, capacity, events)),
    decreases events.len(),
{
    if events.len() == 0 {
        let h = History::fresh(block_size, capacity);
        assert(h.input =~= h.output + h.state.held());
        assert(h.output =~= h.input.subrange(0, 0));
        assert(0 * block_size == 0) by (nonlinear_arith);
    } else {
        lemma_history_consistent(block_size, capacity, events.drop_last());
        lemma_advance_consistent(
            block_size,
            capacity,
            history(block_size, capacity, events.drop_last()),
            events.last(),
        );
    }
}

/// The bytes of `blocks` are at most as many as that many full blocks hold.
proof fn lemma_bytes_bounded(blocks: Seq<Seq<u8>>, block_size: nat)
    requires
        forall|i: int| 0 <= i < blocks.len() ==> (#[trigger] blocks[i]).len() <= block_size,
    ensures
        blocks.flatten().len() <= blocks.len() * block_size,
{
    blocks.lemma_flatten_and_flatten_alt_are_equivalent();
    blocks.lemma_flatten_length_le_mul(block_size as int);
}

/// No event lowers a counter.
proof fn lemma_step_counts(s: PipeView, event: Event)
    ensures
        s.reader.blocks_read <= s.step(event).reader.blocks_read,
        s.writer.blocks_written <= s.step(event).writer.blocks_written,
{
}

/// Replaying two sequences of events one after the other is replaying them
/// as one.
proof fn lemma_replay_concat(h: History, first: Seq<Event>, then: Seq<Event>)
    ensures
        h.replay(first + then) == h.replay(first).replay(then),
    decreases then.len(),
{
    if then.len() == 0 {
        assert(first + then =~= first);
    } else {
        assert((first + then).drop_last() =~= first + then.drop_last());
        lemma_replay_concat(h, first, then.drop_last());
    }
}

/// Left alone with an ended reader, the writer writes what the pipe holds
/// and ends.
proof fn lemma_writer_turns(block_size: nat, capacity: nat, h: History, blocks: nat)
    requires
        block_size > 0,
        capacity > 0,
        consistent(block_size, capacity, h),
        h.state.reader.phase is Finished,
        !(h.state.writer.phase is Finished),
        blocks == h.state.blocks_held(),
    ensures
        ({
            let end = h.replay(writer_turns(blocks));
            &&& consistent(block_size, capacity, end)
            &&& end.input == h.input
            &&& end.state.reader == h.state.reader
            &&& end.state.writer.phase == WriterPhaseView::Finished(Ok(()))
            &&& end.state.writer.blocks_written == h.state.writer.blocks_written + blocks
        }),
    decreases blocks,
{
    let poll = seq![Event::Poll];
    assert(poll.drop_last() =~= Seq::<Event>::empty());
    assert(h.replay(poll) == h.advance(Event::Poll)) by {
        assert(h.replay(poll.drop_last()) == h);
    }
    let polled = h.advance(Event::Poll);
    lemma_advance_consistent(block_size, capacity, h, Event::Poll);
    assert(polled.input =~= h.input);
    if blocks > 0 {
        let round = seq![Event::Poll, Event::WriteDone];
        assert(round.drop_last() =~= poll);
        let written = polled.advance(Event::WriteDone);
        assert(h.replay(round) == written);
        lemma_advance_consistent(block_size, capacity, polled, Event::WriteDone);
        assert(written.input =~= h.input);
        let rest = writer_turns((blocks - 1) as nat);
        lemma_writer_turns(block_size, capacity, written, (blocks - 1) as nat);
        lemma_replay_concat(h, round, rest);
    }
}

/// One block at a time, a pipe that is ready for the next read moves `data`
/// and ends.
proof fn lemma_lockstep(block_size: nat, capacity: nat, h: History, data: Seq<u8>)
    requires
        block_size > 0,
        capacity > 0,
        consistent(block_size, capacity, h),
        h.state.reader.phase is Reading,
        h.state.writer.phase is Idle,
        h.state.queue.blocks.len() == 0,
    ensures
        ({
            let end = h.replay(lockstep(data, block_size));
            &&& consistent(block_size, capacity, end)
            &&& end.state.completed()
            &&& end.input == h.input + data
        }),
    decreases data.len(),
{
    if data.len() < block_size {
        let read = seq![Event::ReadDone(data)];
        let blocks: nat = if data.len() == 0 {
            0
        } else {
            1
        };
        let turns = writer_turns(blocks);
        assert(read.drop_last() =~= Seq::<Event>::empty());
        assert(h.replay(read.drop_last()) == h);
        let last = h.advance(Event::ReadDone(data));
        assert(h.replay(read) == last);
        lemma_advance_consistent(block_size, capacity, h, Event::ReadDone(data));
        lemma_writer_turns(block_size, capacity, last, blocks);
        lemma_replay_concat(h, read, turns);
    } else {
        let block = data.take(block_size as int);
        let rest = data.skip(block_size as int);
        let e1 = Event::ReadDone(block);
        let round = seq![e1, Event::Poll, Event::WriteDone];
        let h1 = h.advance(e1);
        let h2 = h1.advance(Event::Poll);
        let h3 = h2.advance(Event::WriteDone);
        assert(round.drop_last() =~= seq![e1, Event::Poll]);
        assert(round.drop_last().drop_last() =~= seq![e1]);
        assert(seq![e1].drop_last() =~= Seq::<Event>::empty());
        assert(h.replay(seq![e1].drop_last()) == h);
        assert(h.replay(seq![e1]) == h1);
        assert(h.replay(seq![e1, Event::Poll]) == h2);
        assert(h.replay(round) == h3);
        lemma_advance_consistent(block_size, capacity, h, e1);
        lemma_advance_consistent(block_size, capacity, h1, Event::Poll);
        lemma_advance_consistent(block_size, capacity, h2, Event::WriteDone);
        assert(h3.input =~= h.input + block);
        lemma_lockstep(block_size, capacity, h3, rest);
        lemma_replay_concat(h, round, lockstep(rest, block_size));
        assert(h.input + block + rest =~= h.input + data);
    }
}

/// The output is at every moment the beginning of the input, byte for byte:
/// nothing is changed, left out, repeated or reordered. While the writer has
/// not failed, the input is the output followed by the bytes that the pipe
/// holds. Once reader and writer have both ended without a failure, the
/// output is the whole input.
pub proof fn output_follows_input(block_size: nat, capacity: nat, events: Seq<Event>)
    requires
        block_size > 0,
        capacity > 0,
    ensures
        ({
            let h = history(block_size, capacity, events);
            &&& h.output.is_prefix_of(h.input)
            &&& !h.state.queue.abandoned ==> h.input == h.output + h.state.held()
            &&& h.state.completed() ==> h.output == h.input
        }),
{
    lemma_history_consistent(block_size, capacity, events);
    let h = history(block_size, capacity, events);
    if h.state.completed() {
        assert(h.state.held() =~= Seq::<u8>::empty());
        assert(h.output =~= h.input);
    }
}

/// Every input can be moved, whatever the block size and the capacity are:
/// there is a run that takes in exactly `data`, puts out exactly `data`, and
/// ends without a failure.
pub proof fn every_input_goes_through(data: Seq<u8>, block_size: nat, capacity: nat)
    requires
        block_size > 0,
        capacity > 0,
    ensures
        ({
            let h = history(block_size, capacity, lockstep(data, block_size));
            &&& h.state.completed()
            &&& h.input == data
            &&& h.output == data
        }),
{
    let fresh = History::fresh(block_size, capacity);
    lemma_history_consistent(block_size, capacity, Seq::empty());
    assert(fresh.replay(Seq::empty()) == fresh);
    lemma_lockstep(block_size, capacity, fresh, data);
    output_follows_input(block_size, capacity, lockstep(data, block_size));
    assert(fresh.input + data =~= data);
}

/// The two counters never go down: after the first `k` events of a run
/// neither is larger than at its end.
pub proof fn counters_never_decrease(block_size: nat, capacity: nat, events: Seq<Event>, k: int)
    requires
        0 <= k <= events.len(),
    ensures
        ({
            let early = history(block_size, capacity, events.take(k)).state;
            let late = history(block_size, capacity, events).state;
            &&& early.reader.blocks_read <= late.reader.blocks_read
            &&& early.writer.blocks_written <= late.writer.blocks_written
        }),
    decreases events.len(),
{
    if k == events.len() {
        assert(events.take(k) =~= events);
    } else {
        assert(events.drop_last().take(k) =~= events.take(k));
        counters_never_decrease(block_size, capacity, events.drop_last(), k);
        lemma_step_counts(history(block_size, capacity, events.drop_last()).state, events.last());
    }
}

/// The counters count blocks. At every moment the reader has counted as many
/// blocks as the input taken so far makes, and the writer no more than the
/// reader. Once reader and writer have both ended without a failure, both
/// counters are the number of blocks of the whole input.
pub proof fn counters_count_blocks(block_size: nat, capacity: nat, events: Seq<Event>)
    requires
        block_size > 0,
        capacity > 0,
    ensures
        ({
            let h = history(block_size, capacity, events);
            &&& h.state.reader.blocks_read == block_count(h.input.len(), block_size)
            &&& h.state.writer.blocks_written <= h.state.reader.blocks_read
            &&& h.state.completed() ==> h.state.writer.blocks_written == block_count(
                h.input.len(),
                block_size,
            )
        }),
{
    lemma_history_consistent(block_size, capacity, events);
}

/// The pipe holds a bounded amount of data. The queue never holds more blocks
/// than its capacity. Beside them the reader holds at most one block that
/// waits for room, and the writer at most one that is being written; no
/// block is larger than a full one.
pub proof fn held_data_is_bounded(block_size: nat, capacity: nat, events: Seq<Event>)
    requires
        block_size > 0,
        capacity > 0,
    ensures
        ({
            let s = history(block_size, capacity, events).state;
            &&& s.queue.blocks.len() <= capacity
            &&& s.blocks_held() <= capacity + 2
            &&& s.held().len() <= (capacity + 2) * block_size
            &&& !s.queue.abandoned ==> s.reader.blocks_read - s.writer.blocks_written
                == s.blocks_held()
        }),
{
    lemma_history_consistent(block_size, capacity, events);
    let s = history(block_size, capacity, events).state;
    lemma_bytes_bounded(s.queue.blocks, block_size);
    let q = s.queue.blocks.len();
    assert(s.held().len() <= q * block_size + 2 * block_size);
    assert(q * block_size + 2 * block_size <= (capacity + 2) * block_size) by (nonlinear_arith)
        requires
            q <= capacity,
    ;
}

/// While the writer takes nothing, it stays as it began.
proof fn lemma_stalled_writer(block_size: nat, capacity: nat, events: Seq<Event>)
    requires
        forall|i: int| 0 <= i < events.len() ==> !(#[trigger] events[i] is Poll),
    ensures
        history(block_size, capacity, events).state.writer == WriterView::fresh(),
    decreases events.len(),
{
    if events.len() > 0 {
        lemma_stalled_writer(block_size, capacity, events.drop_last());
        assert(!(events[events.len() - 1] is Poll));
    }
}

/// A full queue holds the reader back. While the writer takes nothing, the
/// reader reads one block more than the queue holds at most, and no
/// further: with that block in hand all that it asks for is to wait.
pub proof fn stalled_writer_stops_reader(block_size: nat, capacity: nat, events: Seq<Event>)
    requires
        block_size > 0,
        capacity > 0,
        forall|i: int| 0 <= i < events.len() ==> !(#[trigger] events[i] is Poll),
    ensures
        ({
            let s = history(block_size, capacity, events).state;
            &&& s.reader.blocks_read <= capacity + 1
            &&& s.reader.blocks_read == capacity + 1 ==> s.reader.action()
                == ReaderAction::Wait
        }),
{
    lemma_history_consistent(block_size, capacity, events);
    lemma_stalled_writer(block_size, capacity, events);
}

/// How a reader ends that met no failure: it has made one read more than the
/// input has full blocks, the last of them short or empty; each block that it
/// counted has been put into the queue, one for each full block and one for
/// a rest; and the queue is closed.
pub proof fn reader_ends_after_short_read(block_size: nat, capacity: nat, events: Seq<Event>)
    requires
        block_size > 0,
        capacity > 0,
        history(block_size, capacity, events).state.reader.phase == ReaderPhaseView::Finished(
            Ok(()),
        ),
    ensures
        ({
            let h = history(block_size, capacity, events);
            &&& h.reads == h.input.len() / block_size + 1
            &&& h.enqueues == block_count(h.input.len(), block_size)
            &&& h.state.queue.closed
        }),
{
    lemma_history_consistent(block_size, capacity, events);
}

/// A reader that has ended, however it ended, has closed the queue, so the
/// writer is never left to wait for blocks that will not come: polling an
/// empty queue then ends it.
pub proof fn ended_reader_frees_writer(block_size: nat, capacity: nat, events: Seq<Event>)
    requires
        block_size > 0,
        capacity > 0,
        history(block_size, capacity, events).state.reader.phase is Finished,
    ensures
        ({
            let s = history(block_size, capacity, events).state;
            &&& s.queue.closed
            &&& s.writer.phase is Idle && s.queue.blocks.len() == 0 ==> s.step(
                Event::Poll,
            ).writer.phase == WriterPhaseView::Finished(Ok(()))
        }),
{
    lemma_history_consistent(block_size, capacity, events);
}

/// Once the reader has ended, the writer alone brings the run to its end,
/// unless a write fails: in one turn for each block that the pipe still
/// holds it writes them all, and then it ends. It has then written every
/// block that the reader counted, and the output is the whole input.
pub proof fn writer_drains_and_ends(block_size: nat, capacity: nat, events: Seq<Event>)
    requires
        block_size > 0,
        capacity > 0,
        history(block_size, capacity, events).state.reader.phase is Finished,
        !(history(block_size, capacity, events).state.writer.phase is Finished),
    ensures
        ({
            let h = history(block_size, capacity, events);
            let turns = writer_turns(h.state.blocks_held());
            let end = history(block_size, capacity, events + turns);
            &&& end.state.writer.phase == WriterPhaseView::Finished(Ok(()))
            &&& end.state.writer.blocks_written == h.state.reader.blocks_read
            &&& end.input == h.input
            &&& end.output == h.input
        }),
{
    lemma_history_consistent(block_size, capacity, events);
    let h = history(block_size, capacity, events);
    let turns = writer_turns(h.state.blocks_held());
    lemma_writer_turns(block_size, capacity, h, h.state.blocks_held());
    lemma_replay_concat(History::fresh(block_size, capacity), events, turns);
    let end = h.replay(turns);
    assert(end.state.held() =~= Seq::<u8>::empty());
    assert(end.output =~= end.input);
}

/// A writer that has failed has abandoned the queue, so the reader is never
/// left to wait for room that will not be made: whatever it offers next ends
/// it with `SendFailed`.
pub proof fn failed_writer_frees_reader(
    block_size: nat,
    capacity: nat,
    events: Seq<Event>,
    bytes: Seq<u8>,
)
    requires
        block_size > 0,
        capacity > 0,
        history(block_size, capacity, events).state.writer.phase == WriterPhaseView::Finished(
            Err(PipeError::WriteFailed),
        ),
        0 < bytes.len() <= block_size,
    ensures
        ({
            let s = history(block_size, capacity, events).state;
            let failed = ReaderPhaseView::Finished(Err(PipeError::SendFailed));
            &&& s.queue.abandoned
            &&& s.reader.phase is Offering ==> s.step(Event::Retry).reader.phase == failed
            &&& s.reader.phase is Reading ==> s.step(Event::ReadDone(bytes)).reader.phase
                == failed
        }),
{
    lemma_history_consistent(block_size, capacity, events);
}

} // verus!

use pipebuf::error::PipeError;
use pipebuf::queue::{BlockQueue, Dequeued};
use pipebuf::reader::{Reader, ReaderAction};
use pipebuf::writer::{Writer, WriterAction};

#[test]
fn fresh_reader_asks_for_a_full_block() {
    let reader = Reader::new(4096);
    assert_eq!(reader.block_size(), 4096);
    assert_eq!(reader.blocks_read(), 0);
    assert_eq!(reader.action(), ReaderAction::Read(4096));
}

#[test]
fn full_block_is_counted_and_enqueued() {
    let mut reader = Reader::new(4);
    let mut queue = BlockQueue::new(2);
    let action = reader.read_done(&mut queue, vec![1, 2, 3, 4]);
    assert_eq!(action, ReaderAction::Read(4));
    assert_eq!(reader.blocks_read(), 1);
    assert_eq!(queue.len(), 1);
    assert!(!queue.is_closed());
}

#[test]
fn short_block_is_the_last() {
    let mut reader = Reader::new(4);
    let mut queue = BlockQueue::new(2);
    let action = reader.read_done(&mut queue, vec![1, 2, 3]);
    assert_eq!(action, ReaderAction::Stop(Ok(())));
    assert_eq!(reader.action(), ReaderAction::Stop(Ok(())));
    assert_eq!(reader.blocks_read(), 1);
    assert_eq!(queue.len(), 1);
    assert!(queue.is_closed());
}

#[test]
fn empty_read_ends_without_a_block() {
    let mut reader = Reader::new(4);
    let mut queue = BlockQueue::new(2);
    assert_eq!(reader.read_done(&mut queue, vec![5, 6, 7, 8]), ReaderAction::Read(4));
    let action = reader.read_done(&mut queue, Vec::new());
    assert_eq!(action, ReaderAction::Stop(Ok(())));
    assert_eq!(reader.blocks_read(), 1);
    assert_eq!(queue.len(), 1);
    assert!(queue.is_closed());
}

#[test]
fn empty_input_gives_no_block_at_all() {
    let mut reader = Reader::new(4);
    let mut queue = BlockQueue::new(1);
    assert_eq!(reader.read_done(&mut queue, Vec::new()), ReaderAction::Stop(Ok(())));
    assert_eq!(reader.blocks_read(), 0);
    assert_eq!(queue.len(), 0);
    assert!(queue.is_closed());
    assert!(matches!(queue.try_dequeue(), Dequeued::Drained));
}

#[test]
fn reader_waits_after_two_blocks_with_capacity_one() {
    let mut reader = Reader::new(2);
    let mut queue = BlockQueue::new(1);
    assert_eq!(reader.read_done(&mut queue, vec![1, 1]), ReaderAction::Read(2));
    assert_eq!(reader.read_done(&mut queue, vec![2, 2]), ReaderAction::Wait);
    assert_eq!(reader.action(), ReaderAction::Wait);
    assert_eq!(reader.blocks_read(), 2);
    assert_eq!(queue.len(), 1);
    assert_eq!(reader.retry(&mut queue), ReaderAction::Wait);
    assert_eq!(reader.retry(&mut queue), ReaderAction::Wait);
    assert_eq!(reader.blocks_read(), 2);
    assert_eq!(queue.len(), 1);
}

#[test]
fn retry_succeeds_once_there_is_room() {
    let mut reader = Reader::new(2);
    let mut queue = BlockQueue::new(1);
    assert_eq!(reader.read_done(&mut queue, vec![1, 1]), ReaderAction::Read(2));
    assert_eq!(reader.read_done(&mut queue, vec![2, 2]), ReaderAction::Wait);
    match queue.try_dequeue() {
        Dequeued::Block(block) => assert_eq!(block, vec![1, 1]),
        _ => panic!("the first block must wait in the queue"),
    }
    assert_eq!(reader.retry(&mut queue), ReaderAction::Read(2));
    assert_eq!(reader.blocks_read(), 2);
    match queue.try_dequeue() {
        Dequeued::Block(block) => assert_eq!(block, vec![2, 2]),
        _ => panic!("the second block must have followed"),
    }
}

#[test]
fn held_back_short_block_ends_the_reader_when_taken() {
    let mut reader = Reader::new(4);
    let mut queue = BlockQueue::new(1);
    assert_eq!(reader.read_done(&mut queue, vec![1, 2, 3, 4]), ReaderAction::Read(4));
    assert_eq!(reader.read_done(&mut queue, vec![5]), ReaderAction::Wait);
    assert!(!queue.is_closed());
    assert!(matches!(queue.try_dequeue(), Dequeued::Block(_)));
    assert_eq!(reader.retry(&mut queue), ReaderAction::Stop(Ok(())));
    assert!(queue.is_closed());
    assert_eq!(queue.len(), 1);
}

#[test]
fn failed_read_closes_the_queue() {
    let mut reader = Reader::new(4);
    let mut queue = BlockQueue::new(2);
    assert_eq!(reader.read_done(&mut queue, vec![1, 2, 3, 4]), ReaderAction::Read(4));
    let action = reader.read_failed(&mut queue);
    assert_eq!(action, ReaderAction::Stop(Err(PipeError::ReadFailed)));
    assert_eq!(reader.action(), ReaderAction::Stop(Err(PipeError::ReadFailed)));
    assert!(queue.is_closed());
    assert_eq!(queue.len(), 1);
    assert_eq!(reader.blocks_read(), 1);
}

#[test]
fn reader_stops_when_the_consumer_is_gone() {
    let mut reader = Reader::new(4);
    let mut queue = BlockQueue::new(2);
    queue.abandon();
    let action = reader.read_done(&mut queue, vec![1, 2, 3, 4]);
    assert_eq!(action, ReaderAction::Stop(Err(PipeError::SendFailed)));
    assert_eq!(reader.blocks_read(), 1);
    assert_eq!(queue.len(), 0);
}

#[test]
fn fresh_writer_waits_for_a_block() {
    let writer = Writer::new();
    assert_eq!(writer.blocks_written(), 0);
    assert_eq!(writer.action(), WriterAction::Poll);
    assert!(writer.block().is_none());
}

#[test]
fn writer_waits_while_the_queue_is_empty_and_open() {
    let mut writer = Writer::new();
    let mut queue = BlockQueue::new(2);
    assert_eq!(writer.poll(&mut queue), WriterAction::Poll);
    assert_eq!(writer.poll(&mut queue), WriterAction::Poll);
    assert_eq!(writer.blocks_written(), 0);
}

#[test]
fn writer_takes_writes_and_counts() {
    let mut writer = Writer::new();
    let mut queue = BlockQueue::new(2);
    queue.try_enqueue(vec![1, 2, 3]);
    queue.try_enqueue(vec![4]);
    assert_eq!(writer.poll(&mut queue), WriterAction::Write);
    assert_eq!(writer.block(), Some(&vec![1, 2, 3]));
    assert_eq!(writer.blocks_written(), 0);
    assert_eq!(queue.len(), 1);
    assert_eq!(writer.write_done(), WriterAction::Poll);
    assert_eq!(writer.blocks_written(), 1);
    assert!(writer.block().is_none());
    assert_eq!(writer.poll(&mut queue), WriterAction::Write);
    assert_eq!(writer.block(), Some(&vec![4]));
    assert_eq!(writer.write_done(), WriterAction::Poll);
    assert_eq!(writer.blocks_written(), 2);
}

#[test]
fn writer_ends_when_the_queue_is_drained() {
    let mut writer = Writer::new();
    let mut queue = BlockQueue::new(2);
    queue.try_enqueue(vec![1]);
    queue.close();
    assert_eq!(writer.poll(&mut queue), WriterAction::Write);
    assert_eq!(writer.write_done(), WriterAction::Poll);
    assert_eq!(writer.poll(&mut queue), WriterAction::Stop(Ok(())));
    assert_eq!(writer.action(), WriterAction::Stop(Ok(())));
    assert_eq!(writer.blocks_written(), 1);
}

#[test]
fn failed_write_abandons_the_queue() {
    let mut writer = Writer::new();
    let mut queue = BlockQueue::new(3);
    queue.try_enqueue(vec![1]);
    queue.try_enqueue(vec![2]);
    queue.try_enqueue(vec![3]);
    assert_eq!(writer.poll(&mut queue), WriterAction::Write);
    let action = writer.write_failed(&mut queue);
    assert_eq!(action, WriterAction::Stop(Err(PipeError::WriteFailed)));
    assert_eq!(writer.action(), WriterAction::Stop(Err(PipeError::WriteFailed)));
    assert_eq!(writer.blocks_written(), 0);
    assert!(queue.is_abandoned());
    assert_eq!(queue.len(), 0);
}

#[test]
fn waiting_reader_is_freed_when_the_writer_fails() {
    let mut reader = Reader::new(2);
    let mut writer = Writer::new();
    let mut queue = BlockQueue::new(1);
    assert_eq!(reader.read_done(&mut queue, vec![1, 1]), ReaderAction::Read(2));
    assert_eq!(writer.poll(&mut queue), WriterAction::Write);
    assert_eq!(reader.read_done(&mut queue, vec![2, 2]), ReaderAction::Read(2));
    assert_eq!(reader.read_done(&mut queue, vec![3, 3]), ReaderAction::Wait);
    assert_eq!(writer.write_failed(&mut queue), WriterAction::Stop(Err(PipeError::WriteFailed)));
    assert_eq!(reader.retry(&mut queue), ReaderAction::Stop(Err(PipeError::SendFailed)));
    assert_eq!(reader.blocks_read(), 3);
    assert_eq!(writer.blocks_written(), 0);
}

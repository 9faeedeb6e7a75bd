use pipebuf::error::PipeError;
use pipebuf::queue::BlockQueue;
use pipebuf::reader::{Reader, ReaderAction};
use pipebuf::supervisor::{exit_code, outcome};
use pipebuf::writer::{Writer, WriterAction};

struct Run {
    output: Vec<u8>,
    reader: Result<(), PipeError>,
    writer: Result<(), PipeError>,
    reads: usize,
    enqueues: usize,
    blocks_read: u64,
    blocks_written: u64,
    most_queued: usize,
    closed: bool,
}

/// Moves `input` through a pipe on one thread. The reader runs until it has
/// to wait or stops, then the writer does, and so on. The write of block
/// number `fail_at`, counted from zero, fails.
fn run(input: &[u8], block_size: u64, capacity: usize, fail_at: Option<u64>) -> Run {
    let mut reader = Reader::new(block_size);
    let mut writer = Writer::new();
    let mut queue = BlockQueue::new(capacity);
    let mut offset = 0;
    let mut output = Vec::new();
    let mut reads = 0;
    let mut enqueues = 0;
    let mut most_queued = 0;
    let mut last_read = 0;
    let mut last_written = 0;
    loop {
        loop {
            let queued = queue.len();
            match reader.action() {
                ReaderAction::Read(len) => {
                    let end = input.len().min(offset + len as usize);
                    let bytes = input[offset..end].to_vec();
                    offset = end;
                    reads += 1;
                    reader.read_done(&mut queue, bytes);
                }
                ReaderAction::Wait => {
                    if let ReaderAction::Wait = reader.retry(&mut queue) {
                        break;
                    }
                }
                ReaderAction::Stop(_) => break,
            }
            if queue.len() > queued {
                enqueues += 1;
            }
            assert!(queue.len() <= capacity);
            most_queued = most_queued.max(queue.len());
            assert!(reader.blocks_read() >= last_read);
            last_read = reader.blocks_read();
        }
        loop {
            match writer.action() {
                WriterAction::Poll => {
                    if let WriterAction::Poll = writer.poll(&mut queue) {
                        break;
                    }
                }
                WriterAction::Write => {
                    if fail_at == Some(writer.blocks_written()) {
                        writer.write_failed(&mut queue);
                    } else {
                        output.extend_from_slice(writer.block().unwrap());
                        writer.write_done();
                    }
                }
                WriterAction::Stop(_) => break,
            }
            assert!(writer.blocks_written() >= last_written);
            last_written = writer.blocks_written();
            assert!(writer.blocks_written() <= reader.blocks_read());
        }
        if let (ReaderAction::Stop(r), WriterAction::Stop(w)) = (reader.action(), writer.action()) {
            return Run {
                output,
                reader: r,
                writer: w,
                reads,
                enqueues,
                blocks_read: reader.blocks_read(),
                blocks_written: writer.blocks_written(),
                most_queued,
                closed: queue.is_closed(),
            };
        }
    }
}

fn pattern(len: usize) -> Vec<u8> {
    (0..len).map(|i| (i * 31 % 251) as u8).collect()
}

#[test]
fn output_equals_input_for_many_shapes() {
    for len in [0usize, 1, 2, 3, 7, 8, 9, 15, 16, 17, 64, 100] {
        for block_size in [1u64, 2, 3, 8, 16, 1000] {
            for capacity in [1usize, 2, 5] {
                let input = pattern(len);
                let run = run(&input, block_size, capacity, None);
                assert_eq!(run.output, input);
                assert_eq!(run.reader, Ok(()));
                assert_eq!(run.writer, Ok(()));
                let blocks = (len as u64 + block_size - 1) / block_size;
                assert_eq!(run.blocks_read, blocks);
                assert_eq!(run.blocks_written, blocks);
                assert_eq!(run.reads as u64, len as u64 / block_size + 1);
                assert_eq!(run.enqueues as u64, blocks);
                assert!(run.most_queued <= capacity);
                assert!(run.closed);
            }
        }
    }
}

#[test]
fn three_blocks_of_a_mebibyte_and_a_half() {
    let mib = 1024 * 1024;
    let input = pattern(2 * mib + mib / 2);
    let run = run(&input, mib as u64, 2, None);
    assert_eq!(run.output.len(), 2 * mib + mib / 2);
    assert!(run.output == input);
    assert_eq!(run.blocks_read, 3);
    assert_eq!(run.blocks_written, 3);
    assert_eq!(exit_code(outcome(run.reader, run.writer)), 0);
}

#[test]
fn full_blocks_only_take_one_read_more() {
    let input = pattern(40);
    let run = run(&input, 10, 2, None);
    assert_eq!(run.reads, 5);
    assert_eq!(run.enqueues, 4);
    assert_eq!(run.blocks_read, 4);
    assert_eq!(run.blocks_written, 4);
    assert!(run.closed);
    assert_eq!(run.writer, Ok(()));
    assert_eq!(run.output, input);
}

#[test]
fn a_rest_is_one_block_more_and_the_last_read() {
    let input = pattern(43);
    let run = run(&input, 10, 2, None);
    assert_eq!(run.reads, 5);
    assert_eq!(run.enqueues, 5);
    assert_eq!(run.blocks_read, 5);
    assert_eq!(run.blocks_written, 5);
    assert!(run.closed);
    assert_eq!(run.output, input);
}

#[test]
fn empty_input_moves_nothing() {
    let run = run(&[], 10, 2, None);
    assert_eq!(run.reads, 1);
    assert_eq!(run.enqueues, 0);
    assert_eq!(run.blocks_read, 0);
    assert_eq!(run.blocks_written, 0);
    assert!(run.output.is_empty());
    assert_eq!(outcome(run.reader, run.writer), Ok(()));
}

#[test]
fn failed_write_ends_the_run_with_an_error() {
    let input = pattern(100);
    let run = run(&input, 10, 2, Some(3));
    assert_eq!(run.writer, Err(PipeError::WriteFailed));
    assert_eq!(run.reader, Err(PipeError::SendFailed));
    assert_eq!(run.blocks_written, 3);
    assert_eq!(run.output, input[..30].to_vec());
    assert_ne!(exit_code(outcome(run.reader, run.writer)), 0);
}

#[test]
fn failed_write_of_the_last_block_is_told_as_such() {
    let input = pattern(25);
    let run = run(&input, 10, 4, Some(2));
    assert_eq!(run.reader, Ok(()));
    assert_eq!(run.writer, Err(PipeError::WriteFailed));
    assert_eq!(run.blocks_read, 3);
    assert_eq!(run.blocks_written, 2);
    assert_eq!(run.output, input[..20].to_vec());
    assert_eq!(outcome(run.reader, run.writer), Err(PipeError::WriteFailed));
    assert_eq!(exit_code(outcome(run.reader, run.writer)), 1);
}

#[test]
fn output_is_a_prefix_of_the_input_after_a_failure() {
    for fail_at in 0..6u64 {
        let input = pattern(57);
        let run = run(&input, 10, 3, Some(fail_at));
        assert_eq!(run.output, input[..(fail_at as usize * 10)].to_vec());
        assert_eq!(run.writer, Err(PipeError::WriteFailed));
    }
}

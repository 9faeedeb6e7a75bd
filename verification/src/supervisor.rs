//! The supervisor: it builds the parts of a pipe from a configuration, and
//! says how the run as a whole has ended.

use crate::config::Config;
use crate::error::PipeError;
use crate::monitor::{Monitor, MonitorView};
use crate::queue::{BlockQueue, QueueView};
use crate::reader::{Reader, ReaderView};
use crate::writer::{Writer, WriterView};
use vstd::prelude::*;

verus! {

/// The parts of a pipe, ready to be started. Each part is then run on its
/// own; the reader and the writer share the queue.
pub struct Pipeline {
    pub reader: Reader,
    pub queue: BlockQueue,
    pub writer: Writer,
    /// The progress monitor, where the configuration asks for one.
    pub monitor: Option<Monitor>,
}

/// The result of a run, from how its reader and its writer have ended. The
/// reader is waited for first, so its failure is the one that is told; the
/// writer's failure is told where the reader had none.
pub open spec fn run_result(
    reader: Result<(), PipeError>,
    writer: Result<(), PipeError>,
) -> Result<(), PipeError> {
    match reader {
        Err(error) => Err(error),
        Ok(_) => writer,
    }
}

/// The exit status for a result: zero for a run without a failure, one for
/// every other.
pub open spec fn exit_status(result: Result<(), PipeError>) -> int {
    if result.is_ok() {
        0
    } else {
        1
    }
}

impl Pipeline {
    /// Builds a fresh reader, queue and writer for `config`, and a monitor
    /// where it is verbose.
    pub fn new(config: &Config) -> (pipeline: Pipeline)
        ensures
            pipeline.reader@ == ReaderView::fresh(config@.block_size),
            pipeline.queue@ == QueueView::fresh(config@.capacity),
            pipeline.writer@ == WriterView::fresh(),
            pipeline.monitor.is_some() == config@.verbose,
            pipeline.monitor matches Some(monitor) ==> monitor@ == (MonitorView {
                name: config@.name,
                update_secs: config@.update_secs,
                block_size: config@.block_size,
                capacity: config@.capacity,
                last_read: 0,
                last_written: 0,
            }),
    {
        let monitor = if config.verbose() {
            Some(Monitor::new(config))
        } else {
            None
        };
        Pipeline {
            reader: Reader::new(config.block_size()),
            queue: BlockQueue::new(config.capacity()),
            writer: Writer::new(),
            monitor,
        }
    }
}

/// The result of a run whose reader and writer have ended like this.
pub fn outcome(reader: Result<(), PipeError>, writer: Result<(), PipeError>) -> (result: Result<
    (),
    PipeError,
>)
    ensures
        result == run_result(reader, writer),
        result.is_ok() <==> reader.is_ok() && writer.is_ok(),
{
    match reader {
        Err(error) => Err(error),
        Ok(_) => writer,
    }
}

/// The exit status of the process for `result`.
pub fn exit_code(result: Result<(), PipeError>) -> (code: i32)
    ensures
        code == exit_status(result),
        code == 0 <==> result.is_ok(),
{
    match result {
        Ok(_) => 0,
        Err(_) => 1,
    }
}

/// A run ends with exit status zero if and only if neither its reader nor
/// its writer has failed.
pub proof fn exit_is_zero_iff_nothing_failed(
    reader: Result<(), PipeError>,
    writer: Result<(), PipeError>,
)
    ensures
        exit_status(run_result(reader, writer)) == 0 <==> reader.is_ok() && writer.is_ok(),
        reader.is_err() || writer.is_err() ==> exit_status(run_result(reader, writer)) == 1,
{
}

} // verus!

//! The progress monitor: it turns two samples of the block counters into
//! the figures of a progress line.
//!
//! The monitor neither sleeps nor prints. Its caller waits for the interval,
//! reads the two counters, asks for the report and the line, and prints it.

use crate::config::Config;
use crate::status::{human_size_text, status_line, status_text};
use vstd::prelude::*;

verus! {

/// The figures of one progress line. Sizes are in bytes, rates in bytes per
/// second.
#[derive(Clone, Copy, Debug, PartialEq, Eq, Structural)]
pub struct Report {
    /// Bytes read since the start.
    pub read: u64,
    /// Bytes read per second since the sample before.
    pub read_rate: u64,
    /// Bytes written since the start.
    pub written: u64,
    /// Bytes written per second since the sample before.
    pub write_rate: u64,
    /// How full the buffer is, in percent, never above 100.
    pub fill_percent: u64,
    /// Bytes read and not yet written.
    pub fill: u64,
}

/// What a `Monitor` stands for.
pub struct MonitorView {
    /// The name that starts each line, if the pipe has one.
    pub name: Option<Seq<char>>,
    /// Seconds between two samples.
    pub update_secs: nat,
    /// Bytes in a full block.
    pub block_size: nat,
    /// Blocks that the queue holds at most.
    pub capacity: nat,
    /// Bytes read at the sample before.
    pub last_read: nat,
    /// Bytes written at the sample before.
    pub last_written: nat,
}

/// Bytes per second, from a total now and the total `secs` seconds ago. A
/// total that is smaller than the one before counts as no progress.
pub open spec fn rate(total: nat, last: nat, secs: nat) -> nat {
    if total > last {
        (total - last) as nat / secs
    } else {
        0
    }
}

/// Bytes read and not yet written. Two counters sampled one after the other
/// can seem to say that more was written than read: that counts as nothing.
pub open spec fn fill_bytes(read: nat, written: nat) -> nat {
    if read > written {
        (read - written) as nat
    } else {
        0
    }
}

/// The share of `room` bytes that `fill` bytes take, in percent, rounded
/// down and at most 100.
pub open spec fn fill_percent(fill: nat, room: nat) -> nat {
    let percent = 100 * fill / room;
    if percent > 100 {
        100
    } else {
        percent
    }
}

impl MonitorView {
    /// Interval, block size and capacity are all positive.
    pub open spec fn wf(self) -> bool {
        &&& self.update_secs > 0
        &&& self.block_size > 0
        &&& self.capacity > 0
    }

    /// Bytes that the buffer holds when it is full of full blocks.
    pub open spec fn room(self) -> nat {
        self.capacity * self.block_size
    }

    /// Whether the byte totals of a sample can be told in 64 bits.
    pub open spec fn fits(self, blocks_read: nat, blocks_written: nat) -> bool {
        &&& blocks_read * self.block_size <= u64::MAX
        &&& blocks_written * self.block_size <= u64::MAX
    }

    /// The monitor after a sample with these byte totals.
    pub open spec fn seen(self, read: nat, written: nat) -> MonitorView {
        MonitorView { last_read: read, last_written: written, ..self }
    }

    /// Whether `report` holds the figures for a sample of these counters.
    pub open spec fn reports(self, blocks_read: nat, blocks_written: nat, report: Report) -> bool {
        &&& report.read == blocks_read * self.block_size
        &&& report.written == blocks_written * self.block_size
        &&& report.read_rate == rate(report.read as nat, self.last_read, self.update_secs)
        &&& report.write_rate == rate(report.written as nat, self.last_written, self.update_secs)
        &&& report.fill == fill_bytes(report.read as nat, report.written as nat)
        &&& report.fill_percent == fill_percent(report.fill as nat, self.room())
    }
}

/// The progress monitor of one pipe.
pub struct Monitor {
    name: Option<String>,
    update_secs: u64,
    block_size: u64,
    capacity: usize,
    last_read: u64,
    last_written: u64,
}

impl View for Monitor {
    type V = MonitorView;

    closed spec fn view(&self) -> MonitorView {
        MonitorView {
            name: match self.name {
                Some(n) => Some(n@),
                None => None,
            },
            update_secs: self.update_secs as nat,
            block_size: self.block_size as nat,
            capacity: self.capacity as nat,
            last_read: self.last_read as nat,
            last_written: self.last_written as nat,
        }
    }
}

/// Bytes per second, as `rate` defines them.
fn rate_of(total: u64, last: u64, secs: u64) -> (per_sec: u64)
    requires
        secs > 0,
    ensures
        per_sec == rate(total as nat, last as nat, secs as nat),
{
    if total > last {
        (total - last) / secs
    } else {
        0
    }
}

/// The fill level in percent, as `fill_percent` defines it.
fn percent_of(fill: u64, capacity: usize, block_size: u64) -> (percent: u64)
    requires
        capacity > 0,
        block_size > 0,
    ensures
        percent == fill_percent(fill as nat, capacity as nat * block_size as nat),
{
    assert(0 < capacity * block_size <= 0xffff_ffff_ffff_ffff * 0xffff_ffff_ffff_ffff)
        by (nonlinear_arith)
        requires
            0 < capacity <= 0xffff_ffff_ffff_ffff,
            0 < block_size <= 0xffff_ffff_ffff_ffff,
    ;
    let room: u128 = (capacity as u128) * (block_size as u128);
    let scaled: u128 = 100u128 * (fill as u128);
    let percent: u128 = scaled / room;
    if percent > 100 {
        100
    } else {
        percent as u64
    }
}

impl Monitor {
    #[verifier::type_invariant]
    spec fn inv(self) -> bool {
        self@.wf()
    }

    /// The monitor for a pipe with this configuration, before its first
    /// sample.
    pub fn new(config: &Config) -> (monitor: Monitor)
        ensures
            monitor@ == (MonitorView {
                name: config@.name,
                update_secs: config@.update_secs,
                block_size: config@.block_size,
                capacity: config@.capacity,
                last_read: 0,
                last_written: 0,
            }),
            monitor@.wf(),
    {
        let name = match config.name() {
            Some(n) => Some(String::from_str(n)),
            None => None,
        };
        Monitor {
            name,
            update_secs: config.update_secs(),
            block_size: config.block_size(),
            capacity: config.capacity(),
            last_read: 0,
            last_written: 0,
        }
    }

    /// Seconds to wait before each sample; never zero.
    pub fn update_secs(&self) -> (secs: u64)
        ensures
            secs == self@.update_secs,
            secs > 0,
    {
        proof {
            use_type_invariant(self);
        }
        self.update_secs
    }

    /// Takes a sample of the two block counters and gives the figures of
    /// the next progress line.
    ///
    /// A sample whose byte totals cannot be told in 64 bits gives `None` and
    /// is forgotten. Every other sample gives its report and is remembered
    /// for the rates of the next one.
    pub fn sample(&mut self, blocks_read: u64, blocks_written: u64) -> (result: Option<Report>)
        ensures
            final(self)@.wf(),
            match result {
                Some(report) => {
                    &&& old(self)@.fits(blocks_read as nat, blocks_written as nat)
                    &&& old(self)@.reports(blocks_read as nat, blocks_written as nat, report)
                    &&& final(self)@ == old(self)@.seen(report.read as nat, report.written as nat)
                },
                None => {
                    &&& !old(self)@.fits(blocks_read as nat, blocks_written as nat)
                    &&& final(self)@ == old(self)@
                },
            },
    {
        proof {
            use_type_invariant(&*self);
        }
        let read: u64 = match blocks_read.checked_mul(self.block_size) {
            Some(bytes) => bytes,
            None => {
                return None;
            },
        };
        let written: u64 = match blocks_written.checked_mul(self.block_size) {
            Some(bytes) => bytes,
            None => {
                return None;
            },
        };
        let fill: u64 = if read > written {
            read - written
        } else {
            0
        };
        let report = Report {
            read,
            read_rate: rate_of(read, self.last_read, self.update_secs),
            written,
            write_rate: rate_of(written, self.last_written, self.update_secs),
            fill_percent: percent_of(fill, self.capacity, self.block_size),
            fill,
        };
        self.last_read = read;
        self.last_written = written;
        Some(report)
    }

    /// The progress line for `report`: the name, if the pipe has one, the
    /// bytes read and written with their rates, and the fill level in percent
    /// and in bytes.
    pub fn status_line(&self, report: &Report) -> (line: String)
        ensures
            line@ == status_text(
                self@.name,
                human_size_text(report.read),
                human_size_text(report.read_rate),
                human_size_text(report.written),
                human_size_text(report.write_rate),
                report.fill_percent as nat,
                human_size_text(report.fill),
            ),
    {
        let name = match &self.name {
            Some(n) => Some(n.as_str()),
            None => None,
        };
        status_line(
            name,
            report.read,
            report.read_rate,
            report.written,
            report.write_rate,
            report.fill_percent,
            report.fill,
        )
    }
}

} // verus!

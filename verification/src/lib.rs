//! A buffering pipe: bytes read from one stream are cut into blocks, held in a
//! bounded queue, and written to another stream in the order they arrived.
//!
//! The crate holds the decisions of the pipe, each with a proved contract:
//!
//! - `config`: the settings, checked once;
//! - `queue`: the bounded queue of blocks;
//! - `reader` and `writer`: the two ends that move blocks through the queue
//!   and count them;
//! - `monitor` and `status`: the progress figures and the line that shows
//!   them;
//! - `supervisor`: how the parts are built and how a run ends;
//! - `model`: the pipe as a whole, and what is proved of every run.
//!
//! Reading, writing, sleeping and the threads themselves are left to the
//! caller: the reader and the writer say what they need next and are told
//! what came of it.

pub mod config;
pub mod error;
pub mod model;
pub mod monitor;
pub mod queue;
pub mod reader;
pub mod status;
pub mod supervisor;
pub mod writer;

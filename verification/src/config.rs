//! The settings of a pipe, fixed once it has started.

use vstd::prelude::*;

verus! {

/// Seconds between two progress lines when none is asked for.
pub const DEFAULT_UPDATE_SECS: u64 = 5;

/// Bytes in one block when none is asked for: one mebibyte.
pub const DEFAULT_BLOCK_SIZE: u64 = 1048576;

/// Why a set of values is no configuration.
#[derive(Clone, Copy, Debug, PartialEq, Eq, Structural)]
pub enum ConfigError {
    /// The update interval is zero seconds.
    ZeroInterval,
    /// A block would hold no bytes.
    ZeroBlockSize,
    /// The queue would hold no blocks.
    ZeroCapacity,
}

/// The text that describes `error`.
pub open spec fn describe_text(error: ConfigError) -> Seq<char> {
    match error {
        ConfigError::ZeroInterval => "the update interval must be at least one second"@,
        ConfigError::ZeroBlockSize => "the block size must be at least one byte"@,
        ConfigError::ZeroCapacity => "the buffer must hold at least one block"@,
    }
}

impl ConfigError {
    /// A short description for diagnostics.
    pub fn describe(&self) -> (text: &'static str)
        ensures
            text@ == describe_text(*self),
    {
        match self {
            ConfigError::ZeroInterval => "the update interval must be at least one second",
            ConfigError::ZeroBlockSize => "the block size must be at least one byte",
            ConfigError::ZeroCapacity => "the buffer must hold at least one block",
        }
    }
}

/// What a `Config` stands for.
pub struct ConfigView {
    /// Whether progress lines are wanted.
    pub verbose: bool,
    /// The name that starts each progress line, if the pipe has one.
    pub name: Option<Seq<char>>,
    /// Seconds between two progress lines.
    pub update_secs: nat,
    /// Bytes in a full block.
    pub block_size: nat,
    /// Blocks that the queue holds at most.
    pub capacity: nat,
}

impl ConfigView {
    /// Interval, block size and capacity are all positive.
    pub open spec fn valid(self) -> bool {
        &&& self.update_secs > 0
        &&& self.block_size > 0
        &&& self.capacity > 0
    }
}

/// The error that `Config::new` gives for these values, if any. The interval
/// is looked at first, then the block size, then the capacity.
pub open spec fn config_error(update_secs: u64, block_size: u64, capacity: usize) -> Option<
    ConfigError,
> {
    if update_secs == 0 {
        Some(ConfigError::ZeroInterval)
    } else if block_size == 0 {
        Some(ConfigError::ZeroBlockSize)
    } else if capacity == 0 {
        Some(ConfigError::ZeroCapacity)
    } else {
        None
    }
}

/// A validated configuration. It cannot be changed after it is built.
#[derive(Debug)]
pub struct Config {
    verbose: bool,
    name: Option<String>,
    update_secs: u64,
    block_size: u64,
    capacity: usize,
}

impl View for Config {
    type V = ConfigView;

    closed spec fn view(&self) -> ConfigView {
        ConfigView {
            verbose: self.verbose,
            name: match self.name {
                Some(n) => Some(n@),
                None => None,
            },
            update_secs: self.update_secs as nat,
            block_size: self.block_size as nat,
            capacity: self.capacity as nat,
        }
    }
}

impl Config {
    #[verifier::type_invariant]
    spec fn inv(self) -> bool {
        &&& self.update_secs > 0
        &&& self.block_size > 0
        &&& self.capacity > 0
    }

    /// Checks the values and builds the configuration from them.
    pub fn new(
        verbose: bool,
        name: Option<String>,
        update_secs: u64,
        block_size: u64,
        capacity: usize,
    ) -> (result: Result<Config, ConfigError>)
        ensures
            match result {
                Ok(config) => {
                    &&& config_error(update_secs, block_size, capacity).is_none()
                    &&& config@.valid()
                    &&& config@.verbose == verbose
                    &&& config@.name == match name {
                        Some(n) => Some(n@),
                        None => None,
                    }
                    &&& config@.update_secs == update_secs
                    &&& config@.block_size == block_size
                    &&& config@.capacity == capacity
                },
                Err(error) => config_error(update_secs, block_size, capacity) == Some(error),
            },
    {
        if update_secs == 0 {
            Err(ConfigError::ZeroInterval)
        } else if block_size == 0 {
            Err(ConfigError::ZeroBlockSize)
        } else if capacity == 0 {
            Err(ConfigError::ZeroCapacity)
        } else {
            Ok(Config { verbose, name, update_secs, block_size, capacity })
        }
    }

    /// The configuration of a quiet, nameless pipe that holds `capacity`
    /// blocks of the default size.
    pub fn with_defaults(capacity: usize) -> (result: Result<Config, ConfigError>)
        ensures
            match result {
                Ok(config) => {
                    &&& capacity > 0
                    &&& config@ == (ConfigView {
                        verbose: false,
                        name: None,
                        update_secs: DEFAULT_UPDATE_SECS as nat,
                        block_size: DEFAULT_BLOCK_SIZE as nat,
                        capacity: capacity as nat,
                    })
                },
                Err(error) => capacity == 0 && error == ConfigError::ZeroCapacity,
            },
    {
        Config::new(false, None, DEFAULT_UPDATE_SECS, DEFAULT_BLOCK_SIZE, capacity)
    }

    /// Whether progress lines are wanted.
    pub fn verbose(&self) -> (verbose: bool)
        ensures
            verbose == self@.verbose,
    {
        self.verbose
    }

    /// The label that starts each progress line, if there is one.
    pub fn name(&self) -> (name: Option<&str>)
        ensures
            match name {
                Some(n) => self@.name == Some(n@),
                None => self@.name.is_none(),
            },
    {
        match &self.name {
            Some(n) => Some(n.as_str()),
            None => None,
        }
    }

    /// Seconds between two progress lines; never zero.
    pub fn update_secs(&self) -> (secs: u64)
        ensures
            secs == self@.update_secs,
            secs > 0,
    {
        proof {
            use_type_invariant(self);
        }
        self.update_secs
    }

    /// Bytes in a full block; never zero.
    pub fn block_size(&self) -> (size: u64)
        ensures
            size == self@.block_size,
            size > 0,
    {
        proof {
            use_type_invariant(self);
        }
        self.block_size
    }

    /// Blocks that the queue holds at most; never zero.
    pub fn capacity(&self) -> (capacity: usize)
        ensures
            capacity == self@.capacity,
            capacity > 0,
    {
        proof {
            use_type_invariant(self);
        }
        self.capacity
    }
}

} // verus!

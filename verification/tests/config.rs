use pipebuf::config::{Config, ConfigError, DEFAULT_BLOCK_SIZE, DEFAULT_UPDATE_SECS};
use pipebuf::error::PipeError;
use pipebuf::supervisor::{exit_code, outcome, Pipeline};

#[test]
fn defaults_are_five_seconds_and_one_mebibyte() {
    assert_eq!(DEFAULT_UPDATE_SECS, 5);
    assert_eq!(DEFAULT_BLOCK_SIZE, 1024 * 1024);
}

#[test]
fn valid_values_make_a_config() {
    let config = Config::new(true, Some("left".to_string()), 5, 1048576, 16).unwrap();
    assert!(config.verbose());
    assert_eq!(config.name(), Some("left"));
    assert_eq!(config.update_secs(), 5);
    assert_eq!(config.block_size(), 1048576);
    assert_eq!(config.capacity(), 16);
}

#[test]
fn config_without_name_has_none() {
    let config = Config::new(false, None, 1, 1, 1).unwrap();
    assert!(!config.verbose());
    assert_eq!(config.name(), None);
    assert_eq!(config.update_secs(), 1);
    assert_eq!(config.block_size(), 1);
    assert_eq!(config.capacity(), 1);
}

#[test]
fn defaults_need_only_a_capacity() {
    let config = Config::with_defaults(8).unwrap();
    assert!(!config.verbose());
    assert_eq!(config.name(), None);
    assert_eq!(config.update_secs(), 5);
    assert_eq!(config.block_size(), 1048576);
    assert_eq!(config.capacity(), 8);
    assert_eq!(Config::with_defaults(0).err(), Some(ConfigError::ZeroCapacity));
}

#[test]
fn zero_interval_is_rejected() {
    assert_eq!(Config::new(false, None, 0, 1024, 4).err(), Some(ConfigError::ZeroInterval));
}

#[test]
fn zero_block_size_is_rejected() {
    assert_eq!(Config::new(false, None, 5, 0, 4).err(), Some(ConfigError::ZeroBlockSize));
}

#[test]
fn zero_capacity_is_rejected() {
    assert_eq!(Config::new(false, None, 5, 1024, 0).err(), Some(ConfigError::ZeroCapacity));
}

#[test]
fn interval_is_checked_before_block_size_and_capacity() {
    assert_eq!(Config::new(true, None, 0, 0, 0).err(), Some(ConfigError::ZeroInterval));
    assert_eq!(Config::new(true, None, 3, 0, 0).err(), Some(ConfigError::ZeroBlockSize));
}

#[test]
fn pipeline_is_built_fresh_from_config() {
    let config = Config::new(false, None, 5, 4096, 3).unwrap();
    let pipeline = Pipeline::new(&config);
    assert_eq!(pipeline.reader.block_size(), 4096);
    assert_eq!(pipeline.reader.blocks_read(), 0);
    assert_eq!(pipeline.queue.capacity(), 3);
    assert_eq!(pipeline.queue.len(), 0);
    assert!(!pipeline.queue.is_closed());
    assert!(!pipeline.queue.is_abandoned());
    assert_eq!(pipeline.writer.blocks_written(), 0);
    assert!(pipeline.monitor.is_none());
}

#[test]
fn verbose_pipeline_has_a_monitor() {
    let config = Config::new(true, Some("tape".to_string()), 7, 4096, 3).unwrap();
    let pipeline = Pipeline::new(&config);
    let monitor = pipeline.monitor.expect("a verbose pipe has a monitor");
    assert_eq!(monitor.update_secs(), 7);
}

#[test]
fn outcome_is_ok_only_if_both_ended_well() {
    assert_eq!(outcome(Ok(()), Ok(())), Ok(()));
    assert_eq!(outcome(Err(PipeError::ReadFailed), Ok(())), Err(PipeError::ReadFailed));
    assert_eq!(outcome(Ok(()), Err(PipeError::WriteFailed)), Err(PipeError::WriteFailed));
}

#[test]
fn outcome_tells_the_readers_failure_first() {
    assert_eq!(
        outcome(Err(PipeError::SendFailed), Err(PipeError::WriteFailed)),
        Err(PipeError::SendFailed)
    );
}

#[test]
fn exit_code_is_zero_only_without_failure() {
    assert_eq!(exit_code(Ok(())), 0);
    assert_eq!(exit_code(Err(PipeError::ReadFailed)), 1);
    assert_eq!(exit_code(Err(PipeError::WriteFailed)), 1);
    assert_eq!(exit_code(Err(PipeError::SendFailed)), 1);
}

#[test]
fn config_errors_describe_themselves() {
    assert_eq!(
        ConfigError::ZeroInterval.describe(),
        "the update interval must be at least one second"
    );
    assert_eq!(ConfigError::ZeroBlockSize.describe(), "the block size must be at least one byte");
    assert_eq!(ConfigError::ZeroCapacity.describe(), "the buffer must hold at least one block");
}

#[test]
fn errors_describe_themselves() {
    assert_eq!(PipeError::ReadFailed.describe(), "reading from the input stream failed");
    assert_eq!(PipeError::WriteFailed.describe(), "writing to the output stream failed");
    assert_eq!(PipeError::SendFailed.describe(), "sending on a closed queue");
}

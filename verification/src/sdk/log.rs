//! Logging from inside the guest: the host decides how much is logged,
//! and takes the records.

use vstd::prelude::*;
use crate::server::abi::log_v1::{HostLevel, Level, LevelFilter, LogRecord};

verus! {

impl Level {
    /// The level of the interface that stands for a level of the log.
    pub fn from(value: HostLevel) -> (r: Level)
        ensures
            r == value.guest(),
    {
        match value {
            HostLevel::Error => Level::Error,
            HostLevel::Warn => Level::Warn,
            HostLevel::Debug => Level::Debug,
            HostLevel::Info => Level::Info,
            HostLevel::Trace => Level::Trace,
        }
    }
}

/// The filter that stands for what the host said it wants to hear.
pub open spec fn filter_of(value: Option<Level>) -> LevelFilter {
    match value {
        None => LevelFilter::Off,
        Some(Level::Error) => LevelFilter::Error,
        Some(Level::Warn) => LevelFilter::Warn,
        Some(Level::Debug) => LevelFilter::Debug,
        Some(Level::Info) => LevelFilter::Info,
        Some(Level::Trace) => LevelFilter::Trace,
    }
}

/// The filter that stands for what the host said it wants to hear.
pub fn convert_filter(value: Option<Level>) -> (r: LevelFilter)
    ensures
        r == filter_of(value),
{
    match value {
        None => LevelFilter::Off,
        Some(Level::Error) => LevelFilter::Error,
        Some(Level::Warn) => LevelFilter::Warn,
        Some(Level::Debug) => LevelFilter::Debug,
        Some(Level::Info) => LevelFilter::Info,
        Some(Level::Trace) => LevelFilter::Trace,
    }
}

/// The guest learns the host's filter as it is: what the host tells of a
/// filter stands for that filter again.
pub proof fn lemma_filter_crosses_unchanged(filter: LevelFilter)
    ensures
        filter_of(crate::server::abi::log_v1::level_of(filter)) == filter,
{
}

/// The logger of a guest: it passes on what the host wants to hear.
#[derive(Clone, Copy, Debug)]
pub struct HostLogger {
    pub max_level: LevelFilter,
}

/// How far down the scale `level` stands.
fn rank_of_level(level: HostLevel) -> (r: u8)
    ensures
        r == level.rank(),
{
    match level {
        HostLevel::Error => 1,
        HostLevel::Warn => 2,
        HostLevel::Info => 3,
        HostLevel::Debug => 4,
        HostLevel::Trace => 5,
    }
}

/// How far down the scale `filter` reaches.
fn rank_of_filter(filter: LevelFilter) -> (r: u8)
    ensures
        r == filter.rank(),
{
    match filter {
        LevelFilter::Off => 0,
        LevelFilter::Error => 1,
        LevelFilter::Warn => 2,
        LevelFilter::Info => 3,
        LevelFilter::Debug => 4,
        LevelFilter::Trace => 5,
    }
}

impl HostLogger {
    /// The logger for what the host said it wants to hear.
    pub fn init(max_level: Option<Level>) -> (r: HostLogger)
        ensures
            r.max_level == filter_of(max_level),
    {
        HostLogger { max_level: convert_filter(max_level) }
    }

    /// Whether records of `level` are passed on.
    pub fn enabled(&self, level: HostLevel) -> (r: bool)
        ensures
            r == (level.rank() <= self.max_level.rank()),
    {
        rank_of_level(level) <= rank_of_filter(self.max_level)
    }

    /// The record to hand to the host for a record of the guest's log;
    /// `None` for a record that the host does not want to hear.
    pub fn log(
        &self,
        target: &str,
        level: HostLevel,
        message: &str,
        line: Option<u32>,
        file: Option<String>,
        source_module: Option<String>,
    ) -> (r: Option<LogRecord>)
        ensures
            match r {
                Some(record) => level.rank() <= self.max_level.rank() && record.target@ == target@
                    && record.level == level.guest() && record.message@ == message@ && record.line
                    == line && record.file == file && record.source_module == source_module,
                None => level.rank() > self.max_level.rank(),
            },
    {
        if self.enabled(level) {
            Some(
                LogRecord {
                    target: target.to_owned(),
                    level: Level::from(level),
                    message: message.to_owned(),
                    line,
                    file,
                    source_module,
                },
            )
        } else {
            None
        }
    }
}

} // verus!

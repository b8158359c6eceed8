//! Logging, version 1: the guest hands its log records to the host and
//! asks how much the host wants to hear.

use vstd::prelude::*;
use crate::data::text_view;
use crate::server::worker::Name;

verus! {

/// The level of a record on the guest's side of the interface.
#[derive(Clone, Copy, Debug, PartialEq, Eq)]
pub enum Level {
    Error,
    Warn,
    Debug,
    Info,
    Trace,
}

/// The level of a record in the host's log.
#[derive(Clone, Copy, Debug, PartialEq, Eq)]
pub enum HostLevel {
    Error,
    Warn,
    Info,
    Debug,
    Trace,
}

/// How much the host's log takes: nothing, or every record up to a level.
#[derive(Clone, Copy, Debug, PartialEq, Eq)]
pub enum LevelFilter {
    Off,
    Error,
    Warn,
    Info,
    Debug,
    Trace,
}

/// A record as the guest emits it.
#[derive(Debug)]
pub struct LogRecord {
    pub target: String,
    pub level: Level,
    pub message: String,
    pub line: Option<u32>,
    pub file: Option<String>,
    pub source_module: Option<String>,
}

/// A record as the host's log takes it.
#[derive(Debug)]
pub struct HostRecord {
    pub target: String,
    pub level: HostLevel,
    pub message: String,
    pub line: Option<u32>,
    pub file: Option<String>,
    pub source_module: Option<String>,
}

/// A record of the host's log as a mathematical value.
pub ghost struct HostRecordView {
    pub target: Seq<char>,
    pub level: HostLevel,
    pub message: Seq<char>,
    pub line: Option<u32>,
    pub file: Option<Seq<char>>,
    pub source_module: Option<Seq<char>>,
}

impl View for HostRecord {
    type V = HostRecordView;

    open spec fn view(&self) -> HostRecordView {
        HostRecordView {
            target: self.target@,
            level: self.level,
            message: self.message@,
            line: self.line,
            file: text_view(self.file),
            source_module: text_view(self.source_module),
        }
    }
}

impl Level {
    /// The level of the host's log that stands for this one.
    pub open spec fn host(self) -> HostLevel {
        match self {
            Level::Error => HostLevel::Error,
            Level::Warn => HostLevel::Warn,
            Level::Debug => HostLevel::Debug,
            Level::Info => HostLevel::Info,
            Level::Trace => HostLevel::Trace,
        }
    }

    /// The level of the host's log that stands for this one.
    pub fn into_host(self) -> (r: HostLevel)
        ensures
            r == self.host(),
    {
        match self {
            Level::Error => HostLevel::Error,
            Level::Warn => HostLevel::Warn,
            Level::Debug => HostLevel::Debug,
            Level::Info => HostLevel::Info,
            Level::Trace => HostLevel::Trace,
        }
    }
}

impl HostLevel {
    /// The level of the interface that stands for this one.
    pub open spec fn guest(self) -> Level {
        match self {
            HostLevel::Error => Level::Error,
            HostLevel::Warn => Level::Warn,
            HostLevel::Debug => Level::Debug,
            HostLevel::Info => Level::Info,
            HostLevel::Trace => Level::Trace,
        }
    }

    /// How far down the scale the level stands: errors first.
    pub open spec fn rank(self) -> int {
        match self {
            HostLevel::Error => 1,
            HostLevel::Warn => 2,
            HostLevel::Info => 3,
            HostLevel::Debug => 4,
            HostLevel::Trace => 5,
        }
    }
}

impl LevelFilter {
    /// The last level that the filter lets through; `None` where it lets
    /// nothing through.
    pub open spec fn most(self) -> Option<HostLevel> {
        match self {
            LevelFilter::Off => None,
            LevelFilter::Error => Some(HostLevel::Error),
            LevelFilter::Warn => Some(HostLevel::Warn),
            LevelFilter::Debug => Some(HostLevel::Debug),
            LevelFilter::Info => Some(HostLevel::Info),
            LevelFilter::Trace => Some(HostLevel::Trace),
        }
    }

    /// How far down the scale the filter reaches: 0 for nothing.
    pub open spec fn rank(self) -> int {
        match self.most() {
            Some(level) => level.rank(),
            None => 0,
        }
    }
}

/// What the guest is told of a filter of the host.
pub open spec fn level_of(value: LevelFilter) -> Option<Level> {
    match value.most() {
        Some(level) => Some(level.guest()),
        None => None,
    }
}

/// What the guest is told of a filter of the host: the last level that
/// the filter lets through, `None` for a filter that is off.
pub fn convert_level(value: LevelFilter) -> (r: Option<Level>)
    ensures
        r == level_of(value),
{
    match value {
        LevelFilter::Off => None,
        LevelFilter::Error => Some(Level::Error),
        LevelFilter::Warn => Some(Level::Warn),
        LevelFilter::Debug => Some(Level::Debug),
        LevelFilter::Info => Some(Level::Info),
        LevelFilter::Trace => Some(Level::Trace),
    }
}

/// What the guest is told when it asks how much the host wants to hear,
/// where the host's log takes `filter`.
pub fn max_level(filter: LevelFilter) -> (r: Option<Level>)
    ensures
        r == level_of(filter),
{
    convert_level(filter)
}

/// The levels of both sides stand for each other, one for one.
pub proof fn lemma_levels_correspond(level: Level, host: HostLevel)
    ensures
        level.host().guest() == level,
        host.guest().host() == host,
{
}

/// The target of a guest's record in the host's log:
/// `wasm::{database}::{wasm_name}::{target}`.
pub open spec fn target_of(name: Name, target: Seq<char>) -> Seq<char> {
    "wasm::"@ + name.database@ + "::"@ + name.wasm_name@ + "::"@ + target
}

/// The record that the host's log gets for a record of the guest `name`:
/// the same record under the guest's own target, at the level that stands
/// for the guest's.
pub fn log(name: &Name, value: LogRecord) -> (r: HostRecord)
    ensures
        r@ == (HostRecordView {
            target: target_of(*name, value.target@),
            level: value.level.host(),
            message: value.message@,
            line: value.line,
            file: text_view(value.file),
            source_module: text_view(value.source_module),
        }),
{
    let mut target = "wasm::".to_owned();
    target.append(name.database.as_str());
    target.append("::");
    target.append(name.wasm_name.as_str());
    target.append("::");
    target.append(value.target.as_str());
    HostRecord {
        target,
        level: value.level.into_host(),
        message: value.message,
        line: value.line,
        file: value.file,
        source_module: value.source_module,
    }
}

} // verus!

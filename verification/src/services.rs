//! Plain values of the services the core offers plugins, and the
//! arguments the caller hands the core.
//!
//! Logging, metadata and settings run over a native service surface
//! outside the library; the types here are the values that cross it.

use vstd::prelude::*;

verus! {

/// What the caller asks of the core at startup.
#[derive(Debug, Default)]
pub struct Args {
    /// Directory path for data.
    pub data_dir: String,
    /// Directory paths for plugins, or direct paths to plugin files.
    pub plugin_paths: Vec<String>,
    /// Files or paths to play.
    pub play: Vec<String>,
    /// Randomize the playing.
    pub randomize: bool,
}

/// Severity of a log line.
#[derive(Clone, Copy, Debug, PartialEq, Eq, Structural)]
pub enum LogLevel {
    Trace,
    Debug,
    Info,
    Warn,
    Error,
    Fatal,
}

/// A named log channel for one plugin instance.
pub struct Log {
    pub instance_name: String,
}

impl Log {
    /// A channel that prefixes every line with `name`.
    pub fn new(name: &str) -> (r: Log)
        ensures
            r.instance_name@ == name@,
    {
        Log { instance_name: name.to_owned() }
    }
}

/// Identifier of one piece of content in the metadata service.
pub type MetadataId = u64;

/// Character encoding of a metadata tag.
#[derive(Clone, Copy, Debug, PartialEq, Eq, Structural)]
pub enum MetaEncoding {
    Utf8,
    ShiftJS2,
}

/// Outcome of a metadata query.
#[derive(Clone, Copy, Debug, PartialEq, Eq, Structural)]
pub enum RVMetadataResult {
    KeyNotFound,
    UnableToMakeQuery,
}

/// The metadata service. It records nothing yet: every call is accepted
/// and has no effect, and every URL maps to the null identifier.
pub struct Metadata {
    _dummy: u32,
}

impl Metadata {
    pub fn new() -> (r: Metadata)
        ensures
            true,
    {
        Metadata { _dummy: 0 }
    }

    /// Register a URL; the null identifier stands for it.
    pub fn create_url(&mut self, _url: &str) -> (r: MetadataId)
        ensures
            r == 0,
            *final(self) == *old(self),
    {
        0
    }

    /// Record a textual tag. Accepted and discarded.
    pub fn set_tag(&mut self, _id: MetadataId, _tag: &str, _data: &str)
        ensures
            *final(self) == *old(self),
    {
    }

    /// Record a sample name. Accepted and discarded.
    pub fn add_sample(&mut self, _parent_id: MetadataId, _text: &str)
        ensures
            *final(self) == *old(self),
    {
    }

    /// Record an instrument name. Accepted and discarded.
    pub fn add_instrument(&mut self, _parent_id: MetadataId, _text: &str)
        ensures
            *final(self) == *old(self),
    {
    }
}

/// What one poll of a URL read decided (see [`io_read_poll`]).
#[derive(Debug)]
pub enum IoPoll {
    /// The bytes arrived; hand them to the caller.
    Done(Vec<u8>),
    /// The load failed; give the caller an empty answer.
    Failed,
    /// Progress was reported; poll again without sleeping.
    RetryAtOnce,
    /// Nothing useful yet; sleep briefly, then poll again.
    SleepThenRetry,
}

/// One step of the blocking URL read the IO service offers plugins. The
/// caller polls the VFS handle a bounded number of times and acts on the
/// decision taken here for each observed event; after the last allowed
/// poll it gives the caller an empty answer.
pub fn io_read_poll(event: Option<crate::playlist::VfsEvent>) -> (r: IoPoll)
    ensures
        event matches Some(crate::playlist::VfsEvent::ReadDone(d)) ==> r == IoPoll::Done(d),
        event matches Some(crate::playlist::VfsEvent::Error(_)) ==> r == IoPoll::Failed,
        event matches Some(crate::playlist::VfsEvent::NotFound) ==> r == IoPoll::Failed,
        event matches Some(crate::playlist::VfsEvent::ReadProgress) ==> r == IoPoll::RetryAtOnce,
        event matches Some(crate::playlist::VfsEvent::Directory(_)) ==> r
            == IoPoll::SleepThenRetry,
        event is None ==> r == IoPoll::SleepThenRetry,
{
    match event {
        Some(crate::playlist::VfsEvent::ReadDone(d)) => IoPoll::Done(d),
        Some(crate::playlist::VfsEvent::Error(_)) => IoPoll::Failed,
        Some(crate::playlist::VfsEvent::NotFound) => IoPoll::Failed,
        Some(crate::playlist::VfsEvent::ReadProgress) => IoPoll::RetryAtOnce,
        Some(crate::playlist::VfsEvent::Directory(_)) => IoPoll::SleepThenRetry,
        None => IoPoll::SleepThenRetry,
    }
}

/// Outcome of a settings call.
#[derive(Clone, Copy, Debug, PartialEq, Eq, Structural)]
pub enum SettingsResult {
    Okay,
    NotFound,
    DuplicatedId,
    WrongType,
}

/// An integer setting with its range.
#[derive(Clone, Copy, Debug, PartialEq, Eq, Structural)]
pub struct SInteger {
    pub value: i32,
    pub start_range: i32,
    pub end_range: i32,
}

/// A boolean setting.
#[derive(Clone, Copy, Debug, PartialEq, Eq, Structural)]
pub struct SBool {
    pub value: bool,
}

/// An integer read from the settings, with the outcome of the lookup.
#[derive(Clone, Copy, Debug, PartialEq, Eq, Structural)]
pub struct SIntResult {
    pub result: SettingsResult,
    pub value: i32,
}

/// A boolean read from the settings, with the outcome of the lookup.
#[derive(Clone, Copy, Debug, PartialEq, Eq, Structural)]
pub struct SBoolResult {
    pub result: SettingsResult,
    pub value: bool,
}

} // verus!

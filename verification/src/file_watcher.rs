//! What the watcher of the configuration file decides: which events of the
//! file system ask for a reload, and how the file is read.

use crate::text::str_eq;
use vstd::prelude::*;

verus! {

/// The seconds over which events of the file system are gathered before
/// they are looked at.
pub const DEBOUNCE_TIMEOUT_SECONDS: u64 = 2;

/// The directory that is watched where the configuration file's path names
/// none.
pub const CURRENT_DIRECTORY: &'static str = ".";

/// The kind of an event of the file system.
#[derive(Debug, Clone, Copy, PartialEq, Eq, Structural)]
pub enum WatchEventKind {
    Any,
    Access,
    Create,
    Modify,
    Remove,
    Other,
}

impl WatchEventKind {
    /// Whether the event may have changed a file: it was created, modified
    /// or removed.
    pub open spec fn spec_is_change(&self) -> bool {
        *self == WatchEventKind::Create || *self == WatchEventKind::Modify || *self
            == WatchEventKind::Remove
    }

    /// Whether the event may have changed a file.
    pub fn is_change(&self) -> (r: bool)
        ensures
            r == self.spec_is_change(),
    {
        match self {
            WatchEventKind::Create | WatchEventKind::Modify | WatchEventKind::Remove => true,
            _ => false,
        }
    }
}

/// The number of `true` among the first `count` values.
pub open spec fn hits(is_config_file: Seq<bool>, count: nat) -> nat
    decreases count,
{
    if count == 0 {
        0
    } else if is_config_file[count - 1] {
        hits(is_config_file, (count - 1) as nat) + 1
    } else {
        hits(is_config_file, (count - 1) as nat)
    }
}

/// How often an event asks for a reload: once for each of its paths that is
/// the configuration file, if the event created, modified or removed
/// something, and never otherwise. `is_config_file` says of each path of the
/// event whether it is the configuration file.
pub fn reload_signals(kind: WatchEventKind, is_config_file: &Vec<bool>) -> (r: usize)
    ensures
        r == if kind.spec_is_change() {
            hits(is_config_file@, is_config_file@.len())
        } else {
            0
        },
{
    if !kind.is_change() {
        return 0;
    }
    let mut signals: usize = 0;
    let mut i: usize = 0;
    while i < is_config_file.len()
        invariant
            i <= is_config_file.len(),
            signals == hits(is_config_file@, i as nat),
            signals <= i,
        decreases is_config_file.len() - i,
    {
        if is_config_file[i] {
            signals = signals + 1;
        }
        i = i + 1;
    }
    signals
}

/// The directory that is watched: the one that holds the configuration
/// file, or the current one where the file's path names none.
pub fn watch_directory<'a>(parent: Option<&'a str>) -> (r: &'a str)
    ensures
        r@ == match parent {
            Some(directory) => directory@,
            None => CURRENT_DIRECTORY@,
        },
{
    match parent {
        Some(directory) => directory,
        None => CURRENT_DIRECTORY,
    }
}

/// The format of a configuration file.
#[derive(Debug, Clone, Copy, PartialEq, Eq, Structural)]
pub enum ConfigFormat {
    Yaml,
    Json,
}

/// The format in which a configuration file is read: JSON where its
/// extension is `json`, YAML otherwise.
pub fn config_format(extension: Option<&str>) -> (r: ConfigFormat)
    ensures
        r == if extension matches Some(extension) && extension@ == "json"@ {
            ConfigFormat::Json
        } else {
            ConfigFormat::Yaml
        },
{
    match extension {
        Some(extension) => if str_eq(extension, "json") {
            ConfigFormat::Json
        } else {
            ConfigFormat::Yaml
        },
        None => ConfigFormat::Yaml,
    }
}

} // verus!

//! The two-level plugin object model: a manager produces one or many plugin
//! instances from configuration, and each instance advertises capabilities
//! and implements the subset of the optional callbacks it supports.

use vstd::prelude::*;

use crate::capabilities::PluginCapabilities;
use crate::capabilities::PluginManagerCapabilities;
use crate::level::LogLevel;

verus! {

/// One opaque parsed unit of the host's configuration tree, handed through
/// unmodified to the manager.
#[derive(Debug)]
pub struct ConfigItem {
    /// The item's key.
    pub key: String,
    /// The item's own values.
    pub values: Vec<String>,
    /// Nested items.
    pub children: Vec<ConfigItem>,
}

/// One reported data point.
#[derive(Debug, Clone, Copy, PartialEq, Eq, Structural)]
pub enum DataValue {
    /// A monotonically increasing count.
    Counter(u64),
    /// A rate derived from a difference of counts.
    Derive(i64),
    /// A count that resets on read.
    Absolute(u64),
}

/// A batch of externally produced data points handed to `write_values`.
#[derive(Debug)]
pub struct ValueList {
    /// Name of the plugin the values belong to.
    pub plugin: String,
    /// The data-set type of the values.
    pub dataset: String,
    /// The data points themselves.
    pub values: Vec<DataValue>,
}

/// Why a plugin or manager call did not succeed. The host can tell
/// "unsupported" apart from "broken": an optional method that an
/// implementation did not override reports `NotImplemented`.
#[derive(Debug, PartialEq, Eq)]
pub enum PluginError {
    /// The default outcome of an optional method that was not overridden.
    NotImplemented,
    /// A genuine failure, with a description for the host's log.
    Failure(String),
}

impl PluginError {
    /// True for the distinguished "unsupported" outcome.
    pub fn is_not_implemented(&self) -> (r: bool)
        ensures
            r == (self is NotImplemented),
    {
        match self {
            PluginError::NotImplemented => true,
            PluginError::Failure(_) => false,
        }
    }
}

/// How many instances of the plugin will be registered.
pub enum PluginRegistration<P> {
    /// The module registers a single plugin.
    Single(P),
    /// The module registers several plugins; each name must be a unique
    /// identifier within the set.
    Multiple(Vec<(String, P)>),
}

/// The names under which a registration's instances would be registered.
pub open spec fn spec_registration_names<P>(r: PluginRegistration<P>) -> Seq<Seq<char>> {
    match r {
        PluginRegistration::Single(_) => Seq::empty(),
        PluginRegistration::Multiple(v) => v@.map_values(|e: (String, P)| e.0@),
    }
}

/// True when no two names in the sequence are the same.
pub open spec fn spec_names_unique(names: Seq<Seq<char>>) -> bool {
    forall|i: int, j: int| 0 <= i < j < names.len() ==> names[i] != names[j]
}

/// True when every name is free of null characters, as the host's
/// registration interface requires.
pub open spec fn spec_names_null_free(names: Seq<Seq<char>>) -> bool {
    forall|i: int| 0 <= i < names.len() ==> crate::logger::spec_null_free(#[trigger] names[i])
}

/// A contract violation found in a registration before it is handed to the
/// host.
#[derive(Debug, Clone, Copy, PartialEq, Eq, Structural)]
pub enum RegistrationError {
    /// A name contains a null character.
    InvalidName,
    /// Two instances share a name.
    DuplicateName,
}

impl<P> PluginRegistration<P> {
    /// Checks the registration before it is handed to the host: every
    /// instance name must be free of null characters, and names must be
    /// unique within the set. A single unnamed instance is always fine.
    pub fn validate(&self) -> (r: Result<(), RegistrationError>)
        ensures
            match r {
                Ok(()) => spec_names_null_free(spec_registration_names(*self))
                    && spec_names_unique(spec_registration_names(*self)),
                Err(RegistrationError::InvalidName) => !spec_names_null_free(
                    spec_registration_names(*self),
                ),
                Err(RegistrationError::DuplicateName) => spec_names_null_free(
                    spec_registration_names(*self),
                ) && !spec_names_unique(spec_registration_names(*self)),
            },
    {
        let entries = match self {
            PluginRegistration::Single(_) => {
                return Ok(());
            },
            PluginRegistration::Multiple(v) => v,
        };
        let ghost names = spec_registration_names(*self);
        proof {
            assert(names == entries@.map_values(|e: (String, P)| e.0@));
        }
        let n = entries.len();
        proof {
            assert(names.len() == n);
            assert(forall|i: int| 0 <= i < n ==> names[i] == entries@[i].0@);
        }
        let mut i: usize = 0;
        while i < n
            invariant
                0 <= i <= n,
                n == entries@.len(),
                names == spec_registration_names(*self),
                names.len() == n,
                forall|k: int| 0 <= k < n ==> names[k] == entries@[k].0@,
                forall|k: int| 0 <= k < i ==> crate::logger::spec_null_free(#[trigger] names[k]),
            decreases n - i,
        {
            if !crate::logger::is_null_free(entries[i].0.as_str()) {
                proof {
                    assert(!crate::logger::spec_null_free(names[i as int]));
                    assert(!spec_names_null_free(names));
                }
                return Err(RegistrationError::InvalidName);
            }
            i += 1;
        }
        let mut i: usize = 0;
        while i < n
            invariant
                0 <= i <= n,
                n == entries@.len(),
                names == spec_registration_names(*self),
                names.len() == n,
                forall|k: int| 0 <= k < n ==> names[k] == entries@[k].0@,
                spec_names_null_free(names),
                forall|a: int, b: int| 0 <= a < b < n && a < i ==> names[a] != names[b],
            decreases n - i,
        {
            let mut j: usize = i + 1;
            while j < n
                invariant
                    0 <= i < j <= n,
                    n == entries@.len(),
                    names == spec_registration_names(*self),
                    names.len() == n,
                    forall|k: int| 0 <= k < n ==> names[k] == entries@[k].0@,
                    spec_names_null_free(names),
                    forall|a: int, b: int| 0 <= a < b < n && a < i ==> names[a] != names[b],
                    forall|b: int| i < b < j ==> names[i as int] != names[b],
                decreases n - j,
            {
                if entries[i].0 == entries[j].0 {
                    proof {
                        assert(names[i as int] == names[j as int]);
                        assert(!spec_names_unique(names));
                    }
                    return Err(RegistrationError::DuplicateName);
                }
                j += 1;
            }
            i += 1;
        }
        Ok(())
    }
}

/// The entry point of a loaded module: based on the host's configuration, a
/// manager registers any number of plugins, or fails.
pub trait PluginManager: Sized {
    /// The type of the plugin instances this manager produces.
    type Instance: Plugin;

    /// Name of the plugin. Must not contain null characters.
    fn name() -> &'static str;

    /// The capabilities of the plugin manager; by default it asks for an
    /// init callback even absent configuration.
    fn capabilities() -> (r: PluginManagerCapabilities) {
        PluginManagerCapabilities::init()
    }

    /// Returns one or many plugin instances configured from the host's
    /// configuration. A `None` configuration means no configuration section
    /// was found for the plugin, so defaults should be used; each invocation
    /// is an independent construction.
    fn plugins(config: Option<&[ConfigItem]>) -> Result<
        PluginRegistration<Self::Instance>,
        PluginError,
    >;

    /// Initialize any resource shared between the plugin instances.
    fn initialize() -> Result<(), PluginError>;

    /// Clean up what `initialize` allocated.
    fn shutdown() -> Result<(), PluginError>;
}

/// An individual plugin capable of reporting values to the host, receiving
/// values from other plugins, or logging messages. The host may invoke any
/// subset of the callbacks concurrently from several threads, so instances
/// must be shareable across threads; every optional method defaults to the
/// distinguished "not implemented" outcome.
pub trait Plugin: Send + Sync + Sized {
    /// The capabilities this instance advertises; by default it does
    /// nothing.
    fn capabilities(&self) -> (r: PluginCapabilities) {
        PluginCapabilities::empty()
    }

    /// Customizes how a message of a given level is logged; the message is
    /// guaranteed valid text.
    fn log(&self, lvl: LogLevel, msg: &str) -> Result<(), PluginError> {
        let _ = lvl;
        let _ = msg;
        Err(PluginError::NotImplemented)
    }

    /// Called when the host expects the plugin to report values. A failing
    /// invocation makes the host back off exponentially, up to a capped
    /// delay; the plugin itself does not implement that backoff.
    fn read_values(&self) -> Result<(), PluginError> {
        Err(PluginError::NotImplemented)
    }

    /// Receives a batch of values reported by other plugins. Expensive work
    /// is better buffered here and deferred to `flush`.
    fn write_values(&self, list: ValueList) -> Result<(), PluginError> {
        let _ = list;
        Err(PluginError::NotImplemented)
    }

    /// Flushes buffered values older than `timeout` (all of them when
    /// absent), and only those matching `identifier` when one is given.
    fn flush(&self, timeout: Option<chrono::Duration>, identifier: Option<&str>) -> Result<
        (),
        PluginError,
    > {
        let _ = timeout;
        let _ = identifier;
        Err(PluginError::NotImplemented)
    }
}

/// The status code a host callback reports: zero for success, non-zero for
/// failure.
pub fn status_code(r: &Result<(), PluginError>) -> (c: i32)
    ensures
        (c == 0) <==> (*r is Ok),
{
    match r {
        Ok(()) => 0,
        Err(_) => -1,
    }
}

/// Declares the host-facing duration type so plugin signatures can pass it
/// through; this layer only hands it on, it never reads it.
#[verifier::external_type_specification]
#[verifier::external_body]
pub struct ExTimeDelta(chrono::TimeDelta);

} // verus!

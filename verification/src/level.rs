//! Log levels.

use vstd::prelude::*;

verus! {

/// How severe a log message is, the most severe level first.
#[derive(Clone, Copy, Debug, PartialEq, Eq, Structural)]
pub enum Level {
    /// Very serious errors.
    Error,
    /// Hazardous situations.
    Warn,
    /// Useful information.
    Info,
    /// Lower priority information.
    Debug,
    /// Very low priority, often extremely verbose information.
    Trace,
}

impl Level {
    /// The number of a level: the more verbose the level, the larger its number.
    pub open spec fn number(self) -> usize {
        match self {
            Level::Error => 1,
            Level::Warn => 2,
            Level::Info => 3,
            Level::Debug => 4,
            Level::Trace => 5,
        }
    }

    /// The name of a level in a log line.
    pub open spec fn name(self) -> Seq<char> {
        match self {
            Level::Error => "ERROR"@,
            Level::Warn => "WARN"@,
            Level::Info => "INFO"@,
            Level::Debug => "DEBUG"@,
            Level::Trace => "TRACE"@,
        }
    }

    /// The number of this level.
    pub fn as_usize(self) -> (number: usize)
        ensures
            number == self.number(),
    {
        match self {
            Level::Error => 1,
            Level::Warn => 2,
            Level::Info => 3,
            Level::Debug => 4,
            Level::Trace => 5,
        }
    }
}

/// The name of a level, as the `Display` implementation of `log::Level` writes it: the level's
/// identifier in upper case.
#[verifier::external_body]
pub(crate) fn level_name(level: Level) -> (name: String)
    ensures
        name@ == level.name(),
{
    let level: log::Level = match level {
        Level::Error => log::Level::Error,
        Level::Warn => log::Level::Warn,
        Level::Info => log::Level::Info,
        Level::Debug => log::Level::Debug,
        Level::Trace => log::Level::Trace,
    };
    level.to_string()
}

/// The filter of the `log` crate: the level up to which its macros hand on records. Only
/// [`set_max_level`] changes it.
pub struct MaxLevel {
    set: Ghost<Option<Level>>,
}

impl MaxLevel {
    /// The filter that lets records up to `level` through.
    pub closed spec fn at(level: Level) -> MaxLevel {
        MaxLevel { set: Ghost(Some(level)) }
    }

    /// The filter that has not been set.
    pub closed spec fn unset() -> MaxLevel {
        MaxLevel { set: Ghost(None) }
    }

    /// The filter that has not been set.
    pub(crate) fn new() -> (max: MaxLevel)
        ensures
            max == MaxLevel::unset(),
    {
        MaxLevel { set: Ghost(None) }
    }
}

/// Filters at different levels differ, and none is the filter that was never set.
pub(crate) proof fn lemma_filters_differ(a: Level, b: Level)
    ensures
        MaxLevel::at(a) == MaxLevel::at(b) ==> a == b,
        MaxLevel::at(a) != MaxLevel::unset(),
{
    assert(MaxLevel::at(a).set@ == Some(a));
    assert(MaxLevel::at(b).set@ == Some(b));
    assert(MaxLevel::unset().set@ is None);
}

/// Calls `log::set_max_level` with the filter that `log::Level::to_level_filter` gives for `level`:
/// it is claimed that the filter of the `log` crate is at that level afterwards. `max` stands for
/// that filter, as far as it is set here: the `log` crate keeps it for the whole process, and lets
/// anyone else in the process set it too.
#[verifier::external_body]
pub(crate) fn set_max_level(max: &mut MaxLevel, level: Level)
    ensures
        *final(max) == MaxLevel::at(level),
{
    let level: log::Level = match level {
        Level::Error => log::Level::Error,
        Level::Warn => log::Level::Warn,
        Level::Info => log::Level::Info,
        Level::Debug => log::Level::Debug,
        Level::Trace => log::Level::Trace,
    };
    log::set_max_level(level.to_level_filter());
}

} // verus!

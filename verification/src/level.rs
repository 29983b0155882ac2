//! Severity levels of the facade, priorities of the platform, and the fixed
//! correspondence between them.

use vstd::prelude::*;

verus! {

/// Severity of a record as the logging facade reports it.
#[derive(Clone, Copy, Debug, PartialEq, Eq, Structural)]
pub enum Level {
    Error,
    Warn,
    Info,
    Debug,
    Trace,
}

/// Priority of a message as the platform's log understands it.
#[derive(Clone, Copy, Debug, PartialEq, Eq, Structural)]
pub enum Priority {
    Verbose,
    Debug,
    Info,
    Warn,
    Error,
}

/// The facade's process-wide threshold: the most verbose level it lets
/// through.
#[derive(Clone, Copy, Debug, PartialEq, Eq, Structural)]
pub enum LevelFilter {
    Off,
    Error,
    Warn,
    Info,
    Debug,
    Trace,
}

impl Level {
    /// How severe the level is: `Trace` is 1, `Error` is 5.
    pub open spec fn spec_severity(self) -> int {
        match self {
            Level::Trace => 1,
            Level::Debug => 2,
            Level::Info => 3,
            Level::Warn => 4,
            Level::Error => 5,
        }
    }

    /// How verbose the level is, as the facade numbers it: `Error` is 1,
    /// `Trace` is 5.
    pub open spec fn spec_verbosity(self) -> int {
        6 - self.spec_severity()
    }

    /// The platform priority that stands for the level.
    pub open spec fn spec_priority(self) -> Priority {
        match self {
            Level::Error => Priority::Error,
            Level::Warn => Priority::Warn,
            Level::Info => Priority::Info,
            Level::Debug => Priority::Debug,
            Level::Trace => Priority::Verbose,
        }
    }

    /// How severe the level is: `Trace` is 1, `Error` is 5.
    pub fn severity(self) -> (rank: u8)
        ensures
            rank == self.spec_severity(),
    {
        match self {
            Level::Trace => 1,
            Level::Debug => 2,
            Level::Info => 3,
            Level::Warn => 4,
            Level::Error => 5,
        }
    }

    /// Maps the level to the platform's priority.
    pub fn priority(self) -> (p: Priority)
        ensures
            p == self.spec_priority(),
    {
        match self {
            Level::Error => Priority::Error,
            Level::Warn => Priority::Warn,
            Level::Info => Priority::Info,
            Level::Debug => Priority::Debug,
            Level::Trace => Priority::Verbose,
        }
    }
}

impl Priority {
    /// The integer by which the platform knows the priority.
    pub open spec fn spec_code(self) -> int {
        match self {
            Priority::Verbose => 2,
            Priority::Debug => 3,
            Priority::Info => 4,
            Priority::Warn => 5,
            Priority::Error => 6,
        }
    }

    /// The integer by which the platform knows the priority.
    pub fn code(self) -> (c: i32)
        ensures
            c == self.spec_code(),
    {
        match self {
            Priority::Verbose => 2,
            Priority::Debug => 3,
            Priority::Info => 4,
            Priority::Warn => 5,
            Priority::Error => 6,
        }
    }
}

impl LevelFilter {
    /// How much the filter lets through, as the facade numbers it: `Off` is
    /// 0, `Trace` is 5.
    pub open spec fn spec_verbosity(self) -> int {
        match self {
            LevelFilter::Off => 0,
            LevelFilter::Error => 1,
            LevelFilter::Warn => 2,
            LevelFilter::Info => 3,
            LevelFilter::Debug => 4,
            LevelFilter::Trace => 5,
        }
    }

    /// Whether the facade passes a message of `level` on under this filter:
    /// it does unless the message is more verbose than the filter.
    pub open spec fn spec_admits(self, level: Level) -> bool {
        level.spec_verbosity() <= self.spec_verbosity()
    }

    /// Tells whether the facade passes a message of `level` on under this
    /// filter.
    pub fn admits(self, level: Level) -> (passes: bool)
        ensures
            passes == self.spec_admits(level),
    {
        let verbosity: u8 = match self {
            LevelFilter::Off => 0,
            LevelFilter::Error => 1,
            LevelFilter::Warn => 2,
            LevelFilter::Info => 3,
            LevelFilter::Debug => 4,
            LevelFilter::Trace => 5,
        };
        6 - level.severity() <= verbosity
    }

    /// The filter that lets every level through.
    pub fn max() -> (filter: LevelFilter)
        ensures
            filter == LevelFilter::Trace,
            forall|level: Level| filter.spec_admits(level),
    {
        most_verbose_filter()
    }
}

/// `log::LogLevelFilter::max`, the facade's most verbose filter, in the
/// library's own type. The facade defines it as `Trace`, which is all that
/// the contract claims.
#[verifier::external_body]
fn most_verbose_filter() -> (filter: LevelFilter)
    ensures
        filter == LevelFilter::Trace,
{
    match log::LogLevelFilter::max() {
        log::LogLevelFilter::Off => LevelFilter::Off,
        log::LogLevelFilter::Error => LevelFilter::Error,
        log::LogLevelFilter::Warn => LevelFilter::Warn,
        log::LogLevelFilter::Info => LevelFilter::Info,
        log::LogLevelFilter::Debug => LevelFilter::Debug,
        log::LogLevelFilter::Trace => LevelFilter::Trace,
    }
}

/// A more severe level never maps to a lower priority, and two levels of
/// different severity never share one: the correspondence keeps the order.
pub proof fn lemma_priority_keeps_order(a: Level, b: Level)
    ensures
        a.spec_severity() < b.spec_severity() <==> a.spec_priority().spec_code()
            < b.spec_priority().spec_code(),
        a.spec_severity() == b.spec_severity() <==> a.spec_priority() == b.spec_priority(),
        a.spec_severity() == b.spec_severity() <==> a == b,
{
}

/// Every priority stands for exactly one level.
pub proof fn lemma_priority_is_onto(p: Priority)
    ensures
        exists|l: Level| l.spec_priority() == p,
        forall|a: Level, b: Level|
            a.spec_priority() == p && b.spec_priority() == p ==> a == b,
{
    let l = match p {
        Priority::Verbose => Level::Trace,
        Priority::Debug => Level::Debug,
        Priority::Info => Level::Info,
        Priority::Warn => Level::Warn,
        Priority::Error => Level::Error,
    };
    assert(l.spec_priority() == p);
}

} // verus!

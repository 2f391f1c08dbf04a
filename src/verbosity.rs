use vstd::prelude::*;

verus! {

/// How much diagnostic output the relay emits, from none to everything.
#[derive(Debug, Copy, Clone, PartialEq, Eq, Structural, PartialOrd, Ord)]
pub enum ArgVerbosity {
    Off,
    Error,
    Warn,
    Info,
    Debug,
    Trace,
}

impl ArgVerbosity {
    /// The numeric level of a verbosity, `Off` being 0 and `Trace` 5.
    pub open spec fn spec_code(self) -> int {
        match self {
            ArgVerbosity::Off => 0,
            ArgVerbosity::Error => 1,
            ArgVerbosity::Warn => 2,
            ArgVerbosity::Info => 3,
            ArgVerbosity::Debug => 4,
            ArgVerbosity::Trace => 5,
        }
    }

    /// The lower-case name of a verbosity.
    pub open spec fn spec_name(self) -> Seq<char> {
        match self {
            ArgVerbosity::Off => "off"@,
            ArgVerbosity::Error => "error"@,
            ArgVerbosity::Warn => "warn"@,
            ArgVerbosity::Info => "info"@,
            ArgVerbosity::Debug => "debug"@,
            ArgVerbosity::Trace => "trace"@,
        }
    }

    /// The numeric level, as a host process passes it across the embedding
    /// boundary.
    pub fn code(self) -> (r: i32)
        ensures
            r == self.spec_code(),
    {
        match self {
            ArgVerbosity::Off => 0,
            ArgVerbosity::Error => 1,
            ArgVerbosity::Warn => 2,
            ArgVerbosity::Info => 3,
            ArgVerbosity::Debug => 4,
            ArgVerbosity::Trace => 5,
        }
    }

    /// The verbosity whose numeric level is `value`; `None` when no level
    /// has that number.
    pub fn try_from_code(value: i32) -> (r: Option<ArgVerbosity>)
        ensures
            r is Some <==> 0 <= value <= 5,
            r matches Some(v) ==> v.spec_code() == value,
    {
        match value {
            0 => Some(ArgVerbosity::Off),
            1 => Some(ArgVerbosity::Error),
            2 => Some(ArgVerbosity::Warn),
            3 => Some(ArgVerbosity::Info),
            4 => Some(ArgVerbosity::Debug),
            5 => Some(ArgVerbosity::Trace),
            _ => None,
        }
    }

    /// The lower-case name, as written on the command line and in filters.
    pub fn name(self) -> (r: &'static str)
        ensures
            r@ == self.spec_name(),
    {
        match self {
            ArgVerbosity::Off => "off",
            ArgVerbosity::Error => "error",
            ArgVerbosity::Warn => "warn",
            ArgVerbosity::Info => "info",
            ArgVerbosity::Debug => "debug",
            ArgVerbosity::Trace => "trace",
        }
    }
}

impl Default for ArgVerbosity {
    /// `Info` is the level used when none is given.
    fn default() -> (r: ArgVerbosity)
        ensures
            r == ArgVerbosity::Info,
    {
        ArgVerbosity::Info
    }
}

} // verus!

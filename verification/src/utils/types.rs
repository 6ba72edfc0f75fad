//! The settings the service runs with.
use crate::text::owned;
use vstd::prelude::*;

verus! {

/// How log lines are stamped with the time.
#[derive(PartialEq, Eq, Structural, Clone, Copy, Debug)]
pub enum Timestamp {
    Off,
    Second,
    Millisecond,
    Microsecond,
    Nanosecond,
}

/// The settings the service runs with.
#[derive(Clone, Debug)]
pub struct Settings {
    pub verbosity: usize,
    pub quiet: bool,
    pub timestamp: Timestamp,
    pub module_name: Option<String>,
    pub template_dir: Option<String>,
    pub database_url: String,
    pub port: u16,
}

impl Settings {
    /// The settings used when nothing is given: silent logging without
    /// timestamps, the database in `devices.db`, port 8000.
    pub open spec fn is_default(&self) -> bool {
        &&& self.verbosity == 0
        &&& !self.quiet
        &&& self.timestamp == Timestamp::Off
        &&& self.module_name is None
        &&& self.template_dir is None
        &&& self.database_url@ == "devices.db"@
        &&& self.port == 8000
    }

    pub fn new() -> (s: Self)
        ensures
            s.is_default(),
    {
        Self { ..Default::default() }
    }
}

impl Default for Settings {
    fn default() -> (s: Settings)
        ensures
            s.is_default(),
    {
        Settings {
            verbosity: 0,
            quiet: false,
            timestamp: Timestamp::Off,
            module_name: None,
            template_dir: None,
            database_url: owned("devices.db"),
            port: 8000,
        }
    }
}

} // verus!

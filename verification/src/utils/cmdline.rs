//! Turning what the command line held into the settings of the service.
use crate::models::opt_text;
use crate::text::{owned, parse_u16, parse_u16_spec, text_eq};
use crate::utils::types::{Settings, Timestamp};
use vstd::prelude::*;
use vstd::string::StringExecFns;

verus! {

/// What the argument parser matched on the command line: how often `-v`
/// was given, whether `-q` was, and the texts given for `--timestamp`,
/// `--port` and `--database` (the last two have defaults, so the parser
/// always fills them in).
#[derive(Clone, Debug)]
pub struct CmdlineArgs {
    pub verbosity: u64,
    pub quiet: bool,
    pub timestamp: Option<String>,
    pub port: Option<String>,
    pub database: Option<String>,
}

/// Why the command line was refused.
#[derive(Clone, Debug, PartialEq, Eq)]
pub enum CmdlineError {
    /// `-v` given more than four times.
    TooManyVerbosityFlags,
    /// A `--timestamp` other than `none`, `sec`, `ms` or `ns`.
    InvalidTimestamp,
    /// No `--port` at all.
    MissingPort,
    /// A `--port` that is not a 16-bit number; the text given.
    InvalidPort(String),
    /// No `--database` at all.
    MissingDatabase,
}

/// The most `-v` flags the service accepts.
pub const MAX_VERBOSITY: u64 = 4;

/// The timestamp style that a `--timestamp` value names; `ms` selects
/// microseconds. No value means no timestamps.
pub open spec fn timestamp_choice(t: Option<Seq<char>>) -> Option<Timestamp> {
    match t {
        None => Some(Timestamp::Off),
        Some(v) => if v == "ns"@ {
            Some(Timestamp::Nanosecond)
        } else if v == "ms"@ {
            Some(Timestamp::Microsecond)
        } else if v == "sec"@ {
            Some(Timestamp::Second)
        } else if v == "none"@ {
            Some(Timestamp::Off)
        } else {
            None
        },
    }
}

/// The first rule that the command line breaks, checked in this order:
/// verbosity, timestamp, port, database.
pub open spec fn cmdline_refusal(args: CmdlineArgs) -> Option<CmdlineError> {
    if args.verbosity > MAX_VERBOSITY {
        Some(CmdlineError::TooManyVerbosityFlags)
    } else if timestamp_choice(opt_text(args.timestamp)) is None {
        Some(CmdlineError::InvalidTimestamp)
    } else if args.port is None {
        Some(CmdlineError::MissingPort)
    } else if parse_u16_spec(args.port->0@) is None {
        Some(CmdlineError::InvalidPort(args.port->0))
    } else if args.database is None {
        Some(CmdlineError::MissingDatabase)
    } else {
        None
    }
}

/// The command line is refused only for a rule it breaks: more than four
/// `-v`, a timestamp style other than `none`, `sec`, `ms` or `ns`, a port that
/// is missing or not a 16-bit number, or no database path at all. A database
/// path is never refused, whatever characters it holds.
pub proof fn lemma_cmdline_refusals(args: CmdlineArgs)
    ensures
        cmdline_refusal(args) == Some(CmdlineError::TooManyVerbosityFlags) <==> args.verbosity > 4,
        cmdline_refusal(args) == Some(CmdlineError::MissingDatabase) ==> args.database is None,
        cmdline_refusal(args) is None <==> {
            &&& args.verbosity <= 4
            &&& (args.timestamp is None || args.timestamp->0@ == "none"@ || args.timestamp->0@
                == "sec"@ || args.timestamp->0@ == "ms"@ || args.timestamp->0@ == "ns"@)
            &&& args.port is Some
            &&& parse_u16_spec(args.port->0@) is Some
            &&& args.database is Some
        },
{
}

impl CmdlineError {
    /// The text shown to the user before the program exits.
    pub open spec fn message_spec(&self) -> Seq<char> {
        match self {
            CmdlineError::TooManyVerbosityFlags => "invalid number of 'v' flags"@,
            CmdlineError::InvalidTimestamp => "invalid value for 'timestamp'"@,
            CmdlineError::MissingPort => "The argument 'port' wasn't found"@,
            CmdlineError::InvalidPort(v) => "The argument '"@ + v@ + "' isn't a valid value"@,
            CmdlineError::MissingDatabase => "invalid value for 'database'"@,
        }
    }

    pub fn message(&self) -> (m: String)
        ensures
            m@ == self.message_spec(),
    {
        match self {
            CmdlineError::TooManyVerbosityFlags => owned("invalid number of 'v' flags"),
            CmdlineError::InvalidTimestamp => owned("invalid value for 'timestamp'"),
            CmdlineError::MissingPort => owned("The argument 'port' wasn't found"),
            CmdlineError::InvalidPort(v) => {
                let m = owned("The argument '");
                let m = m.concat(v.as_str());
                m.concat("' isn't a valid value")
            },
            CmdlineError::MissingDatabase => owned("invalid value for 'database'"),
        }
    }
}

fn choose_timestamp(t: &Option<String>) -> (r: Option<Timestamp>)
    ensures
        r == timestamp_choice(opt_text(*t)),
{
    match t {
        None => Some(Timestamp::Off),
        Some(v) => {
            let v = v.as_str();
            if text_eq(v, "ns") {
                Some(Timestamp::Nanosecond)
            } else if text_eq(v, "ms") {
                Some(Timestamp::Microsecond)
            } else if text_eq(v, "sec") {
                Some(Timestamp::Second)
            } else if text_eq(v, "none") {
                Some(Timestamp::Off)
            } else {
                None
            }
        },
    }
}

/// Builds the settings from what the command line held. At most four `-v`
/// are accepted; `--timestamp` must be `none`, `sec`, `ms` or `ns`; the port
/// must be a 16-bit number; the database path is taken as given. Everything
/// else keeps its default.
pub fn parse_cmdline(args: &CmdlineArgs) -> (r: Result<Settings, CmdlineError>)
    ensures
        match cmdline_refusal(*args) {
            Some(e) => r == Err::<Settings, CmdlineError>(e),
            None => r matches Ok(s) && {
                &&& s.verbosity == args.verbosity
                &&& s.quiet == args.quiet
                &&& s.timestamp == timestamp_choice(opt_text(args.timestamp))->0
                &&& s.port == parse_u16_spec(args.port->0@)->0
                &&& s.database_url@ == args.database->0@
                &&& s.module_name is None
                &&& s.template_dir is None
            },
        },
        r matches Err(e) && e == CmdlineError::MissingDatabase ==> args.database is None,
        ({
            &&& args.verbosity <= 4
            &&& (args.timestamp is None || args.timestamp->0@ == "none"@ || args.timestamp->0@
                == "sec"@ || args.timestamp->0@ == "ms"@ || args.timestamp->0@ == "ns"@)
            &&& args.port is Some
            &&& parse_u16_spec(args.port->0@) is Some
            &&& args.database is Some
        }) ==> (r matches Ok(s) && s.database_url@ == args.database->0@ && s.port
            == parse_u16_spec(args.port->0@)->0 && s.verbosity == args.verbosity && s.quiet
            == args.quiet),
{
    if args.verbosity > MAX_VERBOSITY {
        return Err(CmdlineError::TooManyVerbosityFlags);
    }
    let verbosity = args.verbosity as usize;
    let timestamp = match choose_timestamp(&args.timestamp) {
        Some(t) => t,
        None => return Err(CmdlineError::InvalidTimestamp),
    };
    let port = match &args.port {
        None => return Err(CmdlineError::MissingPort),
        Some(p) => match parse_u16(p.as_str()) {
            Some(n) => n,
            None => return Err(CmdlineError::InvalidPort(p.clone())),
        },
    };
    let database = match &args.database {
        None => return Err(CmdlineError::MissingDatabase),
        Some(d) => owned(d.as_str()),
    };
    Ok(Settings {
        verbosity,
        quiet: args.quiet,
        timestamp,
        port,
        database_url: database,
        ..Default::default()
    })
}

} // verus!

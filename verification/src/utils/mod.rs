//! Settings of the service and how the command line sets them.
pub mod cmdline;
pub mod types;

//! The start of a light client of a data availability chain: how the log is set up, how the
//! database is opened, on which address the client listens, which steps the start takes in which
//! order, when it is refused, and which tasks run once it is through.
//!
//! Everything here decides; nothing here reads a file, opens a socket or waits. The program around
//! the library begins a start with [`startup::run`], does what each [`startup::Action`] says and
//! reports with [`startup::Startup::next`].

pub mod address;
pub mod config;
pub mod database;
pub mod launch;
pub mod laws;
pub mod logging;
pub mod params;
pub mod startup;
pub mod turns;

pub use database::init_db;
pub use logging::parse_log_level;
pub use startup::run;

//! A plugin system for a command-line database client: plugins that own
//! non-SQL commands are discovered on disk or built in, registered once per
//! process, and the commands the user types are dispatched to their owners.
//!
//! Loading libraries, reading directories, terminals and the network are
//! left to the caller; this crate holds the rules, proved correct.

pub mod ai;
pub mod discovery;
pub mod dispatch;
pub mod example;
pub mod gate;
pub mod loader;
pub mod plugin;
pub mod prompt;
pub mod query;
pub mod registry;
pub mod text;

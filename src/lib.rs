//! Core logic of a playtime tracker and a file watcher: the session table and
//! its start / monitor decisions, the session store's JSON handling, process
//! name matching, the debounce coordinator and the line-diff engine.
pub mod table;
pub mod diff;
pub mod error;
pub mod watch;
pub mod playtime;
pub mod flow;
pub mod probe;
pub mod store;

//! Runs user-configured scripts when a network connection becomes active or
//! inactive, as announced on the system message bus.
//!
//! The library holds the watcher's decisions: which bus events matter, the
//! table of active connections, which script a transition runs and with what
//! environment, what a finished script reports, and the order of teardown.
//! The program around it talks to the bus and starts the processes.
pub mod config;
pub mod dispatch;
pub mod laws;
pub mod namespace;
pub mod supervisor;
pub mod teardown;
pub mod tracker;
pub mod watcher;

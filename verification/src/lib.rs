//! Locates no ports and spawns no notifiers itself: this library is the logic
//! of a port-killer tool. Its core is the termination engine, a bounded
//! graceful-then-forced escalation state machine around the OS signal
//! primitive; beside it stands the notification planner that diffs two
//! process snapshots and renders the texts a notifier shows.

pub mod decimal;
pub mod kill;
pub mod notify;

//! Verified core of a pair of small tray utilities: a recycle-bin manager and
//! a system monitor. Both share one shape — a background poller samples an OS
//! metric on a fixed interval, a channel carries each sample to the UI event
//! loop, and the loop dispatches samples and tray/menu events to a small fixed
//! set of actions. This crate holds that core: the event vocabulary, the
//! dispatcher and its state, the poller's emission schedule, the tooltip
//! formatting, the interpretation of the shell query results, and the
//! autostart registry check. The OS bindings themselves (tray construction,
//! shell calls, registry access, the event loop) stay outside, handing plain
//! values in and out.

pub mod autostart;
pub mod container;
pub mod events;
pub mod poller;
pub mod sysmon;
pub mod text;
pub mod tray;

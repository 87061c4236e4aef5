//! Native-event translation and delivery core of a windowing layer that is
//! embedded in a host application.
//!
//! The platform layers observe what the operating system reports (button and
//! key codes, modifier masks, window messages), turn it into the small
//! vocabulary of [`events::Event`], and keep it for the one consumer that polls
//! for it. Everything here is plain data and plain decisions: the calls into
//! the operating system are made by the caller, who hands in what it read and
//! carries out what comes back.

pub mod attributes;
pub mod events;
pub mod native_monitor;
pub mod platform;
pub mod queue;
pub mod registry;
pub mod text;

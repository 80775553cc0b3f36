//! Live-media broadcast engine: one camera and one microphone, each shared by
//! every authenticated viewer, opened for the first viewer and released after
//! the last.
//!
//! - [`auth`]: the credential check that the first message of a connection must pass.
//! - [`protocol`]: the control commands, read once where a message enters.
//! - [`capture`]: the lifecycle of one device, its viewer count, and what the
//!   read loop does after each read.
//! - [`registry`]: the set of viewers, kept in step with the capture controller.
//! - [`queue`] and [`hub`]: the bounded outbound queue of each session, and the
//!   fan-out of units to the sessions that may receive them.
//! - [`engine`]: all of these behind one set of steps.
//! - [`model`]: the engine as a plain value, with the invariants that hold of
//!   it after any run of events.
//! - [`audio`], [`settings`], [`inventory`], [`wav`]: chunking of the sample
//!   stream, the fixed parameters, the camera inventory, the WAV header.
//!
//! The library does no I/O. A step that needs the device says so in its
//! result; the caller opens, reads or releases the device and reports back.

pub mod audio;
pub mod auth;
pub mod capture;
pub mod engine;
pub mod hub;
pub mod inventory;
pub mod media;
pub mod model;
pub mod protocol;
pub mod queue;
pub mod registry;
pub mod settings;
pub mod text;
pub mod wav;

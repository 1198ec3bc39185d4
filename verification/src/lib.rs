//! A boundary-scan (JTAG-style) protocol engine for a secure hardware
//! device's test access port, together with the workflow that provisions
//! its one-time-programmable fuse array.
//!
//! The crate is organised leaf-first:
//! - [`codec`] models variable-width, variable-endianness bit serialization;
//! - [`tap`] is the sixteen-state test-access-port automaton;
//! - [`phy`] is the physical-link capability the engine drives;
//! - [`leg`] describes one queued scan operation and its captured result;
//! - [`mach`] executes queued legs in submission order and delivers results
//!   through a first-in-first-out channel;
//! - [`efuse`] reads the fuse shadow registers and guards the irreversible
//!   key burn behind an explicit validity check;
//! - [`sim`] is a software model of the device end of the port, used to
//!   exercise the whole stack without hardware;
//! - [`console`], [`text`], [`xadc`], [`diag`] and [`bounce`] hold the
//!   board-diagnostic pieces built around the engine.

pub mod bounce;
pub mod codec;
pub mod console;
pub mod diag;
pub mod efuse;
pub mod leg;
pub mod mach;
pub mod phy;
pub mod sim;
pub mod tap;
pub mod text;
pub mod xadc;

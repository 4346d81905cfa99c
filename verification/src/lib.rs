//! Core of a programmable input-remapping daemon.
//!
//! Scripts register per-device, per-event-code callbacks; a reactor
//! multiplexes the bound devices and routes each incoming event to its
//! callback; and a virtual output engine turns timestamped commands into
//! drift-free synthetic device events at a fixed tick rate.
//!
//! - [`time_util`]: monotonic microsecond timestamps and the conversions
//!   to and from the OS clock's and the device protocol's forms.
//! - [`interpolator`]: the per-axis integrator that converts velocity and
//!   elapsed time into integer displacements with a carried remainder.
//! - [`bindings`]: the table mapping (device, event code) to a callback
//!   token.
//! - [`reactor`]: the dispatch snapshot of the bound devices and the
//!   per-event routing decision.
//! - [`virtual_input`]: the output worker's command set and its per-tick
//!   state machine.
//! - [`evdev_util`], [`friendly_name`]: event-name rules and the
//!   hash-to-wordlist device naming.
//!
//! Everything here is pure logic over plain values. The surrounding
//! process (device I/O, the scripting host, threads and channels) lives
//! outside the library and talks to it through these types.

pub mod bindings;
pub mod evdev_util;
pub mod friendly_name;
pub mod interpolator;
pub mod reactor;
pub mod time_util;
pub mod virtual_input;

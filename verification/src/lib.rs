//! Fan control for laptops whose cooling fan hangs off an embedded
//! controller (EC).
//!
//! The crate holds the decisions of the daemon and performs no I/O itself:
//!
//! - [`ec_io`]: the controller's host protocol over its two I/O ports, as a
//!   transfer that asks for one port operation at a time, and the conversion
//!   between the raw duty register and percent;
//! - [`profile`]: the temperature-to-duty curves and their selection;
//! - [`fan`]: the decoding of the register file, the damped duty policy, and
//!   what the control loop decides in each round;
//! - [`error`]: what stops the daemon.
//!
//! A driver around it owns the ports, the register file and the clock: it
//! performs what a transfer asks for and hands back what it read.

pub mod ec_io;
pub mod error;
pub mod fan;
pub mod profile;

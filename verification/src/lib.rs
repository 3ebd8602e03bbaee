//! A verified model of a serial-line driver layer: a single-slot
//! transmit/receive arbiter that multiplexes one UART between isolated client
//! tasks, and a delimiter-seeking receiver that frames fixed-length raw
//! receives into "receive until terminator" completions.
//!
//! The underlying transport and the privilege substrate are external
//! collaborators: every interaction with them is modelled as a plain value.
//! Each operation returns the transport request it would issue or the
//! callback event it would schedule, so the whole decision logic is verified
//! while the surrounding event loop stays outside the library.

pub mod arbiter;
pub mod terminator;
pub mod transport;

//! Plain values exchanged with the transport layer and with client tasks.
//!
//! The raw UART and the callback scheduler live outside the library, so the
//! driver never calls them directly: a request to the transport and a
//! callback to a task are both returned to the caller as values, and the
//! surrounding event loop performs them.

use vstd::prelude::*;

verus! {

/// Status code returned synchronously to a client task.
#[derive(Clone, Copy, PartialEq, Eq, Structural, Debug)]
pub enum ReturnCode {
    /// The request was accepted.
    Success,
    /// Generic failure; also the result of touching a torn-down task record.
    Fail,
    /// An argument was invalid: a length exceeded the shared region, or a
    /// receive completed for a task with no receive region installed.
    EInval,
    /// A required resource is missing: no shared region installed, or the
    /// single in-flight slot is already occupied.
    ENoMem,
    /// The selector is not recognized by this driver.
    ENoSupport,
}

/// Completion code delivered by the transport with each completion event.
#[derive(Clone, Copy, PartialEq, Eq, Structural, Debug)]
pub enum UartError {
    /// The operation ran to completion.
    CommandComplete,
    /// The operation was aborted; the reported length still counts.
    Aborted,
    /// Any other transport error; clients only see a generic failure.
    Other,
}

/// Line settings handed through to the transport's `configure` call.
/// The driver never interprets them.
#[derive(Clone, Copy, PartialEq, Eq, Structural, Debug)]
pub struct UartParameters {
    pub baud_rate: u32,
    pub hw_flow_control: bool,
}

/// A request the driver asks the surrounding event loop to issue to the
/// underlying transport. Buffers travel inside the request: a buffer held in
/// a request is exactly a buffer lent to the transport, and it comes back
/// with the matching completion event.
pub enum TransportRequest {
    /// Apply line settings.
    Configure { parameters: UartParameters },
    /// Send the first `length` bytes of `buffer`.
    Transmit { buffer: Vec<u8>, length: usize },
    /// Receive exactly `length` bytes into `buffer`.
    Receive { buffer: Vec<u8>, length: usize },
    /// Receive into `buffer` until `terminator` arrives, giving up after a
    /// transport-defined `scan_budget` of effort.
    ReceiveUntilTerminator { buffer: Vec<u8>, terminator: u8, scan_budget: usize },
    /// Cancel an outstanding receive.
    AbortReceive,
}

} // verus!

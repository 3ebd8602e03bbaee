//! Delimiter-seeking receiver.
//!
//! Wraps a raw fixed-length UART receive and turns it into a "receive until
//! terminator byte" primitive: it issues one raw receive for a fixed scan
//! window and, when that receive completes, scans the window for the
//! terminator and re-synthesizes the completion with the terminator's
//! position. When the terminator is absent from the window, the scan stalls:
//! no further raw receive is issued and no completion is forwarded. That is a
//! documented limitation of the design, preserved here deliberately.

use vstd::prelude::*;

use crate::transport::{TransportRequest, UartError, UartParameters};

verus! {

/// Number of bytes requested from the raw transport and examined for the
/// terminator on each delimited receive.
pub const SCAN_WINDOW: usize = 10;

/// Internal state of the receiver: either passing raw completions through
/// unchanged, or scanning each completed window for a terminator byte.
#[derive(Clone, Copy, PartialEq, Eq, Structural, Debug)]
pub enum ScanState {
    /// Plain pass-through; completions are forwarded unchanged.
    Normal,
    /// A delimited receive is outstanding; each completed window is scanned
    /// for `terminator`.
    TerminatorReceive { terminator: u8 },
}

/// A completion event forwarded to the receiver's client.
pub struct ReceiveCompletion {
    /// The buffer that was lent to the transport, returned to the client.
    pub buffer: Vec<u8>,
    /// The reported received length; for a delimited receive this counts up
    /// to and including the terminator.
    pub length: usize,
    /// The completion code of the underlying raw receive, passed through.
    pub error: UartError,
}

/// The position of the first occurrence of `terminator` in `s` at an index
/// in `[i, window)`, scanning forward from `i`.
pub open spec fn scan_from(s: Seq<u8>, terminator: u8, i: int, window: int) -> Option<int>
    recommends
        0 <= i,
        window <= s.len(),
    decreases window - i,
{
    if i >= window {
        None
    } else if s[i] == terminator {
        Some(i)
    } else {
        scan_from(s, terminator, i + 1, window)
    }
}

/// The position of the first occurrence of `terminator` in the first
/// `window` bytes of `s`, if any.
pub open spec fn scan_window(s: Seq<u8>, terminator: u8, window: int) -> Option<int> {
    scan_from(s, terminator, 0, window)
}

proof fn lemma_scan_from_correct(s: Seq<u8>, terminator: u8, i: int, window: int)
    requires
        0 <= i,
        window <= s.len(),
    ensures
        (match scan_from(s, terminator, i, window) {
            Some(k) => i <= k < window && s[k] == terminator && (forall|j: int|
                i <= j < k ==> s[j] != terminator),
            None => forall|j: int| i <= j < window ==> s[j] != terminator,
        }),
    decreases window - i,
{
    if i < window && s[i] != terminator {
        lemma_scan_from_correct(s, terminator, i + 1, window);
    }
}

/// The delimiter scan finds exactly the first terminator position: when the
/// scan reports `Some(k)`, the byte at `k` is the terminator and no earlier
/// byte in the window is; when it reports `None`, no byte in the window is
/// the terminator.
pub proof fn lemma_scan_window_correct(s: Seq<u8>, terminator: u8, window: int)
    requires
        0 <= window <= s.len(),
    ensures
        (match scan_window(s, terminator, window) {
            Some(k) => 0 <= k < window && s[k] == terminator && (forall|j: int|
                0 <= j < k ==> s[j] != terminator),
            None => forall|j: int| 0 <= j < window ==> s[j] != terminator,
        }),
{
    lemma_scan_from_correct(s, terminator, 0, window);
}

/// A UART that can receive until a terminator byte instead of a fixed
/// length. The returned request is what the implementation asks the raw
/// transport to do in order to start the delimited receive.
pub trait UartReceiveUntilTerminator {
    fn receive_until_terminator(&mut self, rx_buffer: Vec<u8>, terminator: u8) -> (req:
        TransportRequest)
        requires
            rx_buffer@.len() >= SCAN_WINDOW,
    ;
}

/// The delimiter-seeking receiver. It stands between a raw UART and a
/// client: requests from the client are forwarded down unchanged, raw
/// completions from the transport are either forwarded up unchanged or
/// framed by the terminator scan, depending on `state`.
pub struct UartTerminatorReceiver {
    pub state: ScanState,
}

impl UartTerminatorReceiver {
    pub fn new() -> (r: UartTerminatorReceiver)
        ensures
            r.state == ScanState::Normal,
    {
        UartTerminatorReceiver { state: ScanState::Normal }
    }

    /// Pass-through: forward line settings to the raw transport unchanged.
    pub fn configure(&self, parameters: UartParameters) -> (req: TransportRequest)
        ensures
            req == (TransportRequest::Configure { parameters }),
    {
        TransportRequest::Configure { parameters }
    }

    /// Pass-through: forward a transmit to the raw transport unchanged.
    pub fn transmit(&self, tx_data: Vec<u8>, tx_len: usize) -> (req: TransportRequest)
        ensures
            req == (TransportRequest::Transmit { buffer: tx_data, length: tx_len }),
    {
        TransportRequest::Transmit { buffer: tx_data, length: tx_len }
    }

    /// Pass-through: forward a fixed-length receive to the raw transport
    /// unchanged.
    pub fn receive(&self, rx_buffer: Vec<u8>, rx_len: usize) -> (req: TransportRequest)
        ensures
            req == (TransportRequest::Receive { buffer: rx_buffer, length: rx_len }),
    {
        TransportRequest::Receive { buffer: rx_buffer, length: rx_len }
    }

    /// Pass-through: forward an abort to the raw transport unchanged.
    pub fn abort_receive(&self) -> (req: TransportRequest)
        ensures
            req == TransportRequest::AbortReceive,
    {
        TransportRequest::AbortReceive
    }

    /// Pass-through: a transmit completion concerns no receiver state, so it
    /// is forwarded to the client unchanged.
    pub fn transmit_complete(&self, buffer: Vec<u8>, error: UartError) -> (r: (Vec<u8>, UartError))
        ensures
            r.0@ == buffer@,
            r.1 == error,
    {
        (buffer, error)
    }

    /// Handle a raw receive completion from the transport.
    ///
    /// In `Normal` state the completion is a plain pass-through, forwarded to
    /// the client unchanged. In `TerminatorReceive` state the first
    /// `SCAN_WINDOW` bytes of the returned buffer are scanned in order: at
    /// the first terminator position `k` the receiver goes back to `Normal`
    /// and forwards a completion of length `k + 1` (terminator included) with
    /// the raw completion code; when the window holds no terminator,
    /// the receiver stays in `TerminatorReceive` and forwards nothing — the
    /// scan stalls, as documented for this design.
    pub fn receive_complete(&mut self, buffer: Vec<u8>, rx_len: usize, error: UartError) -> (r:
        Option<ReceiveCompletion>)
        requires
            old(self).state matches ScanState::TerminatorReceive { .. } ==> buffer@.len()
                >= SCAN_WINDOW,
        ensures
            (match old(self).state {
                ScanState::Normal => {
                    &&& final(self).state == ScanState::Normal
                    &&& (r matches Some(c) && c.buffer@ == buffer@ && c.length == rx_len
                        && c.error == error)
                },
                ScanState::TerminatorReceive { terminator } => {
                    match scan_window(buffer@, terminator, SCAN_WINDOW as int) {
                        Some(k) => {
                            &&& final(self).state == ScanState::Normal
                            &&& (r matches Some(c) && c.buffer@ == buffer@ && c.length == k + 1
                                && c.error == error)
                        },
                        None => {
                            &&& final(self).state == old(self).state
                            &&& r is None
                        },
                    }
                },
            }),
    {
        match self.state {
            ScanState::Normal => Some(ReceiveCompletion { buffer, length: rx_len, error }),
            ScanState::TerminatorReceive { terminator } => {
                let mut i: usize = 0;
                while i < SCAN_WINDOW
                    invariant
                        i <= SCAN_WINDOW,
                        buffer@.len() >= SCAN_WINDOW,
                        scan_window(buffer@, terminator, SCAN_WINDOW as int) == scan_from(
                            buffer@,
                            terminator,
                            i as int,
                            SCAN_WINDOW as int,
                        ),
                        self == old(self),
                        self.state == (ScanState::TerminatorReceive { terminator }),
                    decreases SCAN_WINDOW - i,
                {
                    if buffer[i] == terminator {
                        proof {
                            assert(scan_from(buffer@, terminator, i as int, SCAN_WINDOW as int)
                                == Some(i as int));
                        }
                        self.state = ScanState::Normal;
                        return Some(
                            ReceiveCompletion { buffer, length: i + 1, error },
                        );
                    }
                    i = i + 1;
                }
                None
            },
        }
    }
}

impl UartReceiveUntilTerminator for UartTerminatorReceiver {
    /// Start a delimited receive: remember the terminator and ask the raw
    /// transport for one full scan window.
    fn receive_until_terminator(&mut self, rx_buffer: Vec<u8>, terminator: u8) -> (req:
        TransportRequest)
        ensures
            final(self).state == (ScanState::TerminatorReceive { terminator }),
            req == (TransportRequest::Receive { buffer: rx_buffer, length: SCAN_WINDOW }),
    {
        self.state = ScanState::TerminatorReceive { terminator };
        TransportRequest::Receive { buffer: rx_buffer, length: SCAN_WINDOW }
    }
}

} // verus!

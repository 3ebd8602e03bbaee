//! Line arbiter: serializes many client tasks onto one serial line.
//!
//! The arbiter owns one privileged transmit buffer and one privileged
//! receive buffer, tracks at most one in-flight operation per direction, and
//! copies bytes between task-shared regions and the privileged buffers at
//! request and completion time. A privileged buffer held in its field is
//! idle; a buffer absent from its field is lent to the transport inside a
//! previously returned request, and the matching in-flight marker records
//! which task's request it carries.

use vstd::prelude::*;

use crate::transport::{ReturnCode, TransportRequest, UartError, UartParameters};

verus! {

/// Identifying number under which client tasks address this driver.
pub const DRIVER_NUM: usize = 0xffff0001;

/// The terminator byte a delimited receive started by this driver waits for:
/// the newline character.
pub const RECEIVE_TERMINATOR: u8 = 10;

/// The scan budget handed to the transport with each delimited receive.
pub const RECEIVE_SCAN_BUDGET: usize = 100;

/// Per-task record: the callbacks and shared memory regions a client task
/// has installed. The records are owned by the isolation substrate; the
/// arbiter only reads and writes their fields.
pub struct App {
    /// Callback handle scheduled on the owning task's transmit completions.
    pub tx_callback: Option<u32>,
    /// Task-owned region supplying transmit bytes, readable by the driver.
    pub tx_buffer: Option<Vec<u8>>,
    /// Callback handle scheduled on the owning task's receive completions.
    pub rx_callback: Option<u32>,
    /// Task-owned region receiving bytes, writable by the driver.
    pub rx_buffer: Option<Vec<u8>>,
}

impl App {
    /// A fresh task record: nothing installed.
    pub open spec fn empty() -> App {
        App { tx_callback: None, tx_buffer: None, rx_callback: None, rx_buffer: None }
    }
}

impl Default for App {
    /// A fresh task record: nothing installed.
    fn default() -> (r: App)
        ensures
            r == App::empty(),
    {
        App { tx_callback: None, tx_buffer: None, rx_callback: None, rx_buffer: None }
    }
}

/// A callback event the arbiter asks the surrounding event loop to schedule
/// on a client task.
#[derive(Clone, Copy, PartialEq, Eq, Structural, Debug)]
pub struct CallbackEvent {
    /// The task the callback belongs to.
    pub task: usize,
    /// The callback handle that task registered.
    pub handle: u32,
    /// The status delivered as the callback's first argument.
    pub status: ReturnCode,
    /// The callback's second argument (a received length, or zero).
    pub arg2: usize,
    /// The callback's third argument (always zero in this driver).
    pub arg3: usize,
}

/// `dst` with its first `n` bytes replaced by the first `n` bytes of `src`;
/// bytes of `dst` past `n` keep their old values, and the length of `dst` is
/// kept.
pub open spec fn overwrite_prefix(dst: Seq<u8>, src: Seq<u8>, n: int) -> Seq<u8>
    recommends
        n <= src.len(),
{
    Seq::new(dst.len(), |i: int| if i < n { src[i] } else { dst[i] })
}

/// The line arbiter and driver.
pub struct AtCommands {
    /// One record per registered client task, indexed by task identity.
    pub apps: Vec<App>,
    /// The task whose transmit currently occupies the line, if any.
    pub tx_in_progress: Option<usize>,
    /// Privileged transmit buffer: `Some` while held by the driver (idle),
    /// `None` while lent to the transport.
    pub tx_buffer: Option<Vec<u8>>,
    /// The task whose receive currently occupies the line, if any.
    pub rx_in_progress: Option<usize>,
    /// Privileged receive buffer: `Some` while held by the driver (idle),
    /// `None` while lent to the transport.
    pub rx_buffer: Option<Vec<u8>>,
}

impl AtCommands {
    /// An in-flight marker is occupied exactly while the corresponding
    /// privileged buffer is lent to the transport. Established by `new` and
    /// preserved by every operation.
    pub open spec fn consistent(self) -> bool {
        &&& (self.tx_in_progress is Some <==> self.tx_buffer is None)
        &&& (self.rx_in_progress is Some <==> self.rx_buffer is None)
    }

    /// A new arbiter holding both privileged buffers, with `num_apps` fresh
    /// task records and nothing in flight.
    pub fn new(tx_buffer: Vec<u8>, rx_buffer: Vec<u8>, num_apps: usize) -> (r: AtCommands)
        ensures
            r.apps@.len() == num_apps,
            forall|i: int| 0 <= i < num_apps ==> r.apps@[i] == App::empty(),
            r.tx_in_progress is None,
            r.tx_buffer == Some(tx_buffer),
            r.rx_in_progress is None,
            r.rx_buffer == Some(rx_buffer),
            r.consistent(),
    {
        let mut apps: Vec<App> = Vec::new();
        let mut i: usize = 0;
        while i < num_apps
            invariant
                i <= num_apps,
                apps@.len() == i,
                forall|j: int| 0 <= j < i ==> apps@[j] == App::empty(),
            decreases num_apps - i,
        {
            apps.push(App::default());
            i = i + 1;
        }
        AtCommands {
            apps,
            tx_in_progress: None,
            tx_buffer: Some(tx_buffer),
            rx_in_progress: None,
            rx_buffer: Some(rx_buffer),
        }
    }

    /// Forward line settings to the transport. The transport's synchronous
    /// status is observed by the event loop, not by the arbiter.
    pub fn initialize(&self, parameters: UartParameters) -> (req: TransportRequest)
        ensures
            req == (TransportRequest::Configure { parameters }),
    {
        TransportRequest::Configure { parameters }
    }

    /// Both privileged buffers and both in-flight markers are unchanged.
    pub open spec fn same_line_state(pre: AtCommands, post: AtCommands) -> bool {
        &&& post.tx_in_progress == pre.tx_in_progress
        &&& post.tx_buffer == pre.tx_buffer
        &&& post.rx_in_progress == pre.rx_in_progress
        &&& post.rx_buffer == pre.rx_buffer
    }

    /// Install or replace a shared memory region in the calling task's
    /// record: selector 1 names the transmit region, selector 2 the receive
    /// region. Passing `None` removes the region. Recognized selectors
    /// always succeed for a live task; an unrecognized selector fails with
    /// `ENoSupport`, and a torn-down task record fails with `Fail`. No other
    /// state is touched.
    pub fn allow(&mut self, appid: usize, allow_num: usize, slice: Option<Vec<u8>>) -> (r:
        ReturnCode)
        ensures
            AtCommands::same_line_state(*old(self), *final(self)),
            old(self).consistent() ==> final(self).consistent(),
            allow_num != 1 && allow_num != 2 ==> r == ReturnCode::ENoSupport && final(self).apps@
                == old(self).apps@,
            (allow_num == 1 || allow_num == 2) && appid >= old(self).apps@.len() ==> r
                == ReturnCode::Fail && final(self).apps@ == old(self).apps@,
            allow_num == 1 && appid < old(self).apps@.len() ==> r == ReturnCode::Success && final(self).apps@ == old(self).apps@.update(
                appid as int,
                (App { tx_buffer: slice, ..old(self).apps@[appid as int] }),
            ),
            allow_num == 2 && appid < old(self).apps@.len() ==> r == ReturnCode::Success && final(self).apps@ == old(self).apps@.update(
                appid as int,
                (App { rx_buffer: slice, ..old(self).apps@[appid as int] }),
            ),
    {
        if allow_num == 1 {
            if appid >= self.apps.len() {
                return ReturnCode::Fail;
            }
            self.apps[appid].tx_buffer = slice;
            ReturnCode::Success
        } else if allow_num == 2 {
            if appid >= self.apps.len() {
                return ReturnCode::Fail;
            }
            self.apps[appid].rx_buffer = slice;
            ReturnCode::Success
        } else {
            ReturnCode::ENoSupport
        }
    }

    /// Install or replace a completion callback in the calling task's
    /// record: selector 1 names the transmit-complete callback, selector 2
    /// the receive-complete callback. Passing `None` removes the callback.
    /// Recognized selectors always succeed for a live task; an unrecognized
    /// selector fails with `ENoSupport`, and a torn-down task record fails
    /// with `Fail`. No other state is touched.
    pub fn subscribe(&mut self, subscribe_num: usize, callback: Option<u32>, app_id: usize) -> (r:
        ReturnCode)
        ensures
            AtCommands::same_line_state(*old(self), *final(self)),
            old(self).consistent() ==> final(self).consistent(),
            subscribe_num != 1 && subscribe_num != 2 ==> r == ReturnCode::ENoSupport && final(self).apps@ == old(self).apps@,
            (subscribe_num == 1 || subscribe_num == 2) && app_id >= old(self).apps@.len() ==> r
                == ReturnCode::Fail && final(self).apps@ == old(self).apps@,
            subscribe_num == 1 && app_id < old(self).apps@.len() ==> r == ReturnCode::Success
                && final(self).apps@ == old(self).apps@.update(
                app_id as int,
                (App { tx_callback: callback, ..old(self).apps@[app_id as int] }),
            ),
            subscribe_num == 2 && app_id < old(self).apps@.len() ==> r == ReturnCode::Success
                && final(self).apps@ == old(self).apps@.update(
                app_id as int,
                (App { rx_callback: callback, ..old(self).apps@[app_id as int] }),
            ),
    {
        if subscribe_num == 1 {
            if app_id >= self.apps.len() {
                return ReturnCode::Fail;
            }
            self.apps[app_id].tx_callback = callback;
            ReturnCode::Success
        } else if subscribe_num == 2 {
            if app_id >= self.apps.len() {
                return ReturnCode::Fail;
            }
            self.apps[app_id].rx_callback = callback;
            ReturnCode::Success
        } else {
            ReturnCode::ENoSupport
        }
    }

    /// The transmit region the given task has installed, if the task is
    /// live and has one.
    pub open spec fn tx_region_of(self, appid: usize) -> Option<Seq<u8>> {
        if appid < self.apps@.len() && self.apps@[appid as int].tx_buffer is Some {
            Some(self.apps@[appid as int].tx_buffer->0@)
        } else {
            None
        }
    }

    /// Start an operation on the line, or probe for the driver.
    ///
    /// Selector 0 is a presence probe: it always succeeds and changes
    /// nothing. Selector 1 starts a transmit of `arg1` bytes out of the
    /// calling task's transmit region: it fails with `Fail` for a torn-down
    /// task, with `ENoMem` when no transmit region is installed or when a
    /// transmit is already in flight, and with `EInval` when `arg1` exceeds
    /// the region; on success the first `min(arg1, capacity)` bytes of the
    /// region are copied into the privileged transmit buffer (silently
    /// truncated to the buffer's capacity), the calling task becomes the
    /// transmit owner, and the buffer is lent to the transport inside the
    /// returned request. Selector 2 starts a delimited receive: it fails
    /// with `ENoMem` when a receive is already in flight; on success the
    /// calling task becomes the receive owner and the privileged receive
    /// buffer is lent to the transport inside the returned request, which
    /// asks for a newline-terminated receive under the fixed scan budget.
    /// Any other selector fails with `ENoSupport`. Every failure leaves the
    /// arbiter exactly as it was.
    pub fn command(&mut self, cmd_num: usize, arg1: usize, _arg2: usize, appid: usize) -> (r: (
        ReturnCode,
        Option<TransportRequest>,
    ))
        ensures
            old(self).consistent() ==> final(self).consistent(),
            r.0 != ReturnCode::Success ==> *final(self) == *old(self) && r.1 is None,
            final(self).apps@ == old(self).apps@,
            // presence probe
            cmd_num == 0 ==> r == (ReturnCode::Success, None::<TransportRequest>) && *final(self)
                == *old(self),
            cmd_num != 0 && cmd_num != 1 && cmd_num != 2 ==> r.0 == ReturnCode::ENoSupport,
            // transmit error cases, if and only if
            cmd_num == 1 && appid >= old(self).apps@.len() ==> r.0 == ReturnCode::Fail,
            cmd_num == 1 && appid < old(self).apps@.len() && old(self).tx_region_of(appid)
                is None ==> r.0 == ReturnCode::ENoMem,
            cmd_num == 1 && old(self).tx_region_of(appid) is Some && arg1 > old(self).tx_region_of(appid)->0.len() ==> r.0 == ReturnCode::EInval,
            cmd_num == 1 && old(self).tx_region_of(appid) is Some && arg1 <= old(self).tx_region_of(appid)->0.len() && old(self).tx_buffer is None ==> r.0
                == ReturnCode::ENoMem,
            // transmit success: exactly when the task is live with a large
            // enough region and the transmit slot is idle
            cmd_num == 1 && old(self).tx_region_of(appid) is Some && arg1 <= old(self).tx_region_of(appid)->0.len() && old(self).tx_buffer is Some ==> {
                &&& r.0 == ReturnCode::Success
                &&& final(self).tx_in_progress == Some(appid)
                &&& final(self).tx_buffer is None
                &&& final(self).rx_in_progress == old(self).rx_in_progress
                &&& final(self).rx_buffer == old(self).rx_buffer
                &&& (r.1 matches Some(TransportRequest::Transmit { buffer: sent, length })
                    && length == arg1 && sent@ == overwrite_prefix(
                    old(self).tx_buffer->0@,
                    old(self).tx_region_of(appid)->0,
                    vstd::math::min(arg1 as int, old(self).tx_buffer->0@.len() as int),
                ))
            },
            // a second transmit while one is in flight never succeeds and
            // alters nothing
            cmd_num == 1 && old(self).tx_in_progress is Some && old(self).consistent() ==> r.0
                != ReturnCode::Success && *final(self) == *old(self),
            // receive: busy slot rejected, idle slot lent to the transport
            cmd_num == 2 && old(self).rx_buffer is None ==> r.0 == ReturnCode::ENoMem,
            cmd_num == 2 && old(self).rx_buffer is Some ==> {
                &&& r.0 == ReturnCode::Success
                &&& final(self).rx_in_progress == Some(appid)
                &&& final(self).rx_buffer is None
                &&& final(self).tx_in_progress == old(self).tx_in_progress
                &&& final(self).tx_buffer == old(self).tx_buffer
                &&& r.1 == Some(
                    TransportRequest::ReceiveUntilTerminator {
                        buffer: old(self).rx_buffer->0,
                        terminator: RECEIVE_TERMINATOR,
                        scan_budget: RECEIVE_SCAN_BUDGET,
                    },
                )
            },
            cmd_num == 2 && old(self).rx_in_progress is Some && old(self).consistent() ==> r.0
                == ReturnCode::ENoMem && *final(self) == *old(self),
    {
        if cmd_num == 0 {
            // presence probe
            (ReturnCode::Success, None)
        } else if cmd_num == 1 {
            if appid >= self.apps.len() {
                return (ReturnCode::Fail, None);
            }
            let region_len: usize = match &self.apps[appid].tx_buffer {
                None => {
                    return (ReturnCode::ENoMem, None);
                },
                Some(region) => region.len(),
            };
            if arg1 > region_len {
                return (ReturnCode::EInval, None);
            }
            match self.tx_buffer.take() {
                None => (ReturnCode::ENoMem, None),
                Some(mut buffer) => {
                    let ghost buffer0: Seq<u8> = buffer@;
                    let cap = buffer.len();
                    let n: usize = if arg1 < cap {
                        arg1
                    } else {
                        cap
                    };
                    let mut i: usize = 0;
                    while i < n
                        invariant
                            i <= n,
                            n <= arg1,
                            buffer@.len() == buffer0.len(),
                            n <= buffer0.len(),
                            appid < self.apps@.len(),
                            self.apps@ == old(self).apps@,
                            self.apps@[appid as int].tx_buffer is Some,
                            arg1 <= self.apps@[appid as int].tx_buffer->0@.len(),
                            forall|j: int|
                                0 <= j < i ==> buffer@[j] == self.apps@[appid as int].tx_buffer
                                    ->0@[j],
                            forall|j: int| i <= j < buffer0.len() ==> buffer@[j] == buffer0[j],
                        decreases n - i,
                    {
                        let b: u8 = match &self.apps[appid].tx_buffer {
                            Some(region) => region[i],
                            None => 0,
                        };
                        buffer.set(i, b);
                        i = i + 1;
                    }
                    self.tx_in_progress = Some(appid);
                    proof {
                        assert(buffer@ =~= overwrite_prefix(
                            buffer0,
                            old(self).apps@[appid as int].tx_buffer->0@,
                            vstd::math::min(arg1 as int, buffer0.len() as int),
                        ));
                    }
                    (ReturnCode::Success, Some(TransportRequest::Transmit { buffer, length: arg1 }))
                },
            }
        } else if cmd_num == 2 {
            match self.rx_buffer.take() {
                None => (ReturnCode::ENoMem, None),
                Some(buffer) => {
                    self.rx_in_progress = Some(appid);
                    (
                        ReturnCode::Success,
                        Some(
                            TransportRequest::ReceiveUntilTerminator {
                                buffer,
                                terminator: RECEIVE_TERMINATOR,
                                scan_budget: RECEIVE_SCAN_BUDGET,
                            },
                        ),
                    )
                },
            }
        } else {
            (ReturnCode::ENoSupport, None)
        }
    }

    /// The transmit-complete callback the given task has registered, if the
    /// task is live and has one.
    pub open spec fn tx_callback_of(self, appid: usize) -> Option<u32> {
        if appid < self.apps@.len() && self.apps@[appid as int].tx_callback is Some {
            Some(self.apps@[appid as int].tx_callback->0)
        } else {
            None
        }
    }

    /// The receive-complete callback the given task has registered, if the
    /// task is live and has one.
    pub open spec fn rx_callback_of(self, appid: usize) -> Option<u32> {
        if appid < self.apps@.len() && self.apps@[appid as int].rx_callback is Some {
            Some(self.apps@[appid as int].rx_callback->0)
        } else {
            None
        }
    }

    /// The receive region the given task has installed, if the task is live
    /// and has one.
    pub open spec fn rx_region_of(self, appid: usize) -> Option<Seq<u8>> {
        if appid < self.apps@.len() && self.apps@[appid as int].rx_buffer is Some {
            Some(self.apps@[appid as int].rx_buffer->0@)
        } else {
            None
        }
    }

    /// Handle a transmit completion from the transport.
    ///
    /// The privileged transmit buffer is reclaimed and the transmit owner is
    /// cleared, whatever else happens. When an owner was recorded, is still
    /// live and has a transmit callback registered, that callback is
    /// scheduled with a success status and zero-valued payload fields;
    /// otherwise the event is dropped. The completion code is not consulted.
    pub fn transmit_complete(&mut self, buffer: Vec<u8>, _error: UartError) -> (r: Option<
        CallbackEvent,
    >)
        ensures
            // ownership round-trip: buffer idle, owner cleared, always
            (final(self).tx_buffer matches Some(b) && b@ == buffer@),
            final(self).tx_in_progress is None,
            final(self).apps@ == old(self).apps@,
            final(self).rx_in_progress == old(self).rx_in_progress,
            final(self).rx_buffer == old(self).rx_buffer,
            old(self).consistent() ==> final(self).consistent(),
            (match old(self).tx_in_progress {
                Some(owner) => r == (match old(self).tx_callback_of(owner) {
                    Some(handle) => Some(
                        CallbackEvent {
                            task: owner,
                            handle,
                            status: ReturnCode::Success,
                            arg2: 0,
                            arg3: 0,
                        },
                    ),
                    None => None::<CallbackEvent>,
                }),
                None => r is None,
            }),
    {
        self.tx_buffer = Some(buffer);
        match self.tx_in_progress.take() {
            None => None,
            Some(appid) => {
                if appid < self.apps.len() {
                    match self.apps[appid].tx_callback {
                        Some(handle) => Some(
                            CallbackEvent {
                                task: appid,
                                handle,
                                status: ReturnCode::Success,
                                arg2: 0,
                                arg3: 0,
                            },
                        ),
                        None => None,
                    }
                } else {
                    None
                }
            },
        }
    }

    /// Handle a receive completion from the transport.
    ///
    /// The receive owner is cleared first, and the privileged receive buffer
    /// is reclaimed as the last step, whatever else happens, so the receive
    /// slot is never leaked. When an owner was recorded, is still live and
    /// has a receive callback registered: on a clean or aborted completion
    /// the task's receive region is consumed, its first
    /// `min(region length, received length)` bytes are overwritten with the
    /// received bytes, the region is released back to the task as the second
    /// result, and the callback is scheduled with a success status and the
    /// received length; when no receive region is installed the callback is
    /// scheduled with `EInval` and zero length instead; on any other
    /// completion code the callback is scheduled with a generic failure and
    /// zero length and the region is left untouched. In every other case the
    /// event is dropped.
    pub fn receive_complete(&mut self, buffer: Vec<u8>, rx_len: usize, error: UartError) -> (r: (
        Option<CallbackEvent>,
        Option<Vec<u8>>,
    ))
        ensures
            // ownership round-trip: buffer idle, owner cleared, always
            (final(self).rx_buffer matches Some(b) && b@ == buffer@),
            final(self).rx_in_progress is None,
            final(self).tx_in_progress == old(self).tx_in_progress,
            final(self).tx_buffer == old(self).tx_buffer,
            old(self).consistent() ==> final(self).consistent(),
            (match old(self).rx_in_progress {
                None => r.0 is None && r.1 is None && final(self).apps@ == old(self).apps@,
                Some(owner) => match old(self).rx_callback_of(owner) {
                    None => r.0 is None && r.1 is None && final(self).apps@ == old(self).apps@,
                    Some(handle) => match error {
                        UartError::Other => {
                            &&& r.0 == Some(
                                CallbackEvent {
                                    task: owner,
                                    handle,
                                    status: ReturnCode::Fail,
                                    arg2: 0,
                                    arg3: 0,
                                },
                            )
                            &&& r.1 is None
                            &&& final(self).apps@ == old(self).apps@
                        },
                        _ => match old(self).rx_region_of(owner) {
                            None => {
                                &&& r.0 == Some(
                                    CallbackEvent {
                                        task: owner,
                                        handle,
                                        status: ReturnCode::EInval,
                                        arg2: 0,
                                        arg3: 0,
                                    },
                                )
                                &&& r.1 is None
                                &&& final(self).apps@ == old(self).apps@
                            },
                            Some(region) => {
                                &&& r.0 == Some(
                                    CallbackEvent {
                                        task: owner,
                                        handle,
                                        status: ReturnCode::Success,
                                        arg2: rx_len,
                                        arg3: 0,
                                    },
                                )
                                &&& (r.1 matches Some(out) && out@ == overwrite_prefix(
                                    region,
                                    buffer@,
                                    vstd::math::min(
                                        vstd::math::min(region.len() as int, rx_len as int),
                                        buffer@.len() as int,
                                    ),
                                ))
                                &&& final(self).apps@ == old(self).apps@.update(
                                    owner as int,
                                    (App { rx_buffer: None, ..old(self).apps@[owner as int] }),
                                )
                            },
                        },
                    },
                },
            }),
    {
        let owner_opt = self.rx_in_progress.take();
        let result: (Option<CallbackEvent>, Option<Vec<u8>>) = match owner_opt {
            None => (None, None),
            Some(appid) => {
                if appid >= self.apps.len() {
                    (None, None)
                } else {
                    match self.apps[appid].rx_callback {
                        None => (None, None),
                        Some(handle) => {
                            match error {
                                UartError::Other => (
                                    Some(
                                        CallbackEvent {
                                            task: appid,
                                            handle,
                                            status: ReturnCode::Fail,
                                            arg2: 0,
                                            arg3: 0,
                                        },
                                    ),
                                    None,
                                ),
                                _ => {
                                    match self.apps[appid].rx_buffer.take() {
                                        None => (
                                            Some(
                                                CallbackEvent {
                                                    task: appid,
                                                    handle,
                                                    status: ReturnCode::EInval,
                                                    arg2: 0,
                                                    arg3: 0,
                                                },
                                            ),
                                            None,
                                        ),
                                        Some(mut region) => {
                                            let ghost region0: Seq<u8> = region@;
                                            let m: usize = if region.len() < rx_len {
                                                region.len()
                                            } else {
                                                rx_len
                                            };
                                            let n: usize = if m < buffer.len() {
                                                m
                                            } else {
                                                buffer.len()
                                            };
                                            let mut i: usize = 0;
                                            while i < n
                                                invariant
                                                    i <= n,
                                                    region@.len() == region0.len(),
                                                    n <= region0.len(),
                                                    n <= buffer@.len(),
                                                    forall|j: int|
                                                        0 <= j < i ==> region@[j] == buffer@[j],
                                                    forall|j: int|
                                                        i <= j < region0.len() ==> region@[j]
                                                            == region0[j],
                                                decreases n - i,
                                            {
                                                let b: u8 = buffer[i];
                                                region.set(i, b);
                                                i = i + 1;
                                            }
                                            proof {
                                                assert(region@ =~= overwrite_prefix(
                                                    region0,
                                                    buffer@,
                                                    n as int,
                                                ));
                                            }
                                            (
                                                Some(
                                                    CallbackEvent {
                                                        task: appid,
                                                        handle,
                                                        status: ReturnCode::Success,
                                                        arg2: rx_len,
                                                        arg3: 0,
                                                    },
                                                ),
                                                Some(region),
                                            )
                                        },
                                    }
                                },
                            }
                        },
                    }
                }
            },
        };
        self.rx_buffer = Some(buffer);
        result
    }
}

} // verus!

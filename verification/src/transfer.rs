//! What is done when a USB bulk transfer completes.
//!
//! All transfers are in flight at once, and each completion resubmits the same transfer, so that
//! the hardware FIFO never sees a gap.

use crate::stream::{AsyncReadHandle, ChunkView};
use vstd::prelude::*;

verus! {

/// How a transfer ended.
#[derive(Debug, Clone, Copy, PartialEq, Eq, Structural)]
pub enum TransferStatus {
    Completed,
    Cancelled,
    NoDevice,
    /// Any other status: an error of this one transfer.
    Other(i32),
}

/// `libusb1_sys::constants::LIBUSB_TRANSFER_COMPLETED`, the status of a transfer that completed
/// without error; its value is taken on trust.
#[verifier::external_body]
fn completed_code() -> (code: i32)
    ensures
        code == 0,
{
    libusb1_sys::constants::LIBUSB_TRANSFER_COMPLETED
}

/// `libusb1_sys::constants::LIBUSB_TRANSFER_CANCELLED`, the status of a transfer that was
/// cancelled; its value is taken on trust.
#[verifier::external_body]
fn cancelled_code() -> (code: i32)
    ensures
        code == 3,
{
    libusb1_sys::constants::LIBUSB_TRANSFER_CANCELLED
}

/// `libusb1_sys::constants::LIBUSB_TRANSFER_NO_DEVICE`, the status of a transfer whose device was
/// disconnected; its value is taken on trust.
#[verifier::external_body]
fn no_device_code() -> (code: i32)
    ensures
        code == 5,
{
    libusb1_sys::constants::LIBUSB_TRANSFER_NO_DEVICE
}

/// How libusb encodes the status of a transfer.
pub open spec fn status_of(code: i32) -> TransferStatus {
    if code == 0 {
        TransferStatus::Completed
    } else if code == 3 {
        TransferStatus::Cancelled
    } else if code == 5 {
        TransferStatus::NoDevice
    } else {
        TransferStatus::Other(code)
    }
}

impl TransferStatus {
    pub fn from_code(code: i32) -> (status: TransferStatus)
        ensures
            status == status_of(code),
    {
        if code == completed_code() {
            TransferStatus::Completed
        } else if code == cancelled_code() {
            TransferStatus::Cancelled
        } else if code == no_device_code() {
            TransferStatus::NoDevice
        } else {
            TransferStatus::Other(code)
        }
    }
}

/// What becomes of a transfer whose completion was handled.
#[derive(Debug, Clone, Copy, PartialEq, Eq, Structural)]
pub enum CallbackAction {
    /// It is submitted again.
    Resubmit,
    /// It is left alone and no longer pending.
    Retire,
}

/// The state that all completions of a streaming session share.
#[derive(Debug, Clone, Copy, PartialEq, Eq, Structural)]
pub struct TransferState {
    /// Total buffer count, and the error count at which the device counts as lost.
    pub buf_num: usize,
    /// Errors since the last transfer that completed.
    pub xfer_errors: usize,
    pub dev_lost: bool,
    /// Number of in-flight transfers that have not yet completed, or that have been resubmitted.
    /// When this reaches zero after the stream was stopped, it is safe to free the transfers.
    pub pending: usize,
}

/// One less, in the arithmetic of the counter.
pub open spec fn one_less(n: usize) -> usize {
    if n == 0 {
        usize::MAX
    } else {
        (n - 1) as usize
    }
}

impl TransferState {
    /// The state before any transfer is submitted: all of them are still owed a completion.
    pub open spec fn fresh(buf_num: usize) -> TransferState {
        TransferState { buf_num, xfer_errors: 0, dev_lost: false, pending: buf_num }
    }

    /// The error count after a completion: success clears it, a failed transfer adds one.
    pub open spec fn errors_after(self, status: TransferStatus) -> int {
        match status {
            TransferStatus::Completed => 0,
            TransferStatus::Other(_) => self.xfer_errors + 1,
            _ => self.xfer_errors as int,
        }
    }

    /// The device is lost once a transfer says so, or once as many transfers as there are buffers
    /// failed without one that completed in between.
    pub open spec fn lost_after(self, status: TransferStatus) -> bool {
        ||| self.dev_lost
        ||| status == TransferStatus::NoDevice
        ||| status is Other && self.errors_after(status) >= self.buf_num
    }

    /// A transfer is submitted again unless it was cancelled, the stream was asked to stop, or it
    /// failed on a device that is lost.
    pub open spec fn resubmits(self, status: TransferStatus, stop: bool) -> bool {
        !stop && match status {
            TransferStatus::Completed => true,
            TransferStatus::Other(_) => !self.lost_after(status),
            _ => false,
        }
    }

    /// The state after a completion, before the result of a resubmission is known.
    pub open spec fn after(self, status: TransferStatus, stop: bool) -> TransferState {
        TransferState {
            buf_num: self.buf_num,
            xfer_errors: self.errors_after(status) as usize,
            dev_lost: self.lost_after(status),
            pending: if self.resubmits(status, stop) {
                self.pending
            } else {
                one_less(self.pending)
            },
        }
    }

    /// The state after an attempt to submit a transfer: one that could not be submitted will
    /// never complete.
    pub open spec fn after_submit(self, rc: i32) -> TransferState {
        if rc == 0 {
            self
        } else {
            TransferState { pending: one_less(self.pending), ..self }
        }
    }

    pub fn new(buf_num: usize) -> (state: TransferState)
        ensures
            state == TransferState::fresh(buf_num),
    {
        TransferState { buf_num, xfer_errors: 0, dev_lost: false, pending: buf_num }
    }

    /// Handles the completion of a transfer, which ended with the libusb status `code` and, if it
    /// completed, brought `data`. The data is offered to the consumer without waiting: if the
    /// consumer falls behind, the chunk is dropped rather than the resubmission delayed.
    pub fn transfer_callback(
        &mut self,
        stream: &mut AsyncReadHandle,
        code: i32,
        data: &[u8],
    ) -> (action: CallbackAction)
        requires
            status_of(code) is Other ==> old(self).xfer_errors < usize::MAX,
        ensures
            *final(self) == old(self).after(status_of(code), old(stream)@.control.stop),
            final(stream)@ == (if status_of(code) == TransferStatus::Completed {
                old(stream)@.offered(ChunkView::Data(data@))
            } else {
                old(stream)@
            }),
            old(stream)@.wf() ==> final(stream)@.wf(),
            action == (if old(self).resubmits(status_of(code), old(stream)@.control.stop) {
                CallbackAction::Resubmit
            } else {
                CallbackAction::Retire
            }),
    {
        let stop: bool = stream.control.stop;
        match TransferStatus::from_code(code) {
            TransferStatus::Completed => {
                let chunk = vstd::slice::slice_to_vec(data);
                let _ = stream.offer(Ok(chunk));
                self.xfer_errors = 0;
                if !stop {
                    return CallbackAction::Resubmit;
                }
            },
            TransferStatus::Cancelled => {},
            TransferStatus::NoDevice => {
                self.dev_lost = true;
            },
            TransferStatus::Other(_) => {
                self.xfer_errors = self.xfer_errors + 1;
                if self.xfer_errors >= self.buf_num {
                    self.dev_lost = true;
                }
                if !stop && !self.dev_lost {
                    return CallbackAction::Resubmit;
                }
            },
        }
        self.pending = self.pending.wrapping_sub(1);
        CallbackAction::Retire
    }

    /// Takes note of what libusb returned for the submission of a transfer.
    pub fn submitted(&mut self, rc: i32)
        ensures
            *final(self) == old(self).after_submit(rc),
    {
        if rc != 0 {
            self.pending = self.pending.wrapping_sub(1);
        }
    }
}

/// What a completion does, by the status that libusb reported.
///
/// - 0, completed: errors are forgotten, and the transfer is submitted again unless the stream is
///   to stop.
/// - 3, cancelled: the transfer is done with.
/// - 5, no device: the device is lost, and the transfer is done with.
/// - anything else: one more error, which loses the device if it is at least the `buf_num`-th in a
///   row; the transfer is submitted again unless the stream is to stop or the device is lost.
///
/// Each transfer that is not submitted again is one less that is pending, and nothing else changes
/// what is pending.
pub proof fn law_completion_by_status(state: TransferState, code: i32, stop: bool)
    requires
        code != 0 && code != 3 && code != 5 ==> state.xfer_errors < usize::MAX,
    ensures
        ({
            let next = state.after(status_of(code), stop);
            let again = state.resubmits(status_of(code), stop);
            &&& code == 0 ==> status_of(code) == TransferStatus::Completed
            &&& code == 3 ==> status_of(code) == TransferStatus::Cancelled
            &&& code == 5 ==> status_of(code) == TransferStatus::NoDevice
            &&& code != 0 && code != 3 && code != 5 ==> status_of(code)
                == TransferStatus::Other(code)
            &&& next.buf_num == state.buf_num
            &&& next.xfer_errors == (if code == 0 {
                0
            } else if code == 3 || code == 5 {
                state.xfer_errors as int
            } else {
                state.xfer_errors + 1
            })
            &&& next.dev_lost <==> state.dev_lost || code == 5 || (code != 0 && code != 3
                && state.xfer_errors + 1 >= state.buf_num)
            &&& again <==> !stop && code != 3 && code != 5 && (code == 0 || !next.dev_lost)
            &&& again ==> next.pending == state.pending
            &&& !again && state.pending > 0 ==> next.pending == state.pending - 1
            &&& !again && state.pending == 0 ==> next.pending == usize::MAX
        }),
{
}

/// A session begins without errors, with a device, and with every transfer pending. A submission
/// that libusb refuses makes one less pending, one that it takes changes nothing.
pub proof fn law_refused_submission_is_not_pending(state: TransferState, rc: i32)
    ensures
        TransferState::fresh(state.buf_num).buf_num == state.buf_num,
        TransferState::fresh(state.buf_num).pending == state.buf_num,
        TransferState::fresh(state.buf_num).xfer_errors == 0,
        !TransferState::fresh(state.buf_num).dev_lost,
        rc == 0 ==> state.after_submit(rc) == state,
        rc != 0 && state.pending > 0 ==> state.after_submit(rc).pending == state.pending - 1,
        rc != 0 && state.pending == 0 ==> state.after_submit(rc).pending == usize::MAX,
        state.after_submit(rc).buf_num == state.buf_num,
        state.after_submit(rc).xfer_errors == state.xfer_errors,
        state.after_submit(rc).dev_lost == state.dev_lost,
{
}

/// What a transfer brought reaches the queue whole or not at all: if it completed and fewer chunks
/// wait than there is room for, exactly its data comes behind them; otherwise the queue stays as it
/// is. Nothing else of the stream changes, and what becomes of the transfer does not depend on it.
pub proof fn law_completed_data_reaches_the_queue_whole(code: i32, data: &[u8])
    ensures
        forall|state: &mut TransferState, stream: &mut AsyncReadHandle, action: CallbackAction|
            #[trigger]
            call_ensures(
                TransferState::transfer_callback,
                (state, stream, code, data),
                action,
            ) ==> {
                let room = stream@.rx.receiver && (stream@.rx.capacity matches Some(n)
                    ==> stream@.rx.items.len() < n);
                &&& final(stream)@.rx.items == (if code == 0 && room {
                    stream@.rx.items.push(ChunkView::Data(data@))
                } else {
                    stream@.rx.items
                })
                &&& final(stream)@.rx.capacity == stream@.rx.capacity
                &&& final(stream)@.rx.senders == stream@.rx.senders
                &&& final(stream)@.rx.receiver == stream@.rx.receiver
                &&& final(stream)@.control == stream@.control
                &&& action == CallbackAction::Resubmit <==> !stream@.control.stop && code != 3
                    && code != 5 && (code == 0 || !final(state).dev_lost)
            },
{
}

} // verus!

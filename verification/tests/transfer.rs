use libusb1_sys::constants::{
    LIBUSB_TRANSFER_CANCELLED, LIBUSB_TRANSFER_COMPLETED, LIBUSB_TRANSFER_ERROR,
    LIBUSB_TRANSFER_NO_DEVICE, LIBUSB_TRANSFER_OVERFLOW, LIBUSB_TRANSFER_STALL,
    LIBUSB_TRANSFER_TIMED_OUT,
};
use rtlsdr::engine::{
    BulkTransfer, EngineAction, EngineEvent, TransferEngine, BULK_IN_ENDPOINT, DRAIN_LIMIT,
    NO_TIMEOUT,
};
use rtlsdr::error::RtlsdrError;
use rtlsdr::transfer::{CallbackAction, TransferState, TransferStatus};
use rtlsdr::AsyncReadHandle;

#[test]
fn libusb_statuses() {
    assert_eq!(
        TransferStatus::from_code(LIBUSB_TRANSFER_COMPLETED),
        TransferStatus::Completed
    );
    assert_eq!(
        TransferStatus::from_code(LIBUSB_TRANSFER_CANCELLED),
        TransferStatus::Cancelled
    );
    assert_eq!(
        TransferStatus::from_code(LIBUSB_TRANSFER_NO_DEVICE),
        TransferStatus::NoDevice
    );
    for code in [
        LIBUSB_TRANSFER_ERROR,
        LIBUSB_TRANSFER_TIMED_OUT,
        LIBUSB_TRANSFER_STALL,
        LIBUSB_TRANSFER_OVERFLOW,
        -1,
    ] {
        assert_eq!(TransferStatus::from_code(code), TransferStatus::Other(code));
    }
    assert_eq!(TransferStatus::from_code(0), TransferStatus::Completed);
    assert_eq!(TransferStatus::from_code(3), TransferStatus::Cancelled);
    assert_eq!(TransferStatus::from_code(5), TransferStatus::NoDevice);
}

#[test]
fn completed_transfer_delivers_and_is_resubmitted() {
    let mut state = TransferState::new(3);
    let mut stream = AsyncReadHandle::new(1);
    state.xfer_errors = 2;
    let action = state.transfer_callback(&mut stream, LIBUSB_TRANSFER_COMPLETED, &[1, 2, 3]);
    assert_eq!(action, CallbackAction::Resubmit);
    assert_eq!(
        state,
        TransferState { buf_num: 3, xfer_errors: 0, dev_lost: false, pending: 3 }
    );
    // The consumer is slow: the chunk is dropped, and the transfer goes on.
    let action = state.transfer_callback(&mut stream, LIBUSB_TRANSFER_COMPLETED, &[4]);
    assert_eq!(action, CallbackAction::Resubmit);
    assert_eq!(stream.dropped_chunks(), 0);
    assert_eq!(stream.try_recv().unwrap().unwrap(), vec![1, 2, 3]);
    assert!(stream.try_recv().is_none());
}

#[test]
fn completed_transfer_of_a_stopped_stream_delivers_and_retires() {
    let mut state = TransferState::new(3);
    let mut stream = AsyncReadHandle::new(1);
    stream.stop();
    let action = state.transfer_callback(&mut stream, LIBUSB_TRANSFER_COMPLETED, &[9]);
    assert_eq!(action, CallbackAction::Retire);
    assert_eq!(state.pending, 2);
    assert_eq!(stream.try_recv().unwrap().unwrap(), vec![9]);
}

#[test]
fn failed_resubmission_is_no_longer_pending() {
    let mut state = TransferState::new(2);
    state.submitted(0);
    assert_eq!(state.pending, 2);
    state.submitted(-4);
    assert_eq!(state.pending, 1);
}

#[test]
fn cancelled_transfer_retires() {
    let mut state = TransferState::new(2);
    let mut stream = AsyncReadHandle::new(1);
    state.xfer_errors = 1;
    let action = state.transfer_callback(&mut stream, LIBUSB_TRANSFER_CANCELLED, &[]);
    assert_eq!(action, CallbackAction::Retire);
    assert_eq!(
        state,
        TransferState { buf_num: 2, xfer_errors: 1, dev_lost: false, pending: 1 }
    );
    assert!(stream.try_recv().is_none());
}

#[test]
fn missing_device_is_lost() {
    let mut state = TransferState::new(2);
    let mut stream = AsyncReadHandle::new(1);
    let action = state.transfer_callback(&mut stream, LIBUSB_TRANSFER_NO_DEVICE, &[]);
    assert_eq!(action, CallbackAction::Retire);
    assert_eq!(
        state,
        TransferState { buf_num: 2, xfer_errors: 0, dev_lost: true, pending: 1 }
    );
}

#[test]
fn as_many_errors_in_a_row_as_buffers_lose_the_device() {
    let mut state = TransferState::new(3);
    let mut stream = AsyncReadHandle::new(4);
    let fail = LIBUSB_TRANSFER_STALL;
    assert_eq!(state.transfer_callback(&mut stream, fail, &[]), CallbackAction::Resubmit);
    assert_eq!(state.transfer_callback(&mut stream, fail, &[]), CallbackAction::Resubmit);
    // One that completes starts the count anew.
    assert_eq!(
        state.transfer_callback(&mut stream, LIBUSB_TRANSFER_COMPLETED, &[1]),
        CallbackAction::Resubmit
    );
    assert_eq!(state.transfer_callback(&mut stream, fail, &[]), CallbackAction::Resubmit);
    assert_eq!(state.transfer_callback(&mut stream, fail, &[]), CallbackAction::Resubmit);
    assert!(!state.dev_lost);
    assert_eq!(state.transfer_callback(&mut stream, fail, &[]), CallbackAction::Retire);
    assert!(state.dev_lost);
    assert_eq!(state.xfer_errors, 3);
    assert_eq!(state.pending, 2);
}

#[test]
fn failed_transfer_of_a_stopped_stream_retires() {
    let mut state = TransferState::new(3);
    let mut stream = AsyncReadHandle::new(1);
    stream.stop();
    let action = state.transfer_callback(&mut stream, LIBUSB_TRANSFER_ERROR, &[]);
    assert_eq!(action, CallbackAction::Retire);
    assert_eq!(
        state,
        TransferState { buf_num: 3, xfer_errors: 1, dev_lost: false, pending: 2 }
    );
}

fn bulk_transfer(index: usize) -> BulkTransfer {
    BulkTransfer { index, endpoint: 0x81, len: 1024, timeout_millis: 0 }
}

#[test]
fn session_from_allocation_to_free() {
    let mut engine = TransferEngine::new(2, 1024);
    let mut state = TransferState::new(2);
    let mut stream = AsyncReadHandle::new(4);
    assert_eq!(engine.action(), EngineAction::Allocate { len: 1024 });
    engine.step(&mut state, &mut stream, EngineEvent::Allocated(true));
    assert_eq!(engine.action(), EngineAction::Allocate { len: 1024 });
    engine.step(&mut state, &mut stream, EngineEvent::Allocated(true));
    assert_eq!(engine.action(), EngineAction::Submit(bulk_transfer(0)));
    engine.step(&mut state, &mut stream, EngineEvent::Submitted(-1));
    assert_eq!(state.pending, 1);
    assert_eq!(engine.action(), EngineAction::Submit(bulk_transfer(1)));
    engine.step(&mut state, &mut stream, EngineEvent::Submitted(0));
    assert_eq!(state.pending, 1);
    assert_eq!(engine.action(), EngineAction::Poll { millis: 1000 });
    state.transfer_callback(&mut stream, LIBUSB_TRANSFER_COMPLETED, &[1]);
    engine.step(&mut state, &mut stream, EngineEvent::Polled);
    assert_eq!(engine.action(), EngineAction::Poll { millis: 1000 });
    stream.stop();
    engine.step(&mut state, &mut stream, EngineEvent::Polled);
    assert_eq!(engine.action(), EngineAction::CancelAll);
    engine.step(&mut state, &mut stream, EngineEvent::Cancelled);
    assert_eq!(engine.action(), EngineAction::Poll { millis: 100 });
    state.transfer_callback(&mut stream, LIBUSB_TRANSFER_CANCELLED, &[]);
    engine.step(&mut state, &mut stream, EngineEvent::Polled);
    assert_eq!(engine.action(), EngineAction::FreeAll(2));
    engine.step(&mut state, &mut stream, EngineEvent::Freed);
    assert_eq!(engine.action(), EngineAction::Finished);
    assert_eq!(stream.try_recv().unwrap().unwrap(), vec![1]);
    assert!(stream.try_recv().is_none());
}

#[test]
fn all_transfers_stay_in_flight() {
    let mut engine = TransferEngine::new(3, 1024);
    let mut state = TransferState::new(3);
    let mut stream = AsyncReadHandle::new(1);
    for _ in 0..3 {
        engine.step(&mut state, &mut stream, EngineEvent::Allocated(true));
    }
    for _ in 0..3 {
        engine.step(&mut state, &mut stream, EngineEvent::Submitted(0));
    }
    for _ in 0..100 {
        let action = state.transfer_callback(&mut stream, LIBUSB_TRANSFER_COMPLETED, &[0; 4]);
        assert_eq!(action, CallbackAction::Resubmit);
        state.submitted(0);
        engine.step(&mut state, &mut stream, EngineEvent::Polled);
        assert_eq!(state.pending, 3);
        assert_eq!(engine.action(), EngineAction::Poll { millis: 1000 });
    }
}

#[test]
fn failed_allocation_frees_and_reports() {
    let mut engine = TransferEngine::new(3, 1024);
    let mut state = TransferState::new(3);
    let mut stream = AsyncReadHandle::new(1);
    engine.step(&mut state, &mut stream, EngineEvent::Allocated(true));
    engine.step(&mut state, &mut stream, EngineEvent::Allocated(true));
    engine.step(&mut state, &mut stream, EngineEvent::Allocated(false));
    assert_eq!(engine.action(), EngineAction::FreeAll(2));
    assert!(stream.try_recv().is_none());
    engine.step(&mut state, &mut stream, EngineEvent::Freed);
    assert_eq!(engine.action(), EngineAction::Finished);
    match stream.try_recv() {
        Some(Err(RtlsdrError::RtlsdrErr(text))) => {
            assert_eq!(text, "libusb_alloc_transfer failed")
        }
        other => panic!("{:?}", other),
    }
    assert!(!stream.control.stop);
}

#[test]
fn nothing_submitted_frees_at_once() {
    let mut engine = TransferEngine::new(2, 1024);
    let mut state = TransferState::new(2);
    let mut stream = AsyncReadHandle::new(1);
    engine.step(&mut state, &mut stream, EngineEvent::Allocated(true));
    engine.step(&mut state, &mut stream, EngineEvent::Allocated(true));
    engine.step(&mut state, &mut stream, EngineEvent::Submitted(-1));
    engine.step(&mut state, &mut stream, EngineEvent::Submitted(-1));
    assert_eq!(state.pending, 0);
    assert_eq!(engine.action(), EngineAction::FreeAll(2));
    assert!(stream.try_recv().is_none());
}

#[test]
fn no_buffers_no_session() {
    let engine = TransferEngine::new(0, 1024);
    assert_eq!(engine.action(), EngineAction::FreeAll(0));
}

#[test]
fn lost_device_shuts_down() {
    let mut engine = TransferEngine::new(1, 1024);
    let mut state = TransferState::new(1);
    let mut stream = AsyncReadHandle::new(1);
    engine.step(&mut state, &mut stream, EngineEvent::Allocated(true));
    engine.step(&mut state, &mut stream, EngineEvent::Submitted(0));
    state.transfer_callback(&mut stream, LIBUSB_TRANSFER_NO_DEVICE, &[]);
    engine.step(&mut state, &mut stream, EngineEvent::Polled);
    assert_eq!(engine.action(), EngineAction::CancelAll);
    assert!(stream.control.stop);
    engine.step(&mut state, &mut stream, EngineEvent::Cancelled);
    assert_eq!(engine.action(), EngineAction::FreeAll(1));
}

#[test]
fn shutdown_gives_up_in_the_end() {
    let mut engine = TransferEngine::new(1, 1024);
    let mut state = TransferState::new(1);
    let mut stream = AsyncReadHandle::new(1);
    engine.step(&mut state, &mut stream, EngineEvent::Allocated(true));
    engine.step(&mut state, &mut stream, EngineEvent::Submitted(0));
    stream.stop();
    engine.step(&mut state, &mut stream, EngineEvent::Polled);
    engine.step(&mut state, &mut stream, EngineEvent::Cancelled);
    let mut turns = 0;
    while engine.action() == (EngineAction::Poll { millis: 100 }) {
        engine.step(&mut state, &mut stream, EngineEvent::Polled);
        turns += 1;
    }
    assert_eq!(turns, 50);
    assert_eq!(DRAIN_LIMIT, 50);
    assert_eq!(state.pending, 1);
    assert_eq!(engine.action(), EngineAction::FreeAll(1));
}

#[test]
fn event_that_was_not_asked_for_changes_nothing() {
    let mut engine = TransferEngine::new(1, 1024);
    let mut state = TransferState::new(1);
    let mut stream = AsyncReadHandle::new(1);
    let before = engine;
    for event in [
        EngineEvent::Submitted(-1),
        EngineEvent::Polled,
        EngineEvent::Cancelled,
        EngineEvent::Freed,
    ] {
        engine.step(&mut state, &mut stream, event);
        assert_eq!(engine, before);
        assert_eq!(state, TransferState::new(1));
    }
}

#[test]
fn bulk_endpoint() {
    assert_eq!(BULK_IN_ENDPOINT, 0x81);
    assert_eq!(NO_TIMEOUT, 0);
}

#[test]
fn failed_transfers_stay_in_flight_and_refused_ones_do_not() {
    let mut engine = TransferEngine::new(3, 1024);
    let mut state = TransferState::new(3);
    let mut stream = AsyncReadHandle::new(1);
    for _ in 0..3 {
        engine.step(&mut state, &mut stream, EngineEvent::Allocated(true));
    }
    for rc in [0, -1, 0] {
        engine.step(&mut state, &mut stream, EngineEvent::Submitted(rc));
    }
    for _ in 0..20 {
        for code in [LIBUSB_TRANSFER_STALL, LIBUSB_TRANSFER_ERROR, LIBUSB_TRANSFER_COMPLETED] {
            let action = state.transfer_callback(&mut stream, code, &[1]);
            assert_eq!(action, CallbackAction::Resubmit);
            state.submitted(0);
            assert_eq!(state.pending, 2);
        }
        engine.step(&mut state, &mut stream, EngineEvent::Polled);
        assert_eq!(engine.action(), EngineAction::Poll { millis: 1000 });
    }
    state.transfer_callback(&mut stream, LIBUSB_TRANSFER_STALL, &[]);
    state.submitted(-1);
    assert_eq!(state.pending, 1);
    assert!(!state.dev_lost);
}

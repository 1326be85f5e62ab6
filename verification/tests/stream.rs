use rtlsdr::channel::{Channel, Received, TrySendError};
use rtlsdr::error::{RtlsdrError, UsbError};
use rtlsdr::stream::AsyncReadControl;
use rtlsdr::{AsyncReadControlHandle, AsyncReadHandle, TunerGain};

fn message(r: Result<(), RtlsdrError>) -> String {
    match r {
        Err(RtlsdrError::RtlsdrErr(text)) => text,
        other => panic!("{:?}", other),
    }
}

#[test]
fn commands_wait_in_order() {
    let mut h = AsyncReadHandle::new(1);
    assert!(h.tune(100_000_000).is_ok());
    assert!(h.control.set_gain(TunerGain::Manual(496)).is_ok());
    assert!(h.set_sample_rate(2_048_000).is_ok());
    assert!(h.control.tune(5).is_ok());
    assert!(h.set_gain(TunerGain::Auto).is_ok());
    assert!(h.control.set_sample_rate(6).is_ok());
    assert_eq!(h.next_command(), Received::Item(AsyncReadControl::Tune(100_000_000)));
    assert_eq!(
        h.next_command(),
        Received::Item(AsyncReadControl::SetGain(TunerGain::Manual(496)))
    );
    assert_eq!(h.next_command(), Received::Item(AsyncReadControl::SetSampleRate(2_048_000)));
    assert_eq!(h.next_command(), Received::Item(AsyncReadControl::Tune(5)));
    assert_eq!(h.next_command(), Received::Item(AsyncReadControl::SetGain(TunerGain::Auto)));
    assert_eq!(h.next_command(), Received::Item(AsyncReadControl::SetSampleRate(6)));
    assert_eq!(h.next_command(), Received::Empty);
}

#[test]
fn commands_are_refused_once_the_thread_is_gone() {
    let mut h = AsyncReadHandle::new(1);
    assert!(h.tune(1).is_ok());
    h.drop_producer();
    assert_eq!(message(h.tune(2)), "async control channel closed");
    assert_eq!(message(h.set_gain(TunerGain::Auto)), "async control channel closed");
    assert_eq!(message(h.set_sample_rate(3)), "async control channel closed");
    assert_eq!(message(h.control.tune(2)), "async control channel closed");
    assert_eq!(h.next_command(), Received::Empty);
}

#[test]
fn control_handle_alone_stops_and_commands() {
    let mut c = AsyncReadControlHandle { ctrl: Channel::new(None), stop: false, dropped: 4 };
    assert_eq!(c.dropped_chunks(), 4);
    assert!(c.tune(9).is_ok());
    c.stop();
    assert!(c.stop);
    assert_eq!(c.ctrl.try_recv(), Received::Item(AsyncReadControl::Tune(9)));
}

#[test]
fn commands_end_with_the_last_control_handle() {
    let mut h = AsyncReadHandle::new(1);
    h.control_handle();
    h.drop_control_handle();
    assert_eq!(h.next_command(), Received::Empty);
    h.drop_control_handle();
    assert_eq!(h.next_command(), Received::Disconnected);
}

#[test]
fn chunks_reach_the_consumer_and_then_the_stream_ends() {
    let mut h = AsyncReadHandle::new(2);
    assert!(h.try_recv().is_none());
    assert!(matches!(h.recv(), Received::Empty));
    assert!(h.offer(Ok(vec![1, 2])).is_ok());
    assert!(h.offer(Err(RtlsdrError::Usb(UsbError::Pipe))).is_ok());
    assert!(matches!(h.offer(Ok(vec![3])), Err(TrySendError::Full(Ok(_)))));
    h.drop_producer();
    assert_eq!(h.try_recv().unwrap().unwrap(), vec![1, 2]);
    assert!(matches!(
        h.recv(),
        Received::Item(Err(RtlsdrError::Usb(UsbError::Pipe)))
    ));
    assert!(matches!(h.recv(), Received::Disconnected));
    assert!(h.try_recv().is_none());
}

#[test]
fn dropped_chunks_are_counted() {
    let mut h = AsyncReadHandle::new(1);
    h.count_dropped();
    h.count_dropped();
    assert_eq!(h.dropped_chunks(), 2);
    assert_eq!(h.control.dropped_chunks(), 2);
    h.control.dropped = u64::MAX;
    h.count_dropped();
    assert_eq!(h.dropped_chunks(), 0);
}

#[test]
fn stop_is_seen_on_both_sides() {
    let mut h = AsyncReadHandle::new(1);
    assert!(!h.control.stop);
    h.stop();
    assert!(h.control.stop);
}

#[test]
fn nothing_is_offered_to_a_consumer_that_is_gone() {
    let mut h = AsyncReadHandle::new(1);
    h.drop_consumer();
    assert!(matches!(h.offer(Ok(vec![1])), Err(TrySendError::Disconnected(Ok(_)))));
}

#[test]
fn transient_errors() {
    assert!(RtlsdrError::Usb(UsbError::Timeout).is_transient());
    assert!(RtlsdrError::Usb(UsbError::Interrupted).is_transient());
    assert!(!RtlsdrError::Usb(UsbError::NoDevice).is_transient());
    assert!(!RtlsdrError::message("Timeout").is_transient());
}

use rtlsdr::channel::Received;
use rtlsdr::error::{RtlsdrError, UsbError};
use rtlsdr::multi::{Controller, ControllerAction, TransferReader, WorkerAction, TURN_MILLIS};
use rtlsdr::reader::{AsyncReader, ReaderAction};
use rtlsdr::stream::AsyncReadControl;
use rtlsdr::{AsyncReadHandle, TunerGain};

#[test]
fn reader_delivers_what_it_read() {
    let mut reader = AsyncReader::new();
    let mut stream = AsyncReadHandle::new(2);
    assert_eq!(reader.advance(&mut stream), ReaderAction::Read);
    reader.read_done(Ok(3), &[1, 2, 3, 4]);
    assert_eq!(reader.advance(&mut stream), ReaderAction::Read);
    reader.read_done(Ok(4), &[5, 6, 7, 8]);
    assert_eq!(reader.advance(&mut stream), ReaderAction::Read);
    assert_eq!(stream.try_recv().unwrap().unwrap(), vec![1, 2, 3]);
    assert_eq!(stream.try_recv().unwrap().unwrap(), vec![5, 6, 7, 8]);
    assert!(stream.try_recv().is_none());
}

#[test]
fn reader_skips_empty_reads() {
    let mut reader = AsyncReader::new();
    let mut stream = AsyncReadHandle::new(2);
    assert_eq!(reader.advance(&mut stream), ReaderAction::Read);
    reader.read_done(Ok(0), &[1, 2]);
    assert_eq!(reader.advance(&mut stream), ReaderAction::Read);
    assert!(stream.try_recv().is_none());
}

#[test]
fn reader_carries_out_all_commands_before_it_reads() {
    let mut reader = AsyncReader::new();
    let mut stream = AsyncReadHandle::new(2);
    stream.tune(1).unwrap();
    stream.set_gain(TunerGain::Manual(2)).unwrap();
    stream.set_sample_rate(3).unwrap();
    for command in [
        AsyncReadControl::Tune(1),
        AsyncReadControl::SetGain(TunerGain::Manual(2)),
        AsyncReadControl::SetSampleRate(3),
    ] {
        assert_eq!(reader.advance(&mut stream), ReaderAction::Apply(command));
        reader.applied(&mut stream, Ok(()));
    }
    assert_eq!(reader.advance(&mut stream), ReaderAction::Read);
}

#[test]
fn reader_goes_on_reading_when_nobody_can_send_commands() {
    let mut reader = AsyncReader::new();
    let mut stream = AsyncReadHandle::new(2);
    stream.drop_control_handle();
    assert_eq!(reader.advance(&mut stream), ReaderAction::Read);
}

#[test]
fn failed_command_ends_the_reader_without_closing() {
    let mut reader = AsyncReader::new();
    let mut stream = AsyncReadHandle::new(2);
    stream.tune(1).unwrap();
    assert_eq!(
        reader.advance(&mut stream),
        ReaderAction::Apply(AsyncReadControl::Tune(1))
    );
    reader.applied(&mut stream, Err(RtlsdrError::Usb(UsbError::Pipe)));
    assert_eq!(reader.advance(&mut stream), ReaderAction::Finished);
    assert!(matches!(
        stream.try_recv(),
        Some(Err(RtlsdrError::Usb(UsbError::Pipe)))
    ));
}

#[test]
fn failed_command_goes_unreported_when_the_queue_is_full() {
    let mut reader = AsyncReader::new();
    let mut stream = AsyncReadHandle::new(1);
    stream.tune(1).unwrap();
    stream.offer(Ok(vec![1])).unwrap();
    assert_eq!(
        reader.advance(&mut stream),
        ReaderAction::Apply(AsyncReadControl::Tune(1))
    );
    reader.applied(&mut stream, Err(RtlsdrError::Usb(UsbError::Pipe)));
    assert_eq!(reader.advance(&mut stream), ReaderAction::Finished);
    assert_eq!(stream.try_recv().unwrap().unwrap(), vec![1]);
    assert!(stream.try_recv().is_none());
}

#[test]
fn failed_read_is_delivered_and_closes() {
    let mut reader = AsyncReader::new();
    let mut stream = AsyncReadHandle::new(1);
    assert_eq!(reader.advance(&mut stream), ReaderAction::Read);
    reader.read_done(Ok(1), &[1]);
    assert_eq!(reader.advance(&mut stream), ReaderAction::Read);
    reader.read_done(Err(RtlsdrError::Usb(UsbError::Timeout)), &[1]);
    // The queue is full, so the error waits for room.
    assert_eq!(reader.advance(&mut stream), ReaderAction::AwaitRoom);
    assert_eq!(stream.try_recv().unwrap().unwrap(), vec![1]);
    assert_eq!(reader.advance(&mut stream), ReaderAction::Close);
    reader.closed();
    assert_eq!(reader.advance(&mut stream), ReaderAction::Finished);
    assert!(matches!(
        stream.try_recv(),
        Some(Err(RtlsdrError::Usb(UsbError::Timeout)))
    ));
}

#[test]
fn reader_waits_for_room_and_loses_nothing() {
    let mut reader = AsyncReader::new();
    let mut stream = AsyncReadHandle::new(1);
    assert_eq!(reader.advance(&mut stream), ReaderAction::Read);
    reader.read_done(Ok(1), &[1]);
    assert_eq!(reader.advance(&mut stream), ReaderAction::Read);
    reader.read_done(Ok(1), &[2]);
    assert_eq!(reader.advance(&mut stream), ReaderAction::AwaitRoom);
    stream.stop();
    assert_eq!(reader.advance(&mut stream), ReaderAction::AwaitRoom);
    assert_eq!(stream.try_recv().unwrap().unwrap(), vec![1]);
    assert_eq!(reader.advance(&mut stream), ReaderAction::Close);
    assert_eq!(stream.try_recv().unwrap().unwrap(), vec![2]);
    assert_eq!(stream.dropped_chunks(), 0);
}

#[test]
fn reader_closes_when_the_consumer_is_gone() {
    let mut reader = AsyncReader::new();
    let mut stream = AsyncReadHandle::new(1);
    assert_eq!(reader.advance(&mut stream), ReaderAction::Read);
    reader.read_done(Ok(1), &[1]);
    stream.drop_consumer();
    assert_eq!(reader.advance(&mut stream), ReaderAction::Close);
}

#[test]
fn stopped_reader_closes_and_leaves_commands_alone() {
    let mut reader = AsyncReader::new();
    let mut stream = AsyncReadHandle::new(1);
    stream.tune(5).unwrap();
    stream.stop();
    assert_eq!(reader.advance(&mut stream), ReaderAction::Close);
    reader.closed();
    assert_eq!(reader.advance(&mut stream), ReaderAction::Finished);
    assert_eq!(stream.next_command(), Received::Item(AsyncReadControl::Tune(5)));
}

#[test]
fn worker_delivers_or_counts() {
    let mut worker = TransferReader::new();
    let mut stream = AsyncReadHandle::new(1);
    assert_eq!(worker.advance(&stream), WorkerAction::Read);
    worker.read_done(&mut stream, Ok(2), &[1, 2, 3]);
    worker.read_done(&mut stream, Ok(1), &[4, 5, 6]);
    worker.read_done(&mut stream, Ok(0), &[7]);
    assert_eq!(stream.dropped_chunks(), 1);
    assert_eq!(stream.try_recv().unwrap().unwrap(), vec![1, 2]);
    assert!(stream.try_recv().is_none());
    assert_eq!(worker.advance(&stream), WorkerAction::Read);
}

#[test]
fn worker_passes_over_timeouts_and_interruptions() {
    let mut worker = TransferReader::new();
    let mut stream = AsyncReadHandle::new(1);
    worker.read_done(&mut stream, Err(RtlsdrError::Usb(UsbError::Timeout)), &[]);
    worker.read_done(&mut stream, Err(RtlsdrError::Usb(UsbError::Interrupted)), &[]);
    assert_eq!(worker.advance(&stream), WorkerAction::Read);
    assert!(stream.try_recv().is_none());
    assert_eq!(stream.dropped_chunks(), 0);
}

#[test]
fn worker_ends_with_any_other_error() {
    let mut worker = TransferReader::new();
    let mut stream = AsyncReadHandle::new(1);
    worker.read_done(&mut stream, Err(RtlsdrError::Usb(UsbError::NoDevice)), &[]);
    assert_eq!(worker.advance(&stream), WorkerAction::Finished);
    assert!(matches!(
        stream.try_recv(),
        Some(Err(RtlsdrError::Usb(UsbError::NoDevice)))
    ));
    // An error that finds the queue full is not counted as a dropped chunk.
    let mut other = TransferReader::new();
    stream.offer(Ok(vec![1])).unwrap();
    other.read_done(&mut stream, Err(RtlsdrError::message("gone")), &[]);
    assert_eq!(other.advance(&stream), WorkerAction::Finished);
    assert_eq!(stream.dropped_chunks(), 0);
}

#[test]
fn worker_ends_when_the_stream_stops() {
    let mut worker = TransferReader::new();
    let mut stream = AsyncReadHandle::new(1);
    stream.stop();
    assert_eq!(worker.advance(&stream), WorkerAction::Finished);
}

#[test]
fn controller_carries_out_commands_and_survives_failures() {
    let mut controller = Controller::new();
    let mut stream = AsyncReadHandle::new(1);
    assert_eq!(TURN_MILLIS, 100);
    assert_eq!(
        controller.advance(&mut stream),
        ControllerAction::AwaitCommand { millis: 100 }
    );
    stream.tune(1).unwrap();
    assert_eq!(
        controller.advance(&mut stream),
        ControllerAction::Apply(AsyncReadControl::Tune(1))
    );
    assert!(controller.applied(Ok(())).is_none());
    stream.set_sample_rate(2).unwrap();
    assert_eq!(
        controller.advance(&mut stream),
        ControllerAction::Apply(AsyncReadControl::SetSampleRate(2))
    );
    let warning = controller.applied(Err(RtlsdrError::Usb(UsbError::Busy)));
    assert!(matches!(warning, Some(RtlsdrError::Usb(UsbError::Busy))));
    assert_eq!(
        controller.advance(&mut stream),
        ControllerAction::AwaitCommand { millis: 100 }
    );
    controller.timed_out();
    assert_eq!(
        controller.advance(&mut stream),
        ControllerAction::AwaitCommand { millis: 100 }
    );
    assert!(!stream.control.stop);
}

#[test]
fn controller_that_waits_takes_a_command_even_if_asked_to_stop() {
    let mut controller = Controller::new();
    let mut stream = AsyncReadHandle::new(1);
    controller.advance(&mut stream);
    stream.stop();
    stream.tune(1).unwrap();
    assert_eq!(
        controller.advance(&mut stream),
        ControllerAction::Apply(AsyncReadControl::Tune(1))
    );
    controller.applied(Ok(()));
    assert_eq!(controller.advance(&mut stream), ControllerAction::JoinReaders);
}

#[test]
fn controller_shuts_down_when_stopped() {
    let mut controller = Controller::new();
    let mut stream = AsyncReadHandle::new(1);
    stream.stop();
    assert_eq!(controller.advance(&mut stream), ControllerAction::JoinReaders);
    controller.joined();
    assert_eq!(controller.advance(&mut stream), ControllerAction::Close);
    controller.closed();
    assert_eq!(controller.advance(&mut stream), ControllerAction::Finished);
}

#[test]
fn controller_shuts_down_when_every_handle_is_gone() {
    let mut controller = Controller::new();
    let mut stream = AsyncReadHandle::new(1);
    stream.tune(1).unwrap();
    stream.drop_control_handle();
    assert_eq!(
        controller.advance(&mut stream),
        ControllerAction::Apply(AsyncReadControl::Tune(1))
    );
    controller.applied(Ok(()));
    assert_eq!(controller.advance(&mut stream), ControllerAction::JoinReaders);
    assert!(stream.control.stop);
    let mut worker = TransferReader::new();
    assert_eq!(worker.advance(&stream), WorkerAction::Finished);
}

#[test]
fn one_read_at_most_follows_a_stop() {
    // The stop comes while a command is carried out: the round is finished first.
    let mut reader = AsyncReader::new();
    let mut stream = AsyncReadHandle::new(2);
    stream.tune(1).unwrap();
    assert_eq!(
        reader.advance(&mut stream),
        ReaderAction::Apply(AsyncReadControl::Tune(1))
    );
    stream.stop();
    reader.applied(&mut stream, Ok(()));
    assert_eq!(reader.advance(&mut stream), ReaderAction::Read);
    reader.read_done(Ok(1), &[7]);
    assert_eq!(reader.advance(&mut stream), ReaderAction::Close);
    assert_eq!(stream.try_recv().unwrap().unwrap(), vec![7]);
    // The stop comes while it reads.
    let mut reader = AsyncReader::new();
    let mut stream = AsyncReadHandle::new(2);
    assert_eq!(reader.advance(&mut stream), ReaderAction::Read);
    stream.stop();
    reader.read_done(Ok(0), &[7]);
    assert_eq!(reader.advance(&mut stream), ReaderAction::Close);
}

#[test]
fn dropped_stream_ends_though_the_queue_was_full() {
    let mut reader = AsyncReader::new();
    let mut stream = AsyncReadHandle::new(1);
    stream.control_handle();
    assert_eq!(reader.advance(&mut stream), ReaderAction::Read);
    reader.read_done(Ok(1), &[1]);
    assert_eq!(reader.advance(&mut stream), ReaderAction::Read);
    reader.read_done(Ok(1), &[2]);
    assert_eq!(reader.advance(&mut stream), ReaderAction::AwaitRoom);
    stream.drop_handle();
    assert!(stream.control.stop);
    assert_eq!(reader.advance(&mut stream), ReaderAction::Close);
    reader.closed();
    assert_eq!(reader.advance(&mut stream), ReaderAction::Finished);
    stream.drop_producer();
    assert_eq!(stream.control.dropped_chunks(), 0);
    assert!(stream.control.tune(1).is_err());
    assert!(stream.control.set_gain(TunerGain::Auto).is_err());
    assert!(stream.control.set_sample_rate(1).is_err());
}

#[test]
fn dropped_multi_transfer_stream_ends() {
    let mut controller = Controller::new();
    let mut worker = TransferReader::new();
    let mut stream = AsyncReadHandle::new(1);
    stream.control_handle();
    controller.advance(&mut stream);
    worker.read_done(&mut stream, Ok(1), &[1]);
    worker.read_done(&mut stream, Ok(1), &[2]);
    stream.stop();
    assert_eq!(worker.advance(&stream), WorkerAction::Finished);
    controller.timed_out();
    assert_eq!(controller.advance(&mut stream), ControllerAction::JoinReaders);
    controller.joined();
    assert_eq!(controller.advance(&mut stream), ControllerAction::Close);
    controller.closed();
    assert_eq!(controller.advance(&mut stream), ControllerAction::Finished);
    stream.drop_producer();
    stream.drop_consumer();
    stream.drop_control_handle();
    assert_eq!(stream.control.dropped_chunks(), 1);
    assert!(stream.control.tune(1).is_err());
    assert!(stream.control.set_gain(TunerGain::Auto).is_err());
    assert!(stream.control.set_sample_rate(1).is_err());
}

#[test]
fn read_in_flight_at_the_drop_is_not_counted() {
    let mut worker = TransferReader::new();
    let mut stream = AsyncReadHandle::new(1);
    stream.control_handle();
    assert_eq!(worker.advance(&stream), WorkerAction::Read);
    stream.stop();
    worker.read_done(&mut stream, Ok(1), &[1]);
    assert_eq!(stream.control.dropped_chunks(), 0);
    assert_eq!(worker.advance(&stream), WorkerAction::Finished);
    stream.drop_producer();
    stream.drop_consumer();
    stream.drop_control_handle();
    assert_eq!(stream.control.dropped_chunks(), 0);
}

#[test]
fn every_read_is_received_waits_or_is_counted() {
    let mut first = TransferReader::new();
    let mut second = TransferReader::new();
    let mut stream = AsyncReadHandle::new(2);
    let mut received = 0;
    for i in 0..10u8 {
        first.read_done(&mut stream, Ok(1), &[i]);
        second.read_done(&mut stream, Ok(1), &[100 + i]);
        if i % 3 == 0 && stream.try_recv().is_some() {
            received += 1;
        }
    }
    let mut waiting = 0;
    while stream.try_recv().is_some() {
        waiting += 1;
    }
    assert_eq!((received, waiting), (4, 1));
    assert_eq!(stream.dropped_chunks(), 15);
    assert_eq!(received + waiting + stream.dropped_chunks(), 20);
}

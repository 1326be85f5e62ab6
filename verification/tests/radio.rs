use rtlsdr::config::StreamConfig;
use rtlsdr::devices::{BusDevice, Probe, UsbIds};
use rtlsdr::error::{RtlsdrError, UsbError};
use rtlsdr::multi::ControllerAction;
use rtlsdr::reader::ReaderAction;
use rtlsdr::stream::AsyncReadControl;
use rtlsdr::{
    DeviceDescriptors, DeviceId, DirectSampleMode, Driver, RtlSdr, Sensor, SensorValue, TunerGain,
    TunerId, DEFAULT_ASYNC_BUF_NUMBER, DEFAULT_BUF_LENGTH,
};

/// A driver that writes down what it is asked for.
#[derive(Debug)]
struct Recorder {
    device: String,
    ready: bool,
    calls: Vec<String>,
    fail: bool,
}

impl Recorder {
    fn note(&mut self, call: String) -> Result<(), RtlsdrError> {
        self.calls.push(call);
        if self.fail {
            Err(RtlsdrError::Usb(UsbError::Busy))
        } else {
            Ok(())
        }
    }
}

impl Driver for Recorder {
    type Device = String;

    fn r820t_tuner_id() -> &'static str {
        "tuner one"
    }

    fn r828d_tuner_id() -> &'static str {
        "tuner two"
    }

    fn open_device(device_id: DeviceId<'_>) -> Result<String, RtlsdrError> {
        match device_id {
            DeviceId::Index(9) => Err(RtlsdrError::Usb(UsbError::NotFound)),
            other => Ok(format!("{:?}", other)),
        }
    }

    fn new(device: String) -> Self {
        Recorder { device, ready: false, calls: Vec::new(), fail: false }
    }

    fn init(mut self) -> Result<Self, RtlsdrError> {
        if self.device == "Fd(13)" {
            return Err(RtlsdrError::message("no tuner"));
        }
        self.ready = true;
        Ok(self)
    }

    fn deinit_baseband(&mut self) -> Result<(), RtlsdrError> {
        self.note("deinit_baseband".to_string())
    }

    fn reset_buffer(&self) -> Result<(), RtlsdrError> {
        Err(RtlsdrError::message("reset_buffer"))
    }

    fn read_sync(&self, buf: &mut [u8]) -> Result<usize, RtlsdrError> {
        buf[0] = 42;
        Ok(1)
    }

    fn get_center_freq(&self) -> u32 {
        1
    }

    fn set_center_freq(&mut self, freq: u32) -> Result<(), RtlsdrError> {
        self.note(format!("set_center_freq {}", freq))
    }

    fn get_tuner_gains(&self) -> Result<Vec<i32>, RtlsdrError> {
        Ok(vec![0, 9, 14])
    }

    fn read_tuner_gain(&self) -> Result<i32, RtlsdrError> {
        if self.fail {
            Err(RtlsdrError::Usb(UsbError::Pipe))
        } else {
            Ok(77)
        }
    }

    fn set_tuner_gain(&mut self, gain: TunerGain) -> Result<(), RtlsdrError> {
        self.note(format!("set_tuner_gain {:?}", gain))
    }

    fn get_freq_correction(&self) -> i32 {
        -3
    }

    fn set_freq_correction(&mut self, ppm: i32) -> Result<(), RtlsdrError> {
        self.note(format!("set_freq_correction {}", ppm))
    }

    fn get_sample_rate(&self) -> u32 {
        2
    }

    fn set_sample_rate(&mut self, rate: u32) -> Result<(), RtlsdrError> {
        self.note(format!("set_sample_rate {}", rate))
    }

    fn set_tuner_bandwidth(&mut self, bw: u32) -> Result<(), RtlsdrError> {
        self.note(format!("set_tuner_bandwidth {}", bw))
    }

    fn set_testmode(&mut self, on: bool) -> Result<(), RtlsdrError> {
        self.note(format!("set_testmode {}", on))
    }

    fn set_direct_sampling(&mut self, mode: DirectSampleMode) -> Result<(), RtlsdrError> {
        self.note(format!("set_direct_sampling {:?}", mode))
    }

    fn set_bias_tee(&self, on: bool) -> Result<(), RtlsdrError> {
        if on {
            Ok(())
        } else {
            Err(RtlsdrError::message("set_bias_tee"))
        }
    }

    fn get_tuner_id(&self) -> Result<&str, RtlsdrError> {
        if self.fail {
            Err(RtlsdrError::Usb(UsbError::Io))
        } else {
            Ok("tuner one")
        }
    }
}

fn open() -> RtlSdr<Recorder> {
    RtlSdr::open(DeviceId::Index(0)).unwrap()
}

fn radio(product_id: u16, opened: bool) -> BusDevice {
    let ids = UsbIds { vendor_id: 0x0bda, product_id };
    let probe = if opened {
        Some(Probe {
            ids,
            manufacturer: None,
            product: None,
            serial: Some(format!("serial {}", product_id)),
        })
    } else {
        None
    };
    BusDevice { ids: Some(ids), known: true, probe }
}

fn bus() -> Result<DeviceDescriptors, RtlsdrError> {
    Ok(DeviceDescriptors::new(vec![radio(1, false), radio(2, true), radio(3, true)]))
}

fn no_bus() -> Result<DeviceDescriptors, RtlsdrError> {
    Err(RtlsdrError::Usb(UsbError::NotSupported))
}

#[test]
fn open_chooses_the_device_and_brings_it_up() {
    let sdr: RtlSdr<Recorder> = RtlSdr::open_with_index(3).unwrap();
    assert_eq!(sdr.sdr.device, "Index(3)");
    assert!(sdr.sdr.ready);
    let sdr: RtlSdr<Recorder> = RtlSdr::open_with_serial("abc").unwrap();
    assert_eq!(sdr.sdr.device, "Serial(\"abc\")");
    let sdr: RtlSdr<Recorder> = RtlSdr::open_with_fd(5).unwrap();
    assert_eq!(sdr.sdr.device, "Fd(5)");
}

#[test]
fn open_fails_with_the_first_step_that_fails() {
    assert!(matches!(
        RtlSdr::<Recorder>::open_with_index(9),
        Err(RtlsdrError::Usb(UsbError::NotFound))
    ));
    match RtlSdr::<Recorder>::open_with_fd(13) {
        Err(RtlsdrError::RtlsdrErr(text)) => assert_eq!(text, "no tuner"),
        other => panic!("{:?}", other),
    }
}

#[test]
fn settings_go_to_the_driver() {
    let mut sdr = open();
    sdr.set_center_freq(1).unwrap();
    sdr.set_tuner_gain(TunerGain::Auto).unwrap();
    sdr.set_freq_correction(-2).unwrap();
    sdr.set_sample_rate(3).unwrap();
    sdr.set_tuner_bandwidth(4).unwrap();
    sdr.set_testmode(true).unwrap();
    sdr.set_direct_sampling(DirectSampleMode::OnSwap).unwrap();
    sdr.close().unwrap();
    assert_eq!(
        sdr.sdr.calls,
        vec![
            "set_center_freq 1",
            "set_tuner_gain Auto",
            "set_freq_correction -2",
            "set_sample_rate 3",
            "set_tuner_bandwidth 4",
            "set_testmode true",
            "set_direct_sampling OnSwap",
            "deinit_baseband",
        ]
    );
}

#[test]
fn readings_come_from_the_driver() {
    let sdr = open();
    assert_eq!(sdr.get_center_freq(), 1);
    assert_eq!(sdr.get_sample_rate(), 2);
    assert_eq!(sdr.get_freq_correction(), -3);
    assert_eq!(sdr.get_tuner_gains().unwrap(), vec![0, 9, 14]);
    assert_eq!(sdr.read_tuner_gain().unwrap(), 77);
    assert_eq!(sdr.get_tuner_id().unwrap(), "tuner one");
    assert!(sdr.reset_buffer().is_err());
    assert!(sdr.set_bias_tee(true).is_ok());
    assert!(sdr.set_bias_tee(false).is_err());
    let mut buf = [0u8; 4];
    assert_eq!(sdr.read_sync(&mut buf).unwrap(), 1);
    assert_eq!(buf, [42, 0, 0, 0]);
    assert_eq!(TunerId::r820t::<Recorder>(), "tuner one");
    assert_eq!(TunerId::r828d::<Recorder>(), "tuner two");
}

#[test]
fn commands_go_to_the_driver() {
    let mut sdr = open();
    sdr.apply(AsyncReadControl::Tune(10)).unwrap();
    sdr.apply(AsyncReadControl::SetGain(TunerGain::Manual(20))).unwrap();
    sdr.apply(AsyncReadControl::SetSampleRate(30)).unwrap();
    sdr.sdr.fail = true;
    assert!(matches!(
        sdr.apply(AsyncReadControl::Tune(11)),
        Err(RtlsdrError::Usb(UsbError::Busy))
    ));
    assert_eq!(
        sdr.sdr.calls,
        vec![
            "set_center_freq 10",
            "set_tuner_gain Manual(20)",
            "set_sample_rate 30",
            "set_center_freq 11",
        ]
    );
}

#[test]
fn sensors() {
    let mut sdr = open();
    let all = sdr.list_sensors().unwrap();
    assert_eq!(
        all,
        vec![Sensor::TunerType, Sensor::TunerGainDb, Sensor::FrequencyCorrectionPpm]
    );
    assert_eq!(
        sdr.read_sensor(Sensor::TunerType).unwrap(),
        SensorValue::TunerType("tuner one".to_string())
    );
    assert_eq!(sdr.read_sensor(Sensor::TunerGainDb).unwrap(), SensorValue::TunerGainDb(77));
    assert_eq!(
        sdr.read_sensor(Sensor::FrequencyCorrectionPpm).unwrap(),
        SensorValue::FrequencyCorrectionPpm(-3)
    );
    sdr.sdr.fail = true;
    assert!(matches!(
        sdr.read_sensor(Sensor::TunerType),
        Err(RtlsdrError::Usb(UsbError::Io))
    ));
    assert!(matches!(
        sdr.read_sensor(Sensor::TunerGainDb),
        Err(RtlsdrError::Usb(UsbError::Pipe))
    ));
    assert_eq!(
        sdr.read_sensor(Sensor::FrequencyCorrectionPpm).unwrap(),
        SensorValue::FrequencyCorrectionPpm(-3)
    );
}

#[test]
fn device_lists() {
    assert_eq!(RtlSdr::<Recorder>::get_device_count(bus()).unwrap(), 2);
    let found = RtlSdr::<Recorder>::list_devices(bus()).unwrap();
    assert_eq!(found.len(), 2);
    assert_eq!((found[0].index, found[0].product_id), (1, 2));
    assert_eq!((found[1].index, found[1].product_id), (2, 3));
    assert_eq!(RtlSdr::<Recorder>::get_device_info(bus(), 2).unwrap().product_id, 3);
    assert_eq!(RtlSdr::<Recorder>::get_device_serial(bus(), 1).unwrap(), "serial 2");
    match RtlSdr::<Recorder>::get_device_serial(bus(), 0) {
        Err(RtlsdrError::RtlsdrErr(text)) => assert_eq!(text, "No device found at index 0"),
        other => panic!("{:?}", other),
    }
    assert!(RtlSdr::<Recorder>::get_device_info(bus(), 3).is_err());
}

#[test]
fn bus_that_cannot_be_listed() {
    assert!(RtlSdr::<Recorder>::get_device_count(no_bus()).is_err());
    assert!(RtlSdr::<Recorder>::list_devices(no_bus()).is_err());
    assert!(RtlSdr::<Recorder>::get_device_info(no_bus(), 1).is_err());
    assert!(RtlSdr::<Recorder>::get_device_serial(no_bus(), 1).is_err());
    assert!(matches!(
        RtlSdr::<Recorder>::open_first_available(no_bus()),
        Err(RtlsdrError::Usb(UsbError::NotSupported))
    ));
}

#[test]
fn first_available_device_is_opened_by_its_index() {
    let sdr: RtlSdr<Recorder> = RtlSdr::open_first_available(bus()).unwrap();
    assert_eq!(sdr.sdr.device, "Index(1)");
    let none = Ok(DeviceDescriptors::new(vec![radio(1, false)]));
    match RtlSdr::<Recorder>::open_first_available(none) {
        Err(RtlsdrError::RtlsdrErr(text)) => assert_eq!(text, "No RTL-SDR devices found"),
        other => panic!("{:?}", other),
    }
}

#[test]
fn stream_defaults() {
    assert_eq!(DEFAULT_BUF_LENGTH, 262_144);
    assert_eq!(DEFAULT_ASYNC_BUF_NUMBER, 15);
    assert_eq!(
        StreamConfig::new(0, 0).unwrap(),
        StreamConfig { buf_num: 15, buf_len: 262_144 }
    );
    assert_eq!(StreamConfig::new(3, 512).unwrap(), StreamConfig { buf_num: 3, buf_len: 512 });
}

#[test]
fn buffer_length_must_be_whole_packets() {
    for len in [1usize, 511, 513, 1000] {
        let expected = format!("Invalid async buffer length {} (must be multiple of 512)", len);
        match open().into_async_reader(4, len) {
            Err(RtlsdrError::RtlsdrErr(text)) => assert_eq!(text, expected),
            other => panic!("{:?}", other),
        }
        match open().into_multi_transfer_reader(4, len) {
            Err(RtlsdrError::RtlsdrErr(text)) => assert_eq!(text, expected),
            other => panic!("{:?}", other),
        }
    }
}

#[test]
fn single_reader_session() {
    let mut session = open().into_async_reader(2, 1024).unwrap();
    assert_eq!(session.read_len, 1024);
    assert_eq!(session.sdr.sdr.device, "Index(0)");
    for _ in 0..2 {
        assert!(session.handle.offer(Ok(vec![1])).is_ok());
    }
    assert!(session.handle.offer(Ok(vec![1])).is_err());
    assert_eq!(session.reader.advance(&mut session.handle), ReaderAction::Read);
    let mut session = open().into_async_reader(0, 0).unwrap();
    assert_eq!(session.read_len, 262_144);
    for _ in 0..15 {
        assert!(session.handle.offer(Ok(vec![1])).is_ok());
    }
    assert!(session.handle.offer(Ok(vec![1])).is_err());
}

#[test]
fn multi_transfer_session() {
    let mut session = open().into_multi_transfer_reader(2, 512).unwrap();
    assert_eq!((session.buf_num, session.buf_len), (2, 512));
    for _ in 0..8 {
        assert!(session.handle.offer(Ok(vec![1])).is_ok());
    }
    assert!(session.handle.offer(Ok(vec![1])).is_err());
    assert_eq!(
        session.controller.advance(&mut session.handle),
        ControllerAction::AwaitCommand { millis: 100 }
    );
    let session = open().into_multi_transfer_reader(0, 0).unwrap();
    assert_eq!((session.buf_num, session.buf_len), (15, 262_144));
}

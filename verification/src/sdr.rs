//! A software-defined radio: one device, through its driver.

use crate::config::StreamConfig;
use crate::devices::{DescriptorView, DeviceDescriptor, DeviceDescriptors};
use crate::driver::Driver;
use crate::error::{ErrorView, RtlsdrError};
use crate::multi::{Controller, ControllerEvent, ControllerPhase, ControllerRun};
use crate::reader::{AsyncReader, ReaderView};
use crate::settings::{
    DeviceId, DirectSampleMode, Sensor, SensorValue, SensorValueView, TunerGain,
};
use crate::stream::{AsyncReadControl, AsyncReadHandle, ChunkView, StreamView};
use vstd::prelude::*;

verus! {

#[derive(Debug)]
pub struct RtlSdr<D> {
    pub sdr: D,
}

/// `r` is what bringing up the driver `sdr` can return.
pub open spec fn initialised<D: Driver>(sdr: D, r: Result<RtlSdr<D>, RtlsdrError>) -> bool {
    match r {
        Ok(radio) => call_ensures(D::init, (sdr,), Ok::<D, RtlsdrError>(radio.sdr)),
        Err(e) => call_ensures(D::init, (sdr,), Err::<D, RtlsdrError>(e)),
    }
}

/// `r` is what becomes of a device that was opened: it gets a driver, which is brought up.
pub open spec fn brought_up<D: Driver>(
    device: D::Device,
    r: Result<RtlSdr<D>, RtlsdrError>,
) -> bool {
    exists|sdr: D| #[trigger] call_ensures(D::new, (device,), sdr) && initialised(sdr, r)
}

/// `r` is what opening the device `device_id` can return: the device is opened, gets a driver and
/// is brought up, and the first of the steps that fails ends it.
pub open spec fn opens<D: Driver>(
    device_id: DeviceId<'_>,
    r: Result<RtlSdr<D>, RtlsdrError>,
) -> bool {
    exists|opened: Result<D::Device, RtlsdrError>| #[trigger]
        call_ensures(D::open_device, (device_id,), opened) && match opened {
            Err(e) => r == Err::<RtlSdr<D>, RtlsdrError>(e),
            Ok(device) => brought_up::<D>(device, r),
        }
}

/// Whether a driver never reports that it read more than the buffer holds.
pub open spec fn reads_within_buffer<D: Driver>() -> bool {
    forall|sdr: &D, buf: &mut [u8], r: Result<usize, RtlsdrError>| #[trigger]
        call_ensures(D::read_sync, (sdr, buf), r) ==> (r matches Ok(n) ==> n <= buf@.len())
}

/// What is reported when there is no device to open.
pub open spec fn no_devices() -> ErrorView {
    ErrorView::Message("No RTL-SDR devices found"@)
}

impl<D: Driver> RtlSdr<D> {
    /// Opens a device and brings it up.
    pub fn open(device_id: DeviceId<'_>) -> (r: Result<RtlSdr<D>, RtlsdrError>)
        ensures
            opens::<D>(device_id, r),
    {
        match D::open_device(device_id) {
            Err(e) => Err(e),
            Ok(device) => RtlSdr::bring_up(device),
        }
    }

    fn bring_up(device: D::Device) -> (r: Result<RtlSdr<D>, RtlsdrError>)
        ensures
            brought_up::<D>(device, r),
    {
        let sdr = D::new(device);
        match sdr.init() {
            Ok(sdr) => Ok(RtlSdr { sdr }),
            Err(e) => Err(e),
        }
    }

    pub fn open_with_serial(serial: &str) -> (r: Result<RtlSdr<D>, RtlsdrError>)
        ensures
            opens::<D>(DeviceId::Serial(serial), r),
    {
        RtlSdr::open(DeviceId::Serial(serial))
    }

    /// Convenience function to open device by index
    pub fn open_with_index(index: usize) -> (r: Result<RtlSdr<D>, RtlsdrError>)
        ensures
            opens::<D>(DeviceId::Index(index), r),
    {
        RtlSdr::open(DeviceId::Index(index))
    }

    /// Convenience function to open device by file descriptor
    pub fn open_with_fd(fd: i32) -> (r: Result<RtlSdr<D>, RtlsdrError>)
        ensures
            opens::<D>(DeviceId::Fd(fd), r),
    {
        RtlSdr::open(DeviceId::Fd(fd))
    }

    /// Shuts the device down.
    pub fn close(&mut self) -> (r: Result<(), RtlsdrError>)
        ensures
            exists|m: &mut D|
                *m == old(self).sdr && *final(m) == final(self).sdr && #[trigger] call_ensures(
                    D::deinit_baseband,
                    (m,),
                    r,
                ),
    {
        self.sdr.deinit_baseband()
    }

    /// Empties the device's buffer.
    pub fn reset_buffer(&self) -> (r: Result<(), RtlsdrError>)
        ensures
            call_ensures(D::reset_buffer, (&self.sdr,), r),
    {
        self.sdr.reset_buffer()
    }

    /// Reads samples, and returns how many bytes were read. With a driver that never reports more
    /// than the buffer holds, that many bytes lie in the buffer; with one that keeps the length of
    /// the buffer, so does this.
    pub fn read_sync(&self, buf: &mut [u8]) -> (r: Result<usize, RtlsdrError>)
        ensures
            exists|m: &mut [u8]|
                m@ == old(buf)@ && final(m)@ == final(buf)@ && #[trigger] call_ensures(
                    D::read_sync,
                    (&self.sdr, m),
                    r,
                ),
            reads_within_buffer::<D>() && r is Ok ==> r->Ok_0 <= old(buf)@.len(),
            (forall|sdr: &D, m: &mut [u8], n: Result<usize, RtlsdrError>| #[trigger]
                call_ensures(D::read_sync, (sdr, m), n) ==> final(m)@.len() == m@.len())
                ==> final(buf)@.len() == old(buf)@.len(),
    {
        self.sdr.read_sync(buf)
    }

    pub fn get_center_freq(&self) -> (r: u32)
        ensures
            call_ensures(D::get_center_freq, (&self.sdr,), r),
    {
        self.sdr.get_center_freq()
    }

    pub fn set_center_freq(&mut self, freq: u32) -> (r: Result<(), RtlsdrError>)
        ensures
            exists|m: &mut D|
                *m == old(self).sdr && *final(m) == final(self).sdr && #[trigger] call_ensures(
                    D::set_center_freq,
                    (m, freq),
                    r,
                ),
    {
        self.sdr.set_center_freq(freq)
    }

    pub fn get_tuner_gains(&self) -> (r: Result<Vec<i32>, RtlsdrError>)
        ensures
            call_ensures(D::get_tuner_gains, (&self.sdr,), r),
    {
        self.sdr.get_tuner_gains()
    }

    pub fn read_tuner_gain(&self) -> (r: Result<i32, RtlsdrError>)
        ensures
            call_ensures(D::read_tuner_gain, (&self.sdr,), r),
    {
        self.sdr.read_tuner_gain()
    }

    pub fn set_tuner_gain(&mut self, gain: TunerGain) -> (r: Result<(), RtlsdrError>)
        ensures
            exists|m: &mut D|
                *m == old(self).sdr && *final(m) == final(self).sdr && #[trigger] call_ensures(
                    D::set_tuner_gain,
                    (m, gain),
                    r,
                ),
    {
        self.sdr.set_tuner_gain(gain)
    }

    pub fn get_freq_correction(&self) -> (r: i32)
        ensures
            call_ensures(D::get_freq_correction, (&self.sdr,), r),
    {
        self.sdr.get_freq_correction()
    }

    pub fn set_freq_correction(&mut self, ppm: i32) -> (r: Result<(), RtlsdrError>)
        ensures
            exists|m: &mut D|
                *m == old(self).sdr && *final(m) == final(self).sdr && #[trigger] call_ensures(
                    D::set_freq_correction,
                    (m, ppm),
                    r,
                ),
    {
        self.sdr.set_freq_correction(ppm)
    }

    pub fn get_sample_rate(&self) -> (r: u32)
        ensures
            call_ensures(D::get_sample_rate, (&self.sdr,), r),
    {
        self.sdr.get_sample_rate()
    }

    pub fn set_sample_rate(&mut self, rate: u32) -> (r: Result<(), RtlsdrError>)
        ensures
            exists|m: &mut D|
                *m == old(self).sdr && *final(m) == final(self).sdr && #[trigger] call_ensures(
                    D::set_sample_rate,
                    (m, rate),
                    r,
                ),
    {
        self.sdr.set_sample_rate(rate)
    }

    pub fn set_tuner_bandwidth(&mut self, bw: u32) -> (r: Result<(), RtlsdrError>)
        ensures
            exists|m: &mut D|
                *m == old(self).sdr && *final(m) == final(self).sdr && #[trigger] call_ensures(
                    D::set_tuner_bandwidth,
                    (m, bw),
                    r,
                ),
    {
        self.sdr.set_tuner_bandwidth(bw)
    }

    pub fn set_testmode(&mut self, on: bool) -> (r: Result<(), RtlsdrError>)
        ensures
            exists|m: &mut D|
                *m == old(self).sdr && *final(m) == final(self).sdr && #[trigger] call_ensures(
                    D::set_testmode,
                    (m, on),
                    r,
                ),
    {
        self.sdr.set_testmode(on)
    }

    pub fn set_direct_sampling(&mut self, mode: DirectSampleMode) -> (r: Result<(), RtlsdrError>)
        ensures
            exists|m: &mut D|
                *m == old(self).sdr && *final(m) == final(self).sdr && #[trigger] call_ensures(
                    D::set_direct_sampling,
                    (m, mode),
                    r,
                ),
    {
        self.sdr.set_direct_sampling(mode)
    }

    pub fn set_bias_tee(&self, on: bool) -> (r: Result<(), RtlsdrError>)
        ensures
            call_ensures(D::set_bias_tee, (&self.sdr, on), r),
    {
        self.sdr.set_bias_tee(on)
    }

    pub fn get_tuner_id(&self) -> (r: Result<&str, RtlsdrError>)
        ensures
            call_ensures(D::get_tuner_id, (&self.sdr,), r),
    {
        self.sdr.get_tuner_id()
    }

    /// Carries out a command that the consumer of a stream sent.
    pub fn apply(&mut self, command: AsyncReadControl) -> (r: Result<(), RtlsdrError>)
        ensures
            exists|m: &mut D|
                #![trigger call_ensures(D::set_center_freq, (m, command->Tune_0), r)]
                #![trigger call_ensures(D::set_tuner_gain, (m, command->SetGain_0), r)]
                #![trigger call_ensures(D::set_sample_rate, (m, command->SetSampleRate_0), r)]
                {
                    &&& *m == old(self).sdr
                    &&& *final(m) == final(self).sdr
                    &&& match command {
                        AsyncReadControl::Tune(freq) => call_ensures(
                            D::set_center_freq,
                            (m, freq),
                            r,
                        ),
                        AsyncReadControl::SetGain(gain) => call_ensures(
                            D::set_tuner_gain,
                            (m, gain),
                            r,
                        ),
                        AsyncReadControl::SetSampleRate(rate) => call_ensures(
                            D::set_sample_rate,
                            (m, rate),
                            r,
                        ),
                    }
                },
    {
        match command {
            AsyncReadControl::Tune(freq) => self.set_center_freq(freq),
            AsyncReadControl::SetGain(gain) => self.set_tuner_gain(gain),
            AsyncReadControl::SetSampleRate(rate) => self.set_sample_rate(rate),
        }
    }

    /// The sensors that can be read: all of them.
    pub fn list_sensors(&self) -> (r: Result<Vec<Sensor>, RtlsdrError>)
        ensures
            r matches Ok(sensors) && sensors@ == seq![
                Sensor::TunerType,
                Sensor::TunerGainDb,
                Sensor::FrequencyCorrectionPpm,
            ] && forall|sensor: Sensor| #[trigger] sensors@.contains(sensor),
    {
        let sensors = vec![
            Sensor::TunerType,
            Sensor::TunerGainDb,
            Sensor::FrequencyCorrectionPpm,
        ];
        proof {
            assert forall|sensor: Sensor| #[trigger] sensors@.contains(sensor) by {
                assert(sensors@[0] == Sensor::TunerType);
                assert(sensors@[1] == Sensor::TunerGainDb);
                assert(sensors@[2] == Sensor::FrequencyCorrectionPpm);
            }
        }
        Ok(sensors)
    }

    /// Reads a sensor.
    pub fn read_sensor(&self, sensor: Sensor) -> (r: Result<SensorValue, RtlsdrError>)
        ensures
            match sensor {
                Sensor::TunerType => exists|id: Result<&str, RtlsdrError>| #[trigger]
                    call_ensures(D::get_tuner_id, (&self.sdr,), id)
                        && crate::settings::is_tuner_type(id, r),
                Sensor::TunerGainDb => exists|gain: Result<i32, RtlsdrError>| #[trigger]
                    call_ensures(D::read_tuner_gain, (&self.sdr,), gain)
                        && crate::settings::is_tuner_gain(gain, r),
                Sensor::FrequencyCorrectionPpm => exists|ppm: i32| #[trigger]
                    call_ensures(D::get_freq_correction, (&self.sdr,), ppm) && (r matches Ok(value)
                        && value@ == SensorValueView::FrequencyCorrectionPpm(ppm)),
            },
            r matches Ok(value) ==> value@.sensor() == sensor,
    {
        match sensor {
            Sensor::TunerType => SensorValue::tuner_type(self.get_tuner_id()),
            Sensor::TunerGainDb => SensorValue::tuner_gain(self.sdr.read_tuner_gain()),
            Sensor::FrequencyCorrectionPpm => Ok(
                SensorValue::FrequencyCorrectionPpm(self.get_freq_correction()),
            ),
        }
    }

    /// Get the number of available RTL-SDR devices
    pub fn get_device_count(bus: Result<DeviceDescriptors, RtlsdrError>) -> (r: Result<
        usize,
        RtlsdrError,
    >)
        ensures
            match bus {
                Ok(descriptors) => r matches Ok(n) && n == crate::devices::descriptors(
                    descriptors@,
                ).len(),
                Err(e) => r == Err::<usize, RtlsdrError>(e),
            },
    {
        match bus {
            Ok(descriptors) => {
                let found = descriptors.iter();
                Ok(found.len())
            },
            Err(e) => Err(e),
        }
    }

    /// List all available RTL-SDR devices
    pub fn list_devices(bus: Result<DeviceDescriptors, RtlsdrError>) -> (r: Result<
        Vec<DeviceDescriptor>,
        RtlsdrError,
    >)
        ensures
            match bus {
                Ok(descriptors) => r matches Ok(found) && crate::devices::descriptor_views(found@)
                    == crate::devices::descriptors(descriptors@),
                Err(e) => r == Err::<Vec<DeviceDescriptor>, RtlsdrError>(e),
            },
    {
        match bus {
            Ok(descriptors) => Ok(descriptors.iter()),
            Err(e) => Err(e),
        }
    }

    /// Open the first available RTL-SDR device
    pub fn open_first_available(bus: Result<DeviceDescriptors, RtlsdrError>) -> (r: Result<
        RtlSdr<D>,
        RtlsdrError,
    >)
        ensures
            match bus {
                Ok(descriptors) => {
                    let found = crate::devices::descriptors(descriptors@);
                    if found.len() == 0 {
                        r matches Err(e) && e@ == no_devices()
                    } else {
                        0 <= found[0].index <= usize::MAX && opens::<D>(
                            DeviceId::Index(found[0].index as usize),
                            r,
                        )
                    }
                },
                Err(e) => r == Err::<RtlSdr<D>, RtlsdrError>(e),
            },
    {
        match bus {
            Ok(descriptors) => {
                let found = descriptors.iter();
                let ghost views = crate::devices::descriptor_views(found@);
                if found.len() == 0 {
                    assert(views.len() == 0);
                    Err(RtlsdrError::message("No RTL-SDR devices found"))
                } else {
                    assert(views[0] == found[0]@);
                    RtlSdr::open_with_index(found[0].index)
                }
            },
            Err(e) => Err(e),
        }
    }

    /// Get device information for a specific device by index
    pub fn get_device_info(bus: Result<DeviceDescriptors, RtlsdrError>, index: usize) -> (r: Result<
        DeviceDescriptor,
        RtlsdrError,
    >)
        ensures
            match bus {
                Ok(descriptors) => crate::devices::is_info(
                    crate::devices::descriptors(descriptors@),
                    index,
                    crate::devices::info_view(r),
                ),
                Err(e) => r == Err::<DeviceDescriptor, RtlsdrError>(e),
            },
    {
        match bus {
            Ok(descriptors) => descriptors.info(index),
            Err(e) => Err(e),
        }
    }

    /// Get the serial number for a specific device by index
    pub fn get_device_serial(bus: Result<DeviceDescriptors, RtlsdrError>, index: usize) -> (r:
        Result<String, RtlsdrError>)
        ensures
            match bus {
                Ok(descriptors) => exists|info: Result<DescriptorView, ErrorView>| #[trigger]
                    crate::devices::is_info(
                        crate::devices::descriptors(descriptors@),
                        index,
                        info,
                    ) && match (info, r) {
                        (Ok(d), Ok(serial)) => serial@ == d.serial,
                        (Err(e), Err(error)) => error@ == e,
                        _ => false,
                    },
                Err(e) => r == Err::<String, RtlsdrError>(e),
            },
    {
        let info = RtlSdr::<D>::get_device_info(bus, index);
        match info {
            Ok(d) => Ok(d.serial),
            Err(e) => Err(e),
        }
    }

    /// Prepares a stream that a single thread feeds, one read at a time.
    ///
    /// Data is produced continuously into a bounded queue until the stream is stopped or dropped.
    /// Zero stands for the default number and length of the buffers.
    pub fn into_async_reader(self, buf_num: usize, buf_len: usize) -> (r: Result<
        AsyncReadSession<D>,
        RtlsdrError,
    >)
        ensures
            ({
                let config = StreamConfig::effective(buf_num, buf_len);
                match r {
                    Ok(session) => {
                        &&& config.is_valid()
                        &&& session.sdr == self
                        &&& session.handle@ == StreamView::fresh(config.buf_num)
                        &&& session.handle@.wf()
                        &&& session.reader@ == ReaderView::fresh()
                        &&& session.reader@.wf()
                        &&& session.read_len == config.buf_len
                    },
                    Err(e) => !config.is_valid() && e@ == crate::config::invalid_length(
                        config.buf_len,
                    ),
                }
            }),
    {
        match StreamConfig::new(buf_num, buf_len) {
            Ok(config) => Ok(
                AsyncReadSession {
                    sdr: self,
                    handle: AsyncReadHandle::new(config.buf_num),
                    reader: AsyncReader::new(),
                    read_len: config.buf_len,
                },
            ),
            Err(e) => Err(e),
        }
    }

    /// Prepares a stream that several threads feed at once.
    ///
    /// Each of the reading threads, as many as there are buffers, keeps one bulk transfer in
    /// flight. The queue has room for four chunks per buffer, which gives the consumer headroom.
    /// Zero stands for the default number and length of the buffers.
    pub fn into_multi_transfer_reader(self, buf_num: usize, buf_len: usize) -> (r: Result<
        MultiTransferSession<D>,
        RtlsdrError,
    >)
        requires
            StreamConfig::effective(buf_num, buf_len).is_valid() ==> StreamConfig::effective(
                buf_num,
                buf_len,
            ).buf_num * 4 <= usize::MAX,
        ensures
            ({
                let config = StreamConfig::effective(buf_num, buf_len);
                match r {
                    Ok(session) => {
                        &&& config.is_valid()
                        &&& session.sdr == self
                        &&& session.handle@ == StreamView::fresh((config.buf_num * 4) as usize)
                        &&& session.handle@.wf()
                        &&& session.controller.phase == ControllerPhase::Checking
                        &&& session.buf_num == config.buf_num
                        &&& session.buf_len == config.buf_len
                    },
                    Err(e) => !config.is_valid() && e@ == crate::config::invalid_length(
                        config.buf_len,
                    ),
                }
            }),
    {
        match StreamConfig::new(buf_num, buf_len) {
            Ok(config) => Ok(
                MultiTransferSession {
                    sdr: self,
                    handle: AsyncReadHandle::new(config.buf_num * 4),
                    controller: Controller::new(),
                    buf_num: config.buf_num,
                    buf_len: config.buf_len,
                },
            ),
            Err(e) => Err(e),
        }
    }
}

/// A stream that a single thread feeds: the device, the state that the thread shares with the
/// consumer, the thread's loop, and the length of its buffer.
#[derive(Debug)]
pub struct AsyncReadSession<D> {
    pub sdr: RtlSdr<D>,
    pub handle: AsyncReadHandle,
    pub reader: AsyncReader,
    pub read_len: usize,
}

/// A stream that several threads feed: the device, the state that the threads share with the
/// consumer, the loop of the controlling thread, and the number and length of the buffers.
#[derive(Debug)]
pub struct MultiTransferSession<D> {
    pub sdr: RtlSdr<D>,
    pub handle: AsyncReadHandle,
    pub controller: Controller,
    pub buf_num: usize,
    pub buf_len: usize,
}

/// Opening a device takes three steps, and succeeds only if each of them does: the device that was
/// asked for is opened, that device gets a driver, and that driver is brought up and is what the
/// radio works through. What fails is an attempt to open that device, or to bring up its driver,
/// and the error is the one that was met there.
pub proof fn law_open_is_opened_and_brought_up<D: Driver>(
    device_id: DeviceId<'_>,
    r: Result<RtlSdr<D>, RtlsdrError>,
)
    requires
        opens::<D>(device_id, r),
    ensures
        match r {
            Ok(radio) => exists|device: D::Device, sdr: D|
                {
                    &&& call_ensures(
                        D::open_device,
                        (device_id,),
                        Ok::<D::Device, RtlsdrError>(device),
                    )
                    &&& #[trigger] call_ensures(D::new, (device,), sdr)
                    &&& call_ensures(D::init, (sdr,), Ok::<D, RtlsdrError>(radio.sdr))
                },
            Err(e) => {
                ||| call_ensures(D::open_device, (device_id,), Err::<D::Device, RtlsdrError>(e))
                ||| exists|device: D::Device, sdr: D|
                    {
                        &&& call_ensures(
                            D::open_device,
                            (device_id,),
                            Ok::<D::Device, RtlsdrError>(device),
                        )
                        &&& #[trigger] call_ensures(D::new, (device,), sdr)
                        &&& call_ensures(D::init, (sdr,), Err::<D, RtlsdrError>(e))
                    }
            },
        },
{
    let opened = choose|opened: Result<D::Device, RtlsdrError>| #[trigger]
        call_ensures(D::open_device, (device_id,), opened) && match opened {
            Err(e) => r == Err::<RtlSdr<D>, RtlsdrError>(e),
            Ok(device) => brought_up::<D>(device, r),
        };
    if let Ok(device) = opened {
        let sdr = choose|sdr: D| #[trigger]
            call_ensures(D::new, (device,), sdr) && initialised(sdr, r);
        assert(call_ensures(D::new, (device,), sdr));
    }
}

/// A stream that one thread reads is set up as asked for: exactly if the length is a multiple of
/// 512, with room for one chunk per buffer and a buffer of that length; zero buffers stand for 15,
/// and a length of zero for 262144. The stream is empty and runs, and its reader is at the start of
/// a round.
pub proof fn law_async_reader_is_set_up_as_asked<D: Driver>(
    sdr: RtlSdr<D>,
    buf_num: usize,
    buf_len: usize,
    r: Result<AsyncReadSession<D>, RtlsdrError>,
)
    requires
        call_ensures(RtlSdr::<D>::into_async_reader, (sdr, buf_num, buf_len), r),
    ensures
        r is Ok <==> buf_len % 512 == 0,
        r matches Ok(session) ==> {
            &&& session.sdr == sdr
            &&& session.read_len == (if buf_len == 0 {
                262144
            } else {
                buf_len
            })
            &&& session.handle@.rx.capacity == Some(
                if buf_num == 0 {
                    15
                } else {
                    buf_num
                },
            )
            &&& session.handle@.rx.items.len() == 0
            &&& session.handle@.rx.receiver
            &&& session.handle@.rx.senders == 1
            &&& session.handle@.control.ctrl.items.len() == 0
            &&& session.handle@.control.ctrl.capacity is None
            &&& session.handle@.control.ctrl.receiver
            &&& session.handle@.control.ctrl.senders == 1
            &&& !session.handle@.control.stop
            &&& session.handle@.control.dropped == 0
            &&& session.reader.phase == crate::reader::ReaderPhase::Checking
            &&& session.reader.in_hand is None
        },
        r matches Err(e) ==> (e matches RtlsdrError::RtlsdrErr(text) && text@
            == "Invalid async buffer length "@ + crate::text::decimal(buf_len as nat)
            + " (must be multiple of 512)"@),
{
}

/// A stream that several threads read is set up as asked for: exactly if the length is a multiple
/// of 512, with that many reading threads, each with a buffer of that length, and with room for
/// four chunks per buffer; zero buffers stand for 15, and a length of zero for 262144. The stream
/// is empty and runs.
pub proof fn law_multi_transfer_reader_is_set_up_as_asked<D: Driver>(
    sdr: RtlSdr<D>,
    buf_num: usize,
    buf_len: usize,
    r: Result<MultiTransferSession<D>, RtlsdrError>,
)
    requires
        buf_num * 4 <= usize::MAX,
        call_ensures(RtlSdr::<D>::into_multi_transfer_reader, (sdr, buf_num, buf_len), r),
    ensures
        r is Ok <==> buf_len % 512 == 0,
        r matches Ok(session) ==> {
            &&& session.sdr == sdr
            &&& session.buf_num == (if buf_num == 0 {
                15
            } else {
                buf_num
            })
            &&& session.buf_len == (if buf_len == 0 {
                262144
            } else {
                buf_len
            })
            &&& session.handle@.rx.capacity is Some
            &&& session.handle@.rx.capacity->0 == 4 * session.buf_num
            &&& session.handle@.rx.items.len() == 0
            &&& session.handle@.rx.receiver
            &&& session.handle@.rx.senders == 1
            &&& session.handle@.control.ctrl.items.len() == 0
            &&& session.handle@.control.ctrl.capacity is None
            &&& session.handle@.control.ctrl.receiver
            &&& session.handle@.control.ctrl.senders == 1
            &&& !session.handle@.control.stop
            &&& session.handle@.control.dropped == 0
            &&& session.controller.phase == ControllerPhase::Checking
        },
        r matches Err(e) ==> (e matches RtlsdrError::RtlsdrErr(text) && text@
            == "Invalid async buffer length "@ + crate::text::decimal(buf_len as nat)
            + " (must be multiple of 512)"@),
{
}

/// A chunk of a stream that several threads read is dropped only if four chunks per buffer wait: as
/// long as fewer do, a read that brought data puts it behind them, and the count does not change.
pub proof fn law_chunk_is_dropped_only_if_four_per_buffer_wait<D: Driver>(
    sdr: RtlSdr<D>,
    buf_num: usize,
    buf_len: usize,
    session: MultiTransferSession<D>,
    events: Seq<ControllerEvent>,
    data: Seq<u8>,
)
    requires
        buf_num * 4 <= usize::MAX,
        call_ensures(
            RtlSdr::<D>::into_multi_transfer_reader,
            (sdr, buf_num, buf_len),
            Ok::<MultiTransferSession<D>, RtlsdrError>(session),
        ),
        ControllerRun::start((4 * session.buf_num) as usize).all_possible(events),
        data.len() > 0,
    ensures
        ({
            let w = ControllerRun::start((4 * session.buf_num) as usize).after_all(events);
            let next = w.after(ControllerEvent::Read(ChunkView::Data(data)));
            &&& session.handle@ == ControllerRun::start((4 * session.buf_num) as usize).stream
            &&& w.stream.rx.items.len() <= 4 * session.buf_num
            &&& w.stream.rx.receiver && w.stream.rx.items.len() < 4 * session.buf_num ==> {
                &&& next.stream.rx.items == w.stream.rx.items.push(ChunkView::Data(data))
                &&& next.stream.control.dropped == w.stream.control.dropped
            }
            &&& !w.readers_ended && next.stream.control.dropped != w.stream.control.dropped
                ==> w.stream.rx.items.len() == 4 * session.buf_num
        }),
{
    let capacity = (4 * session.buf_num) as usize;
    crate::multi::law_queue_keeps_its_size(capacity, events);
    if !ControllerRun::start(capacity).after_all(events).readers_ended {
        crate::multi::law_only_a_full_queue_drops(
            capacity,
            events,
            ControllerEvent::Read(ChunkView::Data(data)),
        );
    }
}

/// Counting, listing, looking up and asking for a serial all speak of the same devices: the count
/// is the length of the list, the list is what is found on the bus, and the serial is the one of
/// the device that a lookup finds. If the bus could not be read, each of them reports that error.
pub proof fn law_counting_listing_and_lookup_agree<D: Driver>(
    bus: DeviceDescriptors,
    found: Vec<DeviceDescriptor>,
    index: usize,
    count: Result<usize, RtlsdrError>,
    list: Result<Vec<DeviceDescriptor>, RtlsdrError>,
    info: Result<DeviceDescriptor, RtlsdrError>,
    serial: Result<String, RtlsdrError>,
)
    requires
        call_ensures(DeviceDescriptors::iter, (&bus,), found),
        call_ensures(
            RtlSdr::<D>::get_device_count,
            (Ok::<DeviceDescriptors, RtlsdrError>(bus),),
            count,
        ),
        call_ensures(
            RtlSdr::<D>::list_devices,
            (Ok::<DeviceDescriptors, RtlsdrError>(bus),),
            list,
        ),
        call_ensures(
            RtlSdr::<D>::get_device_info,
            (Ok::<DeviceDescriptors, RtlsdrError>(bus), index),
            info,
        ),
        call_ensures(
            RtlSdr::<D>::get_device_serial,
            (Ok::<DeviceDescriptors, RtlsdrError>(bus), index),
            serial,
        ),
    ensures
        count matches Ok(n) && n == found@.len(),
        list matches Ok(shown) && shown@.len() == found@.len() && forall|k: int|
            0 <= k < found@.len() ==> (#[trigger] shown@[k])@ == found@[k]@,
        info is Ok <==> exists|k: int|
            0 <= k < found@.len() && (#[trigger] found@[k]).index == index,
        info matches Ok(d) ==> (serial matches Ok(text) && text@ == d.serial@),
        info matches Ok(d) ==> exists|k: int|
            0 <= k < found@.len() && (#[trigger] found@[k])@ == d@ && d.index == index,
        info matches Err(e) ==> (serial matches Err(error) && error@ == e@),
        info matches Err(e) ==> (e matches RtlsdrError::RtlsdrErr(text) && text@
            == "No device found at index "@ + crate::text::decimal(index as nat)),
{
    let views = crate::devices::descriptors(bus.list@);
    crate::devices::law_indices_increase(bus.list@);
    assert(crate::devices::descriptor_views(found@) == views);
    assert forall|k: int| 0 <= k < found@.len() implies (#[trigger] found@[k])@ == views[k] by {
        assert(crate::devices::descriptor_views(found@)[k] == found@[k]@);
    }
    if let Ok(shown) = list {
        assert forall|k: int| 0 <= k < found@.len() implies (
        #[trigger] shown@[k])@ == found@[k]@ by {
            assert(crate::devices::descriptor_views(shown@)[k] == shown@[k]@);
        }
    }
    if let Ok(d) = info {
        let k = choose|k: int| 0 <= k < views.len() && views[k] == d@;
        assert(found@[k]@ == d@);
        assert(found@[k].index == index);
    } else {
        assert forall|k: int| 0 <= k < found@.len() implies (
        #[trigger] found@[k]).index != index by {
            assert(views[k].index != index);
        }
    }
}

/// The first device that the list shows is the one that is opened, by its index; if the list is
/// empty, that is reported.
pub proof fn law_first_listed_device_is_opened<D: Driver>(
    bus: DeviceDescriptors,
    found: Vec<DeviceDescriptor>,
    r: Result<RtlSdr<D>, RtlsdrError>,
)
    requires
        call_ensures(DeviceDescriptors::iter, (&bus,), found),
        call_ensures(
            RtlSdr::<D>::open_first_available,
            (Ok::<DeviceDescriptors, RtlsdrError>(bus),),
            r,
        ),
    ensures
        found@.len() > 0 ==> opens::<D>(DeviceId::Index(found@[0].index), r),
        found@.len() == 0 ==> (r matches Err(RtlsdrError::RtlsdrErr(text)) && text@
            == "No RTL-SDR devices found"@),
{
    assert(crate::devices::descriptor_views(found@) == crate::devices::descriptors(bus.list@));
    if found@.len() > 0 {
        assert(crate::devices::descriptor_views(found@)[0] == found@[0]@);
    }
}

/// A command does what the setter of the same name does, with the value that was sent: the driver
/// is asked for that, and what it returns is handed back.
pub proof fn law_command_does_what_its_setter_does<D: Driver>(value: u32, gain: TunerGain)
    ensures
        forall|radio: &mut RtlSdr<D>, r: Result<(), RtlsdrError>| #[trigger]
            call_ensures(RtlSdr::<D>::apply, (radio, AsyncReadControl::Tune(value)), r)
                ==> exists|m: &mut D|
                *m == radio.sdr && *final(m) == final(radio).sdr && #[trigger] call_ensures(
                    D::set_center_freq,
                    (m, value),
                    r,
                ),
        forall|radio: &mut RtlSdr<D>, r: Result<(), RtlsdrError>| #[trigger]
            call_ensures(RtlSdr::<D>::apply, (radio, AsyncReadControl::SetGain(gain)), r)
                ==> exists|m: &mut D|
                *m == radio.sdr && *final(m) == final(radio).sdr && #[trigger] call_ensures(
                    D::set_tuner_gain,
                    (m, gain),
                    r,
                ),
        forall|radio: &mut RtlSdr<D>, r: Result<(), RtlsdrError>| #[trigger]
            call_ensures(RtlSdr::<D>::apply, (radio, AsyncReadControl::SetSampleRate(value)), r)
                ==> exists|m: &mut D|
                *m == radio.sdr && *final(m) == final(radio).sdr && #[trigger] call_ensures(
                    D::set_sample_rate,
                    (m, value),
                    r,
                ),
{
}

/// A sensor shows what the driver says when it is asked for that sensor's value, and its error if
/// it fails. The frequency correction can always be read.
pub proof fn law_sensor_is_read_from_the_driver<D: Driver>(
    radio: RtlSdr<D>,
    sensor: Sensor,
    r: Result<SensorValue, RtlsdrError>,
)
    requires
        call_ensures(RtlSdr::<D>::read_sensor, (&radio, sensor), r),
    ensures
        sensor == Sensor::TunerType ==> exists|id: Result<&str, RtlsdrError>| #[trigger]
            call_ensures(D::get_tuner_id, (&radio.sdr,), id) && match id {
                Ok(name) => r matches Ok(SensorValue::TunerType(shown)) && shown@ == name@,
                Err(e) => r == Err::<SensorValue, RtlsdrError>(e),
            },
        sensor == Sensor::TunerGainDb ==> exists|gain: Result<i32, RtlsdrError>| #[trigger]
            call_ensures(D::read_tuner_gain, (&radio.sdr,), gain) && match gain {
                Ok(db) => r == Ok::<SensorValue, RtlsdrError>(SensorValue::TunerGainDb(db)),
                Err(e) => r == Err::<SensorValue, RtlsdrError>(e),
            },
        sensor == Sensor::FrequencyCorrectionPpm ==> exists|ppm: i32| #[trigger]
            call_ensures(D::get_freq_correction, (&radio.sdr,), ppm) && r == Ok::<
                SensorValue,
                RtlsdrError,
            >(SensorValue::FrequencyCorrectionPpm(ppm)),
{
    if sensor == Sensor::FrequencyCorrectionPpm {
        let ppm = choose|ppm: i32| #[trigger]
            call_ensures(D::get_freq_correction, (&radio.sdr,), ppm) && (r matches Ok(value)
                && value@ == SensorValueView::FrequencyCorrectionPpm(ppm));
        assert(r->Ok_0 == SensorValue::FrequencyCorrectionPpm(ppm));
    }
}

/// Each setting reaches the driver as it was given: the driver is asked for that setting and no
/// other, with the very value, and what it returns is handed back.
pub proof fn law_setting_reaches_the_driver_as_given<D: Driver>(
    freq: u32,
    gain: TunerGain,
    ppm: i32,
    rate: u32,
    bw: u32,
    on: bool,
    mode: DirectSampleMode,
)
    ensures
        forall|radio: &mut RtlSdr<D>, r: Result<(), RtlsdrError>| #[trigger]
            call_ensures(RtlSdr::<D>::set_center_freq, (radio, freq), r) ==> exists|m: &mut D|
                *m == radio.sdr && *final(m) == final(radio).sdr && #[trigger] call_ensures(
                    D::set_center_freq,
                    (m, freq),
                    r,
                ),
        forall|radio: &mut RtlSdr<D>, r: Result<(), RtlsdrError>| #[trigger]
            call_ensures(RtlSdr::<D>::set_tuner_gain, (radio, gain), r) ==> exists|m: &mut D|
                *m == radio.sdr && *final(m) == final(radio).sdr && #[trigger] call_ensures(
                    D::set_tuner_gain,
                    (m, gain),
                    r,
                ),
        forall|radio: &mut RtlSdr<D>, r: Result<(), RtlsdrError>| #[trigger]
            call_ensures(RtlSdr::<D>::set_freq_correction, (radio, ppm), r) ==> exists|m: &mut D|
                *m == radio.sdr && *final(m) == final(radio).sdr && #[trigger] call_ensures(
                    D::set_freq_correction,
                    (m, ppm),
                    r,
                ),
        forall|radio: &mut RtlSdr<D>, r: Result<(), RtlsdrError>| #[trigger]
            call_ensures(RtlSdr::<D>::set_sample_rate, (radio, rate), r) ==> exists|m: &mut D|
                *m == radio.sdr && *final(m) == final(radio).sdr && #[trigger] call_ensures(
                    D::set_sample_rate,
                    (m, rate),
                    r,
                ),
        forall|radio: &mut RtlSdr<D>, r: Result<(), RtlsdrError>| #[trigger]
            call_ensures(RtlSdr::<D>::set_tuner_bandwidth, (radio, bw), r) ==> exists|m: &mut D|
                *m == radio.sdr && *final(m) == final(radio).sdr && #[trigger] call_ensures(
                    D::set_tuner_bandwidth,
                    (m, bw),
                    r,
                ),
        forall|radio: &mut RtlSdr<D>, r: Result<(), RtlsdrError>| #[trigger]
            call_ensures(RtlSdr::<D>::set_testmode, (radio, on), r) ==> exists|m: &mut D|
                *m == radio.sdr && *final(m) == final(radio).sdr && #[trigger] call_ensures(
                    D::set_testmode,
                    (m, on),
                    r,
                ),
        forall|radio: &mut RtlSdr<D>, r: Result<(), RtlsdrError>| #[trigger]
            call_ensures(RtlSdr::<D>::set_direct_sampling, (radio, mode), r) ==> exists|m: &mut D|
                *m == radio.sdr && *final(m) == final(radio).sdr && #[trigger] call_ensures(
                    D::set_direct_sampling,
                    (m, mode),
                    r,
                ),
        forall|radio: &RtlSdr<D>, r: Result<(), RtlsdrError>| #[trigger]
            call_ensures(RtlSdr::<D>::set_bias_tee, (radio, on), r) ==> call_ensures(
                D::set_bias_tee,
                (&radio.sdr, on),
                r,
            ),
        forall|radio: &mut RtlSdr<D>, r: Result<(), RtlsdrError>| #[trigger]
            call_ensures(RtlSdr::<D>::close, (radio,), r) ==> exists|m: &mut D|
                *m == radio.sdr && *final(m) == final(radio).sdr && #[trigger] call_ensures(
                    D::deinit_baseband,
                    (m,),
                    r,
                ),
        forall|radio: &RtlSdr<D>, r: Result<(), RtlsdrError>| #[trigger]
            call_ensures(RtlSdr::<D>::reset_buffer, (radio,), r) ==> call_ensures(
                D::reset_buffer,
                (&radio.sdr,),
                r,
            ),
{
}

/// What is asked of a radio is what its driver says.
pub proof fn law_radio_says_what_its_driver_says<D: Driver>(radio: RtlSdr<D>)
    ensures
        forall|r: u32| #[trigger]
            call_ensures(RtlSdr::<D>::get_center_freq, (&radio,), r) ==> call_ensures(
                D::get_center_freq,
                (&radio.sdr,),
                r,
            ),
        forall|r: Result<Vec<i32>, RtlsdrError>| #[trigger]
            call_ensures(RtlSdr::<D>::get_tuner_gains, (&radio,), r) ==> call_ensures(
                D::get_tuner_gains,
                (&radio.sdr,),
                r,
            ),
        forall|r: Result<i32, RtlsdrError>| #[trigger]
            call_ensures(RtlSdr::<D>::read_tuner_gain, (&radio,), r) ==> call_ensures(
                D::read_tuner_gain,
                (&radio.sdr,),
                r,
            ),
        forall|r: i32| #[trigger]
            call_ensures(RtlSdr::<D>::get_freq_correction, (&radio,), r) ==> call_ensures(
                D::get_freq_correction,
                (&radio.sdr,),
                r,
            ),
        forall|r: u32| #[trigger]
            call_ensures(RtlSdr::<D>::get_sample_rate, (&radio,), r) ==> call_ensures(
                D::get_sample_rate,
                (&radio.sdr,),
                r,
            ),
        forall|r: Result<&str, RtlsdrError>| #[trigger]
            call_ensures(RtlSdr::<D>::get_tuner_id, (&radio,), r) ==> call_ensures(
                D::get_tuner_id,
                (&radio.sdr,),
                r,
            ),
{
}

/// A serial, an index and a file descriptor each choose the device that they name.
pub proof fn law_device_is_chosen_as_named<D: Driver>(
    serial: &str,
    index: usize,
    fd: i32,
    device_id: DeviceId<'_>,
)
    ensures
        forall|r: Result<RtlSdr<D>, RtlsdrError>| #[trigger]
            call_ensures(RtlSdr::<D>::open_with_serial, (serial,), r) ==> opens::<D>(
                DeviceId::Serial(serial),
                r,
            ),
        forall|r: Result<RtlSdr<D>, RtlsdrError>| #[trigger]
            call_ensures(RtlSdr::<D>::open_with_index, (index,), r) ==> opens::<D>(
                DeviceId::Index(index),
                r,
            ),
        forall|r: Result<RtlSdr<D>, RtlsdrError>| #[trigger]
            call_ensures(RtlSdr::<D>::open_with_fd, (fd,), r) ==> opens::<D>(DeviceId::Fd(fd), r),
        forall|r: Result<RtlSdr<D>, RtlsdrError>| #[trigger]
            call_ensures(RtlSdr::<D>::open, (device_id,), r) ==> opens::<D>(device_id, r),
{
}

/// Every sensor is listed, once.
pub proof fn law_every_sensor_is_listed_once<D: Driver>(
    radio: RtlSdr<D>,
    r: Result<Vec<Sensor>, RtlsdrError>,
)
    requires
        call_ensures(RtlSdr::<D>::list_sensors, (&radio,), r),
    ensures
        r matches Ok(sensors) && sensors@.len() == 3 && sensors@.no_duplicates() && forall|
            sensor: Sensor,
        | #[trigger] sensors@.contains(sensor),
{
}

} // verus!

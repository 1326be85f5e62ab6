//! What drives the hardware: the USB device, the demodulator and the tuner behind it.

use crate::error::RtlsdrError;
use crate::settings::{DeviceId, DirectSampleMode, TunerGain};
use vstd::prelude::*;

verus! {

/// The driver of one device. Nothing is presumed of what its functions return or do; the contracts
/// of [`crate::sdr::RtlSdr`] say which of them is called, and with what.
pub trait Driver: Sized {
    /// A device that was opened.
    type Device;

    /// The id of the R820T tuner.
    fn r820t_tuner_id() -> &'static str;

    /// The id of the R828D tuner.
    fn r828d_tuner_id() -> &'static str;

    /// Opens a device.
    fn open_device(device_id: DeviceId<'_>) -> Result<Self::Device, RtlsdrError>;

    /// The driver of an open device.
    fn new(device: Self::Device) -> Self;

    /// Brings the device up.
    fn init(self) -> Result<Self, RtlsdrError>;

    /// Shuts the baseband down.
    fn deinit_baseband(&mut self) -> Result<(), RtlsdrError>;

    /// Empties the device's buffer.
    fn reset_buffer(&self) -> Result<(), RtlsdrError>;

    /// Reads samples, and returns how many bytes were read.
    fn read_sync(&self, buf: &mut [u8]) -> Result<usize, RtlsdrError>;

    fn get_center_freq(&self) -> u32;

    fn set_center_freq(&mut self, freq: u32) -> Result<(), RtlsdrError>;

    fn get_tuner_gains(&self) -> Result<Vec<i32>, RtlsdrError>;

    fn read_tuner_gain(&self) -> Result<i32, RtlsdrError>;

    fn set_tuner_gain(&mut self, gain: TunerGain) -> Result<(), RtlsdrError>;

    fn get_freq_correction(&self) -> i32;

    fn set_freq_correction(&mut self, ppm: i32) -> Result<(), RtlsdrError>;

    fn get_sample_rate(&self) -> u32;

    fn set_sample_rate(&mut self, rate: u32) -> Result<(), RtlsdrError>;

    fn set_tuner_bandwidth(&mut self, bw: u32) -> Result<(), RtlsdrError>;

    fn set_testmode(&mut self, on: bool) -> Result<(), RtlsdrError>;

    fn set_direct_sampling(&mut self, mode: DirectSampleMode) -> Result<(), RtlsdrError>;

    fn set_bias_tee(&self, on: bool) -> Result<(), RtlsdrError>;

    fn get_tuner_id(&self) -> Result<&str, RtlsdrError>;
}

/// The ids of the tuners that a driver knows.
pub struct TunerId;

impl TunerId {
    /// The id of the R820T tuner.
    pub fn r820t<D: Driver>() -> (id: &'static str)
        ensures
            call_ensures(D::r820t_tuner_id, (), id),
    {
        D::r820t_tuner_id()
    }

    /// The id of the R828D tuner.
    pub fn r828d<D: Driver>() -> (id: &'static str)
        ensures
            call_ensures(D::r828d_tuner_id, (), id),
    {
        D::r828d_tuner_id()
    }
}

} // verus!

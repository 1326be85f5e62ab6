//! # rtlsdr Library
//! Library for interfacing with an RTL-SDR device.
//!
//! - [`sdr`]: one radio, through its [`driver`]; [`settings`]: what is set on it and read from it
//! - [`devices`]: the RTL-SDR devices on the bus
//! - [`stream`]: the state that the consumer of a stream shares with the threads that feed it,
//!   built on [`channel`] and set up from [`config`]
//! - [`reader`]: the loop of a stream that one thread feeds
//! - [`multi`]: the loops of a stream that several threads feed at once
//! - [`transfer`] and [`engine`]: concurrent USB bulk transfers; [`session`] and [`delivery`]: what
//!   holds of them, and of what the consumer receives, from the first allocation to the last free
//! - [`error`] and [`text`]: errors and their messages
//!
//! Nothing here waits, starts threads or touches the hardware. The loops say what is to be done
//! next and are told how it went.

pub mod channel;
pub mod config;
pub mod delivery;
pub mod devices;
pub mod driver;
pub mod engine;
pub mod error;
pub mod multi;
pub mod reader;
pub mod sdr;
pub mod session;
pub mod settings;
pub mod stream;
pub mod text;
pub mod transfer;

pub use config::{DEFAULT_ASYNC_BUF_NUMBER, DEFAULT_BUF_LENGTH};
pub use devices::{DeviceDescriptor, DeviceDescriptors};
pub use driver::{Driver, TunerId};
pub use sdr::RtlSdr;
pub use settings::{DeviceId, DirectSampleMode, Sensor, SensorValue, TunerGain};
pub use stream::{AsyncReadControlHandle, AsyncReadHandle};

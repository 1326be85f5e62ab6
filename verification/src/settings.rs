//! What a caller chooses a device by, sets on it and reads from it.

use crate::error::RtlsdrError;
use vstd::prelude::*;

verus! {

/// How a device is chosen.
#[derive(Debug, PartialEq, Eq, Clone)]
pub enum DeviceId<'a> {
    Index(usize),
    Serial(&'a str),
    Fd(i32),
}

#[derive(Debug, Clone, Copy, PartialEq, Eq, Structural)]
pub enum TunerGain {
    Auto,
    Manual(i32),
}

#[derive(Debug, Clone, Copy, PartialEq, Eq, Structural)]
pub enum DirectSampleMode {
    Off,
    On,
    /// Swap I and Q ADC, allowing to select between two inputs
    OnSwap,
}

#[derive(Debug, Copy, Clone, PartialEq, Eq, Structural)]
pub enum Sensor {
    TunerType,
    TunerGainDb,
    FrequencyCorrectionPpm,
}

#[derive(Debug, PartialEq)]
pub enum SensorValue {
    TunerType(String),
    TunerGainDb(i32),
    FrequencyCorrectionPpm(i32),
}

/// A [`SensorValue`] with its text as a sequence of characters.
#[verifier::ext_equal]
pub enum SensorValueView {
    TunerType(Seq<char>),
    TunerGainDb(i32),
    FrequencyCorrectionPpm(i32),
}

impl View for SensorValue {
    type V = SensorValueView;

    open spec fn view(&self) -> SensorValueView {
        match self {
            SensorValue::TunerType(id) => SensorValueView::TunerType(id@),
            SensorValue::TunerGainDb(gain) => SensorValueView::TunerGainDb(*gain),
            SensorValue::FrequencyCorrectionPpm(ppm) => SensorValueView::FrequencyCorrectionPpm(
                *ppm,
            ),
        }
    }
}

impl SensorValueView {
    /// The sensor whose value this is.
    pub open spec fn sensor(self) -> Sensor {
        match self {
            SensorValueView::TunerType(_) => Sensor::TunerType,
            SensorValueView::TunerGainDb(_) => Sensor::TunerGainDb,
            SensorValueView::FrequencyCorrectionPpm(_) => Sensor::FrequencyCorrectionPpm,
        }
    }
}

/// `r` is the value of the tuner type sensor, or the error, if asking for the tuner's id gave `id`.
pub open spec fn is_tuner_type(
    id: Result<&str, RtlsdrError>,
    r: Result<SensorValue, RtlsdrError>,
) -> bool {
    match id {
        Ok(id) => r matches Ok(value) && value@ == SensorValueView::TunerType(id@),
        Err(e) => r == Err::<SensorValue, RtlsdrError>(e),
    }
}

/// `r` is the value of the gain sensor, or the error, if reading the gain gave `gain`.
pub open spec fn is_tuner_gain(
    gain: Result<i32, RtlsdrError>,
    r: Result<SensorValue, RtlsdrError>,
) -> bool {
    match gain {
        Ok(gain) => r matches Ok(value) && value@ == SensorValueView::TunerGainDb(gain),
        Err(e) => r == Err::<SensorValue, RtlsdrError>(e),
    }
}

impl SensorValue {
    /// The value of the tuner type sensor, from what asking for the tuner's id gave.
    pub fn tuner_type(id: Result<&str, RtlsdrError>) -> (r: Result<SensorValue, RtlsdrError>)
        ensures
            is_tuner_type(id, r),
    {
        match id {
            Ok(id) => Ok(SensorValue::TunerType(id.to_owned())),
            Err(e) => Err(e),
        }
    }

    /// The value of the gain sensor, from what reading the gain gave.
    pub fn tuner_gain(gain: Result<i32, RtlsdrError>) -> (r: Result<SensorValue, RtlsdrError>)
        ensures
            is_tuner_gain(gain, r),
    {
        match gain {
            Ok(gain) => Ok(SensorValue::TunerGainDb(gain)),
            Err(e) => Err(e),
        }
    }
}

/// A value reads as what it is, and belongs to the sensor that it is named after.
pub proof fn law_sensor_value_reads_as_it_is(value: SensorValue)
    ensures
        match value {
            SensorValue::TunerType(id) => value@ == SensorValueView::TunerType(id@)
                && value@.sensor() == Sensor::TunerType,
            SensorValue::TunerGainDb(gain) => value@ == SensorValueView::TunerGainDb(gain)
                && value@.sensor() == Sensor::TunerGainDb,
            SensorValue::FrequencyCorrectionPpm(ppm) => value@
                == SensorValueView::FrequencyCorrectionPpm(ppm) && value@.sensor()
                == Sensor::FrequencyCorrectionPpm,
        },
{
}

/// What the driver said is what the sensor shows: the tuner's id letter for letter, the gain as the
/// number it is, an error as that error.
pub proof fn law_sensor_shows_what_the_driver_said(
    id: Result<&str, RtlsdrError>,
    gain: Result<i32, RtlsdrError>,
    r: Result<SensorValue, RtlsdrError>,
)
    ensures
        is_tuner_type(id, r) ==> match id {
            Ok(name) => r matches Ok(SensorValue::TunerType(shown)) && shown@ == name@,
            Err(e) => r == Err::<SensorValue, RtlsdrError>(e),
        },
        is_tuner_gain(gain, r) ==> match gain {
            Ok(db) => r == Ok::<SensorValue, RtlsdrError>(SensorValue::TunerGainDb(db)),
            Err(e) => r == Err::<SensorValue, RtlsdrError>(e),
        },
{
}

} // verus!

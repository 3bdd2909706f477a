//! Wire shapes of the telemetry payloads of the other device families the
//! platform carries. The rule engine reads only the DUT and DAC channels,
//! but the shared payload vocabulary belongs to the library so that every
//! consumer names the fields the same way.

use vstd::prelude::*;

verus! {

/// A raw DAM (automation) payload.
#[derive(Clone, Debug)]
#[allow(non_snake_case)]
pub struct TelemetryRawDAM_v1 {
    pub timestamp: String,
    pub State: String,
    pub Mode: String,
    pub Temperature: Option<String>,
    pub Temperature_1: Option<String>,
    pub GMT: Option<i64>,
}

/// One DMA (water meter) reading.
#[derive(Clone, Debug)]
#[allow(non_snake_case)]
pub struct TelemetryDMA {
    pub timestamp: String,
    pub pulses: Option<i32>,
    pub mode: Option<String>,
    pub operation_mode: Option<i16>,
    pub dev_id: String,
    pub samplingTime: Option<i16>,
    pub gmt: Option<i64>,
}

/// A packed DMA payload.
#[derive(Clone, Debug)]
#[allow(non_snake_case)]
pub struct TelemetryPackDMA {
    pub timestamp: String,
    pub dev_id: String,
    pub pulses: Option<i32>,
    pub mode: Option<String>,
    pub operation_mode: Option<i16>,
    pub samplingTime: Option<i16>,
    pub GMT: Option<i64>,
}

/// A packed DMT (tank monitor) payload.
#[derive(Clone, Debug)]
#[allow(non_snake_case)]
pub struct TelemetryPackDMT {
    pub timestamp: String,
    pub dev_id: String,
    pub samplingTime: i64,
    pub Feedback: Vec<Option<bool>>,
    pub GMT: Option<i64>,
}

/// One DMT reading.
#[derive(Clone, Debug)]
#[allow(non_snake_case)]
pub struct TelemetryDMT {
    pub timestamp: String,
    pub F1: Option<bool>,
    pub F2: Option<bool>,
    pub F3: Option<bool>,
    pub F4: Option<bool>,
    pub dev_id: String,
    pub GMT: Option<i64>,
}

/// A packed DAL (lighting) payload.
#[derive(Clone, Debug)]
#[allow(non_snake_case)]
pub struct TelemetryPackDAL {
    pub timestamp: String,
    pub dev_id: String,
    pub State: String,
    pub Mode: Vec<String>,
    pub Feedback: Vec<Option<bool>>,
    pub Relays: Vec<Option<bool>>,
    pub GMT: Option<i64>,
}

/// One DAL reading.
#[derive(Clone, Debug)]
#[allow(non_snake_case)]
pub struct TelemetryDAL {
    pub timestamp: String,
    pub dev_id: String,
    pub State: String,
    pub Mode: Vec<String>,
    pub Feedback: Vec<Option<bool>>,
    pub Relays: Vec<Option<bool>>,
    pub GMT: Option<i64>,
}

} // verus!

//! What a rule emits when it fires: the detection record that is forwarded
//! to the external notification service, together with the service path it
//! is posted to.

use vstd::prelude::*;

use crate::timebase::Timestamp;

verus! {

/// The rule kind that fired, with the configured parameters it fired under.
/// Temperatures and CO2 levels are in hundredths of the sensor unit.
#[derive(Clone, Debug, PartialEq, Eq, Structural)]
pub enum DetectionKind {
    DutCo2High { co2max: i64 },
    DutCo2HighEndOfDay { co2max: i64 },
    DutTempAbove { tusemax: i64 },
    DutTempBelow { tusemin: i64 },
    DutTempHighCritic { temperature_limit: i64, duration_in_seconds: u64 },
    CompBeforeHour { time_limit: u32 },
    CompAfterHour { time_limit: u32 },
}

/// One detection, ready for delivery.
#[derive(Clone, Debug)]
pub struct Detection {
    pub dev_id: String,
    pub notif_id: u64,
    pub telemetry_timestamp: Timestamp,
    pub kind: DetectionKind,
}

impl Detection {
    /// The path under the notification endpoint that this detection is
    /// posted to.
    pub open spec fn spec_notif_path(&self) -> Seq<char> {
        match self.kind {
            DetectionKind::DutCo2High { .. } => "/DUT_CO2/Acima"@,
            DetectionKind::DutCo2HighEndOfDay { .. } => "/DUT_CO2/AcimaDiario"@,
            DetectionKind::DutTempAbove { .. } => "/DUT_T/AcimaLimiteAntiga"@,
            DetectionKind::DutTempBelow { .. } => "/DUT_T/AbaixoLimiteAntiga"@,
            DetectionKind::DutTempHighCritic { .. } => "/DUT_T/AcimaLimiteCritica"@,
            DetectionKind::CompBeforeHour { .. } => "/COMP_TIME/AntesDoHorario"@,
            DetectionKind::CompAfterHour { .. } => "/COMP_TIME/DepoisDoHorario"@,
        }
    }

    pub fn notif_path(&self) -> (r: &'static str)
        ensures
            r@ == self.spec_notif_path(),
    {
        match self.kind {
            DetectionKind::DutCo2High { .. } => "/DUT_CO2/Acima",
            DetectionKind::DutCo2HighEndOfDay { .. } => "/DUT_CO2/AcimaDiario",
            DetectionKind::DutTempAbove { .. } => "/DUT_T/AcimaLimiteAntiga",
            DetectionKind::DutTempBelow { .. } => "/DUT_T/AbaixoLimiteAntiga",
            DetectionKind::DutTempHighCritic { .. } => "/DUT_T/AcimaLimiteCritica",
            DetectionKind::CompBeforeHour { .. } => "/COMP_TIME/AntesDoHorario",
            DetectionKind::CompAfterHour { .. } => "/COMP_TIME/DepoisDoHorario",
        }
    }
}

} // verus!

//! Per-device state and the device registry: the shared core that the
//! ingestion path mutates and the query and reconciliation paths read.

use vstd::prelude::*;

use crate::notifs_dac::NotifsDac;
use crate::notifs_dut::NotifsDut;
use crate::strmap::StrMap;

verus! {

/// The last data-topic message a device sent: its raw JSON text and the
/// server-side millisecond timestamp of its arrival.
#[derive(Clone, Debug)]
pub struct DevLastMessage {
    pub telemetry: String,
    pub ts: u64,
}

/// One device's state: the server timestamp of its last message, its last
/// telemetry, and the notification rule state for each device kind, with
/// the fast-path flags that let unmonitored devices skip rule evaluation.
#[derive(Debug)]
pub struct DevInfo {
    pub last_timestamp: u64,
    pub last_telemetry: Option<DevLastMessage>,
    pub has_notifs_dut: bool,
    pub notifs_dut: Option<NotifsDut>,
    pub has_notifs_dac: bool,
    pub notifs_dac: Option<NotifsDac>,
}

impl DevInfo {
    pub open spec fn wf(&self) -> bool {
        &&& match self.notifs_dut {
            Some(nd) => nd.wf(),
            None => true,
        }
        &&& match self.notifs_dac {
            Some(nd) => nd.wf(),
            None => true,
        }
    }

    /// A fresh, unmonitored device first seen at `now_millis`.
    pub fn new(now_millis: u64) -> (r: DevInfo)
        ensures
            r.wf(),
            r.last_timestamp == now_millis,
            r.last_telemetry is None,
            !r.has_notifs_dut,
            r.notifs_dut is None,
            !r.has_notifs_dac,
            r.notifs_dac is None,
    {
        DevInfo {
            last_timestamp: now_millis,
            last_telemetry: None,
            notifs_dut: None,
            has_notifs_dut: false,
            notifs_dac: None,
            has_notifs_dac: false,
        }
    }
}

/// The device registry: device id to device state. Every device the
/// registry holds is well formed.
pub type DevsInfo = StrMap<DevInfo>;

/// All devices of the registry are well formed.
pub open spec fn spec_registry_wf(reg: &DevsInfo) -> bool {
    &&& reg.wf()
    &&& forall|k: int| 0 <= k < reg.entries@.len() ==> (#[trigger] reg.entries@[k]).1.wf()
}

} // verus!

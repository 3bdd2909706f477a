//! The read-only query interface over the registry: the request parameter
//! shapes and the snapshot computations the endpoints serve. Socket
//! handling and JSON framing live with the transport.

use vstd::prelude::*;

use crate::global_vars::{DevLastMessage, DevsInfo};

verus! {

/// Parameters of the last-telemetries query: all devices, or a chosen set.
#[derive(Clone, Debug)]
#[allow(non_snake_case)]
pub struct ParamsGetDevicesLastTelemetries {
    pub devIds: Option<Vec<String>>,
}

/// Parameters of the last-seen-timestamp query.
#[derive(Clone, Debug)]
#[allow(non_snake_case)]
pub struct ParamsGetDevicesLastTS {
    pub devIds: Option<Vec<String>>,
}

/// Parameters of the rule-state inspection query.
#[derive(Clone, Debug)]
pub struct ParamsInspectDevNotifs {
    pub device_code: String,
}

/// A snapshot of every device's last telemetry, in registry order.
pub fn get_devices_last_telemetries(registry: &DevsInfo) -> (r: Vec<
    (String, Option<DevLastMessage>),
>)
    requires
        registry.wf(),
    ensures
        r@.len() == registry.entries@.len(),
        forall|k: int|
            0 <= k < r@.len() ==> #[trigger] r@[k] == (
                registry.entries@[k].0,
                registry.entries@[k].1.last_telemetry,
            ),
{
    let mut out: Vec<(String, Option<DevLastMessage>)> = Vec::new();
    let n = registry.entries.len();
    let mut i: usize = 0;
    while i < n
        invariant
            i <= n,
            n == registry.entries@.len(),
            out@.len() == i,
            forall|k: int|
                0 <= k < i ==> #[trigger] out@[k] == (
                    registry.entries@[k].0,
                    registry.entries@[k].1.last_telemetry,
                ),
        decreases n - i,
    {
        let dev_id = registry.entries[i].0.clone();
        let last: Option<DevLastMessage> = match &registry.entries[i].1.last_telemetry {
            Some(m) => Some(DevLastMessage { telemetry: m.telemetry.clone(), ts: m.ts }),
            None => None,
        };
        out.push((dev_id, last));
        proof {
            assert(out@[i as int] == (
                registry.entries@[i as int].0,
                registry.entries@[i as int].1.last_telemetry,
            ));
        }
        i = i + 1;
    }
    out
}

/// A snapshot of every device's last-seen server timestamp, in registry
/// order.
pub fn get_devices_last_ts(registry: &DevsInfo) -> (r: Vec<(String, u64)>)
    requires
        registry.wf(),
    ensures
        r@.len() == registry.entries@.len(),
        forall|k: int|
            0 <= k < r@.len() ==> #[trigger] r@[k] == (
                registry.entries@[k].0,
                registry.entries@[k].1.last_timestamp,
            ),
{
    let mut out: Vec<(String, u64)> = Vec::new();
    let n = registry.entries.len();
    let mut i: usize = 0;
    while i < n
        invariant
            i <= n,
            n == registry.entries@.len(),
            out@.len() == i,
            forall|k: int|
                0 <= k < i ==> #[trigger] out@[k] == (
                    registry.entries@[k].0,
                    registry.entries@[k].1.last_timestamp,
                ),
        decreases n - i,
    {
        let dev_id = registry.entries[i].0.clone();
        let ts = registry.entries[i].1.last_timestamp;
        out.push((dev_id, ts));
        proof {
            assert(out@[i as int] == (
                registry.entries@[i as int].0,
                registry.entries@[i as int].1.last_timestamp,
            ));
        }
        i = i + 1;
    }
    out
}

} // verus!

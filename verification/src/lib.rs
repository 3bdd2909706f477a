//! Rule engine for a fleet of telemetry devices: decodes packed telemetry,
//! tracks per-device state, evaluates configurable notification rules
//! (debounce, hysteresis, day-boundary resets) against the readings, and
//! reconciles rule-configuration updates without losing accumulated state.

pub mod timebase;
pub mod delta;
pub mod schedule;
pub mod detection;
pub mod debounce;
pub mod idmap;
pub mod notifs_cfg;
pub mod dut_co2;
pub mod dut_t;
pub mod dac_l1;
pub mod strmap;
pub mod global_vars;
pub mod notifs_dut;
pub mod notifs_dac;
pub mod jsonval;
pub mod numparse;
pub mod parse_json_props;
pub mod telemetry;
pub mod on_mqtt_message;
pub mod send_queue;
pub mod envvars_loader;
pub mod configs;
pub mod lib_http;
pub mod lib_log;
pub mod telemetry_formats;
pub mod endpoints;

//! The application's flat settings record and its fallback rule.
//!
//! Persistence is an external collaborator: the record is stored as JSON at
//! an application-data path by the surrounding program. On a read or parse
//! failure the provider falls back to the in-memory record without failing
//! the caller; that rule is [`resolve_config`]. The deduction price is in
//! whole currency units.

use vstd::prelude::*;

verus! {

/// The settings record: remote-service endpoints, this gate's identity, the
/// reader's connection parameters, and the actuator endpoints.
#[derive(Clone, Debug)]
pub struct AppConfig {
    pub cgs_gateway_url: String,
    pub device_gateway_url: String,
    pub cacm_tool_url: String,
    pub gate_name: String,
    /// 0 for an entry gate, 1 for an exit gate.
    pub gate_type: i32,
    pub emoney_reader_port: String,
    pub emoney_baud_rate: u32,
    pub emoney_init_key: String,
    pub emoney_deduct_price: u64,
    pub adam_portal_ip: String,
    pub adam_portal_port: u16,
    pub adam_button_ip: String,
    pub adam_button_port: u16,
}

impl Default for AppConfig {
    /// The built-in settings used until a stored record is loaded.
    fn default() -> (r: AppConfig)
        ensures
            r.cgs_gateway_url@
                == "https://cusmod-ca.multiterminal.co.id/cgsin02/services/services.asmx"@,
            r.device_gateway_url@
                == "https://cusmod-ca.multiterminal.co.id/DeviceGateway/DeviceGatewayService.asmx"@,
            r.cacm_tool_url@ == "http://cacmtool.halotec.my.id"@,
            r.gate_name@ == "GATE_A01"@,
            r.gate_type == 0,
            r.emoney_reader_port@ == "/dev/ttyUSB0"@,
            r.emoney_baud_rate == 38400,
            r.emoney_init_key@ == "FE45DF39F44A4866AD7153136E051B0A"@,
            r.emoney_deduct_price == 17000,
            r.adam_portal_ip@ == "10.0.0.10"@,
            r.adam_portal_port == 502,
            r.adam_button_ip@ == "10.0.0.11"@,
            r.adam_button_port == 502,
    {
        AppConfig {
            cgs_gateway_url: String::from_str(
                "https://cusmod-ca.multiterminal.co.id/cgsin02/services/services.asmx",
            ),
            device_gateway_url: String::from_str(
                "https://cusmod-ca.multiterminal.co.id/DeviceGateway/DeviceGatewayService.asmx",
            ),
            cacm_tool_url: String::from_str("http://cacmtool.halotec.my.id"),
            gate_name: String::from_str("GATE_A01"),
            gate_type: 0,
            emoney_reader_port: String::from_str("/dev/ttyUSB0"),
            emoney_baud_rate: 38400,
            emoney_init_key: String::from_str("FE45DF39F44A4866AD7153136E051B0A"),
            emoney_deduct_price: 17000,
            adam_portal_ip: String::from_str("10.0.0.10"),
            adam_portal_port: 502,
            adam_button_ip: String::from_str("10.0.0.11"),
            adam_button_port: 502,
        }
    }
}

/// The fallback rule of the configuration provider: a record that was read
/// and parsed replaces the current one; a failed read or parse keeps the
/// current record, and the caller never observes the failure.
pub fn resolve_config(loaded: Option<AppConfig>, current: AppConfig) -> (r: AppConfig)
    ensures
        loaded is Some ==> r == loaded->0,
        loaded is None ==> r == current,
{
    match loaded {
        Some(cfg) => cfg,
        None => current,
    }
}

} // verus!

//! What a node is configured with. It is set once, before the control loop
//! starts, and never changes.

use vstd::prelude::*;

verus! {

/// The configuration of a node. The actuator node uses the network name and
/// passphrase only.
#[derive(Clone, Debug)]
pub struct Config {
    /// Name of the network to join.
    pub ssid: String,
    /// Passphrase of the network; empty for an open network.
    pub psk: String,
    /// A session whose baseline signal strength is below this, in dBm, asks
    /// for an opening as soon as the link is up.
    pub min_rssi_threshold: i8,
    /// Where the actuator node takes the command to open.
    pub gate_open_url: String,
    /// Where the actuator node takes the command to step.
    pub gate_sbs_url: String,
}

impl Config {
    /// A configuration from its five settings.
    pub fn new(
        ssid: &str,
        psk: &str,
        min_rssi_threshold: i8,
        gate_open_url: &str,
        gate_sbs_url: &str,
    ) -> (config: Config)
        ensures
            config.ssid@ == ssid@,
            config.psk@ == psk@,
            config.min_rssi_threshold == min_rssi_threshold,
            config.gate_open_url@ == gate_open_url@,
            config.gate_sbs_url@ == gate_sbs_url@,
    {
        Config {
            ssid: ssid.to_owned(),
            psk: psk.to_owned(),
            min_rssi_threshold,
            gate_open_url: gate_open_url.to_owned(),
            gate_sbs_url: gate_sbs_url.to_owned(),
        }
    }
}

impl Default for Config {
    /// No network, a threshold of -80 dBm, and the actuator node at
    /// 192.168.0.1.
    fn default() -> (config: Config)
        ensures
            config.ssid@ == ""@,
            config.psk@ == ""@,
            config.min_rssi_threshold == -80,
            config.gate_open_url@ == "http/192.168.0.1/gate_open"@,
            config.gate_sbs_url@ == "http/192.168.0.1/gate_sbs"@,
    {
        Config::new("", "", -80, "http/192.168.0.1/gate_open", "http/192.168.0.1/gate_sbs")
    }
}

} // verus!

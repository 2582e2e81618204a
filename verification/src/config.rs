//! The bridge's configuration data model.
//!
//! A validated configuration carries one record per serial device plus the
//! network, discovery and security sections the bridge's collaborators
//! consume. The one invariant the core relies on is that device names are
//! pairwise distinct across the device list; `check_device_names_unique`
//! decides it.

use vstd::prelude::*;

verus! {

/// General settings of the bridge process.
pub struct GeneralConfig {
    pub log_level: String,
}

/// Configuration of one serial device: the port to open, its line
/// parameters, and the network destination its payloads are forwarded to.
pub struct SerialDeviceConfig {
    pub device_name: String,
    pub port: String,
    pub baud_rate: u32,
    pub data_bits: u8,
    pub stop_bits: u8,
    pub parity: String,
    pub network_port: u16,
    pub network_protocol: String,
}

/// Network section: discovery and client limits, consumed by the external
/// transport collaborators.
pub struct NetworkConfig {
    pub discovery_port: u16,
    pub broadcast_interval: u64,
    pub max_clients: usize,
}

/// Discovery section: identity the bridge would announce; an extension
/// point with no behavior in the core.
pub struct DiscoveryConfig {
    pub device_id: String,
    pub device_type: String,
    pub discovery_message_lifetime: u64,
}

/// Security section: an extension point with no behavior in the core.
pub struct SecurityConfig {
    pub enable_encryption: bool,
    pub encryption_key: String,
}

/// The whole validated configuration.
pub struct Config {
    pub general: GeneralConfig,
    pub serial_devices: Vec<SerialDeviceConfig>,
    pub network: NetworkConfig,
    pub discovery: DiscoveryConfig,
    pub security: SecurityConfig,
}

/// Mathematical image of a device record: every string as its character
/// sequence.
pub struct SerialDeviceConfigView {
    pub device_name: Seq<char>,
    pub port: Seq<char>,
    pub baud_rate: u32,
    pub data_bits: u8,
    pub stop_bits: u8,
    pub parity: Seq<char>,
    pub network_port: u16,
    pub network_protocol: Seq<char>,
}

impl View for SerialDeviceConfig {
    type V = SerialDeviceConfigView;

    open spec fn view(&self) -> SerialDeviceConfigView {
        SerialDeviceConfigView {
            device_name: self.device_name@,
            port: self.port@,
            baud_rate: self.baud_rate,
            data_bits: self.data_bits,
            stop_bits: self.stop_bits,
            parity: self.parity@,
            network_port: self.network_port,
            network_protocol: self.network_protocol@,
        }
    }
}

/// The names of the devices in `devices` are pairwise distinct.
pub open spec fn device_names_unique(devices: Seq<SerialDeviceConfig>) -> bool {
    forall|i: int, j: int|
        0 <= i < j < devices.len() ==> #[trigger] devices[i].device_name@ != #[trigger] devices[j].device_name@
}

/// Decides whether every device in the list carries a distinct name, the
/// invariant a validated configuration must satisfy.
pub fn check_device_names_unique(devices: &Vec<SerialDeviceConfig>) -> (unique: bool)
    ensures
        unique == device_names_unique(devices@),
{
    let n = devices.len();
    let mut i: usize = 0;
    while i < n
        invariant
            n == devices@.len(),
            i <= n,
            forall|p: int, q: int|
                0 <= p < q < n && p < i ==> #[trigger] devices@[p].device_name@ != #[trigger] devices@[q].device_name@,
        decreases n - i,
    {
        let mut j: usize = i + 1;
        while j < n
            invariant
                n == devices@.len(),
                i < j <= n,
                forall|q: int| i < q < j ==> devices@[i as int].device_name@ != #[trigger] devices@[q].device_name@,
            decreases n - j,
        {
            if devices[i].device_name == devices[j].device_name {
                assert(devices@[i as int].device_name@ == devices@[j as int].device_name@);
                assert(!device_names_unique(devices@));
                return false;
            }
            j = j + 1;
        }
        i = i + 1;
    }
    true
}

} // verus!

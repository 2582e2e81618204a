//! Transport dispatch: routing one payload by a device's protocol tag.
//!
//! For each payload read from a device, exactly one decision is taken: relay
//! it to the TCP sink on the device's network port, send it via UDP toward
//! that port, or — for any other protocol tag — drop it and emit a single
//! diagnostic naming the device and the tag. An unknown tag is not an
//! error: the supervisor keeps reading. Dispatch never retries and never
//! buffers; delivery is the sink's concern.

use vstd::prelude::*;
use crate::config::{SerialDeviceConfig, SerialDeviceConfigView};

verus! {

/// The diagnostic emitted when a payload is dropped: it names the device
/// and the unsupported protocol tag, one entry per dropped payload.
pub struct UnsupportedProtocolDiagnostic {
    pub device_name: String,
    pub protocol: String,
}

/// The routing decision for one payload.
pub enum DispatchDecision {
    /// Relay the payload to the TCP sink serving `network_port`.
    ForwardTcp { network_port: u16, payload: Vec<u8> },
    /// Send the payload via UDP toward `network_port`.
    ForwardUdp { network_port: u16, payload: Vec<u8> },
    /// The protocol tag names no sink: drop the payload, emit the diagnostic.
    DropPayload { diagnostic: UnsupportedProtocolDiagnostic },
}

/// The protocol tags for which a network sink exists.
pub open spec fn protocol_supported(protocol: Seq<char>) -> bool {
    protocol == "tcp"@ || protocol == "udp"@
}

/// Whether a decision invokes a network sink.
pub open spec fn invokes_sink(decision: DispatchDecision) -> bool {
    decision is ForwardTcp || decision is ForwardUdp
}

/// How many diagnostic log entries a decision carries.
pub open spec fn diagnostic_count(decision: DispatchDecision) -> nat {
    if decision is DropPayload {
        1
    } else {
        0
    }
}

/// The dispatch relation: what decision the device's protocol tag and the
/// payload determine.
pub open spec fn dispatch_post(
    device: SerialDeviceConfigView,
    payload: Seq<u8>,
    decision: DispatchDecision,
) -> bool {
    &&& device.network_protocol == "tcp"@ ==> {
        &&& decision matches DispatchDecision::ForwardTcp { network_port, payload: sent }
        &&& network_port == device.network_port
        &&& sent@ == payload
    }
    &&& device.network_protocol == "udp"@ ==> {
        &&& decision matches DispatchDecision::ForwardUdp { network_port, payload: sent }
        &&& network_port == device.network_port
        &&& sent@ == payload
    }
    &&& !protocol_supported(device.network_protocol) ==> {
        &&& decision matches DispatchDecision::DropPayload { diagnostic }
        &&& diagnostic.device_name@ == device.device_name
        &&& diagnostic.protocol@ == device.network_protocol
    }
}

/// Selects the sink for one payload by the device's protocol tag: `tcp` and
/// `udp` forward the payload unchanged to the device's network port; any
/// other tag drops it with one diagnostic.
pub fn dispatch(device: &SerialDeviceConfig, payload: Vec<u8>) -> (decision: DispatchDecision)
    ensures
        dispatch_post(device@, payload@, decision),
{
    proof {
        reveal_strlit("tcp");
        reveal_strlit("udp");
        assert("tcp"@[0] != "udp"@[0]);
        assert("tcp"@ != "udp"@);
    }
    let tcp_tag = String::from_str("tcp");
    let udp_tag = String::from_str("udp");
    if device.network_protocol == tcp_tag {
        DispatchDecision::ForwardTcp { network_port: device.network_port, payload }
    } else if device.network_protocol == udp_tag {
        DispatchDecision::ForwardUdp { network_port: device.network_port, payload }
    } else {
        DispatchDecision::DropPayload {
            diagnostic: UnsupportedProtocolDiagnostic {
                device_name: device.device_name.clone(),
                protocol: device.network_protocol.clone(),
            },
        }
    }
}

/// For a device whose protocol tag is neither `tcp` nor `udp`, dispatch
/// never invokes a network sink and produces exactly one diagnostic per
/// payload, naming that device and that tag.
pub proof fn lemma_unsupported_protocol_never_reaches_sink(
    device: SerialDeviceConfigView,
    payload: Seq<u8>,
    decision: DispatchDecision,
)
    requires
        !protocol_supported(device.network_protocol),
        dispatch_post(device, payload, decision),
    ensures
        !invokes_sink(decision),
        diagnostic_count(decision) == 1,
        (decision matches DispatchDecision::DropPayload { diagnostic } ==> diagnostic.device_name@
            == device.device_name && diagnostic.protocol@ == device.network_protocol),
{
}

} // verus!

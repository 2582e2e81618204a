//! Serial-to-network bridge core: per-device connection supervision and
//! transport dispatch.
//!
//! The library holds the decision logic of a bridge that keeps one serial
//! link open per configured device, reads payload bytes from it, and routes
//! each payload to a TCP or UDP sink chosen by the device's configuration.
//! The surrounding I/O (opening ports, reading bytes, network sends, the
//! retry sleep) is performed by a thin runtime around the library; every
//! decision the runtime acts on is taken here, under contract.

pub mod config;
pub mod dispatch;
pub mod logging;
pub mod orchestrator;
pub mod serial;
pub mod supervisor;

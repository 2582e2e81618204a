//! The serial connection owned by one supervisor.
//!
//! The connection is constructed closed and is opened lazily: before each
//! read the supervisor asks whether opening I/O is required, and after each
//! open or read attempt it records the outcome here. A failed read marks the
//! handle stale, so the next cycle reopens the port. The hardware handle
//! itself lives with the runtime that performs the I/O; this type is the
//! single authority on whether that handle is considered open.

use vstd::prelude::*;

verus! {

/// Size in bytes of the buffer one read operation fills.
pub const READ_BUFFER_SIZE: usize = 1024;

/// Exclusive state of one device's serial link: the configured path and
/// baud rate, and whether a live open handle is currently held.
pub struct SerialConnection {
    pub device_path: String,
    pub baud_rate: u32,
    pub open: bool,
}

/// Whether `ensure_open` must perform opening I/O: exactly when no handle is
/// held, or the held handle failed its liveness probe.
pub open spec fn reopen_required(conn: SerialConnection, probe_live: bool) -> bool {
    !conn.open || !probe_live
}

impl SerialConnection {
    /// A connection starts closed; the first open attempt creates the handle.
    pub fn new(device_path: &str, baud_rate: u32) -> (conn: SerialConnection)
        ensures
            conn.device_path@ == device_path@,
            conn.baud_rate == baud_rate,
            !conn.open,
    {
        SerialConnection { device_path: String::from_str(device_path), baud_rate, open: false }
    }

    /// Decides whether the port must be (re)opened. `probe_live` reports the
    /// liveness probe on the held handle; when no handle is held the answer
    /// is to open regardless of the probe.
    pub fn needs_reopen(&self, probe_live: bool) -> (reopen: bool)
        ensures
            reopen == reopen_required(*self, probe_live),
    {
        !self.open || !probe_live
    }

    /// Records the outcome of one opening attempt: the connection is open
    /// exactly when the attempt succeeded.
    pub fn record_open_result(&mut self, success: bool)
        ensures
            final(self).open == success,
            final(self).device_path@ == old(self).device_path@,
            final(self).baud_rate == old(self).baud_rate,
    {
        self.open = success;
    }

    /// Records the outcome of one read: a failed read leaves the handle
    /// stale, so the connection counts as closed until reopened; a
    /// successful read leaves it as it was.
    pub fn record_read_result(&mut self, success: bool)
        ensures
            final(self).open == (old(self).open && success),
            final(self).device_path@ == old(self).device_path@,
            final(self).baud_rate == old(self).baud_rate,
    {
        self.open = self.open && success;
    }
}

/// Reopen-after-failure is idempotent: on a connection that is already open
/// and whose handle passes the liveness probe, `ensure_open` performs no
/// reopening I/O.
pub proof fn lemma_ensure_open_idempotent(conn: SerialConnection)
    requires
        conn.open,
    ensures
        !reopen_required(conn, true),
{
}

} // verus!

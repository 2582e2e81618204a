//! The bridge orchestrator: fan-out of supervisors and aggregation of their
//! terminal outcomes.
//!
//! Given the validated device list, the orchestrator creates one supervisor
//! per device — all of them before any is run, so the runtime can schedule
//! them concurrently and independently. Supervisors run forever under normal
//! operation; when they do terminate, the orchestrator reports `Ok` only if
//! every one completed without failure, and otherwise surfaces the first
//! failure in list order.

use vstd::prelude::*;
use crate::config::SerialDeviceConfig;
use crate::supervisor::Supervisor;

verus! {

/// The terminal failure one supervisor can report: the device it served and
/// a description of the unrecoverable error.
pub struct SupervisorFailure {
    pub device_name: String,
    pub message: String,
}

/// Creates one supervisor per configured device, in list order, each holding
/// its device's configuration and a closed connection on that device's port.
/// With zero devices configured, no supervisor is created.
pub fn make_supervisors(devices: Vec<SerialDeviceConfig>) -> (sups: Vec<Supervisor>)
    ensures
        sups@.len() == devices@.len(),
        forall|i: int|
            0 <= i < devices@.len() ==> (#[trigger] sups@[i]).config == devices@[i]
                && !sups@[i].connection.open && sups@[i].phase is Disconnected && sups@[i].wf(),
{
    let ghost all = devices@;
    let mut remaining = devices;
    let mut sups: Vec<Supervisor> = Vec::new();
    while remaining.len() > 0
        invariant
            sups@.len() + remaining@.len() == all.len(),
            remaining@ =~= all.skip(sups@.len() as int),
            forall|i: int|
                0 <= i < sups@.len() ==> (#[trigger] sups@[i]).config == all[i]
                    && !sups@[i].connection.open && sups@[i].phase is Disconnected
                    && sups@[i].wf(),
        decreases remaining@.len(),
    {
        let ghost done = sups@.len() as int;
        let device = remaining.remove(0);
        assert(device == all[done]);
        let sup = Supervisor::new(device);
        sups.push(sup);
        proof {
            assert(remaining@ =~= all.skip(done + 1));
        }
    }
    sups
}

/// `Ok` exactly when every outcome is `Ok`; otherwise the first failure in
/// order, with no failure before it.
pub open spec fn aggregate_post(
    outcomes: Seq<Result<(), SupervisorFailure>>,
    overall: Result<(), SupervisorFailure>,
) -> bool {
    &&& (overall is Ok <==> (forall|i: int| 0 <= i < outcomes.len() ==> outcomes[i] is Ok))
    &&& (overall matches Err(failure) ==> exists|j: int|
        0 <= j < outcomes.len() && (#[trigger] outcomes[j]) == Err::<(), SupervisorFailure>(
            failure,
        ) && (forall|k: int| 0 <= k < j ==> outcomes[k] is Ok))
}

/// Collects the supervisors' terminal outcomes: succeeds when all succeeded,
/// and otherwise propagates the first failure in order. With zero outcomes
/// the collection succeeds immediately.
pub fn collect_outcomes(outcomes: &Vec<Result<(), SupervisorFailure>>) -> (overall: Result<
    (),
    SupervisorFailure,
>)
    ensures
        aggregate_post(outcomes@, overall),
{
    let n = outcomes.len();
    let mut i: usize = 0;
    while i < n
        invariant
            n == outcomes@.len(),
            i <= n,
            forall|k: int| 0 <= k < i ==> outcomes@[k] is Ok,
        decreases n - i,
    {
        match &outcomes[i] {
            Ok(_) => {},
            Err(failure) => {
                let propagated = SupervisorFailure {
                    device_name: failure.device_name.clone(),
                    message: failure.message.clone(),
                };
                proof {
                    assert(propagated == *failure);
                    assert(outcomes@[i as int] == Err::<(), SupervisorFailure>(propagated));
                }
                return Err(propagated);
            },
        }
        i = i + 1;
    }
    Ok(())
}

} // verus!

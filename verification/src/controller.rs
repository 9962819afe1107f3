//! The run controller: a single active/idle flag, with at most one emission
//! loop per active period. The interactive context owns the transitions; the
//! loop only reads the flag. The front end holds the flag in an atomic cell
//! and mirrors every transition decided here into it.

use vstd::prelude::*;

verus! {

/// `start` was called while a run was already active; no second loop is
/// spawned.
#[derive(Clone, Copy, Debug, PartialEq, Eq, Structural)]
pub struct AlreadyRunning;

/// The active/idle flag: `false` means idle (no loop running), `true` means
/// active (exactly one loop running).
#[derive(Clone, Copy, Debug, PartialEq, Eq, Structural)]
pub struct RunController {
    pub running: bool,
}

/// `start` succeeds exactly on an idle controller.
pub open spec fn start_succeeds(c: RunController) -> bool {
    !c.running
}

/// The controller state after a successful `start`.
pub open spec fn controller_after_start(c: RunController) -> RunController {
    RunController { running: true }
}

impl RunController {
    /// A fresh controller, idle: no loop has been spawned.
    pub fn new() -> (r: Self)
        ensures
            !r.running,
    {
        RunController { running: false }
    }

    /// Request a run. Fails with `AlreadyRunning` exactly when a run is
    /// already active, and leaves the flag set in either case: on success
    /// because the run begins, on failure because the earlier run goes on.
    /// The caller spawns one emission loop exactly when this returns `Ok`.
    pub fn start(&mut self) -> (r: Result<(), AlreadyRunning>)
        ensures
            r is Ok <==> start_succeeds(*old(self)),
            r is Ok ==> *final(self) == controller_after_start(*old(self)),
            r is Err ==> *final(self) == *old(self),
            final(self).running,
    {
        if self.running {
            Err(AlreadyRunning)
        } else {
            self.running = true;
            Ok(())
        }
    }

    /// Clear the flag unconditionally; idempotent when already idle. The
    /// running loop observes the cleared flag and exits.
    pub fn stop(&mut self)
        ensures
            !final(self).running,
    {
        self.running = false;
    }

    /// Pure observation of the flag.
    pub fn is_running(&self) -> (r: bool)
        ensures
            r == self.running,
    {
        self.running
    }
}

/// Two consecutive `start` calls with no `stop` between them: after the
/// first succeeds, a second cannot — it is answered with `AlreadyRunning`
/// and spawns no second loop.
pub proof fn lemma_second_start_rejected(c: RunController)
    requires
        start_succeeds(c),
    ensures
        !start_succeeds(controller_after_start(c)),
{
}

} // verus!

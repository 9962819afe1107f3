//! The click scheduler: the decision core of the background emission loop.
//! The loop around it — sleeping for the wait interval, polling the pressed
//! keys, injecting the click — lives in the front end; each iteration hands
//! this state machine the flag it read and the snapshot it polled, and
//! performs exactly the action decided here.

use vstd::prelude::*;
use crate::trigger::{fires, KeyId, TriggerCondition};

verus! {

/// The click-injection service failed mid-run; the run stops gracefully and
/// the process continues.
#[derive(Clone, Copy, Debug, PartialEq, Eq, Structural)]
pub struct ClickInjectionError;

/// The scheduler's phase: `Running` while iterating, `Stopping` once an exit
/// is decided and no further click may be emitted, `Stopped` when the loop
/// has wound down. `Stopped` is terminal.
#[derive(Clone, Copy, Debug, PartialEq, Eq, Structural)]
pub enum SchedulerPhase {
    Running,
    Stopping,
    Stopped,
}

/// What one iteration does: inject exactly one click and then sleep for the
/// wait interval, sleep without clicking, or exit the loop.
#[derive(Clone, Copy, Debug, PartialEq, Eq, Structural)]
pub enum SchedulerAction {
    Click,
    Skip,
    Exit,
}

/// The action one iteration takes, from the active/idle flag and the
/// pressed-key snapshot: exit as soon as the flag reads idle, otherwise
/// click exactly when the trigger condition fires.
pub open spec fn spec_step_action(
    cond: TriggerCondition,
    running: bool,
    pressed: Set<KeyId>,
) -> SchedulerAction {
    if !running {
        SchedulerAction::Exit
    } else if fires(cond, pressed) {
        SchedulerAction::Click
    } else {
        SchedulerAction::Skip
    }
}

/// One emission loop. The wait interval and the trigger condition are
/// captured at spawn time and never change afterwards: later edits in the
/// interactive context have no effect on a running loop.
#[derive(Clone, Copy, Debug, PartialEq, Eq, Structural)]
pub struct ClickScheduler {
    pub wait_ns: u64,
    pub condition: TriggerCondition,
    pub phase: SchedulerPhase,
}

impl ClickScheduler {
    /// A freshly spawned loop, bound to its snapshot, in phase `Running`.
    pub fn new(wait_ns: u64, condition: TriggerCondition) -> (r: Self)
        ensures
            r.wait_ns == wait_ns,
            r.condition == condition,
            r.phase is Running,
    {
        ClickScheduler { wait_ns, condition, phase: SchedulerPhase::Running }
    }

    /// Decide one iteration: `running` is the value just read from the
    /// shared flag, `pressed` the key snapshot just polled. An idle flag
    /// moves the loop to `Stopping` and emits nothing; otherwise the phase
    /// stays `Running` and a click is decided exactly when the captured
    /// condition fires. At most one click per iteration.
    pub fn step(&mut self, running: bool, pressed: &Vec<KeyId>) -> (a: SchedulerAction)
        requires
            old(self).phase is Running,
        ensures
            a == spec_step_action(old(self).condition, running, pressed@.to_set()),
            final(self).wait_ns == old(self).wait_ns,
            final(self).condition == old(self).condition,
            final(self).phase == (if running { SchedulerPhase::Running } else {
                SchedulerPhase::Stopping
            }),
    {
        if !running {
            self.phase = SchedulerPhase::Stopping;
            SchedulerAction::Exit
        } else if self.condition.evaluate(pressed) {
            SchedulerAction::Click
        } else {
            SchedulerAction::Skip
        }
    }

    /// The click injection of this iteration failed: the loop stops
    /// gracefully instead of aborting the process, and the error is
    /// surfaced to the run controller.
    pub fn report_click_failure(&mut self) -> (e: ClickInjectionError)
        requires
            old(self).phase is Running,
        ensures
            final(self).wait_ns == old(self).wait_ns,
            final(self).condition == old(self).condition,
            final(self).phase is Stopping,
    {
        self.phase = SchedulerPhase::Stopping;
        ClickInjectionError
    }

    /// The loop has wound down: the terminal phase is reached. No further
    /// side effects are possible, and no phase leaves `Stopped`.
    pub fn exit_complete(&mut self)
        requires
            old(self).phase is Stopping,
        ensures
            final(self).wait_ns == old(self).wait_ns,
            final(self).condition == old(self).condition,
            final(self).phase is Stopped,
    {
        self.phase = SchedulerPhase::Stopped;
    }
}

/// Once the shared flag reads idle, the very next iteration exits without
/// emitting a click, whatever the condition and whatever keys are pressed:
/// emission ceases within one polling round of `stop`.
pub proof fn lemma_stop_halts_emission(cond: TriggerCondition, pressed: Set<KeyId>)
    ensures
        spec_step_action(cond, false, pressed) is Exit,
{
}

/// While the flag reads active, an iteration emits a click exactly when the
/// captured condition fires, and never exits on its own.
pub proof fn lemma_active_step_clicks_iff_fires(cond: TriggerCondition, pressed: Set<KeyId>)
    ensures
        spec_step_action(cond, true, pressed) is Click <==> fires(cond, pressed),
        !(spec_step_action(cond, true, pressed) is Exit),
{
}

} // verus!

//! The interactive engine state: the edit buffer and its validity flag, the
//! active unit, the canonical rate pair, the key-capture protocol, the
//! trigger condition, and the run controller. The front end forwards each
//! discrete event (a text edit, a unit switch, a button press, a polled key
//! snapshot) to one method here and renders the resulting state; every
//! decision is made in this module.

use vstd::prelude::*;
use crate::controller::{AlreadyRunning, RunController};
use crate::digits;
use crate::digits::{decimal_of, digits_value, parses_as_u64};
use crate::rate;
use crate::rate::{accepts, spec_display_of, spec_pair_of, RateSpecification, RateUnit};
use crate::scheduler::ClickScheduler;
use crate::trigger::{ConditionMode, KeyId, TriggerCondition};

verus! {

/// The rate configured before any edit, in clicks per second.
pub const DEFAULT_CPS: u64 = 60;

/// Whether the engine is in its ordinary mode or suspended awaiting the next
/// key, which becomes the trigger condition.
#[derive(Clone, Copy, Debug, PartialEq, Eq, Structural)]
pub enum CaptureState {
    Idle,
    CapturingCondition,
}

/// The engine state shared with no one: the front end owns it and calls one
/// method per event. Only the run flag inside `controller` is mirrored into
/// an atomic cell for the background loop to read.
#[derive(Debug)]
pub struct AutoShooter {
    /// Raw bytes of the rate edit box, decoupled from the canonical pair so
    /// that transient invalid keystrokes never corrupt the last good rate.
    pub input: Vec<u8>,
    /// Whether the last edit was accepted into the canonical pair.
    pub is_valid_input: bool,
    /// The key-capture protocol state.
    pub capture: CaptureState,
    /// The condition key, if one is set; absent means "always fire".
    pub condition: Option<KeyId>,
    /// Whether the condition key gates clicks while held or while released.
    pub condition_mode: ConditionMode,
    /// The unit the edit box currently speaks.
    pub state: RateUnit,
    /// The unit whose edit last produced the canonical pair.
    pub calculated_from: RateUnit,
    /// The canonical pair, rederived on every accepted edit.
    pub rate: RateSpecification,
    /// The active/idle flag and the start/stop protocol.
    pub controller: RunController,
    /// The key that clears the condition instead of becoming it.
    pub cancel_key: KeyId,
}

/// An edit of `text` is accepted against the active unit `unit` exactly when
/// the bytes parse as a decimal numeral and the value passes the unit's
/// range check.
pub open spec fn edit_accepted(unit: RateUnit, text: Seq<u8>) -> bool {
    parses_as_u64(text) && accepts(unit, digits_value(text) as u64)
}

/// The engine state after one key-capture poll that observed `keys`: while
/// capturing, the first observed key ends the capture session — the cancel
/// key by clearing the condition, every other key by becoming it. An empty
/// snapshot, or a poll outside a capture session, changes nothing.
pub open spec fn after_capture_observe(e: AutoShooter, keys: Seq<KeyId>) -> AutoShooter {
    if e.capture is CapturingCondition && keys.len() > 0 {
        AutoShooter {
            capture: CaptureState::Idle,
            condition: if keys[0] == e.cancel_key {
                Option::None
            } else {
                Option::Some(keys[0])
            },
            ..e
        }
    } else {
        e
    }
}

/// Everything but the run controller agrees between `a` and `b`.
pub open spec fn same_config(a: AutoShooter, b: AutoShooter) -> bool {
    &&& a.input == b.input
    &&& a.is_valid_input == b.is_valid_input
    &&& a.capture == b.capture
    &&& a.condition == b.condition
    &&& a.condition_mode == b.condition_mode
    &&& a.state == b.state
    &&& a.calculated_from == b.calculated_from
    &&& a.rate == b.rate
    &&& a.cancel_key == b.cancel_key
}

impl AutoShooter {
    /// A fresh engine: sixty clicks per second, edit box showing that value
    /// in the clicks-per-second unit, no condition, mode `OnPressed`, not
    /// capturing, idle. `cancel_key` is the key that clears the condition
    /// during capture.
    pub fn new(cancel_key: KeyId) -> (r: Self)
        ensures
            r.input@ == decimal_of(DEFAULT_CPS as nat),
            r.is_valid_input,
            r.capture is Idle,
            r.condition is None,
            r.condition_mode is OnPressed,
            r.state is Cps,
            r.calculated_from is Cps,
            r.rate == spec_pair_of(RateUnit::Cps, DEFAULT_CPS),
            r.rate.wf(),
            !r.controller.running,
            r.cancel_key == cancel_key,
    {
        proof {
            vstd::arithmetic::div_mod::lemma_div_non_zero(
                rate::NANOS_PER_SECOND as int,
                DEFAULT_CPS as int,
            );
        }
        let pair = match rate::set(RateUnit::Cps, DEFAULT_CPS) {
            Ok(p) => p,
            Err(_) => vstd::pervasive::unreached(),
        };
        AutoShooter {
            input: digits::format_u64(DEFAULT_CPS),
            is_valid_input: true,
            capture: CaptureState::Idle,
            condition: None,
            condition_mode: ConditionMode::OnPressed,
            state: RateUnit::Cps,
            calculated_from: RateUnit::Cps,
            rate: pair,
            controller: RunController::new(),
            cancel_key,
        }
    }

    /// Enter capture mode: ordinary rate editing is suspended until the next
    /// polled key ends the session.
    pub fn begin_capture(&mut self)
        ensures
            final(self).capture is CapturingCondition,
            final(self).condition == old(self).condition,
            final(self).condition_mode == old(self).condition_mode,
            final(self).input == old(self).input,
            final(self).is_valid_input == old(self).is_valid_input,
            final(self).state == old(self).state,
            final(self).calculated_from == old(self).calculated_from,
            final(self).rate == old(self).rate,
            final(self).controller == old(self).controller,
            final(self).cancel_key == old(self).cancel_key,
    {
        self.capture = CaptureState::CapturingCondition;
    }

    /// Feed one polled key snapshot to the capture protocol. Exactly one key
    /// transition is consumed per capture session: the first key observed
    /// becomes the condition, except the cancel key, which clears it.
    pub fn capture_observe(&mut self, keys: &Vec<KeyId>)
        ensures
            *final(self) == after_capture_observe(*old(self), keys@),
    {
        match self.capture {
            CaptureState::Idle => {}
            CaptureState::CapturingCondition => {
                if keys.len() > 0 {
                    let k = keys[0];
                    if k == self.cancel_key {
                        self.condition = None;
                    } else {
                        self.condition = Some(k);
                    }
                    self.capture = CaptureState::Idle;
                }
            }
        }
    }

    /// Apply one edit of the rate text. The bytes are kept as the new edit
    /// buffer. When they parse and pass the active unit's range check, the
    /// canonical pair is rederived from them and the validity flag is set;
    /// otherwise — non-numeric text, zero, or a value whose derived rate or
    /// interval truncates to zero — the flag is cleared and the last good
    /// pair is retained untouched.
    pub fn handle_edit(&mut self, text: Vec<u8>)
        ensures
            final(self).input@ == text@,
            final(self).is_valid_input == edit_accepted(old(self).state, text@),
            edit_accepted(old(self).state, text@) ==> {
                &&& final(self).rate == spec_pair_of(
                    old(self).state,
                    digits_value(text@) as u64,
                )
                &&& final(self).rate.wf()
                &&& final(self).calculated_from == old(self).state
            },
            !edit_accepted(old(self).state, text@) ==> {
                &&& final(self).rate == old(self).rate
                &&& final(self).calculated_from == old(self).calculated_from
            },
            final(self).capture == old(self).capture,
            final(self).condition == old(self).condition,
            final(self).condition_mode == old(self).condition_mode,
            final(self).state == old(self).state,
            final(self).controller == old(self).controller,
            final(self).cancel_key == old(self).cancel_key,
    {
        self.input = text;
        match digits::parse_u64(&self.input) {
            None => {
                self.is_valid_input = false;
            }
            Some(v) => {
                match rate::set(self.state, v) {
                    Ok(pair) => {
                        self.rate = pair;
                        self.calculated_from = self.state;
                        self.is_valid_input = true;
                    }
                    Err(_) => {
                        self.is_valid_input = false;
                    }
                }
            }
        }
    }

    /// Make `unit` the active unit and rewrite the edit buffer with that
    /// unit's value, recomputed from the current canonical pair — never from
    /// stale raw text, so repeated unit toggles cannot drift.
    pub fn switch_unit(&mut self, unit: RateUnit)
        ensures
            final(self).state == unit,
            final(self).input@ == decimal_of(spec_display_of(old(self).rate, unit) as nat),
            final(self).is_valid_input == old(self).is_valid_input,
            final(self).capture == old(self).capture,
            final(self).condition == old(self).condition,
            final(self).condition_mode == old(self).condition_mode,
            final(self).calculated_from == old(self).calculated_from,
            final(self).rate == old(self).rate,
            final(self).controller == old(self).controller,
            final(self).cancel_key == old(self).cancel_key,
    {
        self.state = unit;
        let shown = self.rate.display_value(unit);
        self.input = digits::format_u64(shown);
    }

    /// Select how the condition key gates clicks.
    pub fn set_condition_mode(&mut self, mode: ConditionMode)
        ensures
            final(self).condition_mode == mode,
            final(self).condition == old(self).condition,
            final(self).capture == old(self).capture,
            final(self).input == old(self).input,
            final(self).is_valid_input == old(self).is_valid_input,
            final(self).state == old(self).state,
            final(self).calculated_from == old(self).calculated_from,
            final(self).rate == old(self).rate,
            final(self).controller == old(self).controller,
            final(self).cancel_key == old(self).cancel_key,
    {
        self.condition_mode = mode;
    }

    /// The trigger condition a loop spawned now would capture.
    pub fn trigger_condition(&self) -> (r: TriggerCondition)
        ensures
            r.key == self.condition,
            r.mode == self.condition_mode,
    {
        TriggerCondition { key: self.condition, mode: self.condition_mode }
    }

    /// Request a run. Succeeds exactly when idle: the flag is set and the
    /// one new emission loop is returned, bound to a snapshot of the current
    /// wait interval and trigger condition. When already active, answers
    /// `AlreadyRunning`, changes nothing and hands out no second loop, so
    /// the click stream is never doubled.
    pub fn start(&mut self) -> (r: Result<ClickScheduler, AlreadyRunning>)
        ensures
            r is Ok <==> !old(self).controller.running,
            final(self).controller.running,
            same_config(*final(self), *old(self)),
            r matches Ok(s) ==> {
                &&& s.wait_ns == old(self).rate.wait_ns
                &&& s.condition.key == old(self).condition
                &&& s.condition.mode == old(self).condition_mode
                &&& s.phase is Running
            },
            r is Err ==> final(self).controller == old(self).controller,
    {
        match self.controller.start() {
            Ok(()) => {
                let cond = TriggerCondition { key: self.condition, mode: self.condition_mode };
                Ok(ClickScheduler::new(self.rate.wait_ns, cond))
            }
            Err(e) => Err(e),
        }
    }

    /// Clear the run flag; idempotent when idle. The running loop observes
    /// the cleared flag within one wait interval and exits.
    pub fn stop(&mut self)
        ensures
            !final(self).controller.running,
            same_config(*final(self), *old(self)),
    {
        self.controller.stop();
    }

    /// Pure observation of the run flag.
    pub fn is_running(&self) -> (r: bool)
        ensures
            r == self.controller.running,
    {
        self.controller.is_running()
    }
}

} // verus!

//! The trigger policy: given a snapshot of the currently pressed keys,
//! decide whether a click fires this iteration. An absent condition means
//! "always fire"; otherwise the condition key gates the click, held or
//! released according to the mode.

use vstd::prelude::*;

verus! {

/// A keyboard key, as the numeric identifier the key-state service reports.
pub type KeyId = u32;

/// Whether the condition key gates clicks while held or while released.
#[derive(Clone, Copy, Debug, PartialEq, Eq, Structural)]
pub enum ConditionMode {
    OnPressed,
    OnReleased,
}

/// The optional condition key together with its mode.
#[derive(Clone, Copy, Debug, PartialEq, Eq, Structural)]
pub struct TriggerCondition {
    pub key: Option<KeyId>,
    pub mode: ConditionMode,
}

/// Whether a click fires under `cond` for the pressed-key set `pressed`:
/// always with no condition key; with one, exactly when the key's membership
/// in `pressed` matches the mode.
pub open spec fn fires(cond: TriggerCondition, pressed: Set<KeyId>) -> bool {
    match cond.key {
        None => true,
        Some(k) => match cond.mode {
            ConditionMode::OnPressed => pressed.contains(k),
            ConditionMode::OnReleased => !pressed.contains(k),
        },
    }
}

/// Whether `keys` contains `key`.
fn keys_contain(keys: &Vec<KeyId>, key: KeyId) -> (r: bool)
    ensures
        r == keys@.contains(key),
{
    let mut i: usize = 0;
    while i < keys.len()
        invariant
            0 <= i <= keys@.len(),
            forall|j: int| 0 <= j < i ==> keys@[j] != key,
        decreases keys@.len() - i,
    {
        if keys[i] == key {
            return true;
        }
        i = i + 1;
    }
    false
}

impl TriggerCondition {
    /// A condition that always fires.
    pub fn always() -> (r: Self)
        ensures
            r.key is None,
            r.mode is OnPressed,
    {
        TriggerCondition { key: None, mode: ConditionMode::OnPressed }
    }

    /// Evaluate the policy against a snapshot of pressed keys.
    pub fn evaluate(&self, pressed: &Vec<KeyId>) -> (r: bool)
        ensures
            r == fires(*self, pressed@.to_set()),
    {
        match self.key {
            None => true,
            Some(k) => {
                let held = keys_contain(pressed, k);
                proof {
                    assert(pressed@.to_set().contains(k) == pressed@.contains(k));
                }
                match self.mode {
                    ConditionMode::OnPressed => held,
                    ConditionMode::OnReleased => !held,
                }
            }
        }
    }
}

/// With no condition key set, the policy fires for every pressed-key set,
/// the empty set included.
pub proof fn lemma_no_condition_always_fires(cond: TriggerCondition, pressed: Set<KeyId>)
    requires
        cond.key is None,
    ensures
        fires(cond, pressed),
{
}

/// For a fixed condition key and a fixed pressed-key set, the two modes are
/// logical complements: exactly one of them fires.
pub proof fn lemma_modes_complementary(key: KeyId, pressed: Set<KeyId>)
    ensures
        fires(TriggerCondition { key: Some(key), mode: ConditionMode::OnPressed }, pressed)
            != fires(TriggerCondition { key: Some(key), mode: ConditionMode::OnReleased }, pressed),
{
}

} // verus!

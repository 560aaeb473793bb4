//! Driving `systemctl`: the actions and states of units, how the output of
//! `systemctl is-active` / `is-enabled` is read, and when to stop waiting.
use vstd::prelude::*;

use crate::error::GfxError;
use crate::text::{contains_seq, str_contains};

verus! {

/// An action for `systemctl`
#[derive(Debug, Copy, Clone, PartialEq, Eq, Structural)]
pub enum SystemdUnitAction {
    Stop,
    Start,
    Restart,
}

impl SystemdUnitAction {
    pub fn as_str(self) -> (r: &'static str)
        ensures
            r@ == (match self {
                SystemdUnitAction::Stop => "stop"@,
                SystemdUnitAction::Start => "start"@,
                SystemdUnitAction::Restart => "restart"@,
            }),
    {
        match self {
            SystemdUnitAction::Stop => "stop",
            SystemdUnitAction::Start => "start",
            SystemdUnitAction::Restart => "restart",
        }
    }
}

#[derive(Debug, Copy, Clone, PartialEq, Eq, Structural)]
pub enum SystemdUnitState {
    Active,
    Inactive,
}

pub open spec fn state_word(s: SystemdUnitState) -> Seq<char> {
    match s {
        SystemdUnitState::Active => "active"@,
        SystemdUnitState::Inactive => "inactive"@,
    }
}

impl SystemdUnitState {
    pub fn as_str(self) -> (r: &'static str)
        ensures
            r@ == state_word(self),
    {
        match self {
            SystemdUnitState::Active => "active",
            SystemdUnitState::Inactive => "inactive",
        }
    }
}

/// The bytes of an ASCII word.
pub open spec fn ascii_bytes(w: Seq<char>) -> Seq<u8> {
    w.map_values(|c: char| c as u8)
}

pub open spec fn bytes_start_with(s: Seq<u8>, prefix: Seq<u8>) -> bool {
    prefix.len() <= s.len() && s.subrange(0, prefix.len() as int) == prefix
}

/// Whether the output of `systemctl is-active` reports the unit in `state`:
/// it begins with the state's name.
pub fn is_systemd_unit_state(state: SystemdUnitState, stdout: &[u8]) -> (r: bool)
    ensures
        r == bytes_start_with(stdout@, ascii_bytes(state_word(state))),
{
    let word: &[u8] = match state {
        SystemdUnitState::Active => &[97u8, 99, 116, 105, 118, 101],
        SystemdUnitState::Inactive => &[105u8, 110, 97, 99, 116, 105, 118, 101],
    };
    proof {
        reveal_strlit("active");
        reveal_strlit("inactive");
        assert(word@ =~= ascii_bytes(state_word(state)));
    }
    if word.len() > stdout.len() {
        assert(word@.len() > stdout@.len());
        return false;
    }
    let mut i: usize = 0;
    while i < word.len()
        invariant
            i <= word.len() <= stdout.len(),
            word@ == ascii_bytes(state_word(state)),
            forall|j: int| 0 <= j < i ==> stdout@[j] == word@[j],
        decreases word.len() - i,
    {
        if stdout[i] != word[i] {
            assert(stdout@.subrange(0, word@.len() as int)[i as int] != word@[i as int]);
            return false;
        }
        i = i + 1;
    }
    assert(stdout@.subrange(0, word@.len() as int) =~= word@);
    true
}

/// How many times the unit state is checked (every quarter second) before
/// giving up: three seconds' worth and one more.
pub const UNIT_WAIT_CHECKS: u32 = 13;

/// What to do after a check of a unit's state while waiting for it.
pub enum UnitWait {
    Done,
    /// Check again (after a quarter second) as check number `n`
    CheckAgain(u32),
    TimedOut(GfxError),
}

/// After check number `count` (from 0) found the unit in the wanted state or
/// not: done, check again, or give up after the last check.
pub fn unit_wait_step(state: SystemdUnitState, count: u32, reached: bool) -> (r: UnitWait)
    requires
        count < UNIT_WAIT_CHECKS,
    ensures
        reached ==> r is Done,
        !reached && count + 1 < UNIT_WAIT_CHECKS ==> r == UnitWait::CheckAgain((count + 1) as u32),
        !reached && count + 1 == UNIT_WAIT_CHECKS ==> (r matches UnitWait::TimedOut(e) && e matches GfxError::SystemdUnitWaitTimeout(
            m,
        ) && m@ == state_word(state)),
{
    if reached {
        return UnitWait::Done;
    }
    if count + 1 < UNIT_WAIT_CHECKS {
        return UnitWait::CheckAgain(count + 1);
    }
    UnitWait::TimedOut(GfxError::SystemdUnitWaitTimeout(state.as_str().to_owned()))
}

/// Whether the output of `systemctl is-active` says a unit is running:
/// neither "inactive" nor "failed".
pub fn check_systemd_unit_active(stdout: &str) -> (r: bool)
    ensures
        r == (!contains_seq(stdout@, "inactive"@) && !contains_seq(stdout@, "failed"@)),
{
    !str_contains(stdout, "inactive") && !str_contains(stdout, "failed")
}

/// Whether the output of `systemctl is-enabled` says a unit is enabled.
pub fn check_systemd_unit_enabled(stdout: &str) -> (r: bool)
    ensures
        r == contains_seq(stdout@, "enabled"@),
{
    str_contains(stdout, "enabled")
}

} // verus!

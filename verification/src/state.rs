//! Combat states of a fighter.

use vstd::prelude::*;

verus! {

/// What a fighter is doing. `Idling` is the state every fighter starts in
/// and `Dying` is the state no fighter leaves.
#[derive(Clone, Copy, Debug, PartialEq, Eq, Structural, Hash)]
pub enum State {
    Attacking,
    Dying,
    Falling,
    Idling,
    Jumping,
    Running,
    TakingHit,
}

impl Default for State {
    fn default() -> (s: Self)
        ensures
            s == State::Idling,
    {
        State::Idling
    }
}

impl State {
    /// A locked state ignores input and ends only when its animation has
    /// played to the last frame.
    pub open spec fn locked(&self) -> bool {
        *self == State::Attacking || *self == State::TakingHit
    }

    /// The states that the physics of a living, unlocked fighter select.
    pub open spec fn free(&self) -> bool {
        *self == State::Falling || *self == State::Idling || *self == State::Jumping
            || *self == State::Running
    }

    /// Whether the state is `Attacking` or `TakingHit`.
    #[verifier::when_used_as_spec(locked)]
    pub fn is_locked(&self) -> (b: bool)
        ensures
            b == self.locked(),
    {
        match self {
            State::Attacking | State::TakingHit => true,
            _ => false,
        }
    }

    /// Whether the state is one of `Falling`, `Idling`, `Jumping`, `Running`.
    #[verifier::when_used_as_spec(free)]
    pub fn is_free(&self) -> (b: bool)
        ensures
            b == self.free(),
    {
        match self {
            State::Falling | State::Idling | State::Jumping | State::Running => true,
            _ => false,
        }
    }
}

/// Every state is exactly one of locked, free or `Dying`.
pub proof fn theorem_state_partition(s: State)
    ensures
        s.locked() || s.free() || s == State::Dying,
        !(s.locked() && s.free()),
        s == State::Dying ==> !s.locked() && !s.free(),
{
}

} // verus!

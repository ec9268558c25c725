use vstd::prelude::*;

verus! {

/// What the ship's thrust does along one axis during a frame.
#[derive(Clone, Copy, Debug, PartialEq, Eq, Structural)]
pub enum Steer {
    /// Accelerate towards the negative end of the axis (left or up).
    Negative,
    /// Accelerate towards the positive end of the axis (right or down).
    Positive,
    /// No key held: the speed decays towards zero.
    Coast,
}

/// The steering decision for one axis, given which of its two keys are held.
pub open spec fn steer_spec(negative_held: bool, positive_held: bool) -> Steer {
    if negative_held {
        Steer::Negative
    } else if positive_held {
        Steer::Positive
    } else {
        Steer::Coast
    }
}

/// Chooses the thrust along one axis. The key towards the negative end wins
/// when both keys are held.
pub fn steer(negative_held: bool, positive_held: bool) -> (s: Steer)
    ensures
        s == steer_spec(negative_held, positive_held),
        negative_held ==> s == Steer::Negative,
        !negative_held && positive_held ==> s == Steer::Positive,
        !negative_held && !positive_held ==> s == Steer::Coast,
{
    if negative_held {
        Steer::Negative
    } else if positive_held {
        Steer::Positive
    } else {
        Steer::Coast
    }
}

/// Holding the negative key always steers that way, whatever the other key;
/// the positive key steers only on its own; with no key held the ship coasts.
pub proof fn law_negative_key_wins(negative_held: bool, positive_held: bool)
    ensures
        negative_held ==> steer_spec(negative_held, positive_held) == Steer::Negative,
        !negative_held && positive_held ==> steer_spec(negative_held, positive_held)
            == Steer::Positive,
        !negative_held && !positive_held ==> steer_spec(negative_held, positive_held)
            == Steer::Coast,
{
}

} // verus!

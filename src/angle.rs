//! Quadrant resolution for angles recovered from an arccosine.
//!
//! `acos` only yields values in `[0, π]`. The orbital angles (true anomaly,
//! argument of periapsis, longitude of the ascending node) range over a full
//! turn, so each is resolved by the sign of one companion quantity: the
//! radial velocity for the true anomaly, the z component of the eccentricity
//! vector for the argument of periapsis, and the y component of the node
//! vector for the ascending node.
use core::cmp::Ordering;
use vstd::prelude::*;

verus! {

/// Which of the two angles with a given cosine is meant.
#[derive(Clone, Copy, Debug, PartialEq, Eq, Structural)]
pub enum AngleBranch {
    /// The arccosine itself, in `[0, π]`.
    Principal,
    /// The full turn less the arccosine, `2π - acos(x)`, in `[π, 2π]`.
    Reflected,
}

impl AngleBranch {
    /// The branch selected by the companion quantity's comparison with zero
    /// (`vs_zero`, as `partial_cmp` reports it): reflected exactly when the
    /// quantity is negative.
    pub fn from_sign(vs_zero: Option<Ordering>) -> (r: AngleBranch)
        ensures
            r == AngleBranch::Reflected <==> vs_zero == Some(Ordering::Less),
    {
        match vs_zero {
            Some(Ordering::Less) => AngleBranch::Reflected,
            _ => AngleBranch::Principal,
        }
    }
}

} // verus!

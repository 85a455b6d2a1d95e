//! Orbit classification by eccentricity, and which form of Kepler's
//! equation each class admits.
use core::cmp::Ordering;
use vstd::prelude::*;

use crate::error::OrbitError;

verus! {

/// The conic an orbit traces, decided once from its eccentricity.
#[derive(Clone, Copy, Debug, PartialEq, Eq, Structural)]
pub enum OrbitType {
    /// Eccentricity exactly zero.
    Circular,
    /// Eccentricity strictly between zero and one.
    Elliptic,
    /// Eccentricity exactly one.
    Parabolic,
    /// Every other eccentricity: above one, or not comparable.
    Hyperbolic,
}

/// The two forms of Kepler's equation that the solver knows.
#[derive(Clone, Copy, Debug, PartialEq, Eq, Structural)]
pub enum KeplerForm {
    /// `E - e sin E = M`, solved for the eccentric anomaly `E`.
    Elliptic,
    /// `e sinh F - F = N`, solved for the hyperbolic anomaly `F`.
    Hyperbolic,
}

/// The orbit type of an eccentricity `e`, given `e.partial_cmp(0)` and
/// `e.partial_cmp(1)`. The tests are exact: no tolerance band is applied at
/// either boundary.
pub open spec fn classification(vs_zero: Option<Ordering>, vs_one: Option<Ordering>) -> OrbitType {
    if vs_zero == Some(Ordering::Equal) {
        OrbitType::Circular
    } else if vs_zero == Some(Ordering::Greater) && vs_one == Some(Ordering::Less) {
        OrbitType::Elliptic
    } else if vs_one == Some(Ordering::Equal) {
        OrbitType::Parabolic
    } else {
        OrbitType::Hyperbolic
    }
}

/// The Kepler form an orbit type admits; circular and parabolic orbits have
/// none in this engine.
pub open spec fn kepler_form_of(orbit: OrbitType) -> Option<KeplerForm> {
    match orbit {
        OrbitType::Elliptic => Some(KeplerForm::Elliptic),
        OrbitType::Hyperbolic => Some(KeplerForm::Hyperbolic),
        OrbitType::Circular => None,
        OrbitType::Parabolic => None,
    }
}

/// How two integers compare, as `partial_cmp` reports it.
pub open spec fn compare(a: int, b: int) -> Option<Ordering> {
    if a < b {
        Some(Ordering::Less)
    } else if a == b {
        Some(Ordering::Equal)
    } else {
        Some(Ordering::Greater)
    }
}

/// For an eccentricity given exactly as the ratio `num / den`, the
/// classification falls into the four bands: zero is circular, strictly
/// between zero and one is elliptic, one is parabolic, above one is
/// hyperbolic.
pub proof fn classification_bands(num: int, den: int)
    requires
        den > 0,
        num >= 0,
    ensures
        num == 0 ==> classification(compare(num, 0), compare(num, den)) == OrbitType::Circular,
        0 < num < den ==> classification(compare(num, 0), compare(num, den))
            == OrbitType::Elliptic,
        num == den ==> classification(compare(num, 0), compare(num, den)) == OrbitType::Parabolic,
        num > den ==> classification(compare(num, 0), compare(num, den))
            == OrbitType::Hyperbolic,
{
}

/// A circular orbit, whatever its eccentricity's comparison with one, has
/// no Kepler form: any anomaly conversion that depends on Kepler's equation
/// is refused for it.
pub proof fn circular_orbit_has_no_kepler_form(vs_one: Option<Ordering>)
    ensures
        classification(Some(Ordering::Equal), vs_one) == OrbitType::Circular,
        kepler_form_of(classification(Some(Ordering::Equal), vs_one)) is None,
{
}

impl OrbitType {
    /// Classifies an orbit from how its eccentricity compares with zero
    /// (`vs_zero`) and with one (`vs_one`), as `partial_cmp` reports it.
    pub fn new(vs_zero: Option<Ordering>, vs_one: Option<Ordering>) -> (r: OrbitType)
        ensures
            r == classification(vs_zero, vs_one),
    {
        match (vs_zero, vs_one) {
            (Some(Ordering::Equal), _) => OrbitType::Circular,
            (Some(Ordering::Greater), Some(Ordering::Less)) => OrbitType::Elliptic,
            (_, Some(Ordering::Equal)) => OrbitType::Parabolic,
            _ => OrbitType::Hyperbolic,
        }
    }

    /// The form of Kepler's equation that propagation along this orbit uses.
    /// Circular and parabolic orbits are refused with
    /// `InvalidOrbitOperation`, so that no anomaly is ever computed for them.
    pub fn kepler_form(&self) -> (r: Result<KeplerForm, OrbitError>)
        ensures
            match kepler_form_of(*self) {
                Some(form) => r == Ok::<KeplerForm, OrbitError>(form),
                None => r == Err::<KeplerForm, OrbitError>(
                    OrbitError::InvalidOrbitOperation { orbit: *self },
                ),
            },
    {
        match self {
            OrbitType::Elliptic => Ok(KeplerForm::Elliptic),
            OrbitType::Hyperbolic => Ok(KeplerForm::Hyperbolic),
            OrbitType::Circular => Err(OrbitError::InvalidOrbitOperation { orbit: *self }),
            OrbitType::Parabolic => Err(OrbitError::InvalidOrbitOperation { orbit: *self }),
        }
    }
}

} // verus!

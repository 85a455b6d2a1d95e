//! The failures that the orbit engine reports.
use vstd::prelude::*;

use crate::orbit_type::OrbitType;

verus! {

/// A recoverable failure of an orbit computation, returned to the caller of
/// the accessor or propagation step that failed.
#[derive(Clone, Copy, Debug, PartialEq, Eq, Structural)]
pub enum OrbitError {
    /// Kepler's equation, or an anomaly conversion that depends on it, was
    /// asked of an orbit that has no such form (circular or parabolic).
    InvalidOrbitOperation { orbit: OrbitType },
    /// The Kepler iteration used its whole budget without meeting its
    /// tolerance.
    NonConvergence,
    /// A vector that an angle is measured from has zero length (equatorial,
    /// circular or radial orbit), so the angle is undefined.
    DegenerateGeometry,
}

/// The text that describes an error to a reader.
pub open spec fn error_text(e: OrbitError) -> Seq<char> {
    match e {
        OrbitError::InvalidOrbitOperation { orbit: OrbitType::Circular } =>
            "cannot use Kepler's equation with a circular orbit"@,
        OrbitError::InvalidOrbitOperation { orbit: OrbitType::Parabolic } =>
            "cannot use Kepler's equation with a parabolic orbit"@,
        OrbitError::InvalidOrbitOperation { orbit: _ } =>
            "Kepler's equation does not apply to this orbit"@,
        OrbitError::NonConvergence =>
            "Kepler's equation did not converge within the iteration budget"@,
        OrbitError::DegenerateGeometry =>
            "a reference vector has zero length, so the angle is undefined"@,
    }
}

impl OrbitError {
    /// Describes the error in one line of text.
    pub fn message(&self) -> (r: String)
        ensures
            r@ == error_text(*self),
    {
        match self {
            OrbitError::InvalidOrbitOperation { orbit: OrbitType::Circular } =>
                String::from_str("cannot use Kepler's equation with a circular orbit"),
            OrbitError::InvalidOrbitOperation { orbit: OrbitType::Parabolic } =>
                String::from_str("cannot use Kepler's equation with a parabolic orbit"),
            OrbitError::InvalidOrbitOperation { orbit: _ } =>
                String::from_str("Kepler's equation does not apply to this orbit"),
            OrbitError::NonConvergence =>
                String::from_str("Kepler's equation did not converge within the iteration budget"),
            OrbitError::DegenerateGeometry =>
                String::from_str("a reference vector has zero length, so the angle is undefined"),
        }
    }
}

} // verus!

//! Decision logic of a two-body orbit-state engine.
//!
//! The numerical side of the engine (vectors, trigonometry, Newton steps) is
//! floating point and lives with the caller. What this crate holds is the
//! part of the engine that decides: the classification of an orbit from how
//! its eccentricity compares with zero and one, which form of Kepler's
//! equation applies to an orbit type, the iteration budget of the Kepler
//! solver, the branch of an angle recovered from its cosine, and the error
//! taxonomy that all of these report through.
pub mod angle;
pub mod calendar;
pub mod error;
pub mod kepler;
pub mod orbit_type;
pub mod text;

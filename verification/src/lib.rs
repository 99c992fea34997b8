//! A two-dimensional binary-spin lattice engine with a Metropolis accept/reject
//! step, meant to be driven by a host that owns the scalar parameters
//! (pairing energy, external field, temperature) and the cooling schedule.
//!
//! The lattice, its energy accounting and the commit/discard step are verified.
//! Energies are reported as exact integer coefficients (a matching-pair count
//! and a field coefficient); the host combines them with its scalar parameters.

pub mod energy;
pub mod lattice;
pub mod rng;
pub mod step;
pub mod spin;

//! Integer core of seeded 2D lattice noise: permutation tables, lattice
//! hashing and gradient selection for Perlin-style and simplex-style noise,
//! and the intensity grid that a sampled field is written into.
//!
//! A seed fixes a permutation table, the table fixes the hash of every
//! lattice point, and the low three bits of a hash fix the gradient at that
//! point. Blending the corners' contributions at a sample point is
//! floating-point work and is left to the caller, who hands the resulting
//! intensities to [`grid::IntensityGrid::from_fn`].

pub mod config;
pub mod gradient;
pub mod grid;
pub mod lattice;
pub mod perlin;
pub mod permutation;
pub mod simplex;

//! Configuration at the boundary: which engine a name selects, which image
//! sizes are accepted, and the engine built from a selection and a seed.

use crate::perlin::{perlin_hash, PerlinNoise};
use crate::permutation::{is_permutation, table_for_seed};
use crate::simplex::{simplex_hash, OpenSimplexNoise};
use vstd::prelude::*;

verus! {

/// The closed set of noise engines.
#[derive(Clone, Copy, Debug, PartialEq, Eq, Structural)]
pub enum NoiseKind {
    Perlin,
    Simplex,
}

/// Why a configuration was turned down before any noise was computed.
#[derive(Clone, Copy, Debug, PartialEq, Eq, Structural)]
pub enum ConfigError {
    /// The engine name is neither `perlin` nor `simplex`.
    UnknownKind,
    /// The image would have no pixels.
    InvalidSize,
}

/// The engine that `name` selects, if any. Names match exactly and case
/// matters.
pub open spec fn kind_named(name: Seq<char>) -> Option<NoiseKind> {
    if name == "perlin"@ {
        Some(NoiseKind::Perlin)
    } else if name == "simplex"@ {
        Some(NoiseKind::Simplex)
    } else {
        None
    }
}

impl NoiseKind {
    /// Selects an engine by name.
    pub fn parse(name: &str) -> (result: Result<NoiseKind, ConfigError>)
        ensures
            result == match kind_named(name@) {
                Some(kind) => Ok::<NoiseKind, ConfigError>(kind),
                None => Err::<NoiseKind, ConfigError>(ConfigError::UnknownKind),
            },
    {
        let name: String = name.to_owned();
        if name == "perlin".to_owned() {
            Ok(NoiseKind::Perlin)
        } else if name == "simplex".to_owned() {
            Ok(NoiseKind::Simplex)
        } else {
            Err(ConfigError::UnknownKind)
        }
    }
}

/// Accepts the side length of an image that has at least one pixel.
pub fn validate_size(size: usize) -> (result: Result<(), ConfigError>)
    ensures
        size > 0 ==> result == Ok::<(), ConfigError>(()),
        size == 0 ==> result == Err::<(), ConfigError>(ConfigError::InvalidSize),
{
    if size == 0 {
        Err(ConfigError::InvalidSize)
    } else {
        Ok(())
    }
}

/// One of the two engines, ready to hash lattice points.
pub enum Engine {
    Perlin(PerlinNoise),
    Simplex(OpenSimplexNoise),
}

impl Engine {
    /// Which engine this is.
    pub open spec fn spec_kind(&self) -> NoiseKind {
        match self {
            Engine::Perlin(_) => NoiseKind::Perlin,
            Engine::Simplex(_) => NoiseKind::Simplex,
        }
    }

    /// The engine's permutation table.
    pub open spec fn table(&self) -> Seq<u8> {
        match self {
            Engine::Perlin(engine) => engine@,
            Engine::Simplex(engine) => engine@,
        }
    }

    /// The hash that this engine gives lattice point `(x, y)`.
    pub open spec fn spec_hash(&self, x: int, y: int) -> u8 {
        match self {
            Engine::Perlin(engine) => perlin_hash(engine@, x, y),
            Engine::Simplex(engine) => simplex_hash(engine@, x, y),
        }
    }

    /// Builds the engine of the given kind whose table belongs to `seed`.
    pub fn new(kind: NoiseKind, seed: usize) -> (engine: Engine)
        ensures
            engine.spec_kind() == kind,
            engine.table() == table_for_seed(seed as u64),
            is_permutation(engine.table()),
    {
        match kind {
            NoiseKind::Perlin => Engine::Perlin(PerlinNoise::new(seed)),
            NoiseKind::Simplex => Engine::Simplex(OpenSimplexNoise::new(seed)),
        }
    }

    /// Which engine this is.
    #[verifier::when_used_as_spec(spec_kind)]
    pub fn kind(&self) -> (kind: NoiseKind)
        ensures
            kind == self.spec_kind(),
    {
        match self {
            Engine::Perlin(_) => NoiseKind::Perlin,
            Engine::Simplex(_) => NoiseKind::Simplex,
        }
    }

    /// The hash that this engine gives lattice point `(x, y)`.
    pub fn hash(&self, x: i64, y: i64) -> (h: u8)
        ensures
            h == self.spec_hash(x as int, y as int),
    {
        match self {
            Engine::Perlin(engine) => engine.hash(x, y),
            Engine::Simplex(engine) => engine.hash(x, y),
        }
    }
}

/// Engines are determined by their kind and seed: two engines of one kind
/// built from one seed give every lattice point the same hash, and so the
/// same gradient.
pub proof fn lemma_same_seed_same_hashes(first: Engine, second: Engine, seed: usize)
    requires
        first.spec_kind() == second.spec_kind(),
        first.table() == table_for_seed(seed as u64),
        second.table() == table_for_seed(seed as u64),
    ensures
        forall|x: int, y: int| first.spec_hash(x, y) == second.spec_hash(x, y),
{
}

} // verus!

//! The eight-way gradient set shared by both noise engines.

use vstd::prelude::*;

verus! {

/// A lattice gradient as integer components: the noise contribution of a
/// corner is the dot product of this vector with the offset from the corner
/// to the sample point.
#[derive(Clone, Copy, Debug, PartialEq, Eq, Structural)]
pub struct Gradient {
    pub x: i8,
    pub y: i8,
}

/// The gradient selected by `hash`, decided by its low three bits.
///
/// Bit 2 picks the primary axis (`x` when clear, `y` when set). Bit 0 flips
/// the sign of the primary component, which has magnitude one. Bit 1 flips
/// the sign of the secondary component, which has magnitude two.
pub open spec fn gradient_of(hash: int) -> (int, int) {
    let h = hash % 8;
    let primary: int = if h % 2 == 1 { -1 } else { 1 };
    let secondary: int = if (h / 2) % 2 == 1 { -2 } else { 2 };
    if h < 4 {
        (primary, secondary)
    } else {
        (secondary, primary)
    }
}

impl Gradient {
    /// The components as mathematical integers.
    pub open spec fn components(self) -> (int, int) {
        (self.x as int, self.y as int)
    }

    /// Selects the gradient for a corner hash.
    pub fn from_hash(hash: u8) -> (g: Gradient)
        ensures
            g.components() == gradient_of(hash as int),
    {
        let h: u8 = hash & 7;
        let flip_primary: bool = h & 1 != 0;
        let flip_secondary: bool = h & 2 != 0;
        assert(h == hash % 8 && flip_primary == (h % 2 == 1) && flip_secondary == ((h / 2) % 2
            == 1)) by (bit_vector)
            requires
                h == hash & 7,
                flip_primary == (h & 1 != 0),
                flip_secondary == (h & 2 != 0),
        ;
        let primary: i8 = if flip_primary { -1 } else { 1 };
        let secondary: i8 = if flip_secondary { -2 } else { 2 };
        if h < 4 {
            Gradient { x: primary, y: secondary }
        } else {
            Gradient { x: secondary, y: primary }
        }
    }
}

} // verus!

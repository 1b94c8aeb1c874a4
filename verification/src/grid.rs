//! The intensity grid: one 8-bit luminance value per pixel of a square
//! image.

use vstd::prelude::*;

verus! {

/// A square grid of 8-bit intensities, addressed by column `x` and row `y`.
pub struct IntensityGrid {
    rows: Vec<Vec<u8>>,
}

/// `cells` holds `size` rows of `size` values each.
pub open spec fn is_square(cells: Seq<Seq<u8>>, size: nat) -> bool {
    &&& cells.len() == size
    &&& forall|y: int| 0 <= y < size ==> (#[trigger] cells[y]).len() == size
}

/// The grid of `size` rows in which every value is zero.
pub open spec fn blank(size: nat) -> Seq<Seq<u8>> {
    Seq::new(size, |y: int| Seq::new(size, |x: int| 0u8))
}

impl View for IntensityGrid {
    type V = Seq<Seq<u8>>;

    /// The rows from top to bottom, each from left to right.
    closed spec fn view(&self) -> Seq<Seq<u8>> {
        Seq::new(self.rows@.len(), |y: int| self.rows@[y]@)
    }
}

impl IntensityGrid {
    /// Every row is as long as the grid is high.
    #[verifier::type_invariant]
    spec fn well_formed(self) -> bool {
        forall|y: int|
            0 <= y < self.rows@.len() ==> (#[trigger] self.rows@[y])@.len() == self.rows@.len()
    }

    /// A grid of `size` by `size` pixels, all of them zero.
    pub fn new(size: usize) -> (grid: Self)
        ensures
            grid@ == blank(size as nat),
    {
        let mut rows: Vec<Vec<u8>> = Vec::new();
        while rows.len() < size
            invariant
                rows@.len() <= size,
                forall|y: int|
                    0 <= y < rows@.len() ==> (#[trigger] rows@[y])@ == Seq::new(
                        size as nat,
                        |x: int| 0u8,
                    ),
            decreases size - rows@.len(),
        {
            let mut row: Vec<u8> = Vec::new();
            while row.len() < size
                invariant
                    row@.len() <= size,
                    forall|x: int| 0 <= x < row@.len() ==> row@[x] == 0u8,
                decreases size - row@.len(),
            {
                row.push(0u8);
            }
            assert(row@ =~= Seq::new(size as nat, |x: int| 0u8));
            rows.push(row);
        }
        let grid = IntensityGrid { rows };
        assert(grid@ =~= blank(size as nat));
        grid
    }

    /// Samples a field: walks the pixels row by row, asks `sample` for the
    /// intensity of each pixel `(x, y)`, and stores what it answers. Pixels
    /// do not depend on one another.
    pub fn from_fn<F: Fn(usize, usize) -> u8>(size: usize, sample: F) -> (grid: Self)
        requires
            forall|x: usize, y: usize| x < size && y < size ==> call_requires(sample, (x, y)),
        ensures
            is_square(grid@, size as nat),
            forall|x: int, y: int|
                0 <= x < size && 0 <= y < size ==> call_ensures(
                    sample,
                    (x as usize, y as usize),
                    #[trigger] grid@[y][x],
                ),
    {
        let mut rows: Vec<Vec<u8>> = Vec::new();
        let mut y: usize = 0;
        while y < size
            invariant
                y <= size,
                rows@.len() == y,
                forall|x: usize, y: usize| x < size && y < size ==> call_requires(sample, (x, y)),
                forall|r: int| 0 <= r < y ==> (#[trigger] rows@[r])@.len() == size,
                forall|c: int, r: int|
                    0 <= c < size && 0 <= r < y ==> call_ensures(
                        sample,
                        (c as usize, r as usize),
                        #[trigger] rows@[r]@[c],
                    ),
            decreases size - y,
        {
            let mut row: Vec<u8> = Vec::new();
            let mut x: usize = 0;
            while x < size
                invariant
                    x <= size,
                    y < size,
                    row@.len() == x,
                    forall|x: usize, y: usize|
                        x < size && y < size ==> call_requires(sample, (x, y)),
                    forall|c: int|
                        0 <= c < x ==> call_ensures(sample, (c as usize, y), #[trigger] row@[c]),
                decreases size - x,
            {
                let value: u8 = sample(x, y);
                row.push(value);
                x += 1;
            }
            rows.push(row);
            y += 1;
        }
        IntensityGrid { rows }
    }

    /// The number of rows, which is also the number of columns.
    pub fn size(&self) -> (size: usize)
        ensures
            is_square(self@, size as nat),
    {
        proof {
            use_type_invariant(self);
        }
        self.rows.len()
    }

    /// The intensity of pixel `(x, y)`.
    pub fn get(&self, x: usize, y: usize) -> (value: u8)
        requires
            y < self@.len(),
            x < self@[y as int].len(),
        ensures
            value == self@[y as int][x as int],
    {
        self.rows[y][x]
    }

    /// Sets the intensity of pixel `(x, y)` and leaves every other pixel as
    /// it was.
    pub fn set(&mut self, x: usize, y: usize, value: u8)
        requires
            y < old(self)@.len(),
            x < old(self)@[y as int].len(),
        ensures
            final(self)@ == old(self)@.update(
                y as int,
                old(self)@[y as int].update(x as int, value),
            ),
    {
        proof {
            use_type_invariant(&*self);
        }
        // The rows are taken out for the write, so that the grid is
        // well-formed whenever it is looked at.
        let mut rows: Vec<Vec<u8>> = Vec::new();
        std::mem::swap(&mut rows, &mut self.rows);
        rows[y][x] = value;
        assert(forall|r: int|
            0 <= r < rows@.len() ==> (#[trigger] rows@[r])@.len() == rows@.len());
        self.rows = rows;
        assert(self@ =~= old(self)@.update(
            y as int,
            old(self)@[y as int].update(x as int, value),
        ));
    }
}

/// Sampling is repeatable: two grids of one size whose pixels were all
/// taken from the same field are identical, value for value.
pub proof fn lemma_same_field_same_grid(
    first: IntensityGrid,
    second: IntensityGrid,
    size: nat,
    field: spec_fn(int, int) -> u8,
)
    requires
        is_square(first@, size),
        is_square(second@, size),
        forall|x: int, y: int|
            0 <= x < size && 0 <= y < size ==> #[trigger] first@[y][x] == field(x, y),
        forall|x: int, y: int|
            0 <= x < size && 0 <= y < size ==> #[trigger] second@[y][x] == field(x, y),
    ensures
        first@ == second@,
{
    assert forall|y: int| 0 <= y < size implies first@[y] == second@[y] by {
        assert forall|x: int| 0 <= x < size implies first@[y][x] == second@[y][x] by {
            assert(first@[y][x] == field(x, y));
            assert(second@[y][x] == field(x, y));
        }
        assert(first@[y] =~= second@[y]);
    }
    assert(first@ =~= second@);
}

} // verus!

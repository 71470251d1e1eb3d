//! A square grid of byte distances, stored row after row.
use vstd::prelude::*;

verus! {

/// The number of cells along each side of the grid.
pub const SDF_SIZE: usize = 64;

/// The number of cells in the grid.
pub const SDF_CELLS: usize = 4096;

#[derive(Copy, Clone, Debug)]
pub struct SignedDistanceField {
    distances: [u8; SDF_CELLS],
}

/// The cell index of `(column, row)`, rows laid out one after another.
pub open spec fn cell_index(column: int, row: int) -> int {
    row * SDF_SIZE + column
}

impl SignedDistanceField {
    /// The distances, cell by cell.
    pub closed spec fn cells(self) -> Seq<u8> {
        self.distances@
    }

    pub proof fn lemma_cells_len(self)
        ensures
            self.cells().len() == SDF_CELLS,
    {
    }

    /// A grid whose every cell holds `fill`.
    pub fn new(fill: u8) -> (sdf: Self)
        ensures
            sdf.cells().len() == SDF_CELLS,
            forall|i: int| 0 <= i < SDF_CELLS ==> sdf.cells()[i] == fill,
    {
        SignedDistanceField { distances: [fill; SDF_CELLS] }
    }

    pub fn new_far() -> (sdf: Self)
        ensures
            sdf.cells().len() == SDF_CELLS,
            forall|i: int| 0 <= i < SDF_CELLS ==> sdf.cells()[i] == 255u8,
    {
        Self::new(255u8)
    }

    pub fn new_near() -> (sdf: Self)
        ensures
            sdf.cells().len() == SDF_CELLS,
            forall|i: int| 0 <= i < SDF_CELLS ==> sdf.cells()[i] == 0u8,
    {
        Self::new(0u8)
    }

    pub fn get_index(column: usize, row: usize) -> (index: usize)
        requires
            cell_index(column as int, row as int) <= usize::MAX,
        ensures
            index == cell_index(column as int, row as int),
    {
        row * SDF_SIZE + column
    }

    pub fn get_distance(&self, column: usize, row: usize) -> (distance: u8)
        requires
            cell_index(column as int, row as int) < SDF_CELLS,
        ensures
            distance == self.cells()[cell_index(column as int, row as int)],
    {
        let index = Self::get_index(column, row);
        self.distances[index]
    }

    pub fn put_distance(&mut self, column: usize, row: usize, distance: u8)
        requires
            cell_index(column as int, row as int) < SDF_CELLS,
        ensures
            final(self).cells() == old(self).cells().update(
                cell_index(column as int, row as int),
                distance,
            ),
    {
        let index = Self::get_index(column, row);
        self.distances[index] = distance;
    }
}

/// Distinct cells of the grid have distinct indices.
pub proof fn lemma_cell_index_injective(column1: int, row1: int, column2: int, row2: int)
    requires
        0 <= column1 < SDF_SIZE,
        0 <= column2 < SDF_SIZE,
        0 <= row1,
        0 <= row2,
        column1 != column2 || row1 != row2,
    ensures
        cell_index(column1, row1) != cell_index(column2, row2),
{
    if row1 < row2 {
        assert(cell_index(column1, row1) < cell_index(column2, row2)) by (nonlinear_arith)
            requires
                0 <= column1 < 64,
                0 <= column2,
                row1 < row2,
        ;
    } else if row2 < row1 {
        assert(cell_index(column2, row2) < cell_index(column1, row1)) by (nonlinear_arith)
            requires
                0 <= column2 < 64,
                0 <= column1,
                row2 < row1,
        ;
    }
}

/// Reading a cell after writing it gives back what was written, and
/// writing a cell leaves every other cell of the grid as it was.
pub proof fn lemma_put_then_get(
    before: SignedDistanceField,
    after: SignedDistanceField,
    column: int,
    row: int,
    distance: u8,
    other_column: int,
    other_row: int,
)
    requires
        0 <= column < SDF_SIZE,
        0 <= row < SDF_SIZE,
        0 <= other_column < SDF_SIZE,
        0 <= other_row < SDF_SIZE,
        after.cells() == before.cells().update(cell_index(column, row), distance),
    ensures
        after.cells()[cell_index(column, row)] == distance,
        (other_column != column || other_row != row) ==> after.cells()[cell_index(
            other_column,
            other_row,
        )] == before.cells()[cell_index(other_column, other_row)],
{
    before.lemma_cells_len();
    assert(0 <= cell_index(column, row) < SDF_CELLS) by (nonlinear_arith)
        requires
            0 <= column < 64,
            0 <= row < 64,
    ;
    if other_column != column || other_row != row {
        lemma_cell_index_injective(column, row, other_column, other_row);
    }
}

} // verus!

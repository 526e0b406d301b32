//! Symbolic addresses into the sixteen scalars of a 4×4 matrix.
//!
//! Rows are labelled 1 to 4 and columns I, J, K, W. A cell can be named
//! (`K3` is row 3, column K), or given as a flat index in row-major order
//! (`Row(n)`) or in column-major order (`Column(n)`).
use vstd::prelude::*;

verus! {

/// An address of one scalar of a 4×4 matrix.
#[derive(Clone, Copy, Debug, PartialEq, Eq, Structural)]
pub enum Cell {
    I1, J1, K1, W1,
    I2, J2, K2, W2,
    I3, J3, K3, W3,
    I4, J4, K4, W4,
    /// Flat index in row-major order, valid in `0..16`.
    Row(u8),
    /// Flat index in column-major order, valid in `0..16`.
    Column(u8),
}

/// Row-major position of the cell with column-major index `n`.
pub open spec fn column_major_to_row_major(n: int) -> int {
    (n % 4) * 4 + n / 4
}

impl Cell {
    /// Whether the address denotes one of the sixteen scalars.
    pub open spec fn is_valid(self) -> bool {
        match self {
            Cell::Row(n) => n < 16,
            Cell::Column(n) => n < 16,
            _ => true,
        }
    }

    /// Row label (1 to 4) of a named cell.
    pub open spec fn label_row(self) -> int {
        match self {
            Cell::I1 | Cell::J1 | Cell::K1 | Cell::W1 => 1,
            Cell::I2 | Cell::J2 | Cell::K2 | Cell::W2 => 2,
            Cell::I3 | Cell::J3 | Cell::K3 | Cell::W3 => 3,
            _ => 4,
        }
    }

    /// Ordinal of the column letter of a named cell: I is 0, J 1, K 2, W 3.
    pub open spec fn label_column(self) -> int {
        match self {
            Cell::I1 | Cell::I2 | Cell::I3 | Cell::I4 => 0,
            Cell::J1 | Cell::J2 | Cell::J3 | Cell::J4 => 1,
            Cell::K1 | Cell::K2 | Cell::K3 | Cell::K4 => 2,
            _ => 3,
        }
    }

    /// Row-major position (`0..16` for a valid address) of the scalar the address denotes.
    pub open spec fn slot(self) -> int {
        match self {
            Cell::Row(n) => n as int,
            Cell::Column(n) => column_major_to_row_major(n as int),
            _ => 4 * (self.label_row() - 1) + self.label_column(),
        }
    }

    /// Column-major index of the address: `4 * letter + (row - 1)` for a named
    /// cell, the transposed flat index for an in-range `Row`, the index itself
    /// for `Column`. An out-of-range `Row(n)` keeps its index `n`, so that it
    /// stays out of range.
    pub open spec fn column_index(self) -> int {
        match self {
            Cell::Row(n) => if n < 16 { (n * 4) % 16 + n / 4 } else { n as int },
            Cell::Column(n) => n as int,
            _ => 4 * self.label_column() + (self.label_row() - 1),
        }
    }

    /// The equivalent column-major address.
    ///
    /// Every named cell follows the ordinal formula, `K4` included: it maps to
    /// `Column(11)`, the one column-major index that denotes row 4, column K.
    /// An out-of-range address gives an out-of-range address.
    pub fn to_column(&self) -> (r: Cell)
        ensures
            r == Cell::Column(self.column_index() as u8),
            0 <= self.column_index() < 256,
            self.is_valid() ==> r.is_valid() && r.slot() == self.slot(),
            !self.is_valid() ==> !r.is_valid(),
    {
        match self {
            Cell::I1 => Cell::Column(0),
            Cell::J1 => Cell::Column(4),
            Cell::K1 => Cell::Column(8),
            Cell::W1 => Cell::Column(12),
            Cell::I2 => Cell::Column(1),
            Cell::J2 => Cell::Column(5),
            Cell::K2 => Cell::Column(9),
            Cell::W2 => Cell::Column(13),
            Cell::I3 => Cell::Column(2),
            Cell::J3 => Cell::Column(6),
            Cell::K3 => Cell::Column(10),
            Cell::W3 => Cell::Column(14),
            Cell::I4 => Cell::Column(3),
            Cell::J4 => Cell::Column(7),
            Cell::K4 => Cell::Column(11),
            Cell::W4 => Cell::Column(15),
            Cell::Column(i) => Cell::Column(*i),
            Cell::Row(i) => {
                if *i < 16 {
                    Cell::Column((*i * 4) % 16 + *i / 4)
                } else {
                    Cell::Column(*i)
                }
            },
        }
    }
}

} // verus!

//! The 4×4 homogeneous matrix: storage, addressing and layout.
//!
//! A matrix holds sixteen scalars, modelled as a sequence in row-major order:
//! position `4 * (row - 1) + letter` holds the cell of that row and column
//! letter (I is 0, J 1, K 2, W 3).
use vstd::prelude::*;
use crate::cell::{Cell, column_major_to_row_major};
use crate::vector::AffineVector;

verus! {

/// A 4×4 matrix over scalars of type `T`; rows 1 to 4, columns I, J, K, W.
#[derive(Clone, Copy, Debug, PartialEq)]
pub struct AffineMatrix<T> {
    i1: T, j1: T, k1: T, w1: T,
    i2: T, j2: T, k2: T, w2: T,
    i3: T, j3: T, k3: T, w3: T,
    i4: T, j4: T, k4: T, w4: T,
}

/// The sixteen scalars of `s` (read in row-major order) in transposed order:
/// row-major order of the transpose, or equally the column-major order of `s`.
pub open spec fn transposed<T>(s: Seq<T>) -> Seq<T> {
    Seq::new(16, |i: int| s[column_major_to_row_major(i)])
}

impl<T> View for AffineMatrix<T> {
    type V = Seq<T>;

    /// The sixteen scalars in row-major order.
    closed spec fn view(&self) -> Seq<T> {
        seq![
            self.i1, self.j1, self.k1, self.w1,
            self.i2, self.j2, self.k2, self.w2,
            self.i3, self.j3, self.k3, self.w3,
            self.i4, self.j4, self.k4, self.w4,
        ]
    }
}

impl<T: Copy> AffineMatrix<T> {
    /// A matrix always holds sixteen scalars.
    pub proof fn lemma_view_len(m: AffineMatrix<T>)
        ensures
            m@.len() == 16,
    {
    }

    /// Two matrices with the same scalars are the same matrix.
    pub proof fn lemma_view_determines(a: AffineMatrix<T>, b: AffineMatrix<T>)
        requires
            a@ == b@,
        ensures
            a == b,
    {
        assert(a@[0] == b@[0] && a@[1] == b@[1] && a@[2] == b@[2] && a@[3] == b@[3]);
        assert(a@[4] == b@[4] && a@[5] == b@[5] && a@[6] == b@[6] && a@[7] == b@[7]);
        assert(a@[8] == b@[8] && a@[9] == b@[9] && a@[10] == b@[10] && a@[11] == b@[11]);
        assert(a@[12] == b@[12] && a@[13] == b@[13] && a@[14] == b@[14] && a@[15] == b@[15]);
    }

    /// The scalar at `c`.
    pub fn index(&self, c: Cell) -> (r: T)
        requires
            c.is_valid(),
        ensures
            r == self@[c.slot()],
    {
        match c {
            Cell::I1 => self.i1, Cell::J1 => self.j1, Cell::K1 => self.k1, Cell::W1 => self.w1,
            Cell::I2 => self.i2, Cell::J2 => self.j2, Cell::K2 => self.k2, Cell::W2 => self.w2,
            Cell::I3 => self.i3, Cell::J3 => self.j3, Cell::K3 => self.k3, Cell::W3 => self.w3,
            Cell::I4 => self.i4, Cell::J4 => self.j4, Cell::K4 => self.k4, Cell::W4 => self.w4,
            Cell::Row(n) => self.at_row_major(n),
            Cell::Column(n) => {
                let rm: u8 = (n % 4) * 4 + n / 4;
                self.at_row_major(rm)
            },
        }
    }

    /// The scalar at row-major position `n`.
    fn at_row_major(&self, n: u8) -> (r: T)
        requires
            n < 16,
        ensures
            r == self@[n as int],
    {
        match n {
            0 => self.i1, 1 => self.j1, 2 => self.k1, 3 => self.w1,
            4 => self.i2, 5 => self.j2, 6 => self.k2, 7 => self.w2,
            8 => self.i3, 9 => self.j3, 10 => self.k3, 11 => self.w3,
            12 => self.i4, 13 => self.j4, 14 => self.k4, _ => self.w4,
        }
    }
    /// Row `row` (1 to 4), left to right.
    pub fn rvec(&self, row: u8) -> (r: AffineVector<T>)
        requires
            1 <= row <= 4,
        ensures
            r@ == self@.subrange(4 * (row - 1), 4 * row),
    {
        let start: u8 = (row - 1) * 4;
        AffineVector::new(
            self.index(Cell::Row(start)),
            self.index(Cell::Row(start + 1)),
            self.index(Cell::Row(start + 2)),
            self.index(Cell::Row(start + 3)),
        )
    }

    /// Column `column` (1 to 4, that is I to W), top to bottom.
    pub fn cvec(&self, column: u8) -> (r: AffineVector<T>)
        requires
            1 <= column <= 4,
        ensures
            r@ == Seq::new(4, |k: int| self@[4 * k + column - 1]),
    {
        let start: u8 = (column - 1) * 4;
        AffineVector::new(
            self.index(Cell::Column(start)),
            self.index(Cell::Column(start + 1)),
            self.index(Cell::Column(start + 2)),
            self.index(Cell::Column(start + 3)),
        )
    }

    /// The matrix with rows and columns swapped.
    pub fn transpose(&self) -> (r: AffineMatrix<T>)
        ensures
            r@ == transposed(self@),
    {
        let r = AffineMatrix {
            i1: self.i1, j1: self.i2, k1: self.i3, w1: self.i4,
            i2: self.j1, j2: self.j2, k2: self.j3, w2: self.j4,
            i3: self.k1, j3: self.k2, k3: self.k3, w3: self.k4,
            i4: self.w1, j4: self.w2, k4: self.w3, w4: self.w4,
        };
        assert(r@ =~= transposed(self@));
        r
    }

    /// The matrix whose scalars in row-major order are the first sixteen of `array`.
    pub fn from_row_major(array: Vec<T>) -> (r: AffineMatrix<T>)
        requires
            array@.len() >= 16,
        ensures
            r@ == array@.subrange(0, 16),
    {
        let r = AffineMatrix {
            i1: array[0], j1: array[1], k1: array[2], w1: array[3],
            i2: array[4], j2: array[5], k2: array[6], w2: array[7],
            i3: array[8], j3: array[9], k3: array[10], w3: array[11],
            i4: array[12], j4: array[13], k4: array[14], w4: array[15],
        };
        assert(r@ =~= array@.subrange(0, 16));
        r
    }

    /// The matrix whose scalars in column-major order are the first sixteen of `array`.
    pub fn from_column_major(array: Vec<T>) -> (r: AffineMatrix<T>)
        requires
            array@.len() >= 16,
        ensures
            r@ == transposed(array@.subrange(0, 16)),
    {
        let r = AffineMatrix {
            i1: array[0], j1: array[4], k1: array[8], w1: array[12],
            i2: array[1], j2: array[5], k2: array[9], w2: array[13],
            i3: array[2], j3: array[6], k3: array[10], w3: array[14],
            i4: array[3], j4: array[7], k4: array[11], w4: array[15],
        };
        assert(r@ =~= transposed(array@.subrange(0, 16)));
        r
    }

    /// The sixteen scalars in row-major order.
    pub fn as_row_major_vec(&self) -> (r: Vec<T>)
        ensures
            r@ == self@,
    {
        let r = vec![
            self.i1, self.j1, self.k1, self.w1,
            self.i2, self.j2, self.k2, self.w2,
            self.i3, self.j3, self.k3, self.w3,
            self.i4, self.j4, self.k4, self.w4,
        ];
        assert(r@ =~= self@);
        r
    }
}

/// Transposing the order of sixteen scalars twice restores it.
pub proof fn lemma_transposed_twice<T>(s: Seq<T>)
    requires
        s.len() == 16,
    ensures
        transposed(transposed(s)) == s,
{
    assert forall|i: int| 0 <= i < 16 implies #[trigger] transposed(transposed(s))[i] == s[i] by {
        assert(0 <= column_major_to_row_major(i) < 16);
        assert(column_major_to_row_major(column_major_to_row_major(i)) == i);
    }
    assert(transposed(transposed(s)) =~= s);
}

/// Round trip through row-major order: a matrix built from sixteen scalars
/// flattens back to exactly those scalars, and a matrix rebuilt from its own
/// flattening is that matrix.
pub proof fn lemma_row_major_round_trip<T: Copy>(v: Seq<T>, m: AffineMatrix<T>)
    requires
        v.len() == 16,
    ensures
        v.subrange(0, 16) == v,
        forall|b: AffineMatrix<T>| b@ == m@.subrange(0, 16) ==> b == m,
{
    assert(v.subrange(0, 16) =~= v);
    AffineMatrix::lemma_view_len(m);
    assert(m@.subrange(0, 16) =~= m@);
    assert forall|b: AffineMatrix<T>| b@ == m@.subrange(0, 16) implies b == m by {
        AffineMatrix::lemma_view_determines(b, m);
    }
}

/// Round trip through column-major order: a matrix built from sixteen scalars
/// in column-major order, read back in column-major order (the row-major order
/// of its transpose), gives exactly those scalars.
pub proof fn lemma_column_major_round_trip<T>(v: Seq<T>)
    requires
        v.len() == 16,
    ensures
        transposed(transposed(v.subrange(0, 16))) == v,
{
    assert(v.subrange(0, 16) =~= v);
    lemma_transposed_twice(v);
}

/// Transposing a matrix twice gives back exactly the same matrix.
pub proof fn lemma_transpose_involution<T: Copy>(a: AffineMatrix<T>)
    ensures
        transposed(transposed(a@)) == a@,
        forall|b: AffineMatrix<T>| b@ == transposed(transposed(a@)) ==> b == a,
{
    AffineMatrix::lemma_view_len(a);
    lemma_transposed_twice(a@);
    assert forall|b: AffineMatrix<T>| b@ == transposed(transposed(a@)) implies b == a by {
        AffineMatrix::lemma_view_determines(b, a);
    }
}

} // verus!

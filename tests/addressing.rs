use transforms::{AffineMatrix, Cell};

fn counting() -> AffineMatrix<f64> {
    AffineMatrix::from_row_major((0..16).map(|i| i as f64).collect())
}

#[test]
fn named_cells_map_to_column_major_indices() {
    let named = [
        (Cell::I1, 0), (Cell::J1, 4), (Cell::K1, 8), (Cell::W1, 12),
        (Cell::I2, 1), (Cell::J2, 5), (Cell::K2, 9), (Cell::W2, 13),
        (Cell::I3, 2), (Cell::J3, 6), (Cell::K3, 10), (Cell::W3, 14),
        (Cell::I4, 3), (Cell::J4, 7), (Cell::K4, 11), (Cell::W4, 15),
    ];
    for (cell, n) in named {
        assert_eq!(cell.to_column(), Cell::Column(n));
    }
}

#[test]
fn k4_follows_the_ordinal_formula() {
    assert_eq!(Cell::K4.to_column(), Cell::Column(11));
    assert_ne!(Cell::K4.to_column(), Cell::K3.to_column());
}

#[test]
fn row_index_maps_to_transposed_index() {
    for i in 0u8..16 {
        assert_eq!(Cell::Row(i).to_column(), Cell::Column((i * 4 % 16) + (i / 4)));
    }
    assert_eq!(Cell::Row(1).to_column(), Cell::Column(4));
    assert_eq!(Cell::Row(6).to_column(), Cell::Column(9));
    assert_eq!(Cell::Row(15).to_column(), Cell::Column(15));
}

#[test]
fn column_index_is_kept() {
    assert_eq!(Cell::Column(7).to_column(), Cell::Column(7));
}

#[test]
fn out_of_range_row_index_stays_out_of_range() {
    assert_eq!(Cell::Row(16).to_column(), Cell::Column(16));
    assert_eq!(Cell::Row(64).to_column(), Cell::Column(64));
    assert_eq!(Cell::Row(255).to_column(), Cell::Column(255));
}

#[test]
fn three_addressings_agree() {
    let m = counting();
    assert_eq!(m.index(Cell::K3), 10.0);
    assert_eq!(m.index(Cell::Row(10)), 10.0);
    assert_eq!(m.index(Cell::Column(10)), 10.0);
    assert_eq!(m.index(Cell::W1), 3.0);
    assert_eq!(m.index(Cell::Column(12)), 3.0);
    assert_eq!(m.index(Cell::K4), 14.0);
    assert_eq!(m.index(Cell::Column(11)), 14.0);
}

#[test]
fn to_column_denotes_the_same_scalar() {
    let m = counting();
    let named = [
        Cell::I1, Cell::J1, Cell::K1, Cell::W1, Cell::I2, Cell::J2, Cell::K2, Cell::W2,
        Cell::I3, Cell::J3, Cell::K3, Cell::W3, Cell::I4, Cell::J4, Cell::K4, Cell::W4,
    ];
    for cell in named {
        assert_eq!(m.index(cell.to_column()), m.index(cell));
    }
    for i in 0u8..16 {
        assert_eq!(m.index(Cell::Row(i).to_column()), i as f64);
    }
}

use arrays::Array2D;

fn grid_3x3() -> Array2D<u8> {
    Array2D::from_owned(vec![vec![1, 2, 3], vec![4, 5, 6], vec![7, 8, 9]])
}

#[test]
fn zeros_shape_and_default_elements() {
    let g: Array2D<u8> = Array2D::zeros((3, 4));
    assert_eq!(g.dim(), (3, 4));
    let rows = g.to_vec();
    assert_eq!(rows.len(), 3);
    for row in &rows {
        assert_eq!(row.len(), 4);
        for e in row {
            assert_eq!(*e, u8::default());
        }
    }
}

#[test]
fn zeros_3x3_all_zero() {
    let g: Array2D<u8> = Array2D::zeros((3, 3));
    assert_eq!(g.dim(), (3, 3));
    for i in 0..3 {
        for j in 0..3 {
            assert_eq!(*g.get(i, j), 0);
        }
    }
}

#[test]
fn from_owned_to_vec_round_trip() {
    let v = vec![vec![1u8, 2, 3], vec![4, 5, 6]];
    let g = Array2D::from_owned(v.clone());
    assert_eq!(g.dim(), (2, 3));
    assert_eq!(g.to_vec(), v);
}

#[test]
fn from_view_deep_copy_is_independent() {
    let v = vec![vec![1u8, 2], vec![3, 4]];
    let mut g = Array2D::from_view(&v);
    assert_eq!(g.dim(), (2, 2));
    *g.get_mut(0, 0) = 99;
    // The original backing storage is untouched by writes to the copy.
    assert_eq!(v, vec![vec![1, 2], vec![3, 4]]);
    assert_eq!(g.to_vec(), vec![vec![99, 2], vec![3, 4]]);
}

#[test]
fn from_view_equals_source_values() {
    let v = vec![vec![1u8, 2, 3], vec![4, 5, 6]];
    let g = Array2D::from_view(&v);
    assert_eq!(g.to_vec(), v);
}

#[test]
fn write_then_read() {
    let v = vec![vec![1u8, 2, 3], vec![4, 5, 6]];
    let mut g = Array2D::from_owned(v);
    *g.get_mut(1, 2) = 42;
    assert_eq!(*g.get(1, 2), 42);
    // Every other coordinate is unaffected.
    let expected = vec![vec![1u8, 2, 3], vec![4, 5, 42]];
    for i in 0..2 {
        for j in 0..3 {
            assert_eq!(*g.get(i, j), expected[i][j]);
        }
    }
}

#[test]
fn iter_twice_yields_same_rows() {
    let g = grid_3x3();
    let first: Vec<Vec<u8>> = g.iter().iter().cloned().collect();
    let second: Vec<Vec<u8>> = g.iter().iter().cloned().collect();
    assert_eq!(first, second);
    // Consuming conversion still sees the same rows, and ends the grid.
    assert_eq!(g.to_vec(), first);
}

#[test]
fn iter_rows_in_row_major_order() {
    let g = grid_3x3();
    let mut seen: Vec<Vec<u8>> = Vec::new();
    for row in g.iter() {
        seen.push(row.clone());
    }
    assert_eq!(seen, vec![vec![1, 2, 3], vec![4, 5, 6], vec![7, 8, 9]]);
}

#[test]
fn iter_mut_doubles_every_element() {
    let mut g = grid_3x3();
    for row in g.iter_mut() {
        for e in row.iter_mut() {
            *e *= 2;
        }
    }
    for i in 0..3 {
        for j in 0..3 {
            let expected = 2 * (1 + 3 * i + j) as u8;
            assert_eq!(*g.get(i, j), expected);
        }
    }
    assert_eq!(g.dim(), (3, 3));
}

#[test]
fn end_to_end_set_and_render() {
    let mut g = grid_3x3();
    *g.get_mut(1, 1) = 10;
    assert_eq!(*g.get(1, 1), 10);
    assert_eq!(g.debug_string(), "[[1, 2, 3], [4, 10, 6], [7, 8, 9]]");
}

#[test]
fn debug_string_renders_nested_list() {
    let g = Array2D::from_owned(vec![vec![1u8, 2, 3], vec![4, 5, 6]]);
    assert_eq!(g.debug_string(), "[[1, 2, 3], [4, 5, 6]]");
    assert_eq!(format!("m = {}", g.debug_string()), "m = [[1, 2, 3], [4, 5, 6]]");
}

#[test]
fn dim_reports_recorded_shape() {
    let g: Array2D<u8> = Array2D::zeros((3, 4));
    assert_eq!(g.dim(), (3, 4));
    let g2 = Array2D::from_owned(vec![vec![1u8], vec![2], vec![3]]);
    assert_eq!(g2.dim(), (3, 1));
}

use tetris_core::shape::{Rgb, Shape};

fn offsets(shape: Shape, rotation: usize) -> Vec<(i32, i32)> {
    (0..4).map(|i| shape.get_rotation_offset(i, rotation)).collect()
}

#[test]
fn l_piece_offsets_match_table() {
    assert_eq!(offsets(Shape::L, 0), vec![(0, 1), (0, 0), (0, -1), (1, -1)]);
    assert_eq!(offsets(Shape::L, 1), vec![(1, 0), (0, 0), (-1, 0), (-1, -1)]);
    assert_eq!(offsets(Shape::L, 2), vec![(0, -1), (0, 0), (0, 1), (-1, 1)]);
    assert_eq!(offsets(Shape::L, 3), vec![(-1, 0), (0, 0), (1, 0), (1, 1)]);
}

#[test]
fn j_piece_offsets_match_table() {
    assert_eq!(offsets(Shape::J, 0), vec![(0, 1), (0, 0), (0, -1), (-1, -1)]);
    assert_eq!(offsets(Shape::J, 1), vec![(1, 0), (0, 0), (-1, 0), (-1, 1)]);
    assert_eq!(offsets(Shape::J, 2), vec![(0, -1), (0, 0), (0, 1), (1, 1)]);
    assert_eq!(offsets(Shape::J, 3), vec![(-1, 0), (0, 0), (1, 0), (1, -1)]);
}

#[test]
fn t_piece_offsets_match_table() {
    assert_eq!(offsets(Shape::T, 0), vec![(-1, 0), (0, 0), (1, 0), (0, -1)]);
    assert_eq!(offsets(Shape::T, 1), vec![(0, 1), (0, 0), (0, -1), (-1, 0)]);
    assert_eq!(offsets(Shape::T, 2), vec![(1, 0), (0, 0), (-1, 0), (0, 1)]);
    assert_eq!(offsets(Shape::T, 3), vec![(0, -1), (0, 0), (0, 1), (1, 0)]);
}

#[test]
fn s_z_i_offsets_match_table() {
    assert_eq!(offsets(Shape::S, 0), vec![(-1, 0), (0, 0), (0, 1), (1, 1)]);
    assert_eq!(offsets(Shape::S, 1), vec![(-1, 2), (-1, 1), (0, 1), (0, 0)]);
    assert_eq!(offsets(Shape::Z, 0), vec![(-1, 1), (0, 1), (0, 0), (1, 0)]);
    assert_eq!(offsets(Shape::Z, 1), vec![(0, 2), (0, 1), (-1, 1), (-1, 0)]);
    assert_eq!(offsets(Shape::I, 0), vec![(0, 0), (0, 1), (0, 2), (0, 3)]);
    assert_eq!(offsets(Shape::I, 1), vec![(-2, 0), (-1, 0), (0, 0), (1, 0)]);
}

#[test]
fn o_piece_is_rotation_invariant() {
    let base = offsets(Shape::O, 0);
    assert_eq!(base, vec![(0, 0), (0, 1), (1, 0), (1, 1)]);
    for rotation in 1..4 {
        assert_eq!(offsets(Shape::O, rotation), base);
    }
}

#[test]
fn s_z_i_have_two_fold_symmetry() {
    for shape in [Shape::S, Shape::Z, Shape::I] {
        assert_eq!(offsets(shape, 0), offsets(shape, 2));
        assert_eq!(offsets(shape, 1), offsets(shape, 3));
    }
}

#[test]
fn every_shape_yields_four_distinct_connected_cells() {
    let shapes = [Shape::L, Shape::J, Shape::S, Shape::Z, Shape::O, Shape::T, Shape::I];
    for shape in shapes {
        for rotation in 0..4 {
            let cells = offsets(shape, rotation);
            for i in 0..4 {
                for j in (i + 1)..4 {
                    assert_ne!(cells[i], cells[j], "{:?} rotation {}", shape, rotation);
                }
            }
            // grow the component of cell 0 until it stops changing
            let adjacent = |a: (i32, i32), b: (i32, i32)| {
                (a.0 - b.0).abs() + (a.1 - b.1).abs() == 1
            };
            let mut reached = [true, false, false, false];
            for _ in 0..4 {
                for i in 1..4 {
                    for j in 0..4 {
                        if reached[j] && adjacent(cells[i], cells[j]) {
                            reached[i] = true;
                        }
                    }
                }
            }
            assert!(reached.iter().all(|r| *r), "{:?} rotation {}", shape, rotation);
        }
    }
}

#[test]
fn from_int_maps_each_shape_and_clamps() {
    assert_eq!(Shape::from_int(0), Shape::L);
    assert_eq!(Shape::from_int(1), Shape::J);
    assert_eq!(Shape::from_int(2), Shape::S);
    assert_eq!(Shape::from_int(3), Shape::Z);
    assert_eq!(Shape::from_int(4), Shape::O);
    assert_eq!(Shape::from_int(5), Shape::T);
    assert_eq!(Shape::from_int(6), Shape::I);
    assert_eq!(Shape::from_int(-1), Shape::I);
    assert_eq!(Shape::from_int(7), Shape::I);
}

#[test]
fn colors_match_the_palette() {
    assert_eq!(Shape::L.get_color(), Rgb { r: 255, g: 0, b: 0 });
    assert_eq!(Shape::J.get_color(), Rgb { r: 0, g: 0, b: 255 });
    assert_eq!(Shape::S.get_color(), Rgb { r: 255, g: 255, b: 255 });
    assert_eq!(Shape::Z.get_color(), Rgb { r: 255, g: 255, b: 0 });
    assert_eq!(Shape::O.get_color(), Rgb { r: 0, g: 255, b: 255 });
    assert_eq!(Shape::T.get_color(), Rgb { r: 255, g: 0, b: 255 });
    assert_eq!(Shape::I.get_color(), Rgb { r: 0, g: 255, b: 0 });
}

#[test]
fn random_shapes_are_always_valid() {
    for _ in 0..50 {
        let shape = Shape::get_random();
        let cells = offsets(shape, 0);
        assert_eq!(cells.len(), 4);
    }
}

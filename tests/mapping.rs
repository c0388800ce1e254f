use rsi_flip::mapping::{map_coordinates_four_dir, map_coordinates_one_dir};

#[test]
fn test_map_coordinates() {
    assert_eq!(map_coordinates_four_dir(4, 4, 0, 0), (1, 0));
    assert_eq!(map_coordinates_four_dir(4, 4, 0, 1), (1, 1));
    assert_eq!(map_coordinates_four_dir(4, 4, 2, 0), (3, 0));
    assert_eq!(map_coordinates_four_dir(4, 4, 3, 0), (2, 0));

    assert_eq!(map_coordinates_four_dir(4, 4, 0, 2), (3, 2));
    assert_eq!(map_coordinates_four_dir(4, 4, 0, 3), (3, 3));
    assert_eq!(map_coordinates_four_dir(4, 4, 1, 3), (2, 3));
}

#[test]
fn one_dir_mirrors_across_centre() {
    assert_eq!(map_coordinates_one_dir(4, 4, 0, 0), (3, 0));
    assert_eq!(map_coordinates_one_dir(4, 4, 3, 1), (0, 1));
}

#[test]
fn one_dir_twice_is_identity() {
    for width in 1..9u32 {
        for x in 0..width {
            for y in 0..3u32 {
                let (sx, sy) = map_coordinates_one_dir(width, 3, x, y);
                assert_eq!(map_coordinates_one_dir(width, 3, sx, sy), (x, y));
            }
        }
    }
}

#[test]
fn four_dir_stays_in_bounds_on_same_row() {
    for n in [2u32, 4, 6, 8, 16] {
        for x in 0..n {
            for y in 0..n {
                let (sx, sy) = map_coordinates_four_dir(n, n, x, y);
                assert!(sx < n);
                assert_eq!(sy, y);
            }
        }
    }
}

#[test]
fn four_dir_twice_is_identity() {
    for n in [2u32, 4, 6, 8] {
        for x in 0..n {
            for y in 0..n {
                let (sx, sy) = map_coordinates_four_dir(n, n, x, y);
                assert_eq!(map_coordinates_four_dir(n, n, sx, sy), (x, y));
            }
        }
    }
}

#[test]
fn four_dir_quadrants_on_side_eight() {
    // north: mirrored within the left half of the top rows
    assert_eq!(map_coordinates_four_dir(8, 8, 0, 0), (3, 0));
    assert_eq!(map_coordinates_four_dir(8, 8, 3, 3), (0, 3));
    // south: mirrored within the right half of the top rows
    assert_eq!(map_coordinates_four_dir(8, 8, 4, 1), (7, 1));
    assert_eq!(map_coordinates_four_dir(8, 8, 7, 2), (4, 2));
    // east and west: mirrored across the full width
    assert_eq!(map_coordinates_four_dir(8, 8, 1, 4), (6, 4));
    assert_eq!(map_coordinates_four_dir(8, 8, 6, 7), (1, 7));
}

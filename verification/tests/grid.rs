use geologic::grid;
use geologic::{Bounds2D, Grid2D, GridError, Interpretation2D, Size2D};

#[test]
fn row_ranges() {
    let bounds = Bounds2D::from_position_and_size((1, 1), (1, 2));

    // 0, 1, 2
    // 3, X, 5,
    // 6, X, 8,
    let mut ranges = grid::row_ranges(bounds, 3, 1).unwrap().into_iter();

    assert_eq!(ranges.next(), Some(4..5));
    assert_eq!(ranges.next(), Some(7..8));

    // 0-1,   2-3,  4-5
    // 6-7,   X,    10-11,
    // 12-13, X,    16-17,
    let mut ranges = grid::row_ranges(bounds, 3, 2).unwrap().into_iter();

    // A chunk size of 2 doubles the step of the range
    assert_eq!(ranges.next(), Some(8..10));
    assert_eq!(ranges.next(), Some(14..16));
}

#[test]
fn write() {
    let mut grid = Grid2D::new([0; 3 * 3 * 2], 3, 2).unwrap();

    grid.write((0, 1, 2, 1), |_, slice| {
        for value in slice {
            *value += 5;
        }
    })
    .unwrap();

    grid.write((1, 1, 2, 2), |_, slice| {
        for value in slice {
            *value += 2;
        }
    })
    .unwrap();

    let expected_result = &[
        0, 0, 0, 0, 0, 0, //
        5, 5, 7, 7, 2, 2, //
        0, 0, 2, 2, 2, 2,
    ];

    assert_eq!(grid.values(), expected_result);
}

#[test]
fn insert() {
    let mut grid = Grid2D::new([0; 3 * 3 * 2], 3, 2).unwrap();

    let data_to_insert = [1, 2, 3, 4];
    grid.insert((1, 1, 1, 2), &data_to_insert).unwrap();

    let expected_result = &[
        0, 0, 0, 0, 0, 0, //
        0, 0, 1, 2, 0, 0, //
        0, 0, 3, 4, 0, 0,
    ];

    assert_eq!(grid.values(), expected_result);
}

#[test]
fn row_ranges_are_exact_and_end_after_the_last_row() {
    let ranges = grid::row_ranges((1, 1, 1, 2), 3, 1).unwrap();
    assert_eq!(ranges, vec![4..5, 7..8]);
    let ranges = grid::row_ranges((1, 1, 1, 2), 3, 2).unwrap();
    assert_eq!(ranges, vec![8..10, 14..16]);
}

#[test]
fn row_ranges_are_disjoint_and_of_one_length() {
    let ranges = grid::row_ranges((2, 1, 3, 4), 7, 3).unwrap();
    assert_eq!(ranges.len(), 4);
    for range in &ranges {
        assert_eq!(range.end - range.start, 3 * 3);
    }
    for pair in ranges.windows(2) {
        assert!(pair[0].end <= pair[1].start);
        assert_eq!(pair[1].start - pair[0].start, 7 * 3);
    }
    assert_eq!(ranges[0], 27..36);
}

#[test]
fn row_ranges_turn_down_an_empty_region() {
    assert_eq!(grid::row_ranges((1, 1, 0, 2), 3, 1), Err(GridError::RegionBounds));
    assert_eq!(grid::row_ranges((1, 1, 2, 0), 3, 1), Err(GridError::RegionBounds));
}

#[test]
fn row_ranges_turn_down_cells_without_elements() {
    assert_eq!(grid::row_ranges((1, 1, 1, 2), 3, 0), Err(GridError::RegionBounds));
}

#[test]
fn row_ranges_turn_down_a_region_wider_than_the_grid() {
    assert_eq!(grid::row_ranges((2, 0, 2, 1), 3, 1), Err(GridError::RegionBounds));
    assert_eq!(grid::row_ranges((4, 0, 1, 1), 3, 1), Err(GridError::RegionBounds));
    assert_eq!(grid::row_ranges((2, 0, 1, 1), 3, 1), Ok(vec![2..3]));
}

#[test]
fn row_ranges_turn_down_what_no_buffer_can_hold() {
    assert_eq!(grid::row_ranges((0, usize::MAX, 1, 1), 1, 1), Err(GridError::RegionBounds));
    assert_eq!(grid::row_ranges((0, 2, 1, 1), usize::MAX, 1), Err(GridError::RegionBounds));
    assert_eq!(grid::row_ranges((0, 0, 1, 1), usize::MAX, 2), Err(GridError::RegionBounds));
}

#[test]
fn index_at_is_the_start_of_the_cell() {
    assert_eq!(grid::index_at((0, 0), 3, 1), 0);
    assert_eq!(grid::index_at((1, 2), 3, 1), 7);
    assert_eq!(grid::index_at((1, 2), 3, 2), 14);
    assert_eq!(grid::index_at((5, 0), usize::MAX, 3), 15);
}

#[test]
fn a_grid_of_ten_elements_and_width_three_is_turned_down() {
    let grid = Grid2D::new(vec![0u8; 10], 3, 1);
    assert!(matches!(grid, Err(GridError::Construction)));
}

#[test]
fn assert_incorrect_chunk_size() {
    let grid = Grid2D::new([0; 8 * 3], 8, 2);
    assert!(matches!(grid, Err(GridError::Construction)));
}

#[test]
fn a_grid_with_no_columns_or_empty_cells_is_turned_down() {
    assert!(matches!(Grid2D::new(vec![0u8; 6], 0, 1), Err(GridError::Construction)));
    assert!(matches!(Grid2D::new(vec![0u8; 6], 3, 0), Err(GridError::Construction)));
    assert!(matches!(Grid2D::new(Vec::<u8>::new(), 0, 0), Err(GridError::Construction)));
}

#[test]
fn an_empty_buffer_makes_a_grid_without_rows() {
    let grid = Grid2D::new(Vec::<u8>::new(), 3, 2).unwrap();
    assert_eq!(grid.size(), Size2D::new(3, 0));
    assert!(!grid.holds(Bounds2D::new(0, 0, 1, 1)));
    let grid = Grid2D::new(Vec::<u8>::new(), usize::MAX, 2).unwrap();
    assert_eq!(grid.size(), Size2D::new(usize::MAX, 0));
}

#[test]
fn size_is_width_and_length_over_row_length() {
    let grid = Grid2D::new(vec![0u8; 18], 3, 2).unwrap();
    assert_eq!(grid.size(), Size2D::new(3, 3));
    assert_eq!(grid.chunk_size(), 2);
    let grid = Grid2D::new(vec![0u8; 18], 3, 1).unwrap();
    assert_eq!(grid.size(), Size2D::new(3, 6));
    let grid = Grid2D::new(vec![0u8; 18], 1, 6).unwrap();
    assert_eq!(grid.size(), Size2D::new(1, 3));
    let grid = Grid2D::new([7u8; 12], 4, 3).unwrap();
    assert_eq!(grid.size(), Size2D::new(4, 1));
}

#[test]
fn index_uses_the_width_and_chunk_size_of_the_grid() {
    let grid = Grid2D::new(vec![0u8; 18], 3, 2).unwrap();
    assert_eq!(grid.index((0, 0)), 0);
    assert_eq!(grid.index((2, 0)), 4);
    assert_eq!(grid.index((1, 2)), 14);
    // no bounds are checked for a single point
    assert_eq!(grid.index((0, 5)), 30);
}

#[test]
fn holds_tells_regions_inside_from_regions_outside() {
    let grid = Grid2D::new(vec![0u8; 18], 3, 2).unwrap();
    assert!(grid.holds(Bounds2D::new(0, 0, 3, 3)));
    assert!(grid.holds(Bounds2D::new(2, 2, 1, 1)));
    assert!(!grid.holds(Bounds2D::new(2, 2, 2, 1)));
    assert!(!grid.holds(Bounds2D::new(2, 2, 1, 2)));
    assert!(!grid.holds(Bounds2D::new(3, 0, 1, 1)));
    assert!(!grid.holds(Bounds2D::new(0, 0, 0, 1)));
    assert!(!grid.holds(Bounds2D::new(0, 0, 1, 0)));
    assert!(!grid.holds(Bounds2D::new(usize::MAX, 0, 1, 1)));
    assert!(!grid.holds(Bounds2D::new(0, 1, 1, usize::MAX)));
}

#[test]
fn write_hands_over_each_row_with_its_index() {
    let mut grid = Grid2D::new(vec![0usize; 12], 4, 1).unwrap();
    let mut seen = Vec::new();
    grid.write((1, 0, 2, 3), |row, slice| {
        seen.push((row, slice.len()));
        for value in slice.iter_mut() {
            *value = row + 1;
        }
    })
    .unwrap();
    assert_eq!(seen, vec![(0, 2), (1, 2), (2, 2)]);
    assert_eq!(grid.values(), &[0, 1, 1, 0, 0, 2, 2, 0, 0, 3, 3, 0]);
}

#[test]
fn write_on_three_by_three_with_single_element_cells() {
    let mut grid = Grid2D::new([0; 9], 3, 1).unwrap();
    grid.write((0, 1, 2, 1), |_, slice| {
        for value in slice {
            *value += 5;
        }
    })
    .unwrap();
    grid.write((1, 1, 2, 2), |_, slice| {
        for value in slice {
            *value += 2;
        }
    })
    .unwrap();
    assert_eq!(grid.values(), &[0, 0, 0, 5, 7, 2, 0, 2, 2]);
}

#[test]
fn write_outside_the_grid_is_turned_down_and_changes_nothing() {
    let mut grid = Grid2D::new(vec![1u8; 18], 3, 2).unwrap();
    let mut calls = 0;
    let done = grid.write((2, 2, 2, 1), |_, slice| {
        calls += 1;
        slice[0] = 9;
    });
    assert_eq!(done, Err(GridError::RegionBounds));
    let done = grid.write((0, 0, 0, 0), |_, slice| {
        calls += 1;
        slice[0] = 9;
    });
    assert_eq!(done, Err(GridError::RegionBounds));
    assert_eq!(calls, 0);
    assert_eq!(grid.values(), &[1u8; 18]);
}

#[test]
fn insert_with_data_for_one_row_of_two_names_the_unmet_row() {
    let mut grid = Grid2D::new([0; 18], 3, 2).unwrap();
    let done = grid.insert((1, 1, 1, 2), &[1, 2]);
    assert_eq!(done, Err(GridError::DataShape { expected_rows: 2, supplied_rows: 1 }));
    assert_eq!(grid.values(), &[0; 18]);
    let done = grid.insert((1, 1, 1, 2), &[1, 2, 3]);
    assert_eq!(done, Err(GridError::DataShape { expected_rows: 2, supplied_rows: 1 }));
    let done = grid.insert((1, 1, 1, 2), &[]);
    assert_eq!(done, Err(GridError::DataShape { expected_rows: 2, supplied_rows: 0 }));
    assert_eq!(grid.values(), &[0; 18]);
}

#[test]
fn insert_outside_the_grid_is_a_bounds_error_whatever_the_data() {
    let mut grid = Grid2D::new([0; 18], 3, 2).unwrap();
    assert_eq!(grid.insert((1, 2, 1, 2), &[1, 2, 3, 4]), Err(GridError::RegionBounds));
    assert_eq!(grid.insert((1, 2, 1, 2), &[]), Err(GridError::RegionBounds));
    assert_eq!(grid.insert((3, 0, 1, 1), &[1, 2]), Err(GridError::RegionBounds));
    assert_eq!(grid.values(), &[0; 18]);
}

#[test]
fn insert_takes_the_leading_rows_of_longer_data() {
    let mut grid = Grid2D::new([0; 18], 3, 2).unwrap();
    grid.insert((1, 1, 1, 2), &[1, 2, 3, 4, 5, 6, 7]).unwrap();
    assert_eq!(
        grid.values(),
        &[
            0, 0, 0, 0, 0, 0, //
            0, 0, 1, 2, 0, 0, //
            0, 0, 3, 4, 0, 0,
        ]
    );
}

#[test]
fn slice_reads_the_rows_of_the_region_in_order() {
    let values: Vec<u32> = (0..18).collect();
    let grid = Grid2D::new(values, 3, 2).unwrap();
    let cells = grid.slice((1, 1, 2, 2)).unwrap();
    assert_eq!(cells, vec![&8, &9, &10, &11, &14, &15, &16, &17]);
    let cells = grid.slice((0, 2, 1, 1)).unwrap();
    assert_eq!(cells, vec![&12, &13]);
}

#[test]
fn slice_outside_the_grid_is_turned_down() {
    let grid = Grid2D::new(vec![0u8; 18], 3, 2).unwrap();
    assert_eq!(grid.slice((1, 1, 3, 1)), Err(GridError::RegionBounds));
    assert_eq!(grid.slice((1, 1, 1, 3)), Err(GridError::RegionBounds));
    assert_eq!(grid.slice((1, 1, 0, 1)), Err(GridError::RegionBounds));
}

#[test]
fn insert_then_slice_gives_the_data_back() {
    let mut grid = Grid2D::new(vec![0i64; 5 * 4 * 3], 5, 3).unwrap();
    let data: Vec<i64> = (100..100 + 2 * 3 * 3).collect();
    grid.insert((2, 1, 2, 3), &data).unwrap();
    let read: Vec<i64> = grid.slice((2, 1, 2, 3)).unwrap().into_iter().copied().collect();
    assert_eq!(read, data);
    // the rest of the buffer is as it was
    let zeros = grid.values().iter().filter(|v| **v == 0).count();
    assert_eq!(zeros, 5 * 4 * 3 - 2 * 3 * 3);
}

#[test]
fn slice_twice_gives_the_same_elements() {
    let values: Vec<u32> = (0..24).collect();
    let grid = Grid2D::new(values, 4, 2).unwrap();
    let first = grid.slice((1, 0, 2, 3)).unwrap();
    let second = grid.slice((1, 0, 2, 3)).unwrap();
    assert_eq!(first, second);
}

#[test]
fn the_whole_grid_is_the_whole_buffer() {
    let values: Vec<u32> = (0..24).collect();
    let mut grid = Grid2D::new(values.clone(), 4, 2).unwrap();
    let size = grid.size();
    let all = Bounds2D::new(0, 0, size.width, size.height);
    let read: Vec<u32> = grid.slice(all).unwrap().into_iter().copied().collect();
    assert_eq!(read, values);
    let mut runs = Vec::new();
    grid.write(all, |row, slice| {
        runs.push((row, slice.len()));
        for value in slice.iter_mut() {
            *value += 1;
        }
    })
    .unwrap();
    assert_eq!(runs, vec![(0, 8), (1, 8), (2, 8)]);
    let expected: Vec<u32> = (1..25).collect();
    assert_eq!(grid.values(), expected.as_slice());
    let data: Vec<u32> = (50..74).collect();
    grid.insert(all, &data).unwrap();
    assert_eq!(grid.values(), data.as_slice());
}

#[test]
fn storage_reports_its_elements() {
    let mut array = [1u8, 2, 3];
    assert_eq!(Interpretation2D::size(&array), 3);
    assert_eq!(Interpretation2D::values(&array), &[1, 2, 3]);
    Interpretation2D::values_mut(&mut array)[1] = 9;
    assert_eq!(array, [1, 9, 3]);
    let mut vector = vec![4u8, 5];
    assert_eq!(Interpretation2D::size(&vector), 2);
    Interpretation2D::values_mut(&mut vector)[0] = 6;
    assert_eq!(Interpretation2D::values(&vector), &[6, 5]);
    let slice: &mut [u8] = &mut [7u8, 8];
    assert_eq!(Interpretation2D::size(slice), 2);
    assert_eq!(Interpretation2D::values(slice), &[7, 8]);
}

#[test]
fn storage_writes_the_runs_it_is_given() {
    let mut buffer = vec![0u8; 10];
    Interpretation2D::write(&mut buffer, vec![1..3, 3..4, 8..10], |row, run| {
        for value in run.iter_mut() {
            *value = row as u8 + 1;
        }
    });
    assert_eq!(buffer, vec![0, 1, 1, 2, 0, 0, 0, 0, 3, 3]);
}

#[test]
fn portion_copies_the_rows_of_the_region_in_order() {
    let values: Vec<u32> = (0..18).collect();
    let grid = Grid2D::new(values, 3, 2).unwrap();
    assert_eq!(grid.portion((1, 1, 2, 2)), Ok(vec![8, 9, 10, 11, 14, 15, 16, 17]));
    assert_eq!(grid.portion((0, 2, 1, 1)), Ok(vec![12, 13]));
    assert_eq!(grid.portion((0, 2, 1, 2)), Err(GridError::RegionBounds));
}

#[test]
fn portion_outlives_later_writes() {
    let mut grid = Grid2D::new([1u8, 2, 3, 4, 5, 6], 3, 1).unwrap();
    let before = grid.portion((1, 0, 2, 2)).unwrap();
    grid.insert((1, 0, 2, 2), &[9, 9, 9, 9]).unwrap();
    assert_eq!(before, vec![2, 3, 5, 6]);
    assert_eq!(grid.portion((1, 0, 2, 2)), Ok(vec![9, 9, 9, 9]));
    assert_eq!(grid.values(), &[1, 9, 9, 4, 9, 9]);
}

#[test]
fn insert_then_portion_gives_the_data_back() {
    let mut grid = Grid2D::new(vec![0u16; 4 * 4 * 2], 4, 2).unwrap();
    let data: Vec<u16> = (1..=12).collect();
    grid.insert((1, 1, 3, 2), &data).unwrap();
    assert_eq!(grid.portion((1, 1, 3, 2)), Ok(data));
}

#[test]
fn a_cloned_grid_is_independent() {
    let mut grid = Grid2D::new(vec![0u8; 4], 2, 1).unwrap();
    let copy = grid.clone();
    grid.insert((0, 0, 2, 2), &[1, 2, 3, 4]).unwrap();
    assert_eq!(copy.values(), &[0, 0, 0, 0]);
    assert_eq!(copy.size(), grid.size());
    assert_eq!(grid.values(), &[1, 2, 3, 4]);
}

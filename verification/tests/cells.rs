use quick_noise::perlin::{AxisCells, NoiseError};

fn cells(start: i32, ends: &[u32]) -> AxisCells {
    match AxisCells::new(start, ends.to_vec()) {
        Ok(cells) => cells,
        Err(_) => panic!("ends {:?} were refused", ends),
    }
}

fn refused(ends: &[u32]) -> bool {
    matches!(AxisCells::new(0, ends.to_vec()), Err(NoiseError::InvalidParameter))
}

#[test]
fn one_cell_spans_the_row() {
    let axis = cells(4, &[32]);
    assert_eq!(axis.len(), 1);
    assert_eq!(axis.start(), 4);
    assert_eq!(axis.begin(0), 0);
    assert_eq!(axis.end(0), 32);
    for k in 0..32 {
        assert_eq!(axis.cell_of(k), 0);
    }
}

#[test]
fn cells_follow_their_ends() {
    let axis = cells(-2, &[5, 5, 17, 32]);
    assert_eq!(axis.len(), 4);
    assert_eq!((axis.begin(0), axis.end(0)), (0, 5));
    assert_eq!((axis.begin(1), axis.end(1)), (5, 5));
    assert_eq!((axis.begin(2), axis.end(2)), (5, 17));
    assert_eq!((axis.begin(3), axis.end(3)), (17, 32));
    assert_eq!(axis.cell_of(0), 0);
    assert_eq!(axis.cell_of(4), 0);
    assert_eq!(axis.cell_of(5), 2);
    assert_eq!(axis.cell_of(16), 2);
    assert_eq!(axis.cell_of(17), 3);
    assert_eq!(axis.cell_of(31), 3);
}

#[test]
fn first_cell_may_be_empty() {
    let axis = cells(0, &[0, 32]);
    assert_eq!((axis.begin(0), axis.end(0)), (0, 0));
    assert_eq!((axis.begin(1), axis.end(1)), (0, 32));
    assert_eq!(axis.cell_of(0), 1);
}

#[test]
fn every_sample_has_exactly_one_cell() {
    let axis = cells(0, &[1, 2, 3, 10, 10, 31, 32]);
    for k in 0..32usize {
        let mut holders = 0;
        for j in 0..axis.len() {
            if axis.begin(j) <= k && k < axis.end(j) {
                holders += 1;
                assert_eq!(axis.cell_of(k), j);
            }
        }
        assert_eq!(holders, 1);
    }
}

#[test]
fn ends_that_do_not_split_the_row_are_refused() {
    assert!(refused(&[]));
    assert!(refused(&[31]));
    assert!(refused(&[33]));
    assert!(refused(&[10, 9, 32]));
    assert!(refused(&[32, 32]));
    assert!(refused(&[10, 40, 32]));
    assert!(refused(&[10, 20]));
    assert!(!refused(&[32]));
    assert!(!refused(&[0, 0, 32]));
    assert!(!refused(&[31, 32]));
}

#[test]
fn lattice_coordinates_count_up_from_start() {
    let axis = cells(-2, &[5, 5, 17, 32]);
    assert_eq!(axis.coordinate(0), -2);
    assert_eq!(axis.coordinate(1), -1);
    assert_eq!(axis.coordinate(2), 0);
    assert_eq!(axis.coordinate(4), 2);
}

#[test]
fn lattice_coordinates_wrap_at_the_end_of_the_range() {
    let axis = cells(i32::MAX, &[16, 32]);
    assert_eq!(axis.coordinate(0), i32::MAX);
    assert_eq!(axis.coordinate(1), i32::MIN);
    assert_eq!(axis.coordinate(2), i32::MIN + 1);
}

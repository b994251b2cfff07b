use peg_board::BoardState;

fn only(index: usize) -> [bool; 15] {
    let mut cells = [false; 15];
    cells[index] = true;
    cells
}

fn with_pegs(indices: &[usize]) -> [bool; 15] {
    let mut cells = [false; 15];
    for &i in indices {
        cells[i] = true;
    }
    cells
}

#[test]
fn test_board_creation() {
    assert_eq!(BoardState::new([false; 15]).cells(), [false; 15])
}

#[test]
fn test_normalize_orientation() {
    let simple_correct_orientation = BoardState::new([
        true, false, false, false, false, false, false, false, false, false, false, false, false,
        false, false,
    ]);

    assert_eq!(
        simple_correct_orientation,
        simple_correct_orientation.normalize_orientation()
    );

    let clockwise = simple_correct_orientation.rotate_clockwise();
    let counter_clockwise = simple_correct_orientation.rotate_counter_clockwise();

    assert_eq!(
        clockwise,
        BoardState::new([
            false, false, false, false, false, false, false, false, false, false, true, false,
            false, false, false,
        ])
    );

    assert_eq!(
        counter_clockwise,
        BoardState::new([
            false, false, false, false, false, false, false, false, false, false, false, false,
            false, false, true,
        ])
    );

    assert_eq!(clockwise.rotate_clockwise(), counter_clockwise);

    assert_eq!(
        simple_correct_orientation.normalize_orientation(),
        counter_clockwise.normalize_orientation(),
    );
    assert_eq!(
        simple_correct_orientation.normalize_orientation(),
        clockwise.normalize_orientation(),
    );
}

#[test]
fn cells_come_back_unchanged() {
    let cells = with_pegs(&[1, 4, 9, 13]);
    assert_eq!(BoardState::new(cells).cells(), cells);
}

#[test]
fn empty_board_normalizes_to_itself() {
    let empty = BoardState::new([false; 15]);
    assert_eq!(empty.normalize_orientation(), empty);
}

#[test]
fn full_board_is_unchanged_by_every_operation() {
    let full = BoardState::new([true; 15]);
    assert_eq!(full.rotate_clockwise(), full);
    assert_eq!(full.rotate_counter_clockwise(), full);
    assert_eq!(full.normalize_orientation(), full);
}

#[test]
fn clockwise_follows_the_table() {
    let board = BoardState::new(with_pegs(&[0, 1, 2, 6]));
    // cell 0 goes to 10, 1 to 11, 2 to 6, 6 to 13
    assert_eq!(board.rotate_clockwise().cells(), with_pegs(&[6, 10, 11, 13]));
}

#[test]
fn counter_clockwise_follows_the_table() {
    let board = BoardState::new(with_pegs(&[0, 1, 2, 6]));
    // cell 0 goes to 14, 1 to 9, 2 to 13, 6 to 2
    assert_eq!(board.rotate_counter_clockwise().cells(), with_pegs(&[2, 9, 13, 14]));
}

#[test]
fn three_turns_give_the_board_back() {
    let board = BoardState::new(with_pegs(&[0, 3, 4, 8, 12, 13]));
    assert_eq!(board.rotate_clockwise().rotate_clockwise().rotate_clockwise(), board);
    assert_eq!(
        board
            .rotate_counter_clockwise()
            .rotate_counter_clockwise()
            .rotate_counter_clockwise(),
        board
    );
    assert_ne!(board.rotate_clockwise(), board);
}

#[test]
fn turns_undo_each_other() {
    let board = BoardState::new(with_pegs(&[2, 5, 7, 11, 14]));
    assert_eq!(board.rotate_counter_clockwise().rotate_clockwise(), board);
    assert_eq!(board.rotate_clockwise().rotate_counter_clockwise(), board);
    assert_eq!(
        board.rotate_counter_clockwise().rotate_counter_clockwise(),
        board.rotate_clockwise()
    );
}

#[test]
fn normalization_ignores_rotation() {
    // top third 3, lower left 1, lower right 1
    let board = BoardState::new(with_pegs(&[0, 1, 2, 7, 9]));
    let n = board.normalize_orientation();
    assert_eq!(n, board);
    assert_eq!(board.rotate_clockwise().normalize_orientation(), n);
    assert_eq!(board.rotate_counter_clockwise().normalize_orientation(), n);
}

#[test]
fn normalizing_twice_changes_nothing() {
    let board = BoardState::new(with_pegs(&[6, 7, 10, 11, 13]));
    let n = board.normalize_orientation();
    assert_eq!(n.normalize_orientation(), n);
}

#[test]
fn lower_left_heaviest_turns_counter_clockwise() {
    let board = BoardState::new(only(10));
    assert_eq!(board.normalize_orientation().cells(), only(0));
}

#[test]
fn lower_right_heaviest_turns_clockwise() {
    let board = BoardState::new(only(14));
    assert_eq!(board.normalize_orientation().cells(), only(0));
}

#[test]
fn two_way_tie_turns_clockwise() {
    // cell 3 lies in the top and the lower-left thirds: counts 1, 1, 0
    let board = BoardState::new(only(3));
    assert_eq!(board.normalize_orientation().cells(), only(12));
}

#[test]
fn balanced_board_is_left_alone() {
    // one peg in each third
    let board = BoardState::new(with_pegs(&[0, 10, 13]));
    assert_eq!(board.normalize_orientation(), board);
}

#[test]
fn equality_and_order_are_by_cells() {
    let a = BoardState::new(only(14));
    let b = BoardState::new(only(0));
    assert_ne!(a, b);
    assert_eq!(a, BoardState::new(only(14)));
    assert!(a < b);
    assert!(BoardState::new([false; 15]) < a);
}

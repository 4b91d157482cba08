use knight_board::{GameState, KnightMove, TurnError};

#[test]
fn index_coords_round_trip_every_cell() {
    for i in 0..64usize {
        let c = GameState::index_to_coords(i);
        assert_eq!(c, ((i % 8) as i8, (i / 8) as i8));
        assert_eq!(GameState::coord_to_index(c), Ok(i));
    }
}

#[test]
fn coord_in_bounds_accepts_whole_board() {
    for x in 0..8i8 {
        for y in 0..8i8 {
            assert_eq!(GameState::coord_in_bounds((x, y)), Ok(()));
        }
    }
}

#[test]
fn coord_in_bounds_rejects_outside() {
    for c in [(-1, 0), (8, 0), (0, -1), (0, 8), (9, -1), (-2, 9), (i8::MIN, i8::MAX)] {
        assert_eq!(GameState::coord_in_bounds(c), Err(TurnError::IllegalMove));
        assert_eq!(GameState::coord_to_index(c), Err(TurnError::IllegalMove));
    }
}

#[test]
fn coord_to_index_row_major() {
    assert_eq!(GameState::coord_to_index((7, 0)), Ok(7));
    assert_eq!(GameState::coord_to_index((3, 3)), Ok(27));
    assert_eq!(GameState::coord_to_index((5, 1)), Ok(13));
    assert_eq!(GameState::coord_to_index((0, 7)), Ok(56));
    assert_eq!(GameState::coord_to_index((7, 7)), Ok(63));
}

#[test]
fn index_to_coords_values() {
    assert_eq!(GameState::index_to_coords(0), (0, 0));
    assert_eq!(GameState::index_to_coords(7), (7, 0));
    assert_eq!(GameState::index_to_coords(27), (3, 3));
    assert_eq!(GameState::index_to_coords(63), (7, 7));
}

#[test]
fn apply_move_adds_displacement() {
    assert_eq!(GameState::apply_move((7, 0), (-2, 1)), (5, 1));
    assert_eq!(GameState::apply_move((7, 0), (2, -1)), (9, -1));
}

#[test]
fn coord_delta_exact_values() {
    assert_eq!(KnightMove::NNE.coord_delta(), (1, -2));
    assert_eq!(KnightMove::ENE.coord_delta(), (2, -1));
    assert_eq!(KnightMove::ESE.coord_delta(), (2, 1));
    assert_eq!(KnightMove::SSE.coord_delta(), (1, 2));
    assert_eq!(KnightMove::SSW.coord_delta(), (-1, 2));
    assert_eq!(KnightMove::WSW.coord_delta(), (-2, 1));
    assert_eq!(KnightMove::WNW.coord_delta(), (-2, -1));
    assert_eq!(KnightMove::NNW.coord_delta(), (-1, -2));
}

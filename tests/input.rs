use knight_board::{GameState, KnightMove, TurnError};

#[test]
fn each_key_names_its_move() {
    let table = [
        (b'o', KnightMove::NNE),
        (b'p', KnightMove::ENE),
        (b';', KnightMove::ESE),
        (b'l', KnightMove::SSE),
        (b'k', KnightMove::SSW),
        (b'j', KnightMove::WSW),
        (b'u', KnightMove::WNW),
        (b'i', KnightMove::NNW),
    ];
    for (key, mv) in table {
        assert_eq!(GameState::get_move(Some(key)), Ok(mv));
    }
    for (a, _) in table {
        for (b, _) in table {
            let same = GameState::get_move(Some(a)) == GameState::get_move(Some(b));
            assert_eq!(same, a == b);
        }
    }
}

#[test]
fn keys_give_exact_displacements() {
    let table = [
        (b'o', (1, -2)),
        (b'p', (2, -1)),
        (b';', (2, 1)),
        (b'l', (1, 2)),
        (b'k', (-1, 2)),
        (b'j', (-2, 1)),
        (b'u', (-2, -1)),
        (b'i', (-1, -2)),
    ];
    for (key, delta) in table {
        assert_eq!(GameState::get_move(Some(key)).unwrap().coord_delta(), delta);
    }
}

#[test]
fn other_keys_are_unrecognized() {
    for key in [b'a', b'O', b'\n', b' ', b'0', 0u8, 255u8, b'q', b'n'] {
        assert_eq!(GameState::get_move(Some(key)), Err(TurnError::InvalidMoveInput));
    }
}

#[test]
fn missing_input_is_reported() {
    assert_eq!(GameState::get_move(None), Err(TurnError::BadParse));
}

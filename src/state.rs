use vstd::prelude::*;

use crate::piece::{KnightMove, Piece};

verus! {

/// Why a turn was not taken.
#[derive(Clone, Copy, Debug, PartialEq, Eq, Structural)]
pub enum TurnError {
    /// No input was available.
    BadParse,
    /// The input key names no move.
    InvalidMoveInput,
    /// The move would leave the board.
    IllegalMove,
}

/// One board cell and its occupant, if any.
#[derive(Clone, Copy, Debug, PartialEq, Eq, Structural)]
pub struct Square(pub Option<Piece>);

/// The text of an occupied cell: `n ` for the knight, `q ` for the queen;
/// an empty cell has none of its own.
pub open spec fn occupant_text(sq: Square) -> Seq<char> {
    match sq.0 {
        Some(Piece::Knight) => seq!['n', ' '],
        Some(Piece::Queen) => seq!['q', ' '],
        None => seq![],
    }
}

impl Square {
    /// The text of this cell's occupant.
    pub fn glyph(&self) -> (r: &'static str)
        ensures
            r@ == occupant_text(*self),
    {
        match self.0 {
            Some(Piece::Knight) => {
                proof {
                    reveal_strlit("n ");
                }
                "n "
            },
            Some(Piece::Queen) => {
                proof {
                    reveal_strlit("q ");
                }
                "q "
            },
            None => {
                proof {
                    reveal_strlit("");
                }
                ""
            },
        }
    }
}

/// The cell index where the knight starts.
pub const STARTING_SQUARE: usize = 7;

/// The cell index of the queen.
pub const QUEEN_SQUARE: usize = 27;

/// Column and row of a cell index, in row-major order.
pub open spec fn coords_of(i: int) -> (int, int) {
    (i % 8, i / 8)
}

/// Whether a coordinate pair lies on the board.
pub open spec fn in_bounds(c: (int, int)) -> bool {
    0 <= c.0 <= 7 && 0 <= c.1 <= 7
}

/// The cell index of a coordinate pair, in row-major order.
pub open spec fn index_of(c: (int, int)) -> int {
    c.1 * 8 + c.0
}

/// A coordinate pair read as mathematical integers.
pub open spec fn coords_view(c: (i8, i8)) -> (int, int) {
    (c.0 as int, c.1 as int)
}

/// The move that a key stands for.
pub open spec fn key_move(key: u8) -> Option<KnightMove> {
    if key == 111 {
        Some(KnightMove::NNE)  // 'o'
    } else if key == 112 {
        Some(KnightMove::ENE)  // 'p'
    } else if key == 59 {
        Some(KnightMove::ESE)  // ';'
    } else if key == 108 {
        Some(KnightMove::SSE)  // 'l'
    } else if key == 107 {
        Some(KnightMove::SSW)  // 'k'
    } else if key == 106 {
        Some(KnightMove::WSW)  // 'j'
    } else if key == 117 {
        Some(KnightMove::WNW)  // 'u'
    } else if key == 105 {
        Some(KnightMove::NNW)  // 'i'
    } else {
        None
    }
}

/// What decoding an optional key gives.
pub open spec fn decoded(key: Option<u8>) -> Result<KnightMove, TurnError> {
    match key {
        None => Err(TurnError::BadParse),
        Some(k) => match key_move(k) {
            Some(m) => Ok(m),
            None => Err(TurnError::InvalidMoveInput),
        },
    }
}

/// The occupant of each cell of a freshly set up board.
pub open spec fn initial_square(i: int) -> Square {
    if i == STARTING_SQUARE {
        Square(Some(Piece::Knight))
    } else if i == QUEEN_SQUARE {
        Square(Some(Piece::Queen))
    } else {
        Square(None)
    }
}

/// Every cell index converts to coordinates on the board, and those
/// coordinates convert back to the same index.
pub proof fn lemma_index_coords_round_trip(i: int)
    requires
        0 <= i < 64,
    ensures
        in_bounds(coords_of(i)),
        index_of(coords_of(i)) == i,
{
}

/// No two keys name the same move, and every move is named by some key.
pub proof fn lemma_keys_name_distinct_moves(a: u8, b: u8, mv: KnightMove)
    ensures
        key_move(a) is Some && key_move(a) == key_move(b) ==> a == b,
        exists|k: u8| key_move(k) == Some(mv),
{
    let k: u8 = match mv {
        KnightMove::NNE => 111,
        KnightMove::ENE => 112,
        KnightMove::ESE => 59,
        KnightMove::SSE => 108,
        KnightMove::SSW => 107,
        KnightMove::WSW => 106,
        KnightMove::WNW => 117,
        KnightMove::NNW => 105,
    };
    assert(key_move(k) == Some(mv));
}

/// The board, the knight's cell index, a turn counter and a completion flag.
pub struct GameState {
    pub squares: [Square; 64],
    pub turn_count: usize,
    pub is_complete: bool,
    pub player_loc: usize,
}

impl GameState {
    /// The knight stands at `player_loc` and on no other cell.
    pub open spec fn wf(&self) -> bool {
        &&& self.player_loc < 64
        &&& self.squares@[self.player_loc as int] == Square(Some(Piece::Knight))
        &&& forall|j: int|
            0 <= j < 64 && j != self.player_loc ==> self.squares@[j] != Square(Some(Piece::Knight))
    }

    /// The coordinates the knight would reach by `mv`, on the board or not.
    pub open spec fn target(&self, mv: KnightMove) -> (int, int) {
        let c = coords_of(self.player_loc as int);
        (c.0 + mv.delta().0, c.1 + mv.delta().1)
    }

    /// How a turn by `mv` takes this state to `post` with outcome `r`: a move
    /// that stays on the board empties the knight's cell, puts the knight on the
    /// target cell and leaves every other cell alone; one that would leave the
    /// board fails with `IllegalMove` and changes nothing.
    pub open spec fn turn_post(&self, post: GameState, mv: KnightMove, r: Result<(), TurnError>) -> bool {
        let t = self.target(mv);
        let from = self.player_loc as int;
        let to = index_of(t);
        if in_bounds(t) {
            &&& r is Ok
            &&& post.player_loc == to
            &&& to != from
            &&& post.squares@[from] == Square(None)
            &&& post.squares@[to] == Square(Some(Piece::Knight))
            &&& forall|j: int|
                0 <= j < 64 && j != from && j != to ==> post.squares@[j] == self.squares@[j]
            &&& post.turn_count == self.turn_count
            &&& post.is_complete == self.is_complete
        } else {
            &&& r == Err::<(), TurnError>(TurnError::IllegalMove)
            &&& post == *self
        }
    }

    /// A board with the knight on its starting cell and the queen on hers.
    pub fn init() -> (gs: Self)
        ensures
            forall|i: int| 0 <= i < 64 ==> gs.squares@[i] == initial_square(i),
            gs.player_loc == STARTING_SQUARE,
            gs.turn_count == 0,
            !gs.is_complete,
            gs.wf(),
    {
        let mut gs = GameState {
            squares: [Square(None); 64],
            turn_count: 0,
            is_complete: false,
            player_loc: STARTING_SQUARE,
        };
        gs.squares[STARTING_SQUARE] = Square(Some(Piece::Knight));
        gs.squares[QUEEN_SQUARE] = Square(Some(Piece::Queen));
        gs
    }

    /// Moves the knight by `mv` if it stays on the board.
    pub fn turn(&mut self, mv: KnightMove) -> (r: Result<(), TurnError>)
        requires
            old(self).player_loc < 64,
        ensures
            old(self).turn_post(*final(self), mv, r),
            old(self).wf() ==> final(self).wf(),
    {
        let old_loc_coords = GameState::index_to_coords(self.player_loc);
        let delta = mv.coord_delta();
        let candidate = GameState::apply_move(old_loc_coords, delta);
        let new_loc = match GameState::coord_to_index(candidate) {
            Ok(i) => i,
            Err(e) => {
                return Err(e);
            },
        };
        let from = self.player_loc;
        self.squares[from] = Square(None);
        self.squares[new_loc] = Square(Some(Piece::Knight));
        self.player_loc = new_loc;
        Ok(())
    }

    /// Decodes one key: each of `o p ; l k j u i` names one move, clockwise
    /// from north-north-east; any other key is refused, and no key at all is
    /// reported as such.
    pub fn get_move(character: Option<u8>) -> (r: Result<KnightMove, TurnError>)
        ensures
            r == decoded(character),
    {
        match character {
            Some(111) => Ok(KnightMove::NNE),  // 'o'
            Some(112) => Ok(KnightMove::ENE),  // 'p'
            Some(59) => Ok(KnightMove::ESE),  // ';'
            Some(108) => Ok(KnightMove::SSE),  // 'l'
            Some(107) => Ok(KnightMove::SSW),  // 'k'
            Some(106) => Ok(KnightMove::WSW),  // 'j'
            Some(117) => Ok(KnightMove::WNW),  // 'u'
            Some(105) => Ok(KnightMove::NNW),  // 'i'
            Some(_) => Err(TurnError::InvalidMoveInput),
            None => Err(TurnError::BadParse),
        }
    }

    /// One round of play: decode the key, then take the turn it names.
    pub fn step(&mut self, character: Option<u8>) -> (r: Result<(), TurnError>)
        requires
            old(self).player_loc < 64,
        ensures
            match decoded(character) {
                Ok(mv) => old(self).turn_post(*final(self), mv, r),
                Err(e) => r == Err::<(), TurnError>(e) && *final(self) == *old(self),
            },
            old(self).wf() ==> final(self).wf(),
    {
        match GameState::get_move(character) {
            Ok(mv) => self.turn(mv),
            Err(e) => Err(e),
        }
    }

    /// The cell index of a coordinate pair, if it lies on the board.
    pub fn coord_to_index(input: (i8, i8)) -> (r: Result<usize, TurnError>)
        ensures
            in_bounds(coords_view(input)) ==> r == Ok::<usize, TurnError>(
                index_of(coords_view(input)) as usize,
            ),
            !in_bounds(coords_view(input)) ==> r == Err::<usize, TurnError>(TurnError::IllegalMove),
    {
        match GameState::coord_in_bounds(input) {
            Ok(()) => {},
            Err(e) => {
                return Err(e);
            },
        }
        let (x, y) = input;
        Ok((y * 8 + x) as usize)
    }

    /// Succeeds exactly when both coordinates lie in `0..=7`.
    pub fn coord_in_bounds(coords: (i8, i8)) -> (r: Result<(), TurnError>)
        ensures
            in_bounds(coords_view(coords)) <==> r is Ok,
            !in_bounds(coords_view(coords)) ==> r == Err::<(), TurnError>(TurnError::IllegalMove),
    {
        let (x, y) = coords;
        if 0 <= x && x <= 7 && 0 <= y && y <= 7 {
            Ok(())
        } else {
            Err(TurnError::IllegalMove)
        }
    }

    /// Column and row of a cell index.
    pub fn index_to_coords(input: usize) -> (r: (i8, i8))
        requires
            input < 64,
        ensures
            coords_view(r) == coords_of(input as int),
    {
        ((input % 8) as i8, (input / 8) as i8)
    }

    /// Adds a displacement to a coordinate pair.
    pub fn apply_move(pos: (i8, i8), delta: (i8, i8)) -> (r: (i8, i8))
        requires
            i8::MIN <= pos.0 + delta.0 <= i8::MAX,
            i8::MIN <= pos.1 + delta.1 <= i8::MAX,
        ensures
            coords_view(r) == (pos.0 + delta.0, pos.1 + delta.1),
    {
        let (x, y) = pos;
        let (xd, yd) = delta;
        (x + xd, y + yd)
    }
}

} // verus!

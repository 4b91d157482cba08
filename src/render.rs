use vstd::prelude::*;

use crate::state::{occupant_text, GameState, Square};

verus! {

/// Something that can be drawn as text.
pub trait Render {
    /// The text that `render` produces.
    spec fn rendered(&self) -> Seq<char>;

    fn render(&self) -> (r: String)
        ensures
            r@ == self.rendered(),
    ;
}

/// The fill of an empty cell: light where the column and row have the same
/// parity, dark elsewhere.
pub open spec fn fill_text(i: int) -> Seq<char> {
    if i % 2 == (i / 8) % 2 {
        seq!['\u{2591}', '\u{2591}']
    } else {
        seq!['\u{2588}', '\u{2588}']
    }
}

/// The text of the cell at index `i`, with a line break after the last
/// cell of each row.
pub open spec fn cell_text(sq: Square, i: int) -> Seq<char> {
    (if sq.0 is Some {
        occupant_text(sq)
    } else {
        fill_text(i)
    }) + (if i % 8 == 7 {
        seq!['\n']
    } else {
        seq![]
    })
}

/// The text of the first `n` cells.
pub open spec fn board_text(cells: Seq<Square>, n: nat) -> Seq<char>
    decreases n,
{
    if n == 0 {
        seq![]
    } else {
        board_text(cells, (n - 1) as nat) + cell_text(cells[n - 1], n - 1)
    }
}

/// Relies on `String::push_str`: appends the characters of `t`.
#[verifier::external_body]
fn append(s: &mut String, t: &str)
    ensures
        final(s)@ == old(s)@ + t@,
{
    s.push_str(t);
}

impl Render for GameState {
    open spec fn rendered(&self) -> Seq<char> {
        board_text(self.squares@, 64)
    }

    /// Eight rows of eight two-character cells, each row ending in a line break.
    fn render(&self) -> (r: String) {
        let mut board_str = String::new();
        let mut i: usize = 0;
        while i < 64
            invariant
                i <= 64,
                board_str@ == board_text(self.squares@, i as nat),
            decreases 64 - i,
        {
            let square = self.squares[i];
            let ghost before = board_str@;
            let fill: &str = match square.0 {
                Some(_) => square.glyph(),
                None => if i % 2 == (i / 8) % 2 {
                    proof {
                        reveal_strlit("\u{2591}\u{2591}");
                    }
                    "\u{2591}\u{2591}"
                } else {
                    proof {
                        reveal_strlit("\u{2588}\u{2588}");
                    }
                    "\u{2588}\u{2588}"
                },
            };
            append(&mut board_str, fill);
            if i % 8 == 7 {
                proof {
                    reveal_strlit("\n");
                }
                append(&mut board_str, "\n");
            }
            assert(board_str@ =~= before + cell_text(square, i as int));
            i += 1;
        }
        board_str
    }
}

} // verus!

//! The fixed glyph table: one 5x5 binary arrow per compass direction, used
//! only for rendering. A cell value of 1 is a lit LED.

use vstd::prelude::*;
use crate::heading::Direction;

verus! {

/// The rows of the fixed glyph that renders a direction, top row first.
pub open spec fn glyph_rows(d: Direction) -> Seq<Seq<u8>> {
    match d {
        Direction::North => seq![
            seq![0u8, 0u8, 1u8, 0u8, 0u8],
            seq![0u8, 1u8, 1u8, 1u8, 0u8],
            seq![1u8, 0u8, 1u8, 0u8, 1u8],
            seq![0u8, 0u8, 1u8, 0u8, 0u8],
            seq![0u8, 0u8, 1u8, 0u8, 0u8],
        ],
        Direction::NorthEast => seq![
            seq![1u8, 1u8, 1u8, 0u8, 0u8],
            seq![1u8, 1u8, 0u8, 0u8, 0u8],
            seq![1u8, 0u8, 1u8, 0u8, 0u8],
            seq![0u8, 0u8, 0u8, 1u8, 0u8],
            seq![0u8, 0u8, 0u8, 0u8, 1u8],
        ],
        Direction::East => seq![
            seq![0u8, 0u8, 1u8, 0u8, 0u8],
            seq![0u8, 1u8, 0u8, 0u8, 0u8],
            seq![1u8, 1u8, 1u8, 1u8, 1u8],
            seq![0u8, 1u8, 0u8, 0u8, 0u8],
            seq![0u8, 0u8, 1u8, 0u8, 0u8],
        ],
        Direction::SouthEast => seq![
            seq![0u8, 0u8, 0u8, 0u8, 1u8],
            seq![0u8, 0u8, 0u8, 1u8, 0u8],
            seq![1u8, 0u8, 1u8, 0u8, 0u8],
            seq![1u8, 1u8, 0u8, 0u8, 0u8],
            seq![1u8, 1u8, 1u8, 0u8, 0u8],
        ],
        Direction::South => seq![
            seq![0u8, 0u8, 1u8, 0u8, 0u8],
            seq![0u8, 0u8, 1u8, 0u8, 0u8],
            seq![1u8, 0u8, 1u8, 0u8, 1u8],
            seq![0u8, 1u8, 1u8, 1u8, 0u8],
            seq![0u8, 0u8, 1u8, 0u8, 0u8],
        ],
        Direction::SouthWest => seq![
            seq![1u8, 0u8, 0u8, 0u8, 0u8],
            seq![0u8, 1u8, 0u8, 0u8, 0u8],
            seq![0u8, 0u8, 1u8, 0u8, 1u8],
            seq![0u8, 0u8, 0u8, 1u8, 1u8],
            seq![0u8, 0u8, 1u8, 1u8, 1u8],
        ],
        Direction::West => seq![
            seq![0u8, 0u8, 1u8, 0u8, 0u8],
            seq![0u8, 0u8, 0u8, 1u8, 0u8],
            seq![1u8, 1u8, 1u8, 1u8, 1u8],
            seq![0u8, 0u8, 0u8, 1u8, 0u8],
            seq![0u8, 0u8, 1u8, 0u8, 0u8],
        ],
        Direction::NorthWest => seq![
            seq![0u8, 0u8, 1u8, 1u8, 1u8],
            seq![0u8, 0u8, 0u8, 1u8, 1u8],
            seq![0u8, 0u8, 1u8, 0u8, 1u8],
            seq![0u8, 1u8, 0u8, 0u8, 0u8],
            seq![1u8, 0u8, 0u8, 0u8, 0u8],
        ],
    }
}

/// Look up the fixed glyph for a direction. Pure and total: every cell of the
/// returned grid equals the table entry of `glyph_rows`.
pub fn direction_to_led(direction: Direction) -> (grid: [[u8; 5]; 5])
    ensures
        forall|i: int| 0 <= i < 5 ==> (#[trigger] grid@[i])@ == glyph_rows(direction)[i],
{
    match direction {
        Direction::North => {
            let g: [[u8; 5]; 5] = [
                [0, 0, 1, 0, 0],
                [0, 1, 1, 1, 0],
                [1, 0, 1, 0, 1],
                [0, 0, 1, 0, 0],
                [0, 0, 1, 0, 0],
            ];
            proof {
                assert(g@[0]@ =~= glyph_rows(direction)[0]);
                assert(g@[1]@ =~= glyph_rows(direction)[1]);
                assert(g@[2]@ =~= glyph_rows(direction)[2]);
                assert(g@[3]@ =~= glyph_rows(direction)[3]);
                assert(g@[4]@ =~= glyph_rows(direction)[4]);
            }
            g
        }
        Direction::NorthEast => {
            let g: [[u8; 5]; 5] = [
                [1, 1, 1, 0, 0],
                [1, 1, 0, 0, 0],
                [1, 0, 1, 0, 0],
                [0, 0, 0, 1, 0],
                [0, 0, 0, 0, 1],
            ];
            proof {
                assert(g@[0]@ =~= glyph_rows(direction)[0]);
                assert(g@[1]@ =~= glyph_rows(direction)[1]);
                assert(g@[2]@ =~= glyph_rows(direction)[2]);
                assert(g@[3]@ =~= glyph_rows(direction)[3]);
                assert(g@[4]@ =~= glyph_rows(direction)[4]);
            }
            g
        }
        Direction::East => {
            let g: [[u8; 5]; 5] = [
                [0, 0, 1, 0, 0],
                [0, 1, 0, 0, 0],
                [1, 1, 1, 1, 1],
                [0, 1, 0, 0, 0],
                [0, 0, 1, 0, 0],
            ];
            proof {
                assert(g@[0]@ =~= glyph_rows(direction)[0]);
                assert(g@[1]@ =~= glyph_rows(direction)[1]);
                assert(g@[2]@ =~= glyph_rows(direction)[2]);
                assert(g@[3]@ =~= glyph_rows(direction)[3]);
                assert(g@[4]@ =~= glyph_rows(direction)[4]);
            }
            g
        }
        Direction::SouthEast => {
            let g: [[u8; 5]; 5] = [
                [0, 0, 0, 0, 1],
                [0, 0, 0, 1, 0],
                [1, 0, 1, 0, 0],
                [1, 1, 0, 0, 0],
                [1, 1, 1, 0, 0],
            ];
            proof {
                assert(g@[0]@ =~= glyph_rows(direction)[0]);
                assert(g@[1]@ =~= glyph_rows(direction)[1]);
                assert(g@[2]@ =~= glyph_rows(direction)[2]);
                assert(g@[3]@ =~= glyph_rows(direction)[3]);
                assert(g@[4]@ =~= glyph_rows(direction)[4]);
            }
            g
        }
        Direction::South => {
            let g: [[u8; 5]; 5] = [
                [0, 0, 1, 0, 0],
                [0, 0, 1, 0, 0],
                [1, 0, 1, 0, 1],
                [0, 1, 1, 1, 0],
                [0, 0, 1, 0, 0],
            ];
            proof {
                assert(g@[0]@ =~= glyph_rows(direction)[0]);
                assert(g@[1]@ =~= glyph_rows(direction)[1]);
                assert(g@[2]@ =~= glyph_rows(direction)[2]);
                assert(g@[3]@ =~= glyph_rows(direction)[3]);
                assert(g@[4]@ =~= glyph_rows(direction)[4]);
            }
            g
        }
        Direction::SouthWest => {
            let g: [[u8; 5]; 5] = [
                [1, 0, 0, 0, 0],
                [0, 1, 0, 0, 0],
                [0, 0, 1, 0, 1],
                [0, 0, 0, 1, 1],
                [0, 0, 1, 1, 1],
            ];
            proof {
                assert(g@[0]@ =~= glyph_rows(direction)[0]);
                assert(g@[1]@ =~= glyph_rows(direction)[1]);
                assert(g@[2]@ =~= glyph_rows(direction)[2]);
                assert(g@[3]@ =~= glyph_rows(direction)[3]);
                assert(g@[4]@ =~= glyph_rows(direction)[4]);
            }
            g
        }
        Direction::West => {
            let g: [[u8; 5]; 5] = [
                [0, 0, 1, 0, 0],
                [0, 0, 0, 1, 0],
                [1, 1, 1, 1, 1],
                [0, 0, 0, 1, 0],
                [0, 0, 1, 0, 0],
            ];
            proof {
                assert(g@[0]@ =~= glyph_rows(direction)[0]);
                assert(g@[1]@ =~= glyph_rows(direction)[1]);
                assert(g@[2]@ =~= glyph_rows(direction)[2]);
                assert(g@[3]@ =~= glyph_rows(direction)[3]);
                assert(g@[4]@ =~= glyph_rows(direction)[4]);
            }
            g
        }
        Direction::NorthWest => {
            let g: [[u8; 5]; 5] = [
                [0, 0, 1, 1, 1],
                [0, 0, 0, 1, 1],
                [0, 0, 1, 0, 1],
                [0, 1, 0, 0, 0],
                [1, 0, 0, 0, 0],
            ];
            proof {
                assert(g@[0]@ =~= glyph_rows(direction)[0]);
                assert(g@[1]@ =~= glyph_rows(direction)[1]);
                assert(g@[2]@ =~= glyph_rows(direction)[2]);
                assert(g@[3]@ =~= glyph_rows(direction)[3]);
                assert(g@[4]@ =~= glyph_rows(direction)[4]);
            }
            g
        }
    }
}

} // verus!

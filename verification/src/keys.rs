//! Tile descriptors: pure derivation of atlas grid addresses from semantic
//! board state.
//!
//! An atlas is an 8 by 8 grid of tiles.  A [`SpriteKey`] names a square
//! (optionally occupied by a piece, possibly shaded, highlighted, or giving
//! check) and maps to a column and a row of that grid; a [`PocketKey`] names
//! a pocket tile.  Both derivations are total: every descriptor yields an
//! address inside the grid.

use vstd::prelude::*;
use crate::pieces::{Color, Piece, Role, role_ordinal};

verus! {

/// A semantic request for one board-square tile.
pub struct SpriteKey {
    /// The piece standing on the square, if any.
    pub piece: Option<Piece>,
    /// Whether the square is a dark square.
    pub dark_square: bool,
    /// Whether the square is highlighted (for instance by the last move).
    pub highlight: bool,
    /// Whether the side to move is in check.
    pub check: bool,
}

impl SpriteKey {
    /// Whether the descriptor carries a piece of the white side.
    pub open spec fn has_white_piece(self) -> bool {
        self.piece matches Some(p) && p.color is White
    }

    /// The derived column: three independent boolean signals packed into
    /// one 3-bit value (white piece is worth 4, highlight 2, dark square 1).
    pub open spec fn spec_x(self) -> int {
        (if self.has_white_piece() {
            4int
        } else {
            0int
        }) + (if self.highlight {
            2int
        } else {
            0int
        }) + (if self.dark_square {
            1int
        } else {
            0int
        })
    }

    /// The derived row: 0 for an empty square, 7 for a king in check, and
    /// otherwise the role's fixed ordinal.
    pub open spec fn spec_y(self) -> int {
        match self.piece {
            Some(p) => if self.check && p.role is King {
                7int
            } else {
                role_ordinal(p.role)
            },
            None => 0int,
        }
    }

    /// The atlas column for this descriptor.
    pub fn x(&self) -> (c: usize)
        ensures
            c == self.spec_x(),
            c < 8,
    {
        let white: usize = match self.piece {
            Some(p) => if p.color.is_white() {
                1
            } else {
                0
            },
            None => 0,
        };
        let highlight: usize = if self.highlight {
            1
        } else {
            0
        };
        let dark: usize = if self.dark_square {
            1
        } else {
            0
        };
        4 * white + 2 * highlight + dark
    }

    /// The atlas row for this descriptor.
    pub fn y(&self) -> (r: usize)
        ensures
            r == self.spec_y(),
            r < 8,
    {
        match self.piece {
            Some(p) => if self.check && p.role == Role::King {
                7
            } else {
                p.role.ordinal()
            },
            None => 0,
        }
    }
}

/// The derived column always lies inside the 8-column grid.
pub proof fn lemma_column_in_range(k: SpriteKey)
    ensures
        0 <= k.spec_x() < 8,
{
}

/// Two descriptors share a column only when they agree on all three column
/// signals: the column derivation is injective on (white piece, highlight,
/// dark square).
pub proof fn lemma_column_injective(a: SpriteKey, b: SpriteKey)
    requires
        a.spec_x() == b.spec_x(),
    ensures
        a.has_white_piece() == b.has_white_piece(),
        a.highlight == b.highlight,
        a.dark_square == b.dark_square,
{
}

/// Every column of the grid is reached by some combination of the three
/// column signals: together with injectivity, the derivation is a bijection
/// between the 8 signal combinations and the 8 columns.
pub proof fn lemma_column_surjective(c: int)
    requires
        0 <= c < 8,
    ensures
        exists|k: SpriteKey| k.spec_x() == c,
{
    let k = SpriteKey {
        piece: if c >= 4 {
            Some(Piece { color: Color::White, role: Role::Pawn })
        } else {
            None
        },
        dark_square: c == 1 || c == 3 || c == 5 || c == 7,
        highlight: c == 2 || c == 3 || c == 6 || c == 7,
        check: false,
    };
    assert(k.spec_x() == c);
}

/// The row assignment: an empty square sits in row 0, a king in check in
/// row 7, and any other piece in its role's fixed ordinal row.  The check
/// flag distinguishes nothing but the king, and the row always lies inside
/// the 8-row grid.
pub proof fn lemma_row_assignment(k: SpriteKey)
    ensures
        k.piece is None ==> k.spec_y() == 0,
        k.piece matches Some(p) ==> k.spec_y() == (if k.check && p.role is King {
            7int
        } else {
            role_ordinal(p.role)
        }),
        0 <= k.spec_y() < 8,
{
}

/// Two occupied descriptors whose rows collide in the piece band carry the
/// same role: no two distinct roles ever share a row.
pub proof fn lemma_row_injective_on_roles(a: Role, b: Role)
    requires
        a != b,
    ensures
        role_ordinal(a) != role_ordinal(b),
{
}

/// A semantic request for one pocket tile.
///
/// The address derivation deliberately ignores both fields and resolves to
/// the single fixed tile at column 1, row 6; the fields are kept so a caller
/// can already say which pocket entry it is asking about.
pub struct PocketKey {
    /// The pocketed piece, if any.
    pub piece: Option<Piece>,
    /// How many such pieces the pocket holds.
    pub count: u8,
}

impl PocketKey {
    /// The atlas column for a pocket tile: always 1.
    pub fn x(&self) -> (c: usize)
        ensures
            c == 1,
    {
        1
    }

    /// The atlas row for a pocket tile: always 6.
    pub fn y(&self) -> (r: usize)
        ensures
            r == 6,
    {
        6
    }
}

} // verus!

//! The semantic identity of a chess piece: its side and its role.
//!
//! Tile addressing only ever reads two facts of a piece: whether it belongs
//! to the white side, and the fixed ordinal of its role among the six roles.

use vstd::prelude::*;

verus! {

/// The side a piece belongs to.
#[derive(Clone, Copy, Debug, PartialEq, Eq, Structural)]
pub enum Color {
    Black,
    White,
}

impl Color {
    /// Whether this is the white side.
    pub fn is_white(&self) -> (r: bool)
        ensures
            r == (*self is White),
    {
        matches!(self, Color::White)
    }
}

/// The role of a chess piece.
#[derive(Clone, Copy, Debug, PartialEq, Eq, Structural)]
pub enum Role {
    Pawn,
    Knight,
    Bishop,
    Rook,
    Queen,
    King,
}

/// The stable ordinal of a role among the six roles, from pawn at 1 up to
/// king at 6.
pub open spec fn role_ordinal(r: Role) -> int {
    match r {
        Role::Pawn => 1,
        Role::Knight => 2,
        Role::Bishop => 3,
        Role::Rook => 4,
        Role::Queen => 5,
        Role::King => 6,
    }
}

impl Role {
    /// The role's ordinal as an executable value.
    pub fn ordinal(&self) -> (n: usize)
        ensures
            n == role_ordinal(*self),
    {
        match self {
            Role::Pawn => 1,
            Role::Knight => 2,
            Role::Bishop => 3,
            Role::Rook => 4,
            Role::Queen => 5,
            Role::King => 6,
        }
    }
}

/// Distinct roles always carry distinct ordinals, and every ordinal lies in
/// the row band reserved for pieces.
pub proof fn lemma_role_ordinals_distinct(a: Role, b: Role)
    ensures
        a != b ==> role_ordinal(a) != role_ordinal(b),
        1 <= role_ordinal(a) <= 6,
{
}

/// A piece: a side together with a role.
#[derive(Clone, Copy, Debug, PartialEq, Eq, Structural)]
pub struct Piece {
    pub color: Color,
    pub role: Role,
}

} // verus!

//! Piece codes: the twelve colour and kind combinations, their two-character
//! asset names, and the parse from an asset file's base name back to a code.

use vstd::prelude::*;

verus! {

/// One of the twelve chess piece kinds, colour included.
#[derive(Clone, Copy, Debug, PartialEq, Eq, Structural)]
pub enum PieceCode {
    WhitePawn,
    WhiteKnight,
    WhiteBishop,
    WhiteRook,
    WhiteQueen,
    WhiteKing,
    BlackPawn,
    BlackKnight,
    BlackBishop,
    BlackRook,
    BlackQueen,
    BlackKing,
}

impl PieceCode {
    /// A distinct index below twelve for each code, used to key the asset
    /// catalog.
    pub open spec fn index_spec(self) -> int {
        match self {
            PieceCode::WhitePawn => 0,
            PieceCode::WhiteKnight => 1,
            PieceCode::WhiteBishop => 2,
            PieceCode::WhiteRook => 3,
            PieceCode::WhiteQueen => 4,
            PieceCode::WhiteKing => 5,
            PieceCode::BlackPawn => 6,
            PieceCode::BlackKnight => 7,
            PieceCode::BlackBishop => 8,
            PieceCode::BlackRook => 9,
            PieceCode::BlackQueen => 10,
            PieceCode::BlackKing => 11,
        }
    }

    /// Computes the catalog index of this code.
    pub fn index(self) -> (i: usize)
        ensures
            i == self.index_spec(),
    {
        match self {
            PieceCode::WhitePawn => 0,
            PieceCode::WhiteKnight => 1,
            PieceCode::WhiteBishop => 2,
            PieceCode::WhiteRook => 3,
            PieceCode::WhiteQueen => 4,
            PieceCode::WhiteKing => 5,
            PieceCode::BlackPawn => 6,
            PieceCode::BlackKnight => 7,
            PieceCode::BlackBishop => 8,
            PieceCode::BlackRook => 9,
            PieceCode::BlackQueen => 10,
            PieceCode::BlackKing => 11,
        }
    }

    /// The two-character asset name of this code: the colour letter followed
    /// by the piece letter, as in the asset files' base names.
    pub open spec fn asset_name_spec(self) -> Seq<char> {
        match self {
            PieceCode::WhitePawn => seq!['w', 'P'],
            PieceCode::WhiteKnight => seq!['w', 'N'],
            PieceCode::WhiteBishop => seq!['w', 'B'],
            PieceCode::WhiteRook => seq!['w', 'R'],
            PieceCode::WhiteQueen => seq!['w', 'Q'],
            PieceCode::WhiteKing => seq!['w', 'K'],
            PieceCode::BlackPawn => seq!['b', 'P'],
            PieceCode::BlackKnight => seq!['b', 'N'],
            PieceCode::BlackBishop => seq!['b', 'B'],
            PieceCode::BlackRook => seq!['b', 'R'],
            PieceCode::BlackQueen => seq!['b', 'Q'],
            PieceCode::BlackKing => seq!['b', 'K'],
        }
    }

    /// Computes the asset name of this code.
    pub fn asset_name(self) -> (r: &'static str)
        ensures
            r@ == self.asset_name_spec(),
    {
        proof {
            reveal_strlit("wP");
            reveal_strlit("wN");
            reveal_strlit("wB");
            reveal_strlit("wR");
            reveal_strlit("wQ");
            reveal_strlit("wK");
            reveal_strlit("bP");
            reveal_strlit("bN");
            reveal_strlit("bB");
            reveal_strlit("bR");
            reveal_strlit("bQ");
            reveal_strlit("bK");
        }
        let r = match self {
            PieceCode::WhitePawn => "wP",
            PieceCode::WhiteKnight => "wN",
            PieceCode::WhiteBishop => "wB",
            PieceCode::WhiteRook => "wR",
            PieceCode::WhiteQueen => "wQ",
            PieceCode::WhiteKing => "wK",
            PieceCode::BlackPawn => "bP",
            PieceCode::BlackKnight => "bN",
            PieceCode::BlackBishop => "bB",
            PieceCode::BlackRook => "bR",
            PieceCode::BlackQueen => "bQ",
            PieceCode::BlackKing => "bK",
        };
        proof {
            assert(r@ =~= self.asset_name_spec());
        }
        r
    }

    /// The code whose asset name is made of the two given characters, if any.
    pub open spec fn code_of_chars_spec(c0: char, c1: char) -> Option<PieceCode> {
        if c0 == 'w' {
            match c1 {
                'P' => Some(PieceCode::WhitePawn),
                'N' => Some(PieceCode::WhiteKnight),
                'B' => Some(PieceCode::WhiteBishop),
                'R' => Some(PieceCode::WhiteRook),
                'Q' => Some(PieceCode::WhiteQueen),
                'K' => Some(PieceCode::WhiteKing),
                _ => None,
            }
        } else if c0 == 'b' {
            match c1 {
                'P' => Some(PieceCode::BlackPawn),
                'N' => Some(PieceCode::BlackKnight),
                'B' => Some(PieceCode::BlackBishop),
                'R' => Some(PieceCode::BlackRook),
                'Q' => Some(PieceCode::BlackQueen),
                'K' => Some(PieceCode::BlackKing),
                _ => None,
            }
        } else {
            None
        }
    }

    /// The code whose asset name is the given character sequence, if any.
    pub open spec fn code_of_name_spec(name: Seq<char>) -> Option<PieceCode> {
        if name.len() == 2 {
            PieceCode::code_of_chars_spec(name[0], name[1])
        } else {
            None
        }
    }

    /// Parses an asset file's base name into a piece code. Names that match
    /// no code (case-sensitively) yield `None`.
    pub fn from_code(name: &str) -> (r: Option<PieceCode>)
        ensures
            r == PieceCode::code_of_name_spec(name@),
    {
        if name.unicode_len() != 2 {
            return None;
        }
        let c0 = name.get_char(0);
        let c1 = name.get_char(1);
        if c0 == 'w' {
            match c1 {
                'P' => Some(PieceCode::WhitePawn),
                'N' => Some(PieceCode::WhiteKnight),
                'B' => Some(PieceCode::WhiteBishop),
                'R' => Some(PieceCode::WhiteRook),
                'Q' => Some(PieceCode::WhiteQueen),
                'K' => Some(PieceCode::WhiteKing),
                _ => None,
            }
        } else if c0 == 'b' {
            match c1 {
                'P' => Some(PieceCode::BlackPawn),
                'N' => Some(PieceCode::BlackKnight),
                'B' => Some(PieceCode::BlackBishop),
                'R' => Some(PieceCode::BlackRook),
                'Q' => Some(PieceCode::BlackQueen),
                'K' => Some(PieceCode::BlackKing),
                _ => None,
            }
        } else {
            None
        }
    }
}

/// Parsing an asset name undoes forming it: every code's asset name parses
/// back to that code, so every piece that can appear in a position resolves
/// to the catalog entry loaded from the file of the same base name.
pub proof fn lemma_asset_name_roundtrip(code: PieceCode)
    ensures
        PieceCode::code_of_name_spec(code.asset_name_spec()) == Some(code),
{
}

} // verus!

//! The boundary to the outside chess-position library (`pleco`).
//!
//! A position is held as an opaque `pleco::Board`. What the renderer reads
//! from it — which piece stands on which square — is named by the
//! uninterpreted function `board_pieces`, a sequence of 64 optional piece
//! codes indexed by `file + 8 * rank` (a1 = 0, h8 = 63). Every trusted item
//! here speaks over that name; all rendering logic is verified against
//! these contracts.

use vstd::prelude::*;

use crate::fen::fen_guard;
use crate::piece::PieceCode;

verus! {

#[verifier::external_type_specification]
#[verifier::external_body]
pub struct ExBoard(pleco::Board);

/// The contents of a position: for each square index `file + 8 * rank`, the
/// piece standing there, if any.
pub uninterp spec fn board_pieces(b: pleco::Board) -> Seq<Option<PieceCode>>;

/// What parsing a board-notation string yields: the parsed contents, or
/// `None` for a string the parser rejects. Parsing depends on the string
/// alone, so its result can be named.
pub uninterp spec fn fen_position(s: Seq<char>) -> Option<Seq<Option<PieceCode>>>;

/// The piece standing on square `sq` in the standard chess starting
/// position: white's back rank on rank 0, pawns on ranks 1 and 6, black's
/// back rank on rank 7.
pub open spec fn start_piece_at(sq: int) -> Option<PieceCode> {
    let file = sq % 8;
    let rank = sq / 8;
    if rank == 1 {
        Some(PieceCode::WhitePawn)
    } else if rank == 6 {
        Some(PieceCode::BlackPawn)
    } else if rank == 0 {
        if file == 0 || file == 7 {
            Some(PieceCode::WhiteRook)
        } else if file == 1 || file == 6 {
            Some(PieceCode::WhiteKnight)
        } else if file == 2 || file == 5 {
            Some(PieceCode::WhiteBishop)
        } else if file == 3 {
            Some(PieceCode::WhiteQueen)
        } else {
            Some(PieceCode::WhiteKing)
        }
    } else if rank == 7 {
        if file == 0 || file == 7 {
            Some(PieceCode::BlackRook)
        } else if file == 1 || file == 6 {
            Some(PieceCode::BlackKnight)
        } else if file == 2 || file == 5 {
            Some(PieceCode::BlackBishop)
        } else if file == 3 {
            Some(PieceCode::BlackQueen)
        } else {
            Some(PieceCode::BlackKing)
        }
    } else {
        None
    }
}

/// The contents of the standard chess starting position.
pub open spec fn start_pieces() -> Seq<Option<PieceCode>> {
    Seq::new(64, |sq: int| start_piece_at(sq))
}

/// Relies on pleco's `Board::start_pos`, which constructs the standard
/// chess starting position.
#[verifier::external_body]
pub(crate) fn start_position_board() -> (b: pleco::Board)
    ensures
        board_pieces(b) == start_pieces(),
        board_pieces(b).len() == 64,
{
    pleco::Board::start_pos()
}

/// Relies on pleco's `Board::from_fen`, which parses a board-notation
/// string into a position or reports an error; the result depends on the
/// string alone. The precondition keeps out the strings on which the parser
/// can panic instead of reporting an error (see the `fen` module).
#[verifier::external_body]
pub(crate) fn parse_fen(s: &str) -> (r: Option<pleco::Board>)
    requires
        fen_guard(s@),
    ensures
        (r is Some) == (fen_position(s@) is Some),
        r matches Some(b) ==> Some(board_pieces(b)) == fen_position(s@) && board_pieces(b).len()
            == 64,
{
    match pleco::Board::from_fen(s) {
        Ok(b) => Some(b),
        Err(_) => None,
    }
}

/// Relies on pleco's `Board::piece_at_sq`, which returns the piece standing
/// on the given square, `Piece::None` for an empty square.
#[verifier::external_body]
pub(crate) fn board_piece_at(b: &pleco::Board, sq: u8) -> (r: Option<PieceCode>)
    requires
        sq < 64,
        board_pieces(*b).len() == 64,
    ensures
        r == board_pieces(*b)[sq as int],
{
    match b.piece_at_sq(pleco::SQ(sq)) {
        pleco::Piece::WhitePawn => Some(PieceCode::WhitePawn),
        pleco::Piece::WhiteKnight => Some(PieceCode::WhiteKnight),
        pleco::Piece::WhiteBishop => Some(PieceCode::WhiteBishop),
        pleco::Piece::WhiteRook => Some(PieceCode::WhiteRook),
        pleco::Piece::WhiteQueen => Some(PieceCode::WhiteQueen),
        pleco::Piece::WhiteKing => Some(PieceCode::WhiteKing),
        pleco::Piece::BlackPawn => Some(PieceCode::BlackPawn),
        pleco::Piece::BlackKnight => Some(PieceCode::BlackKnight),
        pleco::Piece::BlackBishop => Some(PieceCode::BlackBishop),
        pleco::Piece::BlackRook => Some(PieceCode::BlackRook),
        pleco::Piece::BlackQueen => Some(PieceCode::BlackQueen),
        pleco::Piece::BlackKing => Some(PieceCode::BlackKing),
        pleco::Piece::None => None,
    }
}

} // verus!

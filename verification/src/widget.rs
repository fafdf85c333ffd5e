//! The board widget: the stateful component a host UI toolkit drives. It
//! owns a position and the board parameters, answers size negotiation with
//! a shrink-to-fit square extent, exposes a layout key derived from the
//! cell size alone, renders a composite primitive group, and applies the
//! two inbound messages (flip the orientation; replace the position from a
//! board-notation string).

use vstd::prelude::*;

use crate::builder::{build, build_spec};
use crate::catalog::AssetCatalog;
use crate::fen::{fen_check, fen_guard};
use crate::geometry::{total_extent, total_extent_spec, BoardParams, Orientation};
use crate::piece::PieceCode;
use crate::position::{board_piece_at, board_pieces, fen_position, parse_fen, start_pieces,
    start_position_board};
use crate::primitive::{PointerHint, PrimitiveGroup};

verus! {

/// An inbound message: the host forwards these into the widget's state.
#[derive(Clone, Debug)]
pub enum Message {
    /// Flip which side is rendered at the bottom.
    ToggleOrientation,
    /// Replace the position with one parsed from a board-notation string;
    /// a string the parser rejects leaves the position unchanged.
    SetPosition(String),
}

/// The board widget's state: a position and the board parameters.
#[derive(Debug)]
pub struct ChessBoard {
    board: pleco::Board,
    params: BoardParams,
    catalog: AssetCatalog,
}

impl ChessBoard {
    /// A well-formed widget: positive cell size, a full catalog table, and
    /// a position with one entry per square.
    pub closed spec fn wf(self) -> bool {
        &&& self.params.valid()
        &&& self.catalog.wf()
        &&& board_pieces(self.board).len() == 64
    }

    /// The contents of the widget's position, one optional piece per square
    /// index `file + 8 * rank`.
    pub closed spec fn pieces(self) -> Seq<Option<PieceCode>> {
        board_pieces(self.board)
    }

    /// The widget's board parameters.
    pub closed spec fn params_spec(self) -> BoardParams {
        self.params
    }

    /// The widget's asset catalog.
    pub closed spec fn catalog_spec(self) -> AssetCatalog {
        self.catalog
    }

    /// Creates a widget showing the standard starting position, white at
    /// the bottom, with the given cell size and asset catalog.
    pub fn new(cell_size: u16, catalog: AssetCatalog) -> (w: ChessBoard)
        requires
            cell_size > 0,
            catalog.wf(),
        ensures
            w.wf(),
            w.pieces() == start_pieces(),
            w.params_spec() == (BoardParams { cell_size, orientation: Orientation::WhiteBottom }),
            w.catalog_spec() == catalog,
    {
        ChessBoard {
            board: start_position_board(),
            params: BoardParams { cell_size, orientation: Orientation::WhiteBottom },
            catalog,
        }
    }

    /// Reads the widget's board parameters.
    pub fn params(&self) -> (p: BoardParams)
        ensures
            p == self.params_spec(),
    {
        self.params
    }

    /// The widget's measured size: the total extent in both dimensions,
    /// regardless of orientation; the widget shrinks to fit and never
    /// grows beyond this.
    pub fn measure(&self) -> (size: (u32, u32))
        requires
            self.wf(),
        ensures
            size.0 == 9 * self.params_spec().cell_size,
            size.1 == 9 * self.params_spec().cell_size,
    {
        let extent = total_extent(self.params.cell_size);
        (extent, extent)
    }

    /// The layout key: derived from the cell size alone, and injectively,
    /// so the host can skip relayout on position-only changes while still
    /// detecting every size change.
    pub fn layout_key(&self) -> (key: u64)
        ensures
            key == layout_key_spec(self.params_spec().cell_size),
    {
        self.params.cell_size as u64
    }

    /// The piece on the square at (`file`, `rank`), if any.
    pub fn piece_at(&self, file: u8, rank: u8) -> (r: Option<PieceCode>)
        requires
            self.wf(),
            file < 8,
            rank < 8,
        ensures
            r == self.pieces()[file + 8 * rank],
    {
        board_piece_at(&self.board, file + 8 * rank)
    }

    /// Renders the widget into a composite group of primitives, with the
    /// viewport origin (`ox`, `oy`) in deci-pixels, and the non-interactive
    /// pointer hint. Rendering is a total function of the widget's state
    /// and never fails.
    pub fn render(&self, ox: u32, oy: u32) -> (out: (PrimitiveGroup, PointerHint))
        requires
            self.wf(),
        ensures
            out.0@ == build_spec(self.pieces(), self.catalog_spec(), self.params_spec(), ox, oy),
            out.1 == PointerHint::Idle,
    {
        let primitives = build(&self.board, &self.catalog, self.params, ox, oy);
        (PrimitiveGroup { primitives }, PointerHint::Idle)
    }

    /// Applies one inbound message: flipping the orientation toggles the
    /// parameters and keeps the position; replacing the position parses
    /// the given string and, on success, swaps the position in wholesale,
    /// while on failure (or on a string the safety screen rejects) the
    /// previous position is retained unchanged. The catalog never changes.
    pub fn apply(&mut self, message: Message)
        requires
            old(self).wf(),
        ensures
            final(self).wf(),
            final(self).catalog_spec() == old(self).catalog_spec(),
            message == Message::ToggleOrientation ==> {
                &&& final(self).params_spec() == old(self).params_spec().toggled_spec()
                &&& final(self).pieces() == old(self).pieces()
            },
            message matches Message::SetPosition(s) ==> {
                &&& final(self).params_spec() == old(self).params_spec()
                &&& if fen_guard(s@) && fen_position(s@) is Some {
                    Some(final(self).pieces()) == fen_position(s@)
                } else {
                    final(self).pieces() == old(self).pieces()
                }
            },
    {
        match message {
            Message::ToggleOrientation => {
                self.params = self.params.toggled();
            },
            Message::SetPosition(s) => {
                if fen_check(s.as_str()) {
                    match parse_fen(s.as_str()) {
                        Some(board) => {
                            self.board = board;
                        },
                        None => {},
                    }
                }
            },
        }
    }
}

/// The layout key as a function of the cell size: cell sizes map to keys
/// one-to-one.
pub open spec fn layout_key_spec(cell_size: u16) -> u64 {
    cell_size as u64
}

/// Equal layout keys mean equal cell sizes: a changed cell size always
/// changes the key, so the host never reuses a stale layout.
pub proof fn lemma_layout_key_injective(a: u16, b: u16)
    requires
        layout_key_spec(a) == layout_key_spec(b),
    ensures
        a == b,
{
}

/// The widget's measured size is the total extent in both dimensions for
/// every positive cell size and either orientation.
pub proof fn lemma_measure_is_total_extent(w: ChessBoard)
    requires
        w.wf(),
    ensures
        9 * w.params_spec().cell_size == total_extent_spec(w.params_spec().cell_size),
{
}

} // verus!


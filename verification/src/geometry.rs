//! Pure board geometry: the mapping from display cells to pixel rectangles,
//! the mapping from display cells to chess squares, and the coordinate
//! labels, all as functions of the cell size and the board orientation.
//!
//! Lengths are measured in deci-pixels: tenths of a pixel, so that positions
//! such as half a cell or three tenths of a cell are exact integers.

use vstd::prelude::*;

verus! {

/// Which side's back rank is rendered at the bottom of the widget.
#[derive(Clone, Copy, Debug, PartialEq, Eq, Structural)]
pub enum Orientation {
    WhiteBottom,
    BlackBottom,
}

/// The parameters that determine all board geometry: the side length of one
/// cell in pixels, and the orientation.
#[derive(Clone, Copy, Debug, PartialEq, Eq, Structural)]
pub struct BoardParams {
    pub cell_size: u16,
    pub orientation: Orientation,
}

/// An axis-aligned rectangle in deci-pixels.
#[derive(Clone, Copy, Debug, PartialEq, Eq, Structural)]
pub struct Bounds {
    pub x: u64,
    pub y: u64,
    pub w: u64,
    pub h: u64,
}

impl BoardParams {
    /// A cell must have a positive side length.
    pub open spec fn valid(self) -> bool {
        self.cell_size > 0
    }

    /// The parameters with the opposite orientation and the same cell size.
    pub open spec fn toggled_spec(self) -> BoardParams {
        BoardParams {
            cell_size: self.cell_size,
            orientation: match self.orientation {
                Orientation::WhiteBottom => Orientation::BlackBottom,
                Orientation::BlackBottom => Orientation::WhiteBottom,
            },
        }
    }

    /// Flips the orientation, keeping the cell size.
    pub fn toggled(self) -> (r: BoardParams)
        ensures
            r == self.toggled_spec(),
    {
        BoardParams {
            cell_size: self.cell_size,
            orientation: match self.orientation {
                Orientation::WhiteBottom => Orientation::BlackBottom,
                Orientation::BlackBottom => Orientation::WhiteBottom,
            },
        }
    }
}

/// Toggling the orientation twice restores the original parameters.
pub proof fn lemma_toggle_involutive(p: BoardParams)
    ensures
        p.toggled_spec().toggled_spec() == p,
{
}

/// The widget's total side length in pixels: eight cells plus a one-cell
/// border (half a cell on each side) reserved for the coordinate labels.
pub open spec fn total_extent_spec(cell_size: u16) -> int {
    9 * cell_size
}

/// Computes the total side length in pixels.
pub fn total_extent(cell_size: u16) -> (r: u32)
    ensures
        r == total_extent_spec(cell_size),
{
    9 * (cell_size as u32)
}

/// The rectangle of the cell at display position (`row`, `col`), in
/// deci-pixels, offset by the viewport origin (`ox`, `oy`). The 8 by 8
/// playing grid is centered in the 9 by 9 cell extent, so the first cell
/// starts half a cell (five tenths) from the border.
pub open spec fn cell_bounds_spec(cell_size: u16, ox: u32, oy: u32, row: int, col: int) -> Bounds {
    Bounds {
        x: (ox + cell_size * (10 * col + 5)) as u64,
        y: (oy + cell_size * (10 * row + 5)) as u64,
        w: (10 * cell_size) as u64,
        h: (10 * cell_size) as u64,
    }
}

/// Computes the cell rectangle at display position (`row`, `col`).
pub fn cell_bounds(cell_size: u16, ox: u32, oy: u32, row: u8, col: u8) -> (b: Bounds)
    requires
        row < 8,
        col < 8,
    ensures
        b == cell_bounds_spec(cell_size, ox, oy, row as int, col as int),
{
    let cs = cell_size as u64;
    assert(cs * (10 * (col as u64) + 5) <= 65535 * 75) by (nonlinear_arith)
        requires
            cs <= 65535,
            col < 8,
    ;
    assert(cs * (10 * (row as u64) + 5) <= 65535 * 75) by (nonlinear_arith)
        requires
            cs <= 65535,
            row < 8,
    ;
    Bounds {
        x: (ox as u64) + cs * (10 * (col as u64) + 5),
        y: (oy as u64) + cs * (10 * (row as u64) + 5),
        w: 10 * cs,
        h: 10 * cs,
    }
}

/// Distinct display cells have distinct rectangles.
pub proof fn lemma_cell_bounds_injective(
    cell_size: u16,
    ox: u32,
    oy: u32,
    r1: int,
    c1: int,
    r2: int,
    c2: int,
)
    requires
        cell_size > 0,
        0 <= r1 < 8,
        0 <= c1 < 8,
        0 <= r2 < 8,
        0 <= c2 < 8,
        !(r1 == r2 && c1 == c2),
    ensures
        cell_bounds_spec(cell_size, ox, oy, r1, c1) != cell_bounds_spec(cell_size, ox, oy, r2, c2),
{
    assert(0 <= cell_size * (10 * c1 + 5) <= 65535 * 75) by (nonlinear_arith)
        requires
            0 < cell_size <= 65535,
            0 <= c1 < 8,
    ;
    assert(0 <= cell_size * (10 * c2 + 5) <= 65535 * 75) by (nonlinear_arith)
        requires
            0 < cell_size <= 65535,
            0 <= c2 < 8,
    ;
    assert(0 <= cell_size * (10 * r1 + 5) <= 65535 * 75) by (nonlinear_arith)
        requires
            0 < cell_size <= 65535,
            0 <= r1 < 8,
    ;
    assert(0 <= cell_size * (10 * r2 + 5) <= 65535 * 75) by (nonlinear_arith)
        requires
            0 < cell_size <= 65535,
            0 <= r2 < 8,
    ;
    if c1 != c2 {
        assert(cell_size * (10 * c1 + 5) != cell_size * (10 * c2 + 5)) by (nonlinear_arith)
            requires
                cell_size > 0,
                c1 != c2,
        ;
    } else {
        assert(cell_size * (10 * r1 + 5) != cell_size * (10 * r2 + 5)) by (nonlinear_arith)
            requires
                cell_size > 0,
                r1 != r2,
        ;
    }
}

/// Every cell rectangle lies within the widget's total bounds (the total
/// extent, in deci-pixels, from the viewport origin).
pub proof fn lemma_cell_bounds_within_total(cell_size: u16, ox: u32, oy: u32, row: int, col: int)
    requires
        0 <= row < 8,
        0 <= col < 8,
    ensures
        ({
            let b = cell_bounds_spec(cell_size, ox, oy, row, col);
            &&& ox <= b.x
            &&& oy <= b.y
            &&& b.x + b.w <= ox + 10 * total_extent_spec(cell_size)
            &&& b.y + b.h <= oy + 10 * total_extent_spec(cell_size)
        }),
{
    assert(cell_size * (10 * col + 5) + 10 * cell_size <= 90 * cell_size) by (nonlinear_arith)
        requires
            0 <= col < 8,
    ;
    assert(cell_size * (10 * row + 5) + 10 * cell_size <= 90 * cell_size) by (nonlinear_arith)
        requires
            0 <= row < 8,
    ;
}

/// The chess square (as the index `file + 8 * rank`, with file a = 0 and
/// rank 1 = 0) displayed at position (`row`, `col`). Row 0 is the top of the
/// widget. White at the bottom places file a, rank 1 at the bottom-left
/// cell; black at the bottom is a half-turn rotation of that.
pub open spec fn square_at_spec(o: Orientation, row: int, col: int) -> int {
    match o {
        Orientation::WhiteBottom => col + 8 * (7 - row),
        Orientation::BlackBottom => (7 - col) + 8 * row,
    }
}

/// Computes the chess square displayed at position (`row`, `col`).
pub fn square_at(o: Orientation, row: u8, col: u8) -> (sq: u8)
    requires
        row < 8,
        col < 8,
    ensures
        sq == square_at_spec(o, row as int, col as int),
        sq < 64,
{
    match o {
        Orientation::WhiteBottom => col + 8 * (7 - row),
        Orientation::BlackBottom => (7 - col) + 8 * row,
    }
}

/// The file letter shown under display column `col`: 'A' through 'H' from
/// left to right with white at the bottom, reversed with black at the bottom.
pub open spec fn file_label_spec(o: Orientation, col: int) -> char {
    let c = match o {
        Orientation::WhiteBottom => col,
        Orientation::BlackBottom => 7 - col,
    };
    if c == 0 {
        'A'
    } else if c == 1 {
        'B'
    } else if c == 2 {
        'C'
    } else if c == 3 {
        'D'
    } else if c == 4 {
        'E'
    } else if c == 5 {
        'F'
    } else if c == 6 {
        'G'
    } else {
        'H'
    }
}

/// Computes the file letter for display column `col`.
pub fn file_label(o: Orientation, col: u8) -> (r: char)
    requires
        col < 8,
    ensures
        r == file_label_spec(o, col as int),
{
    let c = match o {
        Orientation::WhiteBottom => col,
        Orientation::BlackBottom => 7 - col,
    };
    match c {
        0 => 'A',
        1 => 'B',
        2 => 'C',
        3 => 'D',
        4 => 'E',
        5 => 'F',
        6 => 'G',
        _ => 'H',
    }
}

/// The file letters read in display order, left to right, are exactly 'A'
/// through 'H' with white at the bottom, and exactly 'H' down to 'A' with
/// black at the bottom.
pub proof fn lemma_file_labels_order()
    ensures
        Seq::new(8, |c: int| file_label_spec(Orientation::WhiteBottom, c)) == seq![
            'A',
            'B',
            'C',
            'D',
            'E',
            'F',
            'G',
            'H',
        ],
        Seq::new(8, |c: int| file_label_spec(Orientation::BlackBottom, c)) == seq![
            'H',
            'G',
            'F',
            'E',
            'D',
            'C',
            'B',
            'A',
        ],
{
    assert(Seq::new(8, |c: int| file_label_spec(Orientation::WhiteBottom, c)) =~= seq![
        'A',
        'B',
        'C',
        'D',
        'E',
        'F',
        'G',
        'H',
    ]);
    assert(Seq::new(8, |c: int| file_label_spec(Orientation::BlackBottom, c)) =~= seq![
        'H',
        'G',
        'F',
        'E',
        'D',
        'C',
        'B',
        'A',
    ]);
}

/// The rank digit shown beside display row `row`: '8' down to '1' from top
/// to bottom with white at the bottom, reversed with black at the bottom.
pub open spec fn rank_label_spec(o: Orientation, row: int) -> char {
    let r = match o {
        Orientation::WhiteBottom => 7 - row,
        Orientation::BlackBottom => row,
    };
    if r == 0 {
        '1'
    } else if r == 1 {
        '2'
    } else if r == 2 {
        '3'
    } else if r == 3 {
        '4'
    } else if r == 4 {
        '5'
    } else if r == 5 {
        '6'
    } else if r == 6 {
        '7'
    } else {
        '8'
    }
}

/// Computes the rank digit for display row `row`.
pub fn rank_label(o: Orientation, row: u8) -> (r: char)
    requires
        row < 8,
    ensures
        r == rank_label_spec(o, row as int),
{
    let d = match o {
        Orientation::WhiteBottom => 7 - row,
        Orientation::BlackBottom => row,
    };
    match d {
        0 => '1',
        1 => '2',
        2 => '3',
        3 => '4',
        4 => '5',
        5 => '6',
        6 => '7',
        _ => '8',
    }
}

} // verus!

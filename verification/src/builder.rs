//! Building the primitive list for one render pass, in paint order: one
//! background rectangle, 64 cell rectangles, 32 coordinate labels, and up
//! to 32 piece sprites. For a fixed position, catalog, parameters and
//! viewport origin the output is the same sequence every call.

use vstd::prelude::*;

use crate::catalog::AssetCatalog;
use crate::geometry::{cell_bounds, cell_bounds_spec, square_at, square_at_spec, file_label,
    file_label_spec, rank_label, rank_label_spec, total_extent_spec, BoardParams, Bounds};
use crate::piece::PieceCode;
use crate::position::{board_piece_at, board_pieces};
use crate::primitive::{background_color, dark_cell_color, label_color, light_cell_color,
    ColorRgb, Primitive, TextAlign};

verus! {

/// The background rectangle: the full widget bounds, in a colour distinct
/// from the cell colours, visible only in the label border.
pub open spec fn background_prim(params: BoardParams, ox: u32, oy: u32) -> Primitive {
    Primitive::Rect {
        bounds: Bounds {
            x: ox as u64,
            y: oy as u64,
            w: (10 * total_extent_spec(params.cell_size)) as u64,
            h: (10 * total_extent_spec(params.cell_size)) as u64,
        },
        color: background_color(),
    }
}

/// The colour of the cell at display position (`row`, `col`): light when
/// row plus column is even, independent of the orientation.
pub open spec fn cell_color_spec(row: int, col: int) -> ColorRgb {
    if (row + col) % 2 == 0 {
        light_cell_color()
    } else {
        dark_cell_color()
    }
}

/// The cell rectangle numbered `idx` in row-major display order.
pub open spec fn cell_prim(params: BoardParams, ox: u32, oy: u32, idx: int) -> Primitive {
    let row = idx / 8;
    let col = idx % 8;
    Primitive::Rect {
        bounds: cell_bounds_spec(params.cell_size, ox, oy, row, col),
        color: cell_color_spec(row, col),
    }
}

/// The first `n` cell rectangles, in order.
pub open spec fn cells_prefix(params: BoardParams, ox: u32, oy: u32, n: int) -> Seq<Primitive>
    decreases n,
{
    if n <= 0 {
        Seq::empty()
    } else {
        cells_prefix(params, ox, oy, n - 1).push(cell_prim(params, ox, oy, n - 1))
    }
}

/// The font size of the coordinate labels, proportional to the cell size.
pub open spec fn label_font_size_spec(params: BoardParams) -> int {
    3 * params.cell_size
}

/// The two labels for the file shown in display column `col`: one in the
/// top border, one in the bottom border, centered text.
pub open spec fn file_label_prims(params: BoardParams, ox: u32, oy: u32, col: int) -> Seq<
    Primitive,
> {
    let cs = params.cell_size;
    let text = file_label_spec(params.orientation, col);
    let top = Primitive::Label {
        text,
        bounds: Bounds {
            x: (ox + cs * (10 * col + 8)) as u64,
            y: (oy + cs * 2) as u64,
            w: (10 * cs) as u64,
            h: (10 * cs) as u64,
        },
        font_size: label_font_size_spec(params) as u64,
        color: label_color(),
        h_align: TextAlign::Center,
        v_align: TextAlign::Center,
    };
    let bottom = Primitive::Label {
        text,
        bounds: Bounds {
            x: (ox + cs * (10 * col + 8)) as u64,
            y: (oy + cs * 87) as u64,
            w: (10 * cs) as u64,
            h: (10 * cs) as u64,
        },
        font_size: label_font_size_spec(params) as u64,
        color: label_color(),
        h_align: TextAlign::Center,
        v_align: TextAlign::Center,
    };
    seq![top, bottom]
}

/// The labels for the first `n` display columns, in order.
pub open spec fn file_labels_prefix(params: BoardParams, ox: u32, oy: u32, n: int) -> Seq<
    Primitive,
>
    decreases n,
{
    if n <= 0 {
        Seq::empty()
    } else {
        file_labels_prefix(params, ox, oy, n - 1) + file_label_prims(params, ox, oy, n - 1)
    }
}

/// The two labels for the rank shown in display row `row`: one in the left
/// border, one in the right border, centered text.
pub open spec fn rank_label_prims(params: BoardParams, ox: u32, oy: u32, row: int) -> Seq<
    Primitive,
> {
    let cs = params.cell_size;
    let text = rank_label_spec(params.orientation, row);
    let left = Primitive::Label {
        text,
        bounds: Bounds {
            x: (ox + cs * 2) as u64,
            y: (oy + cs * (10 * row + 8)) as u64,
            w: (10 * cs) as u64,
            h: (10 * cs) as u64,
        },
        font_size: label_font_size_spec(params) as u64,
        color: label_color(),
        h_align: TextAlign::Center,
        v_align: TextAlign::Center,
    };
    let right = Primitive::Label {
        text,
        bounds: Bounds {
            x: (ox + cs * 87) as u64,
            y: (oy + cs * (10 * row + 8)) as u64,
            w: (10 * cs) as u64,
            h: (10 * cs) as u64,
        },
        font_size: label_font_size_spec(params) as u64,
        color: label_color(),
        h_align: TextAlign::Center,
        v_align: TextAlign::Center,
    };
    seq![left, right]
}

/// The labels for the first `n` display rows, in order.
pub open spec fn rank_labels_prefix(params: BoardParams, ox: u32, oy: u32, n: int) -> Seq<
    Primitive,
>
    decreases n,
{
    if n <= 0 {
        Seq::empty()
    } else {
        rank_labels_prefix(params, ox, oy, n - 1) + rank_label_prims(params, ox, oy, n - 1)
    }
}

/// The sprites for the display cell numbered `idx`: one sprite when the
/// square shown there holds a piece whose code has a catalog entry, and
/// nothing at all otherwise — an empty square or a missing asset is
/// skipped, not an error.
pub open spec fn sprite_prims_at(
    pieces: Seq<Option<PieceCode>>,
    catalog: AssetCatalog,
    params: BoardParams,
    ox: u32,
    oy: u32,
    idx: int,
) -> Seq<Primitive> {
    let row = idx / 8;
    let col = idx % 8;
    let sq = square_at_spec(params.orientation, row, col);
    match pieces[sq] {
        None => Seq::empty(),
        Some(code) => match catalog.lookup_spec(code) {
            None => Seq::empty(),
            Some(handle) => seq![
                Primitive::Sprite {
                    bounds: cell_bounds_spec(params.cell_size, ox, oy, row, col),
                    handle,
                },
            ],
        },
    }
}

/// The sprites for the first `n` display cells, in order.
pub open spec fn sprites_prefix(
    pieces: Seq<Option<PieceCode>>,
    catalog: AssetCatalog,
    params: BoardParams,
    ox: u32,
    oy: u32,
    n: int,
) -> Seq<Primitive>
    decreases n,
{
    if n <= 0 {
        Seq::empty()
    } else {
        sprites_prefix(pieces, catalog, params, ox, oy, n - 1) + sprite_prims_at(
            pieces,
            catalog,
            params,
            ox,
            oy,
            n - 1,
        )
    }
}

/// One full render pass, in paint order: background, cells, labels, then
/// sprites.
pub open spec fn build_spec(
    pieces: Seq<Option<PieceCode>>,
    catalog: AssetCatalog,
    params: BoardParams,
    ox: u32,
    oy: u32,
) -> Seq<Primitive> {
    seq![background_prim(params, ox, oy)] + cells_prefix(params, ox, oy, 64) + file_labels_prefix(
        params,
        ox,
        oy,
        8,
    ) + rank_labels_prefix(params, ox, oy, 8) + sprites_prefix(pieces, catalog, params, ox, oy, 64)
}

/// A square whose piece has no catalog entry contributes no sprite, and no
/// error arises: its cell's sprite sequence is empty.
pub proof fn lemma_missing_asset_no_sprite(
    pieces: Seq<Option<PieceCode>>,
    catalog: AssetCatalog,
    params: BoardParams,
    ox: u32,
    oy: u32,
    idx: int,
    code: PieceCode,
)
    requires
        0 <= idx < 64,
        pieces[square_at_spec(params.orientation, idx / 8, idx % 8)] == Some(code),
        catalog.lookup_spec(code) is None,
    ensures
        sprite_prims_at(pieces, catalog, params, ox, oy, idx) == Seq::<Primitive>::empty(),
{
}

/// Building is deterministic: two positions with the same contents and the
/// same catalog, parameters and viewport origin build the same primitive
/// sequence, order included.
pub proof fn lemma_build_deterministic(
    board1: pleco::Board,
    board2: pleco::Board,
    catalog: AssetCatalog,
    params: BoardParams,
    ox: u32,
    oy: u32,
)
    requires
        board_pieces(board1) == board_pieces(board2),
    ensures
        build_spec(board_pieces(board1), catalog, params, ox, oy) == build_spec(
            board_pieces(board2),
            catalog,
            params,
            ox,
            oy,
        ),
{
}

/// Computes the background rectangle.
pub fn get_background_primitive(params: BoardParams, ox: u32, oy: u32) -> (p: Primitive)
    ensures
        p == background_prim(params, ox, oy),
{
    let cs = params.cell_size as u64;
    Primitive::Rect {
        bounds: Bounds { x: ox as u64, y: oy as u64, w: 90 * cs, h: 90 * cs },
        color: ColorRgb { r: 214, g: 59, b: 96 },
    }
}

/// Computes the 64 cell rectangles in row-major display order.
pub fn get_cells_primitives(params: BoardParams, ox: u32, oy: u32) -> (r: Vec<Primitive>)
    ensures
        r@ == cells_prefix(params, ox, oy, 64),
{
    let mut res: Vec<Primitive> = Vec::new();
    let mut idx: usize = 0;
    while idx < 64
        invariant
            idx <= 64,
            res@ == cells_prefix(params, ox, oy, idx as int),
        decreases 64 - idx,
    {
        let row = (idx / 8) as u8;
        let col = (idx % 8) as u8;
        let bounds = cell_bounds(params.cell_size, ox, oy, row, col);
        let color = if (row + col) % 2 == 0 {
            ColorRgb { r: 255, g: 206, b: 158 }
        } else {
            ColorRgb { r: 209, g: 139, b: 71 }
        };
        res.push(Primitive::Rect { bounds, color });
        idx = idx + 1;
    }
    res
}

/// Computes the 32 coordinate labels: for each file a label in the top and
/// bottom borders, then for each rank a label in the left and right
/// borders.
pub fn get_cells_coordinates_primitives(params: BoardParams, ox: u32, oy: u32) -> (r: Vec<
    Primitive,
>)
    ensures
        r@ == file_labels_prefix(params, ox, oy, 8) + rank_labels_prefix(params, ox, oy, 8),
{
    let cs = params.cell_size as u64;
    let font_size = 3 * cs;
    let color = ColorRgb { r: 255, g: 199, b: 0 };
    let mut res: Vec<Primitive> = Vec::new();
    let mut col: u8 = 0;
    while col < 8
        invariant
            col <= 8,
            cs == params.cell_size,
            font_size == 3 * cs,
            color == label_color(),
            res@ == file_labels_prefix(params, ox, oy, col as int),
        decreases 8 - col,
    {
        let text = file_label(params.orientation, col);
        assert(cs * (10 * (col as u64) + 8) <= 65535 * 78) by (nonlinear_arith)
            requires
                cs <= 65535,
                col < 8,
        ;
        let x = (ox as u64) + cs * (10 * (col as u64) + 8);
        let top = Primitive::Label {
            text,
            bounds: Bounds { x, y: (oy as u64) + cs * 2, w: 10 * cs, h: 10 * cs },
            font_size,
            color,
            h_align: TextAlign::Center,
            v_align: TextAlign::Center,
        };
        let bottom = Primitive::Label {
            text,
            bounds: Bounds { x, y: (oy as u64) + cs * 87, w: 10 * cs, h: 10 * cs },
            font_size,
            color,
            h_align: TextAlign::Center,
            v_align: TextAlign::Center,
        };
        res.push(top);
        res.push(bottom);
        proof {
            assert(res@ =~= file_labels_prefix(params, ox, oy, col as int + 1));
        }
        col = col + 1;
    }
    let mut row: u8 = 0;
    while row < 8
        invariant
            row <= 8,
            cs == params.cell_size,
            font_size == 3 * cs,
            color == label_color(),
            res@ == file_labels_prefix(params, ox, oy, 8) + rank_labels_prefix(
                params,
                ox,
                oy,
                row as int,
            ),
        decreases 8 - row,
    {
        let text = rank_label(params.orientation, row);
        assert(cs * (10 * (row as u64) + 8) <= 65535 * 78) by (nonlinear_arith)
            requires
                cs <= 65535,
                row < 8,
        ;
        let y = (oy as u64) + cs * (10 * (row as u64) + 8);
        let left = Primitive::Label {
            text,
            bounds: Bounds { x: (ox as u64) + cs * 2, y, w: 10 * cs, h: 10 * cs },
            font_size,
            color,
            h_align: TextAlign::Center,
            v_align: TextAlign::Center,
        };
        let right = Primitive::Label {
            text,
            bounds: Bounds { x: (ox as u64) + cs * 87, y, w: 10 * cs, h: 10 * cs },
            font_size,
            color,
            h_align: TextAlign::Center,
            v_align: TextAlign::Center,
        };
        res.push(left);
        res.push(right);
        proof {
            assert(res@ =~= file_labels_prefix(params, ox, oy, 8) + rank_labels_prefix(
                params,
                ox,
                oy,
                row as int + 1,
            ));
        }
        row = row + 1;
    }
    res
}

/// Computes the piece sprites: for each display cell, the piece on the
/// square shown there, sized to one cell; squares without a piece or
/// without a catalog entry contribute nothing.
pub fn get_pieces_primitives(
    board: &pleco::Board,
    catalog: &AssetCatalog,
    params: BoardParams,
    ox: u32,
    oy: u32,
) -> (r: Vec<Primitive>)
    requires
        catalog.wf(),
        board_pieces(*board).len() == 64,
    ensures
        r@ == sprites_prefix(board_pieces(*board), *catalog, params, ox, oy, 64),
{
    let mut res: Vec<Primitive> = Vec::new();
    let mut idx: usize = 0;
    while idx < 64
        invariant
            idx <= 64,
            catalog.wf(),
            board_pieces(*board).len() == 64,
            res@ == sprites_prefix(board_pieces(*board), *catalog, params, ox, oy, idx as int),
        decreases 64 - idx,
    {
        let row = (idx / 8) as u8;
        let col = (idx % 8) as u8;
        let sq = square_at(params.orientation, row, col);
        match board_piece_at(board, sq) {
            None => {},
            Some(code) => {
                match catalog.lookup(code) {
                    None => {},
                    Some(handle) => {
                        let bounds = cell_bounds(params.cell_size, ox, oy, row, col);
                        res.push(Primitive::Sprite { bounds, handle });
                    },
                }
            },
        }
        proof {
            assert(res@ =~= sprites_prefix(
                board_pieces(*board),
                *catalog,
                params,
                ox,
                oy,
                idx as int + 1,
            ));
        }
        idx = idx + 1;
    }
    res
}

/// Computes one full render pass in paint order.
pub fn build(
    board: &pleco::Board,
    catalog: &AssetCatalog,
    params: BoardParams,
    ox: u32,
    oy: u32,
) -> (r: Vec<Primitive>)
    requires
        catalog.wf(),
        board_pieces(*board).len() == 64,
    ensures
        r@ == build_spec(board_pieces(*board), *catalog, params, ox, oy),
{
    let mut res: Vec<Primitive> = Vec::new();
    res.push(get_background_primitive(params, ox, oy));
    let mut cells = get_cells_primitives(params, ox, oy);
    res.append(&mut cells);
    let mut labels = get_cells_coordinates_primitives(params, ox, oy);
    res.append(&mut labels);
    let mut pieces = get_pieces_primitives(board, catalog, params, ox, oy);
    res.append(&mut pieces);
    proof {
        assert(res@ =~= build_spec(board_pieces(*board), *catalog, params, ox, oy));
    }
    res
}

} // verus!

use chess_board::catalog::AssetCatalog;
use chess_board::geometry::{BoardParams, Orientation};
use chess_board::piece::PieceCode;
use chess_board::primitive::{ColorRgb, PointerHint, Primitive};
use chess_board::widget::{ChessBoard, Message};

const START_FEN: &str = "rnbqkbnr/pppppppp/8/8/8/8/PPPPPPPP/RNBQKBNR w KQkq - 0 1";

fn full_catalog() -> AssetCatalog {
    let mut catalog = AssetCatalog::new();
    let codes = [
        PieceCode::WhitePawn,
        PieceCode::WhiteKnight,
        PieceCode::WhiteBishop,
        PieceCode::WhiteRook,
        PieceCode::WhiteQueen,
        PieceCode::WhiteKing,
        PieceCode::BlackPawn,
        PieceCode::BlackKnight,
        PieceCode::BlackBishop,
        PieceCode::BlackRook,
        PieceCode::BlackQueen,
        PieceCode::BlackKing,
    ];
    for (i, code) in codes.iter().enumerate() {
        catalog.insert(*code, 100 + i as u64);
    }
    catalog
}

fn all_squares(board: &ChessBoard) -> Vec<Option<PieceCode>> {
    let mut res = Vec::new();
    for rank in 0..8u8 {
        for file in 0..8u8 {
            res.push(board.piece_at(file, rank));
        }
    }
    res
}

#[test]
fn measure_is_nine_cells_both_orientations() {
    let mut board = ChessBoard::new(45, full_catalog());
    assert_eq!(board.measure(), (405, 405));
    board.apply(Message::ToggleOrientation);
    assert_eq!(board.measure(), (405, 405));
    let board2 = ChessBoard::new(17, AssetCatalog::new());
    assert_eq!(board2.measure(), (153, 153));
}

#[test]
fn toggle_twice_restores_params() {
    let mut board = ChessBoard::new(45, full_catalog());
    let before = board.params();
    board.apply(Message::ToggleOrientation);
    assert_eq!(
        board.params(),
        BoardParams { cell_size: 45, orientation: Orientation::BlackBottom }
    );
    board.apply(Message::ToggleOrientation);
    assert_eq!(board.params(), before);
}

#[test]
fn layout_key_follows_cell_size_only() {
    let mut a = ChessBoard::new(45, full_catalog());
    let b = ChessBoard::new(46, AssetCatalog::new());
    assert_ne!(a.layout_key(), b.layout_key());
    let key = a.layout_key();
    a.apply(Message::SetPosition(String::from("8/8/8/8/8/8/8/k6K w - - 0 1")));
    a.apply(Message::ToggleOrientation);
    assert_eq!(a.layout_key(), key);
}

#[test]
fn new_shows_start_position() {
    let board = ChessBoard::new(45, full_catalog());
    assert_eq!(board.piece_at(0, 0), Some(PieceCode::WhiteRook));
    assert_eq!(board.piece_at(4, 0), Some(PieceCode::WhiteKing));
    assert_eq!(board.piece_at(3, 7), Some(PieceCode::BlackQueen));
    assert_eq!(board.piece_at(4, 7), Some(PieceCode::BlackKing));
    assert_eq!(board.piece_at(2, 1), Some(PieceCode::WhitePawn));
    assert_eq!(board.piece_at(2, 6), Some(PieceCode::BlackPawn));
    assert_eq!(board.piece_at(4, 4), None);
}

#[test]
fn set_position_valid_start_fen() {
    let mut board = ChessBoard::new(45, full_catalog());
    board.apply(Message::SetPosition(String::from("8/8/8/8/8/8/8/k6K w - - 0 1")));
    assert_eq!(board.piece_at(0, 0), Some(PieceCode::BlackKing));
    board.apply(Message::SetPosition(String::from(START_FEN)));
    assert_eq!(board.piece_at(0, 0), Some(PieceCode::WhiteRook));
    assert_eq!(board.piece_at(4, 7), Some(PieceCode::BlackKing));
}

#[test]
fn set_position_replaces_whole_position() {
    let mut board = ChessBoard::new(45, full_catalog());
    board.apply(Message::SetPosition(String::from("8/8/8/8/8/8/8/k6K w - - 0 1")));
    assert_eq!(board.piece_at(0, 0), Some(PieceCode::BlackKing));
    assert_eq!(board.piece_at(7, 0), Some(PieceCode::WhiteKing));
    for rank in 0..8u8 {
        for file in 0..8u8 {
            if (file, rank) != (0, 0) && (file, rank) != (7, 0) {
                assert_eq!(board.piece_at(file, rank), None);
            }
        }
    }
}

#[test]
fn set_position_invalid_keeps_position() {
    let mut board = ChessBoard::new(45, full_catalog());
    board.apply(Message::SetPosition(String::from("8/8/8/8/8/8/8/k6K w - - 0 1")));
    let before = all_squares(&board);
    board.apply(Message::SetPosition(String::from("this is not a position")));
    assert_eq!(all_squares(&board), before);
    board.apply(Message::SetPosition(String::from("")));
    assert_eq!(all_squares(&board), before);
    board.apply(Message::SetPosition(String::from("8/8/8/8/8/8/8 w - - 0 1")));
    assert_eq!(all_squares(&board), before);
}

#[test]
fn set_position_zero_fullmove_keeps_position() {
    let mut board = ChessBoard::new(45, full_catalog());
    let before = all_squares(&board);
    board.apply(Message::SetPosition(String::from(
        "rnbqkbnr/pppppppp/8/8/8/8/PPPPPPPP/RNBQKBNR w KQkq - 0 0",
    )));
    assert_eq!(all_squares(&board), before);
}

#[test]
fn set_position_huge_fullmove_keeps_position() {
    let mut board = ChessBoard::new(45, full_catalog());
    let before = all_squares(&board);
    board.apply(Message::SetPosition(String::from(
        "rnbqkbnr/pppppppp/8/8/8/8/PPPPPPPP/RNBQKBNR w KQkq - 0 40000",
    )));
    assert_eq!(all_squares(&board), before);
}

#[test]
fn set_position_two_kings_keeps_position() {
    let mut board = ChessBoard::new(45, full_catalog());
    let before = all_squares(&board);
    board.apply(Message::SetPosition(String::from("kk6/8/8/8/8/8/8/K7 w - - 0 1")));
    assert_eq!(all_squares(&board), before);
    board.apply(Message::SetPosition(String::from("8/8/8/8/8/8/8/K7 w - - 0 1")));
    assert_eq!(all_squares(&board), before);
}

#[test]
fn set_position_bad_castling_field_keeps_position() {
    let mut board = ChessBoard::new(45, full_catalog());
    let before = all_squares(&board);
    board.apply(Message::SetPosition(String::from("8/8/8/8/8/8/8/k6K w x - 0 1")));
    assert_eq!(all_squares(&board), before);
}

#[test]
fn set_position_overlong_rank_keeps_position() {
    let mut board = ChessBoard::new(45, full_catalog());
    let before = all_squares(&board);
    board.apply(Message::SetPosition(String::from("8p/8/8/8/8/8/8/k6K w - - 0 1")));
    assert_eq!(all_squares(&board), before);
}

#[test]
fn render_is_deterministic() {
    let board = ChessBoard::new(45, full_catalog());
    let (group1, hint1) = board.render(0, 0);
    let (group2, hint2) = board.render(0, 0);
    assert_eq!(group1.primitives, group2.primitives);
    assert_eq!(hint1, PointerHint::Idle);
    assert_eq!(hint2, PointerHint::Idle);
}

#[test]
fn render_order_and_counts() {
    let board = ChessBoard::new(45, full_catalog());
    let (group, _) = board.render(0, 0);
    let prims = &group.primitives;
    assert_eq!(prims.len(), 1 + 64 + 32 + 32);
    match prims[0] {
        Primitive::Rect { bounds, color } => {
            assert_eq!(color, ColorRgb { r: 214, g: 59, b: 96 });
            assert_eq!((bounds.x, bounds.y, bounds.w, bounds.h), (0, 0, 4050, 4050));
        }
        _ => panic!("first primitive is not the background"),
    }
    for i in 1..65 {
        assert!(matches!(prims[i], Primitive::Rect { .. }));
    }
    for i in 65..97 {
        assert!(matches!(prims[i], Primitive::Label { .. }));
    }
    for i in 97..129 {
        assert!(matches!(prims[i], Primitive::Sprite { .. }));
    }
}

#[test]
fn file_labels_read_in_order() {
    let mut board = ChessBoard::new(45, full_catalog());
    let (group, _) = board.render(0, 0);
    let mut letters = Vec::new();
    for i in 0..8 {
        match group.primitives[65 + 2 * i] {
            Primitive::Label { text, .. } => letters.push(text),
            _ => panic!("expected a label"),
        }
    }
    assert_eq!(letters, vec!['A', 'B', 'C', 'D', 'E', 'F', 'G', 'H']);
    board.apply(Message::ToggleOrientation);
    let (group, _) = board.render(0, 0);
    let mut letters = Vec::new();
    for i in 0..8 {
        match group.primitives[65 + 2 * i] {
            Primitive::Label { text, .. } => letters.push(text),
            _ => panic!("expected a label"),
        }
    }
    assert_eq!(letters, vec!['H', 'G', 'F', 'E', 'D', 'C', 'B', 'A']);
}

#[test]
fn missing_asset_skips_sprite_without_error() {
    let mut catalog = full_catalog();
    let full_board = ChessBoard::new(45, catalog.clone());
    let (group, _) = full_board.render(0, 0);
    let full_sprites = group
        .primitives
        .iter()
        .filter(|p| matches!(p, Primitive::Sprite { .. }))
        .count();
    assert_eq!(full_sprites, 32);

    // Rebuild the catalog without an entry for the white pawn.
    let mut partial = AssetCatalog::new();
    let codes = [
        PieceCode::WhiteKnight,
        PieceCode::WhiteBishop,
        PieceCode::WhiteRook,
        PieceCode::WhiteQueen,
        PieceCode::WhiteKing,
        PieceCode::BlackPawn,
        PieceCode::BlackKnight,
        PieceCode::BlackBishop,
        PieceCode::BlackRook,
        PieceCode::BlackQueen,
        PieceCode::BlackKing,
    ];
    for (i, code) in codes.iter().enumerate() {
        partial.insert(*code, 200 + i as u64);
    }
    let board = ChessBoard::new(45, partial);
    let (group, _) = board.render(0, 0);
    let sprites = group
        .primitives
        .iter()
        .filter(|p| matches!(p, Primitive::Sprite { .. }))
        .count();
    assert_eq!(sprites, 32 - 8);
    // The catalog that does hold the white pawn still renders it.
    catalog.insert(PieceCode::WhitePawn, 300);
    let board = ChessBoard::new(45, catalog);
    let (group, _) = board.render(0, 0);
    assert_eq!(
        group
            .primitives
            .iter()
            .filter(|p| matches!(p, Primitive::Sprite { .. }))
            .count(),
        32
    );
}

#[test]
fn render_follows_position_changes() {
    let mut board = ChessBoard::new(45, full_catalog());
    board.apply(Message::SetPosition(String::from("8/8/8/8/8/8/8/k6K w - - 0 1")));
    let (group, _) = board.render(0, 0);
    let sprites: Vec<u64> = group
        .primitives
        .iter()
        .filter_map(|p| match p {
            Primitive::Sprite { handle, .. } => Some(*handle),
            _ => None,
        })
        .collect();
    // Two kings only: the black king's handle then the white king's, in
    // display order (bottom row, left to right, white at the bottom).
    assert_eq!(sprites.len(), 2);
    assert_ne!(sprites[0], sprites[1]);
}

#[test]
fn cell_parity_for_cell_size_45() {
    let board = ChessBoard::new(45, full_catalog());
    let (group, _) = board.render(0, 0);
    let light = ColorRgb { r: 255, g: 206, b: 158 };
    let dark = ColorRgb { r: 209, g: 139, b: 71 };
    let cell = |row: usize, col: usize| -> (ColorRgb, u64, u64) {
        match group.primitives[1 + row * 8 + col] {
            Primitive::Rect { bounds, color } => (color, bounds.x, bounds.y),
            _ => panic!("expected a cell rectangle"),
        }
    };
    let (c00, x00, y00) = cell(0, 0);
    assert_eq!(c00, light);
    assert_eq!((x00, y00), (45 * 5, 45 * 5));
    let (c77, _, _) = cell(7, 7);
    assert_eq!(c77, light);
    let (c01, x01, _) = cell(0, 1);
    assert_eq!(c01, dark);
    assert_eq!(x01, 45 * 15);
}

#[test]
fn cell_rectangles_are_distinct_and_in_bounds() {
    let board = ChessBoard::new(45, full_catalog());
    let (group, _) = board.render(7, 11);
    let mut rects = Vec::new();
    for i in 1..65 {
        match group.primitives[i] {
            Primitive::Rect { bounds, .. } => rects.push(bounds),
            _ => panic!("expected a cell rectangle"),
        }
    }
    for (i, a) in rects.iter().enumerate() {
        assert!(a.x >= 7 && a.y >= 11);
        assert!(a.x + a.w <= 7 + 4050 && a.y + a.h <= 11 + 4050);
        for b in rects.iter().skip(i + 1) {
            assert_ne!(a, b);
        }
    }
}

use chess_board::catalog::AssetCatalog;
use chess_board::piece::PieceCode;

const ALL_CODES: [PieceCode; 12] = [
    PieceCode::WhitePawn,
    PieceCode::WhiteKnight,
    PieceCode::WhiteBishop,
    PieceCode::WhiteRook,
    PieceCode::WhiteQueen,
    PieceCode::WhiteKing,
    PieceCode::BlackPawn,
    PieceCode::BlackKnight,
    PieceCode::BlackBishop,
    PieceCode::BlackRook,
    PieceCode::BlackQueen,
    PieceCode::BlackKing,
];

#[test]
fn asset_names_are_the_two_character_codes() {
    let expected = [
        "wP", "wN", "wB", "wR", "wQ", "wK", "bP", "bN", "bB", "bR", "bQ", "bK",
    ];
    for (code, name) in ALL_CODES.iter().zip(expected.iter()) {
        assert_eq!(code.asset_name(), *name);
    }
}

#[test]
fn asset_names_parse_back_to_their_codes() {
    for code in ALL_CODES {
        assert_eq!(PieceCode::from_code(code.asset_name()), Some(code));
    }
}

#[test]
fn unrelated_names_parse_to_nothing() {
    assert_eq!(PieceCode::from_code(""), None);
    assert_eq!(PieceCode::from_code("w"), None);
    assert_eq!(PieceCode::from_code("wp"), None);
    assert_eq!(PieceCode::from_code("BP"), None);
    assert_eq!(PieceCode::from_code("wPx"), None);
    assert_eq!(PieceCode::from_code("reverseArrows"), None);
}

#[test]
fn catalog_lookup_returns_what_was_inserted() {
    let mut catalog = AssetCatalog::new();
    for code in ALL_CODES {
        assert_eq!(catalog.lookup(code), None);
    }
    catalog.insert(PieceCode::BlackQueen, 7);
    assert_eq!(catalog.lookup(PieceCode::BlackQueen), Some(7));
    assert_eq!(catalog.lookup(PieceCode::WhiteQueen), None);
    catalog.insert(PieceCode::BlackQueen, 8);
    assert_eq!(catalog.lookup(PieceCode::BlackQueen), Some(8));
}

#[test]
fn catalog_insert_named_derives_the_code_from_the_name() {
    let mut catalog = AssetCatalog::new();
    assert!(catalog.insert_named("wK", 41));
    assert!(!catalog.insert_named("notes", 42));
    assert!(!catalog.insert_named("wk", 43));
    assert_eq!(catalog.lookup(PieceCode::WhiteKing), Some(41));
    for code in ALL_CODES {
        if code != PieceCode::WhiteKing {
            assert_eq!(catalog.lookup(code), None);
        }
    }
}

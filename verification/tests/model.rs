use cetkaik_ai::model::{
    col_of_pos, col_pos, distance, hop1zuo1_of, is_tam_hue_absolute, is_water, occupied_squares,
    position_from_entries, row_of_pos, row_pos, square_of, square_pos, BoardPiece, Column,
    NonTamPiece, PieceColor, Position, Prof, Row, Side, Square,
};

fn kauk2(side: Side) -> BoardPiece {
    BoardPiece::NonTam2Piece { color: PieceColor::Huok2, prof: Prof::Kauk2, side }
}

#[test]
fn distance_is_the_larger_of_row_and_column_difference() {
    assert_eq!(distance(Square(Row::A, Column::K), Square(Row::IA, Column::P)), 8);
    assert_eq!(distance(Square(Row::O, Column::Z), Square(Row::O, Column::Z)), 0);
    assert_eq!(distance(Square(Row::A, Column::K), Square(Row::E, Column::N)), 2);
    assert_eq!(distance(Square(Row::Y, Column::K), Square(Row::I, Column::K)), 3);
    assert_eq!(distance(Square(Row::E, Column::T), Square(Row::AU, Column::X)), 6);
}

#[test]
fn water_is_the_cross_in_the_centre() {
    for c in [Column::N, Column::T, Column::Z, Column::X, Column::C] {
        assert!(is_water(Square(Row::O, c)));
    }
    for r in [Row::I, Row::U, Row::Y, Row::AI] {
        assert!(is_water(Square(r, Column::Z)));
    }
    assert!(!is_water(Square(Row::O, Column::K)));
    assert!(!is_water(Square(Row::O, Column::P)));
    assert!(!is_water(Square(Row::E, Column::Z)));
    assert!(!is_water(Square(Row::AU, Column::Z)));
    assert!(!is_water(Square(Row::I, Column::N)));
}

#[test]
fn row_and_column_positions_round_trip() {
    for i in 0..9usize {
        assert_eq!(row_pos(row_of_pos(i)), i);
        assert_eq!(col_pos(col_of_pos(i)), i);
    }
    for i in 0..81usize {
        assert_eq!(square_pos(square_of(i)), i);
    }
    assert_eq!(square_pos(Square(Row::A, Column::K)), 0);
    assert_eq!(square_pos(Square(Row::O, Column::Z)), 40);
    assert_eq!(square_pos(Square(Row::IA, Column::P)), 80);
    assert_eq!(square_of(10), Square(Row::E, Column::L));
}

#[test]
fn tam_hue_squares_of_an_empty_board() {
    let f = Position::empty();
    assert!(is_tam_hue_absolute(Square(Row::O, Column::Z), &f, true));
    assert!(is_tam_hue_absolute(Square(Row::I, Column::N), &f, false));
    assert!(is_tam_hue_absolute(Square(Row::AI, Column::C), &f, false));
    assert!(is_tam_hue_absolute(Square(Row::U, Column::T), &f, false));
    assert!(!is_tam_hue_absolute(Square(Row::A, Column::K), &f, true));
    assert!(!is_tam_hue_absolute(Square(Row::O, Column::N), &f, true));
}

#[test]
fn squares_next_to_tam2_are_tam_hue() {
    let mut f = Position::empty();
    f.put(Square(Row::A, Column::K), Some(BoardPiece::Tam2));
    assert!(is_tam_hue_absolute(Square(Row::E, Column::L), &f, false));
    assert!(is_tam_hue_absolute(Square(Row::A, Column::L), &f, false));
    assert!(is_tam_hue_absolute(Square(Row::E, Column::K), &f, false));
    assert!(!is_tam_hue_absolute(Square(Row::I, Column::K), &f, true));
    // Tam2's own square counts only where the rules say so
    assert!(is_tam_hue_absolute(Square(Row::A, Column::K), &f, true));
    assert!(!is_tam_hue_absolute(Square(Row::A, Column::K), &f, false));
}

#[test]
fn put_and_peek() {
    let mut f = Position::empty();
    let sq = Square(Row::Y, Column::K);
    assert_eq!(f.peek(sq), None);
    f.put(sq, Some(kauk2(Side::IASide)));
    assert_eq!(f.peek(sq), Some(kauk2(Side::IASide)));
    assert_eq!(f.peek(Square(Row::Y, Column::L)), None);
    f.put(sq, None);
    assert_eq!(f.peek(sq), None);
}

#[test]
fn pieces_go_to_the_hand_of_their_side() {
    let mut f = Position::empty();
    f.insert_nontam_piece_into_hop1zuo1(PieceColor::Kok1, Prof::Io, Side::IASide);
    f.insert_nontam_piece_into_hop1zuo1(PieceColor::Huok2, Prof::Gua2, Side::IASide);
    f.insert_nontam_piece_into_hop1zuo1(PieceColor::Huok2, Prof::Tuk2, Side::ASide);
    assert_eq!(
        hop1zuo1_of(Side::IASide, &f),
        vec![
            NonTamPiece { color: PieceColor::Kok1, prof: Prof::Io },
            NonTamPiece { color: PieceColor::Huok2, prof: Prof::Gua2 },
        ]
    );
    assert_eq!(hop1zuo1_of(Side::ASide, &f), vec![NonTamPiece { color: PieceColor::Huok2, prof: Prof::Tuk2 }]);
    let g = f.duplicate();
    assert_eq!(hop1zuo1_of(Side::IASide, &g).len(), 2);
}

#[test]
fn occupied_squares_in_storage_order() {
    let mut f = Position::empty();
    f.put(Square(Row::IA, Column::P), Some(kauk2(Side::ASide)));
    f.put(Square(Row::O, Column::Z), Some(BoardPiece::Tam2));
    f.put(Square(Row::A, Column::L), Some(kauk2(Side::IASide)));
    let v = occupied_squares(&f);
    assert_eq!(
        v,
        vec![
            (Square(Row::A, Column::L), kauk2(Side::IASide)),
            (Square(Row::O, Column::Z), BoardPiece::Tam2),
            (Square(Row::IA, Column::P), kauk2(Side::ASide)),
        ]
    );
    assert!(occupied_squares(&Position::empty()).is_empty());
}

#[test]
fn a_position_from_its_entries() {
    let entries = vec![
        (Square(Row::O, Column::Z), BoardPiece::Tam2),
        (Square(Row::Y, Column::K), kauk2(Side::IASide)),
        (Square(Row::Y, Column::K), kauk2(Side::ASide)),
    ];
    let hand = vec![NonTamPiece { color: PieceColor::Kok1, prof: Prof::Uai1 }];
    let f = position_from_entries(&entries, hand.clone(), Vec::new());
    assert_eq!(f.peek(Square(Row::O, Column::Z)), Some(BoardPiece::Tam2));
    // the later entry for a square stands
    assert_eq!(f.peek(Square(Row::Y, Column::K)), Some(kauk2(Side::ASide)));
    assert_eq!(f.peek(Square(Row::A, Column::K)), None);
    assert_eq!(hop1zuo1_of(Side::ASide, &f), hand);
    assert!(hop1zuo1_of(Side::IASide, &f).is_empty());
    assert_eq!(occupied_squares(&f).len(), 2);
}

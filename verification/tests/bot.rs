use cetkaik_ai::cerke_online_bot::{
    apply_move_assuming_every_luck_works, choose_tactics, generate_move, try_generate_move,
    is_likely_to_succeed, is_safe_gak_tuk_newly_generated, is_very_likely_to_succeed,
    worth_considering_candidates, TacticsKey,
};
use cetkaik_ai::game::start_game;
use cetkaik_ai::model::{BoardPiece, Column, PieceColor, Position, Prof, Row, Side, Square};
use cetkaik_ai::moves::{InfAfterStep, MoveMessage, NormalMove, PureMove};
use cetkaik_ai::state::{GroundState, HandResolved, RuleSet, ScorePair, SeasonName, Stake};

fn sq(r: Row, c: Column) -> Square {
    Square(r, c)
}

fn piece(color: PieceColor, prof: Prof, side: Side) -> Option<BoardPiece> {
    Some(BoardPiece::NonTam2Piece { color, prof, side })
}

fn state_with(f: Position, whose_turn: Side) -> GroundState {
    GroundState {
        f,
        whose_turn,
        season: SeasonName::Iei2,
        scores: ScorePair::new(),
        rate: Stake::X1,
        tam_has_moved_previously: false,
    }
}

/// The IA side's pawn can take the A side's king on the next square.
fn king_in_reach() -> GroundState {
    let mut f = Position::empty();
    f.put(sq(Row::Y, Column::K), piece(PieceColor::Huok2, Prof::Kauk2, Side::IASide));
    f.put(sq(Row::O, Column::K), piece(PieceColor::Kok1, Prof::Io, Side::ASide));
    state_with(f, Side::IASide)
}

fn take_king() -> PureMove {
    PureMove::NonTamMoveSrcDst { src: sq(Row::Y, Column::K), dest: sq(Row::O, Column::K), is_water_entry_ciurl: false }
}

#[test]
fn very_likely_moves_are_likely() {
    let moves = [
        MoveMessage::InfAfterStep(InfAfterStep { src: sq(Row::A, Column::K), step: sq(Row::E, Column::K), planned_direction: sq(Row::I, Column::K) }),
        MoveMessage::InfAfterStep(InfAfterStep { src: sq(Row::A, Column::K), step: sq(Row::E, Column::K), planned_direction: sq(Row::U, Column::K) }),
        MoveMessage::InfAfterStep(InfAfterStep { src: sq(Row::A, Column::K), step: sq(Row::E, Column::K), planned_direction: sq(Row::AU, Column::K) }),
        MoveMessage::NormalMove(NormalMove::NonTamMoveSrcDst { src: sq(Row::Y, Column::K), dest: sq(Row::O, Column::K) }),
        MoveMessage::NormalMove(NormalMove::NonTamMoveSrcDst { src: sq(Row::Y, Column::N), dest: sq(Row::O, Column::N) }),
        MoveMessage::NormalMove(NormalMove::NonTamMoveFromHopZuo { color: PieceColor::Kok1, prof: Prof::Gua2, dest: sq(Row::O, Column::Z) }),
    ];
    for m in moves.iter() {
        if is_very_likely_to_succeed(m) {
            assert!(is_likely_to_succeed(m));
        }
    }
    assert!(is_very_likely_to_succeed(&moves[0]));
    assert!(!is_likely_to_succeed(&moves[2]));
    assert!(is_very_likely_to_succeed(&moves[3]));
    assert!(!is_likely_to_succeed(&moves[4]));
    assert!(is_very_likely_to_succeed(&moves[5]));
}

#[test]
fn wasted_moves_are_not_considered() {
    let a = sq(Row::AI, Column::N);
    let b = sq(Row::Y, Column::N);
    let c = sq(Row::U, Column::N);
    let raw = vec![
        PureMove::NonTamMoveSrcDst { src: a, dest: a, is_water_entry_ciurl: false },
        PureMove::NonTamMoveSrcDst { src: a, dest: c, is_water_entry_ciurl: false },
        PureMove::NonTamMoveSrcStepDstFinite { src: a, step: b, dest: c, is_water_entry_ciurl: false },
        PureMove::NonTamMoveSrcStepDstFinite { src: a, step: b, dest: sq(Row::I, Column::N), is_water_entry_ciurl: false },
        PureMove::InfAfterStep { src: a, step: b, planned_direction: a },
        PureMove::InfAfterStep { src: a, step: b, planned_direction: c },
        PureMove::InfAfterStep { src: a, step: b, planned_direction: sq(Row::E, Column::N) },
        PureMove::InfAfterStep { src: sq(Row::IA, Column::N), step: sq(Row::AU, Column::N), planned_direction: sq(Row::A, Column::N) },
        PureMove::TamMoveNoStep { src: sq(Row::O, Column::Z), first_dest: sq(Row::O, Column::X), second_dest: sq(Row::O, Column::C) },
        PureMove::NonTamMoveFromHopZuo { color: PieceColor::Kok1, prof: Prof::Tuk2, dest: b },
    ];
    let kept = worth_considering_candidates(&raw, false);
    assert_eq!(kept, vec![raw[1], raw[3], raw[6], raw[8], raw[9]]);
    let kept_after_tam = worth_considering_candidates(&raw, true);
    assert_eq!(kept_after_tam, vec![raw[1], raw[3], raw[6], raw[9]]);
    assert!(worth_considering_candidates(&vec![], false).is_empty());
}

#[test]
fn taking_the_king_next_door_is_played() {
    let s = king_in_reach();
    let r = generate_move(RuleSet::CerkeOnlineAlpha, &s, false).unwrap();
    assert_eq!(r.tactics, TacticsKey::VictoryAlmostCertain);
    assert_eq!(r.bot_move, take_king());
}

#[test]
fn tactics_on_given_candidates() {
    let s = king_in_reach();
    let config = RuleSet::CerkeOnlineAlpha;
    assert_eq!(choose_tactics(config, &s, &vec![]), None);
    let r = choose_tactics(config, &s, &vec![take_king()]).unwrap();
    assert_eq!(r.tactics, TacticsKey::VictoryAlmostCertain);
    let drop = PureMove::NonTamMoveFromHopZuo { color: PieceColor::Kok1, prof: Prof::Kauk2, dest: sq(Row::A, Column::P) };
    let r = choose_tactics(config, &s, &vec![drop]).unwrap();
    assert_eq!(r.tactics, TacticsKey::LossAlmostCertain);
    assert_eq!(r.bot_move, drop);
    // a move that the rules refuse (a pawn stepping sideways) is no safe move
    let sideways = PureMove::NonTamMoveSrcDst { src: sq(Row::Y, Column::K), dest: sq(Row::Y, Column::L), is_water_entry_ciurl: false };
    let r = choose_tactics(config, &s, &vec![drop, sideways]).unwrap();
    assert_eq!(r.tactics, TacticsKey::LossAlmostCertain);
    // where no rule plays a move, a safe move of a piece on the board is played
    let mut quiet = Position::empty();
    quiet.put(sq(Row::Y, Column::K), piece(PieceColor::Huok2, Prof::Kauk2, Side::IASide));
    quiet.put(sq(Row::A, Column::P), piece(PieceColor::Kok1, Prof::Io, Side::ASide));
    let q = state_with(quiet, Side::IASide);
    let step = PureMove::NonTamMoveSrcDst { src: sq(Row::Y, Column::K), dest: sq(Row::O, Column::K), is_water_entry_ciurl: false };
    let r = choose_tactics(config, &q, &vec![drop, step]).unwrap();
    assert_eq!(r.tactics, TacticsKey::Neutral);
    assert_eq!(r.bot_move, step);
    // a move onto Tam2 takes nothing; the winning capture is still played
    let mut t = king_in_reach();
    t.f.put(sq(Row::U, Column::K), Some(BoardPiece::Tam2));
    let onto_tam = PureMove::NonTamMoveSrcDst { src: sq(Row::O, Column::K), dest: sq(Row::U, Column::K), is_water_entry_ciurl: false };
    let r = choose_tactics(config, &t, &vec![onto_tam, take_king()]).unwrap();
    assert_eq!(r.tactics, TacticsKey::VictoryAlmostCertain);
    assert_eq!(r.bot_move, take_king());
}

#[test]
fn a_shaman_dropped_on_tam_hue_that_nothing_reaches_is_safe() {
    let mut f = Position::empty();
    f.put(sq(Row::A, Column::P), piece(PieceColor::Kok1, Prof::Io, Side::ASide));
    f.insert_nontam_piece_into_hop1zuo1(PieceColor::Kok1, Prof::Tuk2, Side::IASide);
    f.insert_nontam_piece_into_hop1zuo1(PieceColor::Kok1, Prof::Kauk2, Side::IASide);
    let s = state_with(f, Side::IASide);
    let config = RuleSet::CerkeOnlineAlpha;
    let shaman = PureMove::NonTamMoveFromHopZuo { color: PieceColor::Kok1, prof: Prof::Tuk2, dest: sq(Row::I, Column::N) };
    assert_eq!(is_safe_gak_tuk_newly_generated(config, &shaman, &s), Some(true));
    let off_hue = PureMove::NonTamMoveFromHopZuo { color: PieceColor::Kok1, prof: Prof::Tuk2, dest: sq(Row::I, Column::L) };
    assert_eq!(is_safe_gak_tuk_newly_generated(config, &off_hue, &s), Some(false));
    let pawn = PureMove::NonTamMoveFromHopZuo { color: PieceColor::Kok1, prof: Prof::Kauk2, dest: sq(Row::I, Column::N) };
    assert_eq!(is_safe_gak_tuk_newly_generated(config, &pawn, &s), Some(false));
    let r = choose_tactics(config, &s, &vec![pawn, shaman]).unwrap();
    assert_eq!(r.tactics, TacticsKey::StrengthenedShaman);
    assert_eq!(r.bot_move, shaman);
}

#[test]
fn a_lucky_capture_of_the_king_completes_a_hand() {
    let s = king_in_reach();
    match apply_move_assuming_every_luck_works(RuleSet::CerkeOnlineAlpha, &take_king(), &s) {
        Some(HandResolved::HandExists { if_tymok, .. }) => {
            assert_eq!(if_tymok.f.peek(sq(Row::O, Column::K)), piece(PieceColor::Huok2, Prof::Kauk2, Side::IASide));
            assert_eq!(if_tymok.f.peek(sq(Row::Y, Column::K)), None);
        },
        other => panic!("unexpected {:?}", other),
    }
}

#[test]
fn a_pawn_step_from_the_start_passes_the_turn() {
    let mut s = start_game();
    s.whose_turn = Side::IASide;
    let m = PureMove::NonTamMoveSrcDst { src: sq(Row::AI, Column::K), dest: sq(Row::Y, Column::K), is_water_entry_ciurl: false };
    match apply_move_assuming_every_luck_works(RuleSet::CerkeOnlineAlpha, &m, &s) {
        Some(HandResolved::NeitherTymokNorTaxot(next)) => {
            assert_eq!(next.whose_turn, Side::ASide);
            assert_eq!(next.f.peek(sq(Row::Y, Column::K)), piece(PieceColor::Huok2, Prof::Kauk2, Side::IASide));
            assert_eq!(next.f.peek(sq(Row::AI, Column::K)), None);
        },
        other => panic!("unexpected {:?}", other),
    }
}

#[test]
fn a_lucky_water_entry_succeeds() {
    let mut f = Position::empty();
    f.put(sq(Row::AU, Column::Z), piece(PieceColor::Huok2, Prof::Kauk2, Side::IASide));
    f.put(sq(Row::A, Column::K), piece(PieceColor::Kok1, Prof::Kauk2, Side::ASide));
    let s = state_with(f, Side::IASide);
    let m = PureMove::NonTamMoveSrcDst { src: sq(Row::AU, Column::Z), dest: sq(Row::AI, Column::Z), is_water_entry_ciurl: true };
    assert!(!is_likely_to_succeed(&m.to_message()));
    match apply_move_assuming_every_luck_works(RuleSet::CerkeOnlineAlpha, &m, &s) {
        Some(HandResolved::NeitherTymokNorTaxot(next)) => {
            assert_eq!(next.f.peek(sq(Row::AI, Column::Z)), piece(PieceColor::Huok2, Prof::Kauk2, Side::IASide));
            assert_eq!(next.f.peek(sq(Row::AU, Column::Z)), None);
            assert_eq!(next.whose_turn, Side::ASide);
        },
        other => panic!("unexpected {:?}", other),
    }
}

#[test]
fn stepping_onto_water_is_not_likely() {
    let m = MoveMessage::InfAfterStep(InfAfterStep { src: sq(Row::AU, Column::Z), step: sq(Row::AI, Column::Z), planned_direction: sq(Row::O, Column::Z) });
    assert!(!is_likely_to_succeed(&m));
    assert!(!is_very_likely_to_succeed(&m));
}

#[test]
fn a_capture_that_cannot_be_taken_back_is_played() {
    let mut f = Position::empty();
    f.put(sq(Row::Y, Column::K), piece(PieceColor::Huok2, Prof::Kauk2, Side::IASide));
    f.put(sq(Row::O, Column::K), piece(PieceColor::Kok1, Prof::Kauk2, Side::ASide));
    f.put(sq(Row::A, Column::P), piece(PieceColor::Kok1, Prof::Io, Side::ASide));
    let s = state_with(f, Side::IASide);
    let r = generate_move(RuleSet::CerkeOnlineAlpha, &s, false).unwrap();
    assert_eq!(r.tactics, TacticsKey::FreeLunch);
    assert_eq!(r.bot_move.to_message(), MoveMessage::NormalMove(NormalMove::NonTamMoveSrcDst { src: sq(Row::Y, Column::K), dest: sq(Row::O, Column::K) }));
}

#[test]
fn a_quiet_move_is_played_as_neutral() {
    let mut f = Position::empty();
    f.put(sq(Row::Y, Column::K), piece(PieceColor::Huok2, Prof::Kauk2, Side::IASide));
    f.put(sq(Row::A, Column::P), piece(PieceColor::Kok1, Prof::Io, Side::ASide));
    let s = state_with(f, Side::IASide);
    let r = generate_move(RuleSet::CerkeOnlineAlpha, &s, false).unwrap();
    assert_eq!(r.tactics, TacticsKey::Neutral);
    assert_eq!(r.bot_move.to_message(), MoveMessage::NormalMove(NormalMove::NonTamMoveSrcDst { src: sq(Row::Y, Column::K), dest: sq(Row::O, Column::K) }));
}

#[test]
fn a_winning_capture_comes_before_a_shaman() {
    let mut f = Position::empty();
    f.put(sq(Row::Y, Column::K), piece(PieceColor::Huok2, Prof::Kauk2, Side::IASide));
    f.put(sq(Row::O, Column::K), piece(PieceColor::Kok1, Prof::Io, Side::ASide));
    f.insert_nontam_piece_into_hop1zuo1(PieceColor::Kok1, Prof::Tuk2, Side::IASide);
    let s = state_with(f, Side::IASide);
    let config = RuleSet::CerkeOnlineAlpha;
    let shaman = PureMove::NonTamMoveFromHopZuo { color: PieceColor::Kok1, prof: Prof::Tuk2, dest: sq(Row::I, Column::N) };
    assert_eq!(is_safe_gak_tuk_newly_generated(config, &shaman, &s), Some(true));
    let r = choose_tactics(config, &s, &vec![shaman, take_king()]).unwrap();
    assert_eq!(r.tactics, TacticsKey::VictoryAlmostCertain);
    assert_eq!(r.bot_move, take_king());
}

#[test]
fn with_nothing_to_consider_there_is_no_move() {
    let mut f = Position::empty();
    f.put(sq(Row::A, Column::P), piece(PieceColor::Kok1, Prof::Io, Side::ASide));
    let s = state_with(f, Side::IASide);
    assert_eq!(try_generate_move(RuleSet::CerkeOnlineAlpha, &s, false), None);
    assert!(try_generate_move(RuleSet::CerkeOnlineAlpha, &king_in_reach(), false).is_some());
}

#[test]
fn a_move_that_hands_the_opponent_a_win_is_never_played() {
    let mut f = Position::empty();
    f.put(sq(Row::Y, Column::K), piece(PieceColor::Huok2, Prof::Io, Side::IASide));
    f.put(sq(Row::AU, Column::P), piece(PieceColor::Huok2, Prof::Kauk2, Side::IASide));
    f.put(sq(Row::U, Column::K), piece(PieceColor::Kok1, Prof::Kauk2, Side::ASide));
    let s = state_with(f, Side::IASide);
    let exposed = MoveMessage::NormalMove(NormalMove::NonTamMoveSrcDst { src: sq(Row::Y, Column::K), dest: sq(Row::O, Column::K) });
    for _ in 0..20 {
        let r = generate_move(RuleSet::CerkeOnlineAlpha, &s, false).unwrap();
        assert_eq!(r.tactics, TacticsKey::Neutral);
        assert_ne!(r.bot_move.to_message(), exposed);
    }
}

#[test]
fn a_free_capture_that_lets_the_opponent_win_is_not_played() {
    let mut f = Position::empty();
    f.put(sq(Row::Y, Column::K), piece(PieceColor::Huok2, Prof::Kauk2, Side::IASide));
    f.put(sq(Row::O, Column::K), piece(PieceColor::Kok1, Prof::Kauk2, Side::ASide));
    f.put(sq(Row::Y, Column::P), piece(PieceColor::Huok2, Prof::Io, Side::IASide));
    f.put(sq(Row::O, Column::P), piece(PieceColor::Kok1, Prof::Kauk2, Side::ASide));
    let s = state_with(f, Side::IASide);
    let king_takes = MoveMessage::NormalMove(NormalMove::NonTamMoveSrcDst { src: sq(Row::Y, Column::P), dest: sq(Row::O, Column::P) });
    for _ in 0..20 {
        let r = generate_move(RuleSet::CerkeOnlineAlpha, &s, false).unwrap();
        assert_eq!(r.tactics, TacticsKey::FreeLunch);
        assert_eq!(r.bot_move.to_message(), king_takes);
    }
}

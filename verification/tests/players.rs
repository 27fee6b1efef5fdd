use cetkaik_ai::cetkaik_engine::{CetkaikEngine, HandExists_, TymokOrTaxot_};
use cetkaik_ai::game::{
    accept_move, destination_after_answer, outcome_after_answer, play_turn, settle, start_game,
    turn_after_answer, AcceptedMove, TurnError, TurnOutcome,
};
use cetkaik_ai::greedy::GreedyPlayer;
use cetkaik_ai::min_max_avg::MinMaxPlayer;
use cetkaik_ai::model::{occupied_squares, BoardPiece, Column, PieceColor, Position, Prof, Row, Side, Square};
use cetkaik_ai::moves::{AfterHalfAcceptance, InfAfterStep, MoveMessage, NormalMove};
use cetkaik_ai::random_player::RandomPlayer;
use cetkaik_ai::state::{
    ExcitedState, ExcitedStateWithoutCiurl, GroundState, HandNotResolved, HandResolved, IfTaxot,
    RuleSet, ScorePair, SeasonName, Stake, Winner,
};

fn sq(r: Row, c: Column) -> Square {
    Square(r, c)
}

fn piece(color: PieceColor, prof: Prof, side: Side) -> Option<BoardPiece> {
    Some(BoardPiece::NonTam2Piece { color, prof, side })
}

fn king_in_reach() -> GroundState {
    let mut f = Position::empty();
    f.put(sq(Row::Y, Column::K), piece(PieceColor::Huok2, Prof::Kauk2, Side::IASide));
    f.put(sq(Row::O, Column::K), piece(PieceColor::Kok1, Prof::Io, Side::ASide));
    f.put(sq(Row::A, Column::P), piece(PieceColor::Kok1, Prof::Kauk2, Side::ASide));
    GroundState {
        f,
        whose_turn: Side::IASide,
        season: SeasonName::Iei2,
        scores: ScorePair::new(),
        rate: Stake::X1,
        tam_has_moved_previously: false,
    }
}

fn take_king() -> MoveMessage {
    MoveMessage::NormalMove(NormalMove::NonTamMoveSrcDst { src: sq(Row::Y, Column::K), dest: sq(Row::O, Column::K) })
}

#[test]
fn a_game_starts_from_the_standard_arrangement() {
    let s = start_game();
    assert_eq!(occupied_squares(&s.f).len(), 49);
    assert_eq!(s.f.peek(sq(Row::O, Column::Z)), Some(BoardPiece::Tam2));
    assert_eq!(s.f.peek(sq(Row::AI, Column::Z)), piece(PieceColor::Huok2, Prof::Nuak1, Side::IASide));
    assert!(s.f.a_side_hop1zuo1.is_empty() && s.f.ia_side_hop1zuo1.is_empty());
    assert_eq!(s.season, SeasonName::Iei2);
    assert_eq!(s.rate, Stake::X1);
    assert_eq!((s.scores.ia(), s.scores.a()), (20, 20));
    assert!(!s.tam_has_moved_previously);
}

#[test]
fn the_random_player_finds_a_move_at_the_start() {
    let mut p = RandomPlayer::new(RuleSet::CerkeOnlineAlpha);
    let s = start_game();
    assert!(p.search(&s).is_some());
}

#[test]
fn the_greedy_player_takes_the_king() {
    let mut p = GreedyPlayer::new(RuleSet::CerkeOnlineAlpha);
    assert_eq!(p.search(&king_in_reach()), Some(take_king()));
}

#[test]
fn the_greedy_player_finds_a_move_at_the_start() {
    let mut p = GreedyPlayer::new(RuleSet::CerkeOnlineAlpha);
    let s = start_game();
    assert!(p.search(&s).is_some());
}

#[test]
fn the_minmax_player_takes_the_king() {
    let mut p = MinMaxPlayer::new(RuleSet::CerkeOnlineAlpha);
    assert_eq!(p.search(&king_in_reach()), Some(take_king()));
}

#[test]
fn greedy_and_minmax_players_end_the_season() {
    let he = HandExists_ { if_tymok: king_in_reach(), if_taxot: IfTaxot::VictoriousSide(Winner(Some(Side::IASide))) };
    let mut g = GreedyPlayer::new(RuleSet::CerkeOnlineAlpha);
    assert!(matches!(g.search_hand_resolved(&he), Some(TymokOrTaxot_::Taxot(IfTaxot::VictoriousSide(Winner(Some(Side::IASide)))))));
    let mut m = MinMaxPlayer::new(RuleSet::CerkeOnlineAlpha);
    assert!(matches!(m.search_hand_resolved(&he), Some(TymokOrTaxot_::Taxot(IfTaxot::VictoriousSide(Winner(Some(Side::IASide)))))));
    let mut r = RandomPlayer::new(RuleSet::CerkeOnlineAlpha);
    for _ in 0..10 {
        match r.search_hand_resolved(&he) {
            Some(TymokOrTaxot_::Tymok(s)) => assert_eq!(s.f.peek(sq(Row::O, Column::K)), piece(PieceColor::Kok1, Prof::Io, Side::ASide)),
            Some(TymokOrTaxot_::Taxot(IfTaxot::VictoriousSide(w))) => assert_eq!(w, Winner(Some(Side::IASide))),
            other => panic!("unexpected {:?}", other),
        }
    }
}

#[test]
fn random_players_play_by_the_rules() {
    let config = RuleSet::CerkeOnlineAlpha;
    let mut ia = RandomPlayer::new(config);
    let mut a = RandomPlayer::new(config);
    let mut state = start_game();
    for _ in 0..300 {
        let rec = play_turn(config, &state, &mut ia, &mut a).unwrap();
        match rec.played {
            MoveMessage::NormalMove(_) => {
                assert!(rec.inf_after_step_ciurl.is_none() && rec.excited_move.is_none());
            },
            MoveMessage::InfAfterStep(_) => {
                assert!(rec.inf_after_step_ciurl.unwrap() <= 5 && rec.excited_move.is_some());
            },
        }
        match rec.outcome {
            TurnOutcome::Continue(next) => state = next,
            TurnOutcome::Finished(_) => return,
        }
    }
}

#[test]
fn the_greedy_player_takes_the_king_in_a_turn() {
    let config = RuleSet::CerkeOnlineAlpha;
    let mut ia = GreedyPlayer::new(config);
    let mut a = RandomPlayer::new(config);
    let rec = play_turn(config, &king_in_reach(), &mut ia, &mut a).unwrap();
    assert_eq!(rec.played, take_king());
    assert!(rec.taxot);
    assert!(rec.water_entry_ciurl.is_none());
}

#[test]
fn a_player_without_a_move_ends_the_turn_in_error() {
    let config = RuleSet::CerkeOnlineAlpha;
    let mut s = king_in_reach();
    s.f = Position::empty();
    let mut ia = RandomPlayer::new(config);
    let mut a = RandomPlayer::new(config);
    assert_eq!(play_turn(config, &s, &mut ia, &mut a).err(), Some(TurnError::NoMovePossible));
}

fn excited_with_nowhere_to_go() -> ExcitedState {
    let mut f = Position::empty();
    f.put(sq(Row::AU, Column::K), piece(PieceColor::Huok2, Prof::Kua2, Side::IASide));
    f.put(sq(Row::AI, Column::K), piece(PieceColor::Huok2, Prof::Kauk2, Side::IASide));
    f.put(sq(Row::A, Column::P), piece(PieceColor::Kok1, Prof::Io, Side::ASide));
    ExcitedState {
        c: ExcitedStateWithoutCiurl {
            f,
            whose_turn: Side::IASide,
            flying_piece_src: sq(Row::AU, Column::K),
            flying_piece_step: sq(Row::AI, Column::K),
            flying_piece_planned_direction: sq(Row::Y, Column::K),
            season: SeasonName::Iei2,
            scores: ScorePair::new(),
            rate: Stake::X1,
        },
        ciurl: 0,
    }
}

#[test]
fn with_no_stick_up_the_only_choice_is_to_give_up() {
    let e = excited_with_nowhere_to_go();
    let m = InfAfterStep { src: sq(Row::AU, Column::K), step: sq(Row::AI, Column::K), planned_direction: sq(Row::Y, Column::K) };
    let mut r = RandomPlayer::new(RuleSet::CerkeOnlineAlpha);
    assert_eq!(r.search_excited(&m, &e, Some(0)), Some(AfterHalfAcceptance { dest: None }));
    let mut g = GreedyPlayer::new(RuleSet::CerkeOnlineAlpha);
    assert_eq!(g.search_excited(&m, &e, Some(0)), Some(AfterHalfAcceptance { dest: None }));
}

/// A player that always offers the same move.
struct Stubborn(MoveMessage);

impl CetkaikEngine for Stubborn {
    fn search(&mut self, _s: &GroundState) -> Option<MoveMessage> {
        Some(self.0)
    }

    fn search_excited(&mut self, _m: &InfAfterStep, _s: &ExcitedState, _ciurl: Option<usize>) -> Option<AfterHalfAcceptance> {
        None
    }

    fn search_hand_resolved(&mut self, _s: &HandExists_) -> Option<TymokOrTaxot_> {
        None
    }
}

#[test]
fn a_refused_move_is_reported_with_the_move() {
    let config = RuleSet::CerkeOnlineAlpha;
    let s = king_in_reach();
    let bogus = MoveMessage::NormalMove(NormalMove::NonTamMoveSrcDst { src: sq(Row::E, Column::K), dest: sq(Row::E, Column::L) });
    assert!(accept_move(config, &s, bogus).is_none());
    assert!(matches!(accept_move(config, &s, take_king()), Some(AcceptedMove::Normal(_))));
    let mut ia = Stubborn(bogus);
    let mut a = RandomPlayer::new(config);
    assert_eq!(play_turn(config, &s, &mut ia, &mut a).err(), Some(TurnError::MoveRefused(bogus)));
}

#[test]
fn a_quiet_position_settles_into_the_next_turn() {
    let config = RuleSet::CerkeOnlineAlpha;
    let g = king_in_reach();
    let mut h = HandNotResolved {
        f: g.f.duplicate(),
        whose_turn: Side::IASide,
        season: SeasonName::Iei2,
        scores: ScorePair::new(),
        rate: Stake::X1,
        i_have_moved_tam_in_this_turn: false,
        previous_a_side_hop1zuo1: Vec::new(),
        previous_ia_side_hop1zuo1: Vec::new(),
        kut2tam2_happened: false,
        tam2tysak2_raw_penalty: 0,
        tam2tysak2_will_trigger_taxottymok: false,
    };
    match settle(config, &h) {
        Some(HandResolved::NeitherTymokNorTaxot(next)) => assert_eq!(next.whose_turn, Side::ASide),
        other => panic!("unexpected {:?}", other),
    }
    h.tam2tysak2_raw_penalty = i32::MAX;
    assert!(settle(config, &h).is_none());
}

#[test]
fn the_answers_of_a_player_decide_the_turn() {
    let config = RuleSet::CerkeOnlineAlpha;
    let s = king_in_reach();
    assert!(matches!(turn_after_answer(config, &s, None), Err(TurnError::NoMovePossible)));
    assert!(matches!(turn_after_answer(config, &s, Some(take_king())), Ok(AcceptedMove::Normal(_))));
    let e = excited_with_nowhere_to_go();
    let m = InfAfterStep { src: sq(Row::AU, Column::K), step: sq(Row::AI, Column::K), planned_direction: sq(Row::Y, Column::K) };
    assert!(matches!(destination_after_answer(config, m, &e, 0, None), Err(TurnError::NoDestination)));
    assert!(destination_after_answer(config, m, &e, 0, Some(AfterHalfAcceptance { dest: None })).is_ok());
    assert!(matches!(outcome_after_answer(None), Err(TurnError::NoAnswerToHand)));
    match outcome_after_answer(Some(TymokOrTaxot_::Tymok(king_in_reach()))) {
        Ok((TurnOutcome::Continue(g), false)) => assert_eq!(g.whose_turn, Side::IASide),
        other => panic!("unexpected {:?}", other),
    }
    assert!(matches!(
        outcome_after_answer(Some(TymokOrTaxot_::Taxot(IfTaxot::VictoriousSide(Winner(Some(Side::ASide)))))),
        Ok((TurnOutcome::Finished(Winner(Some(Side::ASide))), true))
    ));
}

#[test]
fn the_static_evaluation_is_zero_sum() {
    let mut s = king_in_reach();
    s.f.insert_nontam_piece_into_hop1zuo1(PieceColor::Kok1, Prof::Kauk2, Side::IASide);
    let player = MinMaxPlayer::new(RuleSet::CerkeOnlineAlpha);
    let for_ia = player.eval(&s);
    let mut flipped = s.clone();
    flipped.whose_turn = Side::ASide;
    let for_a = player.eval(&flipped);
    assert_eq!(for_ia, Some(256));
    assert_eq!(for_a, Some(-256));
}

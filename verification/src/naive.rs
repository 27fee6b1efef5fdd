//! Conversions between this crate's plain model and the values of
//! `cetkaik_naive_representation`, `cetkaik_fundamental` and `cetkaik_full_state_transition`,
//! on which the rule engine works.
//!
//! Every function here converts one value into the same value of the other crate, field by
//! field and variant by variant; none of them decides anything.
use crate::model::{
    board_map, col_of_pos, col_pos, occupied_squares, position_from_entries, square_index, row_of_pos, row_pos, Side, PieceColor, NonTamPiece,
    Square, Position, BoardPiece, Prof,
};
use crate::moves::{AfterHalfAcceptance, InfAfterStep, MoveMessage, NormalMove, PureMove};
use crate::state::{
    RuleSet, ExcitedState, ExcitedStateWithoutCiurl, GroundState, HandNotResolved, HandResolved,
    IfTaxot, Chance, Stake, ScorePair, SeasonName, Winner,
};
use cetkaik_fundamental as fu;
use cetkaik_full_state_transition as fst;
use cetkaik_naive_representation::absolute as na;
use cetkaik_naive_representation::perspective::{to_absolute_coord, to_relative_coord, Perspective};
use cetkaik_naive_representation::CetkaikNaive;
use fst::message::NormalMove_ as N;
use fst::probabilistic::Probabilistic as P;
use fst::state::HandResolved_ as R;
use fu::PureMove_ as M;
use vstd::prelude::*;

verus! {

/// Declares `na::Coord` of the rule crates, to carry it through signatures; Verus sees nothing inside it.
#[verifier::external_type_specification]
#[verifier::external_body]
pub struct ExNaiveCoord(na::Coord);

/// Declares `na::Piece` of the rule crates, to carry it through signatures; Verus sees nothing inside it.
#[verifier::external_type_specification]
#[verifier::external_body]
pub struct ExNaivePiece(na::Piece);

/// Declares `na::Field` of the rule crates, to carry it through signatures; Verus sees nothing inside it.
#[verifier::external_type_specification]
#[verifier::external_body]
pub struct ExNaiveField(na::Field);

/// Declares `fu::Color` of the rule crates, to carry it through signatures; Verus sees nothing inside it.
#[verifier::external_type_specification]
#[verifier::external_body]
pub struct ExColor(fu::Color);

/// Declares `fu::Profession` of the rule crates, to carry it through signatures; Verus sees nothing inside it.
#[verifier::external_type_specification]
#[verifier::external_body]
pub struct ExProfession(fu::Profession);

/// Declares `fu::AbsoluteSide` of the rule crates, to carry it through signatures; Verus sees nothing inside it.
#[verifier::external_type_specification]
#[verifier::external_body]
pub struct ExAbsoluteSide(fu::AbsoluteSide);

/// Declares `fu::ColorAndProf` of the rule crates, to carry it through signatures; Verus sees nothing inside it.
#[verifier::external_type_specification]
#[verifier::external_body]
pub struct ExColorAndProf(fu::ColorAndProf);

/// Declares `fu::PureMove_` of the rule crates, to carry it through signatures; Verus sees nothing inside it.
#[verifier::external_type_specification]
#[verifier::external_body]
#[verifier::reject_recursive_types(C)]
pub struct ExPureMove<C>(fu::PureMove_<C>);

/// Declares `fst::Season` of the rule crates, to carry it through signatures; Verus sees nothing inside it.
#[verifier::external_type_specification]
#[verifier::external_body]
pub struct ExSeason(fst::Season);

/// Declares `fst::Rate` of the rule crates, to carry it through signatures; Verus sees nothing inside it.
#[verifier::external_type_specification]
#[verifier::external_body]
pub struct ExRate(fst::Rate);

/// Declares `fst::Scores` of the rule crates, to carry it through signatures; Verus sees nothing inside it.
#[verifier::external_type_specification]
#[verifier::external_body]
pub struct ExScores(fst::Scores);

/// Declares `fst::Victor` of the rule crates, to carry it through signatures; Verus sees nothing inside it.
#[verifier::external_type_specification]
#[verifier::external_body]
pub struct ExVictor(fst::Victor);

/// Declares `fst::Config` of the rule crates, to carry it through signatures; Verus sees nothing inside it.
#[verifier::external_type_specification]
#[verifier::external_body]
pub struct ExConfig(fst::Config);

/// Declares `fst::message::NormalMove_` of the rule crates, to carry it through signatures; Verus sees nothing inside it.
#[verifier::external_type_specification]
#[verifier::external_body]
#[verifier::reject_recursive_types(C)]
pub struct ExNormalMove<C>(fst::message::NormalMove_<C>);

/// Declares `fst::message::InfAfterStep_` of the rule crates, to carry it through signatures; Verus sees nothing inside it.
#[verifier::external_type_specification]
#[verifier::external_body]
#[verifier::reject_recursive_types(C)]
pub struct ExInfAfterStep<C>(fst::message::InfAfterStep_<C>);

/// Declares `fst::message::AfterHalfAcceptance_` of the rule crates, to carry it through signatures; Verus sees nothing inside it.
#[verifier::external_type_specification]
#[verifier::external_body]
#[verifier::reject_recursive_types(C)]
pub struct ExAfterHalfAcceptance<C>(fst::message::AfterHalfAcceptance_<C>);

/// Declares `fst::message::PureMove__` of the rule crates, to carry it through signatures; Verus sees nothing inside it.
#[verifier::external_type_specification]
#[verifier::external_body]
#[verifier::reject_recursive_types(C)]
pub struct ExMoveMessage<C>(fst::message::PureMove__<C>);

/// Declares `fst::probabilistic::Probabilistic` of the rule crates, to carry it through signatures; Verus sees nothing inside it.
#[verifier::external_type_specification]
#[verifier::external_body]
#[verifier::reject_recursive_types(T)]
pub struct ExProbabilistic<T>(fst::probabilistic::Probabilistic<T>);

/// Holds a `GroundState_` of the naive representation. Verus cannot declare the rule crate's
/// state types (their parameter is bound by a trait of another crate), so they travel in these
/// holders between the conversions below and the calls in `rules`.
#[verifier::external_body]
pub(crate) struct NaiveGround(pub(crate) fst::state::GroundState_<CetkaikNaive>);

/// Holds a `HandNotResolved_` of the naive representation.
#[verifier::external_body]
pub(crate) struct NaiveHandNotResolved(pub(crate) fst::state::HandNotResolved_<CetkaikNaive>);

/// Holds an `ExcitedState_` of the naive representation.
#[verifier::external_body]
pub(crate) struct NaiveExcited(pub(crate) fst::state::ExcitedState_<CetkaikNaive>);

/// Holds a `HandResolved_` of the naive representation.
#[verifier::external_body]
pub(crate) struct NaiveHandResolved(pub(crate) fst::state::HandResolved_<CetkaikNaive>);

/// A square, through the naive crate's own row/column numbering.
#[verifier::external_body]
pub(crate) fn coord_to_naive(c: Square) -> na::Coord {
    to_absolute_coord([row_pos(c.0), col_pos(c.1)], Perspective::IaIsDownAndPointsUpward)
}

/// A square, through the naive crate's own row/column numbering.
#[verifier::external_body]
pub(crate) fn coord_from_naive(c: na::Coord) -> Square {
    let [r, k] = to_relative_coord(c, Perspective::IaIsDownAndPointsUpward);
    Square(row_of_pos(r), col_of_pos(k))
}

/// The same colour as a `cetkaik_fundamental::Color`; nothing is claimed of the result.
#[verifier::external_body]
pub(crate) fn color_to_naive(c: PieceColor) -> fu::Color {
    match c {
        PieceColor::Kok1 => fu::Color::Kok1,
        PieceColor::Huok2 => fu::Color::Huok2,
    }
}

/// The same colour as ours; nothing is claimed of the result.
#[verifier::external_body]
pub(crate) fn color_from_naive(c: fu::Color) -> PieceColor {
    match c {
        fu::Color::Kok1 => PieceColor::Kok1,
        fu::Color::Huok2 => PieceColor::Huok2,
    }
}

/// The same profession as a `cetkaik_fundamental::Profession`; nothing is claimed of the result.
#[verifier::external_body]
pub(crate) fn prof_to_naive(p: Prof) -> fu::Profession {
    match p {
        Prof::Nuak1 => fu::Profession::Nuak1,
        Prof::Kauk2 => fu::Profession::Kauk2,
        Prof::Gua2 => fu::Profession::Gua2,
        Prof::Kaun1 => fu::Profession::Kaun1,
        Prof::Dau2 => fu::Profession::Dau2,
        Prof::Maun1 => fu::Profession::Maun1,
        Prof::Kua2 => fu::Profession::Kua2,
        Prof::Tuk2 => fu::Profession::Tuk2,
        Prof::Uai1 => fu::Profession::Uai1,
        Prof::Io => fu::Profession::Io,
    }
}

/// The same profession as ours; nothing is claimed of the result.
#[verifier::external_body]
pub(crate) fn prof_from_naive(p: fu::Profession) -> Prof {
    match p {
        fu::Profession::Nuak1 => Prof::Nuak1,
        fu::Profession::Kauk2 => Prof::Kauk2,
        fu::Profession::Gua2 => Prof::Gua2,
        fu::Profession::Kaun1 => Prof::Kaun1,
        fu::Profession::Dau2 => Prof::Dau2,
        fu::Profession::Maun1 => Prof::Maun1,
        fu::Profession::Kua2 => Prof::Kua2,
        fu::Profession::Tuk2 => Prof::Tuk2,
        fu::Profession::Uai1 => Prof::Uai1,
        fu::Profession::Io => Prof::Io,
    }
}

/// The same side as a `cetkaik_fundamental::AbsoluteSide`; nothing is claimed of the result.
#[verifier::external_body]
pub(crate) fn side_to_naive(s: Side) -> fu::AbsoluteSide {
    match s {
        Side::ASide => fu::AbsoluteSide::ASide,
        Side::IASide => fu::AbsoluteSide::IASide,
    }
}

/// The same side as ours; nothing is claimed of the result.
#[verifier::external_body]
pub(crate) fn side_from_naive(s: fu::AbsoluteSide) -> Side {
    match s {
        fu::AbsoluteSide::ASide => Side::ASide,
        fu::AbsoluteSide::IASide => Side::IASide,
    }
}

/// The same pieces, in the same order, as `cetkaik_fundamental::ColorAndProf` values; nothing is claimed of the result.
#[verifier::external_body]
pub(crate) fn pieces_to_naive(v: &Vec<NonTamPiece>) -> Vec<fu::ColorAndProf> {
    v.iter().map(|p| fu::ColorAndProf { color: color_to_naive(p.color), prof: prof_to_naive(p.prof) }).collect()
}

/// The same pieces, in the same order, as ours; nothing is claimed of the result.
#[verifier::external_body]
pub(crate) fn pieces_from_naive(v: &Vec<fu::ColorAndProf>) -> Vec<NonTamPiece> {
    v.iter().map(|p| NonTamPiece { color: color_from_naive(p.color), prof: prof_from_naive(p.prof) }).collect()
}

/// The same piece as a `cetkaik_naive_representation` piece; nothing is claimed of the result.
#[verifier::external_body]
pub(crate) fn piece_to_naive(p: BoardPiece) -> na::Piece {
    match p {
        BoardPiece::Tam2 => na::Piece::Tam2,
        BoardPiece::NonTam2Piece { color, prof, side } => na::Piece::NonTam2Piece {
            color: color_to_naive(color),
            prof: prof_to_naive(prof),
            side: side_to_naive(side),
        },
    }
}

/// The same piece as ours; nothing is claimed of the result.
#[verifier::external_body]
pub(crate) fn piece_from_naive(p: na::Piece) -> BoardPiece {
    match p {
        na::Piece::Tam2 => BoardPiece::Tam2,
        na::Piece::NonTam2Piece { color, prof, side } => BoardPiece::NonTam2Piece {
            color: color_from_naive(color),
            prof: prof_from_naive(prof),
            side: side_from_naive(side),
        },
    }
}

/// The pieces on the board of a naive field (its `Board` map), each square and piece
/// written as this crate writes them.
pub uninterp spec fn naive_board_of(f: na::Field) -> Map<Square, BoardPiece>;

/// The A side's hand of a naive field (`a_side_hop1zuo1`), in its order.
pub uninterp spec fn naive_a_hand_of(f: na::Field) -> Seq<NonTamPiece>;

/// The IA side's hand of a naive field (`ia_side_hop1zuo1`), in its order.
pub uninterp spec fn naive_ia_hand_of(f: na::Field) -> Seq<NonTamPiece>;

/// A field of the naive crate holding these pieces on these squares and these hands. The
/// board is a `HashMap` collected from the entries; with no square given twice, it maps
/// each given square to its piece and holds nothing else (`to_absolute_coord` and
/// `to_relative_coord` undo each other for one perspective).
#[verifier::external_body]
fn naive_field_of(occupied: &Vec<(Square, BoardPiece)>, a: &Vec<NonTamPiece>, ia: &Vec<NonTamPiece>) -> (r: na::Field)
    requires
        forall|k: int, l: int| 0 <= k < l < occupied@.len() ==> occupied@[k].0 != occupied@[l].0,
    ensures
        forall|k: int| 0 <= k < occupied@.len() ==> #[trigger] naive_board_of(r).contains_key(occupied@[k].0) && naive_board_of(r)[occupied@[k].0] == occupied@[k].1,
        forall|c: Square| #[trigger] naive_board_of(r).contains_key(c) ==> exists|k: int| 0 <= k < occupied@.len() && occupied@[k].0 == c,
        naive_a_hand_of(r) == a@,
        naive_ia_hand_of(r) == ia@,
{
    let squares = occupied.iter().map(|(c, p)| (coord_to_naive(*c), piece_to_naive(*p)));
    na::Field { board: na::Board(squares.collect()), a_side_hop1zuo1: pieces_to_naive(a), ia_side_hop1zuo1: pieces_to_naive(ia) }
}

/// The entries of the naive crate's board, in the order its map gives them: each square
/// once, with its piece. The order is left open.
#[verifier::external_body]
fn naive_board_entries(f: &na::Field) -> (r: Vec<(Square, BoardPiece)>)
    ensures
        forall|k: int| 0 <= k < r@.len() ==> #[trigger] naive_board_of(*f).contains_key(r@[k].0) && naive_board_of(*f)[r@[k].0] == r@[k].1,
        forall|c: Square| #[trigger] naive_board_of(*f).contains_key(c) ==> exists|k: int| 0 <= k < r@.len() && r@[k].0 == c,
        forall|k: int, l: int| 0 <= k < l < r@.len() ==> r@[k].0 != r@[l].0,
{
    f.board.0.iter().map(|(c, p)| (coord_from_naive(*c), piece_from_naive(*p))).collect()
}

/// Both hands of a naive field, as ours, in their order.
#[verifier::external_body]
fn naive_hop1zuo1(f: &na::Field) -> (r: (Vec<NonTamPiece>, Vec<NonTamPiece>))
    ensures
        r.0@ == naive_a_hand_of(*f),
        r.1@ == naive_ia_hand_of(*f),
{
    (pieces_from_naive(&f.a_side_hop1zuo1), pieces_from_naive(&f.ia_side_hop1zuo1))
}

/// The same field as a naive one: the same pieces on the same squares, the same hands.
pub(crate) fn field_to_naive(f: &Position) -> (r: na::Field)
    ensures
        naive_board_of(r) == board_map(f@),
        naive_a_hand_of(r) == f@.a_side_hop1zuo1,
        naive_ia_hand_of(r) == f@.ia_side_hop1zuo1,
{
    let occupied = occupied_squares(f);
    proof {
        assert forall|k: int, l: int| 0 <= k < l < occupied@.len() implies occupied@[k].0 != occupied@[l].0 by {
            assert(square_index(occupied@[k].0) < square_index(occupied@[l].0));
        }
    }
    let r = naive_field_of(&occupied, &f.a_side_hop1zuo1, &f.ia_side_hop1zuo1);
    proof {
        assert forall|c: Square| #[trigger] naive_board_of(r).contains_key(c) <==> board_map(f@).contains_key(c) by {
            if naive_board_of(r).contains_key(c) {
                let k = choose|k: int| 0 <= k < occupied@.len() && occupied@[k].0 == c;
                assert(f@.at(occupied@[k].0) == Some(occupied@[k].1));
            }
            if f@.at(c) is Some {
                let k = choose|k: int| 0 <= k < occupied@.len() && occupied@[k].0 == c;
                assert(naive_board_of(r).contains_key(occupied@[k].0));
            }
        }
        assert forall|c: Square| #[trigger] naive_board_of(r).contains_key(c) implies naive_board_of(r)[c] == board_map(f@)[c] by {
            let k = choose|k: int| 0 <= k < occupied@.len() && occupied@[k].0 == c;
            assert(f@.at(occupied@[k].0) == Some(occupied@[k].1));
            assert(naive_board_of(r).contains_key(occupied@[k].0));
        }
        assert(naive_board_of(r) =~= board_map(f@));
    }
    r
}

/// The same field as ours: the same pieces on the same squares, the same hands.
pub(crate) fn field_from_naive(f: &na::Field) -> (r: Position)
    ensures
        board_map(r@) == naive_board_of(*f),
        r@.a_side_hop1zuo1 == naive_a_hand_of(*f),
        r@.ia_side_hop1zuo1 == naive_ia_hand_of(*f),
{
    let entries = naive_board_entries(f);
    let (a, ia) = naive_hop1zuo1(f);
    let r = position_from_entries(&entries, a, ia);
    proof {
        let m = naive_board_of(*f);
        assert forall|c: Square| #[trigger] board_map(r@).contains_key(c) <==> m.contains_key(c) by {
            if m.contains_key(c) {
                let k = choose|k: int| 0 <= k < entries@.len() && entries@[k].0 == c;
                assert(forall|l: int| k < l < entries@.len() ==> (#[trigger] entries@[l]).0 != entries@[k].0);
                assert(r@.at(entries@[k].0) == Some(entries@[k].1));
            } else {
                assert forall|k: int| 0 <= k < entries@.len() implies (#[trigger] entries@[k]).0 != c by {
                    assert(m.contains_key(entries@[k].0));
                }
            }
        }
        assert forall|c: Square| #[trigger] m.contains_key(c) implies board_map(r@)[c] == m[c] by {
            let k = choose|k: int| 0 <= k < entries@.len() && entries@[k].0 == c;
            assert(forall|l: int| k < l < entries@.len() ==> (#[trigger] entries@[l]).0 != entries@[k].0);
            assert(r@.at(entries@[k].0) == Some(entries@[k].1));
            assert(m.contains_key(entries@[k].0));
        }
        assert(board_map(r@) =~= m);
    }
    r
}

/// The same season as a `cetkaik_full_state_transition::Season`; nothing is claimed of the result.
#[verifier::external_body]
pub(crate) fn season_to_naive(s: SeasonName) -> fst::Season {
    match s {
        SeasonName::Iei2 => fst::Season::Iei2,
        SeasonName::Xo1 => fst::Season::Xo1,
        SeasonName::Kat2 => fst::Season::Kat2,
        SeasonName::Iat1 => fst::Season::Iat1,
    }
}

/// The same season as ours; nothing is claimed of the result.
#[verifier::external_body]
pub(crate) fn season_from_naive(s: fst::Season) -> SeasonName {
    match s {
        fst::Season::Iei2 => SeasonName::Iei2,
        fst::Season::Xo1 => SeasonName::Xo1,
        fst::Season::Kat2 => SeasonName::Kat2,
        fst::Season::Iat1 => SeasonName::Iat1,
    }
}

/// The same rate as a `cetkaik_full_state_transition::Rate`; nothing is claimed of the result.
#[verifier::external_body]
pub(crate) fn rate_to_naive(r: Stake) -> fst::Rate {
    match r {
        Stake::X1 => fst::Rate::X1,
        Stake::X2 => fst::Rate::X2,
        Stake::X4 => fst::Rate::X4,
        Stake::X8 => fst::Rate::X8,
        Stake::X16 => fst::Rate::X16,
        Stake::X32 => fst::Rate::X32,
        Stake::X64 => fst::Rate::X64,
    }
}

/// The same rate as ours; nothing is claimed of the result.
#[verifier::external_body]
pub(crate) fn rate_from_naive(r: fst::Rate) -> Stake {
    match r {
        fst::Rate::X1 => Stake::X1,
        fst::Rate::X2 => Stake::X2,
        fst::Rate::X4 => Stake::X4,
        fst::Rate::X8 => Stake::X8,
        fst::Rate::X16 => Stake::X16,
        fst::Rate::X32 => Stake::X32,
        fst::Rate::X64 => Stake::X64,
    }
}

/// The rule crate's scores as `Scores::new().edit(delta, IASide, X1)` gives them: 20 each,
/// with `delta` moved to the IA side.
#[verifier::external_body]
fn naive_scores_moved(delta: i32) -> fst::Scores
    requires
        -20 < delta < 20,
{
    match fst::Scores::new().edit(delta, fu::AbsoluteSide::IASide, fst::Rate::X1) {
        Ok(scores) => scores,
        Err(_) => fst::Scores::new(),
    }
}

/// The rule crate's scores can only be built through `Scores::new` and `Scores::edit`;
/// from 20, moving the IA side's score by `ia - 20` at rate 1 gives back these scores.
pub(crate) fn scores_to_naive(s: ScorePair) -> fst::Scores {
    naive_scores_moved(s.ia() - 20)
}

/// The same scores as ours, read through `Scores::ia` and `Scores::a`; nothing is claimed of the result.
#[verifier::external_body]
pub(crate) fn scores_from_naive(s: fst::Scores) -> ScorePair {
    ScorePair::from_parts(s.ia(), s.a())
}

/// The same winner as ours; nothing is claimed of the result.
#[verifier::external_body]
pub(crate) fn victor_from_naive(v: fst::Victor) -> Winner {
    Winner(v.0.map(side_from_naive))
}

/// The rule variant as `Config::cerke_online_alpha` or `Config::strict_y1_huap1` builds it; nothing is claimed of the result.
#[verifier::external_body]
pub(crate) fn config_to_naive(c: RuleSet) -> fst::Config {
    match c {
        RuleSet::CerkeOnlineAlpha => fst::Config::cerke_online_alpha(),
        RuleSet::StrictY1Huap1 => fst::Config::strict_y1_huap1(),
    }
}

/// The same ground state as a `GroundState_` of the naive representation; nothing is claimed of the result.
#[verifier::external_body]
pub(crate) fn ground_to_naive(s: &GroundState) -> NaiveGround {
    NaiveGround(fst::state::GroundState_ {
        f: field_to_naive(&s.f),
        whose_turn: side_to_naive(s.whose_turn),
        season: season_to_naive(s.season),
        scores: scores_to_naive(s.scores),
        rate: rate_to_naive(s.rate),
        tam_has_moved_previously: s.tam_has_moved_previously,
    })
}

/// The same ground state as ours; nothing is claimed of the result.
#[verifier::external_body]
pub(crate) fn ground_from_naive(s: NaiveGround) -> GroundState {
    let s = s.0;
    GroundState {
        f: field_from_naive(&s.f),
        whose_turn: side_from_naive(s.whose_turn),
        season: season_from_naive(s.season),
        scores: scores_from_naive(s.scores),
        rate: rate_from_naive(s.rate),
        tam_has_moved_previously: s.tam_has_moved_previously,
    }
}

/// The same state as a `HandNotResolved_` of the naive representation; nothing is claimed of the result.
#[verifier::external_body]
pub(crate) fn hand_not_resolved_to_naive(s: &HandNotResolved) -> NaiveHandNotResolved {
    NaiveHandNotResolved(fst::state::HandNotResolved_ {
        f: field_to_naive(&s.f),
        whose_turn: side_to_naive(s.whose_turn),
        season: season_to_naive(s.season),
        scores: scores_to_naive(s.scores),
        rate: rate_to_naive(s.rate),
        i_have_moved_tam_in_this_turn: s.i_have_moved_tam_in_this_turn,
        previous_a_side_hop1zuo1: pieces_to_naive(&s.previous_a_side_hop1zuo1),
        previous_ia_side_hop1zuo1: pieces_to_naive(&s.previous_ia_side_hop1zuo1),
        kut2tam2_happened: s.kut2tam2_happened,
        tam2tysak2_raw_penalty: s.tam2tysak2_raw_penalty,
        tam2tysak2_will_trigger_taxottymok: s.tam2tysak2_will_trigger_taxottymok,
    })
}

/// The same state as ours; nothing is claimed of the result.
#[verifier::external_body]
pub(crate) fn hand_not_resolved_from_naive(s: NaiveHandNotResolved) -> HandNotResolved {
    let s = s.0;
    HandNotResolved {
        f: field_from_naive(&s.f),
        whose_turn: side_from_naive(s.whose_turn),
        season: season_from_naive(s.season),
        scores: scores_from_naive(s.scores),
        rate: rate_from_naive(s.rate),
        i_have_moved_tam_in_this_turn: s.i_have_moved_tam_in_this_turn,
        previous_a_side_hop1zuo1: pieces_from_naive(&s.previous_a_side_hop1zuo1),
        previous_ia_side_hop1zuo1: pieces_from_naive(&s.previous_ia_side_hop1zuo1),
        kut2tam2_happened: s.kut2tam2_happened,
        tam2tysak2_raw_penalty: s.tam2tysak2_raw_penalty,
        tam2tysak2_will_trigger_taxottymok: s.tam2tysak2_will_trigger_taxottymok,
    }
}

/// The same state as an `ExcitedState_` of the naive representation; nothing is claimed of the result.
#[verifier::external_body]
pub(crate) fn excited_to_naive(s: &ExcitedState) -> NaiveExcited {
    let c = &s.c;
    NaiveExcited(fst::state::ExcitedState_ { ciurl: s.ciurl, c: fst::state::ExcitedStateWithoutCiurl_ {
        f: field_to_naive(&c.f),
        whose_turn: side_to_naive(c.whose_turn),
        flying_piece_src: coord_to_naive(c.flying_piece_src),
        flying_piece_step: coord_to_naive(c.flying_piece_step),
        flying_piece_planned_direction: coord_to_naive(c.flying_piece_planned_direction),
        season: season_to_naive(c.season),
        scores: scores_to_naive(c.scores),
        rate: rate_to_naive(c.rate),
    }})
}

/// The same state as ours; nothing is claimed of the result.
#[verifier::external_body]
pub(crate) fn excited_from_naive(s: NaiveExcited) -> ExcitedState {
    let c = s.0.c;
    ExcitedState { ciurl: s.0.ciurl, c: ExcitedStateWithoutCiurl {
        f: field_from_naive(&c.f),
        whose_turn: side_from_naive(c.whose_turn),
        flying_piece_src: coord_from_naive(c.flying_piece_src),
        flying_piece_step: coord_from_naive(c.flying_piece_step),
        flying_piece_planned_direction: coord_from_naive(c.flying_piece_planned_direction),
        season: season_from_naive(c.season),
        scores: scores_from_naive(c.scores),
        rate: rate_from_naive(c.rate),
    }}
}

/// Converts each value of a `Chance`, keeping the variant.
#[verifier::external_body]
pub(crate) fn probabilistic_from_naive<A, B, F: Fn(A) -> B>(p: fst::probabilistic::Probabilistic<A>, f: F) -> Chance<B> {
    match p {
        P::Pure(t) => Chance::Pure(f(t)),
        P::Water { failure, success } => Chance::Water { failure: f(failure), success: f(success) },
        P::Sticks { s0, s1, s2, s3, s4, s5 } => Chance::Sticks { s0: f(s0), s1: f(s1), s2: f(s2), s3: f(s3), s4: f(s4), s5: f(s5) },
        P::WhoGoesFirst { ia_first, a_first } => Chance::WhoGoesFirst { ia_first: f(ia_first), a_first: f(a_first) },
    }
}

/// Converts each value of a `Chance`, keeping the variant.
#[verifier::external_body]
pub(crate) fn probabilistic_to_naive<A, B, F: Fn(A) -> B>(p: Chance<A>, f: F) -> fst::probabilistic::Probabilistic<B> {
    match p {
        Chance::Pure(t) => P::Pure(f(t)),
        Chance::Water { failure, success } => P::Water { failure: f(failure), success: f(success) },
        Chance::Sticks { s0, s1, s2, s3, s4, s5 } => P::Sticks { s0: f(s0), s1: f(s1), s2: f(s2), s3: f(s3), s4: f(s4), s5: f(s5) },
        Chance::WhoGoesFirst { ia_first, a_first } => P::WhoGoesFirst { ia_first: f(ia_first), a_first: f(a_first) },
    }
}

/// The same settlement as ours, each state converted; nothing is claimed of the result.
#[verifier::external_body]
pub(crate) fn hand_resolved_from_naive(r: NaiveHandResolved) -> HandResolved {
    let ground = |g| ground_from_naive(NaiveGround(g));
    match r.0 {
        R::NeitherTymokNorTaxot(g) => HandResolved::NeitherTymokNorTaxot(ground(g)),
        R::HandExists { if_tymok, if_taxot } => HandResolved::HandExists { if_tymok: ground(if_tymok), if_taxot: match if_taxot {
            fst::IfTaxot_::NextSeason(p) => IfTaxot::NextSeason(probabilistic_from_naive(p, ground)),
            fst::IfTaxot_::VictoriousSide(v) => IfTaxot::VictoriousSide(victor_from_naive(v)),
        }},
        R::GameEndsWithoutTymokTaxot(v) => HandResolved::GameEndsWithoutTymokTaxot(victor_from_naive(v)),
    }
}

/// A move without stepping cast; the moves of Tam2 go through `tam_move_to_naive`.
#[verifier::external_body]
pub(crate) fn normal_move_to_naive(m: NormalMove) -> fst::message::NormalMove_<na::Coord> {
    let c = coord_to_naive;
    match m {
        NormalMove::NonTamMoveSrcDst { src, dest } => N::NonTamMoveSrcDst { src: c(src), dest: c(dest) },
        NormalMove::NonTamMoveSrcStepDstFinite { src, step, dest } => N::NonTamMoveSrcStepDstFinite { src: c(src), step: c(step), dest: c(dest) },
        NormalMove::NonTamMoveFromHopZuo { color, prof, dest } => N::NonTamMoveFromHopZuo { color: color_to_naive(color), prof: prof_to_naive(prof), dest: c(dest) },
        tam => tam_move_to_naive(tam),
    }
}

/// A move of Tam2; the other moves go through `normal_move_to_naive`.
#[verifier::external_body]
pub(crate) fn tam_move_to_naive(m: NormalMove) -> fst::message::NormalMove_<na::Coord> {
    let c = coord_to_naive;
    match m {
        NormalMove::TamMoveNoStep { src, first_dest, second_dest } => N::TamMoveNoStep { src: c(src), first_dest: c(first_dest), second_dest: c(second_dest) },
        NormalMove::TamMoveStepsDuringFormer { src, step, first_dest, second_dest } => N::TamMoveStepsDuringFormer { src: c(src), step: c(step), first_dest: c(first_dest), second_dest: c(second_dest) },
        NormalMove::TamMoveStepsDuringLatter { src, step, first_dest, second_dest } => N::TamMoveStepsDuringLatter { src: c(src), step: c(step), first_dest: c(first_dest), second_dest: c(second_dest) },
        other => normal_move_to_naive(other),
    }
}

/// A move without stepping cast; the moves of Tam2 go through `tam_move_from_naive`.
#[verifier::external_body]
pub(crate) fn normal_move_from_naive(m: fst::message::NormalMove_<na::Coord>) -> NormalMove {
    let c = coord_from_naive;
    match m {
        N::NonTamMoveSrcDst { src, dest } => NormalMove::NonTamMoveSrcDst { src: c(src), dest: c(dest) },
        N::NonTamMoveSrcStepDstFinite { src, step, dest } => NormalMove::NonTamMoveSrcStepDstFinite { src: c(src), step: c(step), dest: c(dest) },
        N::NonTamMoveFromHopZuo { color, prof, dest } => NormalMove::NonTamMoveFromHopZuo { color: color_from_naive(color), prof: prof_from_naive(prof), dest: c(dest) },
        tam => tam_move_from_naive(tam),
    }
}

/// A move of Tam2; the other moves go through `normal_move_from_naive`.
#[verifier::external_body]
pub(crate) fn tam_move_from_naive(m: fst::message::NormalMove_<na::Coord>) -> NormalMove {
    let c = coord_from_naive;
    match m {
        N::TamMoveNoStep { src, first_dest, second_dest } => NormalMove::TamMoveNoStep { src: c(src), first_dest: c(first_dest), second_dest: c(second_dest) },
        N::TamMoveStepsDuringFormer { src, step, first_dest, second_dest } => NormalMove::TamMoveStepsDuringFormer { src: c(src), step: c(step), first_dest: c(first_dest), second_dest: c(second_dest) },
        N::TamMoveStepsDuringLatter { src, step, first_dest, second_dest } => NormalMove::TamMoveStepsDuringLatter { src: c(src), step: c(step), first_dest: c(first_dest), second_dest: c(second_dest) },
        other => normal_move_from_naive(other),
    }
}

/// The same message as an `InfAfterStep_`; nothing is claimed of the result.
#[verifier::external_body]
pub(crate) fn inf_after_step_to_naive(m: InfAfterStep) -> fst::message::InfAfterStep_<na::Coord> {
    fst::message::InfAfterStep_ {
        src: coord_to_naive(m.src),
        step: coord_to_naive(m.step),
        planned_direction: coord_to_naive(m.planned_direction),
    }
}

/// The same message as ours; nothing is claimed of the result.
#[verifier::external_body]
pub(crate) fn move_message_from_naive(m: fst::message::PureMove__<na::Coord>) -> MoveMessage {
    match m {
        fst::message::PureMove__::NormalMove(n) => MoveMessage::NormalMove(normal_move_from_naive(n)),
        fst::message::PureMove__::InfAfterStep(i) => MoveMessage::InfAfterStep(InfAfterStep {
            src: coord_from_naive(i.src),
            step: coord_from_naive(i.step),
            planned_direction: coord_from_naive(i.planned_direction),
        }),
    }
}

/// A listed move; the moves of Tam2 go through `tam_pure_move_from_naive`.
#[verifier::external_body]
pub(crate) fn pure_move_from_naive(m: fu::PureMove_<na::Coord>) -> PureMove {
    let c = coord_from_naive;
    match m {
        M::NonTamMoveSrcDst { src, dest, is_water_entry_ciurl } => PureMove::NonTamMoveSrcDst { src: c(src), dest: c(dest), is_water_entry_ciurl },
        M::NonTamMoveSrcStepDstFinite { src, step, dest, is_water_entry_ciurl } => PureMove::NonTamMoveSrcStepDstFinite { src: c(src), step: c(step), dest: c(dest), is_water_entry_ciurl },
        M::InfAfterStep { src, step, planned_direction } => PureMove::InfAfterStep { src: c(src), step: c(step), planned_direction: c(planned_direction) },
        M::NonTamMoveFromHopZuo { color, prof, dest } => PureMove::NonTamMoveFromHopZuo { color: color_from_naive(color), prof: prof_from_naive(prof), dest: c(dest) },
        tam => tam_pure_move_from_naive(tam),
    }
}

/// A listed move of Tam2; the other moves go through `pure_move_from_naive`.
#[verifier::external_body]
pub(crate) fn tam_pure_move_from_naive(m: fu::PureMove_<na::Coord>) -> PureMove {
    let c = coord_from_naive;
    match m {
        M::TamMoveNoStep { src, first_dest, second_dest } => PureMove::TamMoveNoStep { src: c(src), first_dest: c(first_dest), second_dest: c(second_dest) },
        M::TamMoveStepsDuringFormer { src, step, first_dest, second_dest } => PureMove::TamMoveStepsDuringFormer { src: c(src), step: c(step), first_dest: c(first_dest), second_dest: c(second_dest) },
        M::TamMoveStepsDuringLatter { src, step, first_dest, second_dest } => PureMove::TamMoveStepsDuringLatter { src: c(src), step: c(step), first_dest: c(first_dest), second_dest: c(second_dest) },
        other => pure_move_from_naive(other),
    }
}

/// The same decision as an `AfterHalfAcceptance_`; nothing is claimed of the result.
#[verifier::external_body]
pub(crate) fn after_half_acceptance_to_naive(m: AfterHalfAcceptance) -> fst::message::AfterHalfAcceptance_<na::Coord> {
    fst::message::AfterHalfAcceptance_ { dest: m.dest.map(coord_to_naive) }
}

/// The same decision as ours; nothing is claimed of the result.
#[verifier::external_body]
pub(crate) fn after_half_acceptance_from_naive(m: fst::message::AfterHalfAcceptance_<na::Coord>) -> AfterHalfAcceptance {
    AfterHalfAcceptance { dest: m.dest.map(coord_from_naive) }
}

} // verus!

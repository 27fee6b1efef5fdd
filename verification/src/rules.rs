//! The calls into the rule crates: move generation, state transitions, hand scoring and the
//! casting of sticks. What the crates compute in many pages is named here; what a few lines
//! can say is said.
use crate::model::{hop1zuo1_of, BoardPiece, Column, NonTamPiece, PositionView, Prof, Row, Side, PieceColor, Square};
use crate::moves::{AfterHalfAcceptance, InfAfterStep, MoveMessage, NormalMove, PureMove};
use crate::naive::{
    after_half_acceptance_from_naive, after_half_acceptance_to_naive, excited_from_naive,
    excited_to_naive, field_to_naive, ground_from_naive, ground_to_naive,
    hand_not_resolved_from_naive, hand_not_resolved_to_naive, hand_resolved_from_naive,
    inf_after_step_to_naive, move_message_from_naive, normal_move_to_naive, pieces_to_naive,
    probabilistic_from_naive, probabilistic_to_naive, pure_move_from_naive, config_to_naive,
    side_to_naive, NaiveExcited, NaiveGround, NaiveHandNotResolved, NaiveHandResolved,
};
use crate::state::{
    option_view, Chance, ExcitedState, ExcitedStateView, ExcitedStateWithoutCiurlView, GroundState,
    GroundStateView, HandNotResolved, HandNotResolvedView, HandResolved, HandResolvedView,
    rate_num, IfTaxotView, RuleSet, SeasonName, Stake,
};
use cetkaik_calculate_hand::calculate_hands_and_score_from_pieces;
use cetkaik_full_state_transition as fst;
use cetkaik_naive_representation::CetkaikNaive;
use cetkaik_yhuap_move_candidates::{not_from_hop1zuo1_candidates_vec, AllowKut2Tam2};
use vstd::multiset::Multiset;
use vstd::prelude::*;

verus! {

/// What `GroundState_::get_candidates` lists for a state: the moves from hop1zuo1, then
/// all the other moves.
pub uninterp spec fn spec_ground_candidates(s: GroundStateView, config: RuleSet) -> (Seq<MoveMessage>, Seq<MoveMessage>);

/// What `ExcitedState_::get_candidates` lists: the destinations that the cast allows
/// (giving up the move, `dest: None`, among them).
pub uninterp spec fn spec_excited_candidates(s: ExcitedStateView, config: RuleSet) -> Seq<AfterHalfAcceptance>;

/// What `not_from_hop1zuo1_candidates_vec` lists: the moves of pieces already on the board.
pub uninterp spec fn spec_moves_not_from_hop1zuo1(allow_kut2tam2: bool, tam_itself_is_tam_hue: bool, whose_turn: Side, f: PositionView) -> Seq<PureMove>;

/// What `apply_normal_move` returns, `None` for its error.
pub uninterp spec fn spec_normal_move_outcome(s: GroundStateView, msg: NormalMove, config: RuleSet) -> Option<Chance<HandNotResolvedView>>;

/// What `apply_after_half_acceptance` returns, `None` for its error.
pub uninterp spec fn spec_after_half_acceptance_outcome(s: ExcitedStateView, msg: AfterHalfAcceptance, config: RuleSet) -> Option<Chance<HandNotResolvedView>>;

/// What `resolve` returns.
pub uninterp spec fn spec_resolve(s: HandNotResolvedView, config: RuleSet) -> HandResolvedView;

/// The score of the hands that a set of pieces in hand makes
/// (`calculate_hands_and_score_from_pieces`).
pub uninterp spec fn spec_hand_score(pieces: Seq<NonTamPiece>) -> int;

/// How many pieces of one profession and one colour the game has.
pub open spec fn piece_limit(prof: Prof) -> int {
    match prof {
        Prof::Kauk2 => 8,
        Prof::Io | Prof::Nuak1 => 1,
        _ => 2,
    }
}

/// How many times a piece occurs in a list.
pub open spec fn piece_count(pieces: Seq<NonTamPiece>, p: NonTamPiece) -> nat {
    pieces.to_multiset().count(p)
}

/// No kind of piece occurs more often than the game has it.
pub open spec fn within_piece_limits(pieces: Seq<NonTamPiece>) -> bool {
    forall|p: NonTamPiece| #[trigger] piece_count(pieces, p) <= piece_limit(p.prof)
}

/// How many pieces of the kinds of one colour a multiset holds.
pub open spec fn color_total(m: Multiset<NonTamPiece>, c: PieceColor) -> int {
    (m.count(NonTamPiece { color: c, prof: Prof::Nuak1 }) + m.count(NonTamPiece { color: c, prof: Prof::Kauk2 })
        + m.count(NonTamPiece { color: c, prof: Prof::Gua2 }) + m.count(NonTamPiece { color: c, prof: Prof::Kaun1 })
        + m.count(NonTamPiece { color: c, prof: Prof::Dau2 }) + m.count(NonTamPiece { color: c, prof: Prof::Maun1 })
        + m.count(NonTamPiece { color: c, prof: Prof::Kua2 }) + m.count(NonTamPiece { color: c, prof: Prof::Tuk2 })
        + m.count(NonTamPiece { color: c, prof: Prof::Uai1 }) + m.count(NonTamPiece { color: c, prof: Prof::Io })) as int
}

proof fn lemma_len_is_kind_total(s: Seq<NonTamPiece>)
    ensures
        s.len() == color_total(s.to_multiset(), PieceColor::Kok1) + color_total(s.to_multiset(), PieceColor::Huok2),
    decreases s.len(),
{
    broadcast use vstd::multiset::group_multiset_axioms;
    broadcast use vstd::seq_lib::to_multiset_build;
    if s.len() == 0 {
        assert forall|a: NonTamPiece| #[trigger] s.to_multiset().count(a) == 0 by {
            broadcast use vstd::seq_lib::to_multiset_contains;
        }
    } else {
        let t = s.drop_last();
        lemma_len_is_kind_total(t);
        assert(s == t.push(s.last()));
        assert(s.to_multiset() =~= t.to_multiset().insert(s.last()));
    }
}

/// A hand within the piece limits holds at most 48 pieces: twice (one per colour) eight
/// Kauk2, one Io, one Nuak1 and two of each of the seven other professions.
pub proof fn lemma_hand_size(pieces: Seq<NonTamPiece>)
    requires
        within_piece_limits(pieces),
    ensures
        pieces.len() <= 48,
{
    lemma_len_is_kind_total(pieces);
    let m = pieces.to_multiset();
    assert forall|c: PieceColor| color_total(m, c) <= 24 by {
        assert(piece_count(pieces, NonTamPiece { color: c, prof: Prof::Nuak1 }) <= 1);
        assert(piece_count(pieces, NonTamPiece { color: c, prof: Prof::Kauk2 }) <= 8);
        assert(piece_count(pieces, NonTamPiece { color: c, prof: Prof::Gua2 }) <= 2);
        assert(piece_count(pieces, NonTamPiece { color: c, prof: Prof::Kaun1 }) <= 2);
        assert(piece_count(pieces, NonTamPiece { color: c, prof: Prof::Dau2 }) <= 2);
        assert(piece_count(pieces, NonTamPiece { color: c, prof: Prof::Maun1 }) <= 2);
        assert(piece_count(pieces, NonTamPiece { color: c, prof: Prof::Kua2 }) <= 2);
        assert(piece_count(pieces, NonTamPiece { color: c, prof: Prof::Tuk2 }) <= 2);
        assert(piece_count(pieces, NonTamPiece { color: c, prof: Prof::Uai1 }) <= 2);
        assert(piece_count(pieces, NonTamPiece { color: c, prof: Prof::Io }) <= 1);
    }
    assert(color_total(m, PieceColor::Kok1) <= 24);
    assert(color_total(m, PieceColor::Huok2) <= 24);
}

/// Lists the moves of the pieces on the board that `whose_turn` may make
/// (`not_from_hop1zuo1_candidates_vec` of `cetkaik_yhuap_move_candidates`).
#[verifier::external_body]
pub(crate) fn moves_not_from_hop1zuo1(allow_kut2tam2: bool, tam_itself_is_tam_hue: bool, whose_turn: Side, f: &crate::model::Position) -> (r: Vec<PureMove>)
    ensures
        r@ == spec_moves_not_from_hop1zuo1(allow_kut2tam2, tam_itself_is_tam_hue, whose_turn, f@),
{
    let allow = AllowKut2Tam2 { allow_kut2tam2 };
    let v = not_from_hop1zuo1_candidates_vec::<CetkaikNaive>(&allow, tam_itself_is_tam_hue, side_to_naive(whose_turn), &field_to_naive(f));
    v.into_iter().map(pure_move_from_naive).collect()
}

/// Lists the moves that the player to move may make, as `GroundState_::get_candidates`
/// does: the moves from hop1zuo1, then the others.
#[verifier::external_body]
pub(crate) fn ground_candidates(s: &GroundState, config: RuleSet) -> (r: (Vec<MoveMessage>, Vec<MoveMessage>))
    ensures
        (r.0@, r.1@) == spec_ground_candidates(s@, config),
{
    let (from_hop1zuo1, others) = ground_to_naive(s).0.get_candidates(config_to_naive(config));
    let convert = |v: Vec<_>| v.into_iter().map(move_message_from_naive).collect();
    (convert(from_hop1zuo1), convert(others))
}

/// Lists the destinations allowed after the stepping cast, as `ExcitedState_::get_candidates`
/// does; that list starts with giving up the move (`dest: None`).
#[verifier::external_body]
pub(crate) fn excited_candidates(s: &ExcitedState, config: RuleSet) -> (r: Vec<AfterHalfAcceptance>)
    ensures
        r@ == spec_excited_candidates(s@, config),
        r@.len() > 0 && r@[0] == (AfterHalfAcceptance { dest: None }),
{
    let v = excited_to_naive(s).0.get_candidates(config_to_naive(config));
    v.into_iter().map(after_half_acceptance_from_naive).collect()
}

/// Plays a move that needs no stepping cast (`apply_normal_move`); `None` where that
/// function returns its error. Its outcomes are settled at once (`Pure`) or hang on a
/// water-entry cast (`Water`).
#[verifier::external_body]
pub(crate) fn apply_normal_move(s: &GroundState, msg: NormalMove, config: RuleSet) -> (r: Option<Chance<HandNotResolved>>)
    ensures
        option_view(r) == spec_normal_move_outcome(s@, msg, config),
        r matches Some(p) ==> (p@ is Pure || p@ is Water),
{
    let raw = fst::apply_normal_move::<CetkaikNaive>(&ground_to_naive(s).0, normal_move_to_naive(msg), config_to_naive(config));
    raw.ok().map(|p| probabilistic_from_naive(p, |h| hand_not_resolved_from_naive(NaiveHandNotResolved(h))))
}

/// The state after the stepping cast has shown `ciurl`, for a stepping infinite movement.
pub open spec fn excited_after(s: GroundStateView, msg: InfAfterStep, ciurl: i32) -> ExcitedStateView {
    ExcitedStateView {
        c: ExcitedStateWithoutCiurlView {
            f: s.f,
            whose_turn: s.whose_turn,
            flying_piece_src: msg.src,
            flying_piece_step: msg.step,
            flying_piece_planned_direction: msg.planned_direction,
            season: s.season,
            scores: s.scores,
            rate: s.rate,
        },
        ciurl,
    }
}

/// Whether `apply_inf_after_step` accepts a move: both `src` and `step` are occupied, and
/// the move generator lists a stepping infinite movement with the same `src` and `step`.
pub open spec fn inf_after_step_accepted(s: GroundStateView, msg: InfAfterStep, config: RuleSet) -> bool {
    &&& s.f.at(msg.src) is Some
    &&& s.f.at(msg.step) is Some
    &&& exists|i: int|
        0 <= i < spec_ground_candidates(s, config).1.len() && (#[trigger] spec_ground_candidates(
            s,
            config,
        ).1[i] matches MoveMessage::InfAfterStep(m) && m.src == msg.src && m.step == msg.step)
}

/// Starts a stepping infinite movement (`apply_inf_after_step`): where the move is accepted,
/// one state per result of the cast, 0 to 5; `None` where it is refused.
#[verifier::external_body]
pub(crate) fn apply_inf_after_step(s: &GroundState, msg: InfAfterStep, config: RuleSet) -> (r: Option<Chance<ExcitedState>>)
    ensures
        r is Some <==> inf_after_step_accepted(s@, msg, config),
        r matches Some(p) ==> p@ == (Chance::Sticks {
            s0: excited_after(s@, msg, 0),
            s1: excited_after(s@, msg, 1),
            s2: excited_after(s@, msg, 2),
            s3: excited_after(s@, msg, 3),
            s4: excited_after(s@, msg, 4),
            s5: excited_after(s@, msg, 5),
        }),
{
    let raw = fst::apply_inf_after_step::<CetkaikNaive>(&ground_to_naive(s).0, inf_after_step_to_naive(msg), config_to_naive(config));
    raw.ok().map(|p| probabilistic_from_naive(p, |e| excited_from_naive(NaiveExcited(e))))
}

/// Ends a stepping infinite movement with the chosen destination
/// (`apply_after_half_acceptance`); `None` where that function returns its error. The
/// function reads the piece on the stepped-over square and panics where there is none, so
/// that square must be occupied. Its outcomes are `Pure` or `Water`, as for
/// `apply_normal_move`.
#[verifier::external_body]
pub(crate) fn apply_after_half_acceptance(s: &ExcitedState, msg: AfterHalfAcceptance, config: RuleSet) -> (r: Option<Chance<HandNotResolved>>)
    requires
        s@.c.f.at(s@.c.flying_piece_step) is Some,
    ensures
        option_view(r) == spec_after_half_acceptance_outcome(s@, msg, config),
        r matches Some(p) ==> (p@ is Pure || p@ is Water),
{
    let raw = fst::apply_after_half_acceptance::<CetkaikNaive>(&excited_to_naive(s).0, after_half_acceptance_to_naive(msg), config_to_naive(config));
    raw.ok().map(|p| probabilistic_from_naive(p, |h| hand_not_resolved_from_naive(NaiveHandNotResolved(h))))
}

/// Whether `resolve` can settle a state without panicking: where the mover's hand has
/// changed, it scores the hand before and the hand now and fails on one beyond the piece
/// limits; and it moves the penalty, plus at most 201 points of new hands or minus 5 for
/// stepping on Tam2, at the rate, in `i32` arithmetic beside scores below 40.
pub open spec fn settlement_defined(h: HandNotResolvedView) -> bool {
    let before = match h.whose_turn {
        Side::ASide => h.previous_a_side_hop1zuo1,
        Side::IASide => h.previous_ia_side_hop1zuo1,
    };
    let now = h.f.hop1zuo1(h.whose_turn);
    &&& (before == now || (within_piece_limits(before) && within_piece_limits(now)))
    &&& -(0x7fff_ffff - 40) <= rate_num(h.rate) * (h.tam2tysak2_raw_penalty - 5)
    &&& rate_num(h.rate) * (h.tam2tysak2_raw_penalty + 201) <= 0x7fff_ffff - 40
}

fn same_pieces(a: &Vec<NonTamPiece>, b: &Vec<NonTamPiece>) -> (r: bool)
    ensures
        r == (a@ == b@),
{
    if a.len() != b.len() {
        return false;
    }
    let mut i: usize = 0;
    while i < a.len()
        invariant
            i <= a@.len(),
            a@.len() == b@.len(),
            forall|j: int| 0 <= j < i ==> a@[j] == b@[j],
        decreases a@.len() - i,
    {
        if a[i] != b[i] {
            return false;
        }
        i += 1;
    }
    assert(a@ =~= b@);
    true
}

/// Checks `settlement_defined`.
pub fn settlement_check(h: &HandNotResolved) -> (b: bool)
    ensures
        b == settlement_defined(h@),
{
    let before = match h.whose_turn {
        Side::ASide => &h.previous_a_side_hop1zuo1,
        Side::IASide => &h.previous_ia_side_hop1zuo1,
    };
    let now = hop1zuo1_of(h.whose_turn, &h.f);
    if !same_pieces(before, &now) && (hand_score(before).is_none() || hand_score(&now).is_none()) {
        return false;
    }
    let num: i64 = match h.rate {
        Stake::X1 => 1,
        Stake::X2 => 2,
        Stake::X4 => 4,
        Stake::X8 => 8,
        Stake::X16 => 16,
        Stake::X32 => 32,
        Stake::X64 => 64,
    };
    let p = h.tam2tysak2_raw_penalty as i64;
    -(0x7fff_ffff - 40) <= num * (p - 5) && num * (p + 201) <= 0x7fff_ffff - 40
}

/// Settles whether the move completed a hand (`resolve`). The function panics where
/// `settlement_defined` fails (an `expect` on scoring a hand beyond the limits, or an
/// overflow of the score arithmetic). Where a next season follows the end of this one, it
/// begins with the choice of who moves first (`beginning_of_season`).
#[verifier::external_body]
pub(crate) fn resolve(s: &HandNotResolved, config: RuleSet) -> (r: HandResolved)
    requires
        settlement_defined(s@),
    ensures
        r@ == spec_resolve(s@, config),
        r@ matches HandResolvedView::HandExists { if_taxot: IfTaxotView::NextSeason(p), .. } ==> p is WhoGoesFirst,
{
    let raw = fst::resolve::<CetkaikNaive>(&hand_not_resolved_to_naive(s).0, config_to_naive(config));
    hand_resolved_from_naive(NaiveHandResolved(raw))
}

/// The score of the hands that the pieces make (`calculate_hands_and_score_from_pieces`).
/// The crate refuses a list with more pieces of a kind than the game has; otherwise the
/// score is the sum, over the distinct hands made, of each hand's value. The nineteen hands
/// are worth between 3 and 52 each and 201 together, so the sum lies between 0 and 201.
#[verifier::external_body]
pub(crate) fn hand_score(pieces: &Vec<NonTamPiece>) -> (r: Option<i32>)
    ensures
        r is Some <==> within_piece_limits(pieces@),
        r matches Some(score) ==> score == spec_hand_score(pieces@) && 0 <= score <= 201,
{
    calculate_hands_and_score_from_pieces(&pieces_to_naive(pieces)).ok().map(|a| a.score)
}

/// What a cast of the sticks can give: `Water` fails when 0, 1 or 2 of the five sticks show
/// their face and succeeds on 3, 4 or 5; `Sticks` gives the value for the number cast; deciding who goes
/// first casts no stick.
pub open spec fn cast_gives<V>(p: Chance<V>, t: V, ciurl: Option<usize>) -> bool {
    match p {
        Chance::Pure(x) => t == x && ciurl is None,
        Chance::Water { failure, success } => ciurl matches Some(n) && ((n <= 2 && t == failure) || (3
            <= n <= 5 && t == success)),
        Chance::Sticks { s0, s1, s2, s3, s4, s5 } => ciurl matches Some(n) && ((n == 0 && t == s0) || (n
            == 1 && t == s1) || (n == 2 && t == s2) || (n == 3 && t == s3) || (n == 4 && t == s4) || (n
            == 5 && t == s5)),
        Chance::WhoGoesFirst { ia_first, a_first } => ciurl is None && (t == ia_first || t == a_first),
    }
}

/// The values that a cast of the sticks can give, whatever number of sticks shows.
pub open spec fn may_give<V>(p: Chance<V>, t: V) -> bool {
    match p {
        Chance::Pure(x) => t == x,
        Chance::Water { failure, success } => t == failure || t == success,
        Chance::Sticks { s0, s1, s2, s3, s4, s5 } => t == s0 || t == s1 || t == s2 || t == s3 || t
            == s4 || t == s5,
        Chance::WhoGoesFirst { ia_first, a_first } => t == ia_first || t == a_first,
    }
}

/// Casts the sticks (`Probabilistic::choose`, which draws from the thread's random
/// generator): one of the values, with the number of sticks cast where there was a cast.
/// Which value comes out is left open.
#[verifier::external_body]
pub(crate) fn cast<T: View + Clone>(p: Chance<T>) -> (r: (T, Option<usize>))
    ensures
        cast_gives(p@, r.0@, r.1),
{
    probabilistic_to_naive(p, |t| t).choose()
}

/// The standard arrangement of the board at the start of a game
/// (`yhuap_initial_board` of `cetkaik_naive_representation`): Tam2 in the centre and each
/// side's 24 pieces on its three back rows.
pub open spec fn initial_piece_at(c: Square) -> Option<BoardPiece> {
    match (c.0, c.1) {
        (Row::O, Column::Z) => Some(BoardPiece::Tam2),
        (Row::AI, Column::Z) => Some(BoardPiece::NonTam2Piece { color: PieceColor::Huok2, prof: Prof::Nuak1, side: Side::IASide }),
        (Row::AI, Column::K) => Some(BoardPiece::NonTam2Piece { color: PieceColor::Huok2, prof: Prof::Kauk2, side: Side::IASide }),
        (Row::AI, Column::N) => Some(BoardPiece::NonTam2Piece { color: PieceColor::Huok2, prof: Prof::Kauk2, side: Side::IASide }),
        (Row::AI, Column::C) => Some(BoardPiece::NonTam2Piece { color: PieceColor::Huok2, prof: Prof::Kauk2, side: Side::IASide }),
        (Row::AI, Column::P) => Some(BoardPiece::NonTam2Piece { color: PieceColor::Huok2, prof: Prof::Kauk2, side: Side::IASide }),
        (Row::AI, Column::L) => Some(BoardPiece::NonTam2Piece { color: PieceColor::Kok1, prof: Prof::Kauk2, side: Side::IASide }),
        (Row::AI, Column::T) => Some(BoardPiece::NonTam2Piece { color: PieceColor::Kok1, prof: Prof::Kauk2, side: Side::IASide }),
        (Row::AI, Column::X) => Some(BoardPiece::NonTam2Piece { color: PieceColor::Kok1, prof: Prof::Kauk2, side: Side::IASide }),
        (Row::AI, Column::M) => Some(BoardPiece::NonTam2Piece { color: PieceColor::Kok1, prof: Prof::Kauk2, side: Side::IASide }),
        (Row::AU, Column::L) => Some(BoardPiece::NonTam2Piece { color: PieceColor::Huok2, prof: Prof::Gua2, side: Side::IASide }),
        (Row::AU, Column::M) => Some(BoardPiece::NonTam2Piece { color: PieceColor::Kok1, prof: Prof::Gua2, side: Side::IASide }),
        (Row::IA, Column::C) => Some(BoardPiece::NonTam2Piece { color: PieceColor::Huok2, prof: Prof::Kaun1, side: Side::IASide }),
        (Row::IA, Column::N) => Some(BoardPiece::NonTam2Piece { color: PieceColor::Kok1, prof: Prof::Kaun1, side: Side::IASide }),
        (Row::AU, Column::T) => Some(BoardPiece::NonTam2Piece { color: PieceColor::Huok2, prof: Prof::Dau2, side: Side::IASide }),
        (Row::AU, Column::X) => Some(BoardPiece::NonTam2Piece { color: PieceColor::Kok1, prof: Prof::Dau2, side: Side::IASide }),
        (Row::IA, Column::M) => Some(BoardPiece::NonTam2Piece { color: PieceColor::Huok2, prof: Prof::Maun1, side: Side::IASide }),
        (Row::IA, Column::L) => Some(BoardPiece::NonTam2Piece { color: PieceColor::Kok1, prof: Prof::Maun1, side: Side::IASide }),
        (Row::IA, Column::P) => Some(BoardPiece::NonTam2Piece { color: PieceColor::Huok2, prof: Prof::Kua2, side: Side::IASide }),
        (Row::AU, Column::P) => Some(BoardPiece::NonTam2Piece { color: PieceColor::Kok1, prof: Prof::Tuk2, side: Side::IASide }),
        (Row::IA, Column::X) => Some(BoardPiece::NonTam2Piece { color: PieceColor::Huok2, prof: Prof::Uai1, side: Side::IASide }),
        (Row::IA, Column::T) => Some(BoardPiece::NonTam2Piece { color: PieceColor::Kok1, prof: Prof::Uai1, side: Side::IASide }),
        (Row::IA, Column::Z) => Some(BoardPiece::NonTam2Piece { color: PieceColor::Huok2, prof: Prof::Io, side: Side::IASide }),
        (Row::IA, Column::K) => Some(BoardPiece::NonTam2Piece { color: PieceColor::Kok1, prof: Prof::Kua2, side: Side::IASide }),
        (Row::AU, Column::K) => Some(BoardPiece::NonTam2Piece { color: PieceColor::Huok2, prof: Prof::Tuk2, side: Side::IASide }),
        (Row::I, Column::Z) => Some(BoardPiece::NonTam2Piece { color: PieceColor::Kok1, prof: Prof::Nuak1, side: Side::ASide }),
        (Row::I, Column::K) => Some(BoardPiece::NonTam2Piece { color: PieceColor::Huok2, prof: Prof::Kauk2, side: Side::ASide }),
        (Row::I, Column::N) => Some(BoardPiece::NonTam2Piece { color: PieceColor::Huok2, prof: Prof::Kauk2, side: Side::ASide }),
        (Row::I, Column::C) => Some(BoardPiece::NonTam2Piece { color: PieceColor::Huok2, prof: Prof::Kauk2, side: Side::ASide }),
        (Row::I, Column::P) => Some(BoardPiece::NonTam2Piece { color: PieceColor::Huok2, prof: Prof::Kauk2, side: Side::ASide }),
        (Row::I, Column::L) => Some(BoardPiece::NonTam2Piece { color: PieceColor::Kok1, prof: Prof::Kauk2, side: Side::ASide }),
        (Row::I, Column::T) => Some(BoardPiece::NonTam2Piece { color: PieceColor::Kok1, prof: Prof::Kauk2, side: Side::ASide }),
        (Row::I, Column::X) => Some(BoardPiece::NonTam2Piece { color: PieceColor::Kok1, prof: Prof::Kauk2, side: Side::ASide }),
        (Row::I, Column::M) => Some(BoardPiece::NonTam2Piece { color: PieceColor::Kok1, prof: Prof::Kauk2, side: Side::ASide }),
        (Row::E, Column::M) => Some(BoardPiece::NonTam2Piece { color: PieceColor::Huok2, prof: Prof::Gua2, side: Side::ASide }),
        (Row::E, Column::L) => Some(BoardPiece::NonTam2Piece { color: PieceColor::Kok1, prof: Prof::Gua2, side: Side::ASide }),
        (Row::A, Column::N) => Some(BoardPiece::NonTam2Piece { color: PieceColor::Huok2, prof: Prof::Kaun1, side: Side::ASide }),
        (Row::A, Column::C) => Some(BoardPiece::NonTam2Piece { color: PieceColor::Kok1, prof: Prof::Kaun1, side: Side::ASide }),
        (Row::E, Column::X) => Some(BoardPiece::NonTam2Piece { color: PieceColor::Huok2, prof: Prof::Dau2, side: Side::ASide }),
        (Row::E, Column::T) => Some(BoardPiece::NonTam2Piece { color: PieceColor::Kok1, prof: Prof::Dau2, side: Side::ASide }),
        (Row::A, Column::L) => Some(BoardPiece::NonTam2Piece { color: PieceColor::Huok2, prof: Prof::Maun1, side: Side::ASide }),
        (Row::A, Column::M) => Some(BoardPiece::NonTam2Piece { color: PieceColor::Kok1, prof: Prof::Maun1, side: Side::ASide }),
        (Row::A, Column::K) => Some(BoardPiece::NonTam2Piece { color: PieceColor::Huok2, prof: Prof::Kua2, side: Side::ASide }),
        (Row::E, Column::P) => Some(BoardPiece::NonTam2Piece { color: PieceColor::Huok2, prof: Prof::Tuk2, side: Side::ASide }),
        (Row::A, Column::P) => Some(BoardPiece::NonTam2Piece { color: PieceColor::Kok1, prof: Prof::Kua2, side: Side::ASide }),
        (Row::E, Column::K) => Some(BoardPiece::NonTam2Piece { color: PieceColor::Kok1, prof: Prof::Tuk2, side: Side::ASide }),
        (Row::A, Column::T) => Some(BoardPiece::NonTam2Piece { color: PieceColor::Huok2, prof: Prof::Uai1, side: Side::ASide }),
        (Row::A, Column::X) => Some(BoardPiece::NonTam2Piece { color: PieceColor::Kok1, prof: Prof::Uai1, side: Side::ASide }),
        (Row::A, Column::Z) => Some(BoardPiece::NonTam2Piece { color: PieceColor::Kok1, prof: Prof::Io, side: Side::ASide }),
        _ => None,
    }
}

/// Two states that begin a game: the first with the IA side to move, the second with the
/// A side to move; otherwise the same position, the standard arrangement
/// (`initial_piece_at`) with nothing in hand, in spring, at 20 points each and rate 1,
/// Tam2 not moved yet.
pub open spec fn game_start(ia_first: GroundStateView, a_first: GroundStateView) -> bool {
    &&& ia_first.whose_turn == Side::IASide
    &&& a_first.whose_turn == Side::ASide
    &&& ia_first.f == a_first.f
    &&& forall|c: Square| #[trigger] ia_first.f.at(c) == initial_piece_at(c)
    &&& ia_first.f.a_side_hop1zuo1.len() == 0
    &&& ia_first.f.ia_side_hop1zuo1.len() == 0
    &&& ia_first.season == SeasonName::Iei2 && a_first.season == SeasonName::Iei2
    &&& ia_first.rate == Stake::X1 && a_first.rate == Stake::X1
    &&& ia_first.scores.ia_score() == 20 && a_first.scores.ia_score() == 20
    &&& !ia_first.tam_has_moved_previously && !a_first.tam_has_moved_previously
}

/// A choice of who moves first between two states that begin a game.
pub open spec fn starts_game(p: Chance<GroundStateView>) -> bool {
    p matches Chance::WhoGoesFirst { ia_first, a_first } && game_start(ia_first, a_first)
}

/// The first state of a game (`initial_state`): the standard arrangement, either player to
/// move first.
#[verifier::external_body]
pub(crate) fn initial_state() -> (r: Chance<GroundState>)
    ensures
        starts_game(r@),
{
    let raw = fst::initial_state::<CetkaikNaive>();
    probabilistic_from_naive(raw, |g| ground_from_naive(NaiveGround(g)))
}

} // verus!

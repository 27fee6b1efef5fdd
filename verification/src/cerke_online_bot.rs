//! The tactics of the Cerke Online computer player: take a winning capture, build a
//! shaman on tam2 hue that the opponent cannot easily take, and otherwise avoid pointless
//! moves.
use crate::model::{
    distance, hop1zuo1_of, is_tam_hue_absolute, is_water, spec_distance, spec_is_tam_hue,
    spec_is_water, opponent, BoardPiece, NonTamPiece, Position, PositionView, Prof, Side, Square,
};
use crate::moves::{to_message, AfterHalfAcceptance, MoveMessage, NormalMove, PureMove};
use crate::rules::{
    apply_after_half_acceptance, apply_inf_after_step, apply_normal_move, excited_after,
    hand_score, inf_after_step_accepted, moves_not_from_hop1zuo1, resolve, settlement_check,
    settlement_defined, spec_after_half_acceptance_outcome, spec_hand_score,
    spec_moves_not_from_hop1zuo1, spec_normal_move_outcome, spec_resolve, within_piece_limits,
};
use crate::random::{pick_with_thread_rng, shuffle_with_thread_rng};
use crate::state::{
    option_view, Chance, GroundState, GroundStateView, HandNotResolved, HandNotResolvedView,
    HandResolved, HandResolvedView, RuleSet,
};
use vstd::prelude::*;

verus! {

/// Whether a move needs neither a water-entry cast nor a stepping cast of more than
/// `ciurl_threshold`.
pub open spec fn spec_likely(cand: MoveMessage, ciurl_threshold: int) -> bool {
    match cand {
        MoveMessage::InfAfterStep(m) => spec_distance(m.planned_direction, m.step) <= ciurl_threshold
            && !spec_is_water(m.planned_direction),
        MoveMessage::NormalMove(NormalMove::NonTamMoveSrcDst { dest, .. }) => !spec_is_water(dest),
        MoveMessage::NormalMove(NormalMove::NonTamMoveSrcStepDstFinite { dest, .. }) => !spec_is_water(
            dest,
        ),
        MoveMessage::NormalMove(_) => true,
    }
}

/// Whether a move needs neither a water-entry cast nor a stepping cast of more than
/// `ciurl_threshold` (see `spec_likely`).
pub fn likely(cand: &MoveMessage, ciurl_threshold: i32) -> (b: bool)
    ensures
        b == spec_likely(*cand, ciurl_threshold as int),
{
    match cand {
        MoveMessage::InfAfterStep(m) => distance(m.planned_direction, m.step) <= ciurl_threshold && !is_water(
            m.planned_direction,
        ),
        MoveMessage::NormalMove(nm) => match nm {
            NormalMove::NonTamMoveFromHopZuo { .. }
            | NormalMove::TamMoveNoStep { .. }
            | NormalMove::TamMoveStepsDuringFormer { .. }
            | NormalMove::TamMoveStepsDuringLatter { .. } => true,
            NormalMove::NonTamMoveSrcDst { dest, .. }
            | NormalMove::NonTamMoveSrcStepDstFinite { dest, .. } => !is_water(*dest),
        },
    }
}

/// A move is "likely to succeed" when it needs no water-entry cast and at most a stepping
/// cast of 3.
pub fn is_likely_to_succeed(cand: &MoveMessage) -> (b: bool)
    ensures
        b == spec_likely(*cand, 3),
{
    likely(cand, 3)
}

/// A move is "very likely to succeed" when it needs no water-entry cast and at most a
/// stepping cast of 2.
pub fn is_very_likely_to_succeed(cand: &MoveMessage) -> (b: bool)
    ensures
        b == spec_likely(*cand, 2),
{
    likely(cand, 2)
}

/// Why the computer player chose its move.
#[derive(Clone, Copy, PartialEq, Eq, Structural, Debug)]
pub enum TacticsKey {
    VictoryAlmostCertain,
    StrengthenedShaman,
    FreeLunch,
    AvoidDefeat,
    LossAlmostCertain,
    Neutral,
}

/// The square that a move of a piece on the board ends on, when it leaves its square.
pub open spec fn landing_square(cand: PureMove) -> Option<Square> {
    match cand {
        PureMove::InfAfterStep { src, planned_direction, .. } => if planned_direction == src {
            None
        } else {
            Some(planned_direction)
        },
        PureMove::NonTamMoveSrcDst { src, dest, .. } => if dest == src {
            None
        } else {
            Some(dest)
        },
        PureMove::NonTamMoveSrcStepDstFinite { src, dest, .. } => if dest == src {
            None
        } else {
            Some(dest)
        },
        _ => None,
    }
}

/// Whether the victory check can be made: the move does not land on Tam2, and the mover's
/// hand, before and after taking the piece it lands on, holds no kind of piece more often
/// than the game has it.
pub open spec fn victory_check_defined(cand: PureMove, s: GroundStateView) -> bool {
    match landing_square(cand) {
        None => true,
        Some(t) => match s.f.at(t) {
            None => true,
            Some(BoardPiece::Tam2) => false,
            Some(BoardPiece::NonTam2Piece { color, prof, .. }) => {
                let hop = s.f.hop1zuo1(s.whose_turn);
                within_piece_limits(hop) && within_piece_limits(hop.push(NonTamPiece { color, prof }))
            },
        },
    }
}

/// Whether a move takes a piece whose addition to the mover's hand changes the score of
/// the hands it makes: the move completes a hand.
pub open spec fn spec_is_victorious_hand(cand: PureMove, s: GroundStateView) -> bool {
    match landing_square(cand) {
        None => false,
        Some(t) => match s.f.at(t) {
            Some(BoardPiece::NonTam2Piece { color, prof, .. }) => {
                let hop = s.f.hop1zuo1(s.whose_turn);
                spec_hand_score(hop.push(NonTamPiece { color, prof })) != spec_hand_score(hop)
            },
            _ => false,
        },
    }
}

fn is_victorious_hand(cand: PureMove, game_state: &GroundState) -> (b: bool)
    requires
        victory_check_defined(cand, game_state@),
    ensures
        b == spec_is_victorious_hand(cand, game_state@),
{
    let target = match cand {
        PureMove::NonTamMoveFromHopZuo { .. }
        | PureMove::TamMoveNoStep { .. }
        | PureMove::TamMoveStepsDuringFormer { .. }
        | PureMove::TamMoveStepsDuringLatter { .. } => return false,
        PureMove::InfAfterStep { src, planned_direction, .. } => {
            if planned_direction == src {
                // self-occlusion
                return false;
            }
            planned_direction
        },
        PureMove::NonTamMoveSrcDst { src, dest, .. }
        | PureMove::NonTamMoveSrcStepDstFinite { src, dest, .. } => {
            if dest == src {
                // self-occlusion
                return false;
            }
            dest
        },
    };
    match game_state.f.peek(target) {
        // cannot win if no piece is taken
        None => false,
        Some(BoardPiece::Tam2) => false,
        Some(BoardPiece::NonTam2Piece { color, prof, .. }) => {
            let mut hop1zuo1 = hop1zuo1_of(game_state.whose_turn, &game_state.f);
            let old_calc = hand_score(&hop1zuo1);
            hop1zuo1.push(NonTamPiece { color, prof });
            let new_calc = hand_score(&hop1zuo1);
            match (old_calc, new_calc) {
                (Some(old_score), Some(new_score)) => new_score != old_score,
                _ => false,
            }
        },
    }
}

/// The value of a cast where every cast goes the mover's way: the water entry succeeds and
/// all five sticks of a stepping cast show up. Deciding who goes first has no such value.
pub open spec fn lucky<T>(p: Chance<T>) -> Option<T> {
    match p {
        Chance::Pure(k) => Some(k),
        Chance::Water { success, .. } => Some(success),
        Chance::Sticks { s5, .. } => Some(s5),
        Chance::WhoGoesFirst { .. } => None,
    }
}

fn every_luck_works<T: View>(p: Chance<T>) -> (r: T)
    requires
        !(p is WhoGoesFirst),
    ensures
        lucky(p) == Some(r),
        lucky(p@) == Some(r@),
{
    match p {
        Chance::Pure(k) => k,
        Chance::Water { failure, success } => success,
        Chance::Sticks { s0, s1, s2, s3, s4, s5 } => s5,
        Chance::WhoGoesFirst { ia_first, a_first } => ia_first,
    }
}

/// A settled outcome: `None` where the rule engine cannot settle it.
pub open spec fn settle_outcome(config: RuleSet, k: HandNotResolvedView) -> Option<HandResolvedView> {
    if settlement_defined(k) {
        Some(spec_resolve(k, config))
    } else {
        None
    }
}

/// What a chance of outcomes leads to when every cast goes the mover's way, once settled.
pub open spec fn lucky_settled(config: RuleSet, p: Option<Chance<HandNotResolvedView>>) -> Option<HandResolvedView> {
    match p {
        None => None,
        Some(p) => match lucky(p) {
            None => None,
            Some(k) => settle_outcome(config, k),
        },
    }
}

/// What a move leads to when every cast goes the mover's way (the water entry succeeds;
/// a stepping cast shows all five sticks and the piece goes where it planned), once the
/// hand is settled. `None` where the rule engine refuses the move or that destination,
/// answers with a choice of who goes first, or cannot settle the outcome.
pub open spec fn spec_lucky_resolution(config: RuleSet, cand: PureMove, s: GroundStateView) -> Option<HandResolvedView> {
    match to_message(cand) {
        MoveMessage::NormalMove(msg) => lucky_settled(config, spec_normal_move_outcome(s, msg, config)),
        MoveMessage::InfAfterStep(i) => if !inf_after_step_accepted(s, i, config) {
            None
        } else {
            lucky_settled(
                config,
                spec_after_half_acceptance_outcome(
                    excited_after(s, i, 5),
                    AfterHalfAcceptance { dest: Some(i.planned_direction) },
                    config,
                ),
            )
        },
    }
}

fn settle_lucky(config: RuleSet, p: Option<Chance<HandNotResolved>>) -> (r: Option<HandResolved>)
    ensures
        option_view(r) == lucky_settled(config, option_view(p)),
{
    match p {
        None => None,
        Some(p) => {
            if let Chance::WhoGoesFirst { .. } = p {
                None
            } else {
                let k = every_luck_works(p);
                if !settlement_check(&k) {
                    return None;
                }
                Some(resolve(&k, config))
            }
        },
    }
}

/// Plays a move as if every cast went the mover's way (see `spec_lucky_resolution`), and
/// settles the hand. A move that the rule engine refuses has no such outcome: the answer is
/// then `None`, as it is where the engine refuses the destination, answers with a choice
/// of who goes first, or cannot settle the outcome.
pub fn apply_move_assuming_every_luck_works(config: RuleSet, cand: &PureMove, old_state: &GroundState) -> (r: Option<HandResolved>)
    ensures
        option_view(r) == spec_lucky_resolution(config, *cand, old_state@),
        (to_message(*cand) matches MoveMessage::NormalMove(n) && spec_normal_move_outcome(old_state@, n, config) is None) ==> r is None,
        (to_message(*cand) matches MoveMessage::InfAfterStep(i) && !inf_after_step_accepted(old_state@, i, config)) ==> r is None,
{
    match cand.to_message() {
        MoveMessage::NormalMove(msg) => settle_lucky(config, apply_normal_move(old_state, msg, config)),
        MoveMessage::InfAfterStep(msg) => match apply_inf_after_step(old_state, msg, config) {
            None => None,
            Some(p) => {
                let e = every_luck_works(p);
                let dest = AfterHalfAcceptance { dest: Some(msg.planned_direction) };
                settle_lucky(config, apply_after_half_acceptance(&e, dest, config))
            },
        },
    }
}

/// Whether a square is tam2 hue, Tam2's own square not counted.
pub open spec fn hue_at(s: GroundStateView, c: Square) -> bool {
    spec_is_tam_hue(s.f, c, false)
}

/// Whether the shaman check can be made: a move from the board does not start from Tam2,
/// and a stepping infinite movement starts from a piece.
pub open spec fn gak_tuk_defined(cand: PureMove, s: GroundStateView) -> bool {
    match cand {
        PureMove::NonTamMoveSrcDst { src, .. } => s.f.at(src) != Some(BoardPiece::Tam2),
        PureMove::NonTamMoveSrcStepDstFinite { src, .. } => s.f.at(src) != Some(BoardPiece::Tam2),
        PureMove::InfAfterStep { src, .. } => s.f.at(src) is Some && s.f.at(src) != Some(
            BoardPiece::Tam2,
        ),
        _ => true,
    }
}

/// Where a move newly puts a shaman (Tuk2) on tam2 hue: a shaman dropped from hand onto tam2
/// hue, or a shaman moved from a square that is not tam2 hue to one that is.
pub open spec fn spec_gak_tuk(cand: PureMove, s: GroundStateView) -> Option<Square> {
    match cand {
        PureMove::NonTamMoveFromHopZuo { prof, dest, .. } => if prof == Prof::Tuk2 && hue_at(s, dest) {
            Some(dest)
        } else {
            None
        },
        PureMove::NonTamMoveSrcDst { src, dest, .. } => match s.f.at(src) {
            Some(BoardPiece::NonTam2Piece { prof, .. }) => if prof == Prof::Tuk2 && hue_at(s, dest)
                && !hue_at(s, src) {
                Some(dest)
            } else {
                None
            },
            _ => None,
        },
        PureMove::NonTamMoveSrcStepDstFinite { src, dest, .. } => match s.f.at(src) {
            Some(BoardPiece::NonTam2Piece { prof, .. }) => if prof == Prof::Tuk2 && hue_at(s, dest)
                && !hue_at(s, src) {
                Some(dest)
            } else {
                None
            },
            _ => None,
        },
        PureMove::InfAfterStep { src, planned_direction, .. } => match s.f.at(src) {
            Some(BoardPiece::NonTam2Piece { prof, .. }) => if prof == Prof::Tuk2 && hue_at(
                s,
                planned_direction,
            ) && !hue_at(s, src) {
                Some(planned_direction)
            } else {
                None
            },
            _ => None,
        },
        _ => None,
    }
}

fn gak_tuk_newly_generated(cand: &PureMove, pure_game_state: &GroundState) -> (r: Option<Square>)
    requires
        gak_tuk_defined(*cand, pure_game_state@),
    ensures
        r == spec_gak_tuk(*cand, pure_game_state@),
{
    let f = &pure_game_state.f;
    match cand {
        PureMove::TamMoveNoStep { .. }
        | PureMove::TamMoveStepsDuringFormer { .. }
        | PureMove::TamMoveStepsDuringLatter { .. } => None,
        PureMove::NonTamMoveFromHopZuo { prof, dest, .. } => {
            if *prof != Prof::Tuk2 {
                return None;
            }
            if is_tam_hue_absolute(*dest, f, false) {
                return Some(*dest);
            }
            None
        },
        PureMove::NonTamMoveSrcDst { src, dest, .. }
        | PureMove::NonTamMoveSrcStepDstFinite { src, dest, .. } => match f.peek(*src) {
            Some(BoardPiece::NonTam2Piece { prof, .. }) => {
                if prof != Prof::Tuk2 {
                    return None;
                }
                // no shaman on tam2 hue afterwards, or it was there already
                if !is_tam_hue_absolute(*dest, f, false) || is_tam_hue_absolute(*src, f, false) {
                    return None;
                }
                Some(*dest)
            },
            _ => None,
        },
        PureMove::InfAfterStep { src, planned_direction, .. } => match f.peek(*src) {
            Some(BoardPiece::NonTam2Piece { prof, .. }) => {
                if prof != Prof::Tuk2 {
                    return None;
                }
                if !is_tam_hue_absolute(*planned_direction, f, false) || is_tam_hue_absolute(
                    *src,
                    f,
                    false,
                ) {
                    return None;
                }
                Some(*planned_direction)
            },
            _ => None,
        },
    }
}

/// Whether a move lands on a square: where a stepping infinite movement plans to go, or
/// where a move of a piece on the board ends.
pub open spec fn lands_on(m: MoveMessage, sq: Square) -> bool {
    match m {
        MoveMessage::InfAfterStep(c) => c.planned_direction == sq,
        MoveMessage::NormalMove(NormalMove::NonTamMoveSrcDst { dest, .. }) => dest == sq,
        MoveMessage::NormalMove(NormalMove::NonTamMoveSrcStepDstFinite { dest, .. }) => dest == sq,
        MoveMessage::NormalMove(_) => false,
    }
}

/// A reply that lands on a square and, where `likely_only`, is likely to succeed.
pub open spec fn reply_lands(m: PureMove, sq: Square, likely_only: bool) -> bool {
    (!likely_only || spec_likely(to_message(m), 3)) && lands_on(to_message(m), sq)
}

/// The moves of pieces on the board of `f` that `cetkaik_yhuap_move_candidates` lists for
/// the opponent of `mover`.
pub open spec fn replies(config: RuleSet, mover: Side, f: PositionView) -> Seq<PureMove> {
    spec_moves_not_from_hop1zuo1(false, config.spec_tam_itself_is_tam_hue(), opponent(mover), f)
}

/// Whether the opponent of `mover` has a reply on the board `f` that lands on `sq` (and,
/// where `likely_only`, is likely to succeed).
pub open spec fn reply_reaches(config: RuleSet, mover: Side, f: PositionView, sq: Square, likely_only: bool) -> bool {
    exists|i: int| 0 <= i < replies(config, mover, f).len() && reply_lands(#[trigger] replies(config, mover, f)[i], sq, likely_only)
}

/// The state that a settled hand leads to if the game goes on; `None` where the game ends.
pub open spec fn continuation(r: HandResolvedView) -> Option<GroundStateView> {
    match r {
        HandResolvedView::NeitherTymokNorTaxot(k) => Some(k),
        HandResolvedView::HandExists { if_tymok, .. } => Some(if_tymok),
        HandResolvedView::GameEndsWithoutTymokTaxot(_) => None,
    }
}

/// Whether, after a move played as if every cast went the mover's way, the opponent has no
/// reply that lands on `sq` (likely to succeed, where `likely_only`). False where the move
/// cannot be played so (nothing is then put on `sq`) and where the game ends with it.
pub open spec fn unreachable_after(config: RuleSet, cand: PureMove, s: GroundStateView, sq: Square, likely_only: bool) -> bool {
    match spec_lucky_resolution(config, cand, s) {
        None => false,
        Some(r) => match continuation(r) {
            None => false,
            Some(next) => !reply_reaches(config, s.whose_turn, next.f, sq, likely_only),
        },
    }
}

/// Whether a move newly puts a shaman on tam2 hue that cannot easily be taken: after the
/// move (every cast going the mover's way), no move of a piece on the board that
/// `cetkaik_yhuap_move_candidates` lists for the opponent on the new board is likely to
/// succeed and lands on the shaman. `None` only where the check cannot be made: the move
/// starts from Tam2, or a stepping infinite movement starts from an empty square (see
/// `gak_tuk_defined`).
pub open spec fn spec_safe_gak_tuk(config: RuleSet, cand: PureMove, s: GroundStateView) -> Option<bool> {
    if !gak_tuk_defined(cand, s) {
        None
    } else {
        match spec_gak_tuk(cand, s) {
            None => Some(false),
            Some(tuk) => Some(unreachable_after(config, cand, s, tuk, true)),
        }
    }
}

fn lands_on_square(m: MoveMessage, sq: Square) -> (b: bool)
    ensures
        b == lands_on(m, sq),
{
    match m {
        MoveMessage::InfAfterStep(c) => c.planned_direction == sq,
        MoveMessage::NormalMove(
            NormalMove::NonTamMoveFromHopZuo { .. }
            | NormalMove::TamMoveNoStep { .. }
            | NormalMove::TamMoveStepsDuringFormer { .. }
            | NormalMove::TamMoveStepsDuringLatter { .. },
        ) => false,
        MoveMessage::NormalMove(
            NormalMove::NonTamMoveSrcDst { dest, .. }
            | NormalMove::NonTamMoveSrcStepDstFinite { dest, .. },
        ) => sq == dest,
    }
}

fn reply_reaches_check(config: RuleSet, mover: Side, f: &Position, sq: Square, likely_only: bool) -> (b: bool)
    ensures
        b == reply_reaches(config, mover, f@, sq, likely_only),
{
    let other = match mover {
        Side::IASide => Side::ASide,
        Side::ASide => Side::IASide,
    };
    let candidates = moves_not_from_hop1zuo1(false, config.tam_itself_is_tam_hue(), other, f);
    let ghost rs = replies(config, mover, f@);
    assert(candidates@ == rs);
    let mut i: usize = 0;
    while i < candidates.len()
        invariant
            i <= candidates@.len(),
            candidates@ == rs,
            rs == replies(config, mover, f@),
            forall|j: int| 0 <= j < i ==> !reply_lands(#[trigger] rs[j], sq, likely_only),
        decreases candidates@.len() - i,
    {
        let c = candidates[i];
        let m = c.to_message();
        let likely_enough = !likely_only || is_likely_to_succeed(&m);
        if likely_enough && lands_on_square(m, sq) {
            assert(reply_lands(replies(config, mover, f@)[i as int], sq, likely_only));
            return true;
        }
        i += 1;
    }
    false
}

fn unreachable_after_check(config: RuleSet, cand: &PureMove, s: &GroundState, sq: Square, likely_only: bool) -> (r: bool)
    ensures
        r == unreachable_after(config, *cand, s@, sq, likely_only),
{
    let next = match apply_move_assuming_every_luck_works(config, cand, s) {
        None => return false,
        Some(HandResolved::NeitherTymokNorTaxot(k)) => k,
        Some(HandResolved::HandExists { if_tymok, .. }) => if_tymok,
        // the game is over either way
        Some(HandResolved::GameEndsWithoutTymokTaxot(_)) => return false,
    };
    !reply_reaches_check(config, s.whose_turn, &next.f, sq, likely_only)
}

/// Checks whether a move newly puts a shaman on tam2 hue that cannot easily be taken
/// (see `spec_safe_gak_tuk`); `None` where that check cannot be made.
pub fn is_safe_gak_tuk_newly_generated(config: RuleSet, cand: &PureMove, pure_game_state: &GroundState) -> (r: Option<bool>)
    ensures
        r == spec_safe_gak_tuk(config, *cand, pure_game_state@),
{
    if !gak_tuk_check_possible(cand, pure_game_state) {
        return None;
    }
    match gak_tuk_newly_generated(cand, pure_game_state) {
        None => Some(false),
        Some(tuk_coord) => Some(unreachable_after_check(config, cand, pure_game_state, tuk_coord, true)),
    }
}

fn gak_tuk_check_possible(cand: &PureMove, s: &GroundState) -> (b: bool)
    ensures
        b == gak_tuk_defined(*cand, s@),
{
    match cand {
        PureMove::NonTamMoveSrcDst { src, .. }
        | PureMove::NonTamMoveSrcStepDstFinite { src, .. } => s.f.peek(*src) != Some(BoardPiece::Tam2),
        PureMove::InfAfterStep { src, .. } => match s.f.peek(*src) {
            Some(BoardPiece::NonTam2Piece { .. }) => true,
            _ => false,
        },
        _ => true,
    }
}

/// A move of the same piece to the same square without stepping.
pub open spec fn is_plain_move_between(m: PureMove, src: Square, dest: Square) -> bool {
    m matches PureMove::NonTamMoveSrcDst { src: s2, dest: d2, .. } && s2 == src && d2 == dest
}

/// A move of the same piece to the same square with a finite movement, stepping or not.
pub open spec fn is_finite_move_between(m: PureMove, src: Square, dest: Square) -> bool {
    ||| is_plain_move_between(m, src, dest)
    ||| (m matches PureMove::NonTamMoveSrcStepDstFinite { src: s2, dest: d2, .. } && s2 == src && d2
        == dest)
}

/// Whether the computer player considers a move at all, among the moves `raw`:
/// a move must leave its square; it should not step where a finite movement (for an
/// infinite one) or a movement without stepping (for a finite one) reaches the same square;
/// a stepping infinite movement cannot go further than five squares; and Tam2 is not moved
/// right after the opponent moved it.
pub open spec fn worth_considering(raw: Seq<PureMove>, c: PureMove, opponent_has_just_moved_tam: bool) -> bool {
    match c {
        PureMove::TamMoveNoStep { .. }
        | PureMove::TamMoveStepsDuringFormer { .. }
        | PureMove::TamMoveStepsDuringLatter { .. } => !opponent_has_just_moved_tam,
        PureMove::InfAfterStep { src, step, planned_direction } => {
            &&& planned_direction != src
            &&& !exists|k: int| 0 <= k < raw.len() && is_finite_move_between(#[trigger] raw[k], src, planned_direction)
            &&& spec_distance(planned_direction, step) <= 5
        },
        PureMove::NonTamMoveFromHopZuo { .. } => true,
        PureMove::NonTamMoveSrcDst { src, dest, .. } => src != dest,
        PureMove::NonTamMoveSrcStepDstFinite { src, dest, .. } => {
            &&& src != dest
            &&& !exists|k: int| 0 <= k < raw.len() && is_plain_move_between(#[trigger] raw[k], src, dest)
        },
    }
}

pub open spec fn worth_considering_pred(raw: Seq<PureMove>, opponent_has_just_moved_tam: bool) -> spec_fn(PureMove) -> bool {
    |c: PureMove| worth_considering(raw, c, opponent_has_just_moved_tam)
}

fn has_finite_alternative(raw: &Vec<PureMove>, src: Square, dest: Square, stepping_too: bool) -> (b: bool)
    ensures
        b == exists|k: int| 0 <= k < raw@.len() && (if stepping_too {
            is_finite_move_between(#[trigger] raw@[k], src, dest)
        } else {
            is_plain_move_between(raw@[k], src, dest)
        }),
{
    let mut i: usize = 0;
    while i < raw.len()
        invariant
            i <= raw@.len(),
            forall|k: int| 0 <= k < i ==> !(if stepping_too {
                is_finite_move_between(#[trigger] raw@[k], src, dest)
            } else {
                is_plain_move_between(raw@[k], src, dest)
            }),
        decreases raw@.len() - i,
    {
        match raw[i] {
            PureMove::NonTamMoveSrcDst { src: s2, dest: d2, .. } => {
                if s2 == src && d2 == dest {
                    assert(is_plain_move_between(raw@[i as int], src, dest));
                    return true;
                }
            },
            PureMove::NonTamMoveSrcStepDstFinite { src: s2, dest: d2, .. } => {
                if stepping_too && s2 == src && d2 == dest {
                    assert(is_finite_move_between(raw@[i as int], src, dest));
                    return true;
                }
            },
            _ => {},
        }
        i += 1;
    }
    false
}

fn is_worth_considering(raw: &Vec<PureMove>, c: PureMove, opponent_has_just_moved_tam: bool) -> (b: bool)
    ensures
        b == worth_considering(raw@, c, opponent_has_just_moved_tam),
{
    match c {
        PureMove::TamMoveNoStep { .. }
        | PureMove::TamMoveStepsDuringFormer { .. }
        | PureMove::TamMoveStepsDuringLatter { .. } => {
            // kept so that they can be read, as when avoiding a loss, but not right after
            // the opponent moved Tam2
            !opponent_has_just_moved_tam
        },
        PureMove::InfAfterStep { src, step, planned_direction } => {
            // a move that starts and ends on the same square is pointless
            if planned_direction == src {
                return false;
            }
            // do not step where a finite movement reaches the same square
            if has_finite_alternative(raw, src, planned_direction, true) {
                return false;
            }
            // no flight of six squares or more under these rules
            if distance(planned_direction, step) > 5 {
                return false;
            }
            true
        },
        PureMove::NonTamMoveFromHopZuo { .. } => true,
        PureMove::NonTamMoveSrcDst { src, dest, .. } => src != dest,
        PureMove::NonTamMoveSrcStepDstFinite { src, dest, .. } => {
            if src == dest {
                return false;
            }
            !has_finite_alternative(raw, src, dest, false)
        },
    }
}

/// The moves, among `raw` and in its order, that the computer player considers at all
/// (see `worth_considering`).
pub fn worth_considering_candidates(raw: &Vec<PureMove>, opponent_has_just_moved_tam: bool) -> (r: Vec<PureMove>)
    ensures
        r@ == raw@.filter(worth_considering_pred(raw@, opponent_has_just_moved_tam)),
{
    let ghost pred = worth_considering_pred(raw@, opponent_has_just_moved_tam);
    let mut r: Vec<PureMove> = Vec::new();
    let mut i: usize = 0;
    while i < raw.len()
        invariant
            i <= raw@.len(),
            pred == worth_considering_pred(raw@, opponent_has_just_moved_tam),
            r@ == raw@.take(i as int).filter(pred),
        decreases raw@.len() - i,
    {
        let c = raw[i];
        proof {
            assert(raw@.take(i + 1) == raw@.take(i as int).push(c));
            raw@.take(i as int).lemma_filter_push(c, pred);
        }
        if is_worth_considering(raw, c, opponent_has_just_moved_tam) {
            r.push(c);
        }
        i += 1;
    }
    assert(raw@.take(raw@.len() as int) == raw@);
    r
}

/// The move that the computer player chose, and why.
#[derive(Clone, Copy, PartialEq, Eq, Structural, Debug)]
pub struct TacticsAndBotMove {
    pub tactics: TacticsKey,
    pub bot_move: PureMove,
}

/// The square on which a move takes an opponent's piece, if it does.
pub open spec fn capture_square(cand: PureMove, s: GroundStateView) -> Option<Square> {
    match landing_square(cand) {
        None => None,
        Some(t) => match s.f.at(t) {
            Some(BoardPiece::NonTam2Piece { side, .. }) => if side != s.whose_turn {
                Some(t)
            } else {
                None
            },
            _ => None,
        },
    }
}

/// Rule 3: the move completes a hand by taking a piece, and is very likely to succeed.
pub open spec fn is_victory(s: GroundStateView, c: PureMove) -> bool {
    victory_check_defined(c, s) && spec_is_victorious_hand(c, s) && spec_likely(to_message(c), 2)
}

/// Rule 5: the move newly puts a shaman on tam2 hue that cannot easily be taken.
pub open spec fn is_shaman(config: RuleSet, s: GroundStateView, c: PureMove) -> bool {
    spec_safe_gak_tuk(config, c, s) == Some(true)
}

/// Rule 6: the move takes a piece that cannot be taken back: it takes a piece, it is
/// likely to succeed, and after it (every cast going the mover's way) no move of a piece on
/// the board of the opponent lands on that square.
pub open spec fn is_free_lunch(config: RuleSet, s: GroundStateView, c: PureMove) -> bool {
    match capture_square(c, s) {
        None => false,
        Some(t) => spec_likely(to_message(c), 3) && unreachable_after(config, c, s, t, false),
    }
}

/// A move of a piece on the board (not a drop from hand, not a move of Tam2).
pub open spec fn is_board_move(c: PureMove) -> bool {
    c is NonTamMoveSrcDst || c is NonTamMoveSrcStepDstFinite || c is InfAfterStep
}

/// Whether `i` is the first position of `w` whose move meets `p`.
pub open spec fn first_meeting(w: Seq<PureMove>, p: spec_fn(PureMove) -> bool, i: int) -> bool {
    &&& 0 <= i < w.len()
    &&& p(w[i])
    &&& forall|j: int| 0 <= j < i ==> !p(#[trigger] w[j])
}

/// The state seen by the opponent: the same, with the opponent to move.
pub open spec fn flipped(s: GroundStateView) -> GroundStateView {
    GroundStateView { whose_turn: opponent(s.whose_turn), ..s }
}

/// Whether the opponent could, with one of its moves of a piece on the board, complete a
/// hand with a move likely to succeed.
pub open spec fn opponent_wins_with(m: PureMove, s: GroundStateView) -> bool {
    &&& victory_check_defined(m, flipped(s))
    &&& spec_is_victorious_hand(m, flipped(s))
    &&& spec_likely(to_message(m), 3)
}

/// Whether the player to move is in danger (rule 4): the opponent has a move of a piece
/// on the board that completes a hand and is likely to succeed.
pub open spec fn in_danger(config: RuleSet, s: GroundStateView) -> bool {
    exists|i: int| 0 <= i < replies(config, s.whose_turn, s.f).len() && opponent_wins_with(#[trigger] replies(config, s.whose_turn, s.f)[i], s)
}

/// How a move played when no rule decides is labelled: avoiding defeat where the player
/// is in danger, neutral otherwise.
pub open spec fn fallback_tactics(config: RuleSet, s: GroundStateView) -> TacticsKey {
    if in_danger(config, s) {
        TacticsKey::AvoidDefeat
    } else {
        TacticsKey::Neutral
    }
}

fn in_danger_check(config: RuleSet, s: &GroundState) -> (b: bool)
    ensures
        b == in_danger(config, s@),
{
    let other = match s.whose_turn {
        Side::IASide => Side::ASide,
        Side::ASide => Side::IASide,
    };
    let mut t = s.duplicate();
    t.whose_turn = other;
    assert(t@ == flipped(s@));
    let candidates = moves_not_from_hop1zuo1(false, config.tam_itself_is_tam_hue(), other, &s.f);
    let ghost rs = replies(config, s.whose_turn, s@.f);
    let mut i: usize = 0;
    while i < candidates.len()
        invariant
            i <= candidates@.len(),
            candidates@ == rs,
            rs == replies(config, s.whose_turn, s@.f),
            t@ == flipped(s@),
            forall|j: int| 0 <= j < i ==> !opponent_wins_with(#[trigger] rs[j], s@),
        decreases candidates@.len() - i,
    {
        let c = candidates[i];
        if victory_check_possible(c, &t) && is_victorious_hand(c, &t) && is_likely_to_succeed(&c.to_message()) {
            assert(opponent_wins_with(replies(config, s.whose_turn, s@.f)[i as int], s@));
            return true;
        }
        i += 1;
    }
    false
}

/// Whether a move leaves the opponent no move of a piece on the board that completes a
/// hand and is likely to succeed, the move being played as if every cast went the mover's
/// way (rule 4: a sure loss is avoided). False where the move cannot be played so, and
/// where the game ends with it.
pub open spec fn leaves_no_win(config: RuleSet, s: GroundStateView, c: PureMove) -> bool {
    match spec_lucky_resolution(config, c, s) {
        None => false,
        Some(r) => match continuation(r) {
            None => false,
            Some(next) => !in_danger(config, GroundStateView { whose_turn: s.whose_turn, ..next }),
        },
    }
}

/// A move that rule 5 plays: a safe shaman that avoids a sure loss (rule 4 comes first).
pub open spec fn plays_shaman(config: RuleSet, s: GroundStateView, c: PureMove) -> bool {
    is_shaman(config, s, c) && leaves_no_win(config, s, c)
}

/// A move that rule 6 plays: a capture that cannot be taken back and that avoids a sure
/// loss (rule 4 comes first).
pub open spec fn plays_free_lunch(config: RuleSet, s: GroundStateView, c: PureMove) -> bool {
    is_free_lunch(config, s, c) && leaves_no_win(config, s, c)
}

/// A move of a piece on the board that avoids a sure loss (see `leaves_no_win`).
pub open spec fn is_safe_board_move(config: RuleSet, s: GroundStateView, c: PureMove) -> bool {
    is_board_move(c) && leaves_no_win(config, s, c)
}

fn leaves_no_win_check(config: RuleSet, cand: &PureMove, s: &GroundState) -> (b: bool)
    ensures
        b == leaves_no_win(config, s@, *cand),
{
    let next = match apply_move_assuming_every_luck_works(config, cand, s) {
        None => return false,
        Some(HandResolved::NeitherTymokNorTaxot(k)) => k,
        Some(HandResolved::HandExists { if_tymok, .. }) => if_tymok,
        Some(HandResolved::GameEndsWithoutTymokTaxot(_)) => return false,
    };
    let mut v = next;
    v.whose_turn = s.whose_turn;
    !in_danger_check(config, &v)
}

fn free_lunch_check(config: RuleSet, cand: &PureMove, s: &GroundState) -> (r: bool)
    ensures
        r == is_free_lunch(config, s@, *cand),
{
    let target = match *cand {
        PureMove::InfAfterStep { src, planned_direction, .. } => if planned_direction == src {
            return false;
        } else {
            planned_direction
        },
        PureMove::NonTamMoveSrcDst { src, dest, .. }
        | PureMove::NonTamMoveSrcStepDstFinite { src, dest, .. } => if dest == src {
            return false;
        } else {
            dest
        },
        _ => return false,
    };
    match s.f.peek(target) {
        Some(BoardPiece::NonTam2Piece { side, .. }) => {
            if side == s.whose_turn {
                return false;
            }
        },
        _ => return false,
    }
    if !is_likely_to_succeed(&cand.to_message()) {
        return false;
    }
    unreachable_after_check(config, cand, s, target, false)
}

/// What the tactics answer for the candidates `w`, read rule by rule: the first candidate
/// that completes a hand and is very likely to succeed (rule 3); else the first that makes
/// a safe shaman (rule 5); else the first that takes a piece which cannot be taken back
/// (rule 6); else a random move of a piece on the board (rule 4); else any candidate, as a
/// loss almost certain; with no candidate, nothing. Rule 4 comes before rules 5 and 6:
/// those and the random move are played only where the opponent cannot then complete a
/// hand with a likely move (see `leaves_no_win`); the random move is labelled by
/// `fallback_tactics`.
pub open spec fn tactics_answer(config: RuleSet, s: GroundStateView, w: Seq<PureMove>, r: Option<TacticsAndBotMove>) -> bool {
    let victory = |c: PureMove| is_victory(s, c);
    let shaman = |c: PureMove| plays_shaman(config, s, c);
    let free = |c: PureMove| plays_free_lunch(config, s, c);
    if exists|i: int| 0 <= i < w.len() && is_victory(s, #[trigger] w[i]) {
        r matches Some(t) && t.tactics == TacticsKey::VictoryAlmostCertain && exists|i: int| first_meeting(w, victory, i) && w[i] == t.bot_move
    } else if exists|i: int| 0 <= i < w.len() && plays_shaman(config, s, #[trigger] w[i]) {
        r matches Some(t) && t.tactics == TacticsKey::StrengthenedShaman && exists|i: int| first_meeting(w, shaman, i) && w[i] == t.bot_move
    } else if exists|i: int| 0 <= i < w.len() && plays_free_lunch(config, s, #[trigger] w[i]) {
        r matches Some(t) && t.tactics == TacticsKey::FreeLunch && exists|i: int| first_meeting(w, free, i) && w[i] == t.bot_move
    } else if exists|i: int| 0 <= i < w.len() && is_safe_board_move(config, s, #[trigger] w[i]) {
        r matches Some(t) && t.tactics == fallback_tactics(config, s) && w.contains(t.bot_move) && is_safe_board_move(config, s, t.bot_move)
    } else if w.len() > 0 {
        r matches Some(t) && t.tactics == TacticsKey::LossAlmostCertain && w.contains(t.bot_move)
    } else {
        r is None
    }
}

/// Reads the candidates rule by rule, as `tactics_answer` says.
#[verifier::loop_isolation(false)]
pub fn choose_tactics(config: RuleSet, game_state: &GroundState, candidates: &Vec<PureMove>) -> (r: Option<TacticsAndBotMove>)
    ensures
        tactics_answer(config, game_state@, candidates@, r),
{
    let ghost s = game_state@;
    let ghost w = candidates@;
    // 3. taking a piece completes a hand, and the move is very likely to succeed
    let mut i: usize = 0;
    while i < candidates.len()
        invariant
            i <= w.len(),
            forall|j: int| 0 <= j < i ==> !is_victory(s, #[trigger] w[j]),
        decreases w.len() - i,
    {
        let c = candidates[i];
        if victory_check_possible(c, game_state) && is_victorious_hand(c, game_state) && is_very_likely_to_succeed(&c.to_message()) {
            assert(first_meeting(w, |x: PureMove| is_victory(s, x), i as int));
            return Some(TacticsAndBotMove { tactics: TacticsKey::VictoryAlmostCertain, bot_move: c });
        }
        i += 1;
    }
    // 5. a shaman on tam2 hue that is hard to take
    let mut i: usize = 0;
    while i < candidates.len()
        invariant
            i <= w.len(),
            forall|j: int| 0 <= j < w.len() ==> !is_victory(s, #[trigger] w[j]),
            forall|j: int| 0 <= j < i ==> !plays_shaman(config, s, #[trigger] w[j]),
        decreases w.len() - i,
    {
        let c = candidates[i];
        if is_safe_gak_tuk_newly_generated(config, &c, game_state) == Some(true) && leaves_no_win_check(config, &c, game_state) {
            assert(first_meeting(w, |x: PureMove| plays_shaman(config, s, x), i as int));
            return Some(TacticsAndBotMove { tactics: TacticsKey::StrengthenedShaman, bot_move: c });
        }
        i += 1;
    }
    // 6. a capture that cannot be taken back
    let mut i: usize = 0;
    while i < candidates.len()
        invariant
            i <= w.len(),
            forall|j: int| 0 <= j < w.len() ==> !is_victory(s, #[trigger] w[j]),
            forall|j: int| 0 <= j < w.len() ==> !plays_shaman(config, s, #[trigger] w[j]),
            forall|j: int| 0 <= j < i ==> !plays_free_lunch(config, s, #[trigger] w[j]),
        decreases w.len() - i,
    {
        let c = candidates[i];
        if free_lunch_check(config, &c, game_state) && leaves_no_win_check(config, &c, game_state) {
            assert(first_meeting(w, |x: PureMove| plays_free_lunch(config, s, x), i as int));
            return Some(TacticsAndBotMove { tactics: TacticsKey::FreeLunch, bot_move: c });
        }
        i += 1;
    }
    // 4. otherwise a move of a piece on the board that avoids a sure loss, if there is one
    let mut kept: Vec<PureMove> = Vec::new();
    let mut i: usize = 0;
    while i < candidates.len()
        invariant
            i <= w.len(),
            forall|j: int| 0 <= j < w.len() ==> !is_victory(s, #[trigger] w[j]),
            forall|j: int| 0 <= j < w.len() ==> !plays_shaman(config, s, #[trigger] w[j]),
            forall|j: int| 0 <= j < w.len() ==> !plays_free_lunch(config, s, #[trigger] w[j]),
            forall|x: PureMove| #[trigger] kept@.contains(x) ==> w.contains(x) && is_safe_board_move(config, s, x),
            (kept@.len() > 0) <==> exists|j: int| 0 <= j < i && is_safe_board_move(config, s, #[trigger] w[j]),
        decreases w.len() - i,
    {
        let c = candidates[i];
        let ghost before = kept@;
        let board = match c {
            PureMove::NonTamMoveSrcDst { .. }
            | PureMove::NonTamMoveSrcStepDstFinite { .. }
            | PureMove::InfAfterStep { .. } => true,
            // moves of Tam2 and drops from hand are played only where nothing else is left
            _ => false,
        };
        if board && leaves_no_win_check(config, &c, game_state) {
            kept.push(c);
            proof {
                assert(w.contains(w[i as int]));
                assert forall|x: PureMove| #[trigger] kept@.contains(x) implies w.contains(x) && is_safe_board_move(config, s, x) by {
                    if x != c {
                        let k = choose|k: int| 0 <= k < kept@.len() && kept@[k] == x;
                        assert(before[k] == x);
                        assert(before.contains(x));
                    }
                }
                assert(is_safe_board_move(config, s, w[i as int]));
            }
        }
        i += 1;
    }
    if kept.len() > 0 {
        let tactics = if in_danger_check(config, game_state) {
            TacticsKey::AvoidDefeat
        } else {
            TacticsKey::Neutral
        };
        return match pick_with_thread_rng(&kept) {
            Some(m) => Some(TacticsAndBotMove { tactics, bot_move: m }),
            None => None,
        };
    }
    match pick_with_thread_rng(candidates) {
        // every move loses: play any of them
        Some(m) => Some(TacticsAndBotMove { tactics: TacticsKey::LossAlmostCertain, bot_move: m }),
        None => None,
    }
}

fn victory_check_possible(cand: PureMove, s: &GroundState) -> (b: bool)
    ensures
        b == victory_check_defined(cand, s@),
{
    let target = match cand {
        PureMove::InfAfterStep { src, planned_direction, .. } => if planned_direction == src {
            return true;
        } else {
            planned_direction
        },
        PureMove::NonTamMoveSrcDst { src, dest, .. }
        | PureMove::NonTamMoveSrcStepDstFinite { src, dest, .. } => if dest == src {
            return true;
        } else {
            dest
        },
        _ => return true,
    };
    match s.f.peek(target) {
        None => true,
        Some(BoardPiece::Tam2) => false,
        Some(BoardPiece::NonTam2Piece { color, prof, .. }) => {
            let mut hop1zuo1 = hop1zuo1_of(s.whose_turn, &s.f);
            let before = hand_score(&hop1zuo1);
            hop1zuo1.push(NonTamPiece { color, prof });
            let after = hand_score(&hop1zuo1);
            before.is_some() && after.is_some()
        },
    }
}

proof fn lemma_filter_membership(s: Seq<PureMove>, p: spec_fn(PureMove) -> bool, c: PureMove)
    ensures
        s.filter(p).contains(c) <==> (s.contains(c) && p(c)),
{
    if s.filter(p).contains(c) {
        s.lemma_filter_contains_rev(p, c);
        let i = choose|i: int| 0 <= i < s.filter(p).len() && s.filter(p)[i] == c;
        s.lemma_filter_pred(p, i);
    }
    if s.contains(c) && p(c) {
        let i = choose|i: int| 0 <= i < s.len() && s[i] == c;
        s.lemma_filter_contains(p, i);
    }
}

proof fn lemma_same_members_same_worth(a: Seq<PureMove>, b: Seq<PureMove>, c: PureMove, opp: bool)
    requires
        forall|x: PureMove| a.contains(x) <==> b.contains(x),
    ensures
        worth_considering(a, c, opp) == worth_considering(b, c, opp),
{
    match c {
        PureMove::InfAfterStep { src, planned_direction, .. } => {
            if exists|k: int| 0 <= k < a.len() && is_finite_move_between(#[trigger] a[k], src, planned_direction) {
                let k = choose|k: int| 0 <= k < a.len() && is_finite_move_between(#[trigger] a[k], src, planned_direction);
                assert(b.contains(a[k]));
            }
            if exists|k: int| 0 <= k < b.len() && is_finite_move_between(#[trigger] b[k], src, planned_direction) {
                let k = choose|k: int| 0 <= k < b.len() && is_finite_move_between(#[trigger] b[k], src, planned_direction);
                assert(a.contains(b[k]));
            }
        },
        PureMove::NonTamMoveSrcStepDstFinite { src, dest, .. } => {
            if exists|k: int| 0 <= k < a.len() && is_plain_move_between(#[trigger] a[k], src, dest) {
                let k = choose|k: int| 0 <= k < a.len() && is_plain_move_between(#[trigger] a[k], src, dest);
                assert(b.contains(a[k]));
            }
            if exists|k: int| 0 <= k < b.len() && is_plain_move_between(#[trigger] b[k], src, dest) {
                let k = choose|k: int| 0 <= k < b.len() && is_plain_move_between(#[trigger] b[k], src, dest);
                assert(a.contains(b[k]));
            }
        },
        _ => {},
    }
}

/// Whether the computer player considers a move in a state: it is among the moves of the
/// pieces on the board that `cetkaik_yhuap_move_candidates` lists (Tam2 never stepped on),
/// and it is `worth_considering`.
pub open spec fn considered(config: RuleSet, s: GroundStateView, opponent_has_just_moved_tam: bool, c: PureMove) -> bool {
    let raw = spec_moves_not_from_hop1zuo1(false, config.spec_tam_itself_is_tam_hue(), s.whose_turn, s.f);
    raw.contains(c) && worth_considering(raw, c, opponent_has_just_moved_tam)
}

/// What the computer player answers in `s` (see `generate_move`), over the moves it
/// considers, rule by rule as `tactics_answer` says; there is at least one such move.
pub open spec fn move_answer(config: RuleSet, s: GroundStateView, opp: bool, r: Option<TacticsAndBotMove>) -> bool {
    if exists|c: PureMove| #[trigger] considered(config, s, opp, c) && is_victory(s, c) {
        r matches Some(t) && t.tactics == TacticsKey::VictoryAlmostCertain && considered(config, s, opp, t.bot_move) && is_victory(s, t.bot_move)
    } else if exists|c: PureMove| #[trigger] considered(config, s, opp, c) && plays_shaman(config, s, c) {
        r matches Some(t) && t.tactics == TacticsKey::StrengthenedShaman && considered(config, s, opp, t.bot_move) && plays_shaman(config, s, t.bot_move)
    } else if exists|c: PureMove| #[trigger] considered(config, s, opp, c) && plays_free_lunch(config, s, c) {
        r matches Some(t) && t.tactics == TacticsKey::FreeLunch && considered(config, s, opp, t.bot_move) && plays_free_lunch(config, s, t.bot_move)
    } else if exists|c: PureMove| #[trigger] considered(config, s, opp, c) && is_safe_board_move(config, s, c) {
        r matches Some(t) && t.tactics == fallback_tactics(config, s) && considered(config, s, opp, t.bot_move) && is_safe_board_move(config, s, t.bot_move)
    } else {
        r matches Some(t) && t.tactics == TacticsKey::LossAlmostCertain && considered(config, s, opp, t.bot_move)
    }
}

proof fn lemma_move_answer(config: RuleSet, s: GroundStateView, opp: bool, w: Seq<PureMove>, r: Option<TacticsAndBotMove>)
    requires
        forall|c: PureMove| w.contains(c) <==> #[trigger] considered(config, s, opp, c),
        w.len() > 0,
        tactics_answer(config, s, w, r),
    ensures
        move_answer(config, s, opp, r),
{
    let victory = |c: PureMove| is_victory(s, c);
    let shaman = |c: PureMove| plays_shaman(config, s, c);
    let free = |c: PureMove| plays_free_lunch(config, s, c);
    assert(w.contains(w[0]));
    let ev = exists|c: PureMove| #[trigger] considered(config, s, opp, c) && is_victory(s, c);
    let es = exists|c: PureMove| #[trigger] considered(config, s, opp, c) && plays_shaman(config, s, c);
    let ef = exists|c: PureMove| #[trigger] considered(config, s, opp, c) && plays_free_lunch(config, s, c);
    let eb = exists|c: PureMove| #[trigger] considered(config, s, opp, c) && is_safe_board_move(config, s, c);
    if ev {
        let c = choose|c: PureMove| #[trigger] considered(config, s, opp, c) && is_victory(s, c);
        assert(w.contains(c));
        let i = choose|i: int| 0 <= i < w.len() && w[i] == c;
        assert(is_victory(s, w[i]));
        let t = r->0;
        let k = choose|k: int| first_meeting(w, victory, k) && w[k] == t.bot_move;
        assert(w.contains(w[k]));
    } else {
        assert forall|i: int| 0 <= i < w.len() implies !is_victory(s, #[trigger] w[i]) by {
            assert(w.contains(w[i]));
            assert(considered(config, s, opp, w[i]));
        }
        if es {
            let c = choose|c: PureMove| #[trigger] considered(config, s, opp, c) && plays_shaman(config, s, c);
            assert(w.contains(c));
            let i = choose|i: int| 0 <= i < w.len() && w[i] == c;
            assert(plays_shaman(config, s, w[i]));
            let t = r->0;
            let k = choose|k: int| first_meeting(w, shaman, k) && w[k] == t.bot_move;
            assert(w.contains(w[k]));
        } else {
            assert forall|i: int| 0 <= i < w.len() implies !plays_shaman(config, s, #[trigger] w[i]) by {
                assert(w.contains(w[i]));
            assert(considered(config, s, opp, w[i]));
            }
            if ef {
                let c = choose|c: PureMove| #[trigger] considered(config, s, opp, c) && plays_free_lunch(config, s, c);
                assert(w.contains(c));
                let i = choose|i: int| 0 <= i < w.len() && w[i] == c;
                assert(plays_free_lunch(config, s, w[i]));
                let t = r->0;
                let k = choose|k: int| first_meeting(w, free, k) && w[k] == t.bot_move;
                assert(w.contains(w[k]));
            } else {
                assert forall|i: int| 0 <= i < w.len() implies !plays_free_lunch(config, s, #[trigger] w[i]) by {
                    assert(w.contains(w[i]));
            assert(considered(config, s, opp, w[i]));
                }
                if eb {
                    let c = choose|c: PureMove| #[trigger] considered(config, s, opp, c) && is_safe_board_move(config, s, c);
                    assert(w.contains(c));
                    let i = choose|i: int| 0 <= i < w.len() && w[i] == c;
                    assert(is_safe_board_move(config, s, w[i]));
                } else {
                    assert forall|i: int| 0 <= i < w.len() implies !is_safe_board_move(config, s, #[trigger] w[i]) by {
                        assert(w.contains(w[i]));
            assert(considered(config, s, opp, w[i]));
                    }
                }
            }
        }
    }
}

/// Chooses the computer player's move among the moves it considers (the moves of pieces
/// on the board that the move generator lists, less those of rules 1 and 2), read rule
/// by rule in a random order:
/// 1. a move that starts and ends on the same square is not considered;
/// 2. nor is a stepping move where a move without stepping reaches the same square;
/// 3. a move that completes a hand and is very likely to succeed is always played;
/// 4. no other move is played after which the opponent can complete a hand with a likely
///    move, where some considered move avoids that;
/// 5. else a move that makes a shaman on tam2 hue that cannot easily be taken is played;
/// 6. else a move likely to succeed that takes a piece which cannot be taken back is played;
/// else a move of a piece on the board is played at random, labelled as avoiding defeat
/// where the opponent could complete a hand now and as neutral otherwise; with no such
/// move, any considered move is played as a loss almost certain. Some move must be
/// considered (see `try_generate_move`).
pub fn generate_move(config: RuleSet, game_state: &GroundState, opponent_has_just_moved_tam: bool) -> (r: Option<TacticsAndBotMove>)
    requires
        exists|c: PureMove| #[trigger] considered(config, game_state@, opponent_has_just_moved_tam, c),
    ensures
        r is Some,
        move_answer(config, game_state@, opponent_has_just_moved_tam, r),
{
    let ghost gs = game_state@;
    let ghost opp = opponent_has_just_moved_tam;
    let mut raw_candidates = moves_not_from_hop1zuo1(false, config.tam_itself_is_tam_hue(), game_state.whose_turn, &game_state.f);
    let ghost raw = raw_candidates@;
    shuffle_with_thread_rng(&mut raw_candidates);
    let candidates = worth_considering_candidates(&raw_candidates, opponent_has_just_moved_tam);
    let ghost sh = raw_candidates@;
    let ghost w = candidates@;
    proof {
        assert forall|x: PureMove| sh.contains(x) <==> raw.contains(x) by {
            broadcast use vstd::seq_lib::to_multiset_contains;
            assert(sh.to_multiset().count(x) == raw.to_multiset().count(x));
        }
        assert forall|c: PureMove| w.contains(c) <==> #[trigger] considered(config, gs, opp, c) by {
            lemma_filter_membership(sh, worth_considering_pred(sh, opp), c);
            lemma_same_members_same_worth(sh, raw, c, opp);
        }
        let c = choose|c: PureMove| #[trigger] considered(config, gs, opp, c);
        assert(w.contains(c));
    }
    let r = choose_tactics(config, game_state, &candidates);
    proof {
        lemma_move_answer(config, gs, opp, w, r);
    }
    r
}

/// The computer player's move where it considers some move (`generate_move`); `None`
/// exactly where it considers none.
pub fn try_generate_move(config: RuleSet, game_state: &GroundState, opponent_has_just_moved_tam: bool) -> (r: Option<TacticsAndBotMove>)
    ensures
        r is None <==> forall|c: PureMove| !#[trigger] considered(config, game_state@, opponent_has_just_moved_tam, c),
        r is Some ==> move_answer(config, game_state@, opponent_has_just_moved_tam, r),
{
    let ghost gs = game_state@;
    let ghost opp = opponent_has_just_moved_tam;
    let raw = moves_not_from_hop1zuo1(false, config.tam_itself_is_tam_hue(), game_state.whose_turn, &game_state.f);
    let kept = worth_considering_candidates(&raw, opponent_has_just_moved_tam);
    proof {
        assert forall|c: PureMove| kept@.contains(c) <==> #[trigger] considered(config, gs, opp, c) by {
            lemma_filter_membership(raw@, worth_considering_pred(raw@, opp), c);
        }
    }
    if kept.len() == 0 {
        proof {
            assert forall|c: PureMove| !#[trigger] considered(config, gs, opp, c) by {
                if considered(config, gs, opp, c) {
                    assert(kept@.contains(c));
                }
            }
        }
        return None;
    }
    proof {
        assert(kept@.contains(kept@[0]));
        assert(considered(config, gs, opp, kept@[0]));
    }
    generate_move(config, game_state, opponent_has_just_moved_tam)
}

/// Raising the stepping threshold keeps a likely move likely.
pub proof fn lemma_likely_monotone(cand: MoveMessage, low: int, high: int)
    requires
        low <= high,
    ensures
        spec_likely(cand, low) ==> spec_likely(cand, high),
{
}

/// A move that ends on the water needs a water-entry cast, so it is never likely to
/// succeed, whatever the stepping threshold.
pub proof fn lemma_water_is_never_likely(m: MoveMessage, t: int)
    ensures
        (match m {
            MoveMessage::NormalMove(NormalMove::NonTamMoveSrcDst { dest, .. }) => spec_is_water(dest),
            MoveMessage::NormalMove(NormalMove::NonTamMoveSrcStepDstFinite { dest, .. }) => spec_is_water(dest),
            MoveMessage::InfAfterStep(i) => spec_is_water(i.planned_direction),
            _ => false,
        }) ==> !spec_likely(m, t),
{
}

/// A move of a piece on the board that needs no cast at all (a plain or a finite stepping
/// move that ends on land) is likely to succeed at every threshold.
pub proof fn lemma_land_moves_without_cast_are_likely(m: MoveMessage, t: int)
    ensures
        (match m {
            MoveMessage::NormalMove(NormalMove::NonTamMoveSrcDst { dest, .. }) => !spec_is_water(dest),
            MoveMessage::NormalMove(NormalMove::NonTamMoveSrcStepDstFinite { dest, .. }) => !spec_is_water(dest),
            _ => false,
        }) ==> spec_likely(m, t),
{
}

/// A stepping infinite movement whose planned distance from the stepped-over square
/// exceeds the threshold is not likely to succeed at that threshold.
pub proof fn lemma_long_casts_are_not_likely(i: crate::moves::InfAfterStep, t: int)
    ensures
        spec_distance(i.planned_direction, i.step) > t ==> !spec_likely(MoveMessage::InfAfterStep(i), t),
{
}

/// A shaman that already stands on tam2 hue is not newly made by moving it: for a move
/// from the board whose source square is tam2 hue, the shaman check finds no new shaman
/// and never answers `Some(true)`.
pub proof fn lemma_shaman_already_on_hue_is_not_new(config: RuleSet, c: PureMove, s: GroundStateView)
    ensures
        (match c {
            PureMove::NonTamMoveSrcDst { src, .. } => spec_is_tam_hue(s.f, src, false),
            PureMove::NonTamMoveSrcStepDstFinite { src, .. } => spec_is_tam_hue(s.f, src, false),
            PureMove::InfAfterStep { src, .. } => spec_is_tam_hue(s.f, src, false),
            _ => false,
        }) ==> spec_gak_tuk(c, s) is None && spec_safe_gak_tuk(config, c, s) != Some(true),
{
}

/// Only a shaman makes a shaman, and only on tam2 hue: where the shaman check finds a new
/// shaman, the moving or dropped piece is a Tuk2 and the square it finds is tam2 hue and is
/// where the move ends; a Tuk2 dropped from hand onto tam2 hue is always found.
pub proof fn lemma_new_shaman_is_a_tuk2_on_hue(c: PureMove, s: GroundStateView)
    ensures
        spec_gak_tuk(c, s) matches Some(sq) ==> spec_is_tam_hue(s.f, sq, false) && (landing_square(c) == Some(sq)
            || (c is NonTamMoveFromHopZuo && c->NonTamMoveFromHopZuo_dest == sq)),
        spec_gak_tuk(c, s) is Some ==> match c {
            PureMove::NonTamMoveFromHopZuo { prof, .. } => prof == Prof::Tuk2,
            PureMove::NonTamMoveSrcDst { src, .. } => s.f.at(src) matches Some(BoardPiece::NonTam2Piece { prof, .. }) && prof == Prof::Tuk2,
            PureMove::NonTamMoveSrcStepDstFinite { src, .. } => s.f.at(src) matches Some(BoardPiece::NonTam2Piece { prof, .. }) && prof == Prof::Tuk2,
            PureMove::InfAfterStep { src, .. } => s.f.at(src) matches Some(BoardPiece::NonTam2Piece { prof, .. }) && prof == Prof::Tuk2,
            _ => false,
        },
        (c matches PureMove::NonTamMoveFromHopZuo { prof, dest, .. } && prof == Prof::Tuk2 && spec_is_tam_hue(s.f, dest, false))
            ==> spec_gak_tuk(c, s) == Some(c->NonTamMoveFromHopZuo_dest),
{
}

/// The victory check reads only the board and the hand of the player to move: two states
/// with the same player to move, the same board and the same hand of that player give the
/// same answer, whatever the other player holds.
pub proof fn lemma_victory_reads_only_the_movers_hand(c: PureMove, s1: GroundStateView, s2: GroundStateView)
    requires
        s1.whose_turn == s2.whose_turn,
        forall|x: Square| #[trigger] s1.f.at(x) == s2.f.at(x),
        s1.f.hop1zuo1(s1.whose_turn) == s2.f.hop1zuo1(s2.whose_turn),
    ensures
        spec_is_victorious_hand(c, s1) == spec_is_victorious_hand(c, s2),
        victory_check_defined(c, s1) == victory_check_defined(c, s2),
{
    match landing_square(c) {
        Some(t) => {
            assert(s1.f.at(t) == s2.f.at(t));
        },
        None => {},
    }
}

/// A move that takes nothing completes no hand.
pub proof fn lemma_taking_nothing_wins_nothing(c: PureMove, s: GroundStateView)
    ensures
        (match landing_square(c) {
            None => true,
            Some(t) => !(s.f.at(t) is Some) || s.f.at(t) == Some(BoardPiece::Tam2),
        }) ==> !spec_is_victorious_hand(c, s),
{
}

/// A capture completes a hand exactly when the taken piece, added to the hand of the player
/// to move, changes the score of the hands that hand makes.
pub proof fn lemma_victory_is_a_new_hand_for_the_mover(c: PureMove, s: GroundStateView, t: Square, p: BoardPiece)
    requires
        landing_square(c) == Some(t),
        s.f.at(t) == Some(p),
        p matches BoardPiece::NonTam2Piece { .. },
    ensures
        spec_is_victorious_hand(c, s) <==> spec_hand_score(
            s.f.hop1zuo1(s.whose_turn).push(NonTamPiece { color: p->color, prof: p->prof }),
        ) != spec_hand_score(s.f.hop1zuo1(s.whose_turn)),
{
}

/// A move very likely to succeed is likely to succeed.
pub proof fn lemma_very_likely_is_likely(cand: MoveMessage)
    ensures
        spec_likely(cand, 2) ==> spec_likely(cand, 3),
{
}

/// Assuming every cast goes the mover's way gives what a cast of all five sticks gives
/// (no cast at all for a move that needs none).
pub proof fn lemma_lucky_is_a_cast_outcome<V>(p: Chance<V>, t: V)
    requires
        lucky(p) == Some(t),
    ensures
        crate::rules::cast_gives(p, t, if p is Pure { None } else { Some(5usize) }),
{
}

/// The first two rules of the tactics: a move that the computer player considers leaves
/// its square, and it does not step where a movement without stepping (or, for a stepping
/// infinite movement, any finite movement) of the same piece reaches the same square.
pub proof fn lemma_considered_moves_are_not_wasted(config: RuleSet, s: GroundStateView, opponent_has_just_moved_tam: bool, c: PureMove)
    requires
        considered(config, s, opponent_has_just_moved_tam, c),
    ensures
        ({
            let raw = spec_moves_not_from_hop1zuo1(false, config.spec_tam_itself_is_tam_hue(), s.whose_turn, s.f);
            match c {
                PureMove::NonTamMoveSrcDst { src, dest, .. } => src != dest,
                PureMove::NonTamMoveSrcStepDstFinite { src, dest, .. } => src != dest && forall|m: PureMove| raw.contains(m) ==> !is_plain_move_between(m, src, dest),
                PureMove::InfAfterStep { src, planned_direction, .. } => src != planned_direction && forall|m: PureMove| raw.contains(m) ==> !is_finite_move_between(m, src, planned_direction),
                PureMove::TamMoveNoStep { .. } | PureMove::TamMoveStepsDuringFormer { .. } | PureMove::TamMoveStepsDuringLatter { .. } => !opponent_has_just_moved_tam,
                _ => true,
            }
        }),
{
}

} // verus!

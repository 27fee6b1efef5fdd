//! A player that reads two moves deep: it maximises its evaluation over its own moves,
//! averages over the casts of the sticks, and assumes that the opponent does the same.
use crate::cetkaik_engine::{
    first_best, is_first_best, score_gs, score_lead, CetkaikEngine, HandExists_, TymokOrTaxot_,
};
use crate::model::{hop1zuo1_of, opponent, BoardPiece, Side};
use crate::moves::{AfterHalfAcceptance, InfAfterStep, MoveMessage, NormalMove};
use crate::rules::{
    apply_after_half_acceptance, apply_inf_after_step, apply_normal_move, excited_after,
    excited_candidates, ground_candidates, hand_score, inf_after_step_accepted, lemma_hand_size,
    resolve, settlement_check, settlement_defined, spec_after_half_acceptance_outcome, spec_excited_candidates, spec_ground_candidates,
    spec_hand_score, spec_normal_move_outcome, spec_resolve, within_piece_limits,
};
use crate::state::{
    Chance, ExcitedState, ExcitedStateView, GroundState, GroundStateView,
    HandNotResolved, HandNotResolvedView, HandResolved, HandResolvedView, IfTaxot, IfTaxotView,
    RuleSet,
};
use vstd::prelude::*;

verus! {

/// The factor by which one point of score is worth more than the finer terms of the
/// evaluation.
pub const SCORE_SCALE: i32 = 256;

/// Every value that the evaluation produces lies within plus or minus this bound.
pub const VALUE_BOUND: i32 = 115240;

/// The value of an exec score, as an integer.
pub open spec fn int_of(o: Option<i32>) -> Option<int> {
    match o {
        Some(v) => Some(v as int),
        None => None,
    }
}

/// Integer division rounding towards zero, as Rust divides.
pub open spec fn trunc_div(a: int, b: int) -> int {
    if a >= 0 {
        a / b
    } else {
        -((-a) / b)
    }
}

/// The larger of two optional values; a missing value gives way.
pub open spec fn opt_max(a: Option<int>, b: Option<int>) -> Option<int> {
    match (a, b) {
        (None, x) => x,
        (x, None) => x,
        (Some(x), Some(y)) => Some(if x >= y { x } else { y }),
    }
}

/// The static evaluation for the player to move: their lead, plus twice the hand score and
/// the number of pieces in hand, both scaled by `SCORE_SCALE` and counted against the
/// opponent's. `None` where a hand holds more pieces of a kind than the game has.
pub open spec fn minmax_eval(s: GroundStateView) -> Option<int> {
    let hp = s.f.hop1zuo1(s.whose_turn);
    let ho = s.f.hop1zuo1(opponent(s.whose_turn));
    if within_piece_limits(hp) && within_piece_limits(ho) {
        Some(score_lead(s.whose_turn, s.scores) + 2 * spec_hand_score(hp) * 256 - 2
            * spec_hand_score(ho) * 256 + hp.len() * 256 - ho.len() * 256)
    } else {
        None
    }
}

/// The static evaluation is zero-sum: seen by the other player, the same position is worth
/// the opposite.
pub proof fn lemma_eval_zero_sum(s: GroundStateView)
    ensures
        ({
            let flipped = GroundStateView { whose_turn: opponent(s.whose_turn), ..s };
            match (minmax_eval(s), minmax_eval(flipped)) {
                (Some(a), Some(b)) => a == -b,
                (None, None) => true,
                _ => false,
            }
        }),
{
}

/// Each point of hand score that the mover's pieces in hand make is worth `2 * 256`: with
/// the same player to move, the same scores, the same opponent's hand and as many pieces
/// in the mover's hand, a mover's hand worth `k` more evaluates `512 * k` higher.
pub proof fn lemma_eval_counts_movers_hand_score(s1: GroundStateView, s2: GroundStateView)
    requires
        s1.whose_turn == s2.whose_turn,
        s1.scores == s2.scores,
        s1.f.hop1zuo1(opponent(s1.whose_turn)) == s2.f.hop1zuo1(opponent(s2.whose_turn)),
        within_piece_limits(s1.f.hop1zuo1(s1.whose_turn)),
        within_piece_limits(s2.f.hop1zuo1(s2.whose_turn)),
        within_piece_limits(s1.f.hop1zuo1(opponent(s1.whose_turn))),
        s1.f.hop1zuo1(s1.whose_turn).len() == s2.f.hop1zuo1(s2.whose_turn).len(),
    ensures
        minmax_eval(s1) matches Some(a) && minmax_eval(s2) == Some(a + 512 * (spec_hand_score(
            s2.f.hop1zuo1(s2.whose_turn),
        ) - spec_hand_score(s1.f.hop1zuo1(s1.whose_turn)))),
{
}

/// Each point of hand score that the opponent's pieces in hand make costs `2 * 256`: with
/// the same player to move, the same scores, the same mover's hand and as many pieces in
/// the opponent's hand, an opponent's hand worth `k` more evaluates `512 * k` lower.
pub proof fn lemma_eval_counts_opponents_hand_score(s1: GroundStateView, s2: GroundStateView)
    requires
        s1.whose_turn == s2.whose_turn,
        s1.scores == s2.scores,
        s1.f.hop1zuo1(s1.whose_turn) == s2.f.hop1zuo1(s2.whose_turn),
        within_piece_limits(s1.f.hop1zuo1(s1.whose_turn)),
        within_piece_limits(s1.f.hop1zuo1(opponent(s1.whose_turn))),
        within_piece_limits(s2.f.hop1zuo1(opponent(s2.whose_turn))),
        s1.f.hop1zuo1(opponent(s1.whose_turn)).len() == s2.f.hop1zuo1(opponent(s2.whose_turn)).len(),
    ensures
        minmax_eval(s1) matches Some(a) && minmax_eval(s2) == Some(a - 512 * (spec_hand_score(
            s2.f.hop1zuo1(opponent(s2.whose_turn)),
        ) - spec_hand_score(s1.f.hop1zuo1(opponent(s1.whose_turn))))),
{
}

/// Each piece in the mover's hand is worth 256: with the same player to move, the same
/// scores, the same opponent's hand and the same hand score, one more piece in the mover's
/// hand evaluates 256 higher.
pub proof fn lemma_eval_counts_pieces_in_hand(s1: GroundStateView, s2: GroundStateView)
    requires
        s1.whose_turn == s2.whose_turn,
        s1.scores == s2.scores,
        s1.f.hop1zuo1(opponent(s1.whose_turn)) == s2.f.hop1zuo1(opponent(s2.whose_turn)),
        within_piece_limits(s1.f.hop1zuo1(s1.whose_turn)),
        within_piece_limits(s2.f.hop1zuo1(s2.whose_turn)),
        within_piece_limits(s1.f.hop1zuo1(opponent(s1.whose_turn))),
        spec_hand_score(s1.f.hop1zuo1(s1.whose_turn)) == spec_hand_score(s2.f.hop1zuo1(s2.whose_turn)),
        s2.f.hop1zuo1(s2.whose_turn).len() == s1.f.hop1zuo1(s1.whose_turn).len() + 1,
    ensures
        minmax_eval(s1) matches Some(a) && minmax_eval(s2) == Some(a + 256),
{
}

/// Each piece in the opponent's hand costs 256: with the same player to move, the same
/// scores, the same mover's hand and the same opponent's hand score, one more piece in the
/// opponent's hand evaluates 256 lower.
pub proof fn lemma_eval_counts_opponents_pieces_in_hand(s1: GroundStateView, s2: GroundStateView)
    requires
        s1.whose_turn == s2.whose_turn,
        s1.scores == s2.scores,
        s1.f.hop1zuo1(s1.whose_turn) == s2.f.hop1zuo1(s2.whose_turn),
        within_piece_limits(s1.f.hop1zuo1(s1.whose_turn)),
        within_piece_limits(s1.f.hop1zuo1(opponent(s1.whose_turn))),
        within_piece_limits(s2.f.hop1zuo1(opponent(s2.whose_turn))),
        spec_hand_score(s1.f.hop1zuo1(opponent(s1.whose_turn))) == spec_hand_score(s2.f.hop1zuo1(opponent(s2.whose_turn))),
        s2.f.hop1zuo1(opponent(s2.whose_turn)).len() == s1.f.hop1zuo1(opponent(s1.whose_turn)).len() + 1,
    ensures
        minmax_eval(s1) matches Some(a) && minmax_eval(s2) == Some(a - 256),
{
}

/// With the same hands, the static evaluation moves with the mover's lead, point for point.
pub proof fn lemma_eval_follows_the_lead(s1: GroundStateView, s2: GroundStateView)
    requires
        s1.whose_turn == s2.whose_turn,
        s1.f.hop1zuo1(s1.whose_turn) == s2.f.hop1zuo1(s2.whose_turn),
        s1.f.hop1zuo1(opponent(s1.whose_turn)) == s2.f.hop1zuo1(opponent(s2.whose_turn)),
        within_piece_limits(s1.f.hop1zuo1(s1.whose_turn)),
        within_piece_limits(s1.f.hop1zuo1(opponent(s1.whose_turn))),
    ensures
        minmax_eval(s1) matches Some(a) && minmax_eval(s2) == Some(a + score_lead(s2.whose_turn, s2.scores)
            - score_lead(s1.whose_turn, s1.scores)),
{
}

/// The value, for `player`, of ending the season: the lead in the next season's first state
/// (the one where `player` moves first) times `SCORE_SCALE`, or plus or minus 40 times
/// `SCORE_SCALE` where the game ends. `None` where the next season is not a choice of who
/// goes first.
pub open spec fn minmax_taxot(player: Side, t: IfTaxotView) -> Option<int> {
    match t {
        IfTaxotView::NextSeason(p) => match p {
            Chance::WhoGoesFirst { ia_first, a_first } => {
                let s = if player == Side::IASide { ia_first } else { a_first };
                Some(score_lead(s.whose_turn, s.scores) * 256)
            },
            _ => None,
        },
        IfTaxotView::VictoriousSide(v) => Some(if v.0 == Some(player) { 40 * 256int } else { -40 * 256int }),
    }
}

/// The value of a ground state for the player to move, read `depth` moves deep: the best
/// value over the moves read (those from the board first, then those from hop1zuo1).
/// `None` where the reading breaks off: a move is refused or an outcome has an unexpected
/// shape, a hand holds more pieces of a kind than the game has, no move is read, or the
/// depth runs out before a hand is settled.
pub open spec fn minmax_ground(config: RuleSet, s: GroundStateView, depth: nat) -> Option<int>
    decreases depth, 9nat, 0nat,
{
    if depth == 0 {
        minmax_eval(s)
    } else {
        let all = spec_ground_candidates(s, config).1 + spec_ground_candidates(s, config).0;
        match minmax_ground_prefix(config, s, all, depth, all.len()) {
            Some(Some(v)) => Some(v),
            _ => None,
        }
    }
}

/// The best value over the first `n` moves of `all`: `Some(None)` where none of them is
/// read, `None` where the reading breaks off on one of them.
pub open spec fn minmax_ground_prefix(config: RuleSet, s: GroundStateView, all: Seq<MoveMessage>, depth: nat, n: nat) -> Option<Option<int>>
    decreases depth, 8nat, n,
{
    if n == 0 {
        Some(None)
    } else if n > all.len() {
        None
    } else {
        match (
            minmax_ground_prefix(config, s, all, depth, (n - 1) as nat),
            minmax_candidate(config, s, all[n - 1], depth),
        ) {
            (Some(acc), Some(v)) => Some(opt_max(acc, v)),
            _ => None,
        }
    }
}

/// Whether a move is read: Tam2 does not move, is not stepped on, no piece is dropped from
/// hand, and a piece must leave its square.
pub open spec fn minmax_reads(s: GroundStateView, m: MoveMessage) -> bool {
    match m {
        MoveMessage::NormalMove(NormalMove::TamMoveNoStep { .. }) => false,
        MoveMessage::NormalMove(NormalMove::TamMoveStepsDuringFormer { .. }) => false,
        MoveMessage::NormalMove(NormalMove::TamMoveStepsDuringLatter { .. }) => false,
        MoveMessage::NormalMove(NormalMove::NonTamMoveFromHopZuo { .. }) => false,
        MoveMessage::NormalMove(NormalMove::NonTamMoveSrcStepDstFinite { src, step, dest }) => s.f.at(
            step,
        ) != Some(BoardPiece::Tam2) && src != dest,
        MoveMessage::NormalMove(NormalMove::NonTamMoveSrcDst { .. }) => true,
        MoveMessage::InfAfterStep(i) => s.f.at(i.src) != Some(BoardPiece::Tam2) && s.f.at(i.step)
            != Some(BoardPiece::Tam2) && i.src != i.planned_direction,
    }
}

/// The value of one move: `Some(None)` for a move not read, `None` where the reading
/// breaks off.
pub open spec fn minmax_candidate(config: RuleSet, s: GroundStateView, m: MoveMessage, depth: nat) -> Option<Option<int>>
    decreases depth, 7nat, 0nat,
{
    if !minmax_reads(s, m) {
        Some(None)
    } else {
        match m {
            MoveMessage::NormalMove(nm) => match spec_normal_move_outcome(s, nm, config) {
                None => None,
                Some(p) => match minmax_prob_hnr(config, p, depth) {
                    None => None,
                    Some(v) => Some(Some(v)),
                },
            },
            MoveMessage::InfAfterStep(i) => if !inf_after_step_accepted(s, i, config) {
                None
            } else {
                let p = Chance::Sticks {
                    s0: excited_after(s, i, 0),
                    s1: excited_after(s, i, 1),
                    s2: excited_after(s, i, 2),
                    s3: excited_after(s, i, 3),
                    s4: excited_after(s, i, 4),
                    s5: excited_after(s, i, 5),
                };
                match minmax_prob_excited(config, p, depth) {
                    None => None,
                    Some(v) => Some(Some(v)),
                }
            },
        }
    }
}

/// The value of a stepping cast: the average of the outcomes for 1 to 4 sticks, weighted
/// 1, 2, 2, 1 (0 and 5 sticks are left out). `None` for a chance of another shape.
pub open spec fn minmax_prob_excited(config: RuleSet, p: Chance<ExcitedStateView>, depth: nat) -> Option<int>
    decreases depth, 6nat, 0nat,
{
    match p {
        Chance::Sticks { s1, s2, s3, s4, .. } => match (
            minmax_excited(config, s1, depth),
            minmax_excited(config, s2, depth),
            minmax_excited(config, s3, depth),
            minmax_excited(config, s4, depth),
        ) {
            (Some(a), Some(b), Some(c), Some(d)) => Some(trunc_div(a + 2 * b + 2 * c + d, 6)),
            _ => None,
        },
        _ => None,
    }
}

/// The value of the state after a stepping cast: the best value over the destinations
/// allowed. `None` where no piece stands on the stepped-over square, where no destination
/// is allowed, or where the reading of one breaks off.
pub open spec fn minmax_excited(config: RuleSet, s: ExcitedStateView, depth: nat) -> Option<int>
    decreases depth, 5nat, 0nat,
{
    let c = spec_excited_candidates(s, config);
    if s.c.f.at(s.c.flying_piece_step) is None {
        None
    } else {
        match minmax_excited_prefix(config, s, c, depth, c.len()) {
            Some(Some(v)) => Some(v),
            _ => None,
        }
    }
}

/// The best value over the first `n` destinations of `c`.
pub open spec fn minmax_excited_prefix(config: RuleSet, s: ExcitedStateView, c: Seq<AfterHalfAcceptance>, depth: nat, n: nat) -> Option<Option<int>>
    decreases depth, 4nat, n,
{
    if n == 0 {
        Some(None)
    } else if n > c.len() {
        None
    } else {
        let v = match spec_after_half_acceptance_outcome(s, c[n - 1], config) {
            None => None,
            Some(p) => minmax_prob_hnr(config, p, depth),
        };
        match (minmax_excited_prefix(config, s, c, depth, (n - 1) as nat), v) {
            (Some(acc), Some(x)) => Some(opt_max(acc, Some(x))),
            _ => None,
        }
    }
}

/// The value of a finished move: settled at once, or the average over a water-entry cast.
/// `None` for an outcome of another shape, or one that the rule engine cannot settle.
pub open spec fn minmax_prob_hnr(config: RuleSet, p: Chance<HandNotResolvedView>, depth: nat) -> Option<int>
    decreases depth, 3nat, 0nat,
{
    match p {
        Chance::Pure(k) => if settlement_defined(k) {
            minmax_resolved(config, k.whose_turn, spec_resolve(k, config), depth)
        } else {
            None
        },
        Chance::Water { failure, success } => if !settlement_defined(failure) || !settlement_defined(success) {
            None
        } else { match (
            minmax_resolved(config, failure.whose_turn, spec_resolve(failure, config), depth),
            minmax_resolved(config, success.whose_turn, spec_resolve(success, config), depth),
        ) {
            (Some(a), Some(b)) => Some(trunc_div(a + b, 2)),
            _ => None,
        } },
        _ => None,
    }
}

/// The value, for the player who moved, of a settled hand: minus the opponent's value one
/// move less deep; with a hand, the better of that and ending the season; where the game
/// ends, plus or minus 40 times `SCORE_SCALE`.
pub open spec fn minmax_resolved(config: RuleSet, whose_turn: Side, r: HandResolvedView, depth: nat) -> Option<int>
    decreases depth, 2nat, 0nat,
{
    match r {
        HandResolvedView::NeitherTymokNorTaxot(g) => if depth == 0 {
            None
        } else {
            match minmax_ground(config, g, (depth - 1) as nat) {
                Some(v) => Some(-v),
                None => None,
            }
        },
        HandResolvedView::HandExists { if_tymok, if_taxot } => if depth == 0 {
            None
        } else {
            match (minmax_ground(config, if_tymok, (depth - 1) as nat), minmax_taxot(whose_turn, if_taxot)) {
                (Some(a), Some(b)) => Some(if -a >= b { -a } else { b }),
                _ => None,
            }
        },
        HandResolvedView::GameEndsWithoutTymokTaxot(v) => Some(if v.0 == Some(whose_turn) { 40 * 256int } else { -40 * 256int }),
    }
}

proof fn lemma_ground_prefix_none(config: RuleSet, s: GroundStateView, all: Seq<MoveMessage>, depth: nat, i: nat, n: nat)
    requires
        i <= n <= all.len(),
        minmax_ground_prefix(config, s, all, depth, i) is None,
    ensures
        minmax_ground_prefix(config, s, all, depth, n) is None,
    decreases n - i,
{
    if n > i {
        lemma_ground_prefix_none(config, s, all, depth, i, (n - 1) as nat);
    }
}

proof fn lemma_ground_prefix_unread(config: RuleSet, s: GroundStateView, all: Seq<MoveMessage>, depth: nat, n: nat)
    requires
        n <= all.len(),
        forall|j: int| 0 <= j < all.len() ==> !minmax_reads(s, #[trigger] all[j]),
    ensures
        minmax_ground_prefix(config, s, all, depth, n) == Some(None::<int>),
    decreases n,
{
    if n > 0 {
        lemma_ground_prefix_unread(config, s, all, depth, (n - 1) as nat);
        assert(!minmax_reads(s, all[n - 1]));
        assert(minmax_candidate(config, s, all[n - 1], depth) == Some(None::<int>));
    }
}

proof fn lemma_excited_prefix_none(config: RuleSet, s: ExcitedStateView, c: Seq<AfterHalfAcceptance>, depth: nat, i: nat, n: nat)
    requires
        i <= n <= c.len(),
        minmax_excited_prefix(config, s, c, depth, i) is None,
    ensures
        minmax_excited_prefix(config, s, c, depth, n) is None,
    decreases n - i,
{
    if n > i {
        lemma_excited_prefix_none(config, s, c, depth, i, (n - 1) as nat);
    }
}

pub open spec fn within_bound(v: Option<i32>) -> bool {
    v matches Some(x) ==> -115240 <= x <= 115240
}

/// A node count after one more node: one more, or the same where the count is at its
/// largest value.
pub open spec fn one_more(n: u64) -> u64 {
    if n < u64::MAX {
        (n + 1) as u64
    } else {
        n
    }
}

/// A node count that at least one node was added to (where the count could still grow).
pub open spec fn counted(before: u64, after: u64) -> bool {
    after >= one_more(before)
}

fn bump(n: &mut u64)
    ensures
        *final(n) == one_more(*old(n)),
{
    if *n < u64::MAX {
        *n = *n + 1;
    }
}

/// The minimax player.
pub struct MinMaxPlayer {
    config: RuleSet,
    nodes: u64,
}

impl MinMaxPlayer {
    /// The rules that the player plays by.
    pub closed spec fn rules(&self) -> RuleSet {
        self.config
    }

    /// How many positions the last search read (0 before any search).
    pub closed spec fn nodes(&self) -> u64 {
        self.nodes
    }

    /// How many positions the last search read.
    pub fn node_count(&self) -> (n: u64)
        ensures
            n == self.nodes(),
    {
        self.nodes
    }

    /// A minimax player for these rules.
    pub fn new(config: RuleSet) -> (p: MinMaxPlayer)
        ensures
            p.rules() == config,
            p.nodes() == 0,
    {
        MinMaxPlayer { config, nodes: 0 }
    }

    /// The static evaluation of a state for the player to move (see `minmax_eval`); `None`
    /// where a hand holds more pieces of a kind than the game has.
    pub fn eval(&self, state: &GroundState) -> (r: Option<i32>)
        ensures
            int_of(r) == minmax_eval(state@),
            within_bound(r),
    {
        let result = score_gs(state);
        let player_hop1zuo1 = hop1zuo1_of(state.whose_turn, &state.f);
        let opponent_hop1zuo1 = hop1zuo1_of(
            match state.whose_turn {
                Side::IASide => Side::ASide,
                Side::ASide => Side::IASide,
            },
            &state.f,
        );
        let player_score = match hand_score(&player_hop1zuo1) {
            Some(v) => v,
            None => return None,
        };
        let opponent_score = match hand_score(&opponent_hop1zuo1) {
            Some(v) => v,
            None => return None,
        };
        proof {
            lemma_hand_size(player_hop1zuo1@);
            lemma_hand_size(opponent_hop1zuo1@);
        }
        Some(result + 2 * player_score * SCORE_SCALE - 2 * opponent_score * SCORE_SCALE
            + player_hop1zuo1.len() as i32 * SCORE_SCALE - opponent_hop1zuo1.len() as i32
            * SCORE_SCALE)
    }

    fn eval_taxot(&self, player: Side, state: &IfTaxot) -> (r: Option<i32>)
        requires
            state@ matches IfTaxotView::NextSeason(p) ==> p is WhoGoesFirst,
        ensures
            int_of(r) == minmax_taxot(player, state@),
            within_bound(r),
    {
        match state {
            IfTaxot::NextSeason(p) => {
                let s = match p {
                    Chance::WhoGoesFirst { ia_first, a_first } => {
                        if player == Side::IASide {
                            ia_first
                        } else {
                            a_first
                        }
                    },
                    _ => return None,
                };
                Some(score_gs(s) * SCORE_SCALE)
            },
            IfTaxot::VictoriousSide(v) => {
                if v.0 == Some(player) {
                    Some(40 * SCORE_SCALE)
                } else {
                    Some(-40 * SCORE_SCALE)
                }
            },
        }
    }

    fn eval_prob_hand_not_resolved(&self, prob_state: &Chance<HandNotResolved>, depth: usize, node_count: &mut u64) -> (r: Option<i32>)
        requires
            prob_state@ is Pure || prob_state@ is Water,
        ensures
            *final(node_count) >= *old(node_count),
            int_of(r) == minmax_prob_hnr(self.rules(), prob_state@, depth as nat),
            within_bound(r),
        decreases depth, 3nat, 0nat,
    {
        match prob_state {
            Chance::Pure(k) => {
                if !settlement_check(k) {
                    return None;
                }
                let resolved = resolve(k, self.config);
                self.eval_hand_resolved_recursive(k.whose_turn, &resolved, depth, node_count)
            },
            Chance::Water { failure, success } => {
                if !settlement_check(failure) || !settlement_check(success) {
                    return None;
                }
                let resolved_failure = resolve(failure, self.config);
                let resolved_success = resolve(success, self.config);
                let a = match self.eval_hand_resolved_recursive(failure.whose_turn, &resolved_failure, depth, node_count) {
                    Some(v) => v,
                    None => return None,
                };
                let b = match self.eval_hand_resolved_recursive(success.whose_turn, &resolved_success, depth, node_count) {
                    Some(v) => v,
                    None => return None,
                };
                Some((a + b) / 2)
            },
            // the rule engine gives no other shape for a finished move
            Chance::Sticks { .. } => None,
            Chance::WhoGoesFirst { .. } => None,
        }
    }

    fn eval_prob_excited(&self, msg: &InfAfterStep, prob_state: &Chance<ExcitedState>, depth: usize, node_count: &mut u64) -> (r: Option<i32>)
        requires
            prob_state@ is Sticks,
        ensures
            *final(node_count) >= *old(node_count),
            int_of(r) == minmax_prob_excited(self.rules(), prob_state@, depth as nat),
            within_bound(r),
        decreases depth, 6nat, 0nat,
    {
        match prob_state {
            Chance::Sticks { s0, s1, s2, s3, s4, s5 } => {
                let a = match self.eval_excited_recursive(msg, s1, Some(1), depth, node_count) {
                    Some(v) => v,
                    None => return None,
                };
                let b = match self.eval_excited_recursive(msg, s2, Some(2), depth, node_count) {
                    Some(v) => v,
                    None => return None,
                };
                let c = match self.eval_excited_recursive(msg, s3, Some(3), depth, node_count) {
                    Some(v) => v,
                    None => return None,
                };
                let d = match self.eval_excited_recursive(msg, s4, Some(4), depth, node_count) {
                    Some(v) => v,
                    None => return None,
                };
                Some((1 * a + 2 * b + 2 * c + 1 * d) / 6)
            },
            // the rule engine gives no other shape for a stepping cast
            _ => None,
        }
    }

    /// The value of one move (see `minmax_candidate`).
    fn eval_candidate(&self, state: &GroundState, pure_move: MoveMessage, depth: usize, node_count: &mut u64) -> (r: Option<Option<i32>>)
        ensures
            *final(node_count) >= *old(node_count),
            r matches Some(v) ==> within_bound(v),
            (match r {
                None => None,
                Some(v) => Some(int_of(v)),
            }) == minmax_candidate(self.rules(), state@, pure_move, depth as nat),
        decreases depth, 7nat, 0nat,
    {
        let config = self.config;
        match pure_move {
            MoveMessage::NormalMove(m) => {
                match m {
                    NormalMove::TamMoveNoStep { .. } => return Some(None),
                    NormalMove::TamMoveStepsDuringFormer { .. } => return Some(None),
                    NormalMove::TamMoveStepsDuringLatter { .. } => return Some(None),
                    NormalMove::NonTamMoveFromHopZuo { .. } => return Some(None),
                    NormalMove::NonTamMoveSrcStepDstFinite { src, step, dest } => {
                        if state.f.peek(step) == Some(BoardPiece::Tam2) || src == dest {
                            return Some(None);
                        }
                    },
                    NormalMove::NonTamMoveSrcDst { .. } => {},
                }
                let p = match apply_normal_move(state, m, config) {
                    Some(p) => p,
                    None => return None,
                };
                match self.eval_prob_hand_not_resolved(&p, depth, node_count) {
                    Some(v) => Some(Some(v)),
                    None => None,
                }
            },
            MoveMessage::InfAfterStep(m) => {
                if state.f.peek(m.src) == Some(BoardPiece::Tam2) {
                    return Some(None);
                }
                if state.f.peek(m.step) == Some(BoardPiece::Tam2) {
                    return Some(None);
                }
                if m.src == m.planned_direction {
                    return Some(None);
                }
                let p = match apply_inf_after_step(state, m, config) {
                    Some(p) => p,
                    None => return None,
                };
                match self.eval_prob_excited(&m, &p, depth, node_count) {
                    Some(v) => Some(Some(v)),
                    None => None,
                }
            },
        }
    }

    /// The value of a state read `depth` moves deep (see `minmax_ground`). A state in which
    /// no move is read has no value: the answer is then `None`.
    fn eval_ground_recursive(&self, state: &GroundState, depth: usize, node_count: &mut u64) -> (r: Option<i32>)
        ensures
            (depth > 0 && forall|j: int| 0 <= j < minmax_moves(self.rules(), state@).len() ==> !minmax_reads(state@, #[trigger] minmax_moves(self.rules(), state@)[j])) ==> r is None,
            counted(*old(node_count), *final(node_count)),
            depth == 0 ==> *final(node_count) == one_more(*old(node_count)),
            int_of(r) == minmax_ground(self.rules(), state@, depth as nat),
            within_bound(r),
        decreases depth, 9nat, 0nat,
    {
        bump(node_count);
        let ghost n1 = *node_count;
        if depth == 0 {
            return self.eval(state);
        }
        let config = self.config;
        let (hop1zuo1_candidates, mut candidates) = ground_candidates(state, config);
        let ghost all = spec_ground_candidates(state@, config).1 + spec_ground_candidates(state@, config).0;
        let mut k: usize = 0;
        while k < hop1zuo1_candidates.len()
            invariant
                k <= hop1zuo1_candidates@.len(),
                (hop1zuo1_candidates@, all) == (spec_ground_candidates(state@, config).0, spec_ground_candidates(state@, config).1 + spec_ground_candidates(state@, config).0),
                candidates@ == spec_ground_candidates(state@, config).1 + hop1zuo1_candidates@.take(k as int),
            decreases hop1zuo1_candidates@.len() - k,
        {
            candidates.push(hop1zuo1_candidates[k]);
            assert(hop1zuo1_candidates@.take(k + 1) == hop1zuo1_candidates@.take(k as int).push(hop1zuo1_candidates@[k as int]));
            k += 1;
        }
        assert(hop1zuo1_candidates@.take(k as int) == hop1zuo1_candidates@);
        assert(candidates@ == all);
        let mut acc: Option<i32> = None;
        let mut i: usize = 0;
        while i < candidates.len()
            invariant
                i <= candidates@.len(),
                candidates@ == all,
                all == spec_ground_candidates(state@, config).1 + spec_ground_candidates(state@, config).0,
                self.rules() == config,
                depth > 0,
                *node_count >= n1,
                n1 == one_more(*old(node_count)),
                minmax_ground_prefix(config, state@, all, depth as nat, i as nat) == Some(int_of(acc)),
                within_bound(acc),
            decreases candidates@.len() - i,
        {
            match self.eval_candidate(state, candidates[i], depth, node_count) {
                None => {
                    proof {
                        assert(minmax_candidate(config, state@, all[i as int], depth as nat) is None);
                        assert(minmax_ground_prefix(config, state@, all, depth as nat, (i + 1) as nat) is None);
                        lemma_ground_prefix_none(config, state@, all, depth as nat, (i + 1) as nat, all.len());
                    }
                    return None;
                },
                Some(None) => {},
                Some(Some(v)) => {
                    acc = match acc {
                        None => Some(v),
                        Some(a) => Some(if a >= v { a } else { v }),
                    };
                },
            }
            i += 1;
        }
        proof {
            let moves = minmax_moves(self.rules(), state@);
            assert(moves == all);
            if forall|j: int| 0 <= j < moves.len() ==> !minmax_reads(state@, #[trigger] moves[j]) {
                lemma_ground_prefix_unread(config, state@, all, depth as nat, all.len());
            }
        }
        acc
    }

    fn eval_excited_recursive(&self, msg: &InfAfterStep, state: &ExcitedState, ciurl: Option<usize>, depth: usize, node_count: &mut u64) -> (r: Option<i32>)
        ensures
            counted(*old(node_count), *final(node_count)),
            int_of(r) == minmax_excited(self.rules(), state@, depth as nat),
            within_bound(r),
        decreases depth, 5nat, 0nat,
    {
        bump(node_count);
        let ghost n1 = *node_count;
        let config = self.config;
        if state.c.f.peek(state.c.flying_piece_step).is_none() {
            return None;
        }
        let candidates = excited_candidates(state, config);
        let mut acc: Option<i32> = None;
        let mut i: usize = 0;
        while i < candidates.len()
            invariant
                i <= candidates@.len(),
                candidates@ == spec_excited_candidates(state@, config),
                self.rules() == config,
                state@.c.f.at(state@.c.flying_piece_step) is Some,
                *node_count >= n1,
                n1 == one_more(*old(node_count)),
                minmax_excited_prefix(config, state@, candidates@, depth as nat, i as nat) == Some(int_of(acc)),
                within_bound(acc),
            decreases candidates@.len() - i,
        {
            let v = match apply_after_half_acceptance(state, candidates[i], config) {
                Some(p) => self.eval_prob_hand_not_resolved(&p, depth, node_count),
                None => None,
            };
            match v {
                None => {
                    proof {
                        lemma_excited_prefix_none(config, state@, candidates@, depth as nat, (i + 1) as nat, candidates@.len());
                    }
                    return None;
                },
                Some(v) => {
                    acc = match acc {
                        None => Some(v),
                        Some(a) => Some(if a >= v { a } else { v }),
                    };
                },
            }
            i += 1;
        }
        acc
    }

    fn eval_hand_resolved_recursive(&self, whose_turn: Side, state: &HandResolved, depth: usize, node_count: &mut u64) -> (r: Option<i32>)
        requires
            state@ matches HandResolvedView::HandExists { if_taxot: IfTaxotView::NextSeason(p), .. } ==> p is WhoGoesFirst,
        ensures
            counted(*old(node_count), *final(node_count)),
            (depth == 0 || state@ is GameEndsWithoutTymokTaxot) ==> *final(node_count) == one_more(*old(node_count)),
            int_of(r) == minmax_resolved(self.rules(), whose_turn, state@, depth as nat),
            within_bound(r),
        decreases depth, 2nat, 0nat,
    {
        bump(node_count);
        match state {
            HandResolved::NeitherTymokNorTaxot(s) => {
                if depth == 0 {
                    return None;
                }
                match self.eval_ground_recursive(s, depth - 1, node_count) {
                    Some(v) => Some(-v),
                    None => None,
                }
            },
            HandResolved::HandExists { if_tymok, if_taxot } => {
                if depth == 0 {
                    return None;
                }
                let a = match self.eval_ground_recursive(if_tymok, depth - 1, node_count) {
                    Some(v) => v,
                    None => return None,
                };
                let b = match self.eval_taxot(whose_turn, if_taxot) {
                    Some(v) => v,
                    None => return None,
                };
                Some(if -a >= b { -a } else { b })
            },
            HandResolved::GameEndsWithoutTymokTaxot(v) => {
                if v.0 == Some(whose_turn) {
                    Some(40 * SCORE_SCALE)
                } else {
                    Some(-40 * SCORE_SCALE)
                }
            },
        }
    }
}

/// The moves that the minimax player reads, in its order: those of pieces on the board,
/// then those from hop1zuo1.
pub open spec fn minmax_moves(config: RuleSet, s: GroundStateView) -> Seq<MoveMessage> {
    spec_ground_candidates(s, config).1 + spec_ground_candidates(s, config).0
}

/// The scores of the moves, two moves deep (`None` for a move not read).
pub open spec fn minmax_move_scores(config: RuleSet, s: GroundStateView) -> Seq<Option<i32>> {
    Seq::new(
        minmax_moves(config, s).len(),
        |j: int|
            match minmax_candidate(config, s, minmax_moves(config, s)[j], 2) {
                Some(Some(v)) => Some(v as i32),
                _ => None,
            },
    )
}

/// The value of a destination after a stepping cast, two moves deep; `None` where no piece
/// stands on the stepped-over square.
pub open spec fn minmax_destination_value(config: RuleSet, s: ExcitedStateView, a: AfterHalfAcceptance) -> Option<int> {
    if s.c.f.at(s.c.flying_piece_step) is None {
        None
    } else {
        match spec_after_half_acceptance_outcome(s, a, config) {
            None => None,
            Some(p) => minmax_prob_hnr(config, p, 2),
        }
    }
}

/// The scores of the destinations, two moves deep.
pub open spec fn minmax_destination_scores(config: RuleSet, s: ExcitedStateView) -> Seq<Option<i32>> {
    Seq::new(
        spec_excited_candidates(s, config).len(),
        |j: int|
            match minmax_destination_value(config, s, spec_excited_candidates(s, config)[j]) {
                Some(v) => Some(v as i32),
                None => None,
            },
    )
}

impl CetkaikEngine for MinMaxPlayer {
    /// Plays the first move (see `minmax_moves`) with the best value two moves deep, if
    /// that value exceeds -12800. `None` where no value does, and where the reading of
    /// some move breaks off.
    #[verifier::loop_isolation(false)]
    fn search(&mut self, state: &GroundState) -> (r: Option<MoveMessage>)
        ensures
            final(self).rules() == old(self).rules(),
            (exists|j: int| 0 <= j < minmax_moves(old(self).rules(), state@).len() && (#[trigger] minmax_candidate(old(self).rules(), state@, minmax_moves(old(self).rules(), state@)[j], 2)) is None) ==> r is None,
            (forall|j: int| 0 <= j < minmax_moves(old(self).rules(), state@).len() ==> (#[trigger] minmax_candidate(old(self).rules(), state@, minmax_moves(old(self).rules(), state@)[j], 2)) is Some) ==> {
                &&& r matches Some(m) ==> exists|i: int| is_first_best(minmax_move_scores(old(self).rules(), state@), -12800, i) && minmax_moves(old(self).rules(), state@)[i] == m
                &&& r is None ==> forall|j: int| 0 <= j < minmax_move_scores(old(self).rules(), state@).len() && (#[trigger] minmax_move_scores(old(self).rules(), state@)[j]) is Some ==> minmax_move_scores(old(self).rules(), state@)[j]->0 <= -12800
            },
    {
        let config = self.config;
        let ghost all = minmax_moves(config, state@);
        let (hop1zuo1_candidates, mut candidates) = ground_candidates(state, config);
        let mut k: usize = 0;
        while k < hop1zuo1_candidates.len()
            invariant
                k <= hop1zuo1_candidates@.len(),
                hop1zuo1_candidates@ == spec_ground_candidates(state@, config).0,
                all == minmax_moves(config, state@),
                candidates@ == spec_ground_candidates(state@, config).1 + hop1zuo1_candidates@.take(k as int),
            decreases hop1zuo1_candidates@.len() - k,
        {
            candidates.push(hop1zuo1_candidates[k]);
            assert(hop1zuo1_candidates@.take(k + 1) == hop1zuo1_candidates@.take(k as int).push(hop1zuo1_candidates@[k as int]));
            k += 1;
        }
        assert(hop1zuo1_candidates@.take(k as int) == hop1zuo1_candidates@);
        let depth: usize = 2;
        let mut count: u64 = 0;
        let mut scores: Vec<Option<i32>> = Vec::new();
        let mut i: usize = 0;
        while i < candidates.len()
            invariant
                i <= candidates@.len(),
                candidates@ == all,
                all == minmax_moves(config, state@),
                self.rules() == config,
                scores@.len() == i,
                forall|j: int| 0 <= j < i ==> (#[trigger] minmax_candidate(config, state@, all[j], 2)) is Some,
                forall|j: int| 0 <= j < i ==> #[trigger] scores@[j] == minmax_move_scores(config, state@)[j],
            decreases candidates@.len() - i,
        {
            let c = self.eval_candidate(state, candidates[i], depth, &mut count);
            assert(depth as nat == 2);
            match c {
                None => {
                    assert(minmax_candidate(config, state@, all[i as int], 2) is None);
                    self.nodes = count;
                    return None;
                },
                Some(v) => {
                    assert(minmax_candidate(config, state@, all[i as int], 2) is Some);
                    scores.push(v);
                },
            }
            i += 1;
        }
        assert(scores@ == minmax_move_scores(config, state@));
        self.nodes = count;
        match first_best(&scores, -12800) {
            Some(j) => Some(candidates[j]),
            None => None,
        }
    }

    /// Plays the first destination with the best value two moves deep, if that value
    /// exceeds -12800. `None` where no value does, and where the reading of some
    /// destination breaks off.
    #[verifier::loop_isolation(false)]
    fn search_excited(&mut self, msg: &InfAfterStep, state: &ExcitedState, ciurl: Option<usize>) -> (r: Option<AfterHalfAcceptance>)
        ensures
            final(self).rules() == old(self).rules(),
            (exists|j: int| 0 <= j < spec_excited_candidates(state@, old(self).rules()).len() && (#[trigger] minmax_destination_value(old(self).rules(), state@, spec_excited_candidates(state@, old(self).rules())[j])) is None) ==> r is None,
            (forall|j: int| 0 <= j < spec_excited_candidates(state@, old(self).rules()).len() ==> (#[trigger] minmax_destination_value(old(self).rules(), state@, spec_excited_candidates(state@, old(self).rules())[j])) is Some) ==> {
                &&& r matches Some(a) ==> exists|i: int| is_first_best(minmax_destination_scores(old(self).rules(), state@), -12800, i) && spec_excited_candidates(state@, old(self).rules())[i] == a
                &&& r is None ==> forall|j: int| 0 <= j < minmax_destination_scores(old(self).rules(), state@).len() && (#[trigger] minmax_destination_scores(old(self).rules(), state@)[j]) is Some ==> minmax_destination_scores(old(self).rules(), state@)[j]->0 <= -12800
            },
    {
        let config = self.config;
        if state.c.f.peek(state.c.flying_piece_step).is_none() {
            self.nodes = 0;
            return None;
        }
        let candidates = excited_candidates(state, config);
        let depth: usize = 2;
        let mut count: u64 = 0;
        let mut scores: Vec<Option<i32>> = Vec::new();
        let mut i: usize = 0;
        while i < candidates.len()
            invariant
                i <= candidates@.len(),
                candidates@ == spec_excited_candidates(state@, config),
                self.rules() == config,
                scores@.len() == i,
                forall|j: int| 0 <= j < i ==> (#[trigger] minmax_destination_value(config, state@, candidates@[j])) is Some,
                forall|j: int| 0 <= j < i ==> #[trigger] scores@[j] == minmax_destination_scores(config, state@)[j],
            decreases candidates@.len() - i,
        {
            let v = match apply_after_half_acceptance(state, candidates[i], config) {
                Some(p) => self.eval_prob_hand_not_resolved(&p, depth, &mut count),
                None => None,
            };
            assert(depth as nat == 2);
            match v {
                None => {
                    assert(minmax_destination_value(config, state@, candidates@[i as int]) is None);
                    self.nodes = count;
                    return None;
                },
                Some(v) => {
                    assert(minmax_destination_value(config, state@, candidates@[i as int]) is Some);
                    scores.push(Some(v));
                },
            }
            i += 1;
        }
        assert(scores@ == minmax_destination_scores(config, state@));
        self.nodes = count;
        match first_best(&scores, -12800) {
            Some(j) => Some(candidates[j]),
            None => None,
        }
    }

    /// Always ends the season.
    fn search_hand_resolved(&mut self, s: &HandExists_) -> (r: Option<TymokOrTaxot_>)
        ensures
            *final(self) == *old(self),
            r matches Some(TymokOrTaxot_::Taxot(t)) && t@ == s.if_taxot@,
    {
        Some(TymokOrTaxot_::Taxot(s.if_taxot.duplicate()))
    }
}

} // verus!

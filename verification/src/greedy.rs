//! A player that looks one move ahead and plays the move whose outcome scores best.
use crate::cetkaik_engine::{
    first_best, is_first_best, score_hnr, score_lead, CetkaikEngine, HandExists_, TymokOrTaxot_,
};
use crate::model::{hop1zuo1_of, BoardPiece, Square};
use crate::moves::{AfterHalfAcceptance, InfAfterStep, MoveMessage, NormalMove};
use crate::random::{shuffle, small_rng_from_entropy};
use crate::rules::{
    apply_after_half_acceptance, apply_inf_after_step, apply_normal_move, cast, excited_after,
    excited_candidates, ground_candidates, hand_score, inf_after_step_accepted, lemma_hand_size,
    may_give, spec_after_half_acceptance_outcome, spec_excited_candidates, spec_ground_candidates,
    spec_hand_score, spec_normal_move_outcome, within_piece_limits,
};
use crate::state::{
    Chance, ExcitedState, ExcitedStateView, GroundState, GroundStateView, HandNotResolved,
    HandNotResolvedView, RuleSet,
};
use rand::rngs::SmallRng;
use vstd::prelude::*;

verus! {

/// How good a position is for the player who has just moved: their lead, plus twice the
/// score of the hands their pieces in hand make, plus the number of those pieces.
pub open spec fn greedy_eval(h: HandNotResolvedView) -> int {
    let hop = h.f.hop1zuo1(h.whose_turn);
    score_lead(h.whose_turn, h.scores) + 2 * spec_hand_score(hop) + hop.len()
}

/// Each piece in the mover's hand counts for one: with the same player to move, the same
/// scores and the same hand score, a hand holding one more piece evaluates exactly one higher.
pub proof fn lemma_greedy_eval_counts_pieces_in_hand(h1: HandNotResolvedView, h2: HandNotResolvedView)
    requires
        h1.whose_turn == h2.whose_turn,
        h1.scores == h2.scores,
        spec_hand_score(h2.f.hop1zuo1(h2.whose_turn)) == spec_hand_score(h1.f.hop1zuo1(h1.whose_turn)),
        h2.f.hop1zuo1(h2.whose_turn).len() == h1.f.hop1zuo1(h1.whose_turn).len() + 1,
    ensures
        greedy_eval(h2) == greedy_eval(h1) + 1,
        greedy_eval(h2) > greedy_eval(h1),
{
}

/// Each point of hand score counts twice: with the same player to move, the same scores
/// and as many pieces in hand, a hand worth `k` more evaluates `2 * k` higher.
pub proof fn lemma_greedy_eval_counts_hand_score(h1: HandNotResolvedView, h2: HandNotResolvedView)
    requires
        h1.whose_turn == h2.whose_turn,
        h1.scores == h2.scores,
        h2.f.hop1zuo1(h2.whose_turn).len() == h1.f.hop1zuo1(h1.whose_turn).len(),
    ensures
        greedy_eval(h2) - greedy_eval(h1) == 2 * (spec_hand_score(h2.f.hop1zuo1(h2.whose_turn))
            - spec_hand_score(h1.f.hop1zuo1(h1.whose_turn))),
{
}

/// With the same hand, the greedy evaluation moves with the lead of the player who has
/// just moved, point for point.
pub proof fn lemma_greedy_eval_follows_the_lead(h1: HandNotResolvedView, h2: HandNotResolvedView)
    requires
        h1.whose_turn == h2.whose_turn,
        h1.f.hop1zuo1(h1.whose_turn) == h2.f.hop1zuo1(h2.whose_turn),
    ensures
        greedy_eval(h2) - greedy_eval(h1) == score_lead(h2.whose_turn, h2.scores) - score_lead(h1.whose_turn, h1.scores),
{
}

/// Whether a move is read at all: Tam2 does not move, is not stepped on, and a piece that
/// steps must not come back to its square.
pub open spec fn greedy_reads(s: GroundStateView, m: MoveMessage) -> bool {
    match m {
        MoveMessage::NormalMove(NormalMove::TamMoveNoStep { .. }) => false,
        MoveMessage::NormalMove(NormalMove::TamMoveStepsDuringFormer { .. }) => false,
        MoveMessage::NormalMove(NormalMove::TamMoveStepsDuringLatter { .. }) => false,
        MoveMessage::NormalMove(NormalMove::NonTamMoveSrcStepDstFinite { src, step, dest }) => s.f.at(
            step,
        ) != Some(BoardPiece::Tam2) && src != dest,
        MoveMessage::NormalMove(_) => true,
        MoveMessage::InfAfterStep(i) => s.f.at(i.src) != Some(BoardPiece::Tam2) && s.f.at(i.step)
            != Some(BoardPiece::Tam2),
    }
}

/// Whether a move is among those that the rules allow in a state.
pub open spec fn is_candidate(s: GroundStateView, config: RuleSet, m: MoveMessage) -> bool {
    spec_ground_candidates(s, config).0.contains(m) || spec_ground_candidates(s, config).1.contains(m)
}

/// What reading one outcome gives: `Some(Some(v))` with its evaluation `v`, or a break-off
/// (`None`) where the mover's hand holds more pieces of a kind than the game has.
pub open spec fn greedy_read_outcome(h: HandNotResolvedView, v: Option<Option<i32>>) -> bool {
    if within_piece_limits(h.f.hop1zuo1(h.whose_turn)) {
        v matches Some(Some(x)) && x == greedy_eval(h)
    } else {
        v is None
    }
}

/// What reading the outcomes of a move may give: the reading of one of the outcomes that
/// the sticks can give; a break-off (`None`) where the rule engine refused the move.
pub open spec fn greedy_read_chance(p: Option<Chance<HandNotResolvedView>>, v: Option<Option<i32>>) -> bool {
    match p {
        None => v is None,
        Some(c) => exists|h: HandNotResolvedView| #[trigger] may_give(c, h) && greedy_read_outcome(h, v),
    }
}

/// What reading a destination after a stepping cast may give: nothing (`Some(None)`) for
/// the square the piece came from, otherwise the reading of what moving there leads to.
pub open spec fn greedy_destination_reading(config: RuleSet, e: ExcitedStateView, src: Square, a: AfterHalfAcceptance, v: Option<Option<i32>>) -> bool {
    if a.dest == Some(src) {
        v == Some(None::<i32>)
    } else {
        greedy_read_chance(spec_after_half_acceptance_outcome(e, a, config), v)
    }
}

/// The scores of a reading in which no candidate broke the reading off.
pub open spec fn reading_scores(readings: Seq<Option<Option<i32>>>) -> Seq<Option<i32>> {
    Seq::new(readings.len(), |j: int| readings[j]->0)
}

/// How a reading of `cands`, in this order, that gave `readings` ends in `r`: it breaks off
/// with no answer at the first candidate whose reading breaks off; where none does, it
/// answers the first candidate with the best score above -50, or nothing if no score is
/// above -50.
pub open spec fn reading_ends_in<M>(cands: Seq<M>, readings: Seq<Option<Option<i32>>>, r: Option<M>) -> bool {
    let scores = reading_scores(readings);
    &&& readings.len() <= cands.len()
    &&& forall|j: int| 0 <= j < readings.len() - 1 ==> (#[trigger] readings[j]) is Some
    &&& if readings.len() > 0 && readings.last() is None {
        r is None
    } else {
        &&& readings.len() == cands.len()
        &&& r matches Some(m) ==> exists|i: int| is_first_best(scores, -50, i) && cands[i] == m
        &&& r is None ==> forall|j: int| 0 <= j < scores.len() && (#[trigger] scores[j]) is Some ==> scores[j]->0 <= -50
    }
}

/// What the greedy player may answer after a stepping cast in `e`, for the piece that left
/// `src`: a reading of the allowed destinations in their order, ending as
/// `reading_ends_in` says; no answer where no piece stands on the stepped-over square.
pub open spec fn greedy_excited_answer(config: RuleSet, e: ExcitedStateView, src: Square, r: Option<AfterHalfAcceptance>) -> bool {
    let cands = spec_excited_candidates(e, config);
    if e.c.f.at(e.c.flying_piece_step) is None {
        r is None
    } else { exists|readings: Seq<Option<Option<i32>>>|
        #![trigger reading_ends_in(cands, readings, r)]
        (forall|j: int| 0 <= j < readings.len() ==> greedy_destination_reading(config, e, src, cands[j], #[trigger] readings[j]))
        && reading_ends_in(cands, readings, r) }
}

/// What reading a stepping infinite movement gives once the player has answered `ra` after
/// the cast: nothing where it gives up the move, otherwise the reading of the destination's
/// outcomes.
pub open spec fn greedy_after_answer(config: RuleSet, e: ExcitedStateView, ra: Option<AfterHalfAcceptance>, v: Option<Option<i32>>) -> bool {
    match ra {
        None => v == Some(None::<i32>),
        Some(a) => if a.dest is None {
            v == Some(None::<i32>)
        } else {
            greedy_read_chance(spec_after_half_acceptance_outcome(e, a, config), v)
        },
    }
}

/// What reading a move may give: nothing (`Some(None)`) for a move not read; for a move
/// without stepping cast, the reading of one of its outcomes; for a stepping infinite
/// movement, a break-off where the rule engine refuses it, otherwise, after one of the
/// casts, the reading of what the player answers there.
pub open spec fn greedy_move_reading(config: RuleSet, s: GroundStateView, m: MoveMessage, v: Option<Option<i32>>) -> bool {
    if !greedy_reads(s, m) {
        v == Some(None::<i32>)
    } else {
        match m {
            MoveMessage::NormalMove(nm) => greedy_read_chance(spec_normal_move_outcome(s, nm, config), v),
            MoveMessage::InfAfterStep(i) => if !inf_after_step_accepted(s, i, config) {
                v is None
            } else {
                exists|n: i32, ra: Option<AfterHalfAcceptance>|
                    0 <= n <= 5 && #[trigger] greedy_excited_answer(config, excited_after(s, i, n), i.src, ra)
                        && greedy_after_answer(config, excited_after(s, i, n), ra, v)
            },
        }
    }
}

/// What the greedy player may answer in `s`: it reads the moves of the pieces on the board
/// in some order, then the moves from hop1zuo1, ending as `reading_ends_in` says.
pub open spec fn greedy_answer(config: RuleSet, s: GroundStateView, r: Option<MoveMessage>) -> bool {
    let from_hop1zuo1 = spec_ground_candidates(s, config).0;
    let others = spec_ground_candidates(s, config).1;
    exists|order: Seq<MoveMessage>, readings: Seq<Option<Option<i32>>>|
        #![trigger reading_ends_in(order + from_hop1zuo1, readings, r)]
        order.to_multiset() == others.to_multiset()
        && (forall|j: int| 0 <= j < readings.len() ==> greedy_move_reading(config, s, (order + from_hop1zuo1)[j], #[trigger] readings[j]))
        && reading_ends_in(order + from_hop1zuo1, readings, r)
}

/// A `Result` of a reading as a reading: `None` for the error.
pub open spec fn reading_of(r: Result<Option<i32>, ()>) -> Option<Option<i32>> {
    match r {
        Ok(v) => Some(v),
        Err(_) => None,
    }
}

/// The greedy player.
pub struct GreedyPlayer {
    config: RuleSet,
    rng: SmallRng,
}

impl GreedyPlayer {
    /// The rules that the player plays by.
    pub closed spec fn rules(&self) -> RuleSet {
        self.config
    }

    /// A greedy player for these rules, with a generator seeded from the operating system.
    pub fn new(config: RuleSet) -> (p: GreedyPlayer)
        ensures
            p.rules() == config,
    {
        GreedyPlayer { config, rng: small_rng_from_entropy() }
    }

    fn eval(&self, hnr_state: &HandNotResolved) -> (r: i32)
        requires
            within_piece_limits(hnr_state@.f.hop1zuo1(hnr_state.whose_turn)),
        ensures
            r == greedy_eval(hnr_state@),
    {
        let result = score_hnr(hnr_state);
        let player_hop1zuo1 = hop1zuo1_of(hnr_state.whose_turn, &hnr_state.f);
        let score = match hand_score(&player_hop1zuo1) {
            Some(v) => v,
            None => 0,
        };
        proof {
            lemma_hand_size(player_hop1zuo1@);
        }
        result + 2 * score + player_hop1zuo1.len() as i32
    }

    /// The score of the outcome of one move: `Ok(None)` for a move not read, `Err` where the
    /// rule engine refuses the move or the outcome cannot be evaluated.
    fn score_move(&mut self, s: &GroundState, pure_move: MoveMessage) -> (r: Result<Option<i32>, ()>)
        ensures
            final(self).rules() == old(self).rules(),
            greedy_move_reading(old(self).rules(), s@, pure_move, reading_of(r)),
            r matches Ok(Some(_)) ==> greedy_reads(s@, pure_move),
            !greedy_reads(s@, pure_move) ==> r == Ok::<Option<i32>, ()>(None),
    {
        let config = self.config;
        let hnr_state = match pure_move {
            MoveMessage::NormalMove(m) => {
                match m {
                    NormalMove::TamMoveNoStep { .. } => return Ok(None),
                    NormalMove::TamMoveStepsDuringFormer { .. } => return Ok(None),
                    NormalMove::TamMoveStepsDuringLatter { .. } => return Ok(None),
                    NormalMove::NonTamMoveSrcStepDstFinite { src, step, dest } => {
                        if s.f.peek(step) == Some(BoardPiece::Tam2) || src == dest {
                            return Ok(None);
                        }
                    },
                    _ => {},
                }
                let p = match apply_normal_move(s, m, config) {
                    Some(p) => p,
                    None => return Err(()),
                };
                let ghost pv = p@;
                let (h, _) = cast(p);
                assert(may_give(pv, h@));
                h
            },
            MoveMessage::InfAfterStep(m) => {
                if s.f.peek(m.src) == Some(BoardPiece::Tam2) {
                    return Ok(None);
                }
                if s.f.peek(m.step) == Some(BoardPiece::Tam2) {
                    return Ok(None);
                }
                let (ext_state, ciurl) = match apply_inf_after_step(s, m, config) {
                    Some(p) => cast(p),
                    None => return Err(()),
                };
                let ghost n: i32 = ciurl->0 as i32;
                assert(0 <= n <= 5 && ext_state@ == excited_after(s@, m, n));
                let ra = self.search_excited(&m, &ext_state, ciurl);
                assert(greedy_excited_answer(config, excited_after(s@, m, n), m.src, ra));
                match ra {
                    Some(aha_move) => {
                        if aha_move.dest.is_none() {
                            assert(greedy_after_answer(config, excited_after(s@, m, n), ra, Some(None)));
                            return Ok(None);
                        }
                        let p = match apply_after_half_acceptance(&ext_state, aha_move, config) {
                            Some(p) => p,
                            None => {
                                assert(greedy_after_answer(config, excited_after(s@, m, n), ra, None));
                                return Err(());
                            },
                        };
                        let ghost pv = p@;
                        let (h, _) = cast(p);
                        assert(may_give(pv, h@));
                        if !hand_score(&hop1zuo1_of(h.whose_turn, &h.f)).is_some() {
                            assert(greedy_read_outcome(h@, None));
                            assert(greedy_after_answer(config, excited_after(s@, m, n), ra, None));
                            return Err(());
                        }
                        let v = self.eval(&h);
                        assert(greedy_read_outcome(h@, Some(Some(v))));
                        assert(greedy_after_answer(config, excited_after(s@, m, n), ra, Some(Some(v))));
                        return Ok(Some(v));
                    },
                    None => {
                        assert(greedy_after_answer(config, excited_after(s@, m, n), ra, Some(None)));
                        return Ok(None);
                    },
                }
            },
        };
        if !hand_score(&hop1zuo1_of(hnr_state.whose_turn, &hnr_state.f)).is_some() {
            assert(greedy_read_outcome(hnr_state@, None));
            return Err(());
        }
        let v = self.eval(&hnr_state);
        assert(greedy_read_outcome(hnr_state@, Some(Some(v))));
        Ok(Some(v))
    }
}

impl CetkaikEngine for GreedyPlayer {
    /// Plays, among the moves it reads (in random order, moves from hop1zuo1 last), the first
    /// whose outcome (as the sticks fall) scores best, if that score exceeds -50. After a
    /// stepping cast it plays as `search_excited` says, and a move given up is not counted.
    /// `None` where no move qualifies, and where the rule engine refuses a move or an outcome
    /// holds more pieces of a kind than the game has.
    #[verifier::loop_isolation(false)]
    fn search(&mut self, s: &GroundState) -> (r: Option<MoveMessage>)
        ensures
            final(self).rules() == old(self).rules(),
            greedy_answer(old(self).rules(), s@, r),
            r matches Some(m) ==> greedy_reads(s@, m) && is_candidate(s@, old(self).rules(), m),
            (forall|m: MoveMessage| #[trigger] is_candidate(s@, old(self).rules(), m) ==> !greedy_reads(s@, m)) ==> r is None,
    {
        let config = self.config;
        let ghost rules = self.rules();
        let (hop1zuo1_candidates, mut candidates) = ground_candidates(s, config);
        let ghost others = candidates@;
        let ghost hop = hop1zuo1_candidates@;
        assert(hop == spec_ground_candidates(s@, rules).0 && others == spec_ground_candidates(s@, rules).1);
        shuffle(&mut candidates, &mut self.rng);
        let ghost order = candidates@;
        let mut k: usize = 0;
        while k < hop1zuo1_candidates.len()
            invariant
                k <= hop1zuo1_candidates@.len(),
                hop == hop1zuo1_candidates@,
                candidates@ == order + hop.take(k as int),
            decreases hop1zuo1_candidates@.len() - k,
        {
            candidates.push(hop1zuo1_candidates[k]);
            assert(hop.take(k + 1) == hop.take(k as int).push(hop[k as int]));
            k += 1;
        }
        assert(hop.take(k as int) == hop);
        let ghost cands = candidates@;
        proof {
            assert forall|x: MoveMessage| #[trigger] cands.contains(x) implies is_candidate(s@, rules, x) by {
                let j = choose|j: int| 0 <= j < cands.len() && cands[j] == x;
                if j < order.len() {
                    assert(order[j] == x);
                    assert(order.contains(x));
                    broadcast use vstd::seq_lib::to_multiset_contains;
                    assert(order.to_multiset().count(x) == others.to_multiset().count(x));
                    assert(others.contains(x));
                } else {
                    assert(hop[j - order.len()] == x);
                    assert(hop.contains(x));
                }
            }
        }
        let mut scores: Vec<Option<i32>> = Vec::new();
        let ghost mut readings: Seq<Option<Option<i32>>> = Seq::empty();
        let mut i: usize = 0;
        while i < candidates.len()
            invariant
                i <= candidates@.len(),
                candidates@ == cands,
                scores@.len() == i,
                readings.len() == i,
                self.rules() == rules,
                forall|j: int| 0 <= j < i ==> #[trigger] readings[j] == Some(scores@[j]),
                forall|j: int| 0 <= j < i ==> greedy_move_reading(rules, s@, cands[j], #[trigger] readings[j]),
                forall|j: int| 0 <= j < i && (#[trigger] scores@[j]) is Some ==> greedy_reads(s@, candidates@[j]),
            decreases candidates@.len() - i,
        {
            let result = self.score_move(s, candidates[i]);
            let score = match result {
                Ok(score) => score,
                Err(()) => {
                    proof {
                        let rd = readings.push(None);
                        assert(greedy_move_reading(rules, s@, cands[i as int], rd[i as int]));
                        assert forall|j: int| 0 <= j < rd.len() implies greedy_move_reading(rules, s@, (order + hop)[j], #[trigger] rd[j]) by {
                            if j < i {
                                assert(rd[j] == readings[j]);
                            }
                        }
                        assert(reading_ends_in(order + hop, rd, None::<MoveMessage>));
                    }
                    return None;
                },
            };
            scores.push(score);
            proof {
                readings = readings.push(Some(score));
            }
            i += 1;
        }
        assert(reading_scores(readings) =~= scores@);
        let r = match first_best(&scores, -50) {
            Some(j) => {
                assert(candidates@.contains(candidates@[j as int]));
                Some(candidates[j])
            },
            None => None,
        };
        assert(reading_ends_in(order + hop, readings, r));
        r
    }

    /// Plays, among the allowed destinations other than the square the piece came from, the
    /// first whose outcome (as the sticks fall) scores best, if that score exceeds -50.
    /// `None` where no destination qualifies, and where the rule engine refuses a
    /// destination or an outcome holds more pieces of a kind than the game has.
    fn search_excited(&mut self, m: &InfAfterStep, s: &ExcitedState, ciurl: Option<usize>) -> (r: Option<AfterHalfAcceptance>)
        ensures
            final(self).rules() == old(self).rules(),
            greedy_excited_answer(old(self).rules(), s@, m.src, r),
            r matches Some(a) ==> spec_excited_candidates(s@, old(self).rules()).contains(a) && a.dest != Some(m.src),
            (forall|a: AfterHalfAcceptance| #[trigger] spec_excited_candidates(s@, old(self).rules()).contains(a) ==> a.dest == Some(m.src)) ==> r is None,
    {
        let config = self.config;
        if s.c.f.peek(s.c.flying_piece_step).is_none() {
            return None;
        }
        let candidates = excited_candidates(s, config);
        let ghost cands = candidates@;
        let mut scores: Vec<Option<i32>> = Vec::new();
        let ghost mut readings: Seq<Option<Option<i32>>> = Seq::empty();
        let mut i: usize = 0;
        while i < candidates.len()
            invariant
                i <= candidates@.len(),
                cands == candidates@,
                cands == spec_excited_candidates(s@, config),
                s@.c.f.at(s@.c.flying_piece_step) is Some,
                config == self.rules(),
                scores@.len() == i,
                readings.len() == i,
                forall|j: int| 0 <= j < i ==> #[trigger] readings[j] == Some(scores@[j]),
                forall|j: int| 0 <= j < i ==> greedy_destination_reading(config, s@, m.src, cands[j], #[trigger] readings[j]),
                forall|j: int| 0 <= j < i && (#[trigger] scores@[j]) is Some ==> candidates@[j].dest != Some(m.src),
            decreases candidates@.len() - i,
        {
            let aha_move = candidates[i];
            if aha_move.dest == Some(m.src) {
                scores.push(None);
                proof {
                    readings = readings.push(Some(None));
                }
            } else {
                let p = match apply_after_half_acceptance(s, aha_move, config) {
                    Some(p) => p,
                    None => {
                        proof {
                            let rd = readings.push(None);
                            assert(greedy_destination_reading(config, s@, m.src, cands[i as int], rd[i as int]));
                            assert(reading_ends_in(cands, rd, None::<AfterHalfAcceptance>));
                        }
                        return None;
                    },
                };
                let ghost pv = p@;
                let (hnr_state, _) = cast(p);
                assert(may_give(pv, hnr_state@));
                if !hand_score(&hop1zuo1_of(hnr_state.whose_turn, &hnr_state.f)).is_some() {
                    proof {
                        let rd = readings.push(None);
                        assert(greedy_read_outcome(hnr_state@, None));
                        assert(greedy_destination_reading(config, s@, m.src, cands[i as int], rd[i as int]));
                        assert(reading_ends_in(cands, rd, None::<AfterHalfAcceptance>));
                    }
                    return None;
                }
                let v = self.eval(&hnr_state);
                scores.push(Some(v));
                proof {
                    readings = readings.push(Some(Some(v)));
                    assert(greedy_read_outcome(hnr_state@, readings[i as int]));
                }
            }
            i += 1;
        }
        assert(reading_scores(readings) =~= scores@);
        let r = match first_best(&scores, -50) {
            Some(j) => {
                assert(candidates@.contains(candidates@[j as int]));
                Some(candidates[j])
            },
            None => None,
        };
        assert(reading_ends_in(cands, readings, r));
        r
    }

    /// Always ends the season.
    fn search_hand_resolved(&mut self, s: &HandExists_) -> (r: Option<TymokOrTaxot_>)
        ensures
            *final(self) == *old(self),
            r matches Some(TymokOrTaxot_::Taxot(t)) && t@ == s.if_taxot@,
    {
        Some(TymokOrTaxot_::Taxot(s.if_taxot.duplicate()))
    }
}

} // verus!

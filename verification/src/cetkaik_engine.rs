//! What an engine is asked, and the score difference that the engines evaluate.
use crate::model::Side;
use crate::moves::{AfterHalfAcceptance, InfAfterStep, MoveMessage};
use crate::state::{ExcitedState, GroundState, HandNotResolved, IfTaxot, ScorePair};
use vstd::prelude::*;

verus! {

/// A hand has been completed: the state if the player goes on (tymok), and what ending
/// the season (taxot) leads to.
#[derive(Clone, Debug)]
pub struct HandExists_ {
    pub if_tymok: GroundState,
    pub if_taxot: IfTaxot,
}

/// The player's answer to a completed hand.
#[derive(Clone, Debug)]
pub enum TymokOrTaxot_ {
    Tymok(GroundState),
    Taxot(IfTaxot),
}

/// A player: picks a move, a destination after a stepping cast, and an answer to a
/// completed hand. `None` means that the player has nothing to offer.
pub trait CetkaikEngine {
    fn search(&mut self, s: &GroundState) -> Option<MoveMessage>;

    fn search_excited(&mut self, m: &InfAfterStep, s: &ExcitedState, ciurl: Option<usize>) -> Option<AfterHalfAcceptance>;

    fn search_hand_resolved(&mut self, s: &HandExists_) -> Option<TymokOrTaxot_>;
}

/// The lead of the player to move: their score minus the opponent's.
pub open spec fn score_lead(whose_turn: Side, scores: ScorePair) -> int {
    match whose_turn {
        Side::IASide => scores.ia_score() - scores.a_score(),
        Side::ASide => scores.a_score() - scores.ia_score(),
    }
}

/// The game is zero-sum: one player's lead is the other's deficit, and with scores summing
/// to 40 the lead of the IA side is twice its score minus 40.
pub proof fn lemma_score_lead_zero_sum(scores: ScorePair)
    requires
        scores.a_score() == 40 - scores.ia_score(),
    ensures
        score_lead(Side::IASide, scores) == -score_lead(Side::ASide, scores),
        score_lead(Side::IASide, scores) == 2 * scores.ia_score() - 40,
{
}

fn score_lead_of(whose_turn: Side, scores: ScorePair) -> (r: i32)
    ensures
        r == score_lead(whose_turn, scores),
        -40 < r < 40,
{
    match whose_turn {
        Side::IASide => scores.ia() - scores.a(),
        Side::ASide => scores.a() - scores.ia(),
    }
}

/// The lead of the player to move, in a ground state.
pub fn score_gs(s: &GroundState) -> (r: i32)
    ensures
        r == score_lead(s.whose_turn, s.scores),
        -40 < r < 40,
{
    score_lead_of(s.whose_turn, s.scores)
}

/// The lead of the player who has just moved, before the hand is settled.
pub fn score_hnr(s: &HandNotResolved) -> (r: i32)
    ensures
        r == score_lead(s.whose_turn, s.scores),
        -40 < r < 40,
{
    score_lead_of(s.whose_turn, s.scores)
}

/// Whether `i` holds the best score above `floor`, and no earlier position holds as much:
/// the position that a scan keeping the first strict improvement over `floor` ends on.
pub open spec fn is_first_best(scores: Seq<Option<i32>>, floor: int, i: int) -> bool {
    &&& 0 <= i < scores.len()
    &&& scores[i] matches Some(v) && v > floor
    &&& forall|j: int| 0 <= j < scores.len() && (#[trigger] scores[j]) is Some ==> scores[j]->0 <= scores[i]->0
    &&& forall|j: int| 0 <= j < i && (#[trigger] scores[j]) is Some ==> scores[j]->0 < scores[i]->0
}

/// The position of the first best score above `floor` (`None` for a position that was not
/// scored), or `None` where no score exceeds `floor`.
pub fn first_best(scores: &Vec<Option<i32>>, floor: i32) -> (r: Option<usize>)
    ensures
        r matches Some(i) ==> is_first_best(scores@, floor as int, i as int),
        r is None <==> forall|j: int| 0 <= j < scores@.len() && (#[trigger] scores@[j]) is Some ==> scores@[j]->0 <= floor,
{
    let mut best = floor;
    let mut best_index: Option<usize> = None;
    let mut j: usize = 0;
    while j < scores.len()
        invariant
            j <= scores@.len(),
            best >= floor,
            forall|k: int| 0 <= k < j && (#[trigger] scores@[k]) is Some ==> scores@[k]->0 <= best,
            best_index is None ==> best == floor,
            best_index matches Some(i) ==> i < j && scores@[i as int] == Some(best) && best > floor
                && forall|k: int| 0 <= k < i && (#[trigger] scores@[k]) is Some ==> scores@[k]->0 < best,
        decreases scores@.len() - j,
    {
        if let Some(v) = scores[j] {
            if v > best {
                best = v;
                best_index = Some(j);
            }
        }
        j += 1;
    }
    best_index
}

} // verus!

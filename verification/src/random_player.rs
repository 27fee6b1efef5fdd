//! A player that plays at random.
use crate::cetkaik_engine::{CetkaikEngine, HandExists_, TymokOrTaxot_};
use crate::moves::{AfterHalfAcceptance, InfAfterStep, MoveMessage};
use crate::random::{pick, small_rng_from_entropy};
use crate::rules::{excited_candidates, ground_candidates, spec_excited_candidates, spec_ground_candidates};
use crate::state::{ExcitedState, GroundState, RuleSet};
use rand::rngs::SmallRng;
use vstd::prelude::*;

verus! {

/// The random player.
pub struct RandomPlayer {
    config: RuleSet,
    rng: SmallRng,
}

impl RandomPlayer {
    /// The rules that the player plays by.
    pub closed spec fn rules(&self) -> RuleSet {
        self.config
    }

    /// A random player for these rules, with a generator seeded from the operating system.
    pub fn new(config: RuleSet) -> (p: RandomPlayer)
        ensures
            p.rules() == config,
    {
        RandomPlayer { config, rng: small_rng_from_entropy() }
    }
}

impl CetkaikEngine for RandomPlayer {
    /// A random move from hop1zuo1 if there is one, else a random move of a piece on the
    /// board; `None` where the rules allow no move.
    fn search(&mut self, s: &GroundState) -> (r: Option<MoveMessage>)
        ensures
            final(self).rules() == old(self).rules(),
            ({
                let (from_hop1zuo1, others) = spec_ground_candidates(s@, old(self).rules());
                &&& from_hop1zuo1.len() > 0 ==> (r matches Some(m) && from_hop1zuo1.contains(m))
                &&& from_hop1zuo1.len() == 0 && others.len() > 0 ==> (r matches Some(m) && others.contains(m))
                &&& from_hop1zuo1.len() == 0 && others.len() == 0 ==> r is None
            }),
    {
        let (hop1zuo1_candidates, candidates) = ground_candidates(s, self.config);
        let pure_move_1 = pick(&hop1zuo1_candidates, &mut self.rng);
        let pure_move_2 = pick(&candidates, &mut self.rng);
        match pure_move_1 {
            Some(m) => Some(m),
            None => pure_move_2,
        }
    }

    /// A random destination among those allowed (giving up the move among them).
    fn search_excited(&mut self, m: &InfAfterStep, s: &ExcitedState, ciurl: Option<usize>) -> (r: Option<AfterHalfAcceptance>)
        ensures
            final(self).rules() == old(self).rules(),
            r is None <==> spec_excited_candidates(s@, old(self).rules()).len() == 0,
            r matches Some(a) ==> spec_excited_candidates(s@, old(self).rules()).contains(a),
    {
        let candidates = excited_candidates(s, self.config);
        pick(&candidates, &mut self.rng)
    }

    /// Goes on or ends the season, at random.
    fn search_hand_resolved(&mut self, s: &HandExists_) -> (r: Option<TymokOrTaxot_>)
        ensures
            final(self).rules() == old(self).rules(),
            (r matches Some(TymokOrTaxot_::Tymok(g)) && g@ == s.if_tymok@)
                || (r matches Some(TymokOrTaxot_::Taxot(t)) && t@ == s.if_taxot@),
    {
        let options: Vec<bool> = vec![true, false];
        match pick(&options, &mut self.rng) {
            Some(true) => Some(TymokOrTaxot_::Tymok(s.if_tymok.duplicate())),
            _ => Some(TymokOrTaxot_::Taxot(s.if_taxot.duplicate())),
        }
    }
}

} // verus!

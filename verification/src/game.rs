//! One turn of a match between two engines: what the player to move chooses, what the
//! sticks give, and where the game goes next.
use crate::cetkaik_engine::{CetkaikEngine, HandExists_, TymokOrTaxot_};
use crate::model::{Side, Square};
use crate::moves::{AfterHalfAcceptance, InfAfterStep, MoveMessage};
use crate::rules::{
    apply_after_half_acceptance, apply_inf_after_step, apply_normal_move, cast, cast_gives,
    excited_after, game_start, inf_after_step_accepted, initial_piece_at, initial_state, may_give, resolve, settlement_check,
    settlement_defined, spec_after_half_acceptance_outcome, spec_normal_move_outcome, spec_resolve,
};
use crate::state::{
    Chance, ExcitedState, GroundState, GroundStateView, HandNotResolved, HandNotResolvedView, HandResolved,
    HandResolvedView, IfTaxot, RuleSet, Winner,
};
use vstd::prelude::*;

verus! {

/// Where the game stands after a turn.
#[derive(Clone, Debug)]
pub enum TurnOutcome {
    /// The game goes on from this state.
    Continue(GroundState),
    /// The game is over.
    Finished(Winner),
}

/// What happened in a turn.
#[derive(Clone, Debug)]
pub struct TurnRecord {
    /// The move played.
    pub played: MoveMessage,
    /// The stepping cast, for a stepping infinite movement.
    pub inf_after_step_ciurl: Option<usize>,
    /// The destination chosen after the stepping cast.
    pub excited_move: Option<AfterHalfAcceptance>,
    /// The water-entry cast, if there was one.
    pub water_entry_ciurl: Option<usize>,
    /// Whether the move completed a hand, and what followed.
    pub settled: HandResolved,
    /// Whether the player ended the season.
    pub taxot: bool,
    /// Where the game stands now.
    pub outcome: TurnOutcome,
}

/// Why a turn could not be played.
#[derive(Clone, Copy, PartialEq, Eq, Structural, Debug)]
pub enum TurnError {
    /// The player to move offered no move.
    NoMovePossible,
    /// The rule engine refused the move that the player chose.
    MoveRefused(MoveMessage),
    /// The player offered no destination after the stepping cast.
    NoDestination,
    /// The rule engine refused the destination that the player chose after a stepping
    /// cast of `ciurl`.
    DestinationRefused { played: InfAfterStep, ciurl: usize, chosen: AfterHalfAcceptance },
    /// The rule engine cannot settle the outcome of the move (see `settlement_defined`).
    SettlementRefused,
    /// The player offered no answer to a completed hand.
    NoAnswerToHand,
}

/// A move that the rule engine accepted: what it leads to once the sticks fall.
#[derive(Clone, Debug)]
pub enum AcceptedMove {
    /// A move without stepping cast: its outcomes.
    Normal(Chance<HandNotResolved>),
    /// A stepping infinite movement: the states after each result of the stepping cast.
    Stepping(Chance<ExcitedState>),
}

/// Whether the rule engine refuses a move in a state.
pub open spec fn move_refused(config: RuleSet, s: GroundStateView, m: MoveMessage) -> bool {
    match m {
        MoveMessage::NormalMove(n) => spec_normal_move_outcome(s, n, config) is None,
        MoveMessage::InfAfterStep(i) => !inf_after_step_accepted(s, i, config),
    }
}

/// Hands the destination chosen after a stepping cast to the rule engine: `None` exactly
/// where no piece stands on the stepped-over square or the engine refuses the destination;
/// otherwise its outcomes.
pub fn accept_destination(config: RuleSet, e: &ExcitedState, a: AfterHalfAcceptance) -> (r: Option<Chance<HandNotResolved>>)
    ensures
        r is None <==> (e@.c.f.at(e@.c.flying_piece_step) is None || spec_after_half_acceptance_outcome(e@, a, config) is None),
        r matches Some(p) ==> spec_after_half_acceptance_outcome(e@, a, config) == Some(p@),
{
    if e.c.f.peek(e.c.flying_piece_step).is_none() {
        return None;
    }
    apply_after_half_acceptance(e, a, config)
}

/// Settles whether a move completed a hand: `None` exactly where the rule engine cannot
/// settle the state (see `settlement_defined`); otherwise what `resolve` says.
pub fn settle(config: RuleSet, h: &HandNotResolved) -> (r: Option<HandResolved>)
    ensures
        r is None <==> !settlement_defined(h@),
        r matches Some(x) ==> x@ == spec_resolve(h@, config),
{
    if !settlement_check(h) {
        return None;
    }
    Some(resolve(h, config))
}

/// Whether `a` is what the rule engine accepts `m` as in `s`: the outcomes of a move
/// without stepping cast, or the states after each result of the stepping cast.
pub open spec fn accepted_as(config: RuleSet, s: GroundStateView, m: MoveMessage, a: AcceptedMove) -> bool {
    match (m, a) {
        (MoveMessage::NormalMove(n), AcceptedMove::Normal(p)) => spec_normal_move_outcome(s, n, config) == Some(p@),
        (MoveMessage::InfAfterStep(i), AcceptedMove::Stepping(p)) => p@ == (Chance::Sticks {
            s0: excited_after(s, i, 0),
            s1: excited_after(s, i, 1),
            s2: excited_after(s, i, 2),
            s3: excited_after(s, i, 3),
            s4: excited_after(s, i, 4),
            s5: excited_after(s, i, 5),
        }),
        _ => false,
    }
}

/// Hands a move to the rule engine: `None` exactly where it refuses the move; otherwise
/// what it accepts the move as (see `accepted_as`).
pub fn accept_move(config: RuleSet, s: &GroundState, m: MoveMessage) -> (r: Option<AcceptedMove>)
    ensures
        r is None <==> move_refused(config, s@, m),
        r matches Some(a) ==> accepted_as(config, s@, m, a),
{
    match m {
        MoveMessage::NormalMove(n) => match apply_normal_move(s, n, config) {
            Some(p) => Some(AcceptedMove::Normal(p)),
            None => None,
        },
        MoveMessage::InfAfterStep(i) => match apply_inf_after_step(s, i, config) {
            Some(p) => Some(AcceptedMove::Stepping(p)),
            None => None,
        },
    }
}

/// What the player's answer to "which move?" leads to: `NoMovePossible` exactly where it
/// gave none, `MoveRefused` with the move exactly where the rule engine refuses it, and
/// otherwise what the engine accepts the move as.
pub fn turn_after_answer(config: RuleSet, s: &GroundState, answer: Option<MoveMessage>) -> (r: Result<AcceptedMove, TurnError>)
    ensures
        (r == Err::<AcceptedMove, TurnError>(TurnError::NoMovePossible)) <==> answer is None,
        answer matches Some(m) ==> (move_refused(config, s@, m) <==> r == Err::<AcceptedMove, TurnError>(TurnError::MoveRefused(m))),
        answer matches Some(m) ==> (r is Err || (r matches Ok(a) && accepted_as(config, s@, m, a))),
        answer matches Some(m) ==> (r is Err ==> r == Err::<AcceptedMove, TurnError>(TurnError::MoveRefused(m))),
{
    match answer {
        None => Err(TurnError::NoMovePossible),
        Some(m) => match accept_move(config, s, m) {
            Some(a) => Ok(a),
            None => Err(TurnError::MoveRefused(m)),
        },
    }
}

/// What the player's answer to "where to?" after a stepping cast of `ciurl` leads to:
/// `NoDestination` exactly where it gave none, `DestinationRefused` exactly where no piece
/// stands on the stepped-over square or the rule engine refuses the destination, and
/// otherwise the destination's outcomes.
pub fn destination_after_answer(config: RuleSet, played: InfAfterStep, e: &ExcitedState, ciurl: usize, answer: Option<AfterHalfAcceptance>) -> (r: Result<Chance<HandNotResolved>, TurnError>)
    ensures
        (r == Err::<Chance<HandNotResolved>, TurnError>(TurnError::NoDestination)) <==> answer is None,
        answer matches Some(a) ==> ((e@.c.f.at(e@.c.flying_piece_step) is None || spec_after_half_acceptance_outcome(e@, a, config) is None) <==> r == Err::<Chance<HandNotResolved>, TurnError>(TurnError::DestinationRefused { played, ciurl, chosen: a })),
        r matches Ok(p) ==> (answer matches Some(a) && spec_after_half_acceptance_outcome(e@, a, config) == Some(p@)),
        answer matches Some(a) ==> (r is Err ==> r == Err::<Chance<HandNotResolved>, TurnError>(TurnError::DestinationRefused { played, ciurl, chosen: a })),
{
    match answer {
        None => Err(TurnError::NoDestination),
        Some(a) => match accept_destination(config, e, a) {
            Some(p) => Ok(p),
            None => Err(TurnError::DestinationRefused { played, ciurl, chosen: a }),
        },
    }
}

/// What the player's answer to a completed hand leads to, with whether it ended the
/// season: `NoAnswerToHand` where it gave none; going on (tymok) continues from the state
/// it gave; ending the season (taxot) continues from one of the states that the choice of
/// who moves first gives, or ends the game with the winner it gave.
pub fn outcome_after_answer(answer: Option<TymokOrTaxot_>) -> (r: Result<(TurnOutcome, bool), TurnError>)
    ensures
        (r == Err::<(TurnOutcome, bool), TurnError>(TurnError::NoAnswerToHand)) <==> answer is None,
        answer matches Some(TymokOrTaxot_::Tymok(g)) ==> (r matches Ok((TurnOutcome::Continue(n), false)) && n@ == g@),
        answer matches Some(TymokOrTaxot_::Taxot(IfTaxot::VictoriousSide(v))) ==> r == Ok::<(TurnOutcome, bool), TurnError>((TurnOutcome::Finished(v), true)),
        answer matches Some(TymokOrTaxot_::Taxot(IfTaxot::NextSeason(ps))) ==> (r matches Ok((TurnOutcome::Continue(n), true)) && may_give(ps@, n@)),
{
    match answer {
        Some(TymokOrTaxot_::Tymok(s)) => Ok((TurnOutcome::Continue(s), false)),
        Some(TymokOrTaxot_::Taxot(t)) => match t {
            IfTaxot::NextSeason(ps) => {
                let ghost pv = ps@;
                let (s, _) = cast(ps);
                assert(may_give(pv, s@));
                Ok((TurnOutcome::Continue(s), true))
            },
            IfTaxot::VictoriousSide(v) => Ok((TurnOutcome::Finished(v), true)),
        },
        None => Err(TurnError::NoAnswerToHand),
    }
}

/// What a move led to once the sticks fell and the hand was settled.
pub open spec fn settled_from(p: Chance<HandNotResolvedView>, water_entry_ciurl: Option<usize>, settled: HandResolvedView, config: RuleSet) -> bool {
    exists|h: HandNotResolvedView| cast_gives(p, h, water_entry_ciurl) && settled == spec_resolve(h, config)
}

/// Whether a turn record is consistent with the rules: the move was accepted, the sticks
/// gave one of their values, the hand was settled by the rule engine, and the game goes on
/// (or ends) as the settlement says where no answer of the player is involved.
pub open spec fn turn_follows_rules(state: crate::state::GroundStateView, config: RuleSet, rec: TurnRecord) -> bool {
    &&& match rec.played {
        MoveMessage::NormalMove(m) => {
            &&& rec.inf_after_step_ciurl is None
            &&& rec.excited_move is None
            &&& match spec_normal_move_outcome(state, m, config) {
                Some(p) => settled_from(p, rec.water_entry_ciurl, rec.settled@, config),
                None => false,
            }
        },
        MoveMessage::InfAfterStep(m) => {
            &&& inf_after_step_accepted(state, m, config)
            &&& match (rec.inf_after_step_ciurl, rec.excited_move) {
                (Some(n), Some(a)) => n <= 5 && match spec_after_half_acceptance_outcome(
                    excited_after(state, m, n as i32),
                    a,
                    config,
                ) {
                    Some(p) => settled_from(p, rec.water_entry_ciurl, rec.settled@, config),
                    None => false,
                },
                _ => false,
            }
        },
    }
    &&& rec.settled@ matches HandResolvedView::NeitherTymokNorTaxot(s) ==> (rec.outcome matches TurnOutcome::Continue(n) && n@ == s && !rec.taxot)
    &&& rec.settled@ matches HandResolvedView::GameEndsWithoutTymokTaxot(v) ==> (rec.outcome matches TurnOutcome::Finished(w) && w == v && !rec.taxot)
}

/// The first state of a match, with the player to move drawn at random.
pub fn start_game() -> (r: GroundState)
    ensures
        exists|other: crate::state::GroundStateView| game_start(r@, other) || game_start(other, r@),
        forall|c: Square| #[trigger] r@.f.at(c) == initial_piece_at(c),
{
    let p = initial_state();
    let ghost g = p@;
    let (s, _) = cast(p);
    proof {
        if let Chance::WhoGoesFirst { ia_first, a_first } = g {
            if s@ == ia_first {
                assert(game_start(s@, a_first));
            } else {
                assert(game_start(ia_first, s@));
            }
        }
    }
    s
}

/// Plays one turn: asks the player to move (the IA side's player or the A side's, and
/// never the other) for a move, casts the sticks, asks it for a destination after a
/// stepping cast, settles the hand and, where a hand is completed, asks it whether to go
/// on or end the season. Each answer is handed on as `turn_after_answer`,
/// `destination_after_answer` and `outcome_after_answer` say.
pub fn play_turn<I: CetkaikEngine, A: CetkaikEngine>(config: RuleSet, state: &GroundState, ia_player: &mut I, a_player: &mut A) -> (r: Result<TurnRecord, TurnError>)
    ensures
        state.whose_turn == Side::IASide ==> *final(a_player) == *old(a_player),
        state.whose_turn == Side::ASide ==> *final(ia_player) == *old(ia_player),
        r matches Ok(rec) ==> turn_follows_rules(state@, config, rec),
        r matches Err(TurnError::MoveRefused(m)) ==> move_refused(config, state@, m),
        r matches Err(TurnError::DestinationRefused { played, ciurl, chosen }) ==> {
            &&& inf_after_step_accepted(state@, played, config)
            &&& ciurl <= 5
            &&& spec_after_half_acceptance_outcome(excited_after(state@, played, ciurl as i32), chosen, config) is None
        },
{
    // the player to move is asked, and only that player
    let answer = match state.whose_turn {
        Side::IASide => ia_player.search(state),
        Side::ASide => a_player.search(state),
    };
    let accepted = turn_after_answer(config, state, answer);
    let pure_move = match answer {
        Some(m) => m,
        None => return Err(TurnError::NoMovePossible),
    };
    let accepted = match accepted {
        Ok(a) => a,
        Err(e) => return Err(e),
    };
    let (hnr_state, water_entry_ciurl, inf_after_step_ciurl, excited_move) = match accepted {
        AcceptedMove::Normal(p) => {
            let (h, w) = cast(p);
            (h, w, None, None)
        },
        AcceptedMove::Stepping(p) => {
            let m = match pure_move {
                MoveMessage::InfAfterStep(m) => m,
                MoveMessage::NormalMove(_) => return Err(TurnError::MoveRefused(pure_move)),
            };
            let (ext_state, inf_after_step_ciurl) = cast(p);
            let ghost n: usize = inf_after_step_ciurl->0;
            assert(inf_after_step_ciurl is Some && n <= 5 && ext_state@ == excited_after(state@, m, n as i32));
            let aha_move = match state.whose_turn {
                Side::IASide => ia_player.search_excited(&m, &ext_state, inf_after_step_ciurl),
                Side::ASide => a_player.search_excited(&m, &ext_state, inf_after_step_ciurl),
            };
            let ciurl = match inf_after_step_ciurl {
                Some(c) => c,
                None => 0,
            };
            let q = match destination_after_answer(config, m, &ext_state, ciurl, aha_move) {
                Ok(q) => q,
                Err(e) => return Err(e),
            };
            let (h, w) = cast(q);
            (h, w, inf_after_step_ciurl, aha_move)
        },
    };
    let resolved = match settle(config, &hnr_state) {
        Some(x) => x,
        None => return Err(TurnError::SettlementRefused),
    };
    let (outcome, taxot) = match &resolved {
        HandResolved::NeitherTymokNorTaxot(s) => (TurnOutcome::Continue(s.duplicate()), false),
        HandResolved::HandExists { if_tymok, if_taxot } => {
            let he = HandExists_ { if_tymok: if_tymok.duplicate(), if_taxot: if_taxot.duplicate() };
            let answer = match state.whose_turn {
                Side::IASide => ia_player.search_hand_resolved(&he),
                Side::ASide => a_player.search_hand_resolved(&he),
            };
            match outcome_after_answer(answer) {
                Ok(o) => o,
                Err(e) => return Err(e),
            }
        },
        HandResolved::GameEndsWithoutTymokTaxot(v) => (TurnOutcome::Finished(*v), false),
    };
    Ok(TurnRecord {
        played: pure_move,
        inf_after_step_ciurl,
        excited_move,
        water_entry_ciurl,
        settled: resolved,
        taxot,
        outcome,
    })
}

} // verus!

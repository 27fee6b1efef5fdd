//! Game states, as plain values, in the shapes that the rule engine passes them around.
use crate::model::{Side, NonTamPiece, Square, Position, PositionView};
use vstd::prelude::*;

verus! {

/// The season. A game lasts at most four seasons.
#[derive(Clone, Copy, PartialEq, Eq, Structural, Debug)]
pub enum SeasonName { Iei2, Xo1, Kat2, Iat1 }

/// The stake multiplier, doubled by each tymok.
#[derive(Clone, Copy, PartialEq, Eq, Structural, Debug)]
pub enum Stake { X1, X2, X4, X8, X16, X32, X64 }

pub open spec fn rate_num(r: Stake) -> int {
    match r {
        Stake::X1 => 1,
        Stake::X2 => 2,
        Stake::X4 => 4,
        Stake::X8 => 8,
        Stake::X16 => 16,
        Stake::X32 => 32,
        Stake::X64 => 64,
    }
}

/// Who won; `Winner(None)` is a tie.
#[derive(Clone, Copy, PartialEq, Eq, Structural, Debug)]
pub struct Winner(pub Option<Side>);

/// The two players' scores. Both start at 20; they always sum to 40, and a player whose
/// score reaches 0 has lost.
#[derive(Clone, Copy, PartialEq, Eq, Structural, Debug)]
pub struct ScorePair {
    ia: i32,
    a: i32,
}

impl ScorePair {
    #[verifier::type_invariant]
    spec fn scores_inv(self) -> bool {
        0 < self.ia < 40 && self.a == 40 - self.ia
    }

    /// The IA side's score.
    pub closed spec fn ia_score(self) -> int {
        self.ia as int
    }

    /// The A side's score.
    pub closed spec fn a_score(self) -> int {
        self.a as int
    }

    /// Both players at 20.
    pub fn new() -> (s: ScorePair)
        ensures
            s.ia_score() == 20,
            s.a_score() == 20,
    {
        ScorePair { ia: 20, a: 20 }
    }

    /// ScorePair as the rule engine reports them, which always meet the invariant.
    pub(crate) fn from_parts(ia: i32, a: i32) -> (s: ScorePair)
        requires
            0 < ia < 40,
            a == 40 - ia,
        ensures
            s.ia_score() == ia,
            s.a_score() == a,
    {
        ScorePair { ia, a }
    }

    /// The IA side's score.
    pub fn ia(self) -> (r: i32)
        ensures
            r == self.ia_score(),
            0 < r < 40,
            self.a_score() == 40 - r,
    {
        proof {
            use_type_invariant(&self);
        }
        self.ia
    }

    /// The A side's score.
    pub fn a(self) -> (r: i32)
        ensures
            r == self.a_score(),
            0 < r < 40,
            self.ia_score() == 40 - r,
    {
        proof {
            use_type_invariant(&self);
        }
        self.a
    }

    /// Scores with the IA side at `ia` points and the A side at the rest of 40.
    pub fn with_ia(ia: i32) -> (s: ScorePair)
        requires
            0 < ia < 40,
        ensures
            s.ia_score() == ia,
            s.a_score() == 40 - ia,
    {
        ScorePair { ia, a: 40 - ia }
    }

}

/// The rule variants that the rule engine offers.
#[derive(Clone, Copy, PartialEq, Eq, Structural, Debug)]
pub enum RuleSet {
    /// The rules of Cerke Online, alpha version.
    CerkeOnlineAlpha,
    /// The official rules, read strictly.
    StrictY1Huap1,
}

impl RuleSet {
    /// Whether the square that Tam2 stands on counts as tam2 hue.
    pub open spec fn spec_tam_itself_is_tam_hue(self) -> bool {
        match self {
            RuleSet::CerkeOnlineAlpha => true,
            RuleSet::StrictY1Huap1 => false,
        }
    }

    /// Whether the square that Tam2 stands on counts as tam2 hue.
    pub fn tam_itself_is_tam_hue(self) -> (b: bool)
        ensures
            b == self.spec_tam_itself_is_tam_hue(),
    {
        match self {
            RuleSet::CerkeOnlineAlpha => true,
            RuleSet::StrictY1Huap1 => false,
        }
    }

    /// The rules of Cerke Online, alpha version.
    pub fn cerke_online_alpha() -> (c: RuleSet)
        ensures
            c == RuleSet::CerkeOnlineAlpha,
    {
        RuleSet::CerkeOnlineAlpha
    }

    /// The official rules, read strictly.
    pub fn strict_y1_huap1() -> (c: RuleSet)
        ensures
            c == RuleSet::StrictY1Huap1,
    {
        RuleSet::StrictY1Huap1
    }
}

/// An outcome of casting sticks (or of deciding who goes first), one value per case.
#[derive(Clone, Debug)]
pub enum Chance<T> {
    Pure(T),
    Water { failure: T, success: T },
    Sticks { s0: T, s1: T, s2: T, s3: T, s4: T, s5: T },
    WhoGoesFirst { ia_first: T, a_first: T },
}

impl<T: View> View for Chance<T> {
    type V = Chance<T::V>;

    open spec fn view(&self) -> Chance<T::V> {
        match self {
            Chance::Pure(t) => Chance::Pure(t@),
            Chance::Water { failure, success } => Chance::Water {
                failure: failure@,
                success: success@,
            },
            Chance::Sticks { s0, s1, s2, s3, s4, s5 } => Chance::Sticks {
                s0: s0@,
                s1: s1@,
                s2: s2@,
                s3: s3@,
                s4: s4@,
                s5: s5@,
            },
            Chance::WhoGoesFirst { ia_first, a_first } => Chance::WhoGoesFirst {
                ia_first: ia_first@,
                a_first: a_first@,
            },
        }
    }
}

/// The view of an optional value.
pub open spec fn option_view<T: View>(o: Option<T>) -> Option<T::V> {
    match o {
        Some(t) => Some(t@),
        None => None,
    }
}

/// The usual state: a player is about to move.
#[derive(Clone, Debug)]
pub struct GroundState {
    pub f: Position,
    pub whose_turn: Side,
    pub season: SeasonName,
    pub scores: ScorePair,
    pub rate: Stake,
    pub tam_has_moved_previously: bool,
}

pub struct GroundStateView {
    pub f: PositionView,
    pub whose_turn: Side,
    pub season: SeasonName,
    pub scores: ScorePair,
    pub rate: Stake,
    pub tam_has_moved_previously: bool,
}

impl View for GroundState {
    type V = GroundStateView;

    open spec fn view(&self) -> GroundStateView {
        GroundStateView {
            f: self.f@,
            whose_turn: self.whose_turn,
            season: self.season,
            scores: self.scores,
            rate: self.rate,
            tam_has_moved_previously: self.tam_has_moved_previously,
        }
    }
}

impl GroundState {
    /// A copy of this state.
    pub fn duplicate(&self) -> (r: GroundState)
        ensures
            r@ == self@,
    {
        GroundState {
            f: self.f.duplicate(),
            whose_turn: self.whose_turn,
            season: self.season,
            scores: self.scores,
            rate: self.rate,
            tam_has_moved_previously: self.tam_has_moved_previously,
        }
    }
}

impl Chance<GroundState> {
    /// A copy of these states.
    pub fn duplicate(&self) -> (r: Chance<GroundState>)
        ensures
            r@ == self@,
    {
        match self {
            Chance::Pure(t) => Chance::Pure(t.duplicate()),
            Chance::Water { failure, success } => Chance::Water {
                failure: failure.duplicate(),
                success: success.duplicate(),
            },
            Chance::Sticks { s0, s1, s2, s3, s4, s5 } => Chance::Sticks {
                s0: s0.duplicate(),
                s1: s1.duplicate(),
                s2: s2.duplicate(),
                s3: s3.duplicate(),
                s4: s4.duplicate(),
                s5: s5.duplicate(),
            },
            Chance::WhoGoesFirst { ia_first, a_first } => Chance::WhoGoesFirst {
                ia_first: ia_first.duplicate(),
                a_first: a_first.duplicate(),
            },
        }
    }
}

/// A move has been made; whether it completed a hand is not yet settled.
#[derive(Clone, Debug)]
pub struct HandNotResolved {
    pub f: Position,
    pub whose_turn: Side,
    pub season: SeasonName,
    pub scores: ScorePair,
    pub rate: Stake,
    pub i_have_moved_tam_in_this_turn: bool,
    pub previous_a_side_hop1zuo1: Vec<NonTamPiece>,
    pub previous_ia_side_hop1zuo1: Vec<NonTamPiece>,
    pub kut2tam2_happened: bool,
    pub tam2tysak2_raw_penalty: i32,
    pub tam2tysak2_will_trigger_taxottymok: bool,
}

pub struct HandNotResolvedView {
    pub f: PositionView,
    pub whose_turn: Side,
    pub season: SeasonName,
    pub scores: ScorePair,
    pub rate: Stake,
    pub i_have_moved_tam_in_this_turn: bool,
    pub previous_a_side_hop1zuo1: Seq<NonTamPiece>,
    pub previous_ia_side_hop1zuo1: Seq<NonTamPiece>,
    pub kut2tam2_happened: bool,
    pub tam2tysak2_raw_penalty: i32,
    pub tam2tysak2_will_trigger_taxottymok: bool,
}

impl View for HandNotResolved {
    type V = HandNotResolvedView;

    open spec fn view(&self) -> HandNotResolvedView {
        HandNotResolvedView {
            f: self.f@,
            whose_turn: self.whose_turn,
            season: self.season,
            scores: self.scores,
            rate: self.rate,
            i_have_moved_tam_in_this_turn: self.i_have_moved_tam_in_this_turn,
            previous_a_side_hop1zuo1: self.previous_a_side_hop1zuo1@,
            previous_ia_side_hop1zuo1: self.previous_ia_side_hop1zuo1@,
            kut2tam2_happened: self.kut2tam2_happened,
            tam2tysak2_raw_penalty: self.tam2tysak2_raw_penalty,
            tam2tysak2_will_trigger_taxottymok: self.tam2tysak2_will_trigger_taxottymok,
        }
    }
}

/// A piece has stepped over another and plans an infinite movement; the sticks are not cast yet.
#[derive(Clone, Debug)]
pub struct ExcitedStateWithoutCiurl {
    pub f: Position,
    pub whose_turn: Side,
    pub flying_piece_src: Square,
    pub flying_piece_step: Square,
    pub flying_piece_planned_direction: Square,
    pub season: SeasonName,
    pub scores: ScorePair,
    pub rate: Stake,
}

pub struct ExcitedStateWithoutCiurlView {
    pub f: PositionView,
    pub whose_turn: Side,
    pub flying_piece_src: Square,
    pub flying_piece_step: Square,
    pub flying_piece_planned_direction: Square,
    pub season: SeasonName,
    pub scores: ScorePair,
    pub rate: Stake,
}

impl View for ExcitedStateWithoutCiurl {
    type V = ExcitedStateWithoutCiurlView;

    open spec fn view(&self) -> ExcitedStateWithoutCiurlView {
        ExcitedStateWithoutCiurlView {
            f: self.f@,
            whose_turn: self.whose_turn,
            flying_piece_src: self.flying_piece_src,
            flying_piece_step: self.flying_piece_step,
            flying_piece_planned_direction: self.flying_piece_planned_direction,
            season: self.season,
            scores: self.scores,
            rate: self.rate,
        }
    }
}

/// The sticks have been cast for a stepping infinite movement; `ciurl` is how far it may go.
#[derive(Clone, Debug)]
pub struct ExcitedState {
    pub c: ExcitedStateWithoutCiurl,
    pub ciurl: i32,
}

pub struct ExcitedStateView {
    pub c: ExcitedStateWithoutCiurlView,
    pub ciurl: i32,
}

impl View for ExcitedState {
    type V = ExcitedStateView;

    open spec fn view(&self) -> ExcitedStateView {
        ExcitedStateView { c: self.c@, ciurl: self.ciurl }
    }
}

/// What ending the season (taxot) leads to.
#[derive(Clone, Debug)]
pub enum IfTaxot {
    NextSeason(Chance<GroundState>),
    VictoriousSide(Winner),
}

pub enum IfTaxotView {
    NextSeason(Chance<GroundStateView>),
    VictoriousSide(Winner),
}

impl View for IfTaxot {
    type V = IfTaxotView;

    open spec fn view(&self) -> IfTaxotView {
        match self {
            IfTaxot::NextSeason(p) => IfTaxotView::NextSeason(p@),
            IfTaxot::VictoriousSide(v) => IfTaxotView::VictoriousSide(*v),
        }
    }
}

impl IfTaxot {
    /// A copy of this outcome.
    pub fn duplicate(&self) -> (r: IfTaxot)
        ensures
            r@ == self@,
    {
        match self {
            IfTaxot::NextSeason(p) => IfTaxot::NextSeason(p.duplicate()),
            IfTaxot::VictoriousSide(v) => IfTaxot::VictoriousSide(*v),
        }
    }
}

/// Whether the move completed a hand, and what follows.
#[derive(Clone, Debug)]
pub enum HandResolved {
    /// No hand: the turn passes.
    NeitherTymokNorTaxot(GroundState),
    /// A hand: the player chooses between going on (tymok) and ending the season (taxot).
    HandExists { if_tymok: GroundState, if_taxot: IfTaxot },
    /// The scores ran out without a hand.
    GameEndsWithoutTymokTaxot(Winner),
}

pub enum HandResolvedView {
    NeitherTymokNorTaxot(GroundStateView),
    HandExists { if_tymok: GroundStateView, if_taxot: IfTaxotView },
    GameEndsWithoutTymokTaxot(Winner),
}

impl View for HandResolved {
    type V = HandResolvedView;

    open spec fn view(&self) -> HandResolvedView {
        match self {
            HandResolved::NeitherTymokNorTaxot(g) => HandResolvedView::NeitherTymokNorTaxot(g@),
            HandResolved::HandExists { if_tymok, if_taxot } => HandResolvedView::HandExists {
                if_tymok: if_tymok@,
                if_taxot: if_taxot@,
            },
            HandResolved::GameEndsWithoutTymokTaxot(v) => HandResolvedView::GameEndsWithoutTymokTaxot(
                *v,
            ),
        }
    }
}

} // verus!

use cetkaik_ai::cetkaik_engine::{first_best, score_gs, score_hnr};
use cetkaik_ai::model::{Position, Side};
use cetkaik_ai::state::{
    GroundState, HandNotResolved, RuleSet, ScorePair, SeasonName, Stake,
};

fn ground(whose_turn: Side, scores: ScorePair) -> GroundState {
    GroundState {
        f: Position::empty(),
        whose_turn,
        season: SeasonName::Iei2,
        scores,
        rate: Stake::X1,
        tam_has_moved_previously: false,
    }
}

#[test]
fn scores_start_at_twenty_each() {
    let s = ScorePair::new();
    assert_eq!(s.ia(), 20);
    assert_eq!(s.a(), 20);
}

#[test]
fn scores_always_sum_to_forty() {
    let s = ScorePair::with_ia(30);
    assert_eq!((s.ia(), s.a()), (30, 10));
    let t = ScorePair::with_ia(1);
    assert_eq!((t.ia(), t.a()), (1, 39));
}

#[test]
fn rule_sets_differ_on_the_square_of_tam2() {
    assert!(RuleSet::cerke_online_alpha().tam_itself_is_tam_hue());
    assert!(!RuleSet::strict_y1_huap1().tam_itself_is_tam_hue());
    assert_eq!(RuleSet::cerke_online_alpha(), RuleSet::CerkeOnlineAlpha);
}

#[test]
fn the_lead_of_one_player_is_the_deficit_of_the_other() {
    let scores = ScorePair::with_ia(30);
    assert_eq!(score_gs(&ground(Side::IASide, scores)), 20);
    assert_eq!(score_gs(&ground(Side::ASide, scores)), -20);
    assert_eq!(score_gs(&ground(Side::ASide, ScorePair::new())), 0);
}

#[test]
fn the_lead_before_the_hand_is_settled() {
    let scores = ScorePair::with_ia(18);
    let h = HandNotResolved {
        f: Position::empty(),
        whose_turn: Side::IASide,
        season: SeasonName::Xo1,
        scores,
        rate: Stake::X1,
        i_have_moved_tam_in_this_turn: false,
        previous_a_side_hop1zuo1: Vec::new(),
        previous_ia_side_hop1zuo1: Vec::new(),
        kut2tam2_happened: false,
        tam2tysak2_raw_penalty: 0,
        tam2tysak2_will_trigger_taxottymok: false,
    };
    assert_eq!(score_hnr(&h), -4);
}

#[test]
fn first_best_keeps_the_first_strict_improvement() {
    assert_eq!(first_best(&vec![Some(3), None, Some(5), Some(5)], 0), Some(2));
    assert_eq!(first_best(&vec![Some(-60), Some(-55)], -50), None);
    assert_eq!(first_best(&vec![Some(-60), Some(-49)], -50), Some(1));
    assert_eq!(first_best(&vec![], -50), None);
    assert_eq!(first_best(&vec![None, None], -50), None);
    assert_eq!(first_best(&vec![Some(7), Some(2), Some(7)], -50), Some(0));
    assert_eq!(first_best(&vec![Some(-50)], -50), None);
}

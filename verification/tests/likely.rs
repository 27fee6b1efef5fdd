use cetkaik_ai::cerke_online_bot::{is_likely_to_succeed, is_very_likely_to_succeed, likely};
use cetkaik_ai::model::{Column, Row, Square};
use cetkaik_ai::moves::{InfAfterStep, MoveMessage, NormalMove};

#[test]
fn stepping_cast_of_three_is_likely_but_not_very_likely() {
    let m = MoveMessage::InfAfterStep(InfAfterStep {
        src: Square(Row::A, Column::K),
        step: Square(Row::I, Column::K),
        planned_direction: Square(Row::Y, Column::K),
    });
    assert!(is_likely_to_succeed(&m));
    assert!(!is_very_likely_to_succeed(&m));
}

#[test]
fn entering_water_is_not_likely() {
    let m = MoveMessage::NormalMove(NormalMove::NonTamMoveSrcDst {
        src: Square(Row::U, Column::Z),
        dest: Square(Row::O, Column::Z),
    });
    assert!(!is_likely_to_succeed(&m));
}

#[test]
fn a_higher_threshold_keeps_a_likely_move_likely() {
    let two = MoveMessage::InfAfterStep(InfAfterStep {
        src: Square(Row::A, Column::K),
        step: Square(Row::E, Column::K),
        planned_direction: Square(Row::U, Column::K),
    });
    assert!(likely(&two, 2));
    assert!(likely(&two, 3));
    let three = MoveMessage::InfAfterStep(InfAfterStep {
        src: Square(Row::A, Column::K),
        step: Square(Row::E, Column::K),
        planned_direction: Square(Row::O, Column::K),
    });
    assert!(!likely(&three, 2));
    assert!(likely(&three, 3));
    assert!(likely(&three, 4));
}

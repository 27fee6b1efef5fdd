//! Moves and the messages that carry them to the rule engine.
use crate::model::{PieceColor, Square, Prof};
use vstd::prelude::*;

verus! {

/// A move as the move generator lists it.
#[derive(Clone, Copy, PartialEq, Eq, Structural, Debug)]
pub enum PureMove {
    /// A non-Tam2 piece moves without stepping.
    NonTamMoveSrcDst { src: Square, dest: Square, is_water_entry_ciurl: bool },
    /// A non-Tam2 piece steps over a piece and ends with a finite movement.
    NonTamMoveSrcStepDstFinite { src: Square, step: Square, dest: Square, is_water_entry_ciurl: bool },
    /// A non-Tam2 piece steps over a piece and plans an infinite movement.
    InfAfterStep { src: Square, step: Square, planned_direction: Square },
    /// A piece is placed from hop1zuo1 onto the board.
    NonTamMoveFromHopZuo { color: PieceColor, prof: Prof, dest: Square },
    /// Tam2 moves twice without stepping.
    TamMoveNoStep { src: Square, first_dest: Square, second_dest: Square },
    /// Tam2 moves twice, stepping during the first half.
    TamMoveStepsDuringFormer { src: Square, step: Square, first_dest: Square, second_dest: Square },
    /// Tam2 moves twice, stepping during the second half.
    TamMoveStepsDuringLatter { src: Square, step: Square, first_dest: Square, second_dest: Square },
}

/// A move that needs no stepping cast.
#[derive(Clone, Copy, PartialEq, Eq, Structural, Debug)]
pub enum NormalMove {
    NonTamMoveSrcDst { src: Square, dest: Square },
    NonTamMoveSrcStepDstFinite { src: Square, step: Square, dest: Square },
    NonTamMoveFromHopZuo { color: PieceColor, prof: Prof, dest: Square },
    TamMoveNoStep { src: Square, first_dest: Square, second_dest: Square },
    TamMoveStepsDuringFormer { src: Square, step: Square, first_dest: Square, second_dest: Square },
    TamMoveStepsDuringLatter { src: Square, step: Square, first_dest: Square, second_dest: Square },
}

/// A move that steps over a piece and then plans an infinite movement; the sticks decide how far.
#[derive(Clone, Copy, PartialEq, Eq, Structural, Debug)]
pub struct InfAfterStep {
    pub src: Square,
    pub step: Square,
    pub planned_direction: Square,
}

/// A move as it is sent to the rule engine.
#[derive(Clone, Copy, PartialEq, Eq, Structural, Debug)]
pub enum MoveMessage {
    InfAfterStep(InfAfterStep),
    NormalMove(NormalMove),
}

/// The decision taken after the stepping cast: a destination, or `None` to give up the move.
#[derive(Clone, Copy, PartialEq, Eq, Structural, Debug)]
pub struct AfterHalfAcceptance {
    pub dest: Option<Square>,
}

/// The message that carries a move: the water-entry flag is dropped, and the stepping
/// infinite movement is told apart from all the others.
pub open spec fn to_message(m: PureMove) -> MoveMessage {
    match m {
        PureMove::NonTamMoveSrcDst { src, dest, .. } => MoveMessage::NormalMove(
            NormalMove::NonTamMoveSrcDst { src, dest },
        ),
        PureMove::NonTamMoveSrcStepDstFinite { src, step, dest, .. } => MoveMessage::NormalMove(
            NormalMove::NonTamMoveSrcStepDstFinite { src, step, dest },
        ),
        PureMove::InfAfterStep { src, step, planned_direction } => MoveMessage::InfAfterStep(
            InfAfterStep { src, step, planned_direction },
        ),
        PureMove::NonTamMoveFromHopZuo { color, prof, dest } => MoveMessage::NormalMove(
            NormalMove::NonTamMoveFromHopZuo { color, prof, dest },
        ),
        PureMove::TamMoveNoStep { src, first_dest, second_dest } => MoveMessage::NormalMove(
            NormalMove::TamMoveNoStep { src, first_dest, second_dest },
        ),
        PureMove::TamMoveStepsDuringFormer { src, step, first_dest, second_dest } =>
            MoveMessage::NormalMove(
            NormalMove::TamMoveStepsDuringFormer { src, step, first_dest, second_dest },
        ),
        PureMove::TamMoveStepsDuringLatter { src, step, first_dest, second_dest } =>
            MoveMessage::NormalMove(
            NormalMove::TamMoveStepsDuringLatter { src, step, first_dest, second_dest },
        ),
    }
}

impl PureMove {
    /// The message that carries this move.
    pub fn to_message(self) -> (r: MoveMessage)
        ensures
            r == to_message(self),
    {
        match self {
            PureMove::NonTamMoveSrcDst { src, dest, .. } => MoveMessage::NormalMove(
                NormalMove::NonTamMoveSrcDst { src, dest },
            ),
            PureMove::NonTamMoveSrcStepDstFinite { src, step, dest, .. } => MoveMessage::NormalMove(
                NormalMove::NonTamMoveSrcStepDstFinite { src, step, dest },
            ),
            PureMove::InfAfterStep { src, step, planned_direction } => MoveMessage::InfAfterStep(
                InfAfterStep { src, step, planned_direction },
            ),
            PureMove::NonTamMoveFromHopZuo { color, prof, dest } => MoveMessage::NormalMove(
                NormalMove::NonTamMoveFromHopZuo { color, prof, dest },
            ),
            PureMove::TamMoveNoStep { src, first_dest, second_dest } => MoveMessage::NormalMove(
                NormalMove::TamMoveNoStep { src, first_dest, second_dest },
            ),
            PureMove::TamMoveStepsDuringFormer { src, step, first_dest, second_dest } =>
                MoveMessage::NormalMove(
                NormalMove::TamMoveStepsDuringFormer { src, step, first_dest, second_dest },
            ),
            PureMove::TamMoveStepsDuringLatter { src, step, first_dest, second_dest } =>
                MoveMessage::NormalMove(
                NormalMove::TamMoveStepsDuringLatter { src, step, first_dest, second_dest },
            ),
        }
    }
}

} // verus!

//! Plain-value model of the cetkaik board, pieces, moves and game states.
//!
//! Every type here holds, as plain values, what the engines read; the rule crates do
//! their work on the equivalent `cetkaik_naive_representation` values (see `naive`).
use vstd::prelude::*;

verus! {

broadcast use vstd::array::group_array_axioms;

/// A row of the board, listed from the A side's back rank to the IA side's back rank.
#[derive(Clone, Copy, PartialEq, Eq, Structural, Debug)]
pub enum Row { A, E, I, U, O, Y, AI, AU, IA }

/// A column of the board, listed from K to P.
#[derive(Clone, Copy, PartialEq, Eq, Structural, Debug)]
pub enum Column { K, L, N, T, Z, X, C, M, P }

/// A square of the board in absolute coordinates.
#[derive(Clone, Copy, PartialEq, Eq, Structural, Debug)]
pub struct Square(pub Row, pub Column);

/// Colour of a piece.
#[derive(Clone, Copy, PartialEq, Eq, Structural, Debug)]
pub enum PieceColor { Kok1, Huok2 }

/// Prof of a piece.
#[derive(Clone, Copy, PartialEq, Eq, Structural, Debug)]
pub enum Prof { Nuak1, Kauk2, Gua2, Kaun1, Dau2, Maun1, Kua2, Tuk2, Uai1, Io }

/// The two players.
#[derive(Clone, Copy, PartialEq, Eq, Structural, Debug)]
pub enum Side { ASide, IASide }

/// A piece that can be held in hand (any piece but Tam2).
#[derive(Clone, Copy, PartialEq, Eq, Structural, Debug)]
pub struct NonTamPiece {
    pub color: PieceColor,
    pub prof: Prof,
}

/// A piece on the board.
#[derive(Clone, Copy, PartialEq, Eq, Structural, Debug)]
pub enum BoardPiece {
    Tam2,
    NonTam2Piece { color: PieceColor, prof: Prof, side: Side },
}

/// Index of a row in the order A, E, I, U, O, Y, AI, AU, IA.
pub open spec fn row_index(r: Row) -> int {
    match r {
        Row::A => 0,
        Row::E => 1,
        Row::I => 2,
        Row::U => 3,
        Row::O => 4,
        Row::Y => 5,
        Row::AI => 6,
        Row::AU => 7,
        Row::IA => 8,
    }
}

/// Index of a column in the order K, L, N, T, Z, X, C, M, P.
pub open spec fn col_index(c: Column) -> int {
    match c {
        Column::K => 0,
        Column::L => 1,
        Column::N => 2,
        Column::T => 3,
        Column::Z => 4,
        Column::X => 5,
        Column::C => 6,
        Column::M => 7,
        Column::P => 8,
    }
}

/// Where a square is stored in a `Position`'s board: row-major, 9 squares per row.
pub open spec fn square_index(c: Square) -> int {
    row_index(c.0) * 9 + col_index(c.1)
}

pub open spec fn row_at(i: int) -> Row {
    if i == 0 { Row::A } else if i == 1 { Row::E } else if i == 2 { Row::I } else if i == 3 {
        Row::U
    } else if i == 4 { Row::O } else if i == 5 { Row::Y } else if i == 6 { Row::AI } else if i
        == 7 {
        Row::AU
    } else {
        Row::IA
    }
}

pub open spec fn column_at(i: int) -> Column {
    if i == 0 { Column::K } else if i == 1 { Column::L } else if i == 2 { Column::N } else if i
        == 3 {
        Column::T
    } else if i == 4 { Column::Z } else if i == 5 { Column::X } else if i == 6 { Column::C } else if i
        == 7 {
        Column::M
    } else {
        Column::P
    }
}

/// The square stored at position `i` of a board.
pub open spec fn square_at(i: int) -> Square {
    Square(row_at(i / 9), column_at(i % 9))
}

pub proof fn lemma_square_index_bounds(c: Square)
    ensures
        0 <= square_index(c) < 81,
        square_at(square_index(c)) == c,
{
}

/// Position of a row in the order A, E, I, U, O, Y, AI, AU, IA.
pub fn row_pos(r: Row) -> (i: usize)
    ensures
        i == row_index(r),
{
    match r {
        Row::A => 0,
        Row::E => 1,
        Row::I => 2,
        Row::U => 3,
        Row::O => 4,
        Row::Y => 5,
        Row::AI => 6,
        Row::AU => 7,
        Row::IA => 8,
    }
}

/// Position of a column in the order K, L, N, T, Z, X, C, M, P.
pub fn col_pos(c: Column) -> (i: usize)
    ensures
        i == col_index(c),
{
    match c {
        Column::K => 0,
        Column::L => 1,
        Column::N => 2,
        Column::T => 3,
        Column::Z => 4,
        Column::X => 5,
        Column::C => 6,
        Column::M => 7,
        Column::P => 8,
    }
}

/// The storage position of a square.
pub fn square_pos(c: Square) -> (i: usize)
    ensures
        i == square_index(c),
        i < 81,
{
    row_pos(c.0) * 9 + col_pos(c.1)
}

/// The row at a position of the order A, E, I, U, O, Y, AI, AU, IA.
pub fn row_of_pos(i: usize) -> (r: Row)
    requires
        i < 9,
    ensures
        r == row_at(i as int),
        row_index(r) == i,
{
    match i {
        0 => Row::A,
        1 => Row::E,
        2 => Row::I,
        3 => Row::U,
        4 => Row::O,
        5 => Row::Y,
        6 => Row::AI,
        7 => Row::AU,
        _ => Row::IA,
    }
}

/// The column at a position of the order K, L, N, T, Z, X, C, M, P.
pub fn col_of_pos(i: usize) -> (c: Column)
    requires
        i < 9,
    ensures
        c == column_at(i as int),
        col_index(c) == i,
{
    match i {
        0 => Column::K,
        1 => Column::L,
        2 => Column::N,
        3 => Column::T,
        4 => Column::Z,
        5 => Column::X,
        6 => Column::C,
        7 => Column::M,
        _ => Column::P,
    }
}

/// The square stored at a position of a board.
pub fn square_of(i: usize) -> (c: Square)
    requires
        i < 81,
    ensures
        c == square_at(i as int),
        square_index(c) == i,
{
    Square(row_of_pos(i / 9), col_of_pos(i % 9))
}

pub open spec fn abs(x: int) -> int {
    if x < 0 { -x } else { x }
}

/// Distance between two squares: the larger of the row and the column difference.
pub open spec fn spec_distance(a: Square, b: Square) -> int {
    let dr = abs(row_index(a.0) - row_index(b.0));
    let dc = abs(col_index(a.1) - col_index(b.1));
    if dr < dc { dc } else { dr }
}

/// Distance between two squares: the larger of the row and the column difference.
pub fn distance(a: Square, b: Square) -> (d: i32)
    ensures
        d == spec_distance(a, b),
        0 <= d <= 8,
{
    let ra = row_pos(a.0) as i32;
    let rb = row_pos(b.0) as i32;
    let ca = col_pos(a.1) as i32;
    let cb = col_pos(b.1) as i32;
    let dr = if ra < rb { rb - ra } else { ra - rb };
    let dc = if ca < cb { cb - ca } else { ca - cb };
    if dr < dc { dc } else { dr }
}

/// Whether a square is tam2 nua2 (the water): the five central squares of row O and the
/// Z squares of rows I, U, Y and AI.
pub open spec fn spec_is_water(c: Square) -> bool {
    match c.0 {
        Row::O => c.1 == Column::N || c.1 == Column::T || c.1 == Column::Z || c.1 == Column::X
            || c.1 == Column::C,
        Row::I | Row::U | Row::Y | Row::AI => c.1 == Column::Z,
        _ => false,
    }
}

/// Whether a square is tam2 nua2 (the water).
pub fn is_water(c: Square) -> (b: bool)
    ensures
        b == spec_is_water(c),
{
    match c.0 {
        Row::O => c.1 == Column::N || c.1 == Column::T || c.1 == Column::Z || c.1 == Column::X
            || c.1 == Column::C,
        Row::I | Row::U | Row::Y | Row::AI => c.1 == Column::Z,
        _ => false,
    }
}

/// The board (81 squares, stored as `square_index` says) and each player's hop1zuo1
/// (the pieces in hand).
#[derive(Clone, Debug)]
pub struct Position {
    pub board: [Option<BoardPiece>; 81],
    pub a_side_hop1zuo1: Vec<NonTamPiece>,
    pub ia_side_hop1zuo1: Vec<NonTamPiece>,
}

/// Mathematical value of a `Position`.
pub struct PositionView {
    pub board: Seq<Option<BoardPiece>>,
    pub a_side_hop1zuo1: Seq<NonTamPiece>,
    pub ia_side_hop1zuo1: Seq<NonTamPiece>,
}

impl View for Position {
    type V = PositionView;

    open spec fn view(&self) -> PositionView {
        PositionView {
            board: self.board@,
            a_side_hop1zuo1: self.a_side_hop1zuo1@,
            ia_side_hop1zuo1: self.ia_side_hop1zuo1@,
        }
    }
}

impl PositionView {
    /// The piece on a square, if any.
    pub open spec fn at(self, c: Square) -> Option<BoardPiece> {
        self.board[square_index(c)]
    }

    /// The pieces that a player holds in hand.
    pub open spec fn hop1zuo1(self, side: Side) -> Seq<NonTamPiece> {
        match side {
            Side::ASide => self.a_side_hop1zuo1,
            Side::IASide => self.ia_side_hop1zuo1,
        }
    }
}

impl Position {
    /// A field with an empty board and no piece in hand.
    pub fn empty() -> (f: Position)
        ensures
            forall|c: Square| f@.at(c) is None,
            f@.a_side_hop1zuo1.len() == 0,
            f@.ia_side_hop1zuo1.len() == 0,
    {
        let f = Position { board: [None; 81], a_side_hop1zuo1: Vec::new(), ia_side_hop1zuo1: Vec::new() };
        assert forall|c: Square| f@.at(c) is None by {
            lemma_square_index_bounds(c);
        }
        f
    }

    /// A copy of this field.
    pub fn duplicate(&self) -> (f: Position)
        ensures
            f@ == self@,
    {
        Position {
            board: self.board,
            a_side_hop1zuo1: self.a_side_hop1zuo1.clone(),
            ia_side_hop1zuo1: self.ia_side_hop1zuo1.clone(),
        }
    }

    /// The piece on a square, if any.
    pub fn peek(&self, c: Square) -> (p: Option<BoardPiece>)
        ensures
            p == self@.at(c),
    {
        let i = square_pos(c);
        self.board[i]
    }

    /// Places a piece on a square (or clears it with `None`).
    pub fn put(&mut self, c: Square, p: Option<BoardPiece>)
        ensures
            final(self)@.board == old(self)@.board.update(square_index(c), p),
            final(self)@.a_side_hop1zuo1 == old(self)@.a_side_hop1zuo1,
            final(self)@.ia_side_hop1zuo1 == old(self)@.ia_side_hop1zuo1,
    {
        let i = square_pos(c);
        self.board[i] = p;
    }

    /// Adds a piece to a player's hand.
    pub fn insert_nontam_piece_into_hop1zuo1(&mut self, color: PieceColor, prof: Prof, side: Side)
        ensures
            final(self)@.board == old(self)@.board,
            final(self)@.hop1zuo1(side) == old(self)@.hop1zuo1(side).push(NonTamPiece { color, prof }),
            final(self)@.hop1zuo1(opponent(side)) == old(self)@.hop1zuo1(opponent(side)),
    {
        match side {
            Side::ASide => self.a_side_hop1zuo1.push(NonTamPiece { color, prof }),
            Side::IASide => self.ia_side_hop1zuo1.push(NonTamPiece { color, prof }),
        }
    }
}

/// The other player.
pub open spec fn opponent(side: Side) -> Side {
    match side {
        Side::ASide => Side::IASide,
        Side::IASide => Side::ASide,
    }
}

/// The nine squares that are tam2 hue whatever stands where: the four diagonal neighbours
/// of the centre square, the centre square itself, and the four squares two steps
/// diagonally away from it.
pub open spec fn is_tam_hue_by_default(c: Square) -> bool {
    let r = row_index(c.0);
    let k = col_index(c.1);
    (r == 2 && k == 2) || (r == 2 && k == 6) || (r == 3 && k == 3) || (r == 3 && k == 5) || (r == 4
        && k == 4) || (r == 5 && k == 3) || (r == 5 && k == 5) || (r == 6 && k == 2) || (r == 6
        && k == 6)
}

/// Whether a square is tam2 hue: one of the nine fixed squares, a square next to Tam2, or,
/// where the rules say so, the square of Tam2 itself.
pub open spec fn spec_is_tam_hue(f: PositionView, c: Square, tam_itself_is_tam_hue: bool) -> bool {
    ||| is_tam_hue_by_default(c)
    ||| (tam_itself_is_tam_hue && f.at(c) == Some(BoardPiece::Tam2))
    ||| exists|d: Square| spec_distance(d, c) == 1 && #[trigger] f.at(d) == Some(BoardPiece::Tam2)
}

/// The squares next to Tam2 are tam2 hue, and so is every square that is tam2 hue when
/// Tam2's own square is not counted.
pub proof fn lemma_tam_hue_around_tam(f: PositionView, c: Square, d: Square)
    ensures
        f.at(d) == Some(BoardPiece::Tam2) && spec_distance(d, c) == 1 ==> spec_is_tam_hue(f, c, false),
        spec_is_tam_hue(f, c, false) ==> spec_is_tam_hue(f, c, true),
{
}

/// Whether a square is tam2 hue (`is_tam_hue_relative` of `cetkaik_yhuap_move_candidates`,
/// whose whole behaviour `spec_is_tam_hue` states).
pub fn is_tam_hue_absolute(coord: Square, field: &Position, tam_itself_is_tam_hue: bool) -> (b: bool)
    ensures
        b == spec_is_tam_hue(field@, coord, tam_itself_is_tam_hue),
{
    let r = row_pos(coord.0);
    let k = col_pos(coord.1);
    if (r == 2 && k == 2) || (r == 2 && k == 6) || (r == 3 && k == 3) || (r == 3 && k == 5) || (r
        == 4 && k == 4) || (r == 5 && k == 3) || (r == 5 && k == 5) || (r == 6 && k == 2) || (r == 6
        && k == 6) {
        return true;
    }
    if tam_itself_is_tam_hue && field.peek(coord) == Some(BoardPiece::Tam2) {
        return true;
    }
    let mut i: usize = 0;
    while i < 81
        invariant
            i <= 81,
            forall|j: int|
                0 <= j < i ==> !(spec_distance(square_at(j), coord) == 1 && field@.board[j] == Some(
                    BoardPiece::Tam2,
                )),
        decreases 81 - i,
    {
        let d = square_of(i);
        if field.board[i] == Some(BoardPiece::Tam2) && distance(d, coord) == 1 {
            assert(field@.at(d) == Some(BoardPiece::Tam2));
            return true;
        }
        i += 1;
    }
    assert forall|d: Square| spec_distance(d, coord) == 1 implies #[trigger] field@.at(d) != Some(
        BoardPiece::Tam2,
    ) by {
        lemma_square_index_bounds(d);
    }
    false
}

/// The pieces that a player holds in hand, in the order they were taken.
pub fn hop1zuo1_of(side: Side, f: &Position) -> (v: Vec<NonTamPiece>)
    ensures
        v@ == f@.hop1zuo1(side),
{
    match side {
        Side::IASide => f.ia_side_hop1zuo1.clone(),
        Side::ASide => f.a_side_hop1zuo1.clone(),
    }
}

/// The board of a field as a map from each occupied square to its piece.
pub open spec fn board_map(f: PositionView) -> Map<Square, BoardPiece> {
    Map::new(|c: Square| f.at(c) is Some, |c: Square| f.at(c)->0)
}

/// The occupied squares of a field, in storage order, each with its piece.
pub fn occupied_squares(f: &Position) -> (v: Vec<(Square, BoardPiece)>)
    ensures
        forall|k: int| 0 <= k < v@.len() ==> f@.at(#[trigger] v@[k].0) == Some(v@[k].1),
        forall|c: Square| #[trigger] f@.at(c) is Some ==> exists|k: int| 0 <= k < v@.len() && v@[k].0 == c,
        forall|k: int, l: int| 0 <= k < l < v@.len() ==> square_index(#[trigger] v@[k].0) < square_index(#[trigger] v@[l].0),
{
    let mut v: Vec<(Square, BoardPiece)> = Vec::new();
    let mut i: usize = 0;
    while i < 81
        invariant
            i <= 81,
            forall|k: int| 0 <= k < v@.len() ==> f@.at(#[trigger] v@[k].0) == Some(v@[k].1),
            forall|k: int| 0 <= k < v@.len() ==> square_index(#[trigger] v@[k].0) < i,
            forall|j: int| 0 <= j < i && f@.board[j] is Some ==> exists|k: int| 0 <= k < v@.len() && v@[k].0 == square_at(j),
            forall|k: int, l: int| 0 <= k < l < v@.len() ==> square_index(#[trigger] v@[k].0) < square_index(#[trigger] v@[l].0),
        decreases 81 - i,
    {
        let c = square_of(i);
        if let Some(p) = f.board[i] {
            let ghost old_v = v@;
            v.push((c, p));
            assert forall|j: int| 0 <= j < i + 1 && f@.board[j] is Some implies exists|k: int| 0 <= k < v@.len() && v@[k].0 == square_at(j) by {
                if j < i {
                    let k = choose|k: int| 0 <= k < old_v.len() && old_v[k].0 == square_at(j);
                    assert(v@[k] == old_v[k]);
                } else {
                    assert(v@[old_v.len() as int].0 == square_at(j));
                }
            }
        }
        i += 1;
    }
    assert forall|c: Square| #[trigger] f@.at(c) is Some implies exists|k: int| 0 <= k < v@.len() && v@[k].0 == c by {
        lemma_square_index_bounds(c);
        assert(f@.board[square_index(c)] is Some);
    }
    v
}

/// A field holding the given pieces on the given squares and the given hands; where a square
/// is given twice, the later entry stands.
pub fn position_from_entries(entries: &Vec<(Square, BoardPiece)>, a_side_hop1zuo1: Vec<NonTamPiece>, ia_side_hop1zuo1: Vec<NonTamPiece>) -> (f: Position)
    ensures
        forall|c: Square| (forall|k: int| 0 <= k < entries@.len() ==> (#[trigger] entries@[k]).0 != c) ==> f@.at(c) is None,
        forall|k: int| 0 <= k < entries@.len() && (forall|l: int| k < l < entries@.len() ==> (#[trigger] entries@[l]).0 != entries@[k].0) ==> f@.at(#[trigger] entries@[k].0) == Some(entries@[k].1),
        f@.a_side_hop1zuo1 == a_side_hop1zuo1@,
        f@.ia_side_hop1zuo1 == ia_side_hop1zuo1@,
{
    let mut f = Position { board: [None; 81], a_side_hop1zuo1, ia_side_hop1zuo1 };
    let mut i: usize = 0;
    while i < entries.len()
        invariant
            i <= entries@.len(),
            f@.board.len() == 81,
            f@.a_side_hop1zuo1 == a_side_hop1zuo1@,
            f@.ia_side_hop1zuo1 == ia_side_hop1zuo1@,
            forall|c: Square| (forall|k: int| 0 <= k < i ==> (#[trigger] entries@[k]).0 != c) ==> f@.at(c) is None,
            forall|k: int| 0 <= k < i && (forall|l: int| k < l < i ==> (#[trigger] entries@[l]).0 != entries@[k].0) ==> f@.at(#[trigger] entries@[k].0) == Some(entries@[k].1),
        decreases entries@.len() - i,
    {
        let (c, p) = entries[i];
        proof {
            lemma_square_index_bounds(c);
        }
        let ghost old_f = f@;
        f.put(c, Some(p));
        proof {
            assert forall|d: Square| (forall|k: int| 0 <= k < i + 1 ==> (#[trigger] entries@[k]).0 != d) implies f@.at(d) is None by {
                lemma_square_index_bounds(d);
                assert(entries@[i as int].0 != d);
                assert(old_f.at(d) is None);
                if square_index(d) == square_index(c) {
                    assert(square_at(square_index(d)) == d);
                }
            }
            assert forall|k: int| 0 <= k < i + 1 && (forall|l: int| k < l < i + 1 ==> (#[trigger] entries@[l]).0 != entries@[k].0) implies f@.at(#[trigger] entries@[k].0) == Some(entries@[k].1) by {
                let d = entries@[k].0;
                lemma_square_index_bounds(d);
                if k < i {
                    assert(entries@[i as int].0 != d);
                    if square_index(d) == square_index(c) {
                        assert(square_at(square_index(d)) == d);
                    }
                }
            }
        }
        i += 1;
    }
    f
}

} // verus!

//! Static evaluation: material plus piece-square bonuses, from Red's point of view.

use vstd::prelude::*;
use crate::board::{initial_squares, lemma_board_len, position_at, Board, Piece, PieceType, Position, Side};

verus! {

broadcast use lemma_board_len;

/// Evaluator of positions.
pub struct Evaluator;

/// Pawn bonus by square (Red's view, index `y * 9 + x`): grows after crossing the river.
pub open spec fn pawn_table() -> Seq<i32> {
    seq![
        0, 0, 0, 0, 0, 0, 0, 0, 0,
        0, 0, 0, 0, 0, 0, 0, 0, 0,
        0, 0, 0, 0, 0, 0, 0, 0, 0,
        0, 0, 0, 0, 0, 0, 0, 0, 0,
        2, 6, 8, 12, 14, 12, 8, 6, 2,
        10, 20, 30, 40, 50, 40, 30, 20, 10,
        20, 40, 60, 80, 90, 80, 60, 40, 20,
        30, 60, 90, 110, 120, 110, 90, 60, 30,
        40, 80, 100, 120, 130, 120, 100, 80, 40,
        0, 0, 0, 0, 0, 0, 0, 0, 0,
    ]
}

/// Knight bonus by square: highest in the centre.
pub open spec fn knight_table() -> Seq<i32> {
    seq![
        0, 10, 20, 30, 30, 30, 20, 10, 0,
        10, 30, 40, 50, 50, 50, 40, 30, 10,
        20, 40, 60, 70, 70, 70, 60, 40, 20,
        30, 50, 70, 80, 80, 80, 70, 50, 30,
        40, 60, 80, 90, 90, 90, 80, 60, 40,
        40, 60, 80, 90, 90, 90, 80, 60, 40,
        30, 50, 70, 80, 80, 80, 70, 50, 30,
        20, 40, 60, 70, 70, 70, 60, 40, 20,
        10, 30, 40, 50, 50, 50, 40, 30, 10,
        0, 10, 20, 30, 30, 30, 20, 10, 0,
    ]
}

/// Cannon bonus by square.
pub open spec fn cannon_table() -> Seq<i32> {
    seq![
        10, 10, 10, 20, 30, 20, 10, 10, 10,
        10, 20, 30, 40, 50, 40, 30, 20, 10,
        10, 20, 30, 40, 50, 40, 30, 20, 10,
        10, 30, 40, 50, 60, 50, 40, 30, 10,
        10, 40, 50, 60, 70, 60, 50, 40, 10,
        10, 40, 50, 60, 70, 60, 50, 40, 10,
        10, 30, 40, 50, 60, 50, 40, 30, 10,
        10, 20, 30, 40, 50, 40, 30, 20, 10,
        10, 20, 30, 40, 50, 40, 30, 20, 10,
        10, 10, 10, 20, 30, 20, 10, 10, 10,
    ]
}

/// Rook bonus by square.
pub open spec fn rook_table() -> Seq<i32> {
    seq![
        10, 20, 20, 40, 50, 40, 20, 20, 10,
        20, 40, 50, 60, 70, 60, 50, 40, 20,
        20, 40, 50, 60, 70, 60, 50, 40, 20,
        30, 50, 60, 70, 80, 70, 60, 50, 30,
        40, 60, 70, 80, 90, 80, 70, 60, 40,
        40, 60, 70, 80, 90, 80, 70, 60, 40,
        30, 50, 60, 70, 80, 70, 60, 50, 30,
        20, 40, 50, 60, 70, 60, 50, 40, 20,
        20, 40, 50, 60, 70, 60, 50, 40, 20,
        10, 20, 20, 40, 50, 40, 20, 20, 10,
    ]
}

proof fn lemma_tables_bounded()
    ensures
        pawn_table().len() == 90,
        knight_table().len() == 90,
        cannon_table().len() == 90,
        rook_table().len() == 90,
        forall|i: int| 0 <= i < 90 ==> 0 <= #[trigger] pawn_table()[i] <= 130,
        forall|i: int| 0 <= i < 90 ==> 0 <= #[trigger] knight_table()[i] <= 130,
        forall|i: int| 0 <= i < 90 ==> 0 <= #[trigger] cannon_table()[i] <= 130,
        forall|i: int| 0 <= i < 90 ==> 0 <= #[trigger] rook_table()[i] <= 130,
{
}


fn pawn_bonus_table() -> (t: [i32; 90])
    ensures
        t@ == pawn_table(),
{
    [
            0, 0, 0, 0, 0, 0, 0, 0, 0,
            0, 0, 0, 0, 0, 0, 0, 0, 0,
            0, 0, 0, 0, 0, 0, 0, 0, 0,
            0, 0, 0, 0, 0, 0, 0, 0, 0,
            2, 6, 8, 12, 14, 12, 8, 6, 2,
            10, 20, 30, 40, 50, 40, 30, 20, 10,
            20, 40, 60, 80, 90, 80, 60, 40, 20,
            30, 60, 90, 110, 120, 110, 90, 60, 30,
            40, 80, 100, 120, 130, 120, 100, 80, 40,
            0, 0, 0, 0, 0, 0, 0, 0, 0,
    ]
}

fn knight_bonus_table() -> (t: [i32; 90])
    ensures
        t@ == knight_table(),
{
    [
            0, 10, 20, 30, 30, 30, 20, 10, 0,
            10, 30, 40, 50, 50, 50, 40, 30, 10,
            20, 40, 60, 70, 70, 70, 60, 40, 20,
            30, 50, 70, 80, 80, 80, 70, 50, 30,
            40, 60, 80, 90, 90, 90, 80, 60, 40,
            40, 60, 80, 90, 90, 90, 80, 60, 40,
            30, 50, 70, 80, 80, 80, 70, 50, 30,
            20, 40, 60, 70, 70, 70, 60, 40, 20,
            10, 30, 40, 50, 50, 50, 40, 30, 10,
            0, 10, 20, 30, 30, 30, 20, 10, 0,
    ]
}

fn cannon_bonus_table() -> (t: [i32; 90])
    ensures
        t@ == cannon_table(),
{
    [
            10, 10, 10, 20, 30, 20, 10, 10, 10,
            10, 20, 30, 40, 50, 40, 30, 20, 10,
            10, 20, 30, 40, 50, 40, 30, 20, 10,
            10, 30, 40, 50, 60, 50, 40, 30, 10,
            10, 40, 50, 60, 70, 60, 50, 40, 10,
            10, 40, 50, 60, 70, 60, 50, 40, 10,
            10, 30, 40, 50, 60, 50, 40, 30, 10,
            10, 20, 30, 40, 50, 40, 30, 20, 10,
            10, 20, 30, 40, 50, 40, 30, 20, 10,
            10, 10, 10, 20, 30, 20, 10, 10, 10,
    ]
}

fn rook_bonus_table() -> (t: [i32; 90])
    ensures
        t@ == rook_table(),
{
    [
            10, 20, 20, 40, 50, 40, 20, 20, 10,
            20, 40, 50, 60, 70, 60, 50, 40, 20,
            20, 40, 50, 60, 70, 60, 50, 40, 20,
            30, 50, 60, 70, 80, 70, 60, 50, 30,
            40, 60, 70, 80, 90, 80, 70, 60, 40,
            40, 60, 70, 80, 90, 80, 70, 60, 40,
            30, 50, 60, 70, 80, 70, 60, 50, 30,
            20, 40, 50, 60, 70, 60, 50, 40, 20,
            20, 40, 50, 60, 70, 60, 50, 40, 20,
            10, 20, 20, 40, 50, 40, 20, 20, 10,
    ]
}

/// Index into the bonus tables for a piece of `side` on `(x, y)`: Black's view is mirrored.
pub open spec fn table_index(side: Side, x: int, y: int) -> int {
    match side {
        Side::Red => y * 9 + x,
        Side::Black => (9 - y) * 9 + x,
    }
}

/// Positional bonus of `piece` on `pos` (kings, advisors and bishops get none).
pub open spec fn spec_position_bonus(pos: Position, piece: Piece) -> int {
    let i = table_index(piece.side, pos.x as int, pos.y as int);
    match piece.piece_type {
        PieceType::Pawn => pawn_table()[i] as int,
        PieceType::Knight => knight_table()[i] as int,
        PieceType::Cannon => cannon_table()[i] as int,
        PieceType::Rook => rook_table()[i] as int,
        _ => 0,
    }
}

/// Value of a piece including its positional bonus.
pub open spec fn spec_piece_score(pos: Position, piece: Piece) -> int {
    piece.piece_type.spec_value() + spec_position_bonus(pos, piece)
}

/// Contribution of square `i` to the evaluation: positive for Red, negative for Black.
pub open spec fn cell_score(cell: Option<Piece>, i: int) -> int {
    match cell {
        Some(p) => if p.side == Side::Red {
            spec_piece_score(position_at(i), p)
        } else {
            -spec_piece_score(position_at(i), p)
        },
        None => 0,
    }
}

/// Contribution of square `i` to the material count.
pub open spec fn cell_material(cell: Option<Piece>) -> int {
    match cell {
        Some(p) => if p.side == Side::Red {
            p.piece_type.spec_value() as int
        } else {
            -(p.piece_type.spec_value() as int)
        },
        None => 0,
    }
}

/// Sum of the contributions of squares `i..90`.
pub open spec fn eval_from(b: Seq<Option<Piece>>, i: int) -> int
    decreases 90 - i,
{
    if 0 <= i < 90 {
        cell_score(b[i], i) + eval_from(b, i + 1)
    } else {
        0
    }
}

/// Material of squares `i..90`.
pub open spec fn material_from(b: Seq<Option<Piece>>, i: int) -> int
    decreases 90 - i,
{
    if 0 <= i < 90 {
        cell_material(b[i]) + material_from(b, i + 1)
    } else {
        0
    }
}

/// Evaluation of a board from Red's point of view.
pub open spec fn spec_evaluate(b: Seq<Option<Piece>>) -> int {
    eval_from(b, 0)
}

/// Material balance of a board from Red's point of view.
pub open spec fn spec_material(b: Seq<Option<Piece>>) -> int {
    material_from(b, 0)
}

/// The four bonus tables, built once per evaluation.
struct Tables {
    pawn: [i32; 90],
    knight: [i32; 90],
    cannon: [i32; 90],
    rook: [i32; 90],
}

impl Tables {
    spec fn wf(&self) -> bool {
        &&& self.pawn@ == pawn_table()
        &&& self.knight@ == knight_table()
        &&& self.cannon@ == cannon_table()
        &&& self.rook@ == rook_table()
    }

    fn build() -> (t: Tables)
        ensures
            t.wf(),
    {
        Tables {
            pawn: pawn_bonus_table(),
            knight: knight_bonus_table(),
            cannon: cannon_bonus_table(),
            rook: rook_bonus_table(),
        }
    }
}

impl Evaluator {
    /// Evaluation from Red's point of view: material plus positional bonus of every Red
    /// piece, minus the same for every Black piece.
    pub fn evaluate(board: &Board) -> (score: i32)
        ensures
            score == spec_evaluate(board@),
            -911700 <= score <= 911700,
    {
        let tables = Tables::build();
        let mut score: i32 = 0;
        let mut i: usize = 90;
        while i > 0
            invariant
                i <= 90,
                tables.wf(),
                score == eval_from(board@, i as int),
                -(90 - i) * 10130 <= score <= (90 - i) * 10130,
            decreases i,
        {
            i = i - 1;
            let pos = Position::new_unchecked((i % 9) as u8, (i / 9) as u8);
            assert(pos == position_at(i as int));
            match board.get(pos) {
                Some(piece) => {
                    let piece_score = Self::evaluate_piece(pos, piece, &tables);
                    match piece.side {
                        Side::Red => score = score + piece_score,
                        Side::Black => score = score - piece_score,
                    }
                }
                None => {}
            }
        }
        score
    }

    /// Value of one piece including its positional bonus.
    fn evaluate_piece(pos: Position, piece: Piece, tables: &Tables) -> (s: i32)
        requires
            pos.valid(),
            tables.wf(),
        ensures
            s == spec_piece_score(pos, piece),
            0 <= s <= 10130,
    {
        let base_value = piece.piece_type.value();
        let position_bonus = Self::position_bonus(pos, piece, tables);
        base_value + position_bonus
    }

    /// Positional bonus of one piece.
    fn position_bonus(pos: Position, piece: Piece, tables: &Tables) -> (b: i32)
        requires
            pos.valid(),
            tables.wf(),
        ensures
            b == spec_position_bonus(pos, piece),
            0 <= b <= 130,
    {
        proof { lemma_tables_bounded(); }
        let index: usize = match piece.side {
            Side::Red => pos.y as usize * 9 + pos.x as usize,
            Side::Black => (9 - pos.y as usize) * 9 + pos.x as usize,
        };
        match piece.piece_type {
            PieceType::Pawn => tables.pawn[index],
            PieceType::Knight => tables.knight[index],
            PieceType::Cannon => tables.cannon[index],
            PieceType::Rook => tables.rook[index],
            _ => 0,
        }
    }

    /// Material balance only (no positional bonus).
    pub fn evaluate_material(board: &Board) -> (score: i32)
        ensures
            score == spec_material(board@),
    {
        let mut score: i32 = 0;
        let mut i: usize = 90;
        while i > 0
            invariant
                i <= 90,
                score == material_from(board@, i as int),
                -(90 - i) * 10000 <= score <= (90 - i) * 10000,
            decreases i,
        {
            i = i - 1;
            let pos = Position::new_unchecked((i % 9) as u8, (i / 9) as u8);
            match board.get(pos) {
                Some(piece) => {
                    let value = piece.piece_type.value();
                    match piece.side {
                        Side::Red => score = score + value,
                        Side::Black => score = score - value,
                    }
                }
                None => {}
            }
        }
        score
    }
}


/// A piece of the same kind for the other side.
pub open spec fn swap_side(cell: Option<Piece>) -> Option<Piece> {
    match cell {
        Some(p) => Some(Piece { piece_type: p.piece_type, side: p.side.spec_opponent() }),
        None => None,
    }
}

/// The square facing square `i` across the river (same file, rank `9 - y`).
pub open spec fn mirror_index(i: int) -> int {
    (9 - i / 9) * 9 + i % 9
}

/// The board seen from the other side: ranks reversed and colours swapped.
pub open spec fn mirror_board(b: Seq<Option<Piece>>) -> Seq<Option<Piece>> {
    Seq::new(90, |i: int| swap_side(b[mirror_index(i)]))
}

/// Sum of the contributions of squares `x..9` of rank `y`.
pub open spec fn row_eval(b: Seq<Option<Piece>>, y: int, x: int) -> int
    decreases 9 - x,
{
    if 0 <= x < 9 {
        cell_score(b[y * 9 + x], y * 9 + x) + row_eval(b, y, x + 1)
    } else {
        0
    }
}

/// Sum of the contributions of ranks `y..10`.
pub open spec fn rows_eval(b: Seq<Option<Piece>>, y: int) -> int
    decreases 10 - y,
{
    if 0 <= y < 10 {
        row_eval(b, y, 0) + rows_eval(b, y + 1)
    } else {
        0
    }
}

/// Material of squares `x..9` of rank `y`.
pub open spec fn row_material(b: Seq<Option<Piece>>, y: int, x: int) -> int
    decreases 9 - x,
{
    if 0 <= x < 9 {
        cell_material(b[y * 9 + x]) + row_material(b, y, x + 1)
    } else {
        0
    }
}

/// Material of ranks `y..10`.
pub open spec fn rows_material(b: Seq<Option<Piece>>, y: int) -> int
    decreases 10 - y,
{
    if 0 <= y < 10 {
        row_material(b, y, 0) + rows_material(b, y + 1)
    } else {
        0
    }
}

proof fn lemma_square_coords(x: int, y: int)
    requires
        0 <= x < 9,
        0 <= y < 10,
    ensures
        (y * 9 + x) / 9 == y,
        (y * 9 + x) % 9 == x,
        mirror_index(y * 9 + x) == (9 - y) * 9 + x,
        position_at(y * 9 + x) == (Position { x: x as u8, y: y as u8 }),
{
    assert((y * 9 + x) / 9 == y && (y * 9 + x) % 9 == x) by (nonlinear_arith)
        requires
            0 <= x < 9,
            0 <= y < 10,
    ;
}

proof fn lemma_row_split(b: Seq<Option<Piece>>, y: int, x: int)
    requires
        0 <= y < 10,
        0 <= x <= 9,
    ensures
        eval_from(b, y * 9 + x) == row_eval(b, y, x) + eval_from(b, y * 9 + 9),
        material_from(b, y * 9 + x) == row_material(b, y, x) + material_from(b, y * 9 + 9),
    decreases 9 - x,
{
    if x < 9 {
        lemma_row_split(b, y, x + 1);
    }
}

proof fn lemma_rows(b: Seq<Option<Piece>>, y: int)
    requires
        0 <= y <= 10,
    ensures
        eval_from(b, y * 9) == rows_eval(b, y),
        material_from(b, y * 9) == rows_material(b, y),
    decreases 10 - y,
{
    if y < 10 {
        lemma_rows(b, y + 1);
        lemma_row_split(b, y, 0);
    }
}

proof fn lemma_row_mirror(b: Seq<Option<Piece>>, y: int, x: int)
    requires
        b.len() == 90,
        0 <= y < 10,
        0 <= x <= 9,
    ensures
        row_eval(mirror_board(b), y, x) == -row_eval(b, 9 - y, x),
        row_material(mirror_board(b), y, x) == -row_material(b, 9 - y, x),
    decreases 9 - x,
{
    if x < 9 {
        lemma_row_mirror(b, y, x + 1);
        lemma_square_coords(x, y);
        lemma_square_coords(x, 9 - y);
        let mb = mirror_board(b);
        assert(mb[y * 9 + x] == swap_side(b[(9 - y) * 9 + x]));
    }
}

/// Seen from the other side, a position evaluates to the opposite score: mirroring the
/// ranks and swapping the colours negates both the evaluation and the material balance.
pub proof fn law_mirror_negates(b: Seq<Option<Piece>>)
    requires
        b.len() == 90,
    ensures
        spec_evaluate(mirror_board(b)) == -spec_evaluate(b),
        spec_material(mirror_board(b)) == -spec_material(b),
{
    let mb = mirror_board(b);
    lemma_rows(b, 0);
    lemma_rows(mb, 0);
    lemma_row_mirror(b, 0, 0);
    lemma_row_mirror(b, 1, 0);
    lemma_row_mirror(b, 2, 0);
    lemma_row_mirror(b, 3, 0);
    lemma_row_mirror(b, 4, 0);
    lemma_row_mirror(b, 5, 0);
    lemma_row_mirror(b, 6, 0);
    lemma_row_mirror(b, 7, 0);
    lemma_row_mirror(b, 8, 0);
    lemma_row_mirror(b, 9, 0);
    reveal_with_fuel(rows_eval, 11);
    reveal_with_fuel(rows_material, 11);
}

/// The starting position is its own mirror image, so it evaluates to exactly 0, both
/// in full and in material.
pub proof fn law_initial_balanced()
    ensures
        spec_evaluate(initial_squares()) == 0,
        spec_material(initial_squares()) == 0,
{
    let b = initial_squares();
    assert forall|i: int| 0 <= i < 90 implies #[trigger] mirror_board(b)[i] == b[i] by {
        let x = i % 9;
        let y = i / 9;
        assert(i == y * 9 + x);
        lemma_square_coords(x, y);
    }
    assert(mirror_board(b) =~= b);
    law_mirror_negates(b);
}

} // verus!

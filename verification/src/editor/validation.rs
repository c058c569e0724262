//! Validation of a position set up in the board editor.

use vstd::prelude::*;
use crate::board::{
    lemma_board_len, position_at, spec_kings_facing, Board, Piece, PieceType, Position, Side,
};

verus! {

broadcast use lemma_board_len;

/// Result of validating a position: blocking errors and warnings that may be ignored.
pub struct BoardValidation {
    pub errors: Vec<String>,
    pub warnings: Vec<String>,
}

/// The texts of a list of strings.
pub open spec fn texts(v: Seq<String>) -> Seq<Seq<char>> {
    v.map_values(|s: String| s@)
}

impl Default for BoardValidation {
    /// No errors and no warnings.
    fn default() -> (v: BoardValidation)
        ensures
            v.errors@.len() == 0,
            v.warnings@.len() == 0,
    {
        BoardValidation { errors: Vec::new(), warnings: Vec::new() }
    }
}

impl BoardValidation {

    /// Whether the position may be played: it has no errors.
    pub fn is_valid(&self) -> (r: bool)
        ensures
            r == (self.errors@.len() == 0),
    {
        self.errors.len() == 0
    }
}

pub open spec fn in_red_palace(x: int, y: int) -> bool {
    3 <= x <= 5 && y <= 2
}

pub open spec fn in_black_palace(x: int, y: int) -> bool {
    3 <= x <= 5 && y >= 7
}

/// Whether `(x, y)` is one of the seven squares a bishop of `side` can reach.
pub open spec fn bishop_square(x: int, y: int, side: Side) -> bool {
    if side == Side::Red {
        (x == 2 && y == 0) || (x == 6 && y == 0) || (x == 0 && y == 2) || (x == 4 && y == 2) || (x == 8
            && y == 2) || (x == 2 && y == 4) || (x == 6 && y == 4)
    } else {
        (x == 2 && y == 9) || (x == 6 && y == 9) || (x == 0 && y == 7) || (x == 4 && y == 7) || (x == 8
            && y == 7) || (x == 2 && y == 5) || (x == 6 && y == 5)
    }
}

/// The error a piece on `(x, y)` causes, if any: kings and advisors outside their palace,
/// bishops across the river.
pub open spec fn piece_error(p: Piece, x: int, y: int) -> Option<Seq<char>> {
    match (p.piece_type, p.side) {
        (PieceType::King, Side::Red) => if !in_red_palace(x, y) { Some("帥必须在九宫内"@) } else { None },
        (PieceType::King, Side::Black) => if !in_black_palace(x, y) { Some("將必须在九宫内"@) } else { None },
        (PieceType::Advisor, Side::Red) => if !in_red_palace(x, y) { Some("仕必须在九宫内"@) } else { None },
        (PieceType::Advisor, Side::Black) => if !in_black_palace(x, y) { Some("士必须在九宫内"@) } else { None },
        (PieceType::Bishop, Side::Red) => if !(y <= 4) { Some("相必须在红方半场"@) } else { None },
        (PieceType::Bishop, Side::Black) => if !(y >= 5) { Some("象必须在黑方半场"@) } else { None },
        _ => None,
    }
}

/// The warning a piece on `(x, y)` causes, if any: bishops on their own half but off their
/// seven squares, pawns on their own back rank.
pub open spec fn piece_warning(p: Piece, x: int, y: int) -> Option<Seq<char>> {
    match (p.piece_type, p.side) {
        (PieceType::Bishop, Side::Red) => if y <= 4 && !bishop_square(x, y, Side::Red) { Some("相在非标准位置"@) } else { None },
        (PieceType::Bishop, Side::Black) => if y >= 5 && !bishop_square(x, y, Side::Black) { Some("象在非标准位置"@) } else { None },
        (PieceType::Pawn, Side::Red) => if y == 0 { Some("兵的位置可能不合理（在底线）"@) } else { None },
        (PieceType::Pawn, Side::Black) => if y == 9 { Some("卒的位置可能不合理（在底线）"@) } else { None },
        _ => None,
    }
}

pub open spec fn opt_seq(o: Option<Seq<char>>) -> Seq<Seq<char>> {
    match o {
        Some(m) => seq![m],
        None => Seq::empty(),
    }
}

/// Errors caused by the pieces on squares `0..n`, in row-major order.
pub open spec fn square_errors(b: Seq<Option<Piece>>, n: int) -> Seq<Seq<char>>
    decreases n,
{
    if n <= 0 {
        Seq::empty()
    } else {
        square_errors(b, n - 1) + match b[n - 1] {
            Some(p) => opt_seq(piece_error(p, (n - 1) % 9, (n - 1) / 9)),
            None => Seq::empty(),
        }
    }
}

/// Warnings caused by the pieces on squares `0..n`, in row-major order.
pub open spec fn square_warnings(b: Seq<Option<Piece>>, n: int) -> Seq<Seq<char>>
    decreases n,
{
    if n <= 0 {
        Seq::empty()
    } else {
        square_warnings(b, n - 1) + match b[n - 1] {
            Some(p) => opt_seq(piece_warning(p, (n - 1) % 9, (n - 1) / 9)),
            None => Seq::empty(),
        }
    }
}

/// Number of pieces of `side` and `kind` on squares `0..n`.
pub open spec fn count_upto(b: Seq<Option<Piece>>, side: Side, kind: PieceType, n: int) -> nat
    decreases n,
{
    if n <= 0 {
        0
    } else {
        count_upto(b, side, kind, n - 1) + if b[n - 1] == Some(Piece { piece_type: kind, side }) {
            1nat
        } else {
            0nat
        }
    }
}

pub open spec fn count(b: Seq<Option<Piece>>, side: Side, kind: PieceType) -> nat {
    count_upto(b, side, kind, 90)
}

pub open spec fn when(c: bool, m: Seq<char>) -> Seq<Seq<char>> {
    if c {
        seq![m]
    } else {
        Seq::empty()
    }
}

/// Errors about the whole position from the piece counts, appended to `prefix` in the order
/// they are reported: a missing king, kings facing each other, more than two of a major or
/// minor piece, more than five pawns.
pub open spec fn whole_errors(prefix: Seq<Seq<char>>, rk: int, bk: int, facing: bool, rr: int, br: int, rn: int, bn: int, rc: int, bc: int, ra: int, ba: int, rb: int, bb: int, rp: int, bp: int) -> Seq<Seq<char>> {
    prefix
        + when(rk == 0, "红方必须有帥"@)
        + when(bk == 0, "黑方必须有將"@)
        + when(facing, "将帅不能面对面"@)
        + when(rr > 2, "红方車最多 2 个"@)
        + when(br > 2, "黑方車最多 2 个"@)
        + when(rn > 2, "红方馬最多 2 个"@)
        + when(bn > 2, "黑方馬最多 2 个"@)
        + when(rc > 2, "红方炮最多 2 个"@)
        + when(bc > 2, "黑方砲最多 2 个"@)
        + when(ra > 2, "红方仕最多 2 个"@)
        + when(ba > 2, "黑方士最多 2 个"@)
        + when(rb > 2, "红方相最多 2 个"@)
        + when(bb > 2, "黑方象最多 2 个"@)
        + when(rp > 5, "红方兵最多 5 个"@)
        + when(bp > 5, "黑方卒最多 5 个"@)
}

/// The whole-position errors of a board, appended to `prefix`.
pub open spec fn count_errors(prefix: Seq<Seq<char>>, b: Seq<Option<Piece>>) -> Seq<Seq<char>> {
    whole_errors(
        prefix,
        count(b, Side::Red, PieceType::King) as int,
        count(b, Side::Black, PieceType::King) as int,
        spec_kings_facing(b),
        count(b, Side::Red, PieceType::Rook) as int,
        count(b, Side::Black, PieceType::Rook) as int,
        count(b, Side::Red, PieceType::Knight) as int,
        count(b, Side::Black, PieceType::Knight) as int,
        count(b, Side::Red, PieceType::Cannon) as int,
        count(b, Side::Black, PieceType::Cannon) as int,
        count(b, Side::Red, PieceType::Advisor) as int,
        count(b, Side::Black, PieceType::Advisor) as int,
        count(b, Side::Red, PieceType::Bishop) as int,
        count(b, Side::Black, PieceType::Bishop) as int,
        count(b, Side::Red, PieceType::Pawn) as int,
        count(b, Side::Black, PieceType::Pawn) as int,
    )
}

/// All layout errors of a position.
pub open spec fn layout_errors(b: Seq<Option<Piece>>) -> Seq<Seq<char>> {
    count_errors(square_errors(b, 90), b)
}

/// All layout warnings of a position.
pub open spec fn layout_warnings(b: Seq<Option<Piece>>) -> Seq<Seq<char>> {
    square_warnings(b, 90)
}


/// The errors of the pieces on squares `0..n` include the error of each misplaced piece among
/// them.
proof fn lemma_square_error_listed(b: Seq<Option<Piece>>, n: int, i: int, p: Piece, m: Seq<char>)
    requires
        0 <= i < n <= b.len(),
        b[i] == Some(p),
        piece_error(p, i % 9, i / 9) == Some(m),
    ensures
        square_errors(b, n).contains(m),
    decreases n,
{
    let prev = square_errors(b, n - 1);
    if n - 1 == i {
        assert(square_errors(b, n) == prev + seq![m]);
        assert(square_errors(b, n)[prev.len() as int] == m);
    } else {
        lemma_square_error_listed(b, n - 1, i, p, m);
        let j = choose|j: int| 0 <= j < prev.len() && prev[j] == m;
        let tail = match b[n - 1] {
            Some(q) => opt_seq(piece_error(q, (n - 1) % 9, (n - 1) / 9)),
            None => Seq::<Seq<char>>::empty(),
        };
        assert(square_errors(b, n) == prev + tail);
        assert(square_errors(b, n)[j] == m);
    }
}

/// A piece outside the area it may stand in makes the layout invalid, with the message that
/// names it: a king or an advisor outside its palace (files 3 to 5; ranks 0 to 2 for Red,
/// 7 to 9 for Black), a bishop across the river (Red beyond rank 4, Black below rank 5).
pub proof fn law_misplaced_piece_reported(b: Seq<Option<Piece>>, i: int)
    requires
        b.len() == 90,
        0 <= i < 90,
    ensures
        b[i] == Some(Piece { piece_type: PieceType::Bishop, side: Side::Black }) && i / 9 < 5
            ==> layout_errors(b).contains("象必须在黑方半场"@),
        b[i] == Some(Piece { piece_type: PieceType::Bishop, side: Side::Red }) && i / 9 > 4
            ==> layout_errors(b).contains("相必须在红方半场"@),
        b[i] == Some(Piece { piece_type: PieceType::King, side: Side::Red }) && !(3 <= i % 9 <= 5 && i / 9
            <= 2) ==> layout_errors(b).contains("帥必须在九宫内"@),
        b[i] == Some(Piece { piece_type: PieceType::King, side: Side::Black }) && !(3 <= i % 9 <= 5 && i
            / 9 >= 7) ==> layout_errors(b).contains("將必须在九宫内"@),
        b[i] == Some(Piece { piece_type: PieceType::Advisor, side: Side::Red }) && !(3 <= i % 9 <= 5 && i
            / 9 <= 2) ==> layout_errors(b).contains("仕必须在九宫内"@),
        b[i] == Some(Piece { piece_type: PieceType::Advisor, side: Side::Black }) && !(3 <= i % 9 <= 5
            && i / 9 >= 7) ==> layout_errors(b).contains("士必须在九宫内"@),
        (b[i] matches Some(p) && piece_error(p, i % 9, i / 9) is Some) ==> layout_errors(b).len() > 0,
{
    if let Some(p) = b[i] {
        if let Some(m) = piece_error(p, i % 9, i / 9) {
            lemma_square_error_listed(b, 90, i, p, m);
            let sq = square_errors(b, 90);
            let j = choose|j: int| 0 <= j < sq.len() && sq[j] == m;
            let all = layout_errors(b);
            assert(all.len() >= sq.len());
            assert(all.subrange(0, sq.len() as int) =~= sq);
            assert(all[j] == m);
        }
    }
}

/// A piece causes an error exactly when it stands outside the area it may occupy: a king or
/// an advisor outside its palace (files 3 to 5; ranks 0 to 2 for Red, 7 to 9 for Black), a
/// bishop across the river (Red beyond rank 4, Black below rank 5). Rooks, knights, cannons
/// and pawns never do.
pub proof fn law_piece_error_only_misplaced(p: Piece, x: int, y: int)
    ensures
        piece_error(p, x, y) is Some <==> (((p.piece_type == PieceType::King || p.piece_type
            == PieceType::Advisor) && !(3 <= x <= 5 && (if p.side == Side::Red {
            y <= 2
        } else {
            y >= 7
        }))) || (p.piece_type == PieceType::Bishop && (if p.side == Side::Red {
            y > 4
        } else {
            y < 5
        }))),
{
}

/// The error message of a piece on `(x, y)`, if any.
fn piece_error_message(p: Piece, x: u8, y: u8) -> (r: Option<&'static str>)
    ensures
        r matches Some(m) ==> piece_error(p, x as int, y as int) == Some(m@),
        r is None ==> piece_error(p, x as int, y as int) is None,
{
    let red_palace = x >= 3 && x <= 5 && y <= 2;
    let black_palace = x >= 3 && x <= 5 && y >= 7;
    match (p.piece_type, p.side) {
        (PieceType::King, Side::Red) => if !red_palace { Some("帥必须在九宫内") } else { None },
        (PieceType::King, Side::Black) => if !black_palace { Some("將必须在九宫内") } else { None },
        (PieceType::Advisor, Side::Red) => if !red_palace { Some("仕必须在九宫内") } else { None },
        (PieceType::Advisor, Side::Black) => if !black_palace { Some("士必须在九宫内") } else { None },
        (PieceType::Bishop, Side::Red) => if !(y <= 4) { Some("相必须在红方半场") } else { None },
        (PieceType::Bishop, Side::Black) => if !(y >= 5) { Some("象必须在黑方半场") } else { None },
        _ => None,
    }
}

/// Whether a bishop of `side` on `(x, y)` stands on one of its seven squares.
fn is_valid_bishop_position(x: u8, y: u8, side: Side) -> (r: bool)
    ensures
        r == bishop_square(x as int, y as int, side),
{
    match side {
        Side::Red => (x == 2 && y == 0) || (x == 6 && y == 0) || (x == 0 && y == 2) || (x == 4 && y
            == 2) || (x == 8 && y == 2) || (x == 2 && y == 4) || (x == 6 && y == 4),
        Side::Black => (x == 2 && y == 9) || (x == 6 && y == 9) || (x == 0 && y == 7) || (x == 4
            && y == 7) || (x == 8 && y == 7) || (x == 2 && y == 5) || (x == 6 && y == 5),
    }
}

/// The warning message of a piece on `(x, y)`, if any.
fn piece_warning_message(p: Piece, x: u8, y: u8) -> (r: Option<&'static str>)
    ensures
        r matches Some(m) ==> piece_warning(p, x as int, y as int) == Some(m@),
        r is None ==> piece_warning(p, x as int, y as int) is None,
{
    match (p.piece_type, p.side) {
        (PieceType::Bishop, Side::Red) => if y <= 4 && !is_valid_bishop_position(x, y, Side::Red) {
            Some("相在非标准位置")
        } else {
            None
        },
        (PieceType::Bishop, Side::Black) => if y >= 5 && !is_valid_bishop_position(x, y, Side::Black) {
            Some("象在非标准位置")
        } else {
            None
        },
        (PieceType::Pawn, Side::Red) => if y == 0 { Some("兵的位置可能不合理（在底线）") } else { None },
        (PieceType::Pawn, Side::Black) => if y == 9 { Some("卒的位置可能不合理（在底线）") } else { None },
        _ => None,
    }
}

/// Appends `msg` when `cond` holds.
fn push_if(v: &mut Vec<String>, cond: bool, msg: &str)
    ensures
        texts(final(v)@) == texts(old(v)@) + when(cond, msg@),
{
    let ghost v0 = texts(v@);
    if cond {
        v.push(msg.to_owned());
        assert(texts(v@) =~= v0 + when(cond, msg@));
    } else {
        assert(texts(v@) =~= v0 + when(cond, msg@));
    }
}

/// Slot of a (side, kind) counter.
pub open spec fn counter_index(side: Side, kind: PieceType) -> int {
    (match kind {
        PieceType::King => 0int,
        PieceType::Advisor => 1,
        PieceType::Bishop => 2,
        PieceType::Knight => 3,
        PieceType::Rook => 4,
        PieceType::Cannon => 5,
        PieceType::Pawn => 6,
    }) * 2 + (if side == Side::Red { 0int } else { 1 })
}

fn counter_slot(side: Side, kind: PieceType) -> (i: usize)
    ensures
        i as int == counter_index(side, kind),
        i < 14,
{
    let k: usize = match kind {
        PieceType::King => 0,
        PieceType::Advisor => 1,
        PieceType::Bishop => 2,
        PieceType::Knight => 3,
        PieceType::Rook => 4,
        PieceType::Cannon => 5,
        PieceType::Pawn => 6,
    };
    k * 2 + match side {
        Side::Red => 0,
        Side::Black => 1,
    }
}

/// The counters hold the piece counts of squares `0..n`.
pub open spec fn counters_match(c: Seq<usize>, b: Seq<Option<Piece>>, n: int) -> bool {
    &&& c.len() == 14
    &&& forall|side: Side, kind: PieceType| #[trigger] c[counter_index(side, kind)] == count_upto(b, side, kind, n)
    &&& forall|k: int| 0 <= k < 14 ==> #[trigger] c[k] <= n
}

proof fn lemma_counter_index_injective(s1: Side, k1: PieceType, s2: Side, k2: PieceType)
    ensures
        counter_index(s1, k1) == counter_index(s2, k2) ==> s1 == s2 && k1 == k2,
        0 <= counter_index(s1, k1) < 14,
{
}

/// Records square `i` (which holds `cell`) in the counters and the messages.
fn record_square(
    result: &mut BoardValidation,
    counts: &mut [usize; 14],
    board: &Board,
    i: usize,
)
    requires
        i < 90,
        counters_match(old(counts)@, board@, i as int),
        texts(old(result).errors@) == square_errors(board@, i as int),
        texts(old(result).warnings@) == square_warnings(board@, i as int),
    ensures
        counters_match(final(counts)@, board@, i + 1),
        texts(final(result).errors@) == square_errors(board@, i + 1),
        texts(final(result).warnings@) == square_warnings(board@, i + 1),
{
    let x: u8 = (i % 9) as u8;
    let y: u8 = (i / 9) as u8;
    let pos = Position::new_unchecked(x, y);
    assert(pos.index() == i);
    let cell = board.get(pos);
    let ghost c0 = counts@;
    if let Some(piece) = cell {
        let slot = counter_slot(piece.side, piece.piece_type);
        counts[slot] = counts[slot] + 1;
        proof {
            assert forall|side: Side, kind: PieceType| #[trigger] counts@[counter_index(side, kind)] == count_upto(board@, side, kind, i + 1) by {
                lemma_counter_index_injective(side, kind, piece.side, piece.piece_type);
            }
        }
        match piece_error_message(piece, x, y) {
            Some(m) => {
                result.errors.push(m.to_owned());
            }
            None => {}
        }
        match piece_warning_message(piece, x, y) {
            Some(m) => {
                result.warnings.push(m.to_owned());
            }
            None => {}
        }
    }
    assert(texts(result.errors@) =~= square_errors(board@, i + 1));
    assert(texts(result.warnings@) =~= square_warnings(board@, i + 1));
}

/// Checks the layout of a position: palace and half-board limits of kings, advisors and
/// bishops, both kings present and not facing each other, and piece counts; warns about
/// bishops off their squares and pawns on their own back rank.
pub fn validate_board_layout(board: &Board) -> (v: BoardValidation)
    ensures
        texts(v.errors@) == layout_errors(board@),
        texts(v.warnings@) == layout_warnings(board@),
{
    let mut result = BoardValidation::default();
    let mut counts: [usize; 14] = [0; 14];
    assert(texts(result.errors@) =~= square_errors(board@, 0));
    assert(texts(result.warnings@) =~= square_warnings(board@, 0));
    let mut i: usize = 0;
    while i < 90
        invariant
            i <= 90,
            texts(result.errors@) == square_errors(board@, i as int),
            texts(result.warnings@) == square_warnings(board@, i as int),
            counters_match(counts@, board@, i as int),
        decreases 90 - i,
    {
        record_square(&mut result, &mut counts, board, i);
        i = i + 1;
    }
    let kings_facing = board.kings_facing();
    let ghost e1 = texts(result.errors@);
    push_count_errors(&mut result.errors, &counts, kings_facing);
    proof {
        lemma_counter_errors(e1, counts@, board@, kings_facing);
    }
    result
}

/// The whole-position errors computed from the piece counters (slot `kind * 2 + side`).
pub open spec fn counter_errors(prefix: Seq<Seq<char>>, c: Seq<usize>, kings_facing: bool) -> Seq<Seq<char>> {
    whole_errors(
        prefix,
        c[0] as int,
        c[1] as int,
        kings_facing,
        c[8] as int,
        c[9] as int,
        c[6] as int,
        c[7] as int,
        c[10] as int,
        c[11] as int,
        c[2] as int,
        c[3] as int,
        c[4] as int,
        c[5] as int,
        c[12] as int,
        c[13] as int,
    )
}

proof fn lemma_counter_errors(prefix: Seq<Seq<char>>, c: Seq<usize>, b: Seq<Option<Piece>>, kings_facing: bool)
    requires
        counters_match(c, b, 90),
        kings_facing == spec_kings_facing(b),
    ensures
        counter_errors(prefix, c, kings_facing) == count_errors(prefix, b),
{
    assert(c[counter_index(Side::Red, PieceType::King)] == count(b, Side::Red, PieceType::King));
    assert(c[counter_index(Side::Black, PieceType::King)] == count(b, Side::Black, PieceType::King));
    assert(c[counter_index(Side::Red, PieceType::Rook)] == count(b, Side::Red, PieceType::Rook));
    assert(c[counter_index(Side::Black, PieceType::Rook)] == count(b, Side::Black, PieceType::Rook));
    assert(c[counter_index(Side::Red, PieceType::Knight)] == count(b, Side::Red, PieceType::Knight));
    assert(c[counter_index(Side::Black, PieceType::Knight)] == count(b, Side::Black, PieceType::Knight));
    assert(c[counter_index(Side::Red, PieceType::Cannon)] == count(b, Side::Red, PieceType::Cannon));
    assert(c[counter_index(Side::Black, PieceType::Cannon)] == count(b, Side::Black, PieceType::Cannon));
    assert(c[counter_index(Side::Red, PieceType::Advisor)] == count(b, Side::Red, PieceType::Advisor));
    assert(c[counter_index(Side::Black, PieceType::Advisor)] == count(b, Side::Black, PieceType::Advisor));
    assert(c[counter_index(Side::Red, PieceType::Bishop)] == count(b, Side::Red, PieceType::Bishop));
    assert(c[counter_index(Side::Black, PieceType::Bishop)] == count(b, Side::Black, PieceType::Bishop));
    assert(c[counter_index(Side::Red, PieceType::Pawn)] == count(b, Side::Red, PieceType::Pawn));
    assert(c[counter_index(Side::Black, PieceType::Pawn)] == count(b, Side::Black, PieceType::Pawn));
}

/// Appends the errors about the whole position.
fn push_count_errors(errors: &mut Vec<String>, counts: &[usize; 14], kings_facing: bool)
    ensures
        texts(final(errors)@) == counter_errors(texts(old(errors)@), counts@, kings_facing),
{
    let ghost e0 = texts(errors@);
    push_if(errors, counts[0] == 0, "红方必须有帥");
    let ghost e1 = texts(errors@);
    push_if(errors, counts[1] == 0, "黑方必须有將");
    let ghost e2 = texts(errors@);
    push_if(errors, kings_facing, "将帅不能面对面");
    let ghost e3 = texts(errors@);
    push_if(errors, counts[8] > 2, "红方車最多 2 个");
    let ghost e4 = texts(errors@);
    push_if(errors, counts[9] > 2, "黑方車最多 2 个");
    let ghost e5 = texts(errors@);
    push_if(errors, counts[6] > 2, "红方馬最多 2 个");
    let ghost e6 = texts(errors@);
    push_if(errors, counts[7] > 2, "黑方馬最多 2 个");
    let ghost e7 = texts(errors@);
    push_if(errors, counts[10] > 2, "红方炮最多 2 个");
    let ghost e8 = texts(errors@);
    push_if(errors, counts[11] > 2, "黑方砲最多 2 个");
    let ghost e9 = texts(errors@);
    push_if(errors, counts[2] > 2, "红方仕最多 2 个");
    let ghost e10 = texts(errors@);
    push_if(errors, counts[3] > 2, "黑方士最多 2 个");
    let ghost e11 = texts(errors@);
    push_if(errors, counts[4] > 2, "红方相最多 2 个");
    let ghost e12 = texts(errors@);
    push_if(errors, counts[5] > 2, "黑方象最多 2 个");
    let ghost e13 = texts(errors@);
    push_if(errors, counts[12] > 5, "红方兵最多 5 个");
    let ghost e14 = texts(errors@);
    push_if(errors, counts[13] > 5, "黑方卒最多 5 个");
    let ghost e15 = texts(errors@);
}

/// The checks that need the rules of movement, made only on a position without layout
/// errors: `has_legal_move` tells whether the side to move first has a legal move, and
/// `in_check` whether it starts in check.
pub open spec fn spec_complete_errors(errors: Seq<Seq<char>>, first_turn: Side, has_legal_move: bool) -> Seq<Seq<char>> {
    if errors.len() == 0 && !has_legal_move {
        seq![if first_turn == Side::Red { "当前局面：红方已无合法走法"@ } else { "当前局面：黑方已无合法走法"@ }]
    } else {
        errors
    }
}

pub open spec fn spec_complete_warnings(errors: Seq<Seq<char>>, warnings: Seq<Seq<char>>, first_turn: Side, in_check: bool) -> Seq<Seq<char>> {
    if errors.len() == 0 && in_check {
        warnings.push(if first_turn == Side::Red { "当前局面：红方被将军"@ } else { "当前局面：黑方被将军"@ })
    } else {
        warnings
    }
}

/// Adds the movement checks to a layout validation.
pub fn complete_validation(validation: BoardValidation, first_turn: Side, has_legal_move: bool, in_check: bool) -> (v: BoardValidation)
    ensures
        texts(v.errors@) == spec_complete_errors(texts(validation.errors@), first_turn, has_legal_move),
        texts(v.warnings@) == spec_complete_warnings(texts(validation.errors@), texts(validation.warnings@), first_turn, in_check),
{
    let mut result = validation;
    if result.errors.len() == 0 {
        if !has_legal_move {
            let msg = if first_turn == Side::Red { "当前局面：红方已无合法走法" } else { "当前局面：黑方已无合法走法" };
            result.errors.push(msg.to_owned());
            assert(texts(result.errors@) =~= seq![msg@]);
        }
        if in_check {
            let msg = if first_turn == Side::Red { "当前局面：红方被将军" } else { "当前局面：黑方被将军" };
            let ghost w0 = texts(result.warnings@);
            result.warnings.push(msg.to_owned());
            assert(texts(result.warnings@) =~= w0.push(msg@));
        }
    }
    result
}

/// Validates an edited position with `first_turn` to move: the layout checks, then, when the
/// layout is sound, the movement checks (`has_legal_move`: the side to move has a legal
/// move; `in_check`: it starts in check).
pub fn validate_board(board: &Board, first_turn: Side, has_legal_move: bool, in_check: bool) -> (v: BoardValidation)
    ensures
        texts(v.errors@) == spec_complete_errors(layout_errors(board@), first_turn, has_legal_move),
        texts(v.warnings@) == spec_complete_warnings(
            layout_errors(board@),
            layout_warnings(board@),
            first_turn,
            in_check,
        ),
{
    let layout = validate_board_layout(board);
    complete_validation(layout, first_turn, has_legal_move, in_check)
}

} // verus!

//! Decisions of the alpha-beta search that do not depend on move generation.

use vstd::prelude::*;
use std::time::Instant;
use rand::Rng;
use crate::board::{
    lemma_board_len, moves_on_board, spec_move_piece, Board, BoardState, Move, Piece, PieceType, Position, Side,
};
use crate::clock::{elapsed_ms, now};
use crate::zobrist::{chacha8_word, lemma_hash_from_update, ZobristTable, ZOBRIST_SEED};
use crate::transposition::{count_used, slot_bytes, spec_decode_move, spec_probe, spec_store, EntryType, TTEntry, TTStats, TranspositionTable};
use crate::evaluate::{spec_evaluate, Evaluator};

verus! {

broadcast use lemma_board_len;

/// The hash after playing `from -> to` in a position with hash `hash`, computed from the
/// keys that change: the moving piece leaves `from` and enters `to`, a captured piece of the
/// side not to move leaves `to`, and the side key is toggled.
pub open spec fn spec_update_hash(
    t: ZobristTable,
    hash: u64,
    b: Seq<Option<Piece>>,
    turn: Side,
    from: Position,
    to: Position,
    captured: Option<PieceType>,
) -> u64 {
    let moved = match b[from.index()] {
        Some(p) => hash ^ t.key(p.side, p.piece_type, from.index()) ^ t.key(p.side, p.piece_type, to.index()),
        None => hash,
    };
    let taken = match captured {
        Some(k) => moved ^ t.key(turn.spec_opponent(), k, to.index()),
        None => moved,
    };
    taken ^ t.side_key()
}

/// Incremental hash update for the move `mv` played in `state`; `captured` is the kind of the
/// piece that stood on `mv.to`, if any.
pub fn update_hash(
    zobrist: &ZobristTable,
    hash: u64,
    state: &BoardState,
    mv: &Move,
    captured: Option<PieceType>,
) -> (h: u64)
    requires
        mv.from.valid(),
        mv.to.valid(),
    ensures
        h == spec_update_hash(*zobrist, hash, state.board@, state.current_turn, mv.from, mv.to, captured),
{
    let mut hash = hash;
    if let Some(piece) = state.board.get(mv.from) {
        hash = hash ^ zobrist.piece_hash(piece.side, piece.piece_type, mv.from);
        hash = hash ^ zobrist.piece_hash(piece.side, piece.piece_type, mv.to);
    }
    if let Some(captured_type) = captured {
        let opponent = state.current_turn.opponent();
        hash = hash ^ zobrist.piece_hash(opponent, captured_type, mv.to);
    }
    hash ^ zobrist.side_hash()
}

/// The incremental update agrees with hashing the position after the move from scratch,
/// when a piece stands on `from`, `from` and `to` differ, and whatever stands on `to`
/// belongs to the side not to move and is reported as `captured`.
pub proof fn law_incremental_hash(
    t: ZobristTable,
    b: Seq<Option<Piece>>,
    turn: Side,
    from: Position,
    to: Position,
    captured: Option<PieceType>,
)
    requires
        b.len() == 90,
        from.valid(),
        to.valid(),
        from != to,
        b[from.index()] is Some,
        captured == (match b[to.index()] {
            Some(c) => Some(c.piece_type),
            None => None::<PieceType>,
        }),
        b[to.index()] matches Some(c) ==> c.side == turn.spec_opponent(),
    ensures
        spec_update_hash(t, t.spec_hash(b, turn), b, turn, from, to, captured) == t.spec_hash(
            spec_move_piece(b, from, to),
            turn.spec_opponent(),
        ),
{
    let fi = from.index();
    let ti = to.index();
    assert(fi != ti);
    let b1 = b.update(ti, b[fi]);
    let b2 = b1.update(fi, None);
    lemma_hash_from_update(t, b, ti, b[fi], 0);
    lemma_hash_from_update(t, b1, fi, None, 0);
    assert(b1[fi] == b[fi]);
    let h0 = t.hash_from(b, 0);
    let p = b[fi].unwrap();
    let kf = t.key(p.side, p.piece_type, fi);
    let kt = t.key(p.side, p.piece_type, ti);
    let s = t.side_key();
    let oc = t.square_key(b[ti], ti);
    // oc is the key of the captured piece, seen from the side not to move
    assert(oc == (match captured {
        Some(k) => t.key(turn.spec_opponent(), k, ti),
        None => 0u64,
    }));
    let base = if turn == Side::Black { h0 ^ s } else { h0 };
    assert(t.hash_from(b2, 0) == ((h0 ^ oc ^ kt) ^ kf ^ 0u64));
    if turn == Side::Black {
        assert(((h0 ^ s) ^ kf ^ kt ^ oc) ^ s == ((h0 ^ oc ^ kt) ^ kf ^ 0u64)) by (bit_vector);
        assert((((h0 ^ s) ^ kf ^ kt) ^ s) == ((h0 ^ 0u64 ^ kt) ^ kf ^ 0u64)) by (bit_vector);
    } else {
        assert((h0 ^ kf ^ kt ^ oc) ^ s == ((h0 ^ oc ^ kt) ^ kf ^ 0u64) ^ s) by (bit_vector);
        assert((h0 ^ kf ^ kt) ^ s == ((h0 ^ 0u64 ^ kt) ^ kf ^ 0u64) ^ s) by (bit_vector);
    }
}


/// AI strength: a preset, or an explicit search depth and time limit.
#[derive(Clone, Copy, Debug, PartialEq, Eq, Structural)]
pub enum Difficulty {
    Easy,
    Medium,
    Hard,
    Custom { depth: u8, time_limit_ms: u64 },
}

/// Search settings.
#[derive(Clone, Copy, Debug)]
pub struct AiConfig {
    pub difficulty: Difficulty,
    pub max_depth: u8,
    pub time_limit_ms: u64,
    pub use_opening_book: bool,
    /// Transposition table size in megabytes.
    pub tt_size_mb: usize,
}

/// The settings of each difficulty.
pub open spec fn spec_config(d: Difficulty) -> AiConfig {
    match d {
        Difficulty::Easy => AiConfig {
            difficulty: d,
            max_depth: 3,
            time_limit_ms: 1000,
            use_opening_book: false,
            tt_size_mb: 16,
        },
        Difficulty::Medium => AiConfig {
            difficulty: d,
            max_depth: 4,
            time_limit_ms: 3000,
            use_opening_book: false,
            tt_size_mb: 32,
        },
        Difficulty::Hard => AiConfig {
            difficulty: d,
            max_depth: 6,
            time_limit_ms: 5000,
            use_opening_book: true,
            tt_size_mb: 64,
        },
        Difficulty::Custom { depth, time_limit_ms } => AiConfig {
            difficulty: d,
            max_depth: depth,
            time_limit_ms,
            use_opening_book: depth >= 5,
            tt_size_mb: if depth >= 6 {
                64
            } else if depth >= 4 {
                32
            } else {
                16
            },
        },
    }
}

impl AiConfig {
    /// Settings for a difficulty.
    pub fn from_difficulty(difficulty: Difficulty) -> (c: AiConfig)
        ensures
            c == spec_config(difficulty),
    {
        match difficulty {
            Difficulty::Easy => AiConfig {
                difficulty,
                max_depth: 3,
                time_limit_ms: 1000,
                use_opening_book: false,
                tt_size_mb: 16,
            },
            Difficulty::Medium => AiConfig {
                difficulty,
                max_depth: 4,
                time_limit_ms: 3000,
                use_opening_book: false,
                tt_size_mb: 32,
            },
            Difficulty::Hard => AiConfig {
                difficulty,
                max_depth: 6,
                time_limit_ms: 5000,
                use_opening_book: true,
                tt_size_mb: 64,
            },
            Difficulty::Custom { depth, time_limit_ms } => AiConfig {
                difficulty,
                max_depth: depth,
                time_limit_ms,
                use_opening_book: depth >= 5,
                tt_size_mb: if depth >= 6 {
                    64
                } else if depth >= 4 {
                    32
                } else {
                    16
                },
            },
        }
    }

}

impl Default for AiConfig {
    /// The medium settings.
    fn default() -> (c: AiConfig)
        ensures
            c == spec_config(Difficulty::Medium),
    {
        AiConfig::from_difficulty(Difficulty::Medium)
    }
}

/// Number of occurrences of `h` in `path`.
pub open spec fn occurrences(path: Seq<u64>, h: u64) -> nat
    decreases path.len(),
{
    if path.len() == 0 {
        0
    } else {
        occurrences(path.drop_last(), h) + if path.last() == h {
            1nat
        } else {
            0nat
        }
    }
}

/// Whether reaching `hash` repeats a position already seen twice on the path (a third
/// occurrence, scored as a draw).
pub fn is_repetition(path_hashes: &Vec<u64>, hash: u64) -> (r: bool)
    ensures
        r == (occurrences(path_hashes@, hash) >= 2),
{
    let mut count: usize = 0;
    let mut i: usize = 0;
    while i < path_hashes.len()
        invariant
            i <= path_hashes@.len(),
            count == occurrences(path_hashes@.subrange(0, i as int), hash),
            count <= i,
        decreases path_hashes@.len() - i,
    {
        assert(path_hashes@.subrange(0, i + 1).drop_last() =~= path_hashes@.subrange(0, i as int));
        if path_hashes[i] == hash {
            count = count + 1;
        }
        i = i + 1;
    }
    assert(path_hashes@.subrange(0, path_hashes@.len() as int) =~= path_hashes@);
    count >= 2
}

/// The score a node returns straight from a table entry, if the entry is deep enough and
/// its bound settles the window: exact scores always, lower bounds at or above `beta`,
/// upper bounds at or below `alpha`.
pub open spec fn spec_tt_cutoff(entry: Option<TTEntry>, depth: u8, alpha: i32, beta: i32) -> Option<i32> {
    match entry {
        Some(e) => if e.depth >= depth {
            match e.entry_type {
                EntryType::Exact => Some(e.score as i32),
                EntryType::LowerBound => if e.score as i32 >= beta {
                    Some(e.score as i32)
                } else {
                    None
                },
                EntryType::UpperBound => if e.score as i32 <= alpha {
                    Some(e.score as i32)
                } else {
                    None
                },
            }
        } else {
            None
        },
        None => None,
    }
}

/// A table entry settles a node only when it was searched at least as deep, and then with its
/// own score, which must lie on the side of the window its bound speaks of: an upper bound
/// at or below `alpha`, a lower bound at or above `beta`; an exact score always settles it.
pub proof fn law_tt_cutoff(entry: Option<TTEntry>, depth: u8, alpha: i32, beta: i32)
    ensures
        spec_tt_cutoff(entry, depth, alpha, beta) matches Some(v) ==> (entry matches Some(e) && e.depth
            >= depth && v == e.score as i32 && (e.entry_type == EntryType::UpperBound ==> v <= alpha) && (
        e.entry_type == EntryType::LowerBound ==> v >= beta)),
        (entry matches Some(e) && e.depth >= depth && (e.entry_type == EntryType::Exact || (e.entry_type
            == EntryType::LowerBound && e.score as i32 >= beta) || (e.entry_type == EntryType::UpperBound
            && e.score as i32 <= alpha))) ==> spec_tt_cutoff(entry, depth, alpha, beta) == Some(
            entry->0.score as i32,
        ),
{
}

/// Decides whether a table entry answers a node searched to `depth` in window `(alpha, beta)`.
pub fn tt_cutoff(entry: Option<TTEntry>, depth: u8, alpha: i32, beta: i32) -> (r: Option<i32>)
    ensures
        r == spec_tt_cutoff(entry, depth, alpha, beta),
{
    if let Some(entry) = entry {
        if entry.depth >= depth {
            match entry.entry_type {
                EntryType::Exact => return Some(entry.score as i32),
                EntryType::LowerBound => {
                    if entry.score as i32 >= beta {
                        return Some(entry.score as i32);
                    }
                },
                EntryType::UpperBound => {
                    if (entry.score as i32) <= alpha {
                        return Some(entry.score as i32);
                    }
                },
            }
        }
    }
    None
}

/// Score of a node whose side to move has no legal move: being checkmated loses, earlier
/// mates (fewer plies from the root) scoring lower; otherwise the position is a stalemate,
/// scored as a draw.
pub fn no_move_score(in_check: bool, max_depth: u8, depth: u8) -> (s: i32)
    requires
        depth <= max_depth,
    ensures
        s == (if in_check {
            -10000 + (max_depth - depth)
        } else {
            0
        }),
{
    if in_check {
        -10000 + (max_depth - depth) as i32
    } else {
        0
    }
}

/// Evaluation from the point of view of the side to move.
pub fn evaluate_for_side(state: &BoardState) -> (s: i32)
    ensures
        s == (if state.current_turn == Side::Red {
            spec_evaluate(state.board@)
        } else {
            -spec_evaluate(state.board@)
        }),
{
    let score = Evaluator::evaluate(&state.board);
    match state.current_turn {
        Side::Red => score,
        Side::Black => -score,
    }
}

/// What the quiescence search does before looking at moves.
#[derive(Clone, Copy, Debug, PartialEq, Eq, Structural)]
pub enum StandPat {
    /// Return this score without searching moves.
    Return(i32),
    /// Search moves with this lower bound.
    Search(i32),
}

/// The stand-pat step of the quiescence search: the static score (lowered by 150 when in
/// check) is returned at depth 0, fails high at `beta`, and otherwise raises `alpha`.
pub open spec fn spec_stand_pat(static_score: int, in_check: bool, depth: u8, alpha: i32, beta: i32) -> StandPat {
    let stand = if in_check {
        static_score - 150
    } else {
        static_score
    };
    if depth == 0 {
        StandPat::Return(stand as i32)
    } else if stand >= beta {
        StandPat::Return(beta)
    } else if stand > alpha {
        StandPat::Search(stand as i32)
    } else {
        StandPat::Search(alpha)
    }
}

pub fn stand_pat(static_score: i32, in_check: bool, depth: u8, alpha: i32, beta: i32) -> (r: StandPat)
    requires
        -1_000_000 <= static_score <= 1_000_000,
    ensures
        r == spec_stand_pat(static_score as int, in_check, depth, alpha, beta),
{
    let mut stand_pat = static_score;
    if in_check {
        stand_pat = stand_pat - 150;
    }
    if depth == 0 {
        return StandPat::Return(stand_pat);
    }
    if stand_pat >= beta {
        return StandPat::Return(beta);
    }
    if stand_pat > alpha {
        StandPat::Search(stand_pat)
    } else {
        StandPat::Search(alpha)
    }
}

/// The moves the quiescence search tries: all of them when in check, otherwise the captures
/// (moves whose target square is occupied), in their original order.
pub open spec fn spec_quiescence_moves(b: Seq<Option<Piece>>, moves: Seq<Move>, in_check: bool) -> Seq<Move> {
    if in_check {
        moves
    } else {
        moves.filter(|m: Move| b[m.to.index()] is Some)
    }
}

pub fn quiescence_moves(state: &BoardState, moves: Vec<Move>, in_check: bool) -> (r: Vec<Move>)
    requires
        forall|i: int| 0 <= i < moves@.len() ==> (#[trigger] moves@[i]).to.valid(),
    ensures
        r@ == spec_quiescence_moves(state.board@, moves@, in_check),
{
    if in_check {
        return moves;
    }
    let mut r: Vec<Move> = Vec::new();
    let mut i: usize = 0;
    while i < moves.len()
        invariant
            i <= moves@.len(),
            forall|k: int| 0 <= k < moves@.len() ==> (#[trigger] moves@[k]).to.valid(),
            r@ == moves@.subrange(0, i as int).filter(|m: Move| state.board@[m.to.index()] is Some),
        decreases moves@.len() - i,
    {
        proof {
            reveal_with_fuel(Seq::<_>::filter, 1);
            assert(moves@.subrange(0, i + 1).drop_last() =~= moves@.subrange(0, i as int));
        }
        let m = moves[i];
        if state.board.get(m.to).is_some() {
            r.push(m);
        }
        i = i + 1;
    }
    assert(moves@.subrange(0, moves@.len() as int) =~= moves@);
    r
}

/// Root move ordering: when the table suggests a move `(from_x, from_y, to_x, to_y)` that is
/// in the list, it is swapped to the front.
pub open spec fn spec_order_moves(moves: Seq<Move>, suggested: Option<(u8, u8, u8, u8)>) -> Seq<Move> {
    match suggested {
        Some(s) => match first_match(moves, s, 0) {
            Some(p) => moves.update(0, moves[p]).update(p, moves[0]),
            None => moves,
        },
        None => moves,
    }
}

/// Index of the first move from `i` on that goes from `(s.0, s.1)` to `(s.2, s.3)`.
pub open spec fn first_match(moves: Seq<Move>, s: (u8, u8, u8, u8), i: int) -> Option<int>
    decreases moves.len() - i,
{
    if i < 0 || i >= moves.len() {
        None
    } else if moves[i].from.x == s.0 && moves[i].from.y == s.1 && moves[i].to.x == s.2
        && moves[i].to.y == s.3 {
        Some(i)
    } else {
        first_match(moves, s, i + 1)
    }
}

pub fn order_moves(moves: &Vec<Move>, suggested: Option<(u8, u8, u8, u8)>) -> (r: Vec<Move>)
    ensures
        r@ == spec_order_moves(moves@, suggested),
{
    let mut ordered = moves.clone();
    assert(ordered@ == moves@);
    if let Some((fx, fy, tx, ty)) = suggested {
        let mut i: usize = 0;
        while i < ordered.len()
            invariant
                i <= ordered@.len(),
                ordered@ == moves@,
                suggested == Some((fx, fy, tx, ty)),
                first_match(moves@, (fx, fy, tx, ty), 0) == first_match(moves@, (fx, fy, tx, ty), i as int),
            decreases ordered@.len() - i,
        {
            let m = ordered[i];
            if m.from.x == fx && m.from.y == fy && m.to.x == tx && m.to.y == ty {
                assert(first_match(moves@, (fx, fy, tx, ty), i as int) == Some(i as int));
                let first = ordered[0];
                ordered.set(0, m);
                ordered.set(i, first);
                return ordered;
            }
            i = i + 1;
        }
    }
    ordered
}

/// The first matching move, if any, lies at or after `i` and inside the list.
proof fn lemma_first_match_range(moves: Seq<Move>, s: (u8, u8, u8, u8), i: int)
    requires
        0 <= i,
    ensures
        first_match(moves, s, i) matches Some(p) ==> i <= p < moves.len(),
    decreases moves.len() - i,
{
    if i < moves.len() {
        lemma_first_match_range(moves, s, i + 1);
    }
}

/// Reordering keeps the length, and every move of the new order is one of the given moves.
proof fn lemma_ordered_members(moves: Seq<Move>, suggested: Option<(u8, u8, u8, u8)>)
    ensures
        spec_order_moves(moves, suggested).len() == moves.len(),
        forall|k: int|
            0 <= k < moves.len() ==> moves.contains(#[trigger] spec_order_moves(moves, suggested)[k]),
        moves_on_board(moves) ==> moves_on_board(spec_order_moves(moves, suggested)),
{
    let o = spec_order_moves(moves, suggested);
    if let Some(s) = suggested {
        lemma_first_match_range(moves, s, 0);
    }
    assert forall|k: int| 0 <= k < moves.len() implies moves.contains(#[trigger] o[k]) by {
        let j: int = match suggested {
            Some(s) => match first_match(moves, s, 0) {
                Some(p) => if k == p {
                    0
                } else if k == 0 {
                    p
                } else {
                    k
                },
                None => k,
            },
            None => k,
        };
        assert(o[k] == moves[j]);
    }
    assert(o.len() == moves.len());
    if moves_on_board(moves) {
        assert forall|k: int| 0 <= k < o.len() implies (#[trigger] o[k]).from.valid() && o[k].to.valid() by {
            assert(moves.contains(o[k]));
            let j = choose|j: int| 0 <= j < moves.len() && moves[j] == o[k];
            assert(moves[j].from.valid());
        }
    }
}

/// rand: `thread_rng().gen_range(0..n)`, a number drawn below `n`. Only its range is stated.
#[verifier::external_body]
fn random_below(n: usize) -> (r: usize)
    requires
        n > 0,
    ensures
        r < n,
{
    rand::thread_rng().gen_range(0..n)
}

/// What the search needs of the rules: both questions can be asked of every position, each
/// answer is a function of the position (asked twice, the rules answer alike), and every
/// legal move goes from a square of the board to a square of the board.
pub open spec fn rules_usable<G: Fn(BoardState) -> Vec<Move>, C: Fn(BoardState) -> bool>(
    legal_moves: G,
    in_check: C,
) -> bool {
    &&& forall|s: BoardState| #[trigger] legal_moves.requires((s,))
    &&& forall|s: BoardState| #[trigger] in_check.requires((s,))
    &&& forall|s: BoardState, ms: Vec<Move>| #[trigger] legal_moves.ensures((s,), ms) ==> moves_on_board(ms@)
    &&& forall|s: BoardState, a: Vec<Move>, b: Vec<Move>|
        #![trigger legal_moves.ensures((s,), a), legal_moves.ensures((s,), b)]
        legal_moves.ensures((s,), a) && legal_moves.ensures((s,), b) ==> a@ == b@
    &&& forall|s: BoardState, a: bool, b: bool|
        #![trigger in_check.ensures((s,), a), in_check.ensures((s,), b)]
        in_check.ensures((s,), a) && in_check.ensures((s,), b) ==> a == b
}

/// The legal moves that the rules give in `s`.
pub open spec fn rules_moves<G: Fn(BoardState) -> Vec<Move>>(legal_moves: G, s: BoardState) -> Seq<Move> {
    (choose|ms: Vec<Move>| legal_moves.ensures((s,), ms))@
}

/// Whether the rules find the side to move in check in `s`.
pub open spec fn rules_in_check<C: Fn(BoardState) -> bool>(in_check: C, s: BoardState) -> bool {
    choose|b: bool| in_check.ensures((s,), b)
}

/// A list of moves the rules gave for `s` is the list `rules_moves` names.
proof fn lemma_rules_moves<G: Fn(BoardState) -> Vec<Move>, C: Fn(BoardState) -> bool>(
    legal_moves: G,
    in_check: C,
    s: BoardState,
    ms: Vec<Move>,
)
    requires
        rules_usable(legal_moves, in_check),
        legal_moves.ensures((s,), ms),
    ensures
        rules_moves(legal_moves, s) == ms@,
{
    let c = choose|c: Vec<Move>| legal_moves.ensures((s,), c);
    assert(legal_moves.ensures((s,), c));
}

/// An answer the rules gave on check in `s` is the answer `rules_in_check` names.
proof fn lemma_rules_in_check<G: Fn(BoardState) -> Vec<Move>, C: Fn(BoardState) -> bool>(
    legal_moves: G,
    in_check: C,
    s: BoardState,
    b: bool,
)
    requires
        rules_usable(legal_moves, in_check),
        in_check.ensures((s,), b),
    ensures
        rules_in_check(in_check, s) == b,
{
    let c = choose|c: bool| in_check.ensures((s,), c);
    assert(in_check.ensures((s,), c));
}

/// The position after playing `m` in `s`: the piece moves and the other side is to move.
pub open spec fn spec_play(s: BoardState, m: Move) -> BoardState {
    BoardState {
        board: s.board.spec_moved(m.from, m.to),
        current_turn: s.current_turn.spec_opponent(),
        no_capture_count: s.no_capture_count,
    }
}

/// The static evaluation of `s` from the point of view of the side to move.
pub open spec fn side_eval(s: BoardState) -> int {
    if s.current_turn == Side::Red {
        spec_evaluate(s.board@)
    } else {
        -spec_evaluate(s.board@)
    }
}

/// The value of the quiescence search of `s` in window `(alpha, beta)` with `depth` plies
/// left: a position without a legal move scores -9900 in check and 0 otherwise; then the
/// stand-pat step either settles the score or gives the lower bound with which the
/// quiescence moves are searched in turn.
pub open spec fn spec_quiescence<G: Fn(BoardState) -> Vec<Move>, C: Fn(BoardState) -> bool>(
    legal_moves: G,
    in_check: C,
    s: BoardState,
    alpha: i32,
    beta: i32,
    depth: u8,
) -> i32
    decreases depth, 1int, 0int,
{
    let checked = rules_in_check(in_check, s);
    let moves = rules_moves(legal_moves, s);
    if moves.len() == 0 {
        if checked {
            -9900i32
        } else {
            0i32
        }
    } else {
        match spec_stand_pat(side_eval(s), checked, depth, alpha, beta) {
            StandPat::Return(v) => v,
            StandPat::Search(a) => quiescence_from(
                legal_moves,
                in_check,
                s,
                spec_quiescence_moves(s.board@, moves, checked),
                0,
                a,
                beta,
                depth,
            ),
        }
    }
}

/// The quiescence value of `s` once `moves[..i]` have been searched and raised the lower
/// bound to `alpha`: each further move is scored by the negated search of the position after
/// it in window `(-beta, -alpha)`; a score at or above `beta` fails high with `beta`, a score
/// above `alpha` raises it, and `alpha` is the value once every move is searched.
pub open spec fn quiescence_from<G: Fn(BoardState) -> Vec<Move>, C: Fn(BoardState) -> bool>(
    legal_moves: G,
    in_check: C,
    s: BoardState,
    moves: Seq<Move>,
    i: int,
    alpha: i32,
    beta: i32,
    depth: u8,
) -> i32
    decreases depth, 0int, moves.len() - i,
{
    if depth == 0 || i < 0 || i >= moves.len() {
        alpha
    } else {
        let score = -(spec_quiescence(
            legal_moves,
            in_check,
            spec_play(s, moves[i]),
            (-beta) as i32,
            (-alpha) as i32,
            (depth - 1) as u8,
        ) as int);
        if score >= beta {
            beta
        } else {
            quiescence_from(
                legal_moves,
                in_check,
                s,
                moves,
                i + 1,
                if score > alpha {
                    score as i32
                } else {
                    alpha
                },
                beta,
                depth,
            )
        }
    }
}

/// The score a table with `slots` settles a node with, if it has slots and the entry found
/// for `hash` settles the window.
pub open spec fn table_cutoff(slots: Seq<Option<TTEntry>>, hash: u64, depth: u8, alpha: i32, beta: i32) -> Option<i32> {
    if slots.len() > 0 {
        spec_tt_cutoff(spec_probe(slots, hash), depth, alpha, beta)
    } else {
        None
    }
}

/// What an alpha-beta node that is no repetition returns while the time limit has not
/// passed: the score a table entry settles the window with; else at depth 0 the quiescence
/// value (4 plies); else, without a legal move, `-10000 + (max_depth - depth)` in check and 0
/// in stalemate; else, fail-hard, `beta` on a cutoff, or `alpha`, or a score strictly inside
/// the window.
pub open spec fn alpha_beta_outcome<G: Fn(BoardState) -> Vec<Move>, C: Fn(BoardState) -> bool>(
    slots: Seq<Option<TTEntry>>,
    legal_moves: G,
    in_check: C,
    s: BoardState,
    hash: u64,
    depth: u8,
    alpha: i32,
    beta: i32,
    max_depth: u8,
    score: i32,
) -> bool {
    match table_cutoff(slots, hash, depth, alpha, beta) {
        Some(v) => score == v,
        None => if depth == 0 {
            score == spec_quiescence(legal_moves, in_check, s, alpha, beta, 4)
        } else if rules_moves(legal_moves, s).len() == 0 {
            score == (if rules_in_check(in_check, s) {
                -10000 + (max_depth - depth)
            } else {
                0
            })
        } else {
            score == beta || score == alpha || (alpha < score && score < beta)
        },
    }
}

/// The slots after storing an entry, when the table has slots at all.
pub open spec fn store_if(
    slots: Seq<Option<TTEntry>>,
    generation: u8,
    hash: u64,
    score: i32,
    depth: u8,
    entry_type: EntryType,
    best_move: Option<(u8, u8, u8, u8)>,
) -> Seq<Option<TTEntry>> {
    if slots.len() > 0 {
        spec_store(slots, generation, hash, score, depth, entry_type, best_move)
    } else {
        slots
    }
}

/// The coordinates `(from_x, from_y, to_x, to_y)` of a move, as the table keeps it.
pub open spec fn move_coords(m: Move) -> (u8, u8, u8, u8) {
    (m.from.x, m.from.y, m.to.x, m.to.y)
}

/// The kind of the piece that `m` captures in `s`, if any.
pub open spec fn captured_kind(s: BoardState, m: Move) -> Option<PieceType> {
    match s.board@[m.to.index()] {
        Some(p) => Some(p.piece_type),
        None => None,
    }
}

/// The hash of the position after `m`, updated from the hash `hash` of `s`.
pub open spec fn child_hash(t: ZobristTable, hash: u64, s: BoardState, m: Move) -> u64 {
    spec_update_hash(t, hash, s.board@, s.current_turn, m.from, m.to, captured_kind(s, m))
}

/// The fixed settings of one search: the hashing keys, the generation of the table, the
/// configured depth and the time limit in milliseconds.
pub struct SearchSetting {
    pub keys: ZobristTable,
    pub generation: u8,
    pub max_depth: u8,
    pub time_limit_ms: u64,
}

/// `log` is the start of `readings`.
pub open spec fn extends(readings: Seq<u64>, log: Seq<u64>) -> bool {
    log.len() <= readings.len() && readings.take(log.len() as int) == log
}

/// The alpha-beta search of `s` (with hash `hash`, reached along `path`) to `depth` plies in
/// window `(alpha, beta)`, starting with the table's `slots`, when the clock readings of
/// the search are `readings` from index `pos` on. Gives the score, the slots afterwards and
/// the index of the next reading. A third occurrence on the path scores 0 without reading
/// the clock. Otherwise the clock is read: at or past the time limit the static evaluation
/// is the score; else a table entry that settles the window gives its score; depth 0 hands
/// over to the quiescence search (4 plies); a position without a legal move scores as
/// `no_move_score`; otherwise the moves are searched in turn as `alpha_beta_from` says.
pub open spec fn spec_alpha_beta<G: Fn(BoardState) -> Vec<Move>, C: Fn(BoardState) -> bool>(
    legal_moves: G,
    in_check: C,
    st: SearchSetting,
    readings: Seq<u64>,
    pos: int,
    path: Seq<u64>,
    slots: Seq<Option<TTEntry>>,
    s: BoardState,
    hash: u64,
    depth: u8,
    alpha: i32,
    beta: i32,
) -> (i32, Seq<Option<TTEntry>>, int)
    decreases depth, 1int, 0int,
{
    if occurrences(path, hash) >= 2 {
        (0i32, slots, pos)
    } else if readings[pos] >= st.time_limit_ms {
        (side_eval(s) as i32, slots, pos + 1)
    } else {
        match table_cutoff(slots, hash, depth, alpha, beta) {
            Some(v) => (v, slots, pos + 1),
            None => if depth == 0 {
                (spec_quiescence(legal_moves, in_check, s, alpha, beta, 4), slots, pos + 1)
            } else if rules_moves(legal_moves, s).len() == 0 {
                (
                    (if rules_in_check(in_check, s) {
                        -10000 + (st.max_depth - depth)
                    } else {
                        0
                    }) as i32,
                    slots,
                    pos + 1,
                )
            } else {
                alpha_beta_from(
                    legal_moves,
                    in_check,
                    st,
                    readings,
                    pos + 1,
                    path,
                    s,
                    hash,
                    depth,
                    beta,
                    rules_moves(legal_moves, s),
                    0,
                    alpha,
                    None,
                    EntryType::UpperBound,
                    slots,
                )
            },
        }
    }
}

/// The alpha-beta value of `s` once `moves[..i]` have been searched, raising the lower bound
/// to `bound` with best move `best` and bound kind `entry_type`, leaving `slots`, with the
/// next clock reading at `pos`. Each further move is scored by the negated search of the
/// position after it, one ply less deep, in window `(-beta, -bound)`, with the child's hash
/// pushed on the path. A score at or above `beta` stores a lower bound and fails high with
/// `beta`; a score above `bound` raises it and makes the move the best (exact bound). Once
/// every move is searched, `bound` is stored and returned.
pub open spec fn alpha_beta_from<G: Fn(BoardState) -> Vec<Move>, C: Fn(BoardState) -> bool>(
    legal_moves: G,
    in_check: C,
    st: SearchSetting,
    readings: Seq<u64>,
    pos: int,
    path: Seq<u64>,
    s: BoardState,
    hash: u64,
    depth: u8,
    beta: i32,
    moves: Seq<Move>,
    i: int,
    bound: i32,
    best: Option<(u8, u8, u8, u8)>,
    entry_type: EntryType,
    slots: Seq<Option<TTEntry>>,
) -> (i32, Seq<Option<TTEntry>>, int)
    decreases depth, 0int, moves.len() - i,
{
    if depth == 0 || i < 0 || i >= moves.len() {
        (bound, store_if(slots, st.generation, hash, bound, depth, entry_type, best), pos)
    } else {
        let m = moves[i];
        let h = child_hash(st.keys, hash, s, m);
        let r = spec_alpha_beta(
            legal_moves,
            in_check,
            st,
            readings,
            pos,
            path.push(h),
            slots,
            spec_play(s, m),
            h,
            (depth - 1) as u8,
            (-beta) as i32,
            (-bound) as i32,
        );
        let score = -(r.0 as int);
        if score >= beta {
            (
                beta,
                store_if(r.1, st.generation, hash, score as i32, depth, EntryType::LowerBound, Some(move_coords(m))),
                r.2,
            )
        } else if score > bound {
            alpha_beta_from(
                legal_moves,
                in_check,
                st,
                readings,
                r.2,
                path,
                s,
                hash,
                depth,
                beta,
                moves,
                i + 1,
                score as i32,
                Some(move_coords(m)),
                EntryType::Exact,
                r.1,
            )
        } else {
            alpha_beta_from(
                legal_moves,
                in_check,
                st,
                readings,
                r.2,
                path,
                s,
                hash,
                depth,
                beta,
                moves,
                i + 1,
                bound,
                best,
                entry_type,
                r.1,
            )
        }
    }
}

/// One iteration at the root from the `i`-th of the `ordered` moves on, with the best move
/// and score so far and the next clock reading at `pos`: before each move the clock is
/// read, and a reading at or past the time limit ends the iteration; otherwise the move is
/// scored by the negated full-window search of the position after it at `depth` plies, and
/// a strictly higher score makes it the best. Gives the best move, its score, the slots and
/// the index of the next reading.
pub open spec fn root_from<G: Fn(BoardState) -> Vec<Move>, C: Fn(BoardState) -> bool>(
    legal_moves: G,
    in_check: C,
    st: SearchSetting,
    readings: Seq<u64>,
    pos: int,
    root_path: Seq<u64>,
    s: BoardState,
    hash: u64,
    depth: u8,
    ordered: Seq<Move>,
    i: int,
    best: Move,
    best_score: i32,
    slots: Seq<Option<TTEntry>>,
) -> (Move, i32, Seq<Option<TTEntry>>, int)
    decreases ordered.len() - i,
{
    if i < 0 || i >= ordered.len() {
        (best, best_score, slots, pos)
    } else if readings[pos] >= st.time_limit_ms {
        (best, best_score, slots, pos + 1)
    } else {
        let m = ordered[i];
        let h = child_hash(st.keys, hash, s, m);
        let r = spec_alpha_beta(
            legal_moves,
            in_check,
            st,
            readings,
            pos + 1,
            root_path.push(h),
            slots,
            spec_play(s, m),
            h,
            depth,
            (i32::MIN + 1) as i32,
            (i32::MAX - 1) as i32,
        );
        let score = -(r.0 as int);
        if score > best_score {
            root_from(legal_moves, in_check, st, readings, r.2, root_path, s, hash, depth, ordered, i + 1, m, score as i32, r.1)
        } else {
            root_from(legal_moves, in_check, st, readings, r.2, root_path, s, hash, depth, ordered, i + 1, best, best_score, r.1)
        }
    }
}

/// The move the table suggests searching first at the root.
pub open spec fn root_suggestion(slots: Seq<Option<TTEntry>>, hash: u64) -> Option<(u8, u8, u8, u8)> {
    if slots.len() > 0 {
        match spec_probe(slots, hash) {
            Some(e) => spec_decode_move(e.best_move),
            None => None,
        }
    } else {
        None
    }
}

/// Iterative deepening from depth `d` to the configured depth, with the best move and score
/// so far and the next clock reading at `pos`: before each iteration the clock is read, and
/// a reading at or past the time limit ends the search. An iteration orders the moves by
/// the table's suggestion, searches them as `root_from` says, takes its best move when it
/// scores higher than the best so far (or at depth 1), and stores that move as an exact
/// entry. Gives the move chosen.
pub open spec fn deepen<G: Fn(BoardState) -> Vec<Move>, C: Fn(BoardState) -> bool>(
    legal_moves: G,
    in_check: C,
    st: SearchSetting,
    readings: Seq<u64>,
    pos: int,
    root_path: Seq<u64>,
    s: BoardState,
    hash: u64,
    moves: Seq<Move>,
    d: int,
    best: Move,
    best_score: i32,
    slots: Seq<Option<TTEntry>>,
) -> Move
    decreases st.max_depth + 1 - d,
{
    if d < 1 || d > st.max_depth {
        best
    } else if readings[pos] >= st.time_limit_ms {
        best
    } else {
        let ordered = spec_order_moves(moves, root_suggestion(slots, hash));
        let r = root_from(
            legal_moves,
            in_check,
            st,
            readings,
            pos + 1,
            root_path,
            s,
            hash,
            d as u8,
            ordered,
            0,
            moves[0],
            i32::MIN,
            slots,
        );
        let keep = r.1 > best_score || d == 1;
        let nb = if keep { r.0 } else { best };
        let ns = if keep { r.1 } else { best_score };
        deepen(
            legal_moves,
            in_check,
            st,
            readings,
            r.3,
            root_path,
            s,
            hash,
            moves,
            d + 1,
            nb,
            ns,
            store_if(r.2, st.generation, hash, ns, d as u8, EntryType::Exact, Some(move_coords(nb))),
        )
    }
}

/// The move the search settles on in `s` after the positions `history`, starting from a
/// table with `slots`, when the clock readings of the search (elapsed milliseconds, in the
/// order they are taken) are `readings`: iterative deepening from depth 1, along the path
/// of the history's hashes and the hash of `s`.
pub open spec fn searched_move<G: Fn(BoardState) -> Vec<Move>, C: Fn(BoardState) -> bool>(
    legal_moves: G,
    in_check: C,
    st: SearchSetting,
    readings: Seq<u64>,
    history: Seq<BoardState>,
    slots: Seq<Option<TTEntry>>,
    s: BoardState,
) -> Move {
    let hash = st.keys.spec_hash(s.board@, s.current_turn);
    let moves = rules_moves(legal_moves, s);
    deepen(
        legal_moves,
        in_check,
        st,
        readings,
        0,
        history_hashes(st.keys, history).push(hash),
        s,
        hash,
        moves,
        1,
        moves[0],
        i32::MIN,
        slots,
    )
}

/// The move played after a search that settled on `searched`: on the easy level, a `roll`
/// below 30 (out of 100) plays the legal move at `pick` instead.
pub fn played_move(searched: Move, moves: &Vec<Move>, difficulty: Difficulty, roll: usize, pick: usize) -> (m: Move)
    requires
        pick < moves@.len(),
    ensures
        m == (if difficulty == Difficulty::Easy && roll < 30 {
            moves@[pick as int]
        } else {
            searched
        }),
{
    if difficulty == Difficulty::Easy && roll < 30 {
        moves[pick]
    } else {
        searched
    }
}

/// A start of a start of `readings` is a start of `readings`.
proof fn lemma_extends_trans(readings: Seq<u64>, mid: Seq<u64>, log: Seq<u64>)
    requires
        extends(readings, mid),
        extends(mid, log),
    ensures
        extends(readings, log),
{
    assert(readings.take(log.len() as int) =~= mid.take(log.len() as int));
}

/// What follows a start of `readings` at its end is the reading at that index.
proof fn lemma_extends_push(readings: Seq<u64>, log: Seq<u64>, t: u64)
    requires
        extends(readings, log.push(t)),
    ensures
        extends(readings, log),
        readings[log.len() as int] == t,
{
    assert(readings.take(log.len() as int) =~= readings.take((log.len() + 1) as int).take(log.len() as int));
    assert(log.push(t).take(log.len() as int) =~= log);
    assert(readings.take((log.len() + 1) as int)[log.len() as int] == t);
}

/// Every sequence starts with itself.
proof fn lemma_extends_refl(log: Seq<u64>)
    ensures
        extends(log, log),
{
    assert(log.take(log.len() as int) =~= log);
}

/// The hashes of the positions of `history`, in order.
pub open spec fn history_hashes(t: ZobristTable, history: Seq<BoardState>) -> Seq<u64> {
    history.map_values(|s: BoardState| t.spec_hash(s.board@, s.current_turn))
}

/// The search engine: its settings, the count of nodes of the last search, the hashing keys,
/// the transposition table and the hashes of the positions on the current search path.
pub struct AiEngine {
    config: AiConfig,
    nodes_searched: u64,
    zobrist: ZobristTable,
    tt: TranspositionTable,
    path_hashes: Vec<u64>,
    /// The clock readings of the last search (elapsed milliseconds), in the order taken.
    clock_log: Ghost<Seq<u64>>,
}

impl AiEngine {
    pub closed spec fn config(&self) -> AiConfig {
        self.config
    }

    pub closed spec fn node_count(&self) -> u64 {
        self.nodes_searched
    }

    pub closed spec fn keys(&self) -> ZobristTable {
        self.zobrist
    }

    pub closed spec fn table(&self) -> TranspositionTable {
        self.tt
    }

    /// Hashes of the positions from the start of the game to the node being searched.
    pub closed spec fn path(&self) -> Seq<u64> {
        self.path_hashes@
    }

    /// The clock readings of the last search (milliseconds elapsed since it started), in the
    /// order they were taken.
    pub closed spec fn clock_readings(&self) -> Seq<u64> {
        self.clock_log@
    }

    /// The settings a search of this engine runs with.
    pub open spec fn setting(&self) -> SearchSetting {
        SearchSetting {
            keys: self.keys(),
            generation: self.table().generation() as u8,
            max_depth: self.config().max_depth,
            time_limit_ms: self.config().time_limit_ms,
        }
    }

    pub closed spec fn wf(&self) -> bool {
        self.tt.wf()
    }

    /// An engine with `config`, keys from the fixed seed, and an empty table of the
    /// configured size.
    pub fn new(config: AiConfig) -> (e: AiEngine)
        requires
            config.tt_size_mb * 1024 * 1024 <= usize::MAX,
        ensures
            e.wf(),
            e.config() == config,
            e.node_count() == 0,
            e.path() == Seq::<u64>::empty(),
            e.keys().keys().len() == 1260,
            forall|i: int| 0 <= i < 1260 ==> #[trigger] e.keys().keys()[i] == chacha8_word(ZOBRIST_SEED, i),
            e.keys().side_key() == chacha8_word(ZOBRIST_SEED, 1260),
            e.table().slots().len() == (if slot_bytes() == 0 {
                0
            } else {
                (config.tt_size_mb * 1024 * 1024) / (slot_bytes() as int)
            }),
            forall|i: int| 0 <= i < e.table().slots().len() ==> #[trigger] e.table().slots()[i] is None,
            e.table().generation() == 0,
    {
        let tt_size = config.tt_size_mb;
        AiEngine {
            config,
            nodes_searched: 0,
            zobrist: ZobristTable::new(),
            tt: TranspositionTable::new(tt_size),
            path_hashes: Vec::new(),
            clock_log: Ghost(Seq::empty()),
        }
    }

    /// An engine with the settings of `difficulty`.
    pub fn from_difficulty(difficulty: Difficulty) -> (e: AiEngine)
        ensures
            e.wf(),
            e.config() == spec_config(difficulty),
            e.node_count() == 0,
            e.path() == Seq::<u64>::empty(),
            e.table().generation() == 0,
            forall|i: int| 0 <= i < e.table().slots().len() ==> #[trigger] e.table().slots()[i] is None,
    {
        let config = AiConfig::from_difficulty(difficulty);
        assert(config.tt_size_mb <= 64);
        AiEngine::new(config)
    }

    /// Evaluation of `state` from the point of view of the side to move.
    fn evaluate(&self, state: &BoardState) -> (s: i32)
        ensures
            s == (if state.current_turn == Side::Red {
                spec_evaluate(state.board@)
            } else {
                -spec_evaluate(state.board@)
            }),
            -911700 <= s <= 911700,
    {
        let score = Evaluator::evaluate(&state.board);
        match state.current_turn {
            Side::Red => score,
            Side::Black => -score,
        }
    }

    /// Number of nodes visited by the last search.
    pub fn nodes_searched(&self) -> (n: u64)
        ensures
            n == self.node_count(),
    {
        self.nodes_searched
    }

    /// Statistics of the transposition table.
    pub fn tt_stats(&self) -> (s: TTStats)
        requires
            self.wf(),
        ensures
            s.size_mb == (self.table().slots().len() * slot_bytes()) / (1024 * 1024),
            s.entries == self.table().slots().len(),
            s.used == count_used(self.table().slots()),
            s.hits == self.table().hit_count(),
            s.probes == self.table().probe_count(),
    {
        self.tt.stats()
    }

    /// Empties the transposition table and its statistics.
    pub fn clear_tt(&mut self)
        requires
            old(self).wf(),
        ensures
            final(self).wf(),
            final(self).table().slots().len() == old(self).table().slots().len(),
            forall|i: int|
                0 <= i < final(self).table().slots().len() ==> #[trigger] final(self).table().slots()[i] is None,
            final(self).table().hit_count() == 0,
            final(self).table().probe_count() == 0,
            final(self).config() == old(self).config(),
            final(self).keys() == old(self).keys(),
            final(self).path() == old(self).path(),
            final(self).node_count() == old(self).node_count(),
    {
        self.tt.clear();
    }

    /// Quiescence search of `state` in window `(alpha, beta)`: only captures are searched,
    /// or every move when in check, down to `depth` more plies. A position without a legal
    /// move scores -9900 when in check and 0 otherwise.
    fn quiescence<G: Fn(BoardState) -> Vec<Move>, C: Fn(BoardState) -> bool>(
        &mut self,
        state: &BoardState,
        alpha: i32,
        beta: i32,
        depth: u8,
        legal_moves: &G,
        in_check: &C,
    ) -> (score: i32)
        requires
            old(self).wf(),
            i32::MIN < alpha,
            i32::MIN < beta,
            rules_usable(*legal_moves, *in_check),
        ensures
            final(self).wf(),
            final(self).path() == old(self).path(),
            final(self).config() == old(self).config(),
            final(self).keys() == old(self).keys(),
            i32::MIN < score,
            score == spec_quiescence(*legal_moves, *in_check, *state, alpha, beta, depth),
            final(self).table() == old(self).table(),
            final(self).clock_readings() == old(self).clock_readings(),
        decreases depth,
    {
        self.nodes_searched = self.nodes_searched.wrapping_add(1);
        let checked = in_check(*state);
        let moves = legal_moves(*state);
        proof {
            lemma_rules_in_check(*legal_moves, *in_check, *state, checked);
            lemma_rules_moves(*legal_moves, *in_check, *state, moves);
        }
        if moves.len() == 0 {
            return if checked {
                -9900
            } else {
                0
            };
        }
        let static_score = self.evaluate(state);
        let mut bound = match stand_pat(static_score, checked, depth, alpha, beta) {
            StandPat::Return(s) => {
                return s;
            },
            StandPat::Search(a) => a,
        };
        let search_moves = quiescence_moves(state, moves, checked);
        assert(moves_on_board(search_moves@)) by {
            assert forall|k: int| 0 <= k < search_moves@.len() implies (#[trigger] search_moves@[k]).from.valid()
                && search_moves@[k].to.valid() by {
                if !checked {
                    let f = |m: Move| state.board@[m.to.index()] is Some;
                    moves@.lemma_filter_contains_rev(f, search_moves@[k]);
                    assert(search_moves@.contains(search_moves@[k]));
                }
            }
        }
        let ghost path0 = self.path();
        let ghost config0 = self.config();
        let ghost keys0 = self.keys();
        let ghost alpha0 = bound;
        let mut i: usize = 0;
        while i < search_moves.len()
            invariant
                quiescence_from(*legal_moves, *in_check, *state, search_moves@, i as int, bound, beta, depth)
                    == quiescence_from(*legal_moves, *in_check, *state, search_moves@, 0, alpha0, beta, depth),
                spec_quiescence(*legal_moves, *in_check, *state, alpha, beta, depth)
                    == quiescence_from(*legal_moves, *in_check, *state, search_moves@, 0, alpha0, beta, depth),
                self.table() == old(self).table(),
                self.clock_readings() == old(self).clock_readings(),
                self.wf(),
                self.path() == path0,
                self.config() == config0,
                self.keys() == keys0,
                path0 == old(self).path(),
                config0 == old(self).config(),
                keys0 == old(self).keys(),
                i <= search_moves@.len(),
                moves_on_board(search_moves@),
                depth > 0,
                i32::MIN < bound,
                i32::MIN < beta,
                rules_usable(*legal_moves, *in_check),
            decreases search_moves@.len() - i,
        {
            let mv = search_moves[i];
            assert(mv.from.valid() && mv.to.valid());
            let mut new_state = *state;
            new_state.board.move_piece(mv.from, mv.to);
            new_state.switch_turn();
            assert(new_state == spec_play(*state, mv));
            let s = self.quiescence(&new_state, -beta, -bound, depth - 1, legal_moves, in_check);
            let score = -s;
            if score >= beta {
                return beta;
            }
            if score > bound {
                bound = score;
            }
            i = i + 1;
        }
        bound
    }

    /// Alpha-beta search of `state` (with hash `hash`) to `depth` plies in window
    /// `(alpha, beta)`, fail-hard. A third occurrence of a position on the path scores 0; once
    /// the time limit has passed since `start`, the static evaluation is returned; a table
    /// entry that settles the window is returned as it is; at depth 0 the quiescence search
    /// takes over; a position without a legal move scores as `no_move_score`.
    fn alpha_beta<G: Fn(BoardState) -> Vec<Move>, C: Fn(BoardState) -> bool>(
        &mut self,
        state: &BoardState,
        hash: u64,
        depth: u8,
        alpha: i32,
        beta: i32,
        start: &Instant,
        legal_moves: &G,
        in_check: &C,
    ) -> (score: i32)
        requires
            old(self).wf(),
            depth <= old(self).config().max_depth,
            i32::MIN < alpha,
            i32::MIN < beta,
            rules_usable(*legal_moves, *in_check),
        ensures
            final(self).wf(),
            final(self).path() == old(self).path(),
            final(self).config() == old(self).config(),
            final(self).keys() == old(self).keys(),
            i32::MIN < score,
            occurrences(old(self).path(), hash) >= 2 ==> score == 0,
            occurrences(old(self).path(), hash) < 2 ==> score == side_eval(*state) || alpha_beta_outcome(
                old(self).table().slots(),
                *legal_moves,
                *in_check,
                *state,
                hash,
                depth,
                alpha,
                beta,
                old(self).config().max_depth,
                score,
            ),
            final(self).table().generation() == old(self).table().generation(),
            extends(final(self).clock_readings(), old(self).clock_readings()),
            forall|readings: Seq<u64>|
                #[trigger] extends(readings, final(self).clock_readings()) ==> spec_alpha_beta(
                    *legal_moves,
                    *in_check,
                    old(self).setting(),
                    readings,
                    old(self).clock_readings().len() as int,
                    old(self).path(),
                    old(self).table().slots(),
                    *state,
                    hash,
                    depth,
                    alpha,
                    beta,
                ) == (score, final(self).table().slots(), final(self).clock_readings().len() as int),
        decreases depth,
    {
        self.nodes_searched = self.nodes_searched.wrapping_add(1);
        proof {
            lemma_extends_refl(self.clock_readings());
        }
        if is_repetition(&self.path_hashes, hash) {
            return 0;
        }
        let ghost log0 = self.clock_readings();
        let ghost st0 = old(self).setting();
        proof {
            lemma_extends_refl(log0);
        }
        let elapsed = elapsed_ms(start);
        self.clock_log = Ghost(self.clock_log@.push(elapsed));
        let ghost log1 = self.clock_readings();
        proof {
            lemma_extends_refl(log1);
            lemma_extends_push(log1, log0, elapsed);
            assert(log1.take(log0.len() as int) =~= log0);
            assert forall|readings: Seq<u64>| #[trigger] extends(readings, log1) implies readings[log0.len() as int]
                == elapsed && extends(readings, log0) by {
                lemma_extends_push(readings, log0, elapsed);
            }
        }
        if elapsed >= self.config.time_limit_ms {
            return self.evaluate(state);
        }
        if self.tt.has_slots() {
            let entry = self.tt.probe(hash);
            if let Some(s) = tt_cutoff(entry, depth, alpha, beta) {
                return s;
            }
        }
        if depth == 0 {
            return self.quiescence(state, alpha, beta, 4, legal_moves, in_check);
        }
        let moves = legal_moves(*state);
        proof {
            lemma_rules_moves(*legal_moves, *in_check, *state, moves);
        }
        if moves.len() == 0 {
            let checked = in_check(*state);
            proof {
                lemma_rules_in_check(*legal_moves, *in_check, *state, checked);
            }
            return no_move_score(checked, self.config.max_depth, depth);
        }
        let ghost path0 = self.path();
        let ghost config0 = self.config();
        let ghost keys0 = self.keys();
        let mut bound = alpha;
        let mut best_move: Option<(u8, u8, u8, u8)> = None;
        let mut entry_type = EntryType::UpperBound;
        let ghost generation = old(self).table().generation() as u8;
        let ghost max_depth = old(self).config().max_depth;
        let mut i: usize = 0;
        while i < moves.len()
            invariant
                self.table().generation() == old(self).table().generation(),
                extends(self.clock_readings(), log1),
                extends(self.clock_readings(), log0),
                log1 == log0.push(elapsed),
                log0 == old(self).clock_readings(),
                st0 == old(self).setting(),
                forall|readings: Seq<u64>|
                    #[trigger] extends(readings, self.clock_readings()) ==> spec_alpha_beta(
                        *legal_moves,
                        *in_check,
                        st0,
                        readings,
                        log0.len() as int,
                        path0,
                        old(self).table().slots(),
                        *state,
                        hash,
                        depth,
                        alpha,
                        beta,
                    ) == alpha_beta_from(
                        *legal_moves,
                        *in_check,
                        st0,
                        readings,
                        self.clock_readings().len() as int,
                        path0,
                        *state,
                        hash,
                        depth,
                        beta,
                        moves@,
                        i as int,
                        bound,
                        best_move,
                        entry_type,
                        self.table().slots(),
                    ),
                generation == old(self).table().generation() as u8,
                max_depth == old(self).config().max_depth,
                moves@ == rules_moves(*legal_moves, *state),
                self.wf(),
                self.path() == path0,
                self.config() == config0,
                self.keys() == keys0,
                path0 == old(self).path(),
                config0 == old(self).config(),
                keys0 == old(self).keys(),
                i <= moves@.len(),
                moves_on_board(moves@),
                0 < depth <= self.config().max_depth,
                occurrences(path0, hash) < 2,
                i32::MIN < bound,
                bound == alpha || (alpha < bound && bound < beta),
                table_cutoff(old(self).table().slots(), hash, depth, alpha, beta) is None,
                rules_moves(*legal_moves, *state).len() > 0,
                i32::MIN < beta,
                rules_usable(*legal_moves, *in_check),
            decreases moves@.len() - i,
        {
            let mv = moves[i];
            assert(mv.from.valid() && mv.to.valid());
            let mut new_state = *state;
            let captured = new_state.board.move_piece(mv.from, mv.to);
            new_state.switch_turn();
            let kind = match captured {
                Some(p) => Some(p.piece_type),
                None => None,
            };
            let new_hash = update_hash(&self.zobrist, hash, state, &mv, kind);
            assert(new_state == spec_play(*state, mv));
            assert(new_hash == child_hash(keys0, hash, *state, mv));
            let ghost log_before = self.clock_readings();
            let ghost slots_before = self.table().slots();
            self.path_hashes.push(new_hash);
            let s = self.alpha_beta(&new_state, new_hash, depth - 1, -beta, -bound, start, legal_moves, in_check);
            self.path_hashes.pop();
            assert(self.path_hashes@ =~= path0);
            let score = -s;
            proof {
                let log_after = self.clock_readings();
                lemma_extends_trans(log_after, log_before, log1);
                lemma_extends_trans(log_after, log_before, log0);
                assert forall|readings: Seq<u64>| #[trigger] extends(readings, log_after) implies extends(
                    readings,
                    log_before,
                ) && spec_alpha_beta(
                    *legal_moves,
                    *in_check,
                    st0,
                    readings,
                    log_before.len() as int,
                    path0.push(new_hash),
                    slots_before,
                    new_state,
                    new_hash,
                    (depth - 1) as u8,
                    (-beta) as i32,
                    (-bound) as i32,
                ) == (s, self.table().slots(), log_after.len() as int) by {
                    lemma_extends_trans(readings, log_after, log_before);
                }
            }
            if score >= beta {
                if self.tt.has_slots() {
                    self.tt.store(
                        hash,
                        score,
                        depth,
                        EntryType::LowerBound,
                        Some((mv.from.x, mv.from.y, mv.to.x, mv.to.y)),
                    );
                }
                return beta;
            }
            if score > bound {
                bound = score;
                best_move = Some((mv.from.x, mv.from.y, mv.to.x, mv.to.y));
                entry_type = EntryType::Exact;
            }
            i = i + 1;
        }
        if self.tt.has_slots() {
            self.tt.store(hash, bound, depth, entry_type, best_move);
        }
        bound
    }

    /// The move to play in `state`, found by iterative deepening up to the configured depth
    /// within the configured time. The hashes of `history_states` (the positions played
    /// before, oldest first) start the path, so that repetitions across turns count.
    /// `legal_moves` and `in_check` answer for the rules of the game.
    ///
    /// The answer is one of the legal moves; there is none only when the rules give no legal
    /// move. A single legal move is played at once. Otherwise the searched move is the one
    /// `searched_move` gives for the clock readings the search took (iterations stop once a
    /// reading passes the time limit); on the easy level, three times in ten a legal move
    /// drawn at random replaces it.
    pub fn search_with_history<G: Fn(BoardState) -> Vec<Move>, C: Fn(BoardState) -> bool>(
        &mut self,
        state: &BoardState,
        history_states: &[BoardState],
        legal_moves: &G,
        in_check: &C,
    ) -> (r: Option<Move>)
        requires
            old(self).wf(),
            rules_usable(*legal_moves, *in_check),
        ensures
            final(self).wf(),
            final(self).config() == old(self).config(),
            final(self).keys() == old(self).keys(),
            match r {
                Some(m) => exists|ms: Vec<Move>| #[trigger] legal_moves.ensures((*state,), ms) && ms@.contains(m),
                None => exists|ms: Vec<Move>| #[trigger] legal_moves.ensures((*state,), ms) && ms@.len() == 0,
            },
            r is None <==> rules_moves(*legal_moves, *state).len() == 0,
            rules_moves(*legal_moves, *state).len() == 1 ==> r == Some(rules_moves(*legal_moves, *state)[0])
                && final(self).clock_readings() == Seq::<u64>::empty(),
            rules_moves(*legal_moves, *state).len() > 1 ==> r == Some(
                searched_move(
                    *legal_moves,
                    *in_check,
                    SearchSetting {
                        keys: old(self).keys(),
                        generation: ((old(self).table().generation() + 1) % 0x1_0000_0000_0000_0000) as u8,
                        max_depth: old(self).config().max_depth,
                        time_limit_ms: old(self).config().time_limit_ms,
                    },
                    final(self).clock_readings(),
                    history_states@,
                    old(self).table().slots(),
                    *state,
                ),
            ) || (old(self).config().difficulty == Difficulty::Easy && (r matches Some(m) && rules_moves(
                *legal_moves,
                *state,
            ).contains(m))),
            final(self).path() == history_hashes(old(self).keys(), history_states@) || final(self).path()
                == history_hashes(old(self).keys(), history_states@).push(
                old(self).keys().spec_hash(state.board@, state.current_turn),
            ),
    {
        self.nodes_searched = 0;
        self.tt.new_search();
        self.path_hashes.clear();
        self.clock_log = Ghost(Seq::empty());
        let start = now();
        let ghost keys0 = self.keys();
        let ghost config0 = self.config();
        let ghost st = self.setting();
        let ghost slots0 = self.table().slots();
        let mut k: usize = 0;
        while k < history_states.len()
            invariant
                self.wf(),
                self.keys() == keys0,
                self.config() == config0,
                keys0 == old(self).keys(),
                config0 == old(self).config(),
                self.table().slots() == slots0,
                self.setting() == st,
                st.generation == ((old(self).table().generation() + 1) % 0x1_0000_0000_0000_0000) as u8,
                slots0 == old(self).table().slots(),
                self.clock_readings() == Seq::<u64>::empty(),
                k <= history_states@.len(),
                self.path() == history_hashes(keys0, history_states@.take(k as int)),
            decreases history_states@.len() - k,
        {
            let h = history_states[k];
            let hh = self.zobrist.hash(&h.board, h.current_turn);
            self.path_hashes.push(hh);
            assert(history_states@.take(k + 1) =~= history_states@.take(k as int).push(h));
            k = k + 1;
        }
        assert(history_states@.take(history_states@.len() as int) =~= history_states@);
        let ghost hist = self.path();
        let moves = legal_moves(*state);
        proof {
            lemma_rules_moves(*legal_moves, *in_check, *state, moves);
        }
        if moves.len() == 0 {
            return None;
        }
        assert(moves@.contains(moves@[0]));
        if moves.len() == 1 {
            return Some(moves[0]);
        }
        let hash = self.zobrist.hash(&state.board, state.current_turn);
        self.path_hashes.push(hash);
        let ghost root_path = self.path();
        let mut best_move = moves[0];
        let mut best_score = i32::MIN;
        let max_depth = self.config.max_depth;
        let limit = self.config.time_limit_ms;
        let mut d: u16 = 1;
        while d <= max_depth as u16
            invariant_except_break
                forall|readings: Seq<u64>|
                    #[trigger] extends(readings, self.clock_readings()) ==> searched_move(
                        *legal_moves,
                        *in_check,
                        st,
                        readings,
                        history_states@,
                        slots0,
                        *state,
                    ) == deepen(
                        *legal_moves,
                        *in_check,
                        st,
                        readings,
                        self.clock_readings().len() as int,
                        root_path,
                        *state,
                        hash,
                        moves@,
                        d as int,
                        best_move,
                        best_score,
                        self.table().slots(),
                    ),
            invariant
                self.wf(),
                self.keys() == keys0,
                self.config() == config0,
                self.path() == root_path,
                self.setting() == st,
                root_path == hist.push(keys0.spec_hash(state.board@, state.current_turn)),
                hist == history_hashes(keys0, history_states@),
                hash == keys0.spec_hash(state.board@, state.current_turn),
                max_depth == config0.max_depth,
                limit == config0.time_limit_ms,
                1 <= d <= max_depth as u16 + 1,
                moves_on_board(moves@),
                moves@ == rules_moves(*legal_moves, *state),
                moves@.len() > 1,
                moves@.contains(best_move),
                rules_usable(*legal_moves, *in_check),
            ensures
                forall|readings: Seq<u64>|
                    #[trigger] extends(readings, self.clock_readings()) ==> searched_move(
                        *legal_moves,
                        *in_check,
                        st,
                        readings,
                        history_states@,
                        slots0,
                        *state,
                    ) == best_move,
            decreases max_depth as u16 + 1 - d,
        {
            let ghost log_d = self.clock_readings();
            let elapsed = elapsed_ms(&start);
            self.clock_log = Ghost(self.clock_log@.push(elapsed));
            let ghost log_e = self.clock_readings();
            proof {
                lemma_extends_refl(log_e);
                assert forall|readings: Seq<u64>| #[trigger] extends(readings, log_e) implies readings[log_d.len() as int]
                    == elapsed && extends(readings, log_d) by {
                    lemma_extends_push(readings, log_d, elapsed);
                }
            }
            if elapsed >= limit {
                break;
            }
            let depth = d as u8;
            let ghost slots_iter = self.table().slots();
            let suggested = if self.tt.has_slots() {
                match self.tt.probe(hash) {
                    Some(e) => e.decode_move(),
                    None => None,
                }
            } else {
                None
            };
            assert(suggested == root_suggestion(slots_iter, hash));
            let ordered = order_moves(&moves, suggested);
            proof {
                lemma_ordered_members(moves@, suggested);
            }
            let mut current_best_move = moves[0];
            let mut current_best_score = i32::MIN;
            let mut i: usize = 0;
            while i < ordered.len()
                invariant_except_break
                    forall|readings: Seq<u64>|
                        #[trigger] extends(readings, self.clock_readings()) ==> root_from(
                            *legal_moves,
                            *in_check,
                            st,
                            readings,
                            log_e.len() as int,
                            root_path,
                            *state,
                            hash,
                            depth,
                            ordered@,
                            0,
                            moves@[0],
                            i32::MIN,
                            slots_iter,
                        ) == root_from(
                            *legal_moves,
                            *in_check,
                            st,
                            readings,
                            self.clock_readings().len() as int,
                            root_path,
                            *state,
                            hash,
                            depth,
                            ordered@,
                            i as int,
                            current_best_move,
                            current_best_score,
                            self.table().slots(),
                        ),
                invariant
                    self.wf(),
                    self.keys() == keys0,
                    self.config() == config0,
                    self.path() == root_path,
                    self.setting() == st,
                    max_depth == config0.max_depth,
                    limit == config0.time_limit_ms,
                    1 <= depth <= max_depth,
                    depth == d,
                    i <= ordered@.len(),
                    ordered@.len() == moves@.len(),
                    moves_on_board(ordered@),
                    forall|j: int| 0 <= j < ordered@.len() ==> moves@.contains(#[trigger] ordered@[j]),
                    moves@.contains(current_best_move),
                    rules_usable(*legal_moves, *in_check),
                    extends(self.clock_readings(), log_e),
                ensures
                    extends(self.clock_readings(), log_e),
                    forall|readings: Seq<u64>|
                        #[trigger] extends(readings, self.clock_readings()) ==> root_from(
                            *legal_moves,
                            *in_check,
                            st,
                            readings,
                            log_e.len() as int,
                            root_path,
                            *state,
                            hash,
                            depth,
                            ordered@,
                            0,
                            moves@[0],
                            i32::MIN,
                            slots_iter,
                        ) == (current_best_move, current_best_score, self.table().slots(), self.clock_readings().len() as int),
                decreases ordered@.len() - i,
            {
                let ghost log_i = self.clock_readings();
                let tick = elapsed_ms(&start);
                self.clock_log = Ghost(self.clock_log@.push(tick));
                let ghost log_t = self.clock_readings();
                proof {
                    assert(log_t.take(log_e.len() as int) =~= log_i.take(log_e.len() as int));
                    assert forall|readings: Seq<u64>| #[trigger] extends(readings, log_t) implies readings[log_i.len() as int]
                        == tick && extends(readings, log_i) by {
                        lemma_extends_push(readings, log_i, tick);
                    }
                }
                if tick >= limit {
                    break;
                }
                let mv = ordered[i];
                assert(mv.from.valid() && mv.to.valid());
                assert(moves@.contains(ordered@[i as int]));
                let mut new_state = *state;
                let captured = new_state.board.move_piece(mv.from, mv.to);
                new_state.switch_turn();
                let kind = match captured {
                    Some(p) => Some(p.piece_type),
                    None => None,
                };
                let new_hash = update_hash(&self.zobrist, hash, state, &mv, kind);
                assert(new_state == spec_play(*state, mv));
                assert(new_hash == child_hash(keys0, hash, *state, mv));
                let ghost slots_before = self.table().slots();
                self.path_hashes.push(new_hash);
                let s = self.alpha_beta(
                    &new_state,
                    new_hash,
                    depth,
                    i32::MIN + 1,
                    i32::MAX - 1,
                    &start,
                    legal_moves,
                    in_check,
                );
                self.path_hashes.pop();
                assert(self.path_hashes@ =~= root_path);
                let score = -s;
                proof {
                    let log_after = self.clock_readings();
                    lemma_extends_trans(log_after, log_t, log_e);
                    assert forall|readings: Seq<u64>| #[trigger] extends(readings, log_after) implies extends(
                        readings,
                        log_t,
                    ) && spec_alpha_beta(
                        *legal_moves,
                        *in_check,
                        st,
                        readings,
                        log_t.len() as int,
                        root_path.push(new_hash),
                        slots_before,
                        new_state,
                        new_hash,
                        depth,
                        (i32::MIN + 1) as i32,
                        (i32::MAX - 1) as i32,
                    ) == (s, self.table().slots(), log_after.len() as int) by {
                        lemma_extends_trans(readings, log_after, log_t);
                    }
                }
                if score > current_best_score {
                    current_best_score = score;
                    current_best_move = mv;
                }
                i = i + 1;
            }
            if current_best_score > best_score || depth == 1 {
                best_score = current_best_score;
                best_move = current_best_move;
            }
            if self.tt.has_slots() {
                self.tt.store(
                    hash,
                    best_score,
                    depth,
                    EntryType::Exact,
                    Some((best_move.from.x, best_move.from.y, best_move.to.x, best_move.to.y)),
                );
            }
            d = d + 1;
            proof {
                let log_f = self.clock_readings();
                assert forall|readings: Seq<u64>| #[trigger] extends(readings, log_f) implies searched_move(
                    *legal_moves,
                    *in_check,
                    st,
                    readings,
                    history_states@,
                    slots0,
                    *state,
                ) == deepen(
                    *legal_moves,
                    *in_check,
                    st,
                    readings,
                    log_f.len() as int,
                    root_path,
                    *state,
                    hash,
                    moves@,
                    d as int,
                    best_move,
                    best_score,
                    self.table().slots(),
                ) by {
                    lemma_extends_trans(readings, log_f, log_e);
                    lemma_extends_push(readings, log_d, elapsed);
                }
            }
        }
        let mut roll: usize = 100;
        let mut pick: usize = 0;
        if self.config.difficulty == Difficulty::Easy {
            roll = random_below(100);
            if roll < 30 {
                pick = random_below(moves.len());
            }
        }
        let chosen = played_move(best_move, &moves, self.config.difficulty, roll, pick);
        assert(moves@.contains(moves@[pick as int]));
        proof {
            assert(extends(self.clock_readings(), self.clock_readings())) by {
                assert(self.clock_readings().take(self.clock_readings().len() as int) =~= self.clock_readings());
            }
        }
        Some(chosen)
    }

    /// `search_with_history` with no earlier positions.
    pub fn search<G: Fn(BoardState) -> Vec<Move>, C: Fn(BoardState) -> bool>(
        &mut self,
        state: &BoardState,
        legal_moves: &G,
        in_check: &C,
    ) -> (r: Option<Move>)
        requires
            old(self).wf(),
            rules_usable(*legal_moves, *in_check),
        ensures
            final(self).wf(),
            final(self).config() == old(self).config(),
            final(self).keys() == old(self).keys(),
            match r {
                Some(m) => exists|ms: Vec<Move>| #[trigger] legal_moves.ensures((*state,), ms) && ms@.contains(m),
                None => exists|ms: Vec<Move>| #[trigger] legal_moves.ensures((*state,), ms) && ms@.len() == 0,
            },
            r is None <==> rules_moves(*legal_moves, *state).len() == 0,
            rules_moves(*legal_moves, *state).len() == 1 ==> r == Some(rules_moves(*legal_moves, *state)[0])
                && final(self).clock_readings() == Seq::<u64>::empty(),
            rules_moves(*legal_moves, *state).len() > 1 ==> r == Some(
                searched_move(
                    *legal_moves,
                    *in_check,
                    SearchSetting {
                        keys: old(self).keys(),
                        generation: ((old(self).table().generation() + 1) % 0x1_0000_0000_0000_0000) as u8,
                        max_depth: old(self).config().max_depth,
                        time_limit_ms: old(self).config().time_limit_ms,
                    },
                    final(self).clock_readings(),
                    Seq::<BoardState>::empty(),
                    old(self).table().slots(),
                    *state,
                ),
            ) || (old(self).config().difficulty == Difficulty::Easy && (r matches Some(m) && rules_moves(
                *legal_moves,
                *state,
            ).contains(m))),
            final(self).path() == Seq::<u64>::empty() || final(self).path() == seq![
                old(self).keys().spec_hash(state.board@, state.current_turn),
            ],
    {
        let none: Vec<BoardState> = Vec::new();
        let r = self.search_with_history(state, none.as_slice(), legal_moves, in_check);
        assert(none@ =~= Seq::<BoardState>::empty());
        assert(history_hashes(old(self).keys(), none@) =~= Seq::<u64>::empty());
        r
    }
}

} // verus!

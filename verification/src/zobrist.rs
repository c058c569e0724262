//! Zobrist hashing of positions, with incremental update.

use vstd::prelude::*;
use rand::{Rng, SeedableRng};
use crate::board::{lemma_board_len, Board, Piece, PieceType, Position, Side};

verus! {

broadcast use lemma_board_len;

/// The `n`-th 64-bit word (counting from 0) that `next_u64` yields from a ChaCha8 generator
/// created with `seed_from_u64(seed)`.
pub uninterp spec fn chacha8_word(seed: u64, n: int) -> u64;

/// Draws the first `count` 64-bit words from `rand_chacha::ChaCha8Rng::seed_from_u64(seed)`,
/// each with `Rng::gen::<u64>()` (which is `next_u64`). The contract claims that word `i` is
/// `chacha8_word(seed, i)`: the ChaCha8 stream is a fixed function of the seed.
#[verifier::external_body]
fn chacha8_stream(seed: u64, count: usize) -> (words: Vec<u64>)
    ensures
        words@.len() == count,
        forall|i: int| 0 <= i < count ==> #[trigger] words@[i] == chacha8_word(seed, i),
{
    let mut rng = rand_chacha::ChaCha8Rng::seed_from_u64(seed);
    (0..count).map(|_| rng.gen::<u64>()).collect()
}

/// Seed of the key stream, fixed so that hashes are the same in every run.
pub const ZOBRIST_SEED: u64 = 0xDEADBEEF_CAFE_1234;

/// Number of piece keys: 2 sides x 7 kinds x 90 squares.
pub const PIECE_KEYS: usize = 1260;

pub open spec fn side_index(s: Side) -> int {
    match s {
        Side::Red => 0,
        Side::Black => 1,
    }
}

pub open spec fn kind_index(k: PieceType) -> int {
    match k {
        PieceType::King => 0,
        PieceType::Advisor => 1,
        PieceType::Bishop => 2,
        PieceType::Knight => 3,
        PieceType::Rook => 4,
        PieceType::Cannon => 5,
        PieceType::Pawn => 6,
    }
}

/// Where the key of a piece of `side` and `kind` on square `sq` sits in the key table.
pub open spec fn key_index(side: Side, kind: PieceType, sq: int) -> int {
    side_index(side) * 630 + kind_index(kind) * 90 + sq
}

/// Zobrist table: one random key per (side, kind, square) and one for the side to move.
pub struct ZobristTable {
    pieces: [u64; 1260],
    side_to_move: u64,
}

impl ZobristTable {
    /// The key table, indexed by `key_index`.
    pub closed spec fn keys(&self) -> Seq<u64> {
        self.pieces@
    }

    /// The key that is toggled when the side to move changes.
    pub closed spec fn side_key(&self) -> u64 {
        self.side_to_move
    }

    pub open spec fn key(&self, side: Side, kind: PieceType, sq: int) -> u64 {
        self.keys()[key_index(side, kind, sq)]
    }

    /// Contribution of a square's content to the hash (0 for an empty square).
    pub open spec fn square_key(&self, cell: Option<Piece>, sq: int) -> u64 {
        match cell {
            Some(p) => self.key(p.side, p.piece_type, sq),
            None => 0,
        }
    }

    /// XOR of the contributions of squares `i..90`.
    pub open spec fn hash_from(&self, b: Seq<Option<Piece>>, i: int) -> u64
        decreases 90 - i,
    {
        if 0 <= i < 90 {
            self.square_key(b[i], i) ^ self.hash_from(b, i + 1)
        } else {
            0
        }
    }

    /// Hash of a position: XOR of the keys of all pieces, and the side key when Black moves.
    pub open spec fn spec_hash(&self, b: Seq<Option<Piece>>, turn: Side) -> u64 {
        if turn == Side::Black {
            self.hash_from(b, 0) ^ self.side_key()
        } else {
            self.hash_from(b, 0)
        }
    }

    /// Builds the table from the ChaCha8 stream seeded with `ZOBRIST_SEED`: the piece keys
    /// in (side, kind, square) order, then the side key.
    pub fn new() -> (t: ZobristTable)
        ensures
            t.keys().len() == 1260,
            forall|i: int| 0 <= i < 1260 ==> #[trigger] t.keys()[i] == chacha8_word(ZOBRIST_SEED, i),
            t.side_key() == chacha8_word(ZOBRIST_SEED, 1260),
    {
        let words = chacha8_stream(ZOBRIST_SEED, 1261);
        let mut pieces = [0u64; 1260];
        let mut i: usize = 0;
        while i < 1260
            invariant
                i <= 1260,
                words@.len() == 1261,
                forall|k: int| 0 <= k < 1261 ==> #[trigger] words@[k] == chacha8_word(ZOBRIST_SEED, k),
                forall|k: int| 0 <= k < i ==> #[trigger] pieces@[k] == chacha8_word(ZOBRIST_SEED, k),
            decreases 1260 - i,
        {
            pieces[i] = words[i];
            i = i + 1;
        }
        ZobristTable { pieces, side_to_move: words[1260] }
    }

    /// Key of a piece of `side` and `piece_type` on `pos`.
    pub fn piece_hash(&self, side: Side, piece_type: PieceType, pos: Position) -> (h: u64)
        requires
            pos.valid(),
        ensures
            h == self.key(side, piece_type, pos.index()),
    {
        let side_idx: usize = match side {
            Side::Red => 0,
            Side::Black => 1,
        };
        let piece_idx = piece_type_to_index(piece_type);
        let pos_idx = pos.to_index();
        self.pieces[side_idx * 630 + piece_idx * 90 + pos_idx]
    }

    /// The side-to-move key.
    pub fn side_hash(&self) -> (h: u64)
        ensures
            h == self.side_key(),
    {
        self.side_to_move
    }

    /// Full hash of a board with `current_turn` to move.
    pub fn hash(&self, board: &Board, current_turn: Side) -> (h: u64)
        ensures
            h == self.spec_hash(board@, current_turn),
    {
        let mut acc: u64 = 0;
        let mut i: usize = 90;
        while i > 0
            invariant
                i <= 90,
                acc == self.hash_from(board@, i as int),
            decreases i,
        {
            i = i - 1;
            let pos = Position::new_unchecked((i % 9) as u8, (i / 9) as u8);
            assert(pos.index() == i);
            assert(self.hash_from(board@, i as int) == self.square_key(board@[i as int], i as int)
                ^ self.hash_from(board@, i + 1));
            match board.get(pos) {
                Some(p) => {
                    acc = self.piece_hash(p.side, p.piece_type, pos) ^ acc;
                    assert(acc == self.hash_from(board@, i as int));
                }
                None => {
                    proof { lemma_xor(acc, 0, 0); }
                    assert(acc == self.hash_from(board@, i as int));
                }
            }
        }
        if current_turn == Side::Black {
            acc = acc ^ self.side_to_move;
        }
        acc
    }
}

/// Only squares `i..90` enter `hash_from(b, i)`.
pub proof fn lemma_hash_from_frame(t: ZobristTable, b1: Seq<Option<Piece>>, b2: Seq<Option<Piece>>, i: int)
    requires
        forall|k: int| i <= k < 90 ==> b1[k] == b2[k],
    ensures
        t.hash_from(b1, i) == t.hash_from(b2, i),
    decreases 90 - i,
{
    if 0 <= i < 90 {
        lemma_hash_from_frame(t, b1, b2, i + 1);
    } else if i < 0 {
        lemma_hash_from_frame(t, b1, b2, i + 1);
    }
}

/// Changing square `j` changes the hash by the keys of the old and the new content.
pub proof fn lemma_hash_from_update(t: ZobristTable, b: Seq<Option<Piece>>, j: int, v: Option<Piece>, i: int)
    requires
        0 <= i <= j < 90,
        b.len() == 90,
    ensures
        t.hash_from(b.update(j, v), i) == t.hash_from(b, i) ^ t.square_key(b[j], j) ^ t.square_key(v, j),
    decreases j - i,
{
    let b2 = b.update(j, v);
    if i == j {
        lemma_hash_from_frame(t, b2, b, j + 1);
        let h = t.hash_from(b, j + 1);
        let o = t.square_key(b[j], j);
        let n = t.square_key(v, j);
        assert((n ^ h) == (o ^ h) ^ o ^ n) by (bit_vector);
    } else {
        lemma_hash_from_update(t, b, j, v, i + 1);
        let h = t.hash_from(b, i + 1);
        let s = t.square_key(b[i], i);
        let o = t.square_key(b[j], j);
        let n = t.square_key(v, j);
        assert(s ^ (h ^ o ^ n) == (s ^ h) ^ o ^ n) by (bit_vector);
    }
}

/// Passing the move to the other side toggles the side key.
pub proof fn law_side_toggle(t: ZobristTable, b: Seq<Option<Piece>>, turn: Side)
    ensures
        t.spec_hash(b, turn.spec_opponent()) == t.spec_hash(b, turn) ^ t.side_key(),
{
    let h = t.hash_from(b, 0);
    let k = t.side_key();
    assert(h == (h ^ k) ^ k) by (bit_vector);
}

/// Algebra of exclusive or on 64-bit words.
pub proof fn lemma_xor(a: u64, b: u64, c: u64)
    by (bit_vector)
    ensures
        0u64 ^ a == a,
        a ^ 0u64 == a,
        a ^ a == 0u64,
        a ^ b == b ^ a,
        (a ^ b) ^ c == a ^ (b ^ c),
{
}

/// Index of a piece kind in the key table.
fn piece_type_to_index(piece_type: PieceType) -> (i: usize)
    ensures
        i as int == kind_index(piece_type),
{
    match piece_type {
        PieceType::King => 0,
        PieceType::Advisor => 1,
        PieceType::Bishop => 2,
        PieceType::Knight => 3,
        PieceType::Rook => 4,
        PieceType::Cannon => 5,
        PieceType::Pawn => 6,
    }
}

impl Default for ZobristTable {
    /// The table of `new`.
    fn default() -> (t: ZobristTable)
        ensures
            t.keys().len() == 1260,
            forall|i: int| 0 <= i < 1260 ==> #[trigger] t.keys()[i] == chacha8_word(ZOBRIST_SEED, i),
            t.side_key() == chacha8_word(ZOBRIST_SEED, 1260),
    {
        ZobristTable::new()
    }
}

} // verus!

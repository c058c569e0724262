//! Board model: sides, pieces, positions and the 9x10 board.

use vstd::prelude::*;

verus! {

/// The two sides of a game. Red moves first and sits at the bottom (y = 0..4).
#[derive(Clone, Copy, Debug, PartialEq, Eq, Structural)]
pub enum Side {
    Red,
    Black,
}

impl Side {
    pub open spec fn spec_opponent(self) -> Side {
        match self {
            Side::Red => Side::Black,
            Side::Black => Side::Red,
        }
    }

    /// The other side.
    pub fn opponent(self) -> (r: Side)
        ensures
            r == self.spec_opponent(),
    {
        match self {
            Side::Red => Side::Black,
            Side::Black => Side::Red,
        }
    }
}

/// The seven kinds of pieces.
#[derive(Clone, Copy, Debug, PartialEq, Eq, Structural)]
pub enum PieceType {
    King,
    Advisor,
    Bishop,
    Knight,
    Rook,
    Cannon,
    Pawn,
}

impl PieceType {
    /// Material value of a piece kind.
    pub open spec fn spec_value(self) -> i32 {
        match self {
            PieceType::King => 10000,
            PieceType::Advisor => 200,
            PieceType::Bishop => 200,
            PieceType::Knight => 400,
            PieceType::Rook => 900,
            PieceType::Cannon => 450,
            PieceType::Pawn => 100,
        }
    }

    /// Material value of a piece kind.
    pub fn value(self) -> (v: i32)
        ensures
            v == self.spec_value(),
    {
        match self {
            PieceType::King => 10000,
            PieceType::Advisor => 200,
            PieceType::Bishop => 200,
            PieceType::Knight => 400,
            PieceType::Rook => 900,
            PieceType::Cannon => 450,
            PieceType::Pawn => 100,
        }
    }
}


/// A piece: its kind and its side.
#[derive(Clone, Copy, Debug, PartialEq, Eq, Structural)]
pub struct Piece {
    pub piece_type: PieceType,
    pub side: Side,
}

impl Piece {
    pub fn new(piece_type: PieceType, side: Side) -> (p: Piece)
        ensures
            p.piece_type == piece_type,
            p.side == side,
    {
        Piece { piece_type, side }
    }
}

/// Number of files (columns) of the board.
pub const BOARD_WIDTH: u8 = 9;

/// Number of ranks (rows) of the board.
pub const BOARD_HEIGHT: u8 = 10;

/// Number of squares of the board.
pub const BOARD_SQUARES: usize = 90;

/// A square of the board: `x` is the file (0..=8), `y` the rank (0..=9).
#[derive(Clone, Copy, Debug, PartialEq, Eq, Structural)]
pub struct Position {
    pub x: u8,
    pub y: u8,
}

/// Whether `(x, y)` names a square of the board.
pub open spec fn on_board(x: int, y: int) -> bool {
    0 <= x < 9 && 0 <= y < 10
}

/// The index of square `(x, y)` in row-major order.
pub open spec fn square_index(x: int, y: int) -> int {
    y * 9 + x
}

impl Position {
    pub open spec fn valid(self) -> bool {
        on_board(self.x as int, self.y as int)
    }

    pub open spec fn index(self) -> int {
        square_index(self.x as int, self.y as int)
    }

    /// A position, if `(x, y)` lies on the board.
    pub fn new(x: u8, y: u8) -> (r: Option<Position>)
        ensures
            r is Some <==> on_board(x as int, y as int),
            r matches Some(p) ==> p.x == x && p.y == y,
    {
        if x < BOARD_WIDTH && y < BOARD_HEIGHT {
            Some(Position { x, y })
        } else {
            None
        }
    }

    /// A position that the caller knows to lie on the board.
    pub fn new_unchecked(x: u8, y: u8) -> (p: Position)
        requires
            on_board(x as int, y as int),
        ensures
            p.x == x,
            p.y == y,
            p.valid(),
    {
        Position { x, y }
    }

    /// Row-major index of the square (`y * 9 + x`).
    pub fn to_index(self) -> (i: usize)
        requires
            self.valid(),
        ensures
            i as int == self.index(),
            i < 90,
    {
        (self.y as usize) * 9 + (self.x as usize)
    }
}

/// The position at a row-major index.
pub open spec fn position_at(i: int) -> Position {
    Position { x: (i % 9) as u8, y: (i / 9) as u8 }
}

/// A 9x10 board; each square holds at most one piece.
#[derive(Clone, Copy, Debug)]
pub struct Board {
    squares: [Option<Piece>; 90],
}

impl View for Board {
    type V = Seq<Option<Piece>>;

    closed spec fn view(&self) -> Seq<Option<Piece>> {
        self.squares@
    }
}

/// The board model has exactly 90 squares.
pub broadcast proof fn lemma_board_len(b: Board)
    ensures
        #[trigger] b@.len() == 90,
{
}

impl Board {
    /// The piece standing on `pos`, in the model.
    pub open spec fn at(self, pos: Position) -> Option<Piece> {
        self@[pos.index()]
    }

    /// A board with no pieces.
    pub fn empty() -> (b: Board)
        ensures
            b@ == Seq::new(90, |i: int| None::<Piece>),
    {
        let b = Board { squares: [None; 90] };
        assert(b@ =~= Seq::new(90, |i: int| None::<Piece>));
        b
    }

    /// The piece on `pos`, if any.
    pub fn get(&self, pos: Position) -> (r: Option<Piece>)
        requires
            pos.valid(),
        ensures
            r == self.at(pos),
    {
        self.squares[pos.to_index()]
    }

    /// Puts `piece` (or nothing) on `pos`.
    pub fn set(&mut self, pos: Position, piece: Option<Piece>)
        requires
            pos.valid(),
        ensures
            final(self)@ == old(self)@.update(pos.index(), piece),
    {
        let i = pos.to_index();
        self.squares[i] = piece;
    }

    /// The board after moving the piece on `from` to `to`.
    pub closed spec fn spec_moved(self, from: Position, to: Position) -> Board {
        Board {
            squares: vstd::array::spec_array_update(
                vstd::array::spec_array_update(self.squares, to.index(), self.squares[from.index()]),
                from.index(),
                None,
            ),
        }
    }

    /// The view of a moved board is the moved view.
    pub broadcast proof fn lemma_moved_view(b: Board, from: Position, to: Position)
        requires
            from.valid(),
            to.valid(),
        ensures
            #[trigger] b.spec_moved(from, to)@ == spec_move_piece(b@, from, to),
    {
    }

    /// A board is determined by its squares.
    pub proof fn lemma_board_ext(b1: Board, b2: Board)
        requires
            b1@ == b2@,
        ensures
            b1 == b2,
    {
        assert(b1.squares =~= b2.squares);
    }

    /// Moves the piece on `from` to `to` and returns what stood on `to`.
    pub fn move_piece(&mut self, from: Position, to: Position) -> (captured: Option<Piece>)
        requires
            from.valid(),
            to.valid(),
        ensures
            captured == old(self).at(to),
            final(self)@ == spec_move_piece(old(self)@, from, to),
            *final(self) == old(self).spec_moved(from, to),
    {
        let captured = self.get(to);
        let moving = self.get(from);
        self.set(to, moving);
        self.set(from, None);
        proof {
            Board::lemma_moved_view(*old(self), from, to);
            Board::lemma_board_ext(*self, old(self).spec_moved(from, to));
        }
        captured
    }

    /// The standard starting position.
    pub fn initial() -> (b: Board)
        ensures
            b@ == initial_squares(),
    {
        let mut b = Board::empty();
        let mut x: u8 = 0;
        while x < 9
            invariant
                x <= 9,
                forall|i: int|
                    0 <= i < 90 ==> #[trigger] b@[i] == (if (i % 9) < x {
                        initial_piece_at(i % 9, i / 9)
                    } else {
                        None
                    }),
                b@.len() == 90,
            decreases 9 - x,
        {
            let mut y: u8 = 0;
            while y < 10
                invariant
                    x < 9,
                    y <= 10,
                    b@.len() == 90,
                    forall|i: int|
                        0 <= i < 90 ==> #[trigger] b@[i] == (if (i % 9) < x || ((i % 9) == x && i
                            / 9 < y) {
                            initial_piece_at(i % 9, i / 9)
                        } else {
                            None
                        }),
                decreases 10 - y,
            {
                let p = initial_piece(x, y);
                let pos = Position::new_unchecked(x, y);
                b.set(pos, p);
                y = y + 1;
            }
            x = x + 1;
        }
        assert(b@ =~= initial_squares());
        b
    }

    /// The position of the king of `side` (the first one in row-major order).
    pub fn find_king(&self, side: Side) -> (r: Option<Position>)
        ensures
            r is Some == king_from(self@, side, 0) is Some,
            r matches Some(p) ==> p.valid() && king_from(self@, side, 0) == Some(p.index()),
    {
        let mut i: usize = 0;
        while i < 90
            invariant
                i <= 90,
                king_from(self@, side, 0) == king_from(self@, side, i as int),
            decreases 90 - i,
        {
            if self.squares[i] == Some(Piece { piece_type: PieceType::King, side }) {
                let pos = Position::new_unchecked((i % 9) as u8, (i / 9) as u8);
                assert(pos.index() == i);
                return Some(pos);
            }
            i = i + 1;
        }
        None
    }

    /// Whether the two kings face each other on an open file.
    pub fn kings_facing(&self) -> (r: bool)
        ensures
            r == spec_kings_facing(self@),
    {
        let red = match self.find_king(Side::Red) {
            Some(p) => p,
            None => return false,
        };
        let black = match self.find_king(Side::Black) {
            Some(p) => p,
            None => return false,
        };
        if red.x != black.x {
            assert(red.index() % 9 == red.x as int && black.index() % 9 == black.x as int);
            return false;
        }
        assert(red.index() % 9 == red.x as int && black.index() % 9 == black.x as int);
        assert(red.index() / 9 == red.y as int && black.index() / 9 == black.y as int);
        let (lo, hi) = if red.y < black.y { (red.y, black.y) } else { (black.y, red.y) };
        assert((red.index() < black.index()) == (red.y < black.y));
        assert(spec_kings_facing(self@) == file_clear(self@, red.x as int, lo as int, hi as int));
        let mut y: u8 = lo + 1;
        while y < hi
            invariant
                spec_kings_facing(self@) == file_clear(self@, red.x as int, lo as int, hi as int),
                lo < y <= hi || (y == lo + 1 && hi <= lo + 1),
                hi < 10,
                red.x < 9,
                forall|k: int| lo < k < y ==> #[trigger] self@[square_index(red.x as int, k)] is None,
            decreases hi - y,
        {
            let pos = Position::new_unchecked(red.x, y);
            if self.get(pos).is_some() {
                assert(self@[square_index(red.x as int, y as int)] is Some);
                return false;
            }
            y = y + 1;
        }
        true
    }

    /// All pieces on the board with their positions, in row-major order.
    pub fn all_pieces(&self) -> (r: Vec<(Position, Piece)>)
        ensures
            r@ == pieces_from(self@, 0),
    {
        let mut r: Vec<(Position, Piece)> = Vec::new();
        let mut i: usize = 90;
        while i > 0
            invariant
                i <= 90,
                self@.len() == 90,
                r@ == pieces_from(self@, i as int).reverse(),
            decreases i,
        {
            i = i - 1;
            proof { lemma_pieces_from_unfold(self@, i as int); }
            let pos = Position::new_unchecked((i % 9) as u8, (i / 9) as u8);
            assert(pos.index() == i);
            match self.squares[i] {
                Some(p) => {
                    r.push((pos, p));
                    assert(r@ =~= pieces_from(self@, i as int).reverse());
                }
                None => {}
            }
        }
        let mut out: Vec<(Position, Piece)> = Vec::new();
        let mut j: usize = r.len();
        while j > 0
            invariant
                j <= r@.len(),
                out@ == r@.subrange(j as int, r@.len() as int).reverse(),
            decreases j,
        {
            j = j - 1;
            out.push(r[j]);
            assert(out@ =~= r@.subrange(j as int, r@.len() as int).reverse());
        }
        assert(r@.subrange(0, r@.len() as int) =~= r@);
        assert(pieces_from(self@, 0).reverse().reverse() =~= pieces_from(self@, 0));
        out
    }
}

/// A move from one square to another, with the piece it captured once it has been played.
#[derive(Clone, Copy, Debug, PartialEq, Eq, Structural)]
pub struct Move {
    pub from: Position,
    pub to: Position,
    pub captured: Option<Piece>,
}

impl Move {
    pub fn new(from: Position, to: Position) -> (m: Move)
        ensures
            m.from == from,
            m.to == to,
            m.captured is None,
    {
        Move { from, to, captured: None }
    }
}

/// Whether every move of `moves` goes from a square of the board to a square of the board.
pub open spec fn moves_on_board(moves: Seq<Move>) -> bool {
    forall|k: int| 0 <= k < moves.len() ==> (#[trigger] moves[k]).from.valid() && moves[k].to.valid()
}

/// A position together with the side to move and the count of plies since the last capture.
#[derive(Clone, Copy, Debug)]
pub struct BoardState {
    pub board: Board,
    pub current_turn: Side,
    pub no_capture_count: u32,
}

impl BoardState {
    /// The starting position, Red to move.
    pub fn initial() -> (s: BoardState)
        ensures
            s.board@ == initial_squares(),
            s.current_turn == Side::Red,
            s.no_capture_count == 0,
    {
        BoardState { board: Board::initial(), current_turn: Side::Red, no_capture_count: 0 }
    }

    /// A position built from a board and the side to move.
    pub fn from_board(board: Board, current_turn: Side) -> (s: BoardState)
        ensures
            s.board@ == board@,
            s.current_turn == current_turn,
            s.no_capture_count == 0,
    {
        BoardState { board, current_turn, no_capture_count: 0 }
    }

    /// Hands the move to the other side.
    pub fn switch_turn(&mut self)
        ensures
            final(self).current_turn == old(self).current_turn.spec_opponent(),
            final(self).board@ == old(self).board@,
            final(self).board == old(self).board,
            final(self).no_capture_count == old(self).no_capture_count,
    {
        self.current_turn = self.current_turn.opponent();
    }
}

/// The first square (in row-major order) from `i` on that holds the king of `side`.
pub open spec fn king_from(b: Seq<Option<Piece>>, side: Side, i: int) -> Option<int>
    decreases 90 - i,
{
    if i < 0 || i >= 90 {
        None
    } else if b[i] == Some(Piece { piece_type: PieceType::King, side }) {
        Some(i)
    } else {
        king_from(b, side, i + 1)
    }
}

/// Whether no piece stands strictly between ranks `lo` and `hi` on file `x`.
pub open spec fn file_clear(b: Seq<Option<Piece>>, x: int, lo: int, hi: int) -> bool {
    forall|y: int| lo < y < hi ==> #[trigger] b[square_index(x, y)] is None
}

/// Whether the two kings stand on the same file with nothing between them.
pub open spec fn spec_kings_facing(b: Seq<Option<Piece>>) -> bool {
    match (king_from(b, Side::Red, 0), king_from(b, Side::Black, 0)) {
        (Some(r), Some(k)) => r % 9 == k % 9 && file_clear(b, r % 9, if r < k { r / 9 } else { k / 9 }, if r < k { k / 9 } else { r / 9 }),
        _ => false,
    }
}

/// The squares after moving the piece on `from` to `to` (whatever stood on `to` is removed).
pub open spec fn spec_move_piece(b: Seq<Option<Piece>>, from: Position, to: Position) -> Seq<
    Option<Piece>,
> {
    b.update(to.index(), b[from.index()]).update(from.index(), None)
}

/// The piece on square `(x, y)` of the starting position.
pub open spec fn initial_piece_at(x: int, y: int) -> Option<Piece> {
    if y == 0 || y == 9 {
        let side = if y == 0 { Side::Red } else { Side::Black };
        let kind = if x == 0 || x == 8 {
            PieceType::Rook
        } else if x == 1 || x == 7 {
            PieceType::Knight
        } else if x == 2 || x == 6 {
            PieceType::Bishop
        } else if x == 3 || x == 5 {
            PieceType::Advisor
        } else {
            PieceType::King
        };
        Some(Piece { piece_type: kind, side })
    } else if (y == 2 || y == 7) && (x == 1 || x == 7) {
        Some(Piece { piece_type: PieceType::Cannon, side: if y == 2 { Side::Red } else { Side::Black } })
    } else if (y == 3 || y == 6) && x % 2 == 0 {
        Some(Piece { piece_type: PieceType::Pawn, side: if y == 3 { Side::Red } else { Side::Black } })
    } else {
        None
    }
}

/// The squares of the starting position.
pub open spec fn initial_squares() -> Seq<Option<Piece>> {
    Seq::new(90, |i: int| initial_piece_at(i % 9, i / 9))
}

/// The piece on square `(x, y)` of the starting position.
fn initial_piece(x: u8, y: u8) -> (r: Option<Piece>)
    ensures
        r == initial_piece_at(x as int, y as int),
{
    if y == 0 || y == 9 {
        let side = if y == 0 { Side::Red } else { Side::Black };
        let kind = if x == 0 || x == 8 {
            PieceType::Rook
        } else if x == 1 || x == 7 {
            PieceType::Knight
        } else if x == 2 || x == 6 {
            PieceType::Bishop
        } else if x == 3 || x == 5 {
            PieceType::Advisor
        } else {
            PieceType::King
        };
        Some(Piece { piece_type: kind, side })
    } else if (y == 2 || y == 7) && (x == 1 || x == 7) {
        Some(Piece { piece_type: PieceType::Cannon, side: if y == 2 { Side::Red } else { Side::Black } })
    } else if (y == 3 || y == 6) && x % 2 == 0 {
        Some(Piece { piece_type: PieceType::Pawn, side: if y == 3 { Side::Red } else { Side::Black } })
    } else {
        None
    }
}

/// The occupied squares of `b` from index `i` on, as (position, piece) pairs in row-major order.
pub open spec fn pieces_from(b: Seq<Option<Piece>>, i: int) -> Seq<(Position, Piece)>
    decreases 90 - i,
{
    if i < 0 || i >= 90 {
        Seq::empty()
    } else {
        match b[i] {
            Some(p) => seq![(position_at(i), p)] + pieces_from(b, i + 1),
            None => pieces_from(b, i + 1),
        }
    }
}

proof fn lemma_pieces_from_unfold(b: Seq<Option<Piece>>, i: int)
    requires
        0 <= i < 90,
    ensures
        pieces_from(b, i) == (match b[i] {
            Some(p) => seq![(position_at(i), p)] + pieces_from(b, i + 1),
            None => pieces_from(b, i + 1),
        }),
{
}

} // verus!

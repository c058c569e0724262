//! State of the board editor: the position being built and the settings of the game to start.

use vstd::prelude::*;
use crate::board::{
    initial_squares, lemma_board_len, square_index, Board, Piece, PieceType, Position, Side,
};
use crate::search::Difficulty;

verus! {

broadcast use lemma_board_len;

/// Who plays against the player in the edited position.
#[derive(Clone, Copy, Debug, PartialEq, Eq, Structural)]
pub enum OpponentType {
    AI,
    LocalPvP,
}

impl Default for OpponentType {
    fn default() -> (r: OpponentType)
        ensures
            r == OpponentType::AI,
    {
        OpponentType::AI
    }
}

/// The editor: the position, the piece ready to be placed and the game settings.
pub struct BoardEditorState {
    pub board: Board,
    /// The piece placed by the next click, if any.
    pub selected_piece: Option<Piece>,
    pub first_turn: Side,
    pub opponent_type: OpponentType,
    /// Difficulty of the computer (against the computer).
    pub ai_difficulty: Difficulty,
    /// The player's side (against the computer).
    pub player_side: Side,
    /// Whether the position changed since it was last saved.
    pub is_modified: bool,
    /// Name under which the position is saved.
    pub layout_name: String,
    pub validation_errors: Vec<String>,
    pub validation_warnings: Vec<String>,
    /// Whether the dialog asking to start despite warnings is shown.
    pub show_warning_dialog: bool,
}

/// The squares with only the two kings on their starting squares.
pub open spec fn kings_only_squares() -> Seq<Option<Piece>> {
    Seq::new(90, |i: int| None::<Piece>).update(
        square_index(4, 0),
        Some(Piece { piece_type: PieceType::King, side: Side::Red }),
    ).update(square_index(4, 9), Some(Piece { piece_type: PieceType::King, side: Side::Black }))
}

impl BoardEditorState {
    /// Everything but the board, the selection, the modified flag and the validation results
    /// is as in `other`.
    pub open spec fn same_settings(&self, other: &BoardEditorState) -> bool {
        &&& self.first_turn == other.first_turn
        &&& self.opponent_type == other.opponent_type
        &&& self.ai_difficulty == other.ai_difficulty
        &&& self.player_side == other.player_side
        &&& self.layout_name@ == other.layout_name@
        &&& self.show_warning_dialog == other.show_warning_dialog
    }

    /// The state after the board was replaced by `squares`: no selection, modified, no
    /// validation results.
    pub open spec fn reset_to(&self, old: &BoardEditorState, squares: Seq<Option<Piece>>) -> bool {
        &&& self.board@ == squares
        &&& self.selected_piece is None
        &&& self.is_modified
        &&& self.validation_errors@.len() == 0
        &&& self.validation_warnings@.len() == 0
        &&& self.same_settings(old)
    }

    /// An empty board, nothing selected, Red first against the computer on medium.
    pub fn new() -> (s: BoardEditorState)
        ensures
            s.board@ == Seq::new(90, |i: int| None::<Piece>),
            s.selected_piece is None,
            s.first_turn == Side::Red,
            s.opponent_type == OpponentType::AI,
            s.ai_difficulty == Difficulty::Medium,
            s.player_side == Side::Red,
            !s.is_modified,
            s.layout_name@.len() == 0,
            s.validation_errors@.len() == 0,
            s.validation_warnings@.len() == 0,
            !s.show_warning_dialog,
    {
        BoardEditorState {
            board: Board::empty(),
            selected_piece: None,
            first_turn: Side::Red,
            opponent_type: OpponentType::AI,
            ai_difficulty: Difficulty::Medium,
            player_side: Side::Red,
            is_modified: false,
            layout_name: String::new(),
            validation_errors: Vec::new(),
            validation_warnings: Vec::new(),
            show_warning_dialog: false,
        }
    }

    /// Empties the board.
    pub fn clear(&mut self)
        ensures
            final(self).reset_to(old(self), Seq::new(90, |i: int| None::<Piece>)),
    {
        self.board = Board::empty();
        self.selected_piece = None;
        self.is_modified = true;
        self.validation_errors.clear();
        self.validation_warnings.clear();
    }

    /// Puts the standard starting position on the board.
    pub fn set_initial(&mut self)
        ensures
            final(self).reset_to(old(self), initial_squares()),
    {
        self.board = Board::initial();
        self.selected_piece = None;
        self.is_modified = true;
        self.validation_errors.clear();
        self.validation_warnings.clear();
    }

    /// Leaves only the two kings, on their starting squares.
    pub fn set_kings_only(&mut self)
        ensures
            final(self).reset_to(old(self), kings_only_squares()),
    {
        self.board = Board::empty();
        self.board.set(Position::new_unchecked(4, 0), Some(Piece::new(PieceType::King, Side::Red)));
        self.board.set(
            Position::new_unchecked(4, 9),
            Some(Piece::new(PieceType::King, Side::Black)),
        );
        self.selected_piece = None;
        self.is_modified = true;
        self.validation_errors.clear();
        self.validation_warnings.clear();
        assert(self.board@ =~= kings_only_squares());
    }

    /// Places the selected piece on `(x, y)` when a piece is selected and the square is on
    /// the board.
    pub fn place_piece(&mut self, x: u8, y: u8)
        ensures
            match old(self).selected_piece {
                Some(piece) if x < 9 && y < 10 => {
                    &&& final(self).board@ == old(self).board@.update(square_index(x as int, y as int), Some(piece))
                    &&& final(self).is_modified
                },
                _ => {
                    &&& final(self).board@ == old(self).board@
                    &&& final(self).is_modified == old(self).is_modified
                },
            },
            final(self).selected_piece == old(self).selected_piece,
            final(self).validation_errors@ == old(self).validation_errors@,
            final(self).validation_warnings@ == old(self).validation_warnings@,
            final(self).same_settings(old(self)),
    {
        if let Some(piece) = self.selected_piece {
            if let Some(pos) = Position::new(x, y) {
                self.board.set(pos, Some(piece));
                self.is_modified = true;
            }
        }
    }

    /// Removes the piece on `(x, y)`, if the square is on the board and holds one.
    pub fn remove_piece(&mut self, x: u8, y: u8)
        ensures
            x < 9 && y < 10 && old(self).board@[square_index(x as int, y as int)] is Some ==> {
                &&& final(self).board@ == old(self).board@.update(square_index(x as int, y as int), None)
                &&& final(self).is_modified
            },
            !(x < 9 && y < 10 && old(self).board@[square_index(x as int, y as int)] is Some) ==> {
                &&& final(self).board@ == old(self).board@
                &&& final(self).is_modified == old(self).is_modified
            },
            final(self).selected_piece == old(self).selected_piece,
            final(self).validation_errors@ == old(self).validation_errors@,
            final(self).validation_warnings@ == old(self).validation_warnings@,
            final(self).same_settings(old(self)),
    {
        if let Some(pos) = Position::new(x, y) {
            if self.board.get(pos).is_some() {
                self.board.set(pos, None);
                self.is_modified = true;
            }
        }
    }

    /// Selects the piece the next click places.
    pub fn select_piece(&mut self, piece: Piece)
        ensures
            final(self).selected_piece == Some(piece),
            final(self).board@ == old(self).board@,
            final(self).is_modified == old(self).is_modified,
            final(self).validation_errors@ == old(self).validation_errors@,
            final(self).validation_warnings@ == old(self).validation_warnings@,
            final(self).same_settings(old(self)),
    {
        self.selected_piece = Some(piece);
    }

    /// Clears the selection.
    pub fn deselect(&mut self)
        ensures
            final(self).selected_piece is None,
            final(self).board@ == old(self).board@,
            final(self).is_modified == old(self).is_modified,
            final(self).validation_errors@ == old(self).validation_errors@,
            final(self).validation_warnings@ == old(self).validation_warnings@,
            final(self).same_settings(old(self)),
    {
        self.selected_piece = None;
    }
}

impl Default for BoardEditorState {
    fn default() -> (s: BoardEditorState)
        ensures
            s.board@ == Seq::new(90, |i: int| None::<Piece>),
            s.selected_piece is None,
            s.first_turn == Side::Red,
            s.opponent_type == OpponentType::AI,
            s.ai_difficulty == Difficulty::Medium,
            s.player_side == Side::Red,
            !s.is_modified,
            s.layout_name@.len() == 0,
            s.validation_errors@.len() == 0,
            s.validation_warnings@.len() == 0,
            !s.show_warning_dialog,
    {
        BoardEditorState::new()
    }
}

/// The character written on a piece: different for the two sides, except the rook and the
/// knight.
pub open spec fn spec_piece_char(piece: Piece) -> Seq<char> {
    match (piece.piece_type, piece.side) {
        (PieceType::King, Side::Red) => "帥"@,
        (PieceType::King, Side::Black) => "將"@,
        (PieceType::Advisor, Side::Red) => "仕"@,
        (PieceType::Advisor, Side::Black) => "士"@,
        (PieceType::Bishop, Side::Red) => "相"@,
        (PieceType::Bishop, Side::Black) => "象"@,
        (PieceType::Rook, _) => "車"@,
        (PieceType::Knight, _) => "馬"@,
        (PieceType::Cannon, Side::Red) => "炮"@,
        (PieceType::Cannon, Side::Black) => "砲"@,
        (PieceType::Pawn, Side::Red) => "兵"@,
        (PieceType::Pawn, Side::Black) => "卒"@,
    }
}

/// The character written on a piece.
pub fn piece_to_chinese(piece: Piece) -> (r: &'static str)
    ensures
        r@ == spec_piece_char(piece),
{
    match (piece.piece_type, piece.side) {
        (PieceType::King, Side::Red) => "帥",
        (PieceType::King, Side::Black) => "將",
        (PieceType::Advisor, Side::Red) => "仕",
        (PieceType::Advisor, Side::Black) => "士",
        (PieceType::Bishop, Side::Red) => "相",
        (PieceType::Bishop, Side::Black) => "象",
        (PieceType::Rook, _) => "車",
        (PieceType::Knight, Side::Red) => "馬",
        (PieceType::Knight, Side::Black) => "馬",
        (PieceType::Cannon, Side::Red) => "炮",
        (PieceType::Cannon, Side::Black) => "砲",
        (PieceType::Pawn, Side::Red) => "兵",
        (PieceType::Pawn, Side::Black) => "卒",
    }
}

} // verus!

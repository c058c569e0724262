//! The buttons of the board editor that leave it or start a game.

use vstd::prelude::*;
use crate::board::{initial_squares, lemma_board_len, square_index, BoardState, Piece, Side};
use crate::client::{ClientGame, GameMode, GameState};
use crate::editor::state::{kings_only_squares, BoardEditorState, OpponentType};
use crate::editor::validation::{
    layout_errors, layout_warnings, spec_complete_errors, spec_complete_warnings, texts, validate_board,
};

verus! {

broadcast use lemma_board_len;

/// The buttons of the editor page.
#[derive(Clone, Copy, Debug, PartialEq, Eq, Structural)]
pub enum EditorAction {
    Back,
    StartGame,
    SaveLayout,
    ConfirmWarning,
    CancelWarning,
}

/// What is left to do after a button of the editor.
pub struct EditorStep {
    /// The screen to show next, if it changes.
    pub screen: Option<GameState>,
    /// Whether to save the position being edited.
    pub save_layout: bool,
}

/// The mode of a game started from the editor.
pub open spec fn editor_mode(e: BoardEditorState) -> GameMode {
    match e.opponent_type {
        OpponentType::AI => GameMode::LocalPvE { difficulty: e.ai_difficulty },
        OpponentType::LocalPvP => GameMode::LocalPvP,
    }
}

/// Whether `after` is `before` with a game started from the editor's position: its side to
/// move goes first, the player takes the chosen side, in the chosen mode.
pub open spec fn started_from(before: ClientGame, after: ClientGame, e: BoardEditorState) -> bool {
    &&& after.game_state matches Some(s) && s.board@ == e.board@ && s.current_turn == e.first_turn
        && s.no_capture_count == 0 && after.state_history@ == seq![s]
    &&& after.player_side == Some(e.player_side)
    &&& after.game_mode == Some(editor_mode(e))
    &&& after.selected_piece is None
    &&& after.valid_moves@.len() == 0
    &&& after.last_move is None
    &&& after.move_history@.len() == 0
    &&& !after.is_paused
    &&& !after.waiting_undo_response
    &&& after.game_result is None
    &&& after.red_time_ms == before.red_time_ms
    &&& after.black_time_ms == before.black_time_ms
}

/// Starts a game on this machine from the editor's position.
pub fn start_game_from_editor(editor: &BoardEditorState, game: &mut ClientGame)
    ensures
        started_from(*old(game), *final(game), *editor),
{
    let state = BoardState::from_board(editor.board, editor.first_turn);
    let mode = match editor.opponent_type {
        OpponentType::AI => GameMode::LocalPvE { difficulty: editor.ai_difficulty },
        OpponentType::LocalPvP => GameMode::LocalPvP,
    };
    game.start_game(state, editor.player_side, mode);
}

/// Handles a button of the editor. Starting validates the position (`has_legal_move` and
/// `in_check` answer for the side to move first): errors keep the editor open, warnings open
/// the confirmation dialog, otherwise the game starts. Confirming starts the game despite
/// the warnings; cancelling closes the dialog; going back opens the saved games.
pub fn handle_editor_action(
    action: EditorAction,
    editor: &mut BoardEditorState,
    game: &mut ClientGame,
    has_legal_move: bool,
    in_check: bool,
) -> (r: EditorStep)
    ensures
        match action {
            EditorAction::Back => {
                &&& *final(editor) == *old(editor) && *final(game) == *old(game)
                &&& r.screen == Some(GameState::SavedGames) && !r.save_layout
            },
            EditorAction::SaveLayout => {
                &&& *final(editor) == *old(editor) && *final(game) == *old(game)
                &&& r.screen is None && r.save_layout
            },
            EditorAction::CancelWarning => {
                &&& *final(editor) == BoardEditorState { show_warning_dialog: false, ..*old(editor) }
                &&& *final(game) == *old(game)
                &&& r.screen is None && !r.save_layout
            },
            EditorAction::ConfirmWarning => {
                &&& *final(editor) == BoardEditorState { show_warning_dialog: false, ..*old(editor) }
                &&& started_from(*old(game), *final(game), *old(editor))
                &&& r.screen == Some(GameState::Playing) && !r.save_layout
            },
            EditorAction::StartGame => {
                let e0 = *old(editor);
                let errors = spec_complete_errors(layout_errors(e0.board@), e0.first_turn, has_legal_move);
                let warnings = spec_complete_warnings(
                    layout_errors(e0.board@),
                    layout_warnings(e0.board@),
                    e0.first_turn,
                    in_check,
                );
                &&& texts(final(editor).validation_errors@) == errors
                &&& texts(final(editor).validation_warnings@) == warnings
                &&& final(editor).board == e0.board && final(editor).first_turn == e0.first_turn
                &&& final(editor).selected_piece == e0.selected_piece
                &&& final(editor).opponent_type == e0.opponent_type
                &&& final(editor).ai_difficulty == e0.ai_difficulty
                &&& final(editor).player_side == e0.player_side
                &&& final(editor).is_modified == e0.is_modified
                &&& final(editor).layout_name == e0.layout_name
                &&& !r.save_layout
                &&& if errors.len() > 0 {
                    &&& *final(game) == *old(game) && r.screen is None
                    &&& final(editor).show_warning_dialog == e0.show_warning_dialog
                } else if warnings.len() > 0 {
                    &&& *final(game) == *old(game) && r.screen is None
                    &&& final(editor).show_warning_dialog
                } else {
                    &&& started_from(*old(game), *final(game), e0)
                    &&& r.screen == Some(GameState::Playing)
                    &&& final(editor).show_warning_dialog == e0.show_warning_dialog
                }
            },
        },
{
    match action {
        EditorAction::Back => EditorStep { screen: Some(GameState::SavedGames), save_layout: false },
        EditorAction::SaveLayout => EditorStep { screen: None, save_layout: true },
        EditorAction::CancelWarning => {
            editor.show_warning_dialog = false;
            EditorStep { screen: None, save_layout: false }
        },
        EditorAction::ConfirmWarning => {
            editor.show_warning_dialog = false;
            start_game_from_editor(editor, game);
            EditorStep { screen: Some(GameState::Playing), save_layout: false }
        },
        EditorAction::StartGame => {
            let validation = validate_board(&editor.board, editor.first_turn, has_legal_move, in_check);
            let valid = validation.is_valid();
            let warned = validation.warnings.len() > 0;
            editor.validation_errors = validation.errors;
            editor.validation_warnings = validation.warnings;
            if !valid {
                return EditorStep { screen: None, save_layout: false };
            }
            if warned {
                editor.show_warning_dialog = true;
                return EditorStep { screen: None, save_layout: false };
            }
            start_game_from_editor(editor, game);
            EditorStep { screen: Some(GameState::Playing), save_layout: false }
        },
    }
}

/// The tools of the editor's palette.
#[derive(Clone, Copy, Debug, PartialEq, Eq, Structural)]
pub enum ToolAction {
    Clear,
    Initial,
    KingsOnly,
    Eraser,
}

/// Applies a tool: empty the board, set up the starting position, keep only the kings, or
/// drop the selected piece (so that clicks place nothing).
pub fn handle_tool_action(editor: &mut BoardEditorState, action: ToolAction)
    ensures
        match action {
            ToolAction::Clear => final(editor).reset_to(old(editor), Seq::new(90, |i: int| None::<Piece>)),
            ToolAction::Initial => final(editor).reset_to(old(editor), initial_squares()),
            ToolAction::KingsOnly => final(editor).reset_to(old(editor), kings_only_squares()),
            ToolAction::Eraser => {
                &&& final(editor).selected_piece is None
                &&& final(editor).board@ == old(editor).board@
                &&& final(editor).is_modified == old(editor).is_modified
                &&& final(editor).validation_errors@ == old(editor).validation_errors@
                &&& final(editor).validation_warnings@ == old(editor).validation_warnings@
                &&& final(editor).same_settings(old(editor))
            },
        },
{
    match action {
        ToolAction::Clear => editor.clear(),
        ToolAction::Initial => editor.set_initial(),
        ToolAction::KingsOnly => editor.set_kings_only(),
        ToolAction::Eraser => editor.deselect(),
    }
}

/// A click on the square `(x, y)` of the editor's board: the left button places the
/// selected piece (when one is selected), the right button removes the piece there.
pub fn handle_board_cell_click(editor: &mut BoardEditorState, x: u8, y: u8, left_button: bool)
    ensures
        final(editor).selected_piece == old(editor).selected_piece,
        final(editor).validation_errors@ == old(editor).validation_errors@,
        final(editor).validation_warnings@ == old(editor).validation_warnings@,
        final(editor).same_settings(old(editor)),
        ({
            let on_board = x < 9 && y < 10;
            let sq = square_index(x as int, y as int);
            if left_button {
                match old(editor).selected_piece {
                    Some(p) if on_board => final(editor).board@ == old(editor).board@.update(sq, Some(p))
                        && final(editor).is_modified,
                    _ => final(editor).board@ == old(editor).board@ && final(editor).is_modified
                        == old(editor).is_modified,
                }
            } else if on_board && old(editor).board@[sq] is Some {
                final(editor).board@ == old(editor).board@.update(sq, None) && final(editor).is_modified
            } else {
                final(editor).board@ == old(editor).board@ && final(editor).is_modified == old(editor).is_modified
            }
        }),
{
    if left_button {
        if editor.selected_piece.is_some() {
            editor.place_piece(x, y);
        }
    } else {
        editor.remove_piece(x, y);
    }
}

} // verus!

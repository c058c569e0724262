//! The client's view of a game: the position, whose turn it is, the selection, the clocks
//! and the history used to take moves back.

use vstd::prelude::*;
use crate::board::{lemma_board_len, BoardState, Move, Position, Side};
use crate::outcome::GameResult;
use crate::search::Difficulty;

verus! {

broadcast use lemma_board_len;

/// The screen the client shows.
#[derive(Clone, Copy, Debug, PartialEq, Eq, Structural)]
pub enum GameState {
    Menu,
    Connecting,
    Lobby,
    Playing,
    GameOver,
    Settings,
    SavedGames,
}

impl Default for GameState {
    fn default() -> (r: GameState)
        ensures
            r == GameState::Menu,
    {
        GameState::Menu
    }
}

/// How a game is played.
#[derive(Clone, Copy, Debug, PartialEq, Eq, Structural)]
pub enum GameMode {
    /// Against the computer, on this machine.
    LocalPvE { difficulty: Difficulty },
    /// Two players on this machine.
    LocalPvP,
    /// Against the computer, on the server.
    OnlinePvE { room_id: u64, difficulty: Difficulty },
    /// Against another player, through the server.
    OnlinePvP { room_id: u64 },
}

impl GameMode {
    /// Whether the game needs no server.
    pub fn is_local(&self) -> (r: bool)
        ensures
            r == (self is LocalPvE || self is LocalPvP),
    {
        matches!(self, GameMode::LocalPvE { .. } | GameMode::LocalPvP)
    }

    /// Whether the opponent is the computer.
    pub fn is_pve(&self) -> (r: bool)
        ensures
            r == (self is LocalPvE || self is OnlinePvE),
    {
        matches!(self, GameMode::LocalPvE { .. } | GameMode::OnlinePvE { .. })
    }

    /// Whether the game goes through the server.
    pub fn is_online(&self) -> (r: bool)
        ensures
            r == !(self is LocalPvE || self is LocalPvP),
    {
        !self.is_local()
    }

    /// The computer's difficulty, against the computer.
    pub open spec fn difficulty_of(self) -> Option<Difficulty> {
        match self {
            GameMode::LocalPvE { difficulty } => Some(difficulty),
            GameMode::OnlinePvE { difficulty, .. } => Some(difficulty),
            _ => None,
        }
    }

    /// The computer's difficulty, against the computer.
    pub fn difficulty(&self) -> (r: Option<Difficulty>)
        ensures
            r == self.difficulty_of(),
    {
        match self {
            GameMode::LocalPvE { difficulty } => Some(*difficulty),
            GameMode::OnlinePvE { difficulty, .. } => Some(*difficulty),
            GameMode::OnlinePvP { .. } | GameMode::LocalPvP => None,
        }
    }

    /// The room on the server, for an online game.
    pub fn room_id(&self) -> (r: Option<u64>)
        ensures
            r == (match *self {
                GameMode::OnlinePvE { room_id, .. } => Some(room_id),
                GameMode::OnlinePvP { room_id } => Some(room_id),
                _ => None,
            }),
    {
        match self {
            GameMode::LocalPvE { .. } | GameMode::LocalPvP => None,
            GameMode::OnlinePvE { room_id, .. } => Some(*room_id),
            GameMode::OnlinePvP { room_id } => Some(*room_id),
        }
    }
}

/// A move as the history shows it.
#[derive(Clone, Debug)]
pub struct MoveRecord {
    pub notation: String,
    pub from: Position,
    pub to: Position,
}

/// The client's game.
pub struct ClientGame {
    pub game_state: Option<BoardState>,
    /// The side of this player.
    pub player_side: Option<Side>,
    pub game_mode: Option<GameMode>,
    /// The square of the selected piece.
    pub selected_piece: Option<Position>,
    /// Where the selected piece may go.
    pub valid_moves: Vec<Position>,
    /// The last move, as (from, to).
    pub last_move: Option<(Position, Position)>,
    pub red_time_ms: u64,
    pub black_time_ms: u64,
    /// The moves played.
    pub move_history: Vec<MoveRecord>,
    /// The position at the start and after each move (for taking moves back here).
    pub state_history: Vec<BoardState>,
    pub is_paused: bool,
    /// Whether a take-back request waits for the opponent's answer.
    pub waiting_undo_response: bool,
    pub game_result: Option<GameResult>,
}

/// The squares a piece on `from` can reach, by the legal moves `legal`, in their order.
pub open spec fn targets_from(legal: Seq<Move>, from: Position) -> Seq<Position> {
    legal.filter(|m: Move| m.from == from).map_values(|m: Move| m.to)
}

/// The (from, to) of the last record, if any.
pub open spec fn last_pair(history: Seq<MoveRecord>) -> Option<(Position, Position)> {
    if history.len() == 0 {
        None
    } else {
        Some((history.last().from, history.last().to))
    }
}

/// How many moves a local take-back removes: two (the player's and the computer's), or the
/// only one.
pub open spec fn local_undo_steps(moves: nat) -> nat {
    if moves >= 2 {
        2
    } else if moves == 1 {
        1
    } else {
        0
    }
}

impl ClientGame {
    /// The position stored last is the current one, and there is one more position than
    /// moves (the start).
    pub open spec fn history_consistent(&self) -> bool {
        &&& self.state_history@.len() == self.move_history@.len() + 1
        &&& self.game_state == Some(self.state_history@.last())
    }

    /// Whether it is this player's turn in a game that is not paused.
    pub open spec fn spec_is_my_turn(&self) -> bool {
        self.game_state is Some && self.player_side is Some && self.game_state->0.current_turn
            == self.player_side->0 && !self.is_paused
    }

    /// `after` is `self` once `new_state` was reached by the move `from`-`to` (`notation`).
    pub open spec fn updated(&self, after: &ClientGame, new_state: BoardState, from: Position, to: Position, notation: String) -> bool {
        &&& after.state_history@ == self.state_history@.push(new_state)
        &&& after.game_state == Some(new_state)
        &&& after.last_move == Some((from, to))
        &&& after.move_history@ == self.move_history@.push(MoveRecord { notation, from, to })
        &&& after.selected_piece is None
        &&& after.valid_moves@.len() == 0
        &&& after.same_setup(self)
        &&& after.game_result == self.game_result
        &&& after.waiting_undo_response == self.waiting_undo_response
    }

    /// `after` is `self` after a local take-back that returned `r`.
    pub open spec fn undone_locally(&self, after: &ClientGame, r: bool) -> bool {
        let steps = local_undo_steps(self.move_history@.len());
        let states = self.state_history@.take(self.state_history@.len() - steps);
        let moves = self.move_history@.take(self.move_history@.len() - steps);
        if steps == 0 {
            !r && after.state_history@ == self.state_history@ && after.move_history@ == self.move_history@
                && after.game_state == self.game_state && after.last_move == self.last_move
                && after.selected_piece == self.selected_piece && after.valid_moves@ == self.valid_moves@
                && after.game_result == self.game_result && after.same_setup(self)
                && after.waiting_undo_response == self.waiting_undo_response
        } else {
            &&& after.state_history@ == (if self.state_history@.len() >= steps { states } else { Seq::empty() })
            &&& after.move_history@ == moves
            &&& after.same_setup(self)
            &&& after.waiting_undo_response == self.waiting_undo_response
            &&& if after.state_history@.len() > 0 {
                &&& r
                &&& after.game_state == Some(after.state_history@.last())
                &&& after.last_move == last_pair(moves)
                &&& after.selected_piece is None
                &&& after.valid_moves@.len() == 0
                &&& after.game_result is None
            } else {
                &&& !r
                &&& after.game_state == self.game_state
                &&& after.last_move == self.last_move
                &&& after.selected_piece == self.selected_piece
                &&& after.valid_moves@ == self.valid_moves@
                &&& after.game_result == self.game_result
            }
        }
    }

    /// `after` is `self` once the square `(x, y)` was clicked, `legal` being the legal moves
    /// of the position: on this player's piece during its turn the piece is selected with the
    /// squares it reaches; on a reachable square nothing changes (the move is played
    /// elsewhere); anywhere else on the board the selection is cleared; off the board
    /// nothing changes.
    pub open spec fn clicked(&self, after: &ClientGame, x: u8, y: u8, legal: Seq<Move>) -> bool {
        &&& after.game_state == self.game_state
        &&& after.same_setup(self)
        &&& after.move_history@ == self.move_history@
        &&& after.state_history@ == self.state_history@
        &&& after.last_move == self.last_move
        &&& after.game_result == self.game_result
        &&& after.waiting_undo_response == self.waiting_undo_response
        &&& ({
            let pos = Position { x, y };
            if !(x < 9 && y < 10) {
                after.selected_piece == self.selected_piece && after.valid_moves@ == self.valid_moves@
            } else if self.game_state matches Some(s) && s.board.at(pos) matches Some(p) && Some(p.side)
                == self.player_side && self.spec_is_my_turn() {
                after.selected_piece == Some(pos) && after.valid_moves@ == targets_from(legal, pos)
            } else if self.valid_moves@.contains(pos) {
                after.selected_piece == self.selected_piece && after.valid_moves@ == self.valid_moves@
            } else {
                after.selected_piece is None && after.valid_moves@.len() == 0
            }
        })
    }

    /// `after` is `self` with no piece selected.
    pub open spec fn cleared(&self, after: &ClientGame) -> bool {
        &&& after.selected_piece is None
        &&& after.valid_moves@.len() == 0
        &&& after.game_state == self.game_state
        &&& after.same_setup(self)
        &&& after.move_history@ == self.move_history@
        &&& after.state_history@ == self.state_history@
        &&& after.last_move == self.last_move
        &&& after.game_result == self.game_result
        &&& after.waiting_undo_response == self.waiting_undo_response
    }

    /// Whether the game is played on this machine.
    pub open spec fn spec_is_local(&self) -> bool {
        self.game_mode matches Some(m) && (m is LocalPvE || m is LocalPvP)
    }

    /// Same side, mode, clocks and pause.
    pub open spec fn same_setup(&self, other: &ClientGame) -> bool {
        &&& self.player_side == other.player_side
        &&& self.game_mode == other.game_mode
        &&& self.red_time_ms == other.red_time_ms
        &&& self.black_time_ms == other.black_time_ms
        &&& self.is_paused == other.is_paused
    }

    /// No game.
    pub fn new() -> (g: ClientGame)
        ensures
            g.game_state is None,
            g.player_side is None,
            g.game_mode is None,
            g.selected_piece is None,
            g.valid_moves@.len() == 0,
            g.last_move is None,
            g.red_time_ms == 0,
            g.black_time_ms == 0,
            g.move_history@.len() == 0,
            g.state_history@.len() == 0,
            !g.is_paused,
            !g.waiting_undo_response,
            g.game_result is None,
    {
        ClientGame {
            game_state: None,
            player_side: None,
            game_mode: None,
            selected_piece: None,
            valid_moves: Vec::new(),
            last_move: None,
            red_time_ms: 0,
            black_time_ms: 0,
            move_history: Vec::new(),
            state_history: Vec::new(),
            is_paused: false,
            waiting_undo_response: false,
            game_result: None,
        }
    }

    /// Forgets the game.
    pub fn reset(&mut self)
        ensures
            final(self).game_state is None,
            final(self).player_side is None,
            final(self).game_mode is None,
            final(self).selected_piece is None,
            final(self).valid_moves@.len() == 0,
            final(self).last_move is None,
            final(self).red_time_ms == 0,
            final(self).black_time_ms == 0,
            final(self).move_history@.len() == 0,
            final(self).state_history@.len() == 0,
            !final(self).is_paused,
            !final(self).waiting_undo_response,
            final(self).game_result is None,
    {
        *self = ClientGame::new();
    }

    /// Starts a game from `state`, this player on `side`.
    pub fn start_game(&mut self, state: BoardState, side: Side, mode: GameMode)
        ensures
            final(self).game_state == Some(state),
            final(self).player_side == Some(side),
            final(self).game_mode == Some(mode),
            final(self).selected_piece is None,
            final(self).valid_moves@.len() == 0,
            final(self).last_move is None,
            final(self).move_history@.len() == 0,
            final(self).state_history@ == seq![state],
            !final(self).is_paused,
            !final(self).waiting_undo_response,
            final(self).game_result is None,
            final(self).red_time_ms == old(self).red_time_ms,
            final(self).black_time_ms == old(self).black_time_ms,
            final(self).history_consistent(),
    {
        self.game_state = Some(state);
        self.player_side = Some(side);
        self.game_mode = Some(mode);
        self.selected_piece = None;
        self.valid_moves.clear();
        self.last_move = None;
        self.move_history.clear();
        self.state_history.clear();
        self.state_history.push(state);
        self.is_paused = false;
        self.waiting_undo_response = false;
        self.game_result = None;
        assert(self.state_history@ =~= seq![state]);
    }

    /// Starts a game against the computer on this machine, from the starting position, this
    /// player with Red.
    pub fn start_local_pve(&mut self, difficulty: Difficulty)
        ensures
            final(self).game_state matches Some(s) && s.board@ == crate::board::initial_squares()
                && s.current_turn == Side::Red && s.no_capture_count == 0,
            final(self).player_side == Some(Side::Red),
            final(self).game_mode == Some(GameMode::LocalPvE { difficulty }),
            final(self).selected_piece is None,
            final(self).valid_moves@.len() == 0,
            final(self).last_move is None,
            final(self).move_history@.len() == 0,
            final(self).state_history@.len() == 1,
            !final(self).is_paused,
            !final(self).waiting_undo_response,
            final(self).game_result is None,
            final(self).history_consistent(),
    {
        let state = BoardState::initial();
        self.start_game(state, Side::Red, GameMode::LocalPvE { difficulty });
    }

    /// Whether it is this player's turn in a game that is not paused.
    pub fn is_my_turn(&self) -> (r: bool)
        ensures
            r == self.spec_is_my_turn(),
    {
        match (&self.game_state, self.player_side) {
            (Some(state), Some(side)) => state.current_turn == side && !self.is_paused,
            _ => false,
        }
    }

    /// The squares the piece on `from` can reach by `legal_moves`.
    fn calculate_valid_moves(legal_moves: &Vec<Move>, from: Position) -> (r: Vec<Position>)
        ensures
            r@ == targets_from(legal_moves@, from),
    {
        let mut r: Vec<Position> = Vec::new();
        let mut i: usize = 0;
        while i < legal_moves.len()
            invariant
                i <= legal_moves@.len(),
                r@ == targets_from(legal_moves@.take(i as int), from),
            decreases legal_moves@.len() - i,
        {
            proof {
                reveal_with_fuel(Seq::<_>::filter, 1);
                assert(legal_moves@.take(i + 1).drop_last() =~= legal_moves@.take(i as int));
            }
            let m = legal_moves[i];
            if m.from == from {
                r.push(m.to);
            }
            proof {
                let t = legal_moves@.take(i + 1);
                assert(t.last() == m);
                let f = t.drop_last().filter(|m: Move| m.from == from);
                if m.from == from {
                    assert(t.filter(|m: Move| m.from == from) == f.push(m));
                    assert(f.push(m).map_values(|m: Move| m.to) =~= f.map_values(|m: Move| m.to).push(m.to));
                } else {
                    assert(t.filter(|m: Move| m.from == from) == f);
                }
            }
            i = i + 1;
        }
        assert(legal_moves@.take(legal_moves@.len() as int) =~= legal_moves@);
        r
    }

    /// Whether `pos` is among the reachable squares.
    fn is_valid_target(&self, pos: Position) -> (r: bool)
        ensures
            r == self.valid_moves@.contains(pos),
    {
        let mut i: usize = 0;
        while i < self.valid_moves.len()
            invariant
                i <= self.valid_moves@.len(),
                forall|j: int| 0 <= j < i ==> self.valid_moves@[j] != pos,
            decreases self.valid_moves@.len() - i,
        {
            if self.valid_moves[i] == pos {
                return true;
            }
            i = i + 1;
        }
        false
    }

    /// A click on `(x, y)`: on this player's piece during its turn the piece is selected and
    /// its reachable squares (by `legal_moves`, the legal moves of the position) are kept; on
    /// a reachable square nothing changes (the move is played elsewhere); anywhere else on
    /// the board the selection is cleared. Off the board nothing changes.
    pub fn select_piece(&mut self, x: u8, y: u8, legal_moves: &Vec<Move>)
        ensures
            old(self).clicked(final(self), x, y, legal_moves@),
    {
        let pos = match Position::new(x, y) {
            Some(p) => p,
            None => return,
        };
        if let Some(state) = &self.game_state {
            if let Some(piece) = state.board.get(pos) {
                if Some(piece.side) == self.player_side && self.is_my_turn() {
                    self.selected_piece = Some(pos);
                    self.valid_moves = Self::calculate_valid_moves(legal_moves, pos);
                    return;
                }
            }
        }
        if self.is_valid_target(pos) {
            return;
        }
        self.clear_selection();
    }

    /// Clears the selection.
    pub fn clear_selection(&mut self)
        ensures
            old(self).cleared(final(self)),
    {
        self.selected_piece = None;
        self.valid_moves.clear();
    }

    /// Records a move (`from`-`to`, written `notation`) that led to `new_state`.
    pub fn update_state(&mut self, new_state: BoardState, from: Position, to: Position, notation: String)
        ensures
            old(self).updated(final(self), new_state, from, to, notation),
            old(self).history_consistent() ==> final(self).history_consistent(),
    {
        self.state_history.push(new_state);
        self.game_state = Some(new_state);
        self.last_move = Some((from, to));
        self.move_history.push(MoveRecord { notation, from, to });
        self.clear_selection();
    }

    /// Sets both clocks.
    pub fn update_time(&mut self, red_time_ms: u64, black_time_ms: u64)
        ensures
            final(self).red_time_ms == red_time_ms,
            final(self).black_time_ms == black_time_ms,
            final(self).game_state == old(self).game_state,
            final(self).player_side == old(self).player_side,
            final(self).game_mode == old(self).game_mode,
            final(self).is_paused == old(self).is_paused,
            final(self).move_history@ == old(self).move_history@,
            final(self).state_history@ == old(self).state_history@,
    {
        self.red_time_ms = red_time_ms;
        self.black_time_ms = black_time_ms;
    }

    /// Takes back `steps` moves of an online game, whose position the server sent.
    pub fn undo(&mut self, new_state: BoardState, steps: usize)
        ensures
            final(self).game_state == Some(new_state),
            final(self).move_history@ == old(self).move_history@.take(
                if steps <= old(self).move_history@.len() { old(self).move_history@.len() - steps } else { 0 },
            ),
            final(self).state_history@ == old(self).state_history@.take(
                if steps <= old(self).state_history@.len() { old(self).state_history@.len() - steps } else { 0 },
            ),
            final(self).last_move == last_pair(final(self).move_history@),
            final(self).selected_piece is None,
            final(self).valid_moves@.len() == 0,
            !final(self).waiting_undo_response,
            final(self).same_setup(old(self)),
            final(self).game_result == old(self).game_result,
    {
        self.game_state = Some(new_state);
        let mut k: usize = 0;
        while k < steps
            invariant
                k <= steps,
                self.move_history@ == old(self).move_history@.take(
                    if k <= old(self).move_history@.len() { old(self).move_history@.len() - k } else { 0 },
                ),
                self.state_history@ == old(self).state_history@.take(
                    if k <= old(self).state_history@.len() { old(self).state_history@.len() - k } else { 0 },
                ),
                self.game_state == Some(new_state),
                self.same_setup(old(self)),
                self.game_result == old(self).game_result,
            decreases steps - k,
        {
            self.move_history.pop();
            self.state_history.pop();
            proof {
                assert(self.move_history@ =~= old(self).move_history@.take(
                    if k + 1 <= old(self).move_history@.len() { old(self).move_history@.len() - (k + 1) } else { 0 },
                ));
                assert(self.state_history@ =~= old(self).state_history@.take(
                    if k + 1 <= old(self).state_history@.len() { old(self).state_history@.len() - (k + 1) } else { 0 },
                ));
            }
            k = k + 1;
        }
        self.last_move = self.last_recorded();
        self.clear_selection();
        self.waiting_undo_response = false;
    }

    /// The (from, to) of the last recorded move.
    fn last_recorded(&self) -> (r: Option<(Position, Position)>)
        ensures
            r == last_pair(self.move_history@),
    {
        let n = self.move_history.len();
        if n == 0 {
            None
        } else {
            let rec = &self.move_history[n - 1];
            Some((rec.from, rec.to))
        }
    }

    /// Takes back moves of a game on this machine: the last two (the player's and the
    /// computer's), or the only one. Returns whether a position was restored.
    pub fn local_undo(&mut self) -> (r: bool)
        ensures
            old(self).undone_locally(final(self), r),
            old(self).history_consistent() && r ==> final(self).history_consistent(),
    {
        let n = self.move_history.len();
        let steps: usize = if n >= 2 {
            2
        } else if n == 1 {
            1
        } else {
            return false;
        };
        let mut k: usize = 0;
        while k < steps
            invariant
                k <= steps,
                steps == local_undo_steps(old(self).move_history@.len()),
                steps <= old(self).move_history@.len(),
                self.move_history@ == old(self).move_history@.take(old(self).move_history@.len() - k),
                self.state_history@ == old(self).state_history@.take(
                    if k <= old(self).state_history@.len() { old(self).state_history@.len() - k } else { 0 },
                ),
                self.game_state == old(self).game_state,
                self.last_move == old(self).last_move,
                self.selected_piece == old(self).selected_piece,
                self.valid_moves@ == old(self).valid_moves@,
                self.game_result == old(self).game_result,
                self.same_setup(old(self)),
                self.waiting_undo_response == old(self).waiting_undo_response,
            decreases steps - k,
        {
            self.move_history.pop();
            self.state_history.pop();
            proof {
                assert(self.move_history@ =~= old(self).move_history@.take(old(self).move_history@.len() - (k + 1)));
                assert(self.state_history@ =~= old(self).state_history@.take(
                    if k + 1 <= old(self).state_history@.len() { old(self).state_history@.len() - (k + 1) } else { 0 },
                ));
            }
            k = k + 1;
        }
        proof {
            if old(self).state_history@.len() < steps {
                assert(self.state_history@ =~= Seq::<BoardState>::empty());
            }
        }
        let len = self.state_history.len();
        if len > 0 {
            let prev_state = self.state_history[len - 1];
            self.game_state = Some(prev_state);
            self.last_move = self.last_recorded();
            self.clear_selection();
            self.game_result = None;
            true
        } else {
            false
        }
    }

    /// Whether a move can be taken back during the game.
    pub fn can_undo(&self) -> (r: bool)
        ensures
            r == (self.move_history@.len() > 0 && self.game_result is None),
    {
        self.move_history.len() > 0 && self.game_result.is_none()
    }

    /// Whether a move can be taken back once the game is over.
    pub fn can_undo_at_game_over(&self) -> (r: bool)
        ensures
            r == (self.move_history@.len() > 0),
    {
        self.move_history.len() > 0
    }

    /// Whether the opponent is the computer.
    pub fn is_pve(&self) -> (r: bool)
        ensures
            r == (self.game_mode matches Some(m) && (m is LocalPvE || m is OnlinePvE)),
    {
        match &self.game_mode {
            Some(m) => m.is_pve(),
            None => false,
        }
    }

    /// Whether the game needs no server.
    pub fn is_local(&self) -> (r: bool)
        ensures
            r == self.spec_is_local(),
    {
        match &self.game_mode {
            Some(m) => m.is_local(),
            None => false,
        }
    }

    /// Whether the computer should move now: a game against it on this machine, not paused
    /// nor over, with the player's opponent to move (or neither a position nor a side).
    pub fn should_ai_move(&self) -> (r: bool)
        ensures
            r == (self.game_mode matches Some(GameMode::LocalPvE { .. }) && !self.is_paused
                && self.game_result is None && (match self.game_state {
                Some(s) => Some(s.current_turn),
                None => None,
            }) == (match self.player_side {
                Some(side) => Some(side.spec_opponent()),
                None => None,
            })),
    {
        match &self.game_mode {
            Some(GameMode::LocalPvE { .. }) => {
                if self.is_paused || self.game_result.is_some() {
                    return false;
                }
                let ai_side = match self.player_side {
                    Some(s) => Some(s.opponent()),
                    None => None,
                };
                match (self.current_turn(), ai_side) {
                    (Some(a), Some(b)) => a == b,
                    (None, None) => true,
                    _ => false,
                }
            },
            _ => false,
        }
    }

    /// The side to move.
    pub fn current_turn(&self) -> (r: Option<Side>)
        ensures
            r == (match self.game_state {
                Some(s) => Some(s.current_turn),
                None => None,
            }),
    {
        match &self.game_state {
            Some(s) => Some(s.current_turn),
            None => None,
        }
    }

    /// This player's time left (0 without a side).
    pub fn my_time_ms(&self) -> (r: u64)
        ensures
            r == (match self.player_side {
                Some(Side::Red) => self.red_time_ms,
                Some(Side::Black) => self.black_time_ms,
                None => 0,
            }),
    {
        match self.player_side {
            Some(Side::Red) => self.red_time_ms,
            Some(Side::Black) => self.black_time_ms,
            None => 0,
        }
    }

    /// The opponent's time left (0 without a side).
    pub fn opponent_time_ms(&self) -> (r: u64)
        ensures
            r == (match self.player_side {
                Some(Side::Red) => self.black_time_ms,
                Some(Side::Black) => self.red_time_ms,
                None => 0,
            }),
    {
        match self.player_side {
            Some(Side::Red) => self.black_time_ms,
            Some(Side::Black) => self.red_time_ms,
            None => 0,
        }
    }

    /// Records the result.
    pub fn set_result(&mut self, result: GameResult)
        ensures
            final(self).game_result == Some(result),
            final(self).game_state == old(self).game_state,
            final(self).same_setup(old(self)),
            final(self).move_history@ == old(self).move_history@,
            final(self).state_history@ == old(self).state_history@,
    {
        self.game_result = Some(result);
    }

    /// Whether this player won; `None` for a draw, a game not over or no side.
    pub fn is_player_win(&self) -> (r: Option<bool>)
        ensures
            r == (match (self.game_result, self.player_side) {
                (Some(GameResult::RedWin(_)), Some(side)) => Some(side == Side::Red),
                (Some(GameResult::BlackWin(_)), Some(side)) => Some(side == Side::Black),
                _ => None,
            }),
    {
        match (&self.game_result, self.player_side) {
            (Some(GameResult::RedWin(_)), Some(Side::Red)) => Some(true),
            (Some(GameResult::BlackWin(_)), Some(Side::Black)) => Some(true),
            (Some(GameResult::RedWin(_)), Some(Side::Black)) => Some(false),
            (Some(GameResult::BlackWin(_)), Some(Side::Red)) => Some(false),
            (Some(GameResult::Draw(_)), _) => None,
            _ => None,
        }
    }

    /// The number of moves played.
    pub fn total_moves(&self) -> (r: usize)
        ensures
            r == self.move_history@.len(),
    {
        self.move_history.len()
    }

    /// The number of rounds (a round is a move of each side; a started round counts).
    pub fn total_rounds(&self) -> (r: usize)
        ensures
            r == (self.move_history@.len() + 1) / 2,
    {
        let n = self.move_history.len();
        if n % 2 == 0 {
            n / 2
        } else {
            n / 2 + 1
        }
    }
}

impl Default for ClientGame {
    fn default() -> (g: ClientGame)
        ensures
            g.game_state is None,
            g.player_side is None,
            g.game_mode is None,
            g.move_history@.len() == 0,
            g.state_history@.len() == 0,
            g.game_result is None,
    {
        ClientGame::new()
    }
}

/// Taking back locally right after two moves were recorded in a consistent history restores
/// the position, the positions and the moves from before those two moves.
pub proof fn law_local_undo_after_two_moves(
    g0: ClientGame,
    g1: ClientGame,
    g2: ClientGame,
    g3: ClientGame,
    r: bool,
    s1: BoardState,
    s2: BoardState,
    from1: Position,
    to1: Position,
    n1: String,
    from2: Position,
    to2: Position,
    n2: String,
)
    requires
        g0.history_consistent(),
        g0.updated(&g1, s1, from1, to1, n1),
        g1.updated(&g2, s2, from2, to2, n2),
        g2.undone_locally(&g3, r),
    ensures
        r,
        g3.game_state == g0.game_state,
        g3.state_history@ == g0.state_history@,
        g3.move_history@ == g0.move_history@,
        g3.last_move == last_pair(g0.move_history@),
        g3.game_result is None,
{
    let st = g0.state_history@;
    let mv = g0.move_history@;
    assert(g2.move_history@.len() == mv.len() + 2);
    assert(g2.state_history@.take(g2.state_history@.len() - 2) =~= st);
    assert(g2.move_history@.take(g2.move_history@.len() - 2) =~= mv);
}

/// Taking back locally after one move of a game that just started restores the start.
pub proof fn law_local_undo_single_move(g0: ClientGame, g1: ClientGame, g2: ClientGame, r: bool, s1: BoardState, from: Position, to: Position, n: String)
    requires
        g0.history_consistent(),
        g0.move_history@.len() == 0,
        g0.updated(&g1, s1, from, to, n),
        g1.undone_locally(&g2, r),
    ensures
        r,
        g2.game_state == g0.game_state,
        g2.state_history@ == g0.state_history@,
        g2.move_history@.len() == 0,
        g2.last_move is None,
{
    assert(g1.state_history@.take(g1.state_history@.len() - 1) =~= g0.state_history@);
    assert(g1.move_history@.take(0) =~= g0.move_history@);
}

} // verus!

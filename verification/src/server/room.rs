//! Game rooms: seats, the game in progress, moves and take-backs, and the set of rooms.

use vstd::prelude::*;
use std::time::Instant;
use crate::board::{BoardState, Move, Piece, Side, spec_move_piece, initial_squares, moves_on_board};
use crate::outcome::{DrawReason, GameResult, RoomState, RoomType, WinReason};
use crate::server::timer::GameTimer;
use crate::clock::now;

verus! {

/// Error of a move or take-back in a room whose game has not started.
pub const NOT_STARTED: &'static str = "游戏未开始";

/// Error of a move that is not among the legal moves.
pub const INVALID_MOVE: &'static str = "无效走法";

/// Error of a take-back with no move played.
pub const NOTHING_TO_UNDO: &'static str = "没有可悔的棋";

/// Plies without a capture after which the game is drawn (sixty moves each).
pub const NO_CAPTURE_DRAW_PLIES: u32 = 120;

/// What the room list shows of a room.
#[derive(Clone, Debug)]
pub struct RoomInfo {
    pub id: u64,
    pub room_type: RoomType,
    pub red_player: Option<String>,
    pub black_player: Option<String>,
    pub state: RoomState,
}

/// A room: two seats, the game in progress and its history.
pub struct Room {
    pub id: u64,
    pub room_type: RoomType,
    pub state: RoomState,
    /// Player on the Red seat.
    pub red_player: Option<u64>,
    /// Player on the Black seat.
    pub black_player: Option<u64>,
    /// The position, once the game has started.
    pub game_state: Option<BoardState>,
    /// The clock, once the game has started.
    pub timer: Option<GameTimer>,
    /// Moves played, each with the piece it captured.
    pub move_history: Vec<Move>,
    /// Count of plies without capture before each move (restored by a take-back).
    pub no_capture_history: Vec<u32>,
    pub created_at: Instant,
    /// Side that asked to take a move back, if any.
    pub undo_requested_by: Option<Side>,
}

/// Whether a move from `mv.from` to `mv.to` is among `legal`.
pub open spec fn listed(legal: Seq<Move>, mv: Move) -> bool {
    exists|k: int| 0 <= k < legal.len() && (#[trigger] legal[k]).from == mv.from && legal[k].to == mv.to
}


/// The squares after taking back `m`: the piece returns to `m.from` and what it captured
/// (or nothing) to `m.to`.
pub open spec fn spec_unmove(b: Seq<Option<Piece>>, m: Move) -> Seq<Option<Piece>> {
    b.update(m.from.index(), b[m.to.index()]).update(m.to.index(), m.captured)
}

/// The clock after the turn passed, when there is one.
pub open spec fn timer_switched(before: Option<GameTimer>, after: Option<GameTimer>) -> bool {
    match before {
        Some(a) => after matches Some(b) && a.spec_switched(b),
        None => after is None,
    }
}

/// The clock after a pause, when there is one.
pub open spec fn timer_paused(before: Option<GameTimer>, after: Option<GameTimer>) -> bool {
    match before {
        Some(a) => after matches Some(b) && a.spec_paused(b),
        None => after is None,
    }
}

/// The clock after it resumed, when there is one.
pub open spec fn timer_resumed(before: Option<GameTimer>, after: Option<GameTimer>) -> bool {
    match before {
        Some(a) => after matches Some(b) && a.spec_resumed(b),
        None => after is None,
    }
}

/// The seat that a player joining with `preferred` gets: the preferred one when free, else
/// Red when free, else Black when free.
pub open spec fn seat_for(red: Option<u64>, black: Option<u64>, preferred: Option<Side>) -> Option<Side> {
    if preferred == Some(Side::Red) && red is None {
        Some(Side::Red)
    } else if preferred == Some(Side::Black) && black is None {
        Some(Side::Black)
    } else if red is None {
        Some(Side::Red)
    } else if black is None {
        Some(Side::Black)
    } else {
        None
    }
}

/// The result that the game-over check gives for the side to move `turn`: checkmate or
/// stalemate when the mover has no legal move, else a flag fallen (Red's checked first),
/// else the draw after 120 plies without capture.
pub open spec fn spec_verdict(
    turn: Side,
    has_legal_move: bool,
    in_check: bool,
    times: Option<(u64, u64)>,
    no_capture_count: u32,
) -> Option<GameResult> {
    if !has_legal_move {
        if in_check {
            Some(
                match turn {
                    Side::Red => GameResult::BlackWin(WinReason::Checkmate),
                    Side::Black => GameResult::RedWin(WinReason::Checkmate),
                },
            )
        } else {
            Some(GameResult::Draw(DrawReason::Stalemate))
        }
    } else if times matches Some((red, _)) && red == 0 {
        Some(GameResult::BlackWin(WinReason::Timeout))
    } else if times matches Some((_, black)) && black == 0 {
        Some(GameResult::RedWin(WinReason::Timeout))
    } else if no_capture_count >= 120 {
        Some(GameResult::Draw(DrawReason::FiftyMoves))
    } else {
        None
    }
}

/// The game ends when the side to move has no legal move (checkmated: the other side wins;
/// otherwise stalemate), else when a clock shows 0 (that side loses on time, Red's clock
/// first), else after 120 plies without capture (a draw), whether or not there is a clock;
/// otherwise it goes on.
pub proof fn law_verdict(turn: Side, has_legal_move: bool, in_check: bool, times: Option<(u64, u64)>, no_capture_count: u32)
    ensures
        !has_legal_move && in_check ==> spec_verdict(turn, has_legal_move, in_check, times, no_capture_count)
            == Some(
            if turn == Side::Red {
                GameResult::BlackWin(WinReason::Checkmate)
            } else {
                GameResult::RedWin(WinReason::Checkmate)
            },
        ),
        !has_legal_move && !in_check ==> spec_verdict(turn, has_legal_move, in_check, times, no_capture_count)
            == Some(GameResult::Draw(DrawReason::Stalemate)),
        has_legal_move && (times matches Some(t) && t.0 == 0) ==> spec_verdict(
            turn,
            has_legal_move,
            in_check,
            times,
            no_capture_count,
        ) == Some(GameResult::BlackWin(WinReason::Timeout)),
        has_legal_move && (times matches Some(t) && t.0 != 0 && t.1 == 0) ==> spec_verdict(
            turn,
            has_legal_move,
            in_check,
            times,
            no_capture_count,
        ) == Some(GameResult::RedWin(WinReason::Timeout)),
        has_legal_move && !(times matches Some(t) && (t.0 == 0 || t.1 == 0)) && no_capture_count >= 120
            ==> spec_verdict(turn, has_legal_move, in_check, times, no_capture_count) == Some(
            GameResult::Draw(DrawReason::FiftyMoves),
        ),
        has_legal_move && !(times matches Some(t) && (t.0 == 0 || t.1 == 0)) && no_capture_count < 120
            ==> spec_verdict(turn, has_legal_move, in_check, times, no_capture_count) is None,
{
}

/// Decides whether a game is over, from whether the side to move `turn` has a legal move and
/// is in check, the clock's times (Red, Black) when there is a clock, and the plies without
/// capture.
pub fn game_over_verdict(
    turn: Side,
    has_legal_move: bool,
    in_check: bool,
    times: Option<(u64, u64)>,
    no_capture_count: u32,
) -> (r: Option<GameResult>)
    ensures
        r == spec_verdict(turn, has_legal_move, in_check, times, no_capture_count),
{
    if !has_legal_move {
        if in_check {
            return Some(
                match turn {
                    Side::Red => GameResult::BlackWin(WinReason::Checkmate),
                    Side::Black => GameResult::RedWin(WinReason::Checkmate),
                },
            );
        } else {
            return Some(GameResult::Draw(DrawReason::Stalemate));
        }
    }
    if let Some((red, black)) = times {
        if red == 0 {
            return Some(GameResult::BlackWin(WinReason::Timeout));
        }
        if black == 0 {
            return Some(GameResult::RedWin(WinReason::Timeout));
        }
    }
    if no_capture_count >= NO_CAPTURE_DRAW_PLIES {
        return Some(GameResult::Draw(DrawReason::FiftyMoves));
    }
    None
}

impl Room {
    /// A room just made: waiting, no players, no game.
    pub open spec fn fresh(self, id: u64, room_type: RoomType) -> bool {
        &&& self.id == id
        &&& self.room_type == room_type
        &&& self.state == RoomState::Waiting
        &&& self.red_player is None
        &&& self.black_player is None
        &&& self.game_state is None
        &&& self.timer is None
        &&& self.move_history@.len() == 0
        &&& self.no_capture_history@.len() == 0
        &&& self.undo_requested_by is None
    }

    /// Same id, kind, state, seats and creation time.
    pub open spec fn same_seating(self, other: Room) -> bool {
        &&& self.id == other.id
        &&& self.room_type == other.room_type
        &&& self.state == other.state
        &&& self.red_player == other.red_player
        &&& self.black_player == other.black_player
        &&& self.created_at == other.created_at
    }

    /// Same id, kind, seats and creation time (the state may differ).
    pub open spec fn same_seating_but_state(self, other: Room) -> bool {
        &&& self.id == other.id
        &&& self.room_type == other.room_type
        &&& self.red_player == other.red_player
        &&& self.black_player == other.black_player
        &&& self.created_at == other.created_at
    }

    /// Same game: position, clock, histories and pending take-back request.
    pub open spec fn same_game(self, other: Room) -> bool {
        &&& self.game_state == other.game_state
        &&& self.timer == other.timer
        &&& self.move_history@ == other.move_history@
        &&& self.no_capture_history@ == other.no_capture_history@
        &&& self.undo_requested_by == other.undo_requested_by
    }

    /// Whether `player_id` sits on a seat.
    pub open spec fn seats(self, player_id: u64) -> bool {
        self.red_player == Some(player_id) || self.black_player == Some(player_id)
    }

    /// `after` is this room (whose game has started) once the move `mv` is played: the
    /// board changes, the turn passes, the count of plies without capture restarts on a
    /// capture, and the move is recorded with what it captured.
    pub open spec fn played(self, mv: Move, after: Room) -> bool {
        let gs = self.game_state->0;
        let captured = gs.board.at(mv.to);
        &&& self.game_state is Some
        &&& after.same_seating(self)
        &&& after.game_state is Some
        &&& after.game_state->0.board@ == spec_move_piece(gs.board@, mv.from, mv.to)
        &&& after.game_state->0.current_turn == gs.current_turn.spec_opponent()
        &&& after.game_state->0.no_capture_count == (if captured is Some {
            0
        } else {
            gs.no_capture_count + 1
        })
        &&& after.move_history@ == self.move_history@.push(
            Move { from: mv.from, to: mv.to, captured },
        )
        &&& after.no_capture_history@ == self.no_capture_history@.push(gs.no_capture_count)
        &&& timer_switched(self.timer, after.timer)
        &&& after.undo_requested_by is None
    }

    /// `after` is this room (whose game has started, with a move played) once the last move
    /// is taken back.
    pub open spec fn took_back(self, after: Room) -> bool {
        let gs = self.game_state->0;
        let last = self.move_history@.last();
        let counts = self.no_capture_history@;
        &&& self.game_state is Some
        &&& self.move_history@.len() > 0
        &&& after.same_seating(self)
        &&& after.game_state is Some
        &&& after.game_state->0.board@ == spec_unmove(gs.board@, last)
        &&& after.game_state->0.current_turn == gs.current_turn.spec_opponent()
        &&& after.game_state->0.no_capture_count == (if counts.len() > 0 {
            counts.last()
        } else {
            gs.no_capture_count
        })
        &&& after.no_capture_history@ == (if counts.len() > 0 {
            counts.drop_last()
        } else {
            counts
        })
        &&& after.move_history@ == self.move_history@.drop_last()
        &&& timer_switched(self.timer, after.timer)
        &&& after.undo_requested_by is None
    }

    /// A new room, waiting for players.
    pub fn new(id: u64, room_type: RoomType) -> (r: Room)
        ensures
            r.fresh(id, room_type),
    {
        Room {
            id,
            room_type,
            state: RoomState::Waiting,
            red_player: None,
            black_player: None,
            game_state: None,
            timer: None,
            move_history: Vec::new(),
            no_capture_history: Vec::new(),
            created_at: now(),
            undo_requested_by: None,
        }
    }

    /// The entry of the room list, with the players' names.
    pub fn info(&self, red_name: Option<String>, black_name: Option<String>) -> (r: RoomInfo)
        ensures
            r.id == self.id,
            r.room_type == self.room_type,
            r.red_player == red_name,
            r.black_player == black_name,
            r.state == self.state,
    {
        RoomInfo {
            id: self.id,
            room_type: self.room_type,
            red_player: red_name,
            black_player: black_name,
            state: self.state,
        }
    }

    /// Whether both seats are taken.
    pub fn is_full(&self) -> (r: bool)
        ensures
            r == (self.red_player is Some && self.black_player is Some),
    {
        self.red_player.is_some() && self.black_player.is_some()
    }

    /// Whether `player_id` sits on a seat.
    pub fn has_player(&self, player_id: u64) -> (r: bool)
        ensures
            r == self.seats(player_id),
    {
        self.red_player == Some(player_id) || self.black_player == Some(player_id)
    }

    /// The seat of `player_id` (Red first).
    pub fn get_player_side(&self, player_id: u64) -> (r: Option<Side>)
        ensures
            r == (if self.red_player == Some(player_id) {
                Some(Side::Red)
            } else if self.black_player == Some(player_id) {
                Some(Side::Black)
            } else {
                None
            }),
    {
        if self.red_player == Some(player_id) {
            Some(Side::Red)
        } else if self.black_player == Some(player_id) {
            Some(Side::Black)
        } else {
            None
        }
    }

    /// The player on the seat of `side`.
    pub fn get_player_id(&self, side: Side) -> (r: Option<u64>)
        ensures
            r == (match side {
                Side::Red => self.red_player,
                Side::Black => self.black_player,
            }),
    {
        match side {
            Side::Red => self.red_player,
            Side::Black => self.black_player,
        }
    }

    /// The player on the other seat than `player_id`'s.
    pub fn get_opponent_id(&self, player_id: u64) -> (r: Option<u64>)
        ensures
            r == (if self.red_player == Some(player_id) {
                self.black_player
            } else if self.black_player == Some(player_id) {
                self.red_player
            } else {
                None
            }),
    {
        if self.red_player == Some(player_id) {
            self.black_player
        } else if self.black_player == Some(player_id) {
            self.red_player
        } else {
            None
        }
    }

    /// Seats `player_id`: on `preferred_side` when free, else on the first free seat.
    /// Returns the seat, or `None` when the room is full.
    pub fn add_player(&mut self, player_id: u64, preferred_side: Option<Side>) -> (r: Option<Side>)
        ensures
            r == seat_for(old(self).red_player, old(self).black_player, preferred_side),
            final(self).red_player == (if r == Some(Side::Red) {
                Some(player_id)
            } else {
                old(self).red_player
            }),
            final(self).black_player == (if r == Some(Side::Black) {
                Some(player_id)
            } else {
                old(self).black_player
            }),
            final(self).id == old(self).id,
            final(self).room_type == old(self).room_type,
            final(self).state == old(self).state,
            final(self).created_at == old(self).created_at,
            final(self).same_game(*old(self)),
    {
        if let Some(side) = preferred_side {
            match side {
                Side::Red => {
                    if self.red_player.is_none() {
                        self.red_player = Some(player_id);
                        return Some(Side::Red);
                    }
                },
                Side::Black => {
                    if self.black_player.is_none() {
                        self.black_player = Some(player_id);
                        return Some(Side::Black);
                    }
                },
            }
        }
        if self.red_player.is_none() {
            self.red_player = Some(player_id);
            Some(Side::Red)
        } else if self.black_player.is_none() {
            self.black_player = Some(player_id);
            Some(Side::Black)
        } else {
            None
        }
    }

    /// Frees the seat of `player_id` (Red first) and returns it.
    pub fn remove_player(&mut self, player_id: u64) -> (r: Option<Side>)
        ensures
            r == (if old(self).red_player == Some(player_id) {
                Some(Side::Red)
            } else if old(self).black_player == Some(player_id) {
                Some(Side::Black)
            } else {
                None
            }),
            final(self).red_player == (if r == Some(Side::Red) {
                None
            } else {
                old(self).red_player
            }),
            final(self).black_player == (if r == Some(Side::Black) {
                None
            } else {
                old(self).black_player
            }),
            final(self).id == old(self).id,
            final(self).room_type == old(self).room_type,
            final(self).state == old(self).state,
            final(self).created_at == old(self).created_at,
            final(self).same_game(*old(self)),
    {
        if self.red_player == Some(player_id) {
            self.red_player = None;
            Some(Side::Red)
        } else if self.black_player == Some(player_id) {
            self.black_player = None;
            Some(Side::Black)
        } else {
            None
        }
    }

    /// Starts a game: the starting position, Red to move, a new clock, empty histories.
    pub fn start_game(&mut self)
        ensures
            final(self).state == RoomState::Playing,
            final(self).game_state matches Some(gs) && gs.board@ == initial_squares()
                && gs.current_turn == Side::Red && gs.no_capture_count == 0,
            final(self).timer matches Some(t) && t.red_base() == crate::outcome::INITIAL_TIME_MS
                && t.black_base() == crate::outcome::INITIAL_TIME_MS && t.turn() == Side::Red
                && !t.paused_state() && t.running(),
            final(self).move_history@.len() == 0,
            final(self).no_capture_history@.len() == 0,
            final(self).id == old(self).id,
            final(self).room_type == old(self).room_type,
            final(self).red_player == old(self).red_player,
            final(self).black_player == old(self).black_player,
            final(self).created_at == old(self).created_at,
            final(self).undo_requested_by == old(self).undo_requested_by,
    {
        self.game_state = Some(BoardState::initial());
        self.timer = Some(GameTimer::new());
        self.state = RoomState::Playing;
        self.move_history.clear();
        self.no_capture_history.clear();
    }

    /// Pauses a game against the computer that is being played; returns whether it did.
    pub fn pause(&mut self) -> (r: bool)
        ensures
            r == (old(self).room_type is PvE && old(self).state == RoomState::Playing),
            r ==> {
                &&& final(self).state == RoomState::Paused
                &&& timer_paused(old(self).timer, final(self).timer)
                &&& final(self).id == old(self).id
                &&& final(self).room_type == old(self).room_type
                &&& final(self).red_player == old(self).red_player
                &&& final(self).black_player == old(self).black_player
                &&& final(self).created_at == old(self).created_at
                &&& final(self).game_state == old(self).game_state
                &&& final(self).move_history@ == old(self).move_history@
                &&& final(self).no_capture_history@ == old(self).no_capture_history@
                &&& final(self).undo_requested_by == old(self).undo_requested_by
            },
            !r ==> *final(self) == *old(self),
    {
        if matches!(self.room_type, RoomType::PvE(_)) && self.state == RoomState::Playing {
            let t = self.timer.take();
            if let Some(mut t) = t {
                t.pause();
                self.timer = Some(t);
            }
            self.state = RoomState::Paused;
            true
        } else {
            false
        }
    }

    /// Resumes a paused game against the computer; returns whether it did.
    pub fn resume(&mut self) -> (r: bool)
        ensures
            r == (old(self).room_type is PvE && old(self).state == RoomState::Paused),
            r ==> {
                &&& final(self).state == RoomState::Playing
                &&& timer_resumed(old(self).timer, final(self).timer)
                &&& final(self).id == old(self).id
                &&& final(self).room_type == old(self).room_type
                &&& final(self).red_player == old(self).red_player
                &&& final(self).black_player == old(self).black_player
                &&& final(self).created_at == old(self).created_at
                &&& final(self).game_state == old(self).game_state
                &&& final(self).move_history@ == old(self).move_history@
                &&& final(self).no_capture_history@ == old(self).no_capture_history@
                &&& final(self).undo_requested_by == old(self).undo_requested_by
            },
            !r ==> *final(self) == *old(self),
    {
        if matches!(self.room_type, RoomType::PvE(_)) && self.state == RoomState::Paused {
            let t = self.timer.take();
            if let Some(mut t) = t {
                t.resume();
                self.timer = Some(t);
            }
            self.state = RoomState::Playing;
            true
        } else {
            false
        }
    }

    /// Ends the game: the room is finished and the clock stops.
    pub fn finish(&mut self, _result: GameResult)
        ensures
            final(self).state == RoomState::Finished,
            timer_paused(old(self).timer, final(self).timer),
            final(self).id == old(self).id,
            final(self).room_type == old(self).room_type,
            final(self).red_player == old(self).red_player,
            final(self).black_player == old(self).black_player,
            final(self).created_at == old(self).created_at,
            final(self).game_state == old(self).game_state,
            final(self).move_history@ == old(self).move_history@,
            final(self).no_capture_history@ == old(self).no_capture_history@,
            final(self).undo_requested_by == old(self).undo_requested_by,
    {
        self.state = RoomState::Finished;
        let t = self.timer.take();
        if let Some(mut t) = t {
            t.stop();
            self.timer = Some(t);
        }
    }

    /// Whether `legal_moves` holds a move from `mv.from` to `mv.to`.
    fn is_listed(legal_moves: &Vec<Move>, mv: Move) -> (r: bool)
        ensures
            r == listed(legal_moves@, mv),
    {
        let mut k: usize = 0;
        while k < legal_moves.len()
            invariant
                k <= legal_moves@.len(),
                forall|j: int|
                    0 <= j < k ==> !((#[trigger] legal_moves@[j]).from == mv.from
                        && legal_moves@[j].to == mv.to),
            decreases legal_moves@.len() - k,
        {
            if legal_moves[k].from == mv.from && legal_moves[k].to == mv.to {
                return true;
            }
            k = k + 1;
        }
        false
    }

    /// Passes the clock (if any) to the other side.
    fn switch_timer(&mut self)
        ensures
            timer_switched(old(self).timer, final(self).timer),
            final(self).same_seating(*old(self)),
            final(self).game_state == old(self).game_state,
            final(self).move_history@ == old(self).move_history@,
            final(self).no_capture_history@ == old(self).no_capture_history@,
            final(self).undo_requested_by == old(self).undo_requested_by,
    {
        let t = self.timer.take();
        if let Some(mut t) = t {
            t.switch_turn();
            self.timer = Some(t);
        }
    }

    /// Plays `mv` when the game has started and `legal_moves` (the legal moves of the side to
    /// move) holds a move with the same squares; records it with what it captured.
    pub fn make_move(&mut self, mv: Move, legal_moves: &Vec<Move>) -> (r: Result<(), &'static str>)
        requires
            moves_on_board(legal_moves@),
            old(self).game_state matches Some(gs) ==> gs.no_capture_count < u32::MAX,
        ensures
            old(self).game_state is None ==> r == Err::<(), &'static str>(NOT_STARTED)
                && *final(self) == *old(self),
            old(self).game_state is Some && !listed(legal_moves@, mv) ==> r == Err::<
                (),
                &'static str,
            >(INVALID_MOVE) && *final(self) == *old(self),
            old(self).game_state is Some && listed(legal_moves@, mv) ==> r == Ok::<(), &'static str>(())
                && old(self).played(mv, *final(self)),
    {
        let mut gs = match self.game_state {
            Some(gs) => gs,
            None => return Err(NOT_STARTED),
        };
        if !Self::is_listed(legal_moves, mv) {
            return Err(INVALID_MOVE);
        }
        proof {
            let k = choose|k: int|
                0 <= k < legal_moves@.len() && (#[trigger] legal_moves@[k]).from == mv.from
                    && legal_moves@[k].to == mv.to;
            assert(legal_moves@[k].from.valid() && legal_moves@[k].to.valid());
        }
        self.no_capture_history.push(gs.no_capture_count);
        let captured = gs.board.move_piece(mv.from, mv.to);
        if captured.is_some() {
            gs.no_capture_count = 0;
        } else {
            gs.no_capture_count = gs.no_capture_count + 1;
        }
        gs.switch_turn();
        self.game_state = Some(gs);
        self.switch_timer();
        let mut recorded_move = mv;
        recorded_move.captured = captured;
        self.move_history.push(recorded_move);
        self.undo_requested_by = None;
        Ok(())
    }

    /// Takes back the last move: the piece returns, what it captured is put back, the count
    /// of plies without capture and the turn are restored. The move leaves the history even
    /// when the game has not started.
    pub fn undo_move(&mut self) -> (r: Result<Move, &'static str>)
        requires
            moves_on_board(old(self).move_history@),
        ensures
            moves_on_board(final(self).move_history@),
            old(self).move_history@.len() == 0 ==> r == Err::<Move, &'static str>(NOTHING_TO_UNDO)
                && *final(self) == *old(self),
            old(self).move_history@.len() > 0 && old(self).game_state is None ==> {
                &&& r == Err::<Move, &'static str>(NOT_STARTED)
                &&& final(self).move_history@ == old(self).move_history@.drop_last()
                &&& final(self).same_seating(*old(self))
                &&& final(self).game_state == old(self).game_state
                &&& final(self).timer == old(self).timer
                &&& final(self).no_capture_history@ == old(self).no_capture_history@
                &&& final(self).undo_requested_by == old(self).undo_requested_by
            },
            old(self).move_history@.len() > 0 && old(self).game_state is Some ==> r == Ok::<
                Move,
                &'static str,
            >(old(self).move_history@.last()) && old(self).took_back(*final(self)),
    {
        if self.move_history.len() == 0 {
            return Err(NOTHING_TO_UNDO);
        }
        let last_move = match self.move_history.pop() {
            Some(m) => m,
            None => return Err(NOTHING_TO_UNDO),
        };
        proof {
            assert(old(self).move_history@[old(self).move_history@.len() - 1] == last_move);
            assert forall|k: int| 0 <= k < self.move_history@.len() implies (#[trigger] self.move_history@[k]).from.valid()
                && self.move_history@[k].to.valid() by {
                assert(self.move_history@[k] == old(self).move_history@[k]);
            }
        }
        let mut gs = match self.game_state {
            Some(gs) => gs,
            None => return Err(NOT_STARTED),
        };
        let piece = gs.board.get(last_move.to);
        gs.board.set(last_move.from, piece);
        gs.board.set(last_move.to, last_move.captured);
        if let Some(prev_count) = self.no_capture_history.pop() {
            gs.no_capture_count = prev_count;
        }
        gs.switch_turn();
        self.game_state = Some(gs);
        self.switch_timer();
        self.undo_requested_by = None;
        Ok(last_move)
    }

    /// Whether the game is over, given whether the side to move has a legal move and whether
    /// it is in check; the clock is read now. `None` when no game has started.
    pub fn check_game_over(&self, has_legal_move: bool, in_check: bool) -> (r: Option<GameResult>)
        ensures
            match self.game_state {
                None => r is None,
                Some(gs) => match self.timer {
                    None => r == spec_verdict(
                        gs.current_turn,
                        has_legal_move,
                        in_check,
                        None,
                        gs.no_capture_count,
                    ),
                    Some(t) => exists|er: u64, eb: u64|
                        r == spec_verdict(
                            gs.current_turn,
                            has_legal_move,
                            in_check,
                            Some((t.spec_time_left(Side::Red, er), t.spec_time_left(Side::Black, eb))),
                            gs.no_capture_count,
                        ),
                },
            },
    {
        let gs = match self.game_state {
            Some(gs) => gs,
            None => return None,
        };
        let times = match &self.timer {
            Some(t) => Some((t.red_time_ms(), t.black_time_ms())),
            None => None,
        };
        game_over_verdict(gs.current_turn, has_legal_move, in_check, times, gs.no_capture_count)
    }

    /// The times left (Red, Black) read now; zeros when there is no clock.
    pub fn get_time_state(&self) -> (r: (u64, u64))
        ensures
            match self.timer {
                None => r == (0u64, 0u64),
                Some(t) => exists|er: u64, eb: u64|
                    r == (t.spec_time_left(Side::Red, er), t.spec_time_left(Side::Black, eb)),
            },
    {
        match &self.timer {
            Some(t) => (t.red_time_ms(), t.black_time_ms()),
            None => (0, 0),
        }
    }
}

/// Taking back a move right after playing it gives back the position, the side to move, the
/// count of plies without capture, both histories and the seats; it returns the move played,
/// with what it captured.
pub proof fn law_undo_restores_move(before: Room, mv: Move, played: Room, undone: Room)
    requires
        mv.from.valid(),
        mv.to.valid(),
        before.played(mv, played),
        played.took_back(undone),
    ensures
        undone.same_seating(before),
        undone.game_state->0.board@ == before.game_state->0.board@,
        undone.game_state->0.current_turn == before.game_state->0.current_turn,
        undone.game_state->0.no_capture_count == before.game_state->0.no_capture_count,
        undone.move_history@ == before.move_history@,
        undone.no_capture_history@ == before.no_capture_history@,
        played.move_history@.last() == (Move {
            from: mv.from,
            to: mv.to,
            captured: before.game_state->0.board.at(mv.to),
        }),
{
    let b = before.game_state->0.board@;
    let m = played.move_history@.last();
    crate::board::lemma_board_len(before.game_state->0.board);
    assert(m == Move { from: mv.from, to: mv.to, captured: b[mv.to.index()] });
    let moved = spec_move_piece(b, mv.from, mv.to);
    assert(spec_unmove(moved, m) =~= b);
    assert(before.move_history@.push(m).drop_last() =~= before.move_history@);
    assert(before.no_capture_history@.push(before.game_state->0.no_capture_count).drop_last()
        =~= before.no_capture_history@);
}

/// The first position of the room `id` in `s` from position `i` on.
pub open spec fn room_index_from(s: Seq<Room>, id: u64, i: int) -> Option<int>
    decreases s.len() - i,
{
    if i < 0 || i >= s.len() {
        None
    } else if s[i].id == id {
        Some(i)
    } else {
        room_index_from(s, id, i + 1)
    }
}

/// The first position, from position `i` on, of a room where `player_id` sits.
pub open spec fn seat_index_from(s: Seq<Room>, player_id: u64, i: int) -> Option<int>
    decreases s.len() - i,
{
    if i < 0 || i >= s.len() {
        None
    } else if s[i].seats(player_id) {
        Some(i)
    } else {
        seat_index_from(s, player_id, i + 1)
    }
}

/// Whether a room is listed for joining: waiting, between two players.
pub open spec fn joinable(r: Room) -> bool {
    r.state == RoomState::Waiting && r.room_type == RoomType::PvP
}

/// The joinable rooms among the first `n` of `s`, in order.
pub open spec fn joinable_upto(s: Seq<Room>, n: int) -> Seq<Room>
    decreases n,
{
    if n <= 0 {
        Seq::empty()
    } else if joinable(s[n - 1]) {
        joinable_upto(s, n - 1).push(s[n - 1])
    } else {
        joinable_upto(s, n - 1)
    }
}

/// What the search for `id` finds is a room with that id, at or after the start.
pub proof fn lemma_room_index(s: Seq<Room>, id: u64, k: int)
    ensures
        room_index_from(s, id, k) matches Some(i) ==> k <= i < s.len() && s[i].id == id,
    decreases s.len() - k,
{
    if !(k < 0 || k >= s.len()) && s[k].id != id {
        lemma_room_index(s, id, k + 1);
    }
}

/// What the search for a seat of `player_id` finds is a room where the player sits, and no
/// room before it (from the start) seats the player.
pub proof fn lemma_seat_index(s: Seq<Room>, player_id: u64, k: int)
    requires
        0 <= k,
    ensures
        seat_index_from(s, player_id, k) matches Some(i) ==> k <= i < s.len() && s[i].seats(player_id),
    decreases s.len() - k,
{
    if !(k >= s.len()) && !s[k].seats(player_id) {
        lemma_seat_index(s, player_id, k + 1);
    }
}

/// The search for `id` from any position up to its first occurrence `k` ends at `k`.
pub proof fn lemma_room_index_first(s: Seq<Room>, id: u64, k: int, i: int)
    requires
        0 <= i <= k < s.len(),
        s[k].id == id,
        forall|j: int| 0 <= j < k ==> #[trigger] s[j].id != id,
    ensures
        room_index_from(s, id, i) == Some(k),
    decreases k - i,
{
    if i < k {
        lemma_room_index_first(s, id, k, i + 1);
    }
}

/// All rooms of the server, in order of creation.
pub struct RoomManager {
    rooms: Vec<Room>,
    next_id: u64,
}

impl RoomManager {
    /// The rooms, in order of creation.
    pub closed spec fn rooms(&self) -> Seq<Room> {
        self.rooms@
    }

    /// The id that the next room receives.
    pub closed spec fn next_id(&self) -> u64 {
        self.next_id
    }

    /// Every room has an id below the next id (so a new room's id is not in use), and no two
    /// rooms share an id.
    pub open spec fn wf(&self) -> bool {
        &&& forall|i: int| 0 <= i < self.rooms().len() ==> #[trigger] self.rooms()[i].id < self.next_id()
        &&& forall|i: int, j: int|
            0 <= i < j < self.rooms().len() ==> #[trigger] self.rooms()[i].id != #[trigger] self.rooms()[j].id
    }

    /// No rooms; the first id is 1.
    pub fn new() -> (m: RoomManager)
        ensures
            m.wf(),
            m.rooms() == Seq::<Room>::empty(),
            m.next_id() == 1,
    {
        RoomManager { rooms: Vec::new(), next_id: 1 }
    }

    /// Creates a waiting room of the given kind and returns its id (the next id).
    pub fn create(&mut self, room_type: RoomType) -> (r: u64)
        requires
            old(self).next_id() < u64::MAX,
        ensures
            r == old(self).next_id(),
            final(self).next_id() == old(self).next_id() + 1,
            final(self).rooms().len() == old(self).rooms().len() + 1,
            final(self).rooms().drop_last() == old(self).rooms(),
            final(self).rooms().last().fresh(r, room_type),
            old(self).wf() ==> final(self).wf() && room_index_from(final(self).rooms(), r, 0)
                == Some(old(self).rooms().len() as int),
    {
        let id = self.next_id;
        self.next_id = self.next_id + 1;
        let room = Room::new(id, room_type);
        self.rooms.push(room);
        proof {
            assert(self.rooms@.drop_last() =~= old(self).rooms@);
            if old(self).wf() {
                let s = self.rooms@;
                let k = old(self).rooms@.len() as int;
                assert forall|j: int| 0 <= j < k implies #[trigger] s[j].id != id by {
                    assert(s[j] == old(self).rooms@[j]);
                }
                lemma_room_index_first(s, id, k, 0);
                assert forall|a: int, b: int| 0 <= a < b < s.len() implies #[trigger] s[a].id
                    != #[trigger] s[b].id by {
                    if b < k {
                        assert(s[a] == old(self).rooms@[a] && s[b] == old(self).rooms@[b]);
                    } else {
                        assert(s[a] == old(self).rooms@[a]);
                    }
                }
            }
        }
        id
    }

    /// The position of the first room with the id `room_id`.
    fn find_index(&self, room_id: u64) -> (r: Option<usize>)
        ensures
            r matches Some(i) ==> room_index_from(self.rooms(), room_id, 0) == Some(i as int) && i
                < self.rooms().len(),
            r is None ==> room_index_from(self.rooms(), room_id, 0) is None,
    {
        let mut i: usize = 0;
        while i < self.rooms.len()
            invariant
                i <= self.rooms@.len(),
                room_index_from(self.rooms@, room_id, 0) == room_index_from(self.rooms@, room_id, i as int),
            decreases self.rooms@.len() - i,
        {
            if self.rooms[i].id == room_id {
                return Some(i);
            }
            i = i + 1;
        }
        None
    }

    /// The room with the id `room_id`.
    pub fn get(&self, room_id: u64) -> (r: Option<&Room>)
        ensures
            match room_index_from(self.rooms(), room_id, 0) {
                Some(i) => r matches Some(room) && *room == self.rooms()[i],
                None => r is None,
            },
    {
        match self.find_index(room_id) {
            Some(i) => Some(&self.rooms[i]),
            None => None,
        }
    }

    /// The room with the id `room_id`, to change in place.
    pub fn get_mut(&mut self, room_id: u64) -> (r: Option<&mut Room>)
        ensures
            final(self).next_id() == old(self).next_id(),
            match room_index_from(old(self).rooms(), room_id, 0) {
                Some(i) => r matches Some(room) && *room == old(self).rooms()[i]
                    && final(self).rooms() == old(self).rooms().update(i, *final(room)),
                None => r is None && final(self).rooms() == old(self).rooms(),
            },
    {
        match self.find_index(room_id) {
            Some(i) => Some(&mut self.rooms[i]),
            None => None,
        }
    }

    /// Removes the room `room_id` and returns it.
    pub fn remove(&mut self, room_id: u64) -> (r: Option<Room>)
        ensures
            final(self).next_id() == old(self).next_id(),
            old(self).wf() ==> final(self).wf(),
            match room_index_from(old(self).rooms(), room_id, 0) {
                Some(i) => r matches Some(room) && room == old(self).rooms()[i] && final(self).rooms()
                    == old(self).rooms().remove(i),
                None => r is None && final(self).rooms() == old(self).rooms(),
            },
    {
        match self.find_index(room_id) {
            Some(i) => {
                let r = self.rooms.remove(i);
                proof {
                    if old(self).wf() {
                        let t = self.rooms@;
                        let s0 = old(self).rooms@;
                        assert forall|a: int| 0 <= a < t.len() implies #[trigger] t[a].id
                            < self.next_id by {
                            let a0 = if a < i { a } else { a + 1 };
                            assert(t[a] == s0[a0]);
                        }
                        assert forall|a: int, b: int| 0 <= a < b < t.len() implies #[trigger] t[a].id
                            != #[trigger] t[b].id by {
                            let a0 = if a < i { a } else { a + 1 };
                            let b0 = if b < i { b } else { b + 1 };
                            assert(t[a] == s0[a0] && t[b] == s0[b0]);
                        }
                    }
                }
                Some(r)
            },
            None => None,
        }
    }

    /// The rooms waiting for a second player (two-player rooms only), in order of creation.
    pub fn list_joinable(&self) -> (r: Vec<&Room>)
        ensures
            r@.len() == joinable_upto(self.rooms(), self.rooms().len() as int).len(),
            forall|k: int|
                0 <= k < r@.len() ==> *r@[k] == joinable_upto(self.rooms(), self.rooms().len() as int)[k],
    {
        let mut out: Vec<&Room> = Vec::new();
        let mut i: usize = 0;
        while i < self.rooms.len()
            invariant
                i <= self.rooms@.len(),
                out@.len() == joinable_upto(self.rooms@, i as int).len(),
                forall|k: int| 0 <= k < out@.len() ==> *out@[k] == joinable_upto(self.rooms@, i as int)[k],
            decreases self.rooms@.len() - i,
        {
            let room = &self.rooms[i];
            if room.state == RoomState::Waiting && room.room_type == RoomType::PvP {
                out.push(room);
            }
            i = i + 1;
        }
        out
    }

    /// The id of the first room where `player_id` sits.
    pub fn find_player_room(&self, player_id: u64) -> (r: Option<u64>)
        ensures
            match seat_index_from(self.rooms(), player_id, 0) {
                Some(i) => r == Some(self.rooms()[i].id),
                None => r is None,
            },
    {
        let mut i: usize = 0;
        while i < self.rooms.len()
            invariant
                i <= self.rooms@.len(),
                seat_index_from(self.rooms@, player_id, 0) == seat_index_from(self.rooms@, player_id, i as int),
            decreases self.rooms@.len() - i,
        {
            if self.rooms[i].has_player(player_id) {
                return Some(self.rooms[i].id);
            }
            i = i + 1;
        }
        None
    }

    /// Whether another id can be issued (the counter has not reached its end).
    pub fn can_issue_id(&self) -> (r: bool)
        ensures
            r == (self.next_id() < u64::MAX),
    {
        self.next_id < u64::MAX
    }

    /// Whether every room's count of plies without capture is below the largest `u32`.
    pub fn counts_below_max(&self) -> (r: bool)
        ensures
            r == (forall|j: int| 0 <= j < self.rooms().len() ==> match (#[trigger] self.rooms()[j]).game_state {
                Some(gs) => gs.no_capture_count < u32::MAX,
                None => true,
            }),
    {
        let mut i: usize = 0;
        while i < self.rooms.len()
            invariant
                i <= self.rooms@.len(),
                forall|j: int| 0 <= j < i ==> match (#[trigger] self.rooms@[j]).game_state {
                    Some(gs) => gs.no_capture_count < u32::MAX,
                    None => true,
                },
            decreases self.rooms@.len() - i,
        {
            if let Some(gs) = &self.rooms[i].game_state {
                if gs.no_capture_count == u32::MAX {
                    return false;
                }
            }
            i = i + 1;
        }
        true
    }

    /// The number of rooms.
    pub fn count(&self) -> (r: usize)
        ensures
            r == self.rooms().len(),
    {
        self.rooms.len()
    }
}

impl Default for RoomManager {
    fn default() -> (m: RoomManager)
        ensures
            m.wf(),
            m.rooms() == Seq::<Room>::empty(),
            m.next_id() == 1,
    {
        RoomManager::new()
    }
}

} // verus!

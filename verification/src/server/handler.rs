//! What the game server answers to each client request, and what it tells the other players.
//!
//! A handler changes the players and rooms, returns the reply to the requester and queues
//! messages for other players (`Outbox`); sending them is left to the caller.

use vstd::prelude::*;
use crate::board::{initial_squares, moves_on_board, BoardState, Move, Position, Side};
use crate::outcome::{GameResult, RoomState, RoomType, WinReason, INITIAL_TIME_MS};
use crate::search::Difficulty;
use crate::network::ClientMessage;
use crate::text::{decimal, push_decimal, push_str};
use crate::server::player::{
    holds_id, reconnected, disconnected, disconnect_room, find_player, login_result, nickname_of, status_set, Player, PlayerManager, PlayerStatus,
    NICKNAME_TAKEN,
};
use crate::server::timer::GameTimer;
use crate::server::room::{
    lemma_room_index, lemma_seat_index, room_index_from, joinable, joinable_upto, listed,
    spec_verdict, Room, RoomInfo, RoomManager,
};

verus! {

/// Id that stands for the computer on a seat (no player receives it: ids start at 1).
pub const AI_PLAYER_ID: u64 = 0;

/// Seconds a disconnected player has to come back before losing.
pub const DISCONNECT_TIMEOUT_SECS: u32 = 60;

/// Why a request was refused.
#[derive(Clone, Copy, Debug, PartialEq, Eq, Structural)]
pub enum ErrorCode {
    NicknameOccupied,
    InvalidNickname,
    PlayerNotFound,
    NotInRoom,
    AlreadyInRoom,
    RoomNotFound,
    RoomClosed,
    RoomFull,
    GameNotStarted,
    NotYourTurn,
    InvalidMove,
    UndoNotAllowed,
    InternalError,
    GameAlreadyOver,
}

/// A message from the server to a client.
#[derive(Clone, Debug)]
pub enum ServerMessage {
    LoginSuccess { player_id: u64 },
    Error { code: ErrorCode, message: String },
    ReconnectSuccess {
        room_id: u64,
        game_state: BoardState,
        your_side: Side,
        red_time_ms: u64,
        black_time_ms: u64,
    },
    OpponentReconnected,
    GameStarted { initial_state: BoardState, your_side: Side, red_player: String, black_player: String },
    RoomCreated { room_id: u64, your_side: Side },
    OpponentJoined { nickname: String },
    RoomJoined { room_id: u64, side: Side },
    GameOver { result: GameResult },
    RoomList { rooms: Vec<RoomInfo> },
    MoveMade { from: Position, to: Position, new_state: BoardState, notation: String },
    TimeUpdate { red_time_ms: u64, black_time_ms: u64 },
    UndoApproved { new_state: BoardState },
    UndoRequested { by: Side },
    UndoRejected,
    GamePaused,
    GameResumed,
    GameSaved { game_id: String },
    GameLoaded { room_id: u64, game_state: BoardState, your_side: Side },
    OpponentDisconnected { timeout_secs: u32 },
    Pong,
}

/// A room list entry, with the names as character sequences.
pub struct RoomInfoView {
    pub id: u64,
    pub room_type: RoomType,
    pub red_player: Option<Seq<char>>,
    pub black_player: Option<Seq<char>>,
    pub state: RoomState,
}

/// A server message, with texts as character sequences.
pub enum MessageView {
    LoginSuccess { player_id: u64 },
    Error { code: ErrorCode, message: Seq<char> },
    ReconnectSuccess {
        room_id: u64,
        game_state: BoardState,
        your_side: Side,
        red_time_ms: u64,
        black_time_ms: u64,
    },
    OpponentReconnected,
    GameStarted {
        initial_state: BoardState,
        your_side: Side,
        red_player: Seq<char>,
        black_player: Seq<char>,
    },
    RoomCreated { room_id: u64, your_side: Side },
    OpponentJoined { nickname: Seq<char> },
    RoomJoined { room_id: u64, side: Side },
    GameOver { result: GameResult },
    RoomList { rooms: Seq<RoomInfoView> },
    MoveMade { from: Position, to: Position, new_state: BoardState, notation: Seq<char> },
    TimeUpdate { red_time_ms: u64, black_time_ms: u64 },
    UndoApproved { new_state: BoardState },
    UndoRequested { by: Side },
    UndoRejected,
    GamePaused,
    GameResumed,
    GameSaved { game_id: Seq<char> },
    GameLoaded { room_id: u64, game_state: BoardState, your_side: Side },
    OpponentDisconnected { timeout_secs: u32 },
    Pong,
}

/// The text of an optional string.
pub open spec fn opt_text(o: Option<String>) -> Option<Seq<char>> {
    match o {
        Some(s) => Some(s@),
        None => None,
    }
}

impl View for RoomInfo {
    type V = RoomInfoView;

    open spec fn view(&self) -> RoomInfoView {
        RoomInfoView {
            id: self.id,
            room_type: self.room_type,
            red_player: opt_text(self.red_player),
            black_player: opt_text(self.black_player),
            state: self.state,
        }
    }
}

impl View for ServerMessage {
    type V = MessageView;

    open spec fn view(&self) -> MessageView {
        match *self {
            ServerMessage::LoginSuccess { player_id } => MessageView::LoginSuccess { player_id },
            ServerMessage::Error { code, message } => MessageView::Error { code, message: message@ },
            ServerMessage::ReconnectSuccess {
                room_id,
                game_state,
                your_side,
                red_time_ms,
                black_time_ms,
            } => MessageView::ReconnectSuccess {
                room_id,
                game_state,
                your_side,
                red_time_ms,
                black_time_ms,
            },
            ServerMessage::OpponentReconnected => MessageView::OpponentReconnected,
            ServerMessage::GameStarted { initial_state, your_side, red_player, black_player } =>
                MessageView::GameStarted {
                initial_state,
                your_side,
                red_player: red_player@,
                black_player: black_player@,
            },
            ServerMessage::RoomCreated { room_id, your_side } => MessageView::RoomCreated {
                room_id,
                your_side,
            },
            ServerMessage::OpponentJoined { nickname } => MessageView::OpponentJoined {
                nickname: nickname@,
            },
            ServerMessage::RoomJoined { room_id, side } => MessageView::RoomJoined { room_id, side },
            ServerMessage::GameOver { result } => MessageView::GameOver { result },
            ServerMessage::RoomList { rooms } => MessageView::RoomList {
                rooms: rooms@.map_values(|r: RoomInfo| r@),
            },
            ServerMessage::MoveMade { from, to, new_state, notation } => MessageView::MoveMade {
                from,
                to,
                new_state,
                notation: notation@,
            },
            ServerMessage::TimeUpdate { red_time_ms, black_time_ms } => MessageView::TimeUpdate {
                red_time_ms,
                black_time_ms,
            },
            ServerMessage::UndoApproved { new_state } => MessageView::UndoApproved { new_state },
            ServerMessage::UndoRequested { by } => MessageView::UndoRequested { by },
            ServerMessage::UndoRejected => MessageView::UndoRejected,
            ServerMessage::GamePaused => MessageView::GamePaused,
            ServerMessage::GameResumed => MessageView::GameResumed,
            ServerMessage::GameSaved { game_id } => MessageView::GameSaved { game_id: game_id@ },
            ServerMessage::GameLoaded { room_id, game_state, your_side } => MessageView::GameLoaded {
                room_id,
                game_state,
                your_side,
            },
            ServerMessage::OpponentDisconnected { timeout_secs } =>
                MessageView::OpponentDisconnected { timeout_secs },
            ServerMessage::Pong => MessageView::Pong,
        }
    }
}

/// An error reply.
pub open spec fn error_view(code: ErrorCode, message: Seq<char>) -> MessageView {
    MessageView::Error { code, message }
}

/// Builds an error reply.
fn error(code: ErrorCode, message: &str) -> (m: ServerMessage)
    ensures
        m@ == error_view(code, message@),
{
    ServerMessage::Error { code, message: message.to_owned() }
}

/// The messages of a queue, by view.
pub open spec fn queued(q: Seq<(u64, ServerMessage)>) -> Seq<(u64, MessageView)> {
    q.map_values(|e: (u64, ServerMessage)| (e.0, e.1@))
}

/// Messages waiting to be sent: to single players, and to both seats of a room.
pub struct Outbox {
    /// (player id, message)
    pub messages: Vec<(u64, ServerMessage)>,
    /// (room id, message)
    pub broadcasts: Vec<(u64, ServerMessage)>,
}

impl Outbox {
    /// The messages to single players.
    pub open spec fn sent(&self) -> Seq<(u64, MessageView)> {
        queued(self.messages@)
    }

    /// The messages to rooms.
    pub open spec fn cast(&self) -> Seq<(u64, MessageView)> {
        queued(self.broadcasts@)
    }

    /// Nothing to send.
    pub fn new() -> (o: Outbox)
        ensures
            o.sent() == Seq::<(u64, MessageView)>::empty(),
            o.cast() == Seq::<(u64, MessageView)>::empty(),
    {
        let o = Outbox { messages: Vec::new(), broadcasts: Vec::new() };
        assert(o.sent() =~= Seq::<(u64, MessageView)>::empty());
        assert(o.cast() =~= Seq::<(u64, MessageView)>::empty());
        o
    }

    /// Queues `msg` for the player `player_id`.
    pub fn send(&mut self, player_id: u64, msg: ServerMessage)
        ensures
            final(self).sent() == old(self).sent().push((player_id, msg@)),
            final(self).cast() == old(self).cast(),
    {
        self.messages.push((player_id, msg));
        assert(final(self).sent() =~= old(self).sent().push((player_id, msg@)));
    }

    /// Queues `msg` for both seats of the room `room_id`.
    pub fn broadcast(&mut self, room_id: u64, msg: ServerMessage)
        ensures
            final(self).cast() == old(self).cast().push((room_id, msg@)),
            final(self).sent() == old(self).sent(),
    {
        self.broadcasts.push((room_id, msg));
        assert(final(self).cast() =~= old(self).cast().push((room_id, msg@)));
    }
}

/// The players and rooms of a server.
pub struct ServerCore {
    pub players: PlayerManager,
    pub rooms: RoomManager,
}

impl ServerCore {
    /// Both parts are well formed, and every move recorded in a room is between squares of
    /// the board.
    pub open spec fn wf(&self) -> bool {
        &&& self.players.wf()
        &&& self.rooms.wf()
        &&& forall|i: int|
            0 <= i < self.rooms.rooms().len() ==> moves_on_board(#[trigger] self.rooms.rooms()[i].move_history@)
    }

    /// No players, no rooms.
    pub fn new() -> (c: ServerCore)
        ensures
            c.wf(),
            c.players.players() == Seq::<Player>::empty(),
            c.players.next_id() == 1,
            c.rooms.rooms() == Seq::<Room>::empty(),
            c.rooms.next_id() == 1,
    {
        ServerCore { players: PlayerManager::new(), rooms: RoomManager::new() }
    }
}

/// The room with the id `id`, if any.
pub open spec fn find_room(s: Seq<Room>, id: u64) -> Option<Room> {
    match room_index_from(s, id, 0) {
        Some(i) => Some(s[i]),
        None => None,
    }
}

/// The name shown for the player `id`: its nickname, or `default` when there is none.
pub open spec fn name_or(s: Seq<Player>, id: u64, default: Seq<char>) -> Seq<char> {
    match nickname_of(s, id) {
        Some(n) => n,
        None => default,
    }
}

/// The name of the player on a seat (if any).
pub open spec fn seat_name(s: Seq<Player>, seat: Option<u64>) -> Option<Seq<char>> {
    match seat {
        Some(id) => nickname_of(s, id),
        None => None,
    }
}

/// The list entry of `room`, with the names of its players.
pub open spec fn info_view(room: Room, s: Seq<Player>) -> RoomInfoView {
    RoomInfoView {
        id: room.id,
        room_type: room.room_type,
        red_player: seat_name(s, room.red_player),
        black_player: seat_name(s, room.black_player),
        state: room.state,
    }
}

/// Whether the player `id` is known and sits in a room.
pub open spec fn in_room(s: Seq<Player>, id: u64) -> bool {
    find_player(s, id) matches Some(p) && p.status is InRoom
}

/// How a difficulty is written in a debug print (`Easy`, ..., `Custom { depth: 5,
/// time_limit_ms: 100 }`).
pub open spec fn difficulty_debug(d: Difficulty) -> Seq<char> {
    match d {
        Difficulty::Easy => "Easy"@,
        Difficulty::Medium => "Medium"@,
        Difficulty::Hard => "Hard"@,
        Difficulty::Custom { depth, time_limit_ms } => "Custom { depth: "@ + decimal(depth as nat)
            + ", time_limit_ms: "@ + decimal(time_limit_ms as nat) + " }"@,
    }
}

/// The name shown for the computer: `AI (difficulty)`.
pub open spec fn ai_name(d: Difficulty) -> Seq<char> {
    "AI ("@ + difficulty_debug(d) + ")"@
}

/// Builds the computer's name.
pub fn ai_display_name(d: Difficulty) -> (r: String)
    ensures
        r@ == ai_name(d),
{
    let mut out: Vec<char> = Vec::new();
    push_str(&mut out, "AI (");
    match d {
        Difficulty::Easy => push_str(&mut out, "Easy"),
        Difficulty::Medium => push_str(&mut out, "Medium"),
        Difficulty::Hard => push_str(&mut out, "Hard"),
        Difficulty::Custom { depth, time_limit_ms } => {
            push_str(&mut out, "Custom { depth: ");
            push_decimal(&mut out, depth as u64);
            push_str(&mut out, ", time_limit_ms: ");
            push_decimal(&mut out, time_limit_ms);
            push_str(&mut out, " }");
        },
    }
    push_str(&mut out, ")");
    assert(out@ =~= ai_name(d));
    crate::text::string_of(&out)
}

/// Writes a difficulty as a debug print does.
pub fn difficulty_debug_text(d: Difficulty) -> (r: String)
    ensures
        r@ == difficulty_debug(d),
{
    let mut out: Vec<char> = Vec::new();
    match d {
        Difficulty::Easy => push_str(&mut out, "Easy"),
        Difficulty::Medium => push_str(&mut out, "Medium"),
        Difficulty::Hard => push_str(&mut out, "Hard"),
        Difficulty::Custom { depth, time_limit_ms } => {
            push_str(&mut out, "Custom { depth: ");
            push_decimal(&mut out, depth as u64);
            push_str(&mut out, ", time_limit_ms: ");
            push_decimal(&mut out, time_limit_ms);
            push_str(&mut out, " }");
        },
    }
    assert(out@ =~= difficulty_debug(d));
    crate::text::string_of(&out)
}

/// The nickname of `id`, or `default`.
fn name_or_default(players: &PlayerManager, id: u64, default: &str) -> (r: String)
    ensures
        r@ == name_or(players.players(), id, default@),
{
    match players.get_nickname(id) {
        Some(n) => n.to_owned(),
        None => default.to_owned(),
    }
}

/// The nickname of the player on a seat.
fn seat_nickname(players: &PlayerManager, seat: Option<u64>) -> (r: Option<String>)
    ensures
        opt_text(r) == seat_name(players.players(), seat),
{
    match seat {
        Some(id) => match players.get_nickname(id) {
            Some(n) => Some(n.to_owned()),
            None => None,
        },
        None => None,
    }
}

/// Whether the player `id` is known and sits in a room.
fn is_in_room(players: &PlayerManager, id: u64) -> (r: bool)
    ensures
        r == in_room(players.players(), id),
{
    match players.get(id) {
        Some(p) => matches!(p.status, PlayerStatus::InRoom(_)),
        None => false,
    }
}

/// The seat of a room's creator: the preferred one, else Red.
pub open spec fn creator_side(preferred: Option<Side>) -> Side {
    match preferred {
        Some(side) => side,
        None => Side::Red,
    }
}

/// A game just started in `r`: the starting position, Red to move, a new clock, empty
/// histories.
pub open spec fn started(r: Room) -> bool {
    &&& r.state == RoomState::Playing
    &&& r.game_state matches Some(gs) && gs.board@ == initial_squares() && gs.current_turn
        == Side::Red && gs.no_capture_count == 0
    &&& r.timer matches Some(t) && t.red_base() == INITIAL_TIME_MS && t.black_base()
        == INITIAL_TIME_MS && t.turn() == Side::Red && !t.paused_state() && t.running()
    &&& r.move_history@.len() == 0
    &&& r.no_capture_history@.len() == 0
}

/// The room made for `player_id` on `side`: waiting for an opponent between players, or
/// started against the computer, which takes the other seat.
pub open spec fn created_room(r: Room, id: u64, room_type: RoomType, player_id: u64, side: Side) -> bool {
    &&& r.id == id
    &&& r.room_type == room_type
    &&& r.undo_requested_by is None
    &&& match room_type {
        RoomType::PvP => {
            &&& r.state == RoomState::Waiting
            &&& r.red_player == (if side == Side::Red {
                Some(player_id)
            } else {
                None
            })
            &&& r.black_player == (if side == Side::Black {
                Some(player_id)
            } else {
                None
            })
            &&& r.game_state is None
            &&& r.timer is None
            &&& r.move_history@.len() == 0
            &&& r.no_capture_history@.len() == 0
        },
        RoomType::PvE(_) => {
            &&& r.red_player == Some(if side == Side::Red { player_id } else { AI_PLAYER_ID })
            &&& r.black_player == Some(if side == Side::Black { player_id } else { AI_PLAYER_ID })
            &&& started(r)
        },
    }
}

/// `after` is the room `before` once `player_id` took the seat `side`; the game starts when
/// both seats are taken.
pub open spec fn joined_room(before: Room, player_id: u64, side: Side, after: Room) -> bool {
    let red = if side == Side::Red { Some(player_id) } else { before.red_player };
    let black = if side == Side::Black { Some(player_id) } else { before.black_player };
    &&& after.id == before.id
    &&& after.room_type == before.room_type
    &&& after.created_at == before.created_at
    &&& after.red_player == red
    &&& after.black_player == black
    &&& if red is Some && black is Some {
        started(after) && after.undo_requested_by == before.undo_requested_by
    } else {
        after.state == before.state && after.same_game(before)
    }
}

/// The messages queued when `player_id` joins `before` (named `nickname`): the other player
/// hears of it, and once the room is full both players get the start of the game.
pub open spec fn join_notices(before: Room, nickname: Seq<char>, after: Room, players: Seq<Player>) -> Seq<
    (u64, MessageView),
> {
    let opponent = if before.red_player is Some { before.red_player } else { before.black_player };
    let first = match opponent {
        Some(o) => seq![(o, MessageView::OpponentJoined { nickname })],
        None => Seq::empty(),
    };
    if after.red_player is Some && after.black_player is Some {
        let red_id = after.red_player->0;
        let black_id = after.black_player->0;
        let red_name = name_or(players, red_id, "玩家"@);
        let black_name = name_or(players, black_id, "玩家"@);
        first + seq![
            (red_id, MessageView::GameStarted {
                initial_state: after.game_state->0,
                your_side: Side::Red,
                red_player: red_name,
                black_player: black_name,
            }),
            (black_id, MessageView::GameStarted {
                initial_state: after.game_state->0,
                your_side: Side::Black,
                red_player: red_name,
                black_player: black_name,
            }),
        ]
    } else {
        first
    }
}

/// The result of a game lost by `side` for `reason`.
pub open spec fn loss_for(side: Side, reason: WinReason) -> GameResult {
    match side {
        Side::Red => GameResult::BlackWin(reason),
        Side::Black => GameResult::RedWin(reason),
    }
}

/// A game lost by a side is won by the other side, for the same reason: it never names the
/// losing side as winner and is never a draw.
pub proof fn law_loss_is_opponent_win(side: Side, reason: WinReason)
    ensures
        loss_for(side, reason) matches GameResult::RedWin(w) ==> side == Side::Black && w == reason,
        loss_for(side, reason) matches GameResult::BlackWin(w) ==> side == Side::Red && w == reason,
        !(loss_for(side, reason) is Draw),
        side == Side::Red ==> loss_for(side, reason) == GameResult::BlackWin(reason),
        side == Side::Black ==> loss_for(side, reason) == GameResult::RedWin(reason),
{
}

/// The result of a game lost by `side` for `reason`.
pub fn loss(side: Side, reason: WinReason) -> (r: GameResult)
    ensures
        r == loss_for(side, reason),
{
    match side {
        Side::Red => GameResult::BlackWin(reason),
        Side::Black => GameResult::RedWin(reason),
    }
}

/// The seat of `player_id` in `room` (Red first), if any.
pub open spec fn side_in(room: Room, player_id: u64) -> Option<Side> {
    if room.red_player == Some(player_id) {
        Some(Side::Red)
    } else if room.black_player == Some(player_id) {
        Some(Side::Black)
    } else {
        None
    }
}

/// The player on the other seat than `player_id`'s.
pub open spec fn opponent_in(room: Room, player_id: u64) -> Option<u64> {
    if room.red_player == Some(player_id) {
        room.black_player
    } else if room.black_player == Some(player_id) {
        room.red_player
    } else {
        None
    }
}

/// `after` is `before` with the game ended: finished, clock stopped, nothing else changed.
pub open spec fn finished_room(before: Room, after: Room) -> bool {
    &&& after.state == RoomState::Finished
    &&& crate::server::room::timer_paused(before.timer, after.timer)
    &&& after.id == before.id
    &&& after.room_type == before.room_type
    &&& after.red_player == before.red_player
    &&& after.black_player == before.black_player
    &&& after.created_at == before.created_at
    &&& after.game_state == before.game_state
    &&& after.move_history@ == before.move_history@
    &&& after.no_capture_history@ == before.no_capture_history@
    &&& after.undo_requested_by == before.undo_requested_by
}

/// `after` is `before` once the player on `side` left: that seat is free, and a game in
/// progress is finished (lost by the leaver).
pub open spec fn left_room(before: Room, side: Side, after: Room) -> bool {
    &&& after.red_player == (if side == Side::Red { None } else { before.red_player })
    &&& after.black_player == (if side == Side::Black { None } else { before.black_player })
    &&& after.id == before.id
    &&& after.room_type == before.room_type
    &&& after.created_at == before.created_at
    &&& after.game_state == before.game_state
    &&& after.move_history@ == before.move_history@
    &&& after.no_capture_history@ == before.no_capture_history@
    &&& after.undo_requested_by == before.undo_requested_by
    &&& if before.state == RoomState::Playing {
        after.state == RoomState::Finished && crate::server::room::timer_paused(before.timer, after.timer)
    } else {
        after.state == before.state && after.timer == before.timer
    }
}

/// `after` is the clock `before` with its running turn restarted now.
pub open spec fn timer_restarted(before: GameTimer, after: GameTimer) -> bool {
    &&& after.red_base() == before.red_base()
    &&& after.black_base() == before.black_base()
    &&& after.turn() == before.turn()
    &&& after.paused_state() == before.paused_state()
    &&& after.running() == (before.running() || !before.paused_state())
}

/// `after` is `before` once the player on `side` came back: when that side is to move on a
/// running clock, its turn restarts now (the time away is not counted).
pub open spec fn returned_to_room(before: Room, side: Side, after: Room) -> bool {
    &&& after.same_seating(before)
    &&& after.game_state == before.game_state
    &&& after.move_history@ == before.move_history@
    &&& after.no_capture_history@ == before.no_capture_history@
    &&& after.undo_requested_by == before.undo_requested_by
    &&& match before.timer {
        Some(t) => after.timer matches Some(u) && if t.turn() == side && !t.paused_state() {
            timer_restarted(t, u)
        } else {
            u == t
        },
        None => after.timer is None,
    }
}

/// The reply to a successful reconnection: the room, the position, the seat and the
/// times read from the clock (zeros without one).
pub open spec fn reconnect_reply(m: MessageView, room_id: u64, room: Room, side: Side) -> bool {
    m matches MessageView::ReconnectSuccess { room_id: rid, game_state, your_side, red_time_ms, black_time_ms }
        && rid == room_id && game_state == room.game_state->0 && your_side == side && match room.timer {
        None => red_time_ms == 0 && black_time_ms == 0,
        Some(t) => (exists|e: u64| red_time_ms == t.spec_time_left(Side::Red, e)) && (exists|e: u64|
            black_time_ms == t.spec_time_left(Side::Black, e)),
    }
}

/// `after` is `before` after a pause request: a game against the computer that is being
/// played is paused (with its clock); any other room is unchanged.
pub open spec fn paused_room(before: Room, after: Room) -> bool {
    if before.room_type is PvE && before.state == RoomState::Playing {
        &&& after.state == RoomState::Paused
        &&& crate::server::room::timer_paused(before.timer, after.timer)
        &&& after.same_seating_but_state(before)
        &&& after.game_state == before.game_state
        &&& after.move_history@ == before.move_history@
        &&& after.no_capture_history@ == before.no_capture_history@
        &&& after.undo_requested_by == before.undo_requested_by
    } else {
        after == before
    }
}

/// `after` is `before` after a resume request: a paused game against the computer is played
/// again (its clock runs); any other room is unchanged.
pub open spec fn resumed_room(before: Room, after: Room) -> bool {
    if before.room_type is PvE && before.state == RoomState::Paused {
        &&& after.state == RoomState::Playing
        &&& crate::server::room::timer_resumed(before.timer, after.timer)
        &&& after.same_seating_but_state(before)
        &&& after.game_state == before.game_state
        &&& after.move_history@ == before.move_history@
        &&& after.no_capture_history@ == before.no_capture_history@
        &&& after.undo_requested_by == before.undo_requested_by
    } else {
        after == before
    }
}

/// The rooms after the room at `i` was replaced by `after`, which keeps its id and history.
proof fn lemma_update_keeps_wf(core: ServerCore, rooms: Seq<Room>, i: int, after: Room)
    requires
        core.rooms.wf(),
        forall|j: int| 0 <= j < core.rooms.rooms().len() ==> moves_on_board(#[trigger] core.rooms.rooms()[j].move_history@),
        rooms == core.rooms.rooms(),
        0 <= i < rooms.len(),
        after.id == rooms[i].id,
        moves_on_board(after.move_history@),
    ensures
        forall|j: int| 0 <= j < rooms.update(i, after).len() ==> (#[trigger] rooms.update(i, after)[j]).id
            < core.rooms.next_id(),
        forall|j: int| 0 <= j < rooms.update(i, after).len() ==> moves_on_board(
            #[trigger] rooms.update(i, after)[j].move_history@,
        ),
        forall|a: int, b: int|
            0 <= a < b < rooms.update(i, after).len() ==> #[trigger] rooms.update(i, after)[a].id
                != #[trigger] rooms.update(i, after)[b].id,
{
    let t = rooms.update(i, after);
    assert forall|j: int| 0 <= j < t.len() implies (#[trigger] t[j]).id < core.rooms.next_id() by {
        if j != i {
            assert(t[j] == rooms[j]);
        }
    }
    assert forall|j: int| 0 <= j < t.len() implies moves_on_board(#[trigger] t[j].move_history@) by {
        if j != i {
            assert(t[j] == rooms[j]);
            assert(moves_on_board(core.rooms.rooms()[j].move_history@));
        }
    }
    assert forall|a: int, b: int| 0 <= a < b < t.len() implies #[trigger] t[a].id != #[trigger] t[b].id by {
        assert(t[a].id == rooms[a].id && t[b].id == rooms[b].id);
    }
}

/// The room index of a seat found by the search is that of the room's id.
proof fn lemma_seat_room(core: ServerCore, player_id: u64)
    requires
        core.rooms.wf(),
    ensures
        crate::server::room::seat_index_from(core.rooms.rooms(), player_id, 0) matches Some(i) ==> {
            &&& 0 <= i < core.rooms.rooms().len()
            &&& core.rooms.rooms()[i].seats(player_id)
            &&& room_index_from(core.rooms.rooms(), core.rooms.rooms()[i].id, 0) == Some(i)
        },
{
    let rooms = core.rooms.rooms();
    lemma_seat_index(rooms, player_id, 0);
    if let Some(i) = crate::server::room::seat_index_from(rooms, player_id, 0) {
        assert forall|j: int| 0 <= j < i implies #[trigger] rooms[j].id != rooms[i].id by {
            assert(rooms[j].id != rooms[i].id);
        }
        crate::server::room::lemma_room_index_first(rooms, rooms[i].id, i, 0);
    }
}

/// Whether a take-back of `r` succeeds: a move was played and the game has started.
pub open spec fn undo_ok(r: Room) -> bool {
    r.move_history@.len() > 0 && r.game_state is Some
}

/// What one take-back does to `before`: nothing without a move; with a move but no game, the
/// move is dropped from the history (and the take-back fails); otherwise the move is taken
/// back.
pub open spec fn undo_effect(before: Room, after: Room) -> bool {
    if before.move_history@.len() == 0 {
        after == before
    } else if before.game_state is None {
        &&& after.move_history@ == before.move_history@.drop_last()
        &&& after.same_seating(before)
        &&& after.game_state == before.game_state
        &&& after.timer == before.timer
        &&& after.no_capture_history@ == before.no_capture_history@
        &&& after.undo_requested_by == before.undo_requested_by
    } else {
        before.took_back(after)
    }
}

/// `after` is `before` with only the pending take-back request changed to `request`.
pub open spec fn with_request(before: Room, after: Room, request: Option<Side>) -> bool {
    &&& after.same_seating(before)
    &&& after.game_state == before.game_state
    &&& after.timer == before.timer
    &&& after.move_history@ == before.move_history@
    &&& after.no_capture_history@ == before.no_capture_history@
    &&& after.undo_requested_by == request
}

/// Whether a room's count of plies without capture can still grow.
pub open spec fn count_can_grow(r: Room) -> bool {
    match r.game_state {
        Some(gs) => gs.no_capture_count < u32::MAX,
        None => true,
    }
}

/// Whether every room's count of plies without capture can still grow.
pub open spec fn counts_below_max(rooms: Seq<Room>) -> bool {
    forall|j: int| 0 <= j < rooms.len() ==> count_can_grow(#[trigger] rooms[j])
}

/// The verdict on the room's game after a move, from whether the side to move has a legal
/// move and is in check, with the clock's times when there is a clock.
pub open spec fn room_verdict(room: Room, has_legal_move: bool, in_check: bool, red_ms: u64, black_ms: u64) -> Option<GameResult> {
    let gs = room.game_state->0;
    spec_verdict(
        gs.current_turn,
        has_legal_move,
        in_check,
        if room.timer is Some { Some((red_ms, black_ms)) } else { None },
        gs.no_capture_count,
    )
}

/// The times a reply may carry for `room`: read from its clock, or zeros without one.
pub open spec fn readable_times(room: Room, red_ms: u64, black_ms: u64) -> bool {
    match room.timer {
        None => red_ms == 0 && black_ms == 0,
        Some(t) => (exists|e: u64| red_ms == t.spec_time_left(Side::Red, e)) && (exists|e: u64|
            black_ms == t.spec_time_left(Side::Black, e)),
    }
}

/// The name a save records for a seat: `AI` for the computer, the nickname (or `未知`) for
/// a player, `空` for an empty seat.
pub open spec fn seat_label(players: Seq<Player>, seat: Option<u64>) -> Seq<char> {
    match seat {
        Some(id) => if id == AI_PLAYER_ID {
            "AI"@
        } else {
            name_or(players, id, "未知"@)
        },
        None => "空"@,
    }
}

/// The label a save records for a difficulty.
pub open spec fn difficulty_label_spec(d: Difficulty) -> Seq<char> {
    match d {
        Difficulty::Easy => "Easy"@,
        Difficulty::Medium => "Medium"@,
        Difficulty::Hard => "Hard"@,
        Difficulty::Custom { .. } => "Custom"@,
    }
}

/// The label a save records for a difficulty.
pub fn difficulty_label(d: Difficulty) -> (r: &'static str)
    ensures
        r@ == difficulty_label_spec(d),
{
    match d {
        Difficulty::Easy => "Easy",
        Difficulty::Medium => "Medium",
        Difficulty::Hard => "Hard",
        Difficulty::Custom { .. } => "Custom",
    }
}

/// The difficulty a saved label stands for (English or Chinese names).
pub open spec fn spec_difficulty_from_label(label: Seq<char>) -> Option<Difficulty> {
    if label == "Easy"@ || label == "简单"@ {
        Some(Difficulty::Easy)
    } else if label == "Medium"@ || label == "中等"@ {
        Some(Difficulty::Medium)
    } else if label == "Hard"@ || label == "困难"@ {
        Some(Difficulty::Hard)
    } else {
        None
    }
}

/// The difficulty a saved label stands for.
pub fn difficulty_from_label(label: &str) -> (r: Option<Difficulty>)
    ensures
        r == spec_difficulty_from_label(label@),
{
    if crate::icons::str_eq(label, "Easy") || crate::icons::str_eq(label, "简单") {
        Some(Difficulty::Easy)
    } else if crate::icons::str_eq(label, "Medium") || crate::icons::str_eq(label, "中等") {
        Some(Difficulty::Medium)
    } else if crate::icons::str_eq(label, "Hard") || crate::icons::str_eq(label, "困难") {
        Some(Difficulty::Hard)
    } else {
        None
    }
}

/// The kind of room a saved game is restored in: against the computer (at the saved
/// difficulty, medium when unknown) when a player is named `AI`, else between players.
pub open spec fn spec_loaded_room_type(red: Seq<char>, black: Seq<char>, label: Option<Seq<char>>) -> RoomType {
    if black == "AI"@ || red == "AI"@ {
        RoomType::PvE(match label {
            Some(l) => match spec_difficulty_from_label(l) {
                Some(d) => d,
                None => Difficulty::Medium,
            },
            None => Difficulty::Medium,
        })
    } else {
        RoomType::PvP
    }
}

/// The kind of room a saved game is restored in.
pub fn loaded_room_type(red_player: &str, black_player: &str, difficulty: Option<&str>) -> (r: RoomType)
    ensures
        r == spec_loaded_room_type(red_player@, black_player@, match difficulty {
            Some(l) => Some(l@),
            None => None,
        }),
{
    if crate::icons::str_eq(black_player, "AI") || crate::icons::str_eq(red_player, "AI") {
        let d = match difficulty {
            Some(label) => match difficulty_from_label(label) {
                Some(d) => d,
                None => Difficulty::Medium,
            },
            None => Difficulty::Medium,
        };
        RoomType::PvE(d)
    } else {
        RoomType::PvP
    }
}

/// What a save of a game needs from the server: the room, the players' names, the clocks,
/// the difficulty of the computer, the position and the moves.
pub struct SaveRequest {
    pub room_id: u64,
    pub red_name: String,
    pub black_name: String,
    pub red_time_ms: u64,
    pub black_time_ms: u64,
    pub ai_difficulty: Option<&'static str>,
    pub game_state: BoardState,
    pub moves: Vec<Move>,
}

/// Handlers of the client requests.
pub struct MessageHandler;

impl MessageHandler {
    /// Login: the new id, or why the nickname was refused.
    pub fn handle_login(core: &mut ServerCore, nickname: String) -> (r: Option<ServerMessage>)
        requires
            old(core).wf(),
            old(core).players.next_id() < u64::MAX,
        ensures
            final(core).wf(),
            final(core).rooms == old(core).rooms,
            match login_result(old(core).players.players(), old(core).players.next_id(), nickname@) {
                Ok(id) => {
                    &&& r matches Some(m) && m@ == (MessageView::LoginSuccess { player_id: id })
                    &&& final(core).players.players() == old(core).players.players().push(
                        Player::new_spec(id, nickname),
                    )
                    &&& final(core).players.next_id() == id + 1
                },
                Err(e) => {
                    &&& r matches Some(m) && m@ == error_view(
                        if e@ == NICKNAME_TAKEN@ {
                            ErrorCode::NicknameOccupied
                        } else {
                            ErrorCode::InvalidNickname
                        },
                        e@,
                    )
                    &&& final(core).players.players() == old(core).players.players()
                    &&& final(core).players.next_id() == old(core).players.next_id()
                },
            },
    {
        match core.players.login(nickname) {
            Ok(player_id) => Some(ServerMessage::LoginSuccess { player_id }),
            Err(msg) => {
                let code = if crate::icons::str_eq(msg, NICKNAME_TAKEN) {
                    ErrorCode::NicknameOccupied
                } else {
                    ErrorCode::InvalidNickname
                };
                Some(error(code, msg))
            },
        }
    }

    /// Creates a room for a player in the lobby, on its preferred seat; against the computer
    /// the game starts at once.
    pub fn handle_create_room(
        core: &mut ServerCore,
        player_id: u64,
        room_type: RoomType,
        preferred_side: Option<Side>,
    ) -> (r: Option<ServerMessage>)
        requires
            old(core).wf(),
            old(core).rooms.next_id() < u64::MAX,
        ensures
            final(core).wf(),
            in_room(old(core).players.players(), player_id) ==> {
                &&& r matches Some(m) && m@ == error_view(ErrorCode::AlreadyInRoom, "已在房间中"@)
                &&& final(core).players == old(core).players
                &&& final(core).rooms == old(core).rooms
            },
            !in_room(old(core).players.players(), player_id) ==> {
                let id = old(core).rooms.next_id();
                let side = creator_side(preferred_side);
                let room = final(core).rooms.rooms().last();
                &&& final(core).players.players() == status_set(
                    old(core).players.players(),
                    player_id,
                    PlayerStatus::InRoom(id),
                )
                &&& final(core).players.next_id() == old(core).players.next_id()
                &&& final(core).rooms.next_id() == id + 1
                &&& final(core).rooms.rooms().len() == old(core).rooms.rooms().len() + 1
                &&& final(core).rooms.rooms().drop_last() == old(core).rooms.rooms()
                &&& created_room(room, id, room_type, player_id, side)
                &&& r matches Some(m) && m@ == match room_type {
                    RoomType::PvP => MessageView::RoomCreated { room_id: id, your_side: side },
                    RoomType::PvE(d) => MessageView::GameStarted {
                        initial_state: room.game_state->0,
                        your_side: side,
                        red_player: if side == Side::Red {
                            name_or(final(core).players.players(), player_id, "玩家"@)
                        } else {
                            ai_name(d)
                        },
                        black_player: if side == Side::Black {
                            name_or(final(core).players.players(), player_id, "玩家"@)
                        } else {
                            ai_name(d)
                        },
                    },
                }
            },
    {
        if is_in_room(&core.players, player_id) {
            return Some(error(ErrorCode::AlreadyInRoom, "已在房间中"));
        }
        let ghost rooms0 = core.rooms.rooms();
        let room_id = core.rooms.create(room_type);
        let ghost mid = core.rooms.rooms();
        proof {
            assert forall|j: int| 0 <= j < rooms0.len() implies moves_on_board(
                #[trigger] mid[j].move_history@,
            ) by {
                assert(mid[j] == mid.drop_last()[j]);
            }
        }
        let room = match core.rooms.get_mut(room_id) {
            Some(room) => room,
            None => return None,
        };
        let your_side = match room.add_player(player_id, preferred_side) {
            Some(side) => side,
            None => return None,
        };
        core.players.set_status(player_id, PlayerStatus::InRoom(room_id));
        if let RoomType::PvE(difficulty) = room_type {
            if your_side == Side::Red {
                room.black_player = Some(AI_PLAYER_ID);
            } else {
                room.red_player = Some(AI_PLAYER_ID);
            }
            room.start_game();
            let game_state = match room.game_state {
                Some(gs) => gs,
                None => return None,
            };
            let red_player = if your_side == Side::Red {
                name_or_default(&core.players, player_id, "玩家")
            } else {
                ai_display_name(difficulty)
            };
            let black_player = if your_side == Side::Black {
                name_or_default(&core.players, player_id, "玩家")
            } else {
                ai_display_name(difficulty)
            };
            return Some(ServerMessage::GameStarted {
                initial_state: game_state,
                your_side,
                red_player,
                black_player,
            });
        }
        Some(ServerMessage::RoomCreated { room_id, your_side })
    }

    /// A player in the lobby joins a waiting room that has a free seat; the game starts when
    /// the room is full.
    pub fn handle_join_room(
        core: &mut ServerCore,
        pending: &mut Outbox,
        player_id: u64,
        room_id: u64,
    ) -> (r: Option<ServerMessage>)
        requires
            old(core).wf(),
        ensures
            final(core).wf(),
            final(pending).cast() == old(pending).cast(),
            final(core).players.next_id() == old(core).players.next_id(),
            final(core).rooms.next_id() == old(core).rooms.next_id(),
            ({
                let players = old(core).players.players();
                let rooms = old(core).rooms.rooms();
                if in_room(players, player_id) {
                    &&& r matches Some(m) && m@ == error_view(ErrorCode::AlreadyInRoom, "已在房间中"@)
                    &&& final(core).players.players() == players
                    &&& final(core).rooms.rooms() == rooms
                    &&& final(pending).sent() == old(pending).sent()
                } else {
                    match room_index_from(rooms, room_id, 0) {
                        None => {
                            &&& r matches Some(m) && m@ == error_view(ErrorCode::RoomNotFound, "房间不存在"@)
                            &&& final(core).players.players() == players
                            &&& final(core).rooms.rooms() == rooms
                            &&& final(pending).sent() == old(pending).sent()
                        },
                        Some(i) => {
                            let room = rooms[i];
                            if room.state != RoomState::Waiting {
                                &&& r matches Some(m) && m@ == error_view(ErrorCode::RoomClosed, "房间不可加入"@)
                                &&& final(core).players.players() == players
                                &&& final(core).rooms.rooms() == rooms
                                &&& final(pending).sent() == old(pending).sent()
                            } else if room.red_player is Some && room.black_player is Some {
                                &&& r matches Some(m) && m@ == error_view(ErrorCode::RoomFull, "房间已满"@)
                                &&& final(core).players.players() == players
                                &&& final(core).rooms.rooms() == rooms
                                &&& final(pending).sent() == old(pending).sent()
                            } else {
                                let side = crate::server::room::seat_for(room.red_player, room.black_player, None)->0;
                                let after = final(core).rooms.rooms()[i];
                                &&& r matches Some(m) && m@ == (MessageView::RoomJoined { room_id, side })
                                &&& final(core).players.players() == status_set(players, player_id, PlayerStatus::InRoom(room_id))
                                &&& final(core).rooms.rooms().len() == rooms.len()
                                &&& final(core).rooms.rooms() == rooms.update(i, after)
                                &&& joined_room(room, player_id, side, after)
                                &&& final(pending).sent() == old(pending).sent() + join_notices(
                                    room,
                                    name_or(players, player_id, "玩家"@),
                                    after,
                                    final(core).players.players(),
                                )
                            }
                        },
                    }
                }
            }),
    {
        if is_in_room(&core.players, player_id) {
            return Some(error(ErrorCode::AlreadyInRoom, "已在房间中"));
        }
        let (opponent_id, waiting, full) = match core.rooms.get(room_id) {
            Some(room) => (
                if room.red_player.is_some() { room.red_player } else { room.black_player },
                room.state == RoomState::Waiting,
                room.is_full(),
            ),
            None => return Some(error(ErrorCode::RoomNotFound, "房间不存在")),
        };
        if !waiting {
            return Some(error(ErrorCode::RoomClosed, "房间不可加入"));
        }
        if full {
            return Some(error(ErrorCode::RoomFull, "房间已满"));
        }
        let joiner_nickname = name_or_default(&core.players, player_id, "玩家");
        let ghost rooms0 = core.rooms.rooms();
        let ghost sent0 = pending.sent();
        proof {
            lemma_room_index(rooms0, room_id, 0);
        }
        let ghost i = room_index_from(rooms0, room_id, 0)->0;
        let room = match core.rooms.get_mut(room_id) {
            Some(room) => room,
            None => return None,
        };
        let side = match room.add_player(player_id, None) {
            Some(side) => side,
            None => return None,
        };
        core.players.set_status(player_id, PlayerStatus::InRoom(room_id));
        if let Some(opponent_id) = opponent_id {
            pending.send(opponent_id, ServerMessage::OpponentJoined { nickname: joiner_nickname });
        }
        if room.is_full() {
            room.start_game();
            let game_state = match room.game_state {
                Some(gs) => gs,
                None => return None,
            };
            let red_id = match room.red_player {
                Some(id) => id,
                None => return None,
            };
            let black_id = match room.black_player {
                Some(id) => id,
                None => return None,
            };
            let red_player = name_or_default(&core.players, red_id, "玩家");
            let black_player = name_or_default(&core.players, black_id, "玩家");
            let red_copy = crate::text::string_of(&crate::text::chars_of(red_player.as_str()));
            let black_copy = crate::text::string_of(&crate::text::chars_of(black_player.as_str()));
            pending.send(
                red_id,
                ServerMessage::GameStarted {
                    initial_state: game_state,
                    your_side: Side::Red,
                    red_player: red_copy,
                    black_player: black_copy,
                },
            );
            pending.send(
                black_id,
                ServerMessage::GameStarted {
                    initial_state: game_state,
                    your_side: Side::Black,
                    red_player,
                    black_player,
                },
            );
        }
        proof {
            let after = core.rooms.rooms();
            assert(after == rooms0.update(i, after[i]));
            assert forall|j: int| 0 <= j < after.len() implies #[trigger] after[j].id < core.rooms.next_id() by {
                if j != i {
                    assert(after[j] == rooms0[j]);
                }
            }
        }
        Some(ServerMessage::RoomJoined { room_id, side })
    }

    /// A player leaves its room: a game in progress is lost by the leaver (the opponent is
    /// told), the seat is freed, the player returns to the lobby, and an empty room is removed.
    pub fn handle_leave_room(core: &mut ServerCore, pending: &mut Outbox, player_id: u64) -> (r: Option<
        ServerMessage,
    >)
        requires
            old(core).wf(),
        ensures
            final(core).wf(),
            r is None,
            final(pending).cast() == old(pending).cast(),
            final(core).players.next_id() == old(core).players.next_id(),
            final(core).rooms.next_id() == old(core).rooms.next_id(),
            ({
                let players = old(core).players.players();
                let rooms = old(core).rooms.rooms();
                match crate::server::room::seat_index_from(rooms, player_id, 0) {
                    None => {
                        &&& final(core).players.players() == players
                        &&& final(core).rooms.rooms() == rooms
                        &&& final(pending).sent() == old(pending).sent()
                    },
                    Some(i) => {
                        let room = rooms[i];
                        let side = side_in(room, player_id)->0;
                        let playing = room.state == RoomState::Playing;
                        &&& final(core).players.players() == status_set(players, player_id, PlayerStatus::Online)
                        &&& final(pending).sent() == old(pending).sent() + (if playing && opponent_in(room, player_id) is Some {
                            seq![(opponent_in(room, player_id)->0, MessageView::GameOver {
                                result: loss_for(side, WinReason::Disconnect),
                            })]
                        } else {
                            Seq::empty()
                        })
                        &&& exists|after: Room| left_room(room, side, after) && final(core).rooms.rooms() == (
                            if after.red_player is None && after.black_player is None {
                                rooms.remove(i)
                            } else {
                                rooms.update(i, after)
                            })
                    },
                }
            }),
    {
        let ghost rooms0 = core.rooms.rooms();
        let ghost sent0 = pending.sent();
        let room_id = match core.rooms.find_player_room(player_id) {
            Some(id) => id,
            None => {
                assert(pending.sent() =~= sent0 + Seq::<(u64, MessageView)>::empty());
                return None;
            },
        };
        let ghost i = crate::server::room::seat_index_from(rooms0, player_id, 0)->0;
        proof {
            lemma_seat_index(rooms0, player_id, 0);
            assert forall|j: int| 0 <= j < i implies #[trigger] rooms0[j].id != room_id by {
                assert(rooms0[j].id != rooms0[i].id);
            }
            crate::server::room::lemma_room_index_first(rooms0, room_id, i, 0);
        }
        let (side, opponent_id, is_playing) = match core.rooms.get(room_id) {
            Some(room) => (
                match room.get_player_side(player_id) {
                    Some(side) => side,
                    None => return None,
                },
                room.get_opponent_id(player_id),
                room.state == RoomState::Playing,
            ),
            None => return None,
        };
        if is_playing {
            let result = loss(side, WinReason::Disconnect);
            if let Some(opponent_id) = opponent_id {
                pending.send(opponent_id, ServerMessage::GameOver { result });
            }
            match core.rooms.get_mut(room_id) {
                Some(room) => room.finish(result),
                None => return None,
            }
        }
        let ghost rooms1 = core.rooms.rooms();
        proof {
            assert forall|j: int| 0 <= j < i implies #[trigger] rooms1[j].id != room_id by {
                assert(rooms1[j].id == rooms0[j].id);
            }
            crate::server::room::lemma_room_index_first(rooms1, room_id, i, 0);
        }
        let empty = match core.rooms.get_mut(room_id) {
            Some(room) => {
                room.remove_player(player_id);
                room.red_player.is_none() && room.black_player.is_none()
            },
            None => return None,
        };
        core.players.set_status(player_id, PlayerStatus::Online);
        let ghost rooms2 = core.rooms.rooms();
        proof {
            assert(rooms2 == rooms0.update(i, rooms2[i]));
            assert(left_room(rooms0[i], side, rooms2[i]));
            lemma_update_keeps_wf(*old(core), rooms0, i, rooms2[i]);
            if !(is_playing && opponent_id is Some) {
                assert(pending.sent() =~= sent0 + Seq::<(u64, MessageView)>::empty());
            }
            assert forall|j: int| 0 <= j < i implies #[trigger] rooms2[j].id != room_id by {
                assert(rooms2[j].id == rooms0[j].id);
            }
            crate::server::room::lemma_room_index_first(rooms2, room_id, i, 0);
            assert(rooms2.remove(i) =~= rooms0.remove(i));
        }
        if empty {
            core.rooms.remove(room_id);
            proof {
                let t = core.rooms.rooms();
                assert forall|j: int| 0 <= j < t.len() implies moves_on_board(#[trigger] t[j].move_history@) by {
                    let j0 = if j < i { j } else { j + 1 };
                    assert(t[j] == rooms2[j0]);
                    assert(moves_on_board(rooms2[j0].move_history@));
                }
            }
        }
        proof {
            let after = rooms2[i];
            assert(left_room(rooms0[i], side, after) && core.rooms.rooms() == (
                if after.red_player is None && after.black_player is None {
                    rooms0.remove(i)
                } else {
                    rooms0.update(i, after)
                }));
        }
        None
    }

    /// A known player seated in a room with a game comes back: the player is in the room
    /// again, the opponent is told, and the reply carries the game.
    pub fn handle_reconnect(
        core: &mut ServerCore,
        pending: &mut Outbox,
        player_id: u64,
        room_id: u64,
    ) -> (r: Option<ServerMessage>)
        requires
            old(core).wf(),
        ensures
            final(core).wf(),
            final(pending).cast() == old(pending).cast(),
            final(core).players.next_id() == old(core).players.next_id(),
            final(core).rooms.next_id() == old(core).rooms.next_id(),
            ({
                let players = old(core).players.players();
                let rooms = old(core).rooms.rooms();
                let unchanged = final(core).players.players() == players && final(core).rooms.rooms()
                    == rooms && final(pending).sent() == old(pending).sent();
                if !holds_id(players, player_id) {
                    unchanged && (r matches Some(m) && m@ == error_view(ErrorCode::PlayerNotFound, "玩家不存在"@))
                } else {
                    match room_index_from(rooms, room_id, 0) {
                        None => unchanged && r is None,
                        Some(i) => {
                            let room = rooms[i];
                            if !room.seats(player_id) {
                                unchanged && (r matches Some(m) && m@ == error_view(ErrorCode::NotInRoom, "不在该房间中"@))
                            } else if room.game_state is None {
                                unchanged && r is None
                            } else {
                                let side = side_in(room, player_id)->0;
                                &&& r matches Some(m) && reconnect_reply(m@, room_id, room, side)
                                &&& final(core).players.players() == reconnected(players, player_id)
                                &&& final(core).rooms.rooms() == rooms.update(i, final(core).rooms.rooms()[i])
                                &&& returned_to_room(room, side, final(core).rooms.rooms()[i])
                                &&& final(pending).sent() == old(pending).sent() + match opponent_in(room, player_id) {
                                    Some(o) => seq![(o, MessageView::OpponentReconnected)],
                                    None => Seq::empty(),
                                }
                            }
                        },
                    }
                }
            }),
    {
        let ghost rooms0 = core.rooms.rooms();
        let ghost sent0 = pending.sent();
        if !core.players.player_exists(player_id) {
            return Some(error(ErrorCode::PlayerNotFound, "玩家不存在"));
        }
        proof {
            lemma_room_index(rooms0, room_id, 0);
        }
        let ghost i = room_index_from(rooms0, room_id, 0)->0;
        let (your_side, game_state, red_time_ms, black_time_ms, opponent_id) = match core.rooms.get(room_id) {
            Some(room) => {
                if !room.has_player(player_id) {
                    return Some(error(ErrorCode::NotInRoom, "不在该房间中"));
                }
                let your_side = match room.get_player_side(player_id) {
                    Some(side) => side,
                    None => return None,
                };
                let game_state = match room.game_state {
                    Some(gs) => gs,
                    None => return None,
                };
                let (red_time_ms, black_time_ms) = match &room.timer {
                    Some(timer) => (timer.red_time_ms(), timer.black_time_ms()),
                    None => (0, 0),
                };
                (your_side, game_state, red_time_ms, black_time_ms, room.get_opponent_id(player_id))
            },
            None => return None,
        };
        core.players.reconnect(player_id);
        match core.rooms.get_mut(room_id) {
            Some(room) => {
                let t = room.timer.take();
                if let Some(mut timer) = t {
                    if timer.current_turn() == your_side && !timer.is_paused() {
                        timer.reset_turn_start();
                    }
                    room.timer = Some(timer);
                }
            },
            None => return None,
        }
        if let Some(opponent_id) = opponent_id {
            pending.send(opponent_id, ServerMessage::OpponentReconnected);
        } else {
            assert(pending.sent() =~= sent0 + Seq::<(u64, MessageView)>::empty());
        }
        proof {
            let after = core.rooms.rooms();
            assert(after == rooms0.update(i, after[i]));
            lemma_update_keeps_wf(*old(core), rooms0, i, after[i]);
        }
        Some(
            ServerMessage::ReconnectSuccess {
                room_id,
                game_state,
                your_side,
                red_time_ms,
                black_time_ms,
            },
        )
    }

    /// A player's connection dropped: a player in a room is marked disconnected, its opponent
    /// is told how long it has to come back, and a game against the computer is paused.
    /// Returns the room kept for the player (the caller starts its countdown).
    pub fn handle_disconnect(core: &mut ServerCore, pending: &mut Outbox, player_id: u64) -> (r: Option<u64>)
        requires
            old(core).wf(),
        ensures
            final(core).wf(),
            final(pending).cast() == old(pending).cast(),
            final(core).players.next_id() == old(core).players.next_id(),
            final(core).rooms.next_id() == old(core).rooms.next_id(),
            r == disconnect_room(old(core).players.players(), player_id),
            final(core).players.players() == disconnected(old(core).players.players(), player_id),
            ({
                let rooms = old(core).rooms.rooms();
                match r {
                    None => final(core).rooms.rooms() == rooms && final(pending).sent() == old(pending).sent(),
                    Some(room_id) => match room_index_from(rooms, room_id, 0) {
                        None => final(core).rooms.rooms() == rooms && final(pending).sent() == old(pending).sent(),
                        Some(i) => {
                            let room = rooms[i];
                            &&& final(pending).sent() == old(pending).sent() + match opponent_in(room, player_id) {
                                Some(o) => seq![(o, MessageView::OpponentDisconnected { timeout_secs: DISCONNECT_TIMEOUT_SECS })],
                                None => Seq::empty(),
                            }
                            &&& if room.room_type is PvE {
                                &&& final(core).rooms.rooms() == rooms.update(i, final(core).rooms.rooms()[i])
                                &&& paused_room(room, final(core).rooms.rooms()[i])
                            } else {
                                final(core).rooms.rooms() == rooms
                            }
                        },
                    },
                }
            }),
    {
        let ghost rooms0 = core.rooms.rooms();
        let ghost sent0 = pending.sent();
        let room_id = match core.players.disconnect(player_id) {
            Some(id) => id,
            None => return None,
        };
        proof {
            lemma_room_index(rooms0, room_id, 0);
        }
        let ghost i = room_index_from(rooms0, room_id, 0)->0;
        let (opponent_id, is_pve) = match core.rooms.get(room_id) {
            Some(room) => (room.get_opponent_id(player_id), matches!(room.room_type, RoomType::PvE(_))),
            None => return Some(room_id),
        };
        if let Some(opponent_id) = opponent_id {
            pending.send(opponent_id, ServerMessage::OpponentDisconnected { timeout_secs: DISCONNECT_TIMEOUT_SECS });
        } else {
            assert(pending.sent() =~= sent0 + Seq::<(u64, MessageView)>::empty());
        }
        if is_pve {
            match core.rooms.get_mut(room_id) {
                Some(room) => {
                    room.pause();
                },
                None => return Some(room_id),
            }
            proof {
                let after = core.rooms.rooms();
                assert(after == rooms0.update(i, after[i]));
                lemma_update_keeps_wf(*old(core), rooms0, i, after[i]);
            }
        }
        Some(room_id)
    }

    /// A disconnected player did not come back in time: a game it was playing is lost (the
    /// opponent is told) and the player is removed.
    pub fn expire_disconnected(core: &mut ServerCore, pending: &mut Outbox, player_id: u64)
        requires
            old(core).wf(),
        ensures
            final(core).wf(),
            final(pending).cast() == old(pending).cast(),
            final(core).players.next_id() == old(core).players.next_id(),
            final(core).rooms.next_id() == old(core).rooms.next_id(),
            final(core).players.players() == (if holds_id(old(core).players.players(), player_id) {
                old(core).players.players().remove(
                    crate::server::player::position_of(old(core).players.players(), player_id),
                )
            } else {
                old(core).players.players()
            }),
            ({
                let rooms = old(core).rooms.rooms();
                match crate::server::room::seat_index_from(rooms, player_id, 0) {
                    Some(i) if rooms[i].state == RoomState::Playing => {
                        let room = rooms[i];
                        let result = loss_for(side_in(room, player_id)->0, WinReason::Disconnect);
                        &&& final(core).rooms.rooms() == rooms.update(i, final(core).rooms.rooms()[i])
                        &&& finished_room(room, final(core).rooms.rooms()[i])
                        &&& final(pending).sent() == old(pending).sent() + match opponent_in(room, player_id) {
                            Some(o) => seq![(o, MessageView::GameOver { result })],
                            None => Seq::empty(),
                        }
                    },
                    _ => final(core).rooms.rooms() == rooms && final(pending).sent() == old(pending).sent(),
                }
            }),
    {
        let ghost rooms0 = core.rooms.rooms();
        let ghost sent0 = pending.sent();
        proof {
            lemma_seat_room(*old(core), player_id);
        }
        if let Some(room_id) = core.rooms.find_player_room(player_id) {
            let ghost i = crate::server::room::seat_index_from(rooms0, player_id, 0)->0;
            let (playing, side, opponent_id) = match core.rooms.get(room_id) {
                Some(room) => (room.state == RoomState::Playing, room.get_player_side(player_id), room.get_opponent_id(player_id)),
                None => (false, None, None),
            };
            if playing {
                if let Some(side) = side {
                    let result = loss(side, WinReason::Disconnect);
                    if let Some(room) = core.rooms.get_mut(room_id) {
                        room.finish(result);
                    }
                    if let Some(opponent_id) = opponent_id {
                        pending.send(opponent_id, ServerMessage::GameOver { result });
                    } else {
                        assert(pending.sent() =~= sent0 + Seq::<(u64, MessageView)>::empty());
                    }
                    proof {
                        let after = core.rooms.rooms();
                        assert(after == rooms0.update(i, after[i]));
                        lemma_update_keeps_wf(*old(core), rooms0, i, after[i]);
                    }
                }
            }
        }
        core.players.remove(player_id);
    }

    /// A player resigns the game being played in its room; both players hear the result.
    pub fn handle_resign(core: &mut ServerCore, pending: &mut Outbox, player_id: u64) -> (r: Option<ServerMessage>)
        requires
            old(core).wf(),
        ensures
            final(core).wf(),
            final(pending).sent() == old(pending).sent(),
            final(core).players == old(core).players,
            final(core).rooms.next_id() == old(core).rooms.next_id(),
            ({
                let rooms = old(core).rooms.rooms();
                match crate::server::room::seat_index_from(rooms, player_id, 0) {
                    None => r is None && final(core).rooms.rooms() == rooms && final(pending).cast() == old(pending).cast(),
                    Some(i) => {
                        let room = rooms[i];
                        if room.state != RoomState::Playing {
                            &&& r matches Some(m) && m@ == error_view(ErrorCode::GameNotStarted, "游戏未开始"@)
                            &&& final(core).rooms.rooms() == rooms
                            &&& final(pending).cast() == old(pending).cast()
                        } else {
                            let result = loss_for(side_in(room, player_id)->0, WinReason::Resign);
                            &&& r is None
                            &&& final(core).rooms.rooms() == rooms.update(i, final(core).rooms.rooms()[i])
                            &&& finished_room(room, final(core).rooms.rooms()[i])
                            &&& final(pending).cast() == old(pending).cast().push((room.id, MessageView::GameOver { result }))
                        }
                    },
                }
            }),
    {
        let ghost rooms0 = core.rooms.rooms();
        proof {
            lemma_seat_room(*old(core), player_id);
        }
        let room_id = match core.rooms.find_player_room(player_id) {
            Some(id) => id,
            None => return None,
        };
        let ghost i = crate::server::room::seat_index_from(rooms0, player_id, 0)->0;
        let (playing, side) = match core.rooms.get(room_id) {
            Some(room) => (room.state == RoomState::Playing, room.get_player_side(player_id)),
            None => return None,
        };
        if !playing {
            return Some(error(ErrorCode::GameNotStarted, "游戏未开始"));
        }
        let side = match side {
            Some(side) => side,
            None => return None,
        };
        let result = loss(side, WinReason::Resign);
        match core.rooms.get_mut(room_id) {
            Some(room) => room.finish(result),
            None => return None,
        }
        pending.broadcast(room_id, ServerMessage::GameOver { result });
        proof {
            let after = core.rooms.rooms();
            assert(after == rooms0.update(i, after[i]));
            lemma_update_keeps_wf(*old(core), rooms0, i, after[i]);
        }
        None
    }

    /// Pauses the player's game against the computer.
    pub fn handle_pause(core: &mut ServerCore, player_id: u64) -> (r: Option<ServerMessage>)
        requires
            old(core).wf(),
        ensures
            final(core).wf(),
            final(core).players == old(core).players,
            final(core).rooms.next_id() == old(core).rooms.next_id(),
            ({
                let rooms = old(core).rooms.rooms();
                match crate::server::room::seat_index_from(rooms, player_id, 0) {
                    None => r is None && final(core).rooms.rooms() == rooms,
                    Some(i) => {
                        let room = rooms[i];
                        &&& final(core).rooms.rooms() == rooms.update(i, final(core).rooms.rooms()[i])
                        &&& paused_room(room, final(core).rooms.rooms()[i])
                        &&& r matches Some(m) && m@ == if room.room_type is PvE && room.state == RoomState::Playing {
                            MessageView::GamePaused
                        } else {
                            error_view(ErrorCode::GameNotStarted, "无法暂停"@)
                        }
                    },
                }
            }),
    {
        let ghost rooms0 = core.rooms.rooms();
        proof {
            lemma_seat_room(*old(core), player_id);
        }
        let room_id = match core.rooms.find_player_room(player_id) {
            Some(id) => id,
            None => return None,
        };
        let ghost i = crate::server::room::seat_index_from(rooms0, player_id, 0)->0;
        let done = match core.rooms.get_mut(room_id) {
            Some(room) => room.pause(),
            None => return None,
        };
        proof {
            let after = core.rooms.rooms();
            assert(after == rooms0.update(i, after[i]));
            lemma_update_keeps_wf(*old(core), rooms0, i, after[i]);
        }
        if done {
            Some(ServerMessage::GamePaused)
        } else {
            Some(error(ErrorCode::GameNotStarted, "无法暂停"))
        }
    }

    /// Resumes the player's paused game against the computer.
    pub fn handle_resume(core: &mut ServerCore, player_id: u64) -> (r: Option<ServerMessage>)
        requires
            old(core).wf(),
        ensures
            final(core).wf(),
            final(core).players == old(core).players,
            final(core).rooms.next_id() == old(core).rooms.next_id(),
            ({
                let rooms = old(core).rooms.rooms();
                match crate::server::room::seat_index_from(rooms, player_id, 0) {
                    None => r is None && final(core).rooms.rooms() == rooms,
                    Some(i) => {
                        let room = rooms[i];
                        &&& final(core).rooms.rooms() == rooms.update(i, final(core).rooms.rooms()[i])
                        &&& resumed_room(room, final(core).rooms.rooms()[i])
                        &&& r matches Some(m) && m@ == if room.room_type is PvE && room.state == RoomState::Paused {
                            MessageView::GameResumed
                        } else {
                            error_view(ErrorCode::GameNotStarted, "无法继续"@)
                        }
                    },
                }
            }),
    {
        let ghost rooms0 = core.rooms.rooms();
        proof {
            lemma_seat_room(*old(core), player_id);
        }
        let room_id = match core.rooms.find_player_room(player_id) {
            Some(id) => id,
            None => return None,
        };
        let ghost i = crate::server::room::seat_index_from(rooms0, player_id, 0)->0;
        let done = match core.rooms.get_mut(room_id) {
            Some(room) => room.resume(),
            None => return None,
        };
        proof {
            let after = core.rooms.rooms();
            assert(after == rooms0.update(i, after[i]));
            lemma_update_keeps_wf(*old(core), rooms0, i, after[i]);
        }
        if done {
            Some(ServerMessage::GameResumed)
        } else {
            Some(error(ErrorCode::GameNotStarted, "无法继续"))
        }
    }

    /// A player asks to take back a move of the game being played. Against the computer the
    /// last two moves (the player's and the computer's; one when only one was played) are
    /// taken back at once; between players the opponent is asked.
    pub fn handle_request_undo(core: &mut ServerCore, pending: &mut Outbox, player_id: u64) -> (r: Option<ServerMessage>)
        requires
            old(core).wf(),
        ensures
            final(core).wf(),
            final(pending).cast() == old(pending).cast(),
            final(core).players == old(core).players,
            final(core).rooms.next_id() == old(core).rooms.next_id(),
            ({
                let rooms = old(core).rooms.rooms();
                match crate::server::room::seat_index_from(rooms, player_id, 0) {
                    None => r is None && final(core).rooms.rooms() == rooms && final(pending).sent() == old(pending).sent(),
                    Some(i) => {
                        let room = rooms[i];
                        let after = final(core).rooms.rooms()[i];
                        if room.state != RoomState::Playing {
                            &&& r matches Some(m) && m@ == error_view(ErrorCode::GameNotStarted, "游戏未开始"@)
                            &&& final(core).rooms.rooms() == rooms
                            &&& final(pending).sent() == old(pending).sent()
                        } else if room.move_history@.len() == 0 {
                            &&& r matches Some(m) && m@ == error_view(ErrorCode::UndoNotAllowed, "没有可悔的棋"@)
                            &&& final(core).rooms.rooms() == rooms
                            &&& final(pending).sent() == old(pending).sent()
                        } else if room.room_type is PvE {
                            &&& final(core).rooms.rooms() == rooms.update(i, after)
                            &&& final(pending).sent() == old(pending).sent()
                            &&& exists|mid: Room| {
                                &&& #[trigger] undo_effect(room, mid)
                                &&& if undo_ok(room) && room.move_history@.len() >= 2 {
                                    undo_effect(mid, after)
                                } else {
                                    after == mid
                                }
                                &&& r matches Some(m) && m@ == if undo_ok(room) {
                                    MessageView::UndoApproved { new_state: after.game_state->0 }
                                } else {
                                    error_view(ErrorCode::UndoNotAllowed, "悔棋失败"@)
                                }
                            }
                        } else {
                            let side = side_in(room, player_id)->0;
                            &&& r is None
                            &&& final(core).rooms.rooms() == rooms.update(i, after)
                            &&& with_request(room, after, Some(side))
                            &&& final(pending).sent() == old(pending).sent() + match opponent_in(room, player_id) {
                                Some(o) => seq![(o, MessageView::UndoRequested { by: side })],
                                None => Seq::empty(),
                            }
                        }
                    },
                }
            }),
    {
        let ghost rooms0 = core.rooms.rooms();
        let ghost sent0 = pending.sent();
        proof {
            lemma_seat_room(*old(core), player_id);
        }
        let room_id = match core.rooms.find_player_room(player_id) {
            Some(id) => id,
            None => return None,
        };
        let ghost i = crate::server::room::seat_index_from(rooms0, player_id, 0)->0;
        let (playing, no_moves, side, is_pve, opponent_id) = match core.rooms.get(room_id) {
            Some(room) => (
                room.state == RoomState::Playing,
                room.move_history.len() == 0,
                room.get_player_side(player_id),
                matches!(room.room_type, RoomType::PvE(_)),
                room.get_opponent_id(player_id),
            ),
            None => return None,
        };
        if !playing {
            return Some(error(ErrorCode::GameNotStarted, "游戏未开始"));
        }
        if no_moves {
            return Some(error(ErrorCode::UndoNotAllowed, "没有可悔的棋"));
        }
        let player_side = match side {
            Some(side) => side,
            None => return None,
        };
        if is_pve {
            let ghost mut room0 = rooms0[i];
            let ghost mut mid = rooms0[i];
            let mut first = false;
            let mut second = false;
            let reply = match core.rooms.get_mut(room_id) {
                Some(room) => {
                    proof {
                        room0 = *room;
                    }
                    let target: usize = if room.move_history.len() >= 2 { 2 } else { 1 };
                    first = room.undo_move().is_ok();
                    proof {
                        mid = *room;
                    }
                    if first && target == 2 {
                        second = room.undo_move().is_ok();
                    }
                    if first || second {
                        match room.game_state {
                            Some(gs) => Some(ServerMessage::UndoApproved { new_state: gs }),
                            None => None,
                        }
                    } else {
                        Some(error(ErrorCode::UndoNotAllowed, "悔棋失败"))
                    }
                },
                None => return None,
            };
            proof {
                let after = core.rooms.rooms();
                assert(after == rooms0.update(i, after[i]));
                lemma_update_keeps_wf(*old(core), rooms0, i, after[i]);
                assert(room0 == rooms0[i]);
                assert(undo_effect(room0, mid));
                assert(first == undo_ok(room0));
                assert(if first && rooms0[i].move_history@.len() >= 2 {
                    undo_effect(mid, after[i])
                } else {
                    after[i] == mid
                });
                if first {
                    assert(after[i].game_state is Some);
                }
            }
            return reply;
        }
        match core.rooms.get_mut(room_id) {
            Some(room) => {
                room.undo_requested_by = Some(player_side);
            },
            None => return None,
        }
        if let Some(opponent_id) = opponent_id {
            pending.send(opponent_id, ServerMessage::UndoRequested { by: player_side });
        } else {
            assert(pending.sent() =~= sent0 + Seq::<(u64, MessageView)>::empty());
        }
        proof {
            let after = core.rooms.rooms();
            assert(after == rooms0.update(i, after[i]));
            lemma_update_keeps_wf(*old(core), rooms0, i, after[i]);
        }
        None
    }

    /// A player answers a pending take-back request: when accepted, the last move is taken
    /// back and both players get the position; when refused, the requester is told. The
    /// request is cleared either way.
    pub fn handle_respond_undo(core: &mut ServerCore, pending: &mut Outbox, player_id: u64, accept: bool) -> (r: Option<ServerMessage>)
        requires
            old(core).wf(),
        ensures
            final(core).wf(),
            r is None,
            final(core).players == old(core).players,
            final(core).rooms.next_id() == old(core).rooms.next_id(),
            ({
                let rooms = old(core).rooms.rooms();
                let unchanged = final(core).rooms.rooms() == rooms && final(pending).sent() == old(pending).sent()
                    && final(pending).cast() == old(pending).cast();
                match crate::server::room::seat_index_from(rooms, player_id, 0) {
                    None => unchanged,
                    Some(i) => {
                        let room = rooms[i];
                        let after = final(core).rooms.rooms()[i];
                        match room.undo_requested_by {
                            None => unchanged,
                            Some(by) => match (if by == Side::Red { room.red_player } else { room.black_player }) {
                                None => unchanged,
                                Some(requester) => {
                                    &&& final(core).rooms.rooms() == rooms.update(i, after)
                                    &&& after.undo_requested_by is None
                                    &&& if accept {
                                        exists|mid: Room| {
                                            &&& #[trigger] undo_effect(room, mid)
                                            &&& with_request(mid, after, None)
                                            &&& final(pending).sent() == old(pending).sent()
                                            &&& final(pending).cast() == old(pending).cast() + if undo_ok(room) {
                                                seq![(room.id, MessageView::UndoApproved { new_state: mid.game_state->0 })]
                                            } else {
                                                Seq::empty()
                                            }
                                        }
                                    } else {
                                        &&& with_request(room, after, None)
                                        &&& final(pending).cast() == old(pending).cast()
                                        &&& final(pending).sent() == old(pending).sent().push((requester, MessageView::UndoRejected))
                                    }
                                },
                            },
                        }
                    },
                }
            }),
    {
        let ghost rooms0 = core.rooms.rooms();
        let ghost sent0 = pending.sent();
        let ghost cast0 = pending.cast();
        proof {
            lemma_seat_room(*old(core), player_id);
        }
        let room_id = match core.rooms.find_player_room(player_id) {
            Some(id) => id,
            None => return None,
        };
        let ghost i = crate::server::room::seat_index_from(rooms0, player_id, 0)->0;
        let requester_id = match core.rooms.get(room_id) {
            Some(room) => match room.undo_requested_by {
                Some(by) => match room.get_player_id(by) {
                    Some(id) => id,
                    None => return None,
                },
                None => return None,
            },
            None => return None,
        };
        match core.rooms.get_mut(room_id) {
            Some(room) => {
                let ghost room0 = *room;
                if accept {
                    let ok = room.undo_move().is_ok();
                    let ghost mid = *room;
                    if ok {
                        match room.game_state {
                            Some(gs) => pending.broadcast(room_id, ServerMessage::UndoApproved { new_state: gs }),
                            None => {},
                        }
                    } else {
                        assert(pending.cast() =~= cast0 + Seq::<(u64, MessageView)>::empty());
                    }
                    room.undo_requested_by = None;
                    assert(undo_effect(room0, mid) && ok == undo_ok(room0) && with_request(mid, *room, None));
                } else {
                    pending.send(requester_id, ServerMessage::UndoRejected);
                    room.undo_requested_by = None;
                }
            },
            None => return None,
        }
        proof {
            let after = core.rooms.rooms();
            assert(after == rooms0.update(i, after[i]));
            lemma_update_keeps_wf(*old(core), rooms0, i, after[i]);
        }
        None
    }

    /// A player moves in its room: the game must be played, it must be the player's turn and
    /// `legal_moves` (the legal moves of the position) must hold the move. Returns the room's
    /// id when the move was played, else the reply to send (if any).
    pub fn handle_make_move(
        core: &mut ServerCore,
        player_id: u64,
        from: Position,
        to: Position,
        legal_moves: &Vec<Move>,
    ) -> (r: Result<u64, Option<ServerMessage>>)
        requires
            old(core).wf(),
            moves_on_board(legal_moves@),
            counts_below_max(old(core).rooms.rooms()),
        ensures
            final(core).wf(),
            final(core).players == old(core).players,
            final(core).rooms.next_id() == old(core).rooms.next_id(),
            ({
                let rooms = old(core).rooms.rooms();
                let mv = Move { from, to, captured: None };
                match crate::server::room::seat_index_from(rooms, player_id, 0) {
                    None => r == Err::<u64, Option<ServerMessage>>(None) && final(core).rooms.rooms() == rooms,
                    Some(i) => {
                        let room = rooms[i];
                        if room.state != RoomState::Playing {
                            &&& r matches Err(Some(m)) && m@ == error_view(ErrorCode::GameNotStarted, "游戏未开始"@)
                            &&& final(core).rooms.rooms() == rooms
                        } else if room.game_state is None {
                            r == Err::<u64, Option<ServerMessage>>(None) && final(core).rooms.rooms() == rooms
                        } else if room.game_state->0.current_turn != side_in(room, player_id)->0 {
                            &&& r matches Err(Some(m)) && m@ == error_view(ErrorCode::NotYourTurn, "不是你的回合"@)
                            &&& final(core).rooms.rooms() == rooms
                        } else if !listed(legal_moves@, mv) {
                            &&& r matches Err(Some(m)) && m@ == error_view(ErrorCode::InvalidMove, crate::server::room::INVALID_MOVE@)
                            &&& final(core).rooms.rooms() == rooms
                        } else {
                            &&& r == Ok::<u64, Option<ServerMessage>>(room.id)
                            &&& final(core).rooms.rooms() == rooms.update(i, final(core).rooms.rooms()[i])
                            &&& room.played(mv, final(core).rooms.rooms()[i])
                        }
                    },
                }
            }),
    {
        let ghost rooms0 = core.rooms.rooms();
        proof {
            lemma_seat_room(*old(core), player_id);
        }
        let room_id = match core.rooms.find_player_room(player_id) {
            Some(id) => id,
            None => return Err(None),
        };
        let ghost i = crate::server::room::seat_index_from(rooms0, player_id, 0)->0;
        let (playing, side, turn) = match core.rooms.get(room_id) {
            Some(room) => (
                room.state == RoomState::Playing,
                room.get_player_side(player_id),
                match room.game_state {
                    Some(gs) => Some(gs.current_turn),
                    None => None,
                },
            ),
            None => return Err(None),
        };
        if !playing {
            return Err(Some(error(ErrorCode::GameNotStarted, "游戏未开始")));
        }
        let player_side = match side {
            Some(side) => side,
            None => return Err(None),
        };
        let turn = match turn {
            Some(turn) => turn,
            None => return Err(None),
        };
        if turn != player_side {
            return Err(Some(error(ErrorCode::NotYourTurn, "不是你的回合")));
        }
        let mv = Move::new(from, to);
        let played = match core.rooms.get_mut(room_id) {
            Some(room) => {
                proof {
                    assert(*room == rooms0[i]);
                }
                room.make_move(mv, legal_moves)
            },
            None => return Err(None),
        };
        proof {
            let after = core.rooms.rooms();
            assert(after == rooms0.update(i, after[i]));
            lemma_update_keeps_wf(*old(core), rooms0, i, after[i]);
        }
        match played {
            Ok(()) => Ok(room_id),
            Err(msg) => Err(Some(error(ErrorCode::InvalidMove, msg))),
        }
    }

    /// Tells both players of a move just played in the room `room_id`: the move with its
    /// notation and the new position, the times, and the result when the game is over
    /// (decided from whether the side to move has a legal move and is in check). Returns
    /// the difficulty when the computer is to answer.
    pub fn announce_move(
        core: &mut ServerCore,
        pending: &mut Outbox,
        room_id: u64,
        from: Position,
        to: Position,
        notation: String,
        has_legal_move: bool,
        in_check: bool,
    ) -> (r: Option<Difficulty>)
        requires
            old(core).wf(),
        ensures
            final(core).wf(),
            final(core).players == old(core).players,
            final(core).rooms.next_id() == old(core).rooms.next_id(),
            final(pending).sent() == old(pending).sent(),
            ({
                let rooms = old(core).rooms.rooms();
                match room_index_from(rooms, room_id, 0) {
                    None => r is None && final(core).rooms.rooms() == rooms && final(pending).cast() == old(pending).cast(),
                    Some(i) => {
                        let room = rooms[i];
                        if room.game_state is None {
                            r is None && final(core).rooms.rooms() == rooms && final(pending).cast() == old(pending).cast()
                        } else {
                            exists|red_ms: u64, black_ms: u64| {
                                let verdict = room_verdict(room, has_legal_move, in_check, red_ms, black_ms);
                                &&& #[trigger] readable_times(room, red_ms, black_ms)
                                &&& final(pending).cast() == old(pending).cast() + seq![
                                    (room_id, MessageView::MoveMade { from, to, new_state: room.game_state->0, notation: notation@ }),
                                    (room_id, MessageView::TimeUpdate { red_time_ms: red_ms, black_time_ms: black_ms }),
                                ] + match verdict {
                                    Some(result) => seq![(room_id, MessageView::GameOver { result })],
                                    None => Seq::empty(),
                                }
                                &&& match verdict {
                                    Some(_) => {
                                        &&& r is None
                                        &&& final(core).rooms.rooms() == rooms.update(i, final(core).rooms.rooms()[i])
                                        &&& finished_room(room, final(core).rooms.rooms()[i])
                                    },
                                    None => {
                                        &&& final(core).rooms.rooms() == rooms
                                        &&& r == match room.room_type {
                                            RoomType::PvE(d) => Some(d),
                                            RoomType::PvP => None,
                                        }
                                    },
                                }
                            }
                        }
                    },
                }
            }),
    {
        let ghost rooms0 = core.rooms.rooms();
        let ghost cast0 = pending.cast();
        proof {
            lemma_room_index(rooms0, room_id, 0);
        }
        let ghost i = room_index_from(rooms0, room_id, 0)->0;
        let (new_state, red_time_ms, black_time_ms, game_over, room_type) = match core.rooms.get(room_id) {
            Some(room) => {
                let new_state = match room.game_state {
                    Some(gs) => gs,
                    None => return None,
                };
                let (red_time_ms, black_time_ms) = match &room.timer {
                    Some(timer) => (timer.red_time_ms(), timer.black_time_ms()),
                    None => (0, 0),
                };
                let times = if room.timer.is_some() {
                    Some((red_time_ms, black_time_ms))
                } else {
                    None
                };
                let game_over = crate::server::room::game_over_verdict(
                    new_state.current_turn,
                    has_legal_move,
                    in_check,
                    times,
                    new_state.no_capture_count,
                );
                (new_state, red_time_ms, black_time_ms, game_over, room.room_type)
            },
            None => return None,
        };
        pending.broadcast(room_id, ServerMessage::MoveMade { from, to, new_state, notation });
        pending.broadcast(room_id, ServerMessage::TimeUpdate { red_time_ms, black_time_ms });
        proof {
            assert(readable_times(rooms0[i], red_time_ms, black_time_ms));
        }
        if let Some(result) = game_over {
            match core.rooms.get_mut(room_id) {
                Some(room) => room.finish(result),
                None => return None,
            }
            pending.broadcast(room_id, ServerMessage::GameOver { result });
            proof {
                let after = core.rooms.rooms();
                assert(after == rooms0.update(i, after[i]));
                lemma_update_keeps_wf(*old(core), rooms0, i, after[i]);
                assert(pending.cast() =~= cast0 + seq![
                    (room_id, MessageView::MoveMade { from, to, new_state: rooms0[i].game_state->0, notation: notation@ }),
                    (room_id, MessageView::TimeUpdate { red_time_ms, black_time_ms }),
                ] + seq![(room_id, MessageView::GameOver { result })]);
            }
            return None;
        }
        proof {
            assert(pending.cast() =~= cast0 + seq![
                (room_id, MessageView::MoveMade { from, to, new_state: rooms0[i].game_state->0, notation: notation@ }),
                (room_id, MessageView::TimeUpdate { red_time_ms, black_time_ms }),
            ] + Seq::<(u64, MessageView)>::empty());
        }
        match room_type {
            RoomType::PvE(difficulty) => Some(difficulty),
            RoomType::PvP => None,
        }
    }

    /// Plays the computer's move in the room `room_id` while its game is played; an illegal
    /// move loses the game for the computer (Red wins by resignation), which both players
    /// hear. The clock of the player then starts afresh. Returns whether the move was played.
    pub fn apply_ai_move(
        core: &mut ServerCore,
        pending: &mut Outbox,
        room_id: u64,
        ai_move: Move,
        legal_moves: &Vec<Move>,
    ) -> (r: bool)
        requires
            old(core).wf(),
            moves_on_board(legal_moves@),
            counts_below_max(old(core).rooms.rooms()),
        ensures
            final(core).wf(),
            final(core).players == old(core).players,
            final(core).rooms.next_id() == old(core).rooms.next_id(),
            final(pending).sent() == old(pending).sent(),
            ({
                let rooms = old(core).rooms.rooms();
                match room_index_from(rooms, room_id, 0) {
                    Some(i) if rooms[i].state == RoomState::Playing => {
                        let room = rooms[i];
                        let after = final(core).rooms.rooms()[i];
                        &&& final(core).rooms.rooms() == rooms.update(i, after)
                        &&& if room.game_state is Some && listed(legal_moves@, ai_move) {
                            &&& r
                            &&& final(pending).cast() == old(pending).cast()
                            &&& exists|played: Room| {
                                &&& #[trigger] room.played(ai_move, played)
                                &&& after.same_seating(played)
                                &&& after.game_state == played.game_state
                                &&& after.move_history@ == played.move_history@
                                &&& after.no_capture_history@ == played.no_capture_history@
                                &&& after.undo_requested_by == played.undo_requested_by
                                &&& match played.timer {
                                    Some(t) => after.timer matches Some(u) && timer_restarted(t, u),
                                    None => after.timer is None,
                                }
                            }
                        } else {
                            &&& !r
                            &&& finished_room(room, after)
                            &&& final(pending).cast() == old(pending).cast().push(
                                (room_id, MessageView::GameOver { result: GameResult::RedWin(WinReason::Resign) }),
                            )
                        }
                    },
                    _ => !r && final(core).rooms.rooms() == rooms && final(pending).cast() == old(pending).cast(),
                }
            }),
    {
        let ghost rooms0 = core.rooms.rooms();
        proof {
            lemma_room_index(rooms0, room_id, 0);
        }
        let ghost i = room_index_from(rooms0, room_id, 0)->0;
        let playing = match core.rooms.get(room_id) {
            Some(room) => room.state == RoomState::Playing,
            None => return false,
        };
        if !playing {
            return false;
        }
        let ghost mut played_room = rooms0[i];
        let ok = match core.rooms.get_mut(room_id) {
            Some(room) => {
                let mut mv = ai_move;
                mv.captured = None;
                if room.make_move(ai_move, legal_moves).is_err() {
                    let result = GameResult::RedWin(WinReason::Resign);
                    room.finish(result);
                    pending.broadcast(room_id, ServerMessage::GameOver { result });
                    false
                } else {
                    proof {
                        played_room = *room;
                    }
                    let t = room.timer.take();
                    if let Some(mut timer) = t {
                        timer.reset_turn_start();
                        room.timer = Some(timer);
                    }
                    true
                }
            },
            None => return false,
        };
        proof {
            let after = core.rooms.rooms();
            assert(after == rooms0.update(i, after[i]));
            lemma_update_keeps_wf(*old(core), rooms0, i, after[i]);
        }
        ok
    }

    /// The computer found no move: while the game is played it is lost by the computer (Red
    /// wins by resignation), which both players hear.
    pub fn ai_loses(core: &mut ServerCore, pending: &mut Outbox, room_id: u64)
        requires
            old(core).wf(),
        ensures
            final(core).wf(),
            final(core).players == old(core).players,
            final(core).rooms.next_id() == old(core).rooms.next_id(),
            final(pending).sent() == old(pending).sent(),
            ({
                let rooms = old(core).rooms.rooms();
                match room_index_from(rooms, room_id, 0) {
                    Some(i) if rooms[i].state == RoomState::Playing => {
                        &&& final(core).rooms.rooms() == rooms.update(i, final(core).rooms.rooms()[i])
                        &&& finished_room(rooms[i], final(core).rooms.rooms()[i])
                        &&& final(pending).cast() == old(pending).cast().push(
                            (room_id, MessageView::GameOver { result: GameResult::RedWin(WinReason::Resign) }),
                        )
                    },
                    _ => final(core).rooms.rooms() == rooms && final(pending).cast() == old(pending).cast(),
                }
            }),
    {
        let ghost rooms0 = core.rooms.rooms();
        proof {
            lemma_room_index(rooms0, room_id, 0);
        }
        let ghost i = room_index_from(rooms0, room_id, 0)->0;
        match core.rooms.get_mut(room_id) {
            Some(room) => {
                if room.state != RoomState::Playing {
                    return;
                }
                let result = GameResult::RedWin(WinReason::Resign);
                room.finish(result);
                pending.broadcast(room_id, ServerMessage::GameOver { result });
            },
            None => return,
        }
        proof {
            let after = core.rooms.rooms();
            assert(after == rooms0.update(i, after[i]));
            lemma_update_keeps_wf(*old(core), rooms0, i, after[i]);
        }
    }

    /// Gathers what saving the game of the player's room needs; refuses a room whose game is
    /// neither played nor paused, or has no position.
    pub fn prepare_save(core: &ServerCore, player_id: u64) -> (r: Result<SaveRequest, Option<ServerMessage>>)
        requires
            core.wf(),
        ensures
            ({
                let rooms = core.rooms.rooms();
                let players = core.players.players();
                match crate::server::room::seat_index_from(rooms, player_id, 0) {
                    None => r matches Err(None),
                    Some(i) => {
                        let room = rooms[i];
                        if room.state != RoomState::Playing && room.state != RoomState::Paused {
                            r matches Err(Some(m)) && m@ == error_view(ErrorCode::GameNotStarted, "只能保存进行中的棋局"@)
                        } else if room.game_state is None {
                            r matches Err(Some(m)) && m@ == error_view(ErrorCode::GameNotStarted, "无法生成棋谱"@)
                        } else {
                            r matches Ok(req) && {
                                &&& req.room_id == room.id
                                &&& req.red_name@ == seat_label(players, room.red_player)
                                &&& req.black_name@ == seat_label(players, room.black_player)
                                &&& readable_times(room, req.red_time_ms, req.black_time_ms)
                                &&& match room.room_type {
                                    RoomType::PvE(d) => req.ai_difficulty matches Some(l) && l@ == difficulty_label_spec(d),
                                    RoomType::PvP => req.ai_difficulty is None,
                                }
                                &&& req.game_state == room.game_state->0
                                &&& req.moves@ == room.move_history@
                            }
                        }
                    },
                }
            }),
    {
        proof {
            lemma_seat_room(*core, player_id);
        }
        let room_id = match core.rooms.find_player_room(player_id) {
            Some(id) => id,
            None => return Err(None),
        };
        let room = match core.rooms.get(room_id) {
            Some(room) => room,
            None => return Err(None),
        };
        if room.state != RoomState::Playing && room.state != RoomState::Paused {
            return Err(Some(error(ErrorCode::GameNotStarted, "只能保存进行中的棋局")));
        }
        let red_name = match room.red_player {
            Some(id) => if id == AI_PLAYER_ID {
                "AI".to_owned()
            } else {
                name_or_default(&core.players, id, "未知")
            },
            None => "空".to_owned(),
        };
        let black_name = match room.black_player {
            Some(id) => if id == AI_PLAYER_ID {
                "AI".to_owned()
            } else {
                name_or_default(&core.players, id, "未知")
            },
            None => "空".to_owned(),
        };
        let game_state = match room.game_state {
            Some(gs) => gs,
            None => return Err(Some(error(ErrorCode::GameNotStarted, "无法生成棋谱"))),
        };
        let (red_time_ms, black_time_ms) = room.get_time_state();
        let ai_difficulty = match room.room_type {
            RoomType::PvE(d) => Some(difficulty_label(d)),
            RoomType::PvP => None,
        };
        let moves = room.move_history.clone();
        Ok(SaveRequest { room_id, red_name, black_name, red_time_ms, black_time_ms, ai_difficulty, game_state, moves })
    }

    /// Starts restoring a saved game for a player in no room: a room of `room_type` with
    /// the player on Red (unless Red is the computer) and the computer on the other seat when
    /// named `AI`, and a game from the starting position. Returns the room and the player's
    /// side, or the refusal of a player already in a room.
    pub fn begin_loaded_game(
        core: &mut ServerCore,
        player_id: u64,
        red_player: &str,
        black_player: &str,
        room_type: RoomType,
    ) -> (r: Result<(u64, Side), ServerMessage>)
        requires
            old(core).wf(),
            old(core).rooms.next_id() < u64::MAX,
        ensures
            final(core).wf(),
            final(core).players == old(core).players,
            ({
                let rooms = old(core).rooms.rooms();
                if crate::server::room::seat_index_from(rooms, player_id, 0) is Some {
                    &&& r matches Err(m) && m@ == error_view(ErrorCode::AlreadyInRoom, "请先离开当前房间"@)
                    &&& final(core).rooms == old(core).rooms
                } else {
                    let id = old(core).rooms.next_id();
                    let side = if red_player@ != "AI"@ { Side::Red } else { Side::Black };
                    let room = final(core).rooms.rooms().last();
                    &&& r == Ok::<(u64, Side), ServerMessage>((id, side))
                    &&& final(core).rooms.next_id() == id + 1
                    &&& final(core).rooms.rooms().len() == rooms.len() + 1
                    &&& final(core).rooms.rooms().drop_last() == rooms
                    &&& room.id == id
                    &&& room.room_type == room_type
                    &&& room.red_player == (if side == Side::Red { Some(player_id) } else { Some(AI_PLAYER_ID) })
                    &&& room.black_player == (if side == Side::Black {
                        Some(player_id)
                    } else if black_player@ == "AI"@ {
                        Some(AI_PLAYER_ID)
                    } else {
                        None
                    })
                    &&& started(room)
                    &&& room.undo_requested_by is None
                }
            }),
    {
        if core.rooms.find_player_room(player_id).is_some() {
            return Err(error(ErrorCode::AlreadyInRoom, "请先离开当前房间"));
        }
        let ghost rooms0 = core.rooms.rooms();
        let room_id = core.rooms.create(room_type);
        let ghost mid = core.rooms.rooms();
        proof {
            assert forall|j: int| 0 <= j < rooms0.len() implies moves_on_board(
                #[trigger] mid[j].move_history@,
            ) by {
                assert(mid[j] == mid.drop_last()[j]);
            }
        }
        let room = match core.rooms.get_mut(room_id) {
            Some(room) => room,
            None => return Err(error(ErrorCode::InternalError, "")),
        };
        let your_side = if !crate::icons::str_eq(red_player, "AI") {
            room.red_player = Some(player_id);
            if crate::icons::str_eq(black_player, "AI") {
                room.black_player = Some(AI_PLAYER_ID);
            }
            Side::Red
        } else {
            room.black_player = Some(player_id);
            room.red_player = Some(AI_PLAYER_ID);
            Side::Black
        };
        room.start_game();
        Ok((room_id, your_side))
    }

    /// Replays one saved move in the restored room (`legal_moves`: the legal moves of its
    /// position). When the move cannot be played the room is removed and the reply tells
    /// that the record is damaged.
    pub fn replay_loaded_move(core: &mut ServerCore, room_id: u64, mv: Move, legal_moves: &Vec<Move>) -> (r: Option<ServerMessage>)
        requires
            old(core).wf(),
            moves_on_board(legal_moves@),
            counts_below_max(old(core).rooms.rooms()),
        ensures
            final(core).wf(),
            final(core).players == old(core).players,
            final(core).rooms.next_id() == old(core).rooms.next_id(),
            ({
                let rooms = old(core).rooms.rooms();
                match room_index_from(rooms, room_id, 0) {
                    None => r is None && final(core).rooms.rooms() == rooms,
                    Some(i) => {
                        let room = rooms[i];
                        if room.game_state is Some && listed(legal_moves@, mv) {
                            &&& r is None
                            &&& final(core).rooms.rooms() == rooms.update(i, final(core).rooms.rooms()[i])
                            &&& room.played(mv, final(core).rooms.rooms()[i])
                        } else {
                            &&& r matches Some(m) && m@ == error_view(ErrorCode::InternalError, "棋谱数据损坏"@)
                            &&& final(core).rooms.rooms() == rooms.remove(i)
                        }
                    },
                }
            }),
    {
        let ghost rooms0 = core.rooms.rooms();
        proof {
            lemma_room_index(rooms0, room_id, 0);
        }
        let ghost i = room_index_from(rooms0, room_id, 0)->0;
        let played = match core.rooms.get_mut(room_id) {
            Some(room) => room.make_move(mv, legal_moves).is_ok(),
            None => return None,
        };
        proof {
            let after = core.rooms.rooms();
            assert(after == rooms0.update(i, after[i]));
            lemma_update_keeps_wf(*old(core), rooms0, i, after[i]);
        }
        if !played {
            let ghost rooms1 = core.rooms.rooms();
            proof {
                assert forall|j: int| 0 <= j < i implies #[trigger] rooms1[j].id != room_id by {
                    assert(rooms1[j].id == rooms0[j].id);
                }
                crate::server::room::lemma_room_index_first(rooms1, room_id, i, 0);
            }
            core.rooms.remove(room_id);
            proof {
                let t = core.rooms.rooms();
                assert(t =~= rooms0.remove(i));
                assert forall|j: int| 0 <= j < t.len() implies moves_on_board(#[trigger] t[j].move_history@) by {
                    let j0 = if j < i { j } else { j + 1 };
                    assert(t[j] == rooms0[j0]);
                    assert(moves_on_board(rooms0[j0].move_history@));
                }
            }
            return Some(error(ErrorCode::InternalError, "棋谱数据损坏"));
        }
        None
    }

    /// Finishes restoring a saved game: the saved times are put on the clock, its turn
    /// restarts now, the player is in the room, and the reply carries the game.
    pub fn finish_loaded_game(
        core: &mut ServerCore,
        player_id: u64,
        room_id: u64,
        your_side: Side,
        red_time_ms: u64,
        black_time_ms: u64,
    ) -> (r: Option<ServerMessage>)
        requires
            old(core).wf(),
        ensures
            final(core).wf(),
            final(core).rooms.next_id() == old(core).rooms.next_id(),
            ({
                let rooms = old(core).rooms.rooms();
                match room_index_from(rooms, room_id, 0) {
                    None => r is None && final(core).rooms.rooms() == rooms && final(core).players == old(core).players,
                    Some(i) => {
                        let room = rooms[i];
                        let after = final(core).rooms.rooms()[i];
                        &&& final(core).rooms.rooms() == rooms.update(i, after)
                        &&& after.same_seating(room)
                        &&& after.game_state == room.game_state
                        &&& after.move_history@ == room.move_history@
                        &&& after.no_capture_history@ == room.no_capture_history@
                        &&& after.undo_requested_by == room.undo_requested_by
                        &&& match room.timer {
                            Some(t) => after.timer matches Some(u) && u.red_base() == red_time_ms
                                && u.black_base() == black_time_ms && u.turn() == t.turn()
                                && u.paused_state() == t.paused_state()
                                && u.running() == (t.running() || !t.paused_state()),
                            None => after.timer is None,
                        }
                        &&& final(core).players.players() == status_set(old(core).players.players(), player_id, PlayerStatus::InRoom(room_id))
                        &&& match room.game_state {
                            Some(gs) => r matches Some(m) && m@ == (MessageView::GameLoaded { room_id, game_state: gs, your_side }),
                            None => r is None,
                        }
                    },
                }
            }),
    {
        let ghost rooms0 = core.rooms.rooms();
        proof {
            lemma_room_index(rooms0, room_id, 0);
        }
        let ghost i = room_index_from(rooms0, room_id, 0)->0;
        let game_state = match core.rooms.get_mut(room_id) {
            Some(room) => {
                let t = room.timer.take();
                if let Some(mut timer) = t {
                    timer.set_times(red_time_ms, black_time_ms);
                    timer.reset_turn_start();
                    room.timer = Some(timer);
                }
                room.game_state
            },
            None => return None,
        };
        proof {
            let after = core.rooms.rooms();
            assert(after == rooms0.update(i, after[i]));
            lemma_update_keeps_wf(*old(core), rooms0, i, after[i]);
        }
        core.players.set_status(player_id, PlayerStatus::InRoom(room_id));
        match game_state {
            Some(gs) => Some(ServerMessage::GameLoaded { room_id, game_state: gs, your_side }),
            None => None,
        }
    }

    /// The list of rooms waiting for a second player, with their players' names.
    pub fn handle_list_rooms(core: &ServerCore) -> (r: Option<ServerMessage>)
        ensures
            r matches Some(m) && m@ == (MessageView::RoomList {
                rooms: joinable_upto(core.rooms.rooms(), core.rooms.rooms().len() as int).map_values(
                    |room: Room| info_view(room, core.players.players()),
                ),
            }),
    {
        let joinable = core.rooms.list_joinable();
        let ghost target = joinable_upto(core.rooms.rooms(), core.rooms.rooms().len() as int);
        let mut infos: Vec<RoomInfo> = Vec::new();
        let mut k: usize = 0;
        while k < joinable.len()
            invariant
                k <= joinable@.len(),
                joinable@.len() == target.len(),
                forall|j: int| 0 <= j < joinable@.len() ==> *joinable@[j] == target[j],
                infos@.len() == k,
                forall|j: int|
                    0 <= j < k ==> (#[trigger] infos@[j])@ == info_view(target[j], core.players.players()),
            decreases joinable@.len() - k,
        {
            let room = joinable[k];
            let red_name = seat_nickname(&core.players, room.red_player);
            let black_name = seat_nickname(&core.players, room.black_player);
            infos.push(room.info(red_name, black_name));
            k = k + 1;
        }
        assert(infos@.map_values(|r: RoomInfo| r@) =~= target.map_values(
            |room: Room| info_view(room, core.players.players()),
        ));
        Some(ServerMessage::RoomList { rooms: infos })
    }
}

/// What `MessageHandler::handle_login` promises: the state before (`core0`) and after (`core1`)
/// the call, and its reply `r`.
pub open spec fn login_outcome(core0: ServerCore, core1: ServerCore, nickname: String, r: Option<ServerMessage>) -> bool {
    &&& core1.wf()
    &&& core1.rooms == core0.rooms
    &&& match login_result(core0.players.players(), core0.players.next_id(), nickname@) {
        Ok(id) => {
            &&& r matches Some(m) && m@ == (MessageView::LoginSuccess { player_id: id })
            &&& core1.players.players() == core0.players.players().push(
                Player::new_spec(id, nickname),
            )
            &&& core1.players.next_id() == id + 1
        },
        Err(e) => {
            &&& r matches Some(m) && m@ == error_view(
                if e@ == NICKNAME_TAKEN@ {
                    ErrorCode::NicknameOccupied
                } else {
                    ErrorCode::InvalidNickname
                },
                e@,
            )
            &&& core1.players.players() == core0.players.players()
            &&& core1.players.next_id() == core0.players.next_id()
        },
    }
}

/// What `MessageHandler::handle_create_room` promises: the state before (`core0`) and after (`core1`)
/// the call, and its reply `r`.
pub open spec fn create_room_outcome(core0: ServerCore, core1: ServerCore, player_id: u64, room_type: RoomType, preferred_side: Option<Side>, r: Option<ServerMessage>) -> bool {
    &&& core1.wf()
    &&& in_room(core0.players.players(), player_id) ==> {
        &&& r matches Some(m) && m@ == error_view(ErrorCode::AlreadyInRoom, "已在房间中"@)
        &&& core1.players == core0.players
        &&& core1.rooms == core0.rooms
    }
    &&& !in_room(core0.players.players(), player_id) ==> {
        let id = core0.rooms.next_id();
        let side = creator_side(preferred_side);
        let room = core1.rooms.rooms().last();
        &&& core1.players.players() == status_set(
            core0.players.players(),
            player_id,
            PlayerStatus::InRoom(id),
        )
        &&& core1.players.next_id() == core0.players.next_id()
        &&& core1.rooms.next_id() == id + 1
        &&& core1.rooms.rooms().len() == core0.rooms.rooms().len() + 1
        &&& core1.rooms.rooms().drop_last() == core0.rooms.rooms()
        &&& created_room(room, id, room_type, player_id, side)
        &&& r matches Some(m) && m@ == match room_type {
            RoomType::PvP => MessageView::RoomCreated { room_id: id, your_side: side },
            RoomType::PvE(d) => MessageView::GameStarted {
                initial_state: room.game_state->0,
                your_side: side,
                red_player: if side == Side::Red {
                    name_or(core1.players.players(), player_id, "玩家"@)
                } else {
                    ai_name(d)
                },
                black_player: if side == Side::Black {
                    name_or(core1.players.players(), player_id, "玩家"@)
                } else {
                    ai_name(d)
                },
            },
        }
    }
}

/// What `MessageHandler::handle_join_room` promises: the state before (`core0`) and after (`core1`)
/// the call, the messages queued before (`out0`) and after (`out1`), and its reply `r`.
pub open spec fn join_room_outcome(core0: ServerCore, out0: Outbox, core1: ServerCore, out1: Outbox, player_id: u64, room_id: u64, r: Option<ServerMessage>) -> bool {
    &&& core1.wf()
    &&& out1.cast() == out0.cast()
    &&& core1.players.next_id() == core0.players.next_id()
    &&& core1.rooms.next_id() == core0.rooms.next_id()
    &&& ({
        let players = core0.players.players();
        let rooms = core0.rooms.rooms();
        if in_room(players, player_id) {
            &&& r matches Some(m) && m@ == error_view(ErrorCode::AlreadyInRoom, "已在房间中"@)
            &&& core1.players.players() == players
            &&& core1.rooms.rooms() == rooms
            &&& out1.sent() == out0.sent()
        } else {
            match room_index_from(rooms, room_id, 0) {
                None => {
                    &&& r matches Some(m) && m@ == error_view(ErrorCode::RoomNotFound, "房间不存在"@)
                    &&& core1.players.players() == players
                    &&& core1.rooms.rooms() == rooms
                    &&& out1.sent() == out0.sent()
                },
                Some(i) => {
                    let room = rooms[i];
                    if room.state != RoomState::Waiting {
                        &&& r matches Some(m) && m@ == error_view(ErrorCode::RoomClosed, "房间不可加入"@)
                        &&& core1.players.players() == players
                        &&& core1.rooms.rooms() == rooms
                        &&& out1.sent() == out0.sent()
                    } else if room.red_player is Some && room.black_player is Some {
                        &&& r matches Some(m) && m@ == error_view(ErrorCode::RoomFull, "房间已满"@)
                        &&& core1.players.players() == players
                        &&& core1.rooms.rooms() == rooms
                        &&& out1.sent() == out0.sent()
                    } else {
                        let side = crate::server::room::seat_for(room.red_player, room.black_player, None)->0;
                        let after = core1.rooms.rooms()[i];
                        &&& r matches Some(m) && m@ == (MessageView::RoomJoined { room_id, side })
                        &&& core1.players.players() == status_set(players, player_id, PlayerStatus::InRoom(room_id))
                        &&& core1.rooms.rooms().len() == rooms.len()
                        &&& core1.rooms.rooms() == rooms.update(i, after)
                        &&& joined_room(room, player_id, side, after)
                        &&& out1.sent() == out0.sent() + join_notices(
                            room,
                            name_or(players, player_id, "玩家"@),
                            after,
                            core1.players.players(),
                        )
                    }
                },
            }
        }
    })
}

/// What `MessageHandler::handle_leave_room` promises: the state before (`core0`) and after (`core1`)
/// the call, the messages queued before (`out0`) and after (`out1`), and its reply `r`.
pub open spec fn leave_room_outcome(core0: ServerCore, out0: Outbox, core1: ServerCore, out1: Outbox, player_id: u64, r: Option<ServerMessage>) -> bool {
    &&& core1.wf()
    &&& r is None
    &&& out1.cast() == out0.cast()
    &&& core1.players.next_id() == core0.players.next_id()
    &&& core1.rooms.next_id() == core0.rooms.next_id()
    &&& ({
        let players = core0.players.players();
        let rooms = core0.rooms.rooms();
        match crate::server::room::seat_index_from(rooms, player_id, 0) {
            None => {
                &&& core1.players.players() == players
                &&& core1.rooms.rooms() == rooms
                &&& out1.sent() == out0.sent()
            },
            Some(i) => {
                let room = rooms[i];
                let side = side_in(room, player_id)->0;
                let playing = room.state == RoomState::Playing;
                &&& core1.players.players() == status_set(players, player_id, PlayerStatus::Online)
                &&& out1.sent() == out0.sent() + (if playing && opponent_in(room, player_id) is Some {
                    seq![(opponent_in(room, player_id)->0, MessageView::GameOver {
                        result: loss_for(side, WinReason::Disconnect),
                    })]
                } else {
                    Seq::empty()
                })
                &&& exists|after: Room| left_room(room, side, after) && core1.rooms.rooms() == (
                    if after.red_player is None && after.black_player is None {
                        rooms.remove(i)
                    } else {
                        rooms.update(i, after)
                    })
            },
        }
    })
}

/// What `MessageHandler::handle_reconnect` promises: the state before (`core0`) and after (`core1`)
/// the call, the messages queued before (`out0`) and after (`out1`), and its reply `r`.
pub open spec fn reconnect_outcome(core0: ServerCore, out0: Outbox, core1: ServerCore, out1: Outbox, player_id: u64, room_id: u64, r: Option<ServerMessage>) -> bool {
    &&& core1.wf()
    &&& out1.cast() == out0.cast()
    &&& core1.players.next_id() == core0.players.next_id()
    &&& core1.rooms.next_id() == core0.rooms.next_id()
    &&& ({
        let players = core0.players.players();
        let rooms = core0.rooms.rooms();
        let unchanged = core1.players.players() == players && core1.rooms.rooms()
            == rooms && out1.sent() == out0.sent();
        if !holds_id(players, player_id) {
            unchanged && (r matches Some(m) && m@ == error_view(ErrorCode::PlayerNotFound, "玩家不存在"@))
        } else {
            match room_index_from(rooms, room_id, 0) {
                None => unchanged && r is None,
                Some(i) => {
                    let room = rooms[i];
                    if !room.seats(player_id) {
                        unchanged && (r matches Some(m) && m@ == error_view(ErrorCode::NotInRoom, "不在该房间中"@))
                    } else if room.game_state is None {
                        unchanged && r is None
                    } else {
                        let side = side_in(room, player_id)->0;
                        &&& r matches Some(m) && reconnect_reply(m@, room_id, room, side)
                        &&& core1.players.players() == reconnected(players, player_id)
                        &&& core1.rooms.rooms() == rooms.update(i, core1.rooms.rooms()[i])
                        &&& returned_to_room(room, side, core1.rooms.rooms()[i])
                        &&& out1.sent() == out0.sent() + match opponent_in(room, player_id) {
                            Some(o) => seq![(o, MessageView::OpponentReconnected)],
                            None => Seq::empty(),
                        }
                    }
                },
            }
        }
    })
}

/// What `MessageHandler::handle_resign` promises: the state before (`core0`) and after (`core1`)
/// the call, the messages queued before (`out0`) and after (`out1`), and its reply `r`.
pub open spec fn resign_outcome(core0: ServerCore, out0: Outbox, core1: ServerCore, out1: Outbox, player_id: u64, r: Option<ServerMessage>) -> bool {
    &&& core1.wf()
    &&& out1.sent() == out0.sent()
    &&& core1.players == core0.players
    &&& core1.rooms.next_id() == core0.rooms.next_id()
    &&& ({
        let rooms = core0.rooms.rooms();
        match crate::server::room::seat_index_from(rooms, player_id, 0) {
            None => r is None && core1.rooms.rooms() == rooms && out1.cast() == out0.cast(),
            Some(i) => {
                let room = rooms[i];
                if room.state != RoomState::Playing {
                    &&& r matches Some(m) && m@ == error_view(ErrorCode::GameNotStarted, "游戏未开始"@)
                    &&& core1.rooms.rooms() == rooms
                    &&& out1.cast() == out0.cast()
                } else {
                    let result = loss_for(side_in(room, player_id)->0, WinReason::Resign);
                    &&& r is None
                    &&& core1.rooms.rooms() == rooms.update(i, core1.rooms.rooms()[i])
                    &&& finished_room(room, core1.rooms.rooms()[i])
                    &&& out1.cast() == out0.cast().push((room.id, MessageView::GameOver { result }))
                }
            },
        }
    })
}

/// What `MessageHandler::handle_pause` promises: the state before (`core0`) and after (`core1`)
/// the call, and its reply `r`.
pub open spec fn pause_outcome(core0: ServerCore, core1: ServerCore, player_id: u64, r: Option<ServerMessage>) -> bool {
    &&& core1.wf()
    &&& core1.players == core0.players
    &&& core1.rooms.next_id() == core0.rooms.next_id()
    &&& ({
        let rooms = core0.rooms.rooms();
        match crate::server::room::seat_index_from(rooms, player_id, 0) {
            None => r is None && core1.rooms.rooms() == rooms,
            Some(i) => {
                let room = rooms[i];
                &&& core1.rooms.rooms() == rooms.update(i, core1.rooms.rooms()[i])
                &&& paused_room(room, core1.rooms.rooms()[i])
                &&& r matches Some(m) && m@ == if room.room_type is PvE && room.state == RoomState::Playing {
                    MessageView::GamePaused
                } else {
                    error_view(ErrorCode::GameNotStarted, "无法暂停"@)
                }
            },
        }
    })
}

/// What `MessageHandler::handle_resume` promises: the state before (`core0`) and after (`core1`)
/// the call, and its reply `r`.
pub open spec fn resume_outcome(core0: ServerCore, core1: ServerCore, player_id: u64, r: Option<ServerMessage>) -> bool {
    &&& core1.wf()
    &&& core1.players == core0.players
    &&& core1.rooms.next_id() == core0.rooms.next_id()
    &&& ({
        let rooms = core0.rooms.rooms();
        match crate::server::room::seat_index_from(rooms, player_id, 0) {
            None => r is None && core1.rooms.rooms() == rooms,
            Some(i) => {
                let room = rooms[i];
                &&& core1.rooms.rooms() == rooms.update(i, core1.rooms.rooms()[i])
                &&& resumed_room(room, core1.rooms.rooms()[i])
                &&& r matches Some(m) && m@ == if room.room_type is PvE && room.state == RoomState::Paused {
                    MessageView::GameResumed
                } else {
                    error_view(ErrorCode::GameNotStarted, "无法继续"@)
                }
            },
        }
    })
}

/// What `MessageHandler::handle_request_undo` promises: the state before (`core0`) and after (`core1`)
/// the call, the messages queued before (`out0`) and after (`out1`), and its reply `r`.
pub open spec fn request_undo_outcome(core0: ServerCore, out0: Outbox, core1: ServerCore, out1: Outbox, player_id: u64, r: Option<ServerMessage>) -> bool {
    &&& core1.wf()
    &&& out1.cast() == out0.cast()
    &&& core1.players == core0.players
    &&& core1.rooms.next_id() == core0.rooms.next_id()
    &&& ({
        let rooms = core0.rooms.rooms();
        match crate::server::room::seat_index_from(rooms, player_id, 0) {
            None => r is None && core1.rooms.rooms() == rooms && out1.sent() == out0.sent(),
            Some(i) => {
                let room = rooms[i];
                let after = core1.rooms.rooms()[i];
                if room.state != RoomState::Playing {
                    &&& r matches Some(m) && m@ == error_view(ErrorCode::GameNotStarted, "游戏未开始"@)
                    &&& core1.rooms.rooms() == rooms
                    &&& out1.sent() == out0.sent()
                } else if room.move_history@.len() == 0 {
                    &&& r matches Some(m) && m@ == error_view(ErrorCode::UndoNotAllowed, "没有可悔的棋"@)
                    &&& core1.rooms.rooms() == rooms
                    &&& out1.sent() == out0.sent()
                } else if room.room_type is PvE {
                    &&& core1.rooms.rooms() == rooms.update(i, after)
                    &&& out1.sent() == out0.sent()
                    &&& exists|mid: Room| {
                        &&& #[trigger] undo_effect(room, mid)
                        &&& if undo_ok(room) && room.move_history@.len() >= 2 {
                            undo_effect(mid, after)
                        } else {
                            after == mid
                        }
                        &&& r matches Some(m) && m@ == if undo_ok(room) {
                            MessageView::UndoApproved { new_state: after.game_state->0 }
                        } else {
                            error_view(ErrorCode::UndoNotAllowed, "悔棋失败"@)
                        }
                    }
                } else {
                    let side = side_in(room, player_id)->0;
                    &&& r is None
                    &&& core1.rooms.rooms() == rooms.update(i, after)
                    &&& with_request(room, after, Some(side))
                    &&& out1.sent() == out0.sent() + match opponent_in(room, player_id) {
                        Some(o) => seq![(o, MessageView::UndoRequested { by: side })],
                        None => Seq::empty(),
                    }
                }
            },
        }
    })
}

/// What `MessageHandler::handle_respond_undo` promises: the state before (`core0`) and after (`core1`)
/// the call, the messages queued before (`out0`) and after (`out1`), and its reply `r`.
pub open spec fn respond_undo_outcome(core0: ServerCore, out0: Outbox, core1: ServerCore, out1: Outbox, player_id: u64, accept: bool, r: Option<ServerMessage>) -> bool {
    &&& core1.wf()
    &&& r is None
    &&& core1.players == core0.players
    &&& core1.rooms.next_id() == core0.rooms.next_id()
    &&& ({
        let rooms = core0.rooms.rooms();
        let unchanged = core1.rooms.rooms() == rooms && out1.sent() == out0.sent()
            && out1.cast() == out0.cast();
        match crate::server::room::seat_index_from(rooms, player_id, 0) {
            None => unchanged,
            Some(i) => {
                let room = rooms[i];
                let after = core1.rooms.rooms()[i];
                match room.undo_requested_by {
                    None => unchanged,
                    Some(by) => match (if by == Side::Red { room.red_player } else { room.black_player }) {
                        None => unchanged,
                        Some(requester) => {
                            &&& core1.rooms.rooms() == rooms.update(i, after)
                            &&& after.undo_requested_by is None
                            &&& if accept {
                                exists|mid: Room| {
                                    &&& #[trigger] undo_effect(room, mid)
                                    &&& with_request(mid, after, None)
                                    &&& out1.sent() == out0.sent()
                                    &&& out1.cast() == out0.cast() + if undo_ok(room) {
                                        seq![(room.id, MessageView::UndoApproved { new_state: mid.game_state->0 })]
                                    } else {
                                        Seq::empty()
                                    }
                                }
                            } else {
                                &&& with_request(room, after, None)
                                &&& out1.cast() == out0.cast()
                                &&& out1.sent() == out0.sent().push((requester, MessageView::UndoRejected))
                            }
                        },
                    },
                }
            },
        }
    })
}

/// What a client message needs beyond the server's own state.
pub enum Dispatch {
    /// Handled here: the reply to the sender, if any.
    Reply(Option<ServerMessage>),
    /// A move, to be checked against the rules and played: `handle_make_move`, then
    /// `announce_move` and the computer's answer.
    Move { from: Position, to: Position },
    /// A request to save the game: `prepare_save`, then the storage.
    Save,
    /// A request to load a saved game: the storage, then `begin_loaded_game`.
    Load { game_id: String },
}

/// Whether neither the server's state nor the queued messages changed.
pub open spec fn untouched(core0: ServerCore, out0: Outbox, core1: ServerCore, out1: Outbox) -> bool {
    core1 == core0 && out1 == out0
}

impl MessageHandler {
    /// Handles a message of the logged-in player `player_id`: each request goes to its
    /// handler; moves, saves and loads are handed back, since they need the rules of the game
    /// or the storage. When no more ids can be issued, a login or a new room gets no reply.
    pub fn handle(core: &mut ServerCore, pending: &mut Outbox, player_id: u64, msg: ClientMessage) -> (r: Dispatch)
        requires
            old(core).wf(),
        ensures
            final(core).wf(),
            match msg {
                ClientMessage::Login { nickname } => if old(core).players.next_id() < u64::MAX {
                    r matches Dispatch::Reply(m) && login_outcome(*old(core), *final(core), nickname, m)
                        && *final(pending) == *old(pending)
                } else {
                    r matches Dispatch::Reply(None) && untouched(*old(core), *old(pending), *final(core), *final(pending))
                },
                ClientMessage::Reconnect { player_id: pid, room_id } => r matches Dispatch::Reply(m)
                    && reconnect_outcome(*old(core), *old(pending), *final(core), *final(pending), pid, room_id, m),
                ClientMessage::CreateRoom { room_type, preferred_side } => if old(core).rooms.next_id() < u64::MAX {
                    r matches Dispatch::Reply(m) && create_room_outcome(
                        *old(core),
                        *final(core),
                        player_id,
                        room_type,
                        preferred_side,
                        m,
                    ) && *final(pending) == *old(pending)
                } else {
                    r matches Dispatch::Reply(None) && untouched(*old(core), *old(pending), *final(core), *final(pending))
                },
                ClientMessage::JoinRoom { room_id } => r matches Dispatch::Reply(m) && join_room_outcome(
                    *old(core),
                    *old(pending),
                    *final(core),
                    *final(pending),
                    player_id,
                    room_id,
                    m,
                ),
                ClientMessage::LeaveRoom => r matches Dispatch::Reply(m) && leave_room_outcome(
                    *old(core),
                    *old(pending),
                    *final(core),
                    *final(pending),
                    player_id,
                    m,
                ),
                ClientMessage::ListRooms => {
                    &&& r matches Dispatch::Reply(Some(m)) && m@ == (MessageView::RoomList {
                        rooms: joinable_upto(old(core).rooms.rooms(), old(core).rooms.rooms().len() as int).map_values(
                            |room: Room| info_view(room, old(core).players.players()),
                        ),
                    })
                    &&& untouched(*old(core), *old(pending), *final(core), *final(pending))
                },
                ClientMessage::MakeMove { from, to } => r matches Dispatch::Move { from: f, to: t } && f == from
                    && t == to && untouched(*old(core), *old(pending), *final(core), *final(pending)),
                ClientMessage::RequestUndo => r matches Dispatch::Reply(m) && request_undo_outcome(
                    *old(core),
                    *old(pending),
                    *final(core),
                    *final(pending),
                    player_id,
                    m,
                ),
                ClientMessage::RespondUndo { accept } => r matches Dispatch::Reply(m) && respond_undo_outcome(
                    *old(core),
                    *old(pending),
                    *final(core),
                    *final(pending),
                    player_id,
                    accept,
                    m,
                ),
                ClientMessage::Resign => r matches Dispatch::Reply(m) && resign_outcome(
                    *old(core),
                    *old(pending),
                    *final(core),
                    *final(pending),
                    player_id,
                    m,
                ),
                ClientMessage::PauseGame => r matches Dispatch::Reply(m) && pause_outcome(*old(core), *final(core), player_id, m)
                    && *final(pending) == *old(pending),
                ClientMessage::ResumeGame => r matches Dispatch::Reply(m) && resume_outcome(*old(core), *final(core), player_id, m)
                    && *final(pending) == *old(pending),
                ClientMessage::SaveGame => r matches Dispatch::Save && untouched(
                    *old(core),
                    *old(pending),
                    *final(core),
                    *final(pending),
                ),
                ClientMessage::LoadGame { game_id } => r matches Dispatch::Load { game_id: g } && g == game_id
                    && untouched(*old(core), *old(pending), *final(core), *final(pending)),
                ClientMessage::Ping => r matches Dispatch::Reply(Some(m)) && m@ == MessageView::Pong && untouched(
                    *old(core),
                    *old(pending),
                    *final(core),
                    *final(pending),
                ),
            },
    {
        match msg {
            ClientMessage::Login { nickname } => {
                if core.players.can_issue_id() {
                    Dispatch::Reply(Self::handle_login(core, nickname))
                } else {
                    Dispatch::Reply(None)
                }
            },
            ClientMessage::Reconnect { player_id: pid, room_id } => {
                Dispatch::Reply(Self::handle_reconnect(core, pending, pid, room_id))
            },
            ClientMessage::CreateRoom { room_type, preferred_side } => {
                if core.rooms.can_issue_id() {
                    Dispatch::Reply(Self::handle_create_room(core, player_id, room_type, preferred_side))
                } else {
                    Dispatch::Reply(None)
                }
            },
            ClientMessage::JoinRoom { room_id } => Dispatch::Reply(Self::handle_join_room(core, pending, player_id, room_id)),
            ClientMessage::LeaveRoom => Dispatch::Reply(Self::handle_leave_room(core, pending, player_id)),
            ClientMessage::ListRooms => Dispatch::Reply(Self::handle_list_rooms(core)),
            ClientMessage::MakeMove { from, to } => Dispatch::Move { from, to },
            ClientMessage::RequestUndo => Dispatch::Reply(Self::handle_request_undo(core, pending, player_id)),
            ClientMessage::RespondUndo { accept } => Dispatch::Reply(
                Self::handle_respond_undo(core, pending, player_id, accept),
            ),
            ClientMessage::Resign => Dispatch::Reply(Self::handle_resign(core, pending, player_id)),
            ClientMessage::PauseGame => Dispatch::Reply(Self::handle_pause(core, player_id)),
            ClientMessage::ResumeGame => Dispatch::Reply(Self::handle_resume(core, player_id)),
            ClientMessage::SaveGame => Dispatch::Save,
            ClientMessage::LoadGame { game_id } => Dispatch::Load { game_id },
            ClientMessage::Ping => Dispatch::Reply(Some(ServerMessage::Pong)),
        }
    }
}

impl MessageHandler {
    /// Handles a message on a connection that has not logged in: a login is answered as
    /// `handle_login` answers it, except that a refused nickname is always reported as an
    /// invalid one; a reconnection is answered as `handle_reconnect` answers it and logs the
    /// connection in when it succeeds; anything else is refused. The result is the reply, if
    /// any, and the player now logged in, if any. When no more ids can be issued a login gets
    /// no reply.
    pub fn handle_before_login(core: &mut ServerCore, pending: &mut Outbox, msg: ClientMessage) -> (r: (
        Option<ServerMessage>,
        Option<u64>,
    ))
        requires
            old(core).wf(),
        ensures
            final(core).wf(),
            match msg {
                ClientMessage::Login { nickname } => if old(core).players.next_id() < u64::MAX {
                    &&& *final(pending) == *old(pending)
                    &&& final(core).rooms == old(core).rooms
                    &&& match login_result(old(core).players.players(), old(core).players.next_id(), nickname@) {
                        Ok(id) => {
                            &&& r.0 matches Some(m) && m@ == (MessageView::LoginSuccess { player_id: id })
                            &&& r.1 == Some(id)
                            &&& final(core).players.players() == old(core).players.players().push(
                                Player::new_spec(id, nickname),
                            )
                            &&& final(core).players.next_id() == id + 1
                        },
                        Err(e) => {
                            &&& r.0 matches Some(m) && m@ == error_view(ErrorCode::InvalidNickname, e@)
                            &&& r.1 is None
                            &&& final(core).players.players() == old(core).players.players()
                            &&& final(core).players.next_id() == old(core).players.next_id()
                        },
                    }
                } else {
                    r.0 is None && r.1 is None && untouched(*old(core), *old(pending), *final(core), *final(pending))
                },
                ClientMessage::Reconnect { player_id: pid, room_id } => {
                    &&& reconnect_outcome(*old(core), *old(pending), *final(core), *final(pending), pid, room_id, r.0)
                    &&& r.1 == (if r.0 matches Some(ServerMessage::ReconnectSuccess { .. }) {
                        Some(pid)
                    } else {
                        None
                    })
                },
                _ => {
                    &&& r.0 matches Some(m) && m@ == error_view(ErrorCode::InvalidNickname, "请先登录"@)
                    &&& r.1 is None
                    &&& untouched(*old(core), *old(pending), *final(core), *final(pending))
                },
            },
    {
        match msg {
            ClientMessage::Login { nickname } => {
                if !core.players.can_issue_id() {
                    return (None, None);
                }
                let reply = Self::handle_login(core, nickname);
                match reply {
                    Some(ServerMessage::LoginSuccess { player_id }) => (
                        Some(ServerMessage::LoginSuccess { player_id }),
                        Some(player_id),
                    ),
                    Some(ServerMessage::Error { code: _, message }) => (
                        Some(ServerMessage::Error { code: ErrorCode::InvalidNickname, message }),
                        None,
                    ),
                    other => (other, None),
                }
            },
            ClientMessage::Reconnect { player_id: pid, room_id } => {
                let reply = Self::handle_reconnect(core, pending, pid, room_id);
                let logged = match &reply {
                    Some(ServerMessage::ReconnectSuccess { .. }) => Some(pid),
                    _ => None,
                };
                (reply, logged)
            },
            _ => (Some(error(ErrorCode::InvalidNickname, "请先登录")), None),
        }
    }
}

} // verus!

//! The client's side of the connection to the server: what each user action sends, and how
//! each message from the server changes the client (game, screen, quick match).

use vstd::prelude::*;
use std::time::Instant;
use crate::board::{Position, Side};
use crate::client::{ClientGame, GameMode, GameState};
use crate::outcome::{RoomState, RoomType};
use crate::server::handler::ServerMessage;
use crate::server::room::RoomInfo;

verus! {

/// Seconds a quick match waits for a room before giving up.
pub const QUICK_MATCH_TIMEOUT_SECS: u64 = 10;

/// A message from a client to the server.
#[derive(Clone, Debug)]
pub enum ClientMessage {
    Login { nickname: String },
    Reconnect { player_id: u64, room_id: u64 },
    CreateRoom { room_type: RoomType, preferred_side: Option<Side> },
    JoinRoom { room_id: u64 },
    LeaveRoom,
    ListRooms,
    MakeMove { from: Position, to: Position },
    RequestUndo,
    RespondUndo { accept: bool },
    Resign,
    PauseGame,
    ResumeGame,
    SaveGame,
    LoadGame { game_id: String },
    Ping,
}

/// State of the connection.
#[derive(Clone, Copy, Debug, PartialEq, Eq, Structural)]
pub enum ConnectionStatus {
    Disconnected,
    Connecting,
    Connected,
    Error,
}

/// What to do once logged in.
#[derive(Clone, Copy, Debug, PartialEq, Eq, Structural)]
pub enum PendingAction {
    NoAction,
    CreateRoom { room_type: RoomType, preferred_side: Option<Side> },
    ListRooms,
    /// Join the first waiting room, or create one.
    QuickMatch,
}

/// A user action that involves the server.
#[derive(Clone, Debug)]
pub enum NetworkEvent {
    Connect { addr: String, nickname: String },
    Disconnect,
    CreateRoom { room_type: RoomType, preferred_side: Option<Side> },
    JoinRoom { room_id: u64 },
    LeaveRoom,
    ListRooms,
    SendMove { from: Position, to: Position },
    SendUndo,
    RespondUndo { accept: bool },
    SendResign,
    SendPause,
    SendResume,
    SaveGame,
    LoadGame { game_id: String },
}

/// The client's knowledge of the connection.
pub struct NetworkState {
    pub status: ConnectionStatus,
    pub server_addr: String,
    pub player_id: Option<u64>,
    pub room_id: Option<u64>,
    pub nickname: String,
    pub pending_action: PendingAction,
    /// Kind of the current room (to play again).
    pub current_room_type: Option<RoomType>,
    pub room_list: Vec<RoomInfo>,
    pub is_quick_matching: bool,
    /// When the quick match started.
    pub quick_match_start: Option<Instant>,
}

/// What the caller does for a user action: send a message, open or close the connection,
/// switch screens.
pub struct NetAction {
    pub send: Option<ClientMessage>,
    /// Open a connection to (address, nickname).
    pub connect: Option<(String, String)>,
    pub disconnect: bool,
    pub screen: Option<GameState>,
}

/// The first waiting room between players, if any.
pub open spec fn first_waiting(rooms: Seq<RoomInfo>, i: int) -> Option<int>
    decreases rooms.len() - i,
{
    if i < 0 || i >= rooms.len() {
        None
    } else if rooms[i].room_type == RoomType::PvP && rooms[i].state == RoomState::Waiting {
        Some(i)
    } else {
        first_waiting(rooms, i + 1)
    }
}

/// The mode of a game the server started, from the kind of room and its id.
pub open spec fn online_mode(room_type: RoomType, room_id: u64) -> GameMode {
    match room_type {
        RoomType::PvE(difficulty) => GameMode::OnlinePvE { room_id, difficulty },
        RoomType::PvP => GameMode::OnlinePvP { room_id },
    }
}

impl NetworkState {
    /// Not connected, no pending action.
    pub fn new() -> (n: NetworkState)
        ensures
            n.status == ConnectionStatus::Disconnected,
            n.server_addr@ == Seq::<char>::empty(),
            n.nickname@ == Seq::<char>::empty(),
            n.player_id is None,
            n.room_id is None,
            n.pending_action == PendingAction::NoAction,
            n.current_room_type is None,
            n.room_list@.len() == 0,
            !n.is_quick_matching,
            n.quick_match_start is None,
    {
        NetworkState {
            status: ConnectionStatus::Disconnected,
            server_addr: String::new(),
            player_id: None,
            room_id: None,
            nickname: String::new(),
            pending_action: PendingAction::NoAction,
            current_room_type: None,
            room_list: Vec::new(),
            is_quick_matching: false,
            quick_match_start: None,
        }
    }

    /// The first waiting room between players in `rooms`.
    fn find_waiting(rooms: &Vec<RoomInfo>) -> (r: Option<u64>)
        ensures
            match first_waiting(rooms@, 0) {
                Some(i) => r == Some(rooms@[i].id),
                None => r is None,
            },
    {
        let mut i: usize = 0;
        while i < rooms.len()
            invariant
                i <= rooms@.len(),
                first_waiting(rooms@, 0) == first_waiting(rooms@, i as int),
            decreases rooms@.len() - i,
        {
            if rooms[i].room_type == RoomType::PvP && rooms[i].state == RoomState::Waiting {
                return Some(rooms[i].id);
            }
            i = i + 1;
        }
        None
    }

    /// Turns a user action into what to send: connecting records the address and nickname
    /// and shows the connecting screen; disconnecting forgets the player and the room and
    /// returns to the menu; creating a room remembers its kind; leaving forgets the room;
    /// every other action sends its message.
    pub fn handle_network_event(&mut self, event: NetworkEvent) -> (a: NetAction)
        ensures
            match event {
                NetworkEvent::Connect { addr, nickname } => {
                    &&& final(self).server_addr@ == addr@
                    &&& final(self).nickname@ == nickname@
                    &&& final(self).status == ConnectionStatus::Connecting
                    &&& a.screen == Some(GameState::Connecting)
                    &&& a.connect matches Some(c) && c.0@ == addr@ && c.1@ == nickname@
                    &&& a.send is None && !a.disconnect
                    &&& final(self).player_id == old(self).player_id
                    &&& final(self).room_id == old(self).room_id
                },
                NetworkEvent::Disconnect => {
                    &&& final(self).status == ConnectionStatus::Disconnected
                    &&& final(self).player_id is None
                    &&& final(self).room_id is None
                    &&& a.disconnect && a.screen == Some(GameState::Menu)
                    &&& a.send is None && a.connect is None
                },
                NetworkEvent::CreateRoom { room_type, preferred_side } => {
                    &&& final(self).current_room_type == Some(room_type)
                    &&& a.send matches Some(ClientMessage::CreateRoom { room_type: t, preferred_side: p })
                        && t == room_type && p == preferred_side
                    &&& a.screen is None && a.connect is None && !a.disconnect
                    &&& final(self).room_id == old(self).room_id
                },
                NetworkEvent::LeaveRoom => {
                    &&& final(self).room_id is None
                    &&& a.send matches Some(ClientMessage::LeaveRoom)
                    &&& a.screen is None && a.connect is None && !a.disconnect
                },
                _ => {
                    &&& a.screen is None && a.connect is None && !a.disconnect
                    &&& final(self).room_id == old(self).room_id
                    &&& final(self).status == old(self).status
                    &&& a.send matches Some(m) && match (event, m) {
                        (NetworkEvent::JoinRoom { room_id }, ClientMessage::JoinRoom { room_id: r }) => r == room_id,
                        (NetworkEvent::ListRooms, ClientMessage::ListRooms) => true,
                        (NetworkEvent::SendMove { from, to }, ClientMessage::MakeMove { from: f, to: t }) => f == from && t == to,
                        (NetworkEvent::SendUndo, ClientMessage::RequestUndo) => true,
                        (NetworkEvent::RespondUndo { accept }, ClientMessage::RespondUndo { accept: x }) => x == accept,
                        (NetworkEvent::SendResign, ClientMessage::Resign) => true,
                        (NetworkEvent::SendPause, ClientMessage::PauseGame) => true,
                        (NetworkEvent::SendResume, ClientMessage::ResumeGame) => true,
                        (NetworkEvent::SaveGame, ClientMessage::SaveGame) => true,
                        (NetworkEvent::LoadGame { game_id }, ClientMessage::LoadGame { game_id: g }) => g@ == game_id@,
                        _ => false,
                    }
                },
            },
    {
        let mut action = NetAction { send: None, connect: None, disconnect: false, screen: None };
        match event {
            NetworkEvent::Connect { addr, nickname } => {
                self.server_addr = crate::text::string_of(&crate::text::chars_of(addr.as_str()));
                self.nickname = crate::text::string_of(&crate::text::chars_of(nickname.as_str()));
                self.status = ConnectionStatus::Connecting;
                action.screen = Some(GameState::Connecting);
                action.connect = Some((addr, nickname));
            },
            NetworkEvent::Disconnect => {
                self.status = ConnectionStatus::Disconnected;
                self.player_id = None;
                self.room_id = None;
                action.disconnect = true;
                action.screen = Some(GameState::Menu);
            },
            NetworkEvent::CreateRoom { room_type, preferred_side } => {
                self.current_room_type = Some(room_type);
                action.send = Some(ClientMessage::CreateRoom { room_type, preferred_side });
            },
            NetworkEvent::JoinRoom { room_id } => {
                action.send = Some(ClientMessage::JoinRoom { room_id });
            },
            NetworkEvent::LeaveRoom => {
                self.room_id = None;
                action.send = Some(ClientMessage::LeaveRoom);
            },
            NetworkEvent::ListRooms => {
                action.send = Some(ClientMessage::ListRooms);
            },
            NetworkEvent::SendMove { from, to } => {
                action.send = Some(ClientMessage::MakeMove { from, to });
            },
            NetworkEvent::SendUndo => {
                action.send = Some(ClientMessage::RequestUndo);
            },
            NetworkEvent::RespondUndo { accept } => {
                action.send = Some(ClientMessage::RespondUndo { accept });
            },
            NetworkEvent::SendResign => {
                action.send = Some(ClientMessage::Resign);
            },
            NetworkEvent::SendPause => {
                action.send = Some(ClientMessage::PauseGame);
            },
            NetworkEvent::SendResume => {
                action.send = Some(ClientMessage::ResumeGame);
            },
            NetworkEvent::SaveGame => {
                action.send = Some(ClientMessage::SaveGame);
            },
            NetworkEvent::LoadGame { game_id } => {
                action.send = Some(ClientMessage::LoadGame { game_id });
            },
        }
        action
    }

    /// Applies a message from the server. A login runs the pending action (a quick match
    /// first asks for the room list); a started game begins in the mode of the current room;
    /// moves, times, take-backs (two moves against the computer, one otherwise), pauses and
    /// results update the game; a room list received during a quick match joins the first
    /// waiting room between players, or creates one. Returns the message to send and the
    /// screen to show, if any.
    pub fn handle_server_message(&mut self, game: &mut ClientGame, msg: ServerMessage) -> (r: (Option<ClientMessage>, Option<GameState>))
        ensures
            match msg {
                ServerMessage::LoginSuccess { player_id } => {
                    &&& final(self).player_id == Some(player_id)
                    &&& final(self).status == ConnectionStatus::Connected
                    &&& final(self).pending_action == PendingAction::NoAction
                    &&& *final(game) == *old(game)
                    &&& match old(self).pending_action {
                        PendingAction::NoAction => r.0 is None && r.1 == Some(GameState::Lobby),
                        PendingAction::CreateRoom { room_type, preferred_side } => {
                            &&& final(self).current_room_type == Some(room_type)
                            &&& r.0 matches Some(ClientMessage::CreateRoom { room_type: t, preferred_side: p })
                                && t == room_type && p == preferred_side
                            &&& r.1 is None
                        },
                        PendingAction::ListRooms => r.0 matches Some(ClientMessage::ListRooms) && r.1 == Some(GameState::Lobby),
                        PendingAction::QuickMatch => {
                            &&& final(self).is_quick_matching
                            &&& final(self).quick_match_start is Some
                            &&& r.0 matches Some(ClientMessage::ListRooms)
                            &&& r.1 is None
                        },
                    }
                },
                ServerMessage::RoomCreated { room_id, .. } => {
                    final(self).room_id == Some(room_id) && *final(game) == *old(game) && r.0 is None && r.1 is None
                },
                ServerMessage::RoomJoined { room_id, side } => {
                    &&& final(self).room_id == Some(room_id)
                    &&& final(game).player_side == Some(side)
                    &&& final(game).game_state == old(game).game_state
                    &&& r.0 is None && r.1 is None
                },
                ServerMessage::GameStarted { initial_state, your_side, .. } => {
                    let room_type = match old(self).current_room_type {
                        Some(t) => t,
                        None => RoomType::PvP,
                    };
                    let room_id = match old(self).room_id {
                        Some(id) => id,
                        None => 0,
                    };
                    &&& final(game).game_state == Some(initial_state)
                    &&& final(game).player_side == Some(your_side)
                    &&& final(game).game_mode == Some(online_mode(room_type, room_id))
                    &&& final(game).move_history@.len() == 0
                    &&& final(game).state_history@ == seq![initial_state]
                    &&& final(game).game_result is None
                    &&& r.0 is None && r.1 == Some(GameState::Playing)
                },
                ServerMessage::MoveMade { from, to, new_state, notation } => {
                    old(game).updated(final(game), new_state, from, to, notation) && r.0 is None && r.1 is None
                },
                ServerMessage::TimeUpdate { red_time_ms, black_time_ms } => {
                    &&& final(game).red_time_ms == red_time_ms
                    &&& final(game).black_time_ms == black_time_ms
                    &&& final(game).game_state == old(game).game_state
                    &&& r.0 is None && r.1 is None
                },
                ServerMessage::UndoApproved { new_state } => {
                    let steps: int = if old(game).game_mode matches Some(m) && (m is LocalPvE || m is OnlinePvE) { 2 } else { 1 };
                    &&& final(game).game_state == Some(new_state)
                    &&& final(game).move_history@ == old(game).move_history@.take(
                        if steps <= old(game).move_history@.len() { old(game).move_history@.len() - steps } else { 0 },
                    )
                    &&& final(game).state_history@ == old(game).state_history@.take(
                        if steps <= old(game).state_history@.len() { old(game).state_history@.len() - steps } else { 0 },
                    )
                    &&& !final(game).waiting_undo_response
                    &&& r.0 is None && r.1 is None
                },
                ServerMessage::GameOver { result } => {
                    &&& final(game).game_result == Some(result)
                    &&& final(game).game_state == old(game).game_state
                    &&& r.0 is None && r.1 == Some(GameState::GameOver)
                },
                ServerMessage::GamePaused => final(game).is_paused && final(game).game_state == old(game).game_state && r.0 is None && r.1 is None,
                ServerMessage::GameResumed => !final(game).is_paused && final(game).game_state == old(game).game_state && r.0 is None && r.1 is None,
                ServerMessage::RoomList { rooms } => {
                    &&& final(self).room_list@ == rooms@
                    &&& *final(game) == *old(game)
                    &&& r.1 is None
                    &&& if old(self).is_quick_matching {
                        &&& !final(self).is_quick_matching
                        &&& final(self).quick_match_start is None
                        &&& match first_waiting(rooms@, 0) {
                            Some(i) => r.0 matches Some(ClientMessage::JoinRoom { room_id }) && room_id == rooms@[i].id,
                            None => {
                                &&& final(self).current_room_type == Some(RoomType::PvP)
                                &&& r.0 matches Some(ClientMessage::CreateRoom { room_type: RoomType::PvP, preferred_side: None })
                            },
                        }
                    } else {
                        r.0 is None && final(self).is_quick_matching == old(self).is_quick_matching
                    }
                },
                _ => *final(game) == *old(game) && r.0 is None && r.1 is None,
            },
    {
        match msg {
            ServerMessage::LoginSuccess { player_id } => {
                self.player_id = Some(player_id);
                self.status = ConnectionStatus::Connected;
                let pending = self.pending_action;
                self.pending_action = PendingAction::NoAction;
                match pending {
                    PendingAction::NoAction => (None, Some(GameState::Lobby)),
                    PendingAction::CreateRoom { room_type, preferred_side } => {
                        self.current_room_type = Some(room_type);
                        (Some(ClientMessage::CreateRoom { room_type, preferred_side }), None)
                    },
                    PendingAction::ListRooms => (Some(ClientMessage::ListRooms), Some(GameState::Lobby)),
                    PendingAction::QuickMatch => {
                        self.is_quick_matching = true;
                        self.quick_match_start = Some(crate::clock::now());
                        (Some(ClientMessage::ListRooms), None)
                    },
                }
            },
            ServerMessage::RoomCreated { room_id, .. } => {
                self.room_id = Some(room_id);
                (None, None)
            },
            ServerMessage::RoomJoined { room_id, side } => {
                self.room_id = Some(room_id);
                game.player_side = Some(side);
                (None, None)
            },
            ServerMessage::GameStarted { initial_state, your_side, .. } => {
                let room_type = match self.current_room_type {
                    Some(t) => t,
                    None => RoomType::PvP,
                };
                let room_id = match self.room_id {
                    Some(id) => id,
                    None => 0,
                };
                let game_mode = match room_type {
                    RoomType::PvE(difficulty) => GameMode::OnlinePvE { room_id, difficulty },
                    RoomType::PvP => GameMode::OnlinePvP { room_id },
                };
                game.start_game(initial_state, your_side, game_mode);
                (None, Some(GameState::Playing))
            },
            ServerMessage::MoveMade { from, to, new_state, notation } => {
                game.update_state(new_state, from, to, notation);
                (None, None)
            },
            ServerMessage::TimeUpdate { red_time_ms, black_time_ms } => {
                game.update_time(red_time_ms, black_time_ms);
                (None, None)
            },
            ServerMessage::UndoApproved { new_state } => {
                let steps: usize = if game.is_pve() { 2 } else { 1 };
                game.undo(new_state, steps);
                (None, None)
            },
            ServerMessage::GameOver { result } => {
                game.set_result(result);
                (None, Some(GameState::GameOver))
            },
            ServerMessage::GamePaused => {
                game.is_paused = true;
                (None, None)
            },
            ServerMessage::GameResumed => {
                game.is_paused = false;
                (None, None)
            },
            ServerMessage::RoomList { rooms } => {
                let target = if self.is_quick_matching {
                    Some(Self::find_waiting(&rooms))
                } else {
                    None
                };
                self.room_list = rooms;
                match target {
                    Some(found) => {
                        self.is_quick_matching = false;
                        self.quick_match_start = None;
                        match found {
                            Some(room_id) => (Some(ClientMessage::JoinRoom { room_id }), None),
                            None => {
                                self.current_room_type = Some(RoomType::PvP);
                                (Some(ClientMessage::CreateRoom { room_type: RoomType::PvP, preferred_side: None }), None)
                            },
                        }
                    },
                    None => (None, None),
                }
            },
            _ => (None, None),
        }
    }

    /// Ends a quick match that has waited more than the time-out (`elapsed_secs` since it
    /// started): the connection closes and the menu shows. Returns whether it ended it.
    pub fn check_quick_match_timeout(&mut self, elapsed_secs: Option<u64>) -> (r: bool)
        ensures
            r == (old(self).is_quick_matching && (elapsed_secs matches Some(e) && e > QUICK_MATCH_TIMEOUT_SECS)),
            r ==> !final(self).is_quick_matching && final(self).quick_match_start is None,
            !r ==> final(self).is_quick_matching == old(self).is_quick_matching
                && final(self).quick_match_start == old(self).quick_match_start,
            final(self).room_id == old(self).room_id,
            final(self).status == old(self).status,
    {
        if !self.is_quick_matching {
            return false;
        }
        match elapsed_secs {
            Some(e) => {
                if e > QUICK_MATCH_TIMEOUT_SECS {
                    self.is_quick_matching = false;
                    self.quick_match_start = None;
                    true
                } else {
                    false
                }
            },
            None => false,
        }
    }
}

impl Default for NetworkState {
    fn default() -> (n: NetworkState)
        ensures
            n.status == ConnectionStatus::Disconnected,
            n.server_addr@ == Seq::<char>::empty(),
            n.nickname@ == Seq::<char>::empty(),
            n.player_id is None,
            n.room_id is None,
            n.pending_action == PendingAction::NoAction,
            !n.is_quick_matching,
    {
        NetworkState::new()
    }
}

} // verus!

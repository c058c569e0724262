//! The main menu: what each of its buttons starts.

use vstd::prelude::*;
use crate::client::{ClientGame, GameMode, GameState};
use crate::local_game::fresh_game;
use crate::network::{NetworkEvent, NetworkState, PendingAction};
use crate::outcome::{RoomState, RoomType};
use crate::server::room::RoomInfo;
use crate::search::Difficulty;
use crate::settings::TimeLimit;

verus! {

/// The buttons of the main menu.
#[derive(Clone, Copy, Debug, PartialEq, Eq, Structural)]
pub enum MenuAction {
    CreatePvPRoom,
    JoinRoom,
    QuickMatch,
    PlayVsAi(Difficulty),
    LoadGame,
    Settings,
    ExitGame,
}

/// What is left to do after a button of the main menu.
pub struct MenuStep {
    /// The screen to show next, if it changes.
    pub screen: Option<GameState>,
    /// A message for the network side, if any.
    pub send: Option<NetworkEvent>,
    /// Whether to quit the application.
    pub exit: bool,
}

/// Whether `e` connects to `addr` as `nickname`.
pub open spec fn connects(e: Option<NetworkEvent>, addr: Seq<char>, nickname: Seq<char>) -> bool {
    e matches Some(NetworkEvent::Connect { addr: a, nickname: n }) && a@ == addr && n@ == nickname
}

/// Handles a button of the main menu: a game against the computer starts here at once with
/// the configured time limit; a new room and the room list first connect to the server (the
/// request waits until the login succeeds, and the list is shown in the lobby); the settings
/// page opens; the application quits. The other buttons do nothing here.
pub fn handle_button_action(
    action: MenuAction,
    game: &mut ClientGame,
    network: &mut NetworkState,
    time_limit: TimeLimit,
    server_address: &str,
    nickname: &str,
) -> (r: MenuStep)
    ensures
        match action {
            MenuAction::PlayVsAi(difficulty) => {
                &&& fresh_game(*final(game), GameMode::LocalPvE { difficulty }, time_limit.spec_to_millis())
                &&& *final(network) == *old(network)
                &&& r.screen == Some(GameState::Playing) && r.send is None && !r.exit
            },
            MenuAction::CreatePvPRoom => {
                &&& *final(game) == *old(game)
                &&& *final(network) == NetworkState {
                    pending_action: PendingAction::CreateRoom { room_type: RoomType::PvP, preferred_side: None },
                    ..*old(network)
                }
                &&& connects(r.send, server_address@, nickname@)
                &&& r.screen is None && !r.exit
            },
            MenuAction::JoinRoom => {
                &&& *final(game) == *old(game)
                &&& *final(network) == NetworkState { pending_action: PendingAction::ListRooms, ..*old(network) }
                &&& connects(r.send, server_address@, nickname@)
                &&& r.screen == Some(GameState::Lobby) && !r.exit
            },
            MenuAction::Settings => {
                &&& *final(game) == *old(game) && *final(network) == *old(network)
                &&& r.screen == Some(GameState::Settings) && r.send is None && !r.exit
            },
            MenuAction::ExitGame => {
                &&& *final(game) == *old(game) && *final(network) == *old(network)
                &&& r.screen is None && r.send is None && r.exit
            },
            MenuAction::QuickMatch | MenuAction::LoadGame => {
                &&& *final(game) == *old(game) && *final(network) == *old(network)
                &&& r.screen is None && r.send is None && !r.exit
            },
        },
{
    match action {
        MenuAction::PlayVsAi(difficulty) => {
            game.start_local_pve(difficulty);
            proof {
                assert(game.state_history@ =~= seq![game.game_state->0]);
            }
            let time_ms = time_limit.to_millis();
            game.red_time_ms = time_ms;
            game.black_time_ms = time_ms;
            MenuStep { screen: Some(GameState::Playing), send: None, exit: false }
        },
        MenuAction::CreatePvPRoom => {
            network.pending_action = PendingAction::CreateRoom { room_type: RoomType::PvP, preferred_side: None };
            MenuStep {
                screen: None,
                send: Some(NetworkEvent::Connect { addr: server_address.to_owned(), nickname: nickname.to_owned() }),
                exit: false,
            }
        },
        MenuAction::JoinRoom => {
            network.pending_action = PendingAction::ListRooms;
            MenuStep {
                screen: Some(GameState::Lobby),
                send: Some(NetworkEvent::Connect { addr: server_address.to_owned(), nickname: nickname.to_owned() }),
                exit: false,
            }
        },
        MenuAction::Settings => MenuStep { screen: Some(GameState::Settings), send: None, exit: false },
        MenuAction::ExitGame => MenuStep { screen: None, send: None, exit: true },
        MenuAction::QuickMatch | MenuAction::LoadGame => MenuStep { screen: None, send: None, exit: false },
    }
}

/// The buttons of the lobby.
#[derive(Clone, Copy, Debug, PartialEq, Eq, Structural)]
pub enum LobbyAction {
    RefreshRooms,
    BackToMenu,
    JoinRoomById(u64),
}

/// Handles a button of the lobby: the message for the network side, and the screen to show
/// next if it changes (leaving the lobby disconnects and returns to the menu).
pub fn handle_lobby_action(action: LobbyAction) -> (r: (NetworkEvent, Option<GameState>))
    ensures
        match action {
            LobbyAction::RefreshRooms => r.0 is ListRooms && r.1 is None,
            LobbyAction::BackToMenu => r.0 is Disconnect && r.1 == Some(GameState::Menu),
            LobbyAction::JoinRoomById(id) => r.0 matches NetworkEvent::JoinRoom { room_id } && room_id == id
                && r.1 is None,
        },
{
    match action {
        LobbyAction::RefreshRooms => (NetworkEvent::ListRooms, None),
        LobbyAction::BackToMenu => (NetworkEvent::Disconnect, Some(GameState::Menu)),
        LobbyAction::JoinRoomById(room_id) => (NetworkEvent::JoinRoom { room_id }, None),
    }
}

/// The state of a room as the lobby lists it.
pub open spec fn spec_room_status_text(state: RoomState) -> Seq<char> {
    match state {
        RoomState::Waiting => "等待中"@,
        RoomState::Playing => "游戏中"@,
        RoomState::Paused => "暂停中"@,
        RoomState::Finished => "已结束"@,
    }
}

pub fn room_status_text(state: RoomState) -> (r: &'static str)
    ensures
        r@ == spec_room_status_text(state),
{
    match state {
        RoomState::Waiting => "等待中",
        RoomState::Playing => "游戏中",
        RoomState::Paused => "暂停中",
        RoomState::Finished => "已结束",
    }
}

/// The kind of a room as the lobby lists it, with the computer's level against the computer.
pub open spec fn spec_room_type_text(room_type: RoomType) -> Seq<char> {
    match room_type {
        RoomType::PvP => "PvP"@,
        RoomType::PvE(Difficulty::Easy) => "PvE 简单"@,
        RoomType::PvE(Difficulty::Medium) => "PvE 中等"@,
        RoomType::PvE(Difficulty::Hard) => "PvE 困难"@,
        RoomType::PvE(Difficulty::Custom { .. }) => "PvE 自定义"@,
    }
}

pub fn room_type_text(room_type: RoomType) -> (r: &'static str)
    ensures
        r@ == spec_room_type_text(room_type),
{
    match room_type {
        RoomType::PvP => "PvP",
        RoomType::PvE(Difficulty::Easy) => "PvE 简单",
        RoomType::PvE(Difficulty::Medium) => "PvE 中等",
        RoomType::PvE(Difficulty::Hard) => "PvE 困难",
        RoomType::PvE(Difficulty::Custom { .. }) => "PvE 自定义",
    }
}

/// How many of the two seats of a listed room are taken.
pub fn room_player_count(room: &RoomInfo) -> (n: u8)
    ensures
        n == (if room.red_player is Some { 1int } else { 0int }) + (if room.black_player is Some {
            1int
        } else {
            0int
        }),
{
    let red: u8 = if room.red_player.is_some() { 1 } else { 0 };
    let black: u8 = if room.black_player.is_some() { 1 } else { 0 };
    red + black
}

/// Whether the lobby offers to join a listed room: a waiting room between two players.
pub fn room_can_join(room: &RoomInfo) -> (r: bool)
    ensures
        r == (room.state == RoomState::Waiting && room.room_type == RoomType::PvP),
{
    match (room.state, room.room_type) {
        (RoomState::Waiting, RoomType::PvP) => true,
        _ => false,
    }
}

/// What the lobby shows in place of the join button: the game is in progress, or the room
/// cannot be joined.
pub fn room_closed_text(state: RoomState) -> (r: &'static str)
    ensures
        r@ == (if state == RoomState::Playing {
            "进行中"@
        } else {
            "不可加入"@
        }),
{
    match state {
        RoomState::Playing => "进行中",
        _ => "不可加入",
    }
}

} // verus!

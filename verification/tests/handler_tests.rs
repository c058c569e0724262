use chinese_chess::board::{Move, Position, Side};
use chinese_chess::outcome::{GameResult, RoomState, RoomType, WinReason};
use chinese_chess::search::Difficulty;
use chinese_chess::server::handler::{
    ai_display_name, ErrorCode, MessageHandler, Outbox, ServerCore, ServerMessage, AI_PLAYER_ID,
};
use chinese_chess::server::player::PlayerStatus;
use chinese_chess::server::handler::Dispatch;
use chinese_chess::network::ClientMessage;
use chinese_chess::server::handler::{difficulty_from_label, difficulty_label, loaded_room_type};

fn login(core: &mut ServerCore, name: &str) -> u64 {
    match MessageHandler::handle_login(core, name.to_string()) {
        Some(ServerMessage::LoginSuccess { player_id }) => player_id,
        _ => panic!("Login failed"),
    }
}

fn is_error(m: &Option<ServerMessage>, code: ErrorCode, text: &str) -> bool {
    matches!(m, Some(ServerMessage::Error { code: c, message }) if *c == code && message == text)
}

#[test]
fn server_test_login() {
    let mut core = ServerCore::new();
    let result = MessageHandler::handle_login(&mut core, "玩家1".to_string());
    assert!(matches!(result, Some(ServerMessage::LoginSuccess { .. })));
}

#[test]
fn server_test_create_room() {
    let mut core = ServerCore::new();
    let player_id = login(&mut core, "玩家1");
    let result = MessageHandler::handle_create_room(&mut core, player_id, RoomType::PvP, None);
    assert!(matches!(result, Some(ServerMessage::RoomCreated { .. })));
}

#[test]
fn login_errors_carry_codes() {
    let mut core = ServerCore::new();
    login(&mut core, "a");
    let taken = MessageHandler::handle_login(&mut core, "a".to_string());
    assert!(is_error(&taken, ErrorCode::NicknameOccupied, "昵称已被占用"));
    let empty = MessageHandler::handle_login(&mut core, String::new());
    assert!(is_error(&empty, ErrorCode::InvalidNickname, "昵称不能为空"));
}

#[test]
fn create_room_against_computer_starts_at_once() {
    let mut core = ServerCore::new();
    let p = login(&mut core, "玩家1");
    let reply = MessageHandler::handle_create_room(&mut core, p, RoomType::PvE(Difficulty::Hard), Some(Side::Black));
    match reply {
        Some(ServerMessage::GameStarted { your_side, red_player, black_player, initial_state }) => {
            assert_eq!(your_side, Side::Black);
            assert_eq!(red_player, "AI (Hard)");
            assert_eq!(black_player, "玩家1");
            assert_eq!(initial_state.current_turn, Side::Red);
        }
        _ => panic!("expected the game to start"),
    }
    let room = core.rooms.get(1).unwrap();
    assert_eq!(room.red_player, Some(AI_PLAYER_ID));
    assert_eq!(room.state, RoomState::Playing);
    assert_eq!(core.players.get(p).unwrap().status, PlayerStatus::InRoom(1));
    // A second room is refused while in one.
    let again = MessageHandler::handle_create_room(&mut core, p, RoomType::PvP, None);
    assert!(is_error(&again, ErrorCode::AlreadyInRoom, "已在房间中"));
}

#[test]
fn join_room_starts_the_game() {
    let mut core = ServerCore::new();
    let mut out = Outbox::new();
    let host = login(&mut core, "主");
    let guest = login(&mut core, "客");
    MessageHandler::handle_create_room(&mut core, host, RoomType::PvP, Some(Side::Black));
    let missing = MessageHandler::handle_join_room(&mut core, &mut out, guest, 99);
    assert!(is_error(&missing, ErrorCode::RoomNotFound, "房间不存在"));
    let reply = MessageHandler::handle_join_room(&mut core, &mut out, guest, 1);
    assert!(matches!(reply, Some(ServerMessage::RoomJoined { room_id: 1, side: Side::Red })));
    assert_eq!(out.messages.len(), 3);
    assert!(matches!(&out.messages[0], (h, ServerMessage::OpponentJoined { nickname }) if *h == host && nickname == "客"));
    assert!(matches!(&out.messages[1], (g, ServerMessage::GameStarted { your_side: Side::Red, .. }) if *g == guest));
    assert!(matches!(&out.messages[2], (h, ServerMessage::GameStarted { your_side: Side::Black, red_player, black_player, .. }) if *h == host && red_player == "客" && black_player == "主"));
    let third = login(&mut core, "三");
    let closed = MessageHandler::handle_join_room(&mut core, &mut out, third, 1);
    assert!(is_error(&closed, ErrorCode::RoomClosed, "房间不可加入"));
}

#[test]
fn list_rooms_shows_waiting_rooms_with_names() {
    let mut core = ServerCore::new();
    let host = login(&mut core, "主");
    MessageHandler::handle_create_room(&mut core, host, RoomType::PvP, None);
    match MessageHandler::handle_list_rooms(&core) {
        Some(ServerMessage::RoomList { rooms }) => {
            assert_eq!(rooms.len(), 1);
            assert_eq!(rooms[0].red_player, Some("主".to_string()));
            assert_eq!(rooms[0].black_player, None);
        }
        _ => panic!("expected a room list"),
    }
}

fn started_pvp(core: &mut ServerCore, out: &mut Outbox) -> (u64, u64) {
    let red = login(core, "红");
    let black = login(core, "黑");
    MessageHandler::handle_create_room(core, red, RoomType::PvP, None);
    MessageHandler::handle_join_room(core, out, black, 1);
    (red, black)
}

#[test]
fn leaving_a_game_loses_it() {
    let mut core = ServerCore::new();
    let mut out = Outbox::new();
    let (red, black) = started_pvp(&mut core, &mut out);
    let before = out.messages.len();
    assert!(MessageHandler::handle_leave_room(&mut core, &mut out, red).is_none());
    assert_eq!(out.messages.len(), before + 1);
    assert!(matches!(out.messages[before], (b, ServerMessage::GameOver { result: GameResult::BlackWin(WinReason::Disconnect) }) if b == black));
    let room = core.rooms.get(1).unwrap();
    assert_eq!(room.state, RoomState::Finished);
    assert_eq!(room.red_player, None);
    assert_eq!(core.players.get(red).unwrap().status, PlayerStatus::Online);
    MessageHandler::handle_leave_room(&mut core, &mut out, black);
    assert!(core.rooms.get(1).is_none());
}

#[test]
fn moves_turns_and_resignation() {
    let mut core = ServerCore::new();
    let mut out = Outbox::new();
    let (red, black) = started_pvp(&mut core, &mut out);
    let from = Position::new_unchecked(1, 2);
    let to = Position::new_unchecked(4, 2);
    let legal = vec![Move::new(from, to)];
    let wrong_turn = MessageHandler::handle_make_move(&mut core, black, from, to, &legal);
    assert!(matches!(wrong_turn, Err(Some(ServerMessage::Error { code: ErrorCode::NotYourTurn, .. }))));
    let illegal = MessageHandler::handle_make_move(&mut core, red, from, Position::new_unchecked(2, 3), &legal);
    assert!(matches!(illegal, Err(Some(ServerMessage::Error { code: ErrorCode::InvalidMove, .. }))));
    assert_eq!(MessageHandler::handle_make_move(&mut core, red, from, to, &legal).ok(), Some(1));
    let ai = MessageHandler::announce_move(&mut core, &mut out, 1, from, to, "炮二平五".to_string(), true, false);
    assert_eq!(ai, None);
    assert_eq!(out.broadcasts.len(), 2);
    assert!(matches!(&out.broadcasts[0], (1, ServerMessage::MoveMade { notation, .. }) if notation == "炮二平五"));
    assert!(matches!(&out.broadcasts[1], (1, ServerMessage::TimeUpdate { .. })));
    assert!(MessageHandler::handle_resign(&mut core, &mut out, black).is_none());
    assert!(matches!(out.broadcasts[2], (1, ServerMessage::GameOver { result: GameResult::RedWin(WinReason::Resign) })));
    let after = MessageHandler::handle_resign(&mut core, &mut out, black);
    assert!(is_error(&after, ErrorCode::GameNotStarted, "游戏未开始"));
}

#[test]
fn checkmate_announced_ends_the_game() {
    let mut core = ServerCore::new();
    let mut out = Outbox::new();
    let (red, _black) = started_pvp(&mut core, &mut out);
    let from = Position::new_unchecked(1, 2);
    let to = Position::new_unchecked(4, 2);
    MessageHandler::handle_make_move(&mut core, red, from, to, &vec![Move::new(from, to)]).unwrap();
    MessageHandler::announce_move(&mut core, &mut out, 1, from, to, String::new(), false, true);
    assert!(matches!(out.broadcasts[2], (1, ServerMessage::GameOver { result: GameResult::RedWin(WinReason::Checkmate) })));
    assert_eq!(core.rooms.get(1).unwrap().state, RoomState::Finished);
}

#[test]
fn undo_between_players_needs_consent() {
    let mut core = ServerCore::new();
    let mut out = Outbox::new();
    let (red, black) = started_pvp(&mut core, &mut out);
    let none_yet = MessageHandler::handle_request_undo(&mut core, &mut out, red);
    assert!(is_error(&none_yet, ErrorCode::UndoNotAllowed, "没有可悔的棋"));
    let from = Position::new_unchecked(1, 2);
    let to = Position::new_unchecked(4, 2);
    MessageHandler::handle_make_move(&mut core, red, from, to, &vec![Move::new(from, to)]).unwrap();
    let n = out.messages.len();
    assert!(MessageHandler::handle_request_undo(&mut core, &mut out, red).is_none());
    assert!(matches!(out.messages[n], (b, ServerMessage::UndoRequested { by: Side::Red }) if b == black));
    MessageHandler::handle_respond_undo(&mut core, &mut out, black, false);
    assert!(matches!(out.messages[n + 1], (r, ServerMessage::UndoRejected) if r == red));
    assert_eq!(core.rooms.get(1).unwrap().move_history.len(), 1);
    MessageHandler::handle_request_undo(&mut core, &mut out, red);
    MessageHandler::handle_respond_undo(&mut core, &mut out, black, true);
    let room = core.rooms.get(1).unwrap();
    assert_eq!(room.move_history.len(), 0);
    assert_eq!(room.undo_requested_by, None);
    assert!(matches!(out.broadcasts.last(), Some((1, ServerMessage::UndoApproved { .. }))));
}

#[test]
fn undo_against_computer_takes_back_two_moves() {
    let mut core = ServerCore::new();
    let mut out = Outbox::new();
    let p = login(&mut core, "玩家");
    MessageHandler::handle_create_room(&mut core, p, RoomType::PvE(Difficulty::Easy), None);
    let from = Position::new_unchecked(1, 2);
    let to = Position::new_unchecked(4, 2);
    MessageHandler::handle_make_move(&mut core, p, from, to, &vec![Move::new(from, to)]).unwrap();
    let reply_move = Move::new(Position::new_unchecked(1, 9), Position::new_unchecked(2, 7));
    assert!(MessageHandler::apply_ai_move(&mut core, &mut out, 1, reply_move, &vec![reply_move]));
    assert_eq!(core.rooms.get(1).unwrap().move_history.len(), 2);
    let reply = MessageHandler::handle_request_undo(&mut core, &mut out, p);
    assert!(matches!(reply, Some(ServerMessage::UndoApproved { .. })));
    let room = core.rooms.get(1).unwrap();
    assert_eq!(room.move_history.len(), 0);
    assert_eq!(room.game_state.unwrap().current_turn, Side::Red);
}

#[test]
fn illegal_computer_move_loses() {
    let mut core = ServerCore::new();
    let mut out = Outbox::new();
    let p = login(&mut core, "玩家");
    MessageHandler::handle_create_room(&mut core, p, RoomType::PvE(Difficulty::Easy), None);
    let bad = Move::new(Position::new_unchecked(0, 0), Position::new_unchecked(0, 1));
    assert!(!MessageHandler::apply_ai_move(&mut core, &mut out, 1, bad, &vec![]));
    assert!(matches!(out.broadcasts[0], (1, ServerMessage::GameOver { result: GameResult::RedWin(WinReason::Resign) })));
}

#[test]
fn pause_resume_and_disconnects() {
    let mut core = ServerCore::new();
    let mut out = Outbox::new();
    let p = login(&mut core, "玩家");
    MessageHandler::handle_create_room(&mut core, p, RoomType::PvE(Difficulty::Medium), None);
    assert!(matches!(MessageHandler::handle_pause(&mut core, p), Some(ServerMessage::GamePaused)));
    let again = MessageHandler::handle_pause(&mut core, p);
    assert!(is_error(&again, ErrorCode::GameNotStarted, "无法暂停"));
    assert!(matches!(MessageHandler::handle_resume(&mut core, p), Some(ServerMessage::GameResumed)));
    assert_eq!(MessageHandler::handle_disconnect(&mut core, &mut out, p), Some(1));
    assert_eq!(core.rooms.get(1).unwrap().state, RoomState::Paused);
    assert_eq!(core.players.get(p).unwrap().status, PlayerStatus::Disconnected(1));
    match MessageHandler::handle_reconnect(&mut core, &mut out, p, 1) {
        Some(ServerMessage::ReconnectSuccess { room_id, your_side, .. }) => {
            assert_eq!(room_id, 1);
            assert_eq!(your_side, Side::Red);
        }
        _ => panic!("expected a reconnection"),
    }
    let unknown = MessageHandler::handle_reconnect(&mut core, &mut out, 77, 1);
    assert!(is_error(&unknown, ErrorCode::PlayerNotFound, "玩家不存在"));
}

#[test]
fn disconnect_timeout_loses_and_removes() {
    let mut core = ServerCore::new();
    let mut out = Outbox::new();
    let (red, black) = started_pvp(&mut core, &mut out);
    assert_eq!(MessageHandler::handle_disconnect(&mut core, &mut out, black), Some(1));
    assert!(matches!(out.messages.last(), Some((r, ServerMessage::OpponentDisconnected { timeout_secs: 60 })) if *r == red));
    MessageHandler::expire_disconnected(&mut core, &mut out, black);
    assert!(matches!(out.messages.last(), Some((r, ServerMessage::GameOver { result: GameResult::RedWin(WinReason::Disconnect) })) if *r == red));
    assert!(!core.players.player_exists(black));
    assert_eq!(core.rooms.get(1).unwrap().state, RoomState::Finished);
}

#[test]
fn computer_names() {
    assert_eq!(ai_display_name(Difficulty::Easy), "AI (Easy)");
    assert_eq!(
        ai_display_name(Difficulty::Custom { depth: 5, time_limit_ms: 1200 }),
        "AI (Custom { depth: 5, time_limit_ms: 1200 })"
    );
}

#[test]
fn save_request_names_and_refusals() {
    let mut core = ServerCore::new();
    let p = login(&mut core, "玩家");
    assert!(MessageHandler::prepare_save(&core, p).is_err());
    MessageHandler::handle_create_room(&mut core, p, RoomType::PvE(Difficulty::Hard), None);
    let req = match MessageHandler::prepare_save(&core, p) {
        Ok(r) => r,
        Err(_) => panic!("expected a save request"),
    };
    assert_eq!(req.red_name, "玩家");
    assert_eq!(req.black_name, "AI");
    assert_eq!(req.ai_difficulty, Some("Hard"));
    assert_eq!(req.moves.len(), 0);
    assert_eq!(difficulty_label(Difficulty::Easy), "Easy");
    assert_eq!(difficulty_from_label("困难"), Some(Difficulty::Hard));
    assert_eq!(difficulty_from_label("x"), None);
    assert_eq!(loaded_room_type("玩家", "AI", Some("简单")), RoomType::PvE(Difficulty::Easy));
    assert_eq!(loaded_room_type("AI", "玩家", None), RoomType::PvE(Difficulty::Medium));
    assert_eq!(loaded_room_type("a", "b", Some("Hard")), RoomType::PvP);
}

#[test]
fn restoring_a_saved_game() {
    let mut core = ServerCore::new();
    let p = login(&mut core, "玩家");
    let (room_id, side) = MessageHandler::begin_loaded_game(&mut core, p, "玩家", "AI", RoomType::PvE(Difficulty::Easy)).ok().unwrap();
    assert_eq!(side, Side::Red);
    let room = core.rooms.get(room_id).unwrap();
    assert_eq!(room.black_player, Some(AI_PLAYER_ID));
    let mv = Move::new(Position::new_unchecked(1, 2), Position::new_unchecked(4, 2));
    assert!(MessageHandler::replay_loaded_move(&mut core, room_id, mv, &vec![mv]).is_none());
    match MessageHandler::finish_loaded_game(&mut core, p, room_id, side, 5000, 6000) {
        Some(ServerMessage::GameLoaded { room_id: r, your_side, game_state }) => {
            assert_eq!(r, room_id);
            assert_eq!(your_side, Side::Red);
            assert_eq!(game_state.current_turn, Side::Black);
        }
        _ => panic!("expected the loaded game"),
    }
    assert_eq!(core.players.get(p).unwrap().status, PlayerStatus::InRoom(room_id));
    assert_eq!(core.rooms.get(room_id).unwrap().get_time_state().1, 6000);
    let refused = MessageHandler::begin_loaded_game(&mut core, p, "玩家", "AI", RoomType::PvP);
    assert!(matches!(refused, Err(ServerMessage::Error { code: ErrorCode::AlreadyInRoom, .. })));
    let bad = Move::new(Position::new_unchecked(0, 0), Position::new_unchecked(5, 5));
    let broken = MessageHandler::replay_loaded_move(&mut core, room_id, bad, &vec![]);
    assert!(is_error(&broken, ErrorCode::InternalError, "棋谱数据损坏"));
    assert!(core.rooms.get(room_id).is_none());
}

#[test]
fn dispatch_routes_messages() {
    let mut core = ServerCore::new();
    let mut out = Outbox::new();
    let id = match MessageHandler::handle(&mut core, &mut out, 0, ClientMessage::Login { nickname: "甲".to_string() }) {
        Dispatch::Reply(Some(ServerMessage::LoginSuccess { player_id })) => player_id,
        _ => panic!("login should succeed"),
    };
    assert!(matches!(
        MessageHandler::handle(&mut core, &mut out, id, ClientMessage::Ping),
        Dispatch::Reply(Some(ServerMessage::Pong))
    ));
    let from = Position::new_unchecked(1, 2);
    let to = Position::new_unchecked(4, 2);
    match MessageHandler::handle(&mut core, &mut out, id, ClientMessage::MakeMove { from, to }) {
        Dispatch::Move { from: f, to: t } => assert!(f == from && t == to),
        _ => panic!("a move is handed back"),
    }
    assert!(matches!(MessageHandler::handle(&mut core, &mut out, id, ClientMessage::SaveGame), Dispatch::Save));
    match MessageHandler::handle(&mut core, &mut out, id, ClientMessage::LoadGame { game_id: "g.json".to_string() }) {
        Dispatch::Load { game_id } => assert_eq!(game_id, "g.json"),
        _ => panic!("a load is handed back"),
    }
    assert!(matches!(
        MessageHandler::handle(&mut core, &mut out, id, ClientMessage::CreateRoom { room_type: RoomType::PvP, preferred_side: None }),
        Dispatch::Reply(Some(ServerMessage::RoomCreated { .. }))
    ));
    match MessageHandler::handle(&mut core, &mut out, id, ClientMessage::PauseGame) {
        Dispatch::Reply(m) => assert!(is_error(&m, ErrorCode::GameNotStarted, "无法暂停")),
        _ => panic!("pause is answered"),
    }
}

#[test]
fn before_login_messages() {
    let mut core = ServerCore::new();
    let mut out = Outbox::new();
    let (reply, logged) = MessageHandler::handle_before_login(&mut core, &mut out, ClientMessage::ListRooms);
    assert!(is_error(&reply, ErrorCode::InvalidNickname, "请先登录"));
    assert!(logged.is_none());
    let (reply, logged) = MessageHandler::handle_before_login(&mut core, &mut out, ClientMessage::Login { nickname: "乙".to_string() });
    assert!(matches!(reply, Some(ServerMessage::LoginSuccess { .. })));
    assert!(logged.is_some());
    let (reply, logged) = MessageHandler::handle_before_login(&mut core, &mut out, ClientMessage::Login { nickname: "乙".to_string() });
    assert!(matches!(reply, Some(ServerMessage::Error { code: ErrorCode::InvalidNickname, .. })));
    assert!(logged.is_none());
    let (reply, logged) = MessageHandler::handle_before_login(&mut core, &mut out, ClientMessage::Reconnect { player_id: 99, room_id: 1 });
    assert!(is_error(&reply, ErrorCode::PlayerNotFound, "玩家不存在"));
    assert!(logged.is_none());
}

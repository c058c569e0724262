use chinese_chess::board::{Move, Position, Side, PieceType};
use chinese_chess::outcome::{DrawReason, GameResult, RoomState, RoomType, WinReason, INITIAL_TIME_MS};
use chinese_chess::search::Difficulty;
use chinese_chess::server::player::{
    PlayerManager, PlayerStatus, NICKNAME_EMPTY, NICKNAME_TAKEN, NICKNAME_TOO_LONG,
};
use chinese_chess::server::room::{game_over_verdict, Room, RoomManager, INVALID_MOVE, NOTHING_TO_UNDO, NOT_STARTED};
use chinese_chess::server::timer::GameTimer;

#[test]
fn player_test_login() {
    let mut manager = PlayerManager::new();
    let id1 = manager.login("玩家1".to_string()).unwrap();
    assert!(id1 > 0);
    let id2 = manager.login("玩家2".to_string()).unwrap();
    assert_ne!(id1, id2);
}

#[test]
fn test_duplicate_nickname() {
    let mut manager = PlayerManager::new();
    manager.login("玩家1".to_string()).unwrap();
    let result = manager.login("玩家1".to_string());
    assert!(result.is_err());
}

#[test]
fn test_invalid_nickname() {
    let mut manager = PlayerManager::new();
    assert!(manager.login("".to_string()).is_err());
    let long_name = "a".repeat(21);
    assert!(manager.login(long_name).is_err());
}

#[test]
fn nickname_errors_and_limits() {
    let mut manager = PlayerManager::new();
    assert_eq!(manager.login("".to_string()), Err(NICKNAME_EMPTY));
    assert_eq!(manager.login("a".repeat(21)), Err(NICKNAME_TOO_LONG));
    // Twenty characters, counted as characters and not bytes, are accepted.
    assert_eq!(manager.login("象".repeat(20)), Ok(1));
    assert_eq!(manager.login("象".repeat(20)), Err(NICKNAME_TAKEN));
    assert_eq!(PlayerManager::validate_nickname("ok"), Ok(()));
    assert_eq!(manager.online_count(), 1);
}

#[test]
fn test_disconnect_reconnect() {
    let mut manager = PlayerManager::new();
    let id = manager.login("玩家1".to_string()).unwrap();
    manager.set_status(id, PlayerStatus::InRoom(100));
    let room_id = manager.disconnect(id);
    assert_eq!(room_id, Some(100));
    let player = manager.get(id).unwrap();
    assert!(matches!(player.status, PlayerStatus::Disconnected(100)));
    let room_id = manager.reconnect(id);
    assert_eq!(room_id, Some(100));
    let player = manager.get(id).unwrap();
    assert!(matches!(player.status, PlayerStatus::InRoom(100)));
}

#[test]
fn disconnect_in_lobby_and_remove() {
    let mut manager = PlayerManager::new();
    let id = manager.login("玩家1".to_string()).unwrap();
    assert_eq!(manager.disconnect(id), None);
    assert_eq!(manager.reconnect(id), None);
    assert_eq!(manager.get_nickname(id), Some("玩家1"));
    assert!(manager.player_exists(id));
    let removed = manager.remove(id).unwrap();
    assert_eq!(removed.nickname, "玩家1");
    assert!(!manager.player_exists(id));
    assert!(manager.get(id).is_none());
    // The nickname is free again.
    assert!(manager.login("玩家1".to_string()).is_ok());
}

#[test]
fn player_get_mut_changes_status() {
    let mut manager = PlayerManager::new();
    let id = manager.login("p".to_string()).unwrap();
    manager.get_mut(id).unwrap().status = PlayerStatus::InRoom(7);
    assert_eq!(manager.get(id).unwrap().status, PlayerStatus::InRoom(7));
    assert!(manager.get_mut(id + 1).is_none());
}

#[test]
fn room_test_create_room() {
    let mut manager = RoomManager::new();
    let id1 = manager.create(RoomType::PvP);
    let id2 = manager.create(RoomType::PvE(Difficulty::Medium));
    assert_ne!(id1, id2);
    assert_eq!(manager.count(), 2);
}

#[test]
fn test_add_player() {
    let mut room = Room::new(1, RoomType::PvP);
    let side1 = room.add_player(100, None);
    assert_eq!(side1, Some(Side::Red));
    let side2 = room.add_player(200, None);
    assert_eq!(side2, Some(Side::Black));
    let side3 = room.add_player(300, None);
    assert_eq!(side3, None);
    assert!(room.is_full());
}

#[test]
fn test_preferred_side() {
    let mut room = Room::new(1, RoomType::PvP);
    let side1 = room.add_player(100, Some(Side::Black));
    assert_eq!(side1, Some(Side::Black));
    let side2 = room.add_player(200, None);
    assert_eq!(side2, Some(Side::Red));
}

#[test]
fn seats_and_opponents() {
    let mut room = Room::new(1, RoomType::PvP);
    room.add_player(100, Some(Side::Red));
    room.add_player(200, Some(Side::Red));
    assert_eq!(room.get_player_side(200), Some(Side::Black));
    assert_eq!(room.get_player_id(Side::Red), Some(100));
    assert_eq!(room.get_opponent_id(100), Some(200));
    assert_eq!(room.get_opponent_id(300), None);
    assert!(room.has_player(200));
    assert_eq!(room.remove_player(100), Some(Side::Red));
    assert_eq!(room.remove_player(100), None);
    assert!(!room.is_full());
    let info = room.info(None, Some("黑".to_string()));
    assert_eq!(info.id, 1);
    assert_eq!(info.black_player, Some("黑".to_string()));
    assert_eq!(info.state, RoomState::Waiting);
}

#[test]
fn test_start_game() {
    let mut room = Room::new(1, RoomType::PvP);
    room.add_player(100, None);
    room.add_player(200, None);
    room.start_game();
    assert_eq!(room.state, RoomState::Playing);
    assert!(room.game_state.is_some());
    assert!(room.timer.is_some());
}

#[test]
fn test_list_joinable() {
    let mut manager = RoomManager::new();
    let id1 = manager.create(RoomType::PvP);
    let id2 = manager.create(RoomType::PvP);
    let _id3 = manager.create(RoomType::PvE(Difficulty::Easy));
    {
        let room = manager.get_mut(id1).unwrap();
        room.add_player(100, None);
        room.add_player(200, None);
        room.start_game();
    }
    let joinable = manager.list_joinable();
    assert_eq!(joinable.len(), 1);
    assert_eq!(joinable[0].id, id2);
}

#[test]
fn find_player_room_and_remove() {
    let mut manager = RoomManager::new();
    let id1 = manager.create(RoomType::PvP);
    manager.get_mut(id1).unwrap().add_player(5, None);
    assert_eq!(manager.find_player_room(5), Some(id1));
    assert_eq!(manager.find_player_room(6), None);
    assert!(manager.remove(id1).is_some());
    assert!(manager.get(id1).is_none());
    assert_eq!(manager.count(), 0);
}

fn cannon_to_center() -> Move {
    Move::new(Position::new_unchecked(1, 2), Position::new_unchecked(4, 2))
}

#[test]
fn make_move_and_undo_round_trip() {
    let mut room = Room::new(1, RoomType::PvP);
    assert_eq!(room.make_move(cannon_to_center(), &vec![cannon_to_center()]), Err(NOT_STARTED));
    room.start_game();
    let before = room.game_state.unwrap();
    let wrong = Move::new(Position::new_unchecked(1, 2), Position::new_unchecked(2, 3));
    assert_eq!(room.make_move(wrong, &vec![cannon_to_center()]), Err(INVALID_MOVE));
    assert_eq!(room.make_move(cannon_to_center(), &vec![cannon_to_center()]), Ok(()));
    let after = room.game_state.unwrap();
    assert_eq!(after.current_turn, Side::Black);
    assert_eq!(after.no_capture_count, 1);
    assert_eq!(after.board.get(Position::new_unchecked(4, 2)).unwrap().piece_type, PieceType::Cannon);
    assert_eq!(room.move_history.len(), 1);
    assert_eq!(room.timer.as_ref().unwrap().current_turn(), Side::Black);

    let undone = room.undo_move().unwrap();
    assert_eq!(undone.from, cannon_to_center().from);
    assert_eq!(undone.captured, None);
    let restored = room.game_state.unwrap();
    assert_eq!(restored.current_turn, before.current_turn);
    assert_eq!(restored.no_capture_count, before.no_capture_count);
    for y in 0..10u8 {
        for x in 0..9u8 {
            let p = Position::new_unchecked(x, y);
            assert_eq!(restored.board.get(p), before.board.get(p));
        }
    }
    assert_eq!(room.undo_move(), Err(NOTHING_TO_UNDO));
}

#[test]
fn capture_is_restored_by_undo() {
    let mut room = Room::new(1, RoomType::PvP);
    room.start_game();
    // Red cannon takes the black knight on (1, 9).
    let take = Move::new(Position::new_unchecked(1, 2), Position::new_unchecked(1, 9));
    room.make_move(take, &vec![take]).unwrap();
    let s = room.game_state.unwrap();
    assert_eq!(s.no_capture_count, 0);
    let recorded = room.move_history[0];
    assert_eq!(recorded.captured.unwrap().piece_type, PieceType::Knight);
    room.undo_move().unwrap();
    let r = room.game_state.unwrap();
    assert_eq!(r.board.get(Position::new_unchecked(1, 9)).unwrap().piece_type, PieceType::Knight);
    assert_eq!(r.board.get(Position::new_unchecked(1, 2)).unwrap().piece_type, PieceType::Cannon);
}

#[test]
fn pause_only_in_games_against_the_computer() {
    let mut pvp = Room::new(1, RoomType::PvP);
    pvp.start_game();
    assert!(!pvp.pause());
    let mut pve = Room::new(2, RoomType::PvE(Difficulty::Easy));
    pve.start_game();
    assert!(pve.pause());
    assert_eq!(pve.state, RoomState::Paused);
    assert!(pve.timer.as_ref().unwrap().is_paused());
    assert!(!pve.pause());
    assert!(pve.resume());
    assert_eq!(pve.state, RoomState::Playing);
    pve.finish(GameResult::RedWin(WinReason::Resign));
    assert_eq!(pve.state, RoomState::Finished);
}

#[test]
fn game_over_decisions() {
    assert_eq!(
        game_over_verdict(Side::Red, false, true, None, 0),
        Some(GameResult::BlackWin(WinReason::Checkmate))
    );
    assert_eq!(
        game_over_verdict(Side::Black, false, true, None, 0),
        Some(GameResult::RedWin(WinReason::Checkmate))
    );
    assert_eq!(game_over_verdict(Side::Red, false, false, None, 0), Some(GameResult::Draw(DrawReason::Stalemate)));
    assert_eq!(
        game_over_verdict(Side::Red, true, false, Some((0, 5)), 0),
        Some(GameResult::BlackWin(WinReason::Timeout))
    );
    assert_eq!(
        game_over_verdict(Side::Red, true, false, Some((5, 0)), 0),
        Some(GameResult::RedWin(WinReason::Timeout))
    );
    assert_eq!(game_over_verdict(Side::Red, true, false, None, 120), Some(GameResult::Draw(DrawReason::FiftyMoves)));
    assert_eq!(game_over_verdict(Side::Red, true, false, Some((5, 5)), 119), None);
}

#[test]
fn check_game_over_without_game() {
    let room = Room::new(1, RoomType::PvP);
    assert_eq!(room.check_game_over(false, true), None);
    assert_eq!(room.get_time_state(), (0, 0));
}

#[test]
fn test_timer_initial() {
    let timer = GameTimer::new();
    assert_eq!(timer.red_time_ms(), INITIAL_TIME_MS);
    assert_eq!(timer.black_time_ms(), INITIAL_TIME_MS);
    assert_eq!(timer.current_turn(), Side::Red);
}

#[test]
fn timer_time_left_formula() {
    let t = GameTimer::with_time(1000);
    assert_eq!(t.time_left(Side::Red, 300), 700);
    assert_eq!(t.time_left(Side::Red, 5000), 0);
    assert_eq!(t.time_left(Side::Black, 300), 1000);
}

#[test]
fn timer_set_times_and_pause() {
    let mut t = GameTimer::new();
    t.set_times(5000, 7000);
    t.pause();
    assert!(t.is_paused());
    assert_eq!(t.black_time_ms(), 7000);
    assert!(t.red_time_ms() <= 5000);
    assert!(!t.is_timeout(Side::Black));
    t.stop();
    assert!(t.is_paused());
}

fn wait_ms(ms: u64) {
    let start = std::time::Instant::now();
    while start.elapsed() < std::time::Duration::from_millis(ms) {}
}

#[test]
fn test_timer_switch() {
    let mut timer = GameTimer::new();
    wait_ms(200);
    let red_time = timer.red_time_ms();
    assert!(red_time < INITIAL_TIME_MS);
    timer.switch_turn();
    assert_eq!(timer.current_turn(), Side::Black);
    let red_time_after = timer.red_time_ms();
    wait_ms(100);
    assert_eq!(timer.red_time_ms(), red_time_after);
}

#[test]
fn test_timer_pause_resume() {
    let mut timer = GameTimer::new();
    wait_ms(200);
    timer.pause();
    let time_at_pause = timer.red_time_ms();
    wait_ms(200);
    assert_eq!(timer.red_time_ms(), time_at_pause);
    timer.resume();
    wait_ms(200);
    assert!(timer.red_time_ms() < time_at_pause);
}

use chinese_chess::board::{BoardState, Move, Piece, PieceType, Position, Side};
use chinese_chess::client::{ClientGame, GameMode};
use chinese_chess::editor::state::{piece_to_chinese, BoardEditorState, OpponentType};
use chinese_chess::editor::validation::{validate_board_layout, BoardValidation};
use chinese_chess::llm::engine::LlmEngine;
use chinese_chess::llm::prompt::PromptTemplate;
use chinese_chess::outcome::{DrawReason, GameResult, WinReason};
use chinese_chess::search::Difficulty;
use chinese_chess::settings::{
    BoardFlip, FrameRateLimit, FullscreenMode, LogLevel, Resolution, TimeLimit,
};
use chinese_chess::client::GameState;
use chinese_chess::editor::actions::{
    handle_board_cell_click, handle_editor_action, handle_tool_action, EditorAction, ToolAction,
};
use chinese_chess::menu::{
    handle_button_action, handle_lobby_action, room_can_join, room_closed_text, room_player_count, room_status_text,
    room_type_text, LobbyAction, MenuAction,
};
use chinese_chess::local_game::{
    analysis_result_text, clock_text, execute_local_move, move_history_lines, get_draw_reason, get_win_reason, handle_game_event,
    record_difficulty, record_opponent_name, restore_saved_game, saved_difficulty, update_local_timer,
    check_game_over, handle_ai_move, handle_ai_result, handle_game_over_action, GameEvent, GameOverAction,
    SavedMove, game_over_subtitle, game_over_title,
};
use chinese_chess::settings_menu::{
    handle_settings_action, GameSettings, SettingsAction, SettingsEffect, SettingsTab,
};
use chinese_chess::network::{ClientMessage, NetworkEvent, NetworkState, PendingAction};
use chinese_chess::outcome::{RoomState, RoomType};
use chinese_chess::server::handler::ServerMessage;
use chinese_chess::server::room::RoomInfo;

#[test]
fn settings_cycle_forward_and_back() {
    let mut t = TimeLimit::default();
    assert_eq!(t, TimeLimit::Unlimited);
    for _ in 0..4 {
        t = t.next();
    }
    assert_eq!(t, TimeLimit::Unlimited);
    assert_eq!(TimeLimit::Unlimited.prev(), TimeLimit::SixtyMinutes);
    assert_eq!(TimeLimit::TenMinutes.to_millis(), 600_000);
    assert_eq!(TimeLimit::Unlimited.to_millis(), u64::MAX);
    assert_eq!(TimeLimit::all().len(), 4);
    assert_eq!(TimeLimit::ThirtyMinutes.display_name(), "30 分钟");
    assert_eq!(BoardFlip::Auto.next(), BoardFlip::RedBottom);
    assert_eq!(BoardFlip::RedBottom.prev(), BoardFlip::Auto);
    assert_eq!(Resolution::default(), Resolution::R1280x720);
    assert_eq!(Resolution::R1920x1080.width(), 1920);
    assert_eq!(Resolution::R1920x1080.height(), 1080);
    assert_eq!(Resolution::R2560x1440.next(), Resolution::R1024x768);
    assert_eq!(FullscreenMode::Windowed.prev(), FullscreenMode::ExclusiveFullscreen);
    assert_eq!(FrameRateLimit::default().display_name(), "60 FPS");
    assert_eq!(LogLevel::Trace.next(), LogLevel::Error);
    assert_eq!(LogLevel::default(), LogLevel::Info);
    for l in [LogLevel::Error, LogLevel::Warn, LogLevel::Info, LogLevel::Debug, LogLevel::Trace] {
        assert_eq!(l.next().prev(), l);
        assert_eq!(l.prev().next(), l);
    }
}

#[test]
fn editor_places_and_removes_pieces() {
    let mut e = BoardEditorState::default();
    assert_eq!(e.opponent_type, OpponentType::AI);
    e.place_piece(0, 0);
    assert!(e.board.get(Position::new_unchecked(0, 0)).is_none());
    assert!(!e.is_modified);
    let rook = Piece::new(PieceType::Rook, Side::Red);
    e.select_piece(rook);
    e.place_piece(0, 0);
    assert_eq!(e.board.get(Position::new_unchecked(0, 0)), Some(rook));
    assert!(e.is_modified);
    e.place_piece(9, 0);
    e.remove_piece(0, 0);
    assert!(e.board.get(Position::new_unchecked(0, 0)).is_none());
    e.deselect();
    assert!(e.selected_piece.is_none());
    e.set_kings_only();
    assert_eq!(
        e.board.get(Position::new_unchecked(4, 0)),
        Some(Piece::new(PieceType::King, Side::Red))
    );
    assert_eq!(
        e.board.get(Position::new_unchecked(4, 9)),
        Some(Piece::new(PieceType::King, Side::Black))
    );
    // The two kings face each other on an open file: the layout is refused.
    let v = validate_board_layout(&e.board);
    assert!(!v.is_valid());
    e.clear();
    assert!(e.board.get(Position::new_unchecked(4, 0)).is_none());
    e.set_initial();
    assert!(validate_board_layout(&e.board).is_valid());
    assert!(BoardValidation::default().is_valid());
}

#[test]
fn piece_characters() {
    assert_eq!(piece_to_chinese(Piece::new(PieceType::King, Side::Red)), "帥");
    assert_eq!(piece_to_chinese(Piece::new(PieceType::Cannon, Side::Black)), "砲");
    assert_eq!(piece_to_chinese(Piece::new(PieceType::Rook, Side::Black)), "車");
    assert_eq!(piece_to_chinese(Piece::new(PieceType::Pawn, Side::Black)), "卒");
}

#[test]
fn game_mode_queries() {
    let m = GameMode::OnlinePvE { room_id: 7, difficulty: Difficulty::Hard };
    assert!(m.is_pve());
    assert!(m.is_online());
    assert!(!m.is_local());
    assert_eq!(m.difficulty(), Some(Difficulty::Hard));
    assert_eq!(m.room_id(), Some(7));
    assert_eq!(GameMode::LocalPvP.room_id(), None);
    assert_eq!(GameMode::LocalPvP.difficulty(), None);
}

fn cannon_move() -> Move {
    Move::new(Position::new_unchecked(1, 2), Position::new_unchecked(4, 2))
}

#[test]
fn client_game_selection_and_turns() {
    let mut g = ClientGame::default();
    g.start_local_pve(Difficulty::Easy);
    assert!(g.is_my_turn());
    assert!(g.is_pve());
    assert!(g.is_local());
    assert!(!g.should_ai_move());
    let legal = vec![cannon_move(), Move::new(Position::new_unchecked(1, 2), Position::new_unchecked(1, 4))];
    g.select_piece(1, 2, &legal);
    assert_eq!(g.selected_piece, Some(Position::new_unchecked(1, 2)));
    assert_eq!(g.valid_moves, vec![Position::new_unchecked(4, 2), Position::new_unchecked(1, 4)]);
    g.select_piece(4, 2, &legal);
    assert_eq!(g.selected_piece, Some(Position::new_unchecked(1, 2)));
    g.select_piece(4, 5, &legal);
    assert_eq!(g.selected_piece, None);
    assert!(g.valid_moves.is_empty());
}

#[test]
fn local_undo_restores_two_moves() {
    let mut g = ClientGame::default();
    g.start_local_pve(Difficulty::Easy);
    let start = g.game_state.unwrap();
    let mut s1 = start;
    s1.board.move_piece(Position::new_unchecked(1, 2), Position::new_unchecked(4, 2));
    s1.switch_turn();
    g.update_state(s1, Position::new_unchecked(1, 2), Position::new_unchecked(4, 2), "炮二平五".to_string());
    assert!(g.should_ai_move());
    let mut s2 = s1;
    s2.board.move_piece(Position::new_unchecked(1, 9), Position::new_unchecked(2, 7));
    s2.switch_turn();
    g.update_state(s2, Position::new_unchecked(1, 9), Position::new_unchecked(2, 7), "马8进7".to_string());
    assert_eq!(g.total_moves(), 2);
    assert_eq!(g.total_rounds(), 1);
    assert!(g.can_undo());
    assert!(g.local_undo());
    assert_eq!(g.total_moves(), 0);
    assert_eq!(g.state_history.len(), 1);
    assert_eq!(g.last_move, None);
    let back = g.game_state.unwrap();
    assert_eq!(back.current_turn, start.current_turn);
    for y in 0..10u8 {
        for x in 0..9u8 {
            let p = Position::new_unchecked(x, y);
            assert_eq!(back.board.get(p), start.board.get(p));
        }
    }
    assert!(!g.local_undo());
}

#[test]
fn client_clock_and_results() {
    let mut g = ClientGame::default();
    g.start_game(BoardState::initial(), Side::Black, GameMode::OnlinePvP { room_id: 3 });
    g.update_time(1000, 2000);
    assert_eq!(g.my_time_ms(), 2000);
    assert_eq!(g.opponent_time_ms(), 1000);
    assert_eq!(g.current_turn(), Some(Side::Red));
    assert!(!g.is_my_turn());
    g.set_result(GameResult::BlackWin(WinReason::Timeout));
    assert_eq!(g.is_player_win(), Some(true));
    g.set_result(GameResult::Draw(DrawReason::Agreement));
    assert_eq!(g.is_player_win(), None);
    g.update_state(BoardState::initial(), Position::new_unchecked(0, 0), Position::new_unchecked(0, 1), "x".to_string());
    g.update_state(BoardState::initial(), Position::new_unchecked(0, 1), Position::new_unchecked(0, 2), "y".to_string());
    g.undo(BoardState::initial(), 1);
    assert_eq!(g.total_moves(), 1);
    assert_eq!(g.last_move, Some((Position::new_unchecked(0, 0), Position::new_unchecked(0, 1))));
    assert!(!g.waiting_undo_response);
    assert!(!g.can_undo());
    assert!(g.can_undo_at_game_over());
    g.reset();
    assert!(g.game_state.is_none());
}

#[test]
fn engine_history() {
    let mut engine = LlmEngine::new();
    assert_eq!(engine.max_retries(), 3);
    engine.add_move(cannon_move());
    assert_eq!(engine.move_history().len(), 1);
    engine.clear_history();
    assert_eq!(engine.move_history().len(), 0);
    engine.set_max_retries(5);
    assert_eq!(engine.max_retries(), 5);
}

#[test]
fn move_request_prompt_lists_recent_moves() {
    let moves: Vec<Move> = (0..12u8)
        .map(|i| Move::new(Position::new_unchecked(i % 9, 0), Position::new_unchecked(i % 9, 1)))
        .collect();
    let prompt = PromptTemplate::move_request_prompt("BOARD", &moves);
    assert!(prompt.starts_with("BOARD\n最近走法: (2,0)->(2,1), (3,0)->(3,1)"));
    assert_eq!(prompt.matches("->").count(), 10);
    assert!(prompt.contains("请分析当前局势"));
    assert!(prompt.contains(r#""from""#));
    assert!(prompt.contains(r#""to""#));
    let none = PromptTemplate::move_request_prompt("B", &vec![]);
    assert!(none.starts_with("B\n\n请分析当前局势"));
}

#[test]
fn summary_and_analysis_prompts() {
    let moves = vec![
        cannon_move(),
        Move::new(Position::new_unchecked(1, 7), Position::new_unchecked(2, 5)),
        Move::new(Position::new_unchecked(7, 0), Position::new_unchecked(6, 2)),
    ];
    let s = PromptTemplate::game_summary_prompt("B", &moves[..1].to_vec(), "红方胜");
    assert!(s.contains("对局进行总结分析"));
    assert!(s.contains("1. 红 (1,2)->(4,2)\n"));
    assert!(s.contains("红方胜"));
    assert!(s.contains("开局阶段评价"));
    let notes = vec![Some("炮二平五".to_string()), None, Some("马二进三".to_string())];
    let a = PromptTemplate::game_analysis_prompt("D", &moves, &notes, "红方胜（将死）", "玩家1", "AI-困难");
    assert!(a.contains("复盘分析"));
    assert!(a.contains("红方：玩家1"));
    assert!(a.contains("黑方：AI-困难"));
    assert!(a.contains("- 总步数：3\n"));
    assert!(a.contains("1. 炮二平五  (1,7)->(2,5)\n2. 马二进三\n"));
    assert!(a.contains("opening_review"));
    assert!(a.contains("key_moments"));
    assert!(a.contains("overall_rating"));
    let h = PromptTemplate::format_move_history(&vec![], &vec![]);
    assert_eq!(h, "历史走法: 无\n");
    let b = PromptTemplate::format_board_state("X", "fen", Side::Red, 12);
    assert!(b.contains("当前棋盘状态"));
    assert!(b.contains("FEN: fen\n"));
    assert!(b.contains("轮到: 红方"));
    assert!(b.contains("回合: 12\n"));
}

#[test]
fn network_quick_match_flow() {
    let mut net = NetworkState::default();
    let mut game = ClientGame::default();
    let a = net.handle_network_event(NetworkEvent::Connect { addr: "127.0.0.1:9527".to_string(), nickname: "我".to_string() });
    assert_eq!(a.screen, Some(GameState::Connecting));
    assert_eq!(net.nickname, "我");
    net.pending_action = PendingAction::QuickMatch;
    let (send, screen) = net.handle_server_message(&mut game, ServerMessage::LoginSuccess { player_id: 4 });
    assert!(matches!(send, Some(ClientMessage::ListRooms)));
    assert_eq!(screen, None);
    assert!(net.is_quick_matching);
    let rooms = vec![
        RoomInfo { id: 1, room_type: RoomType::PvE(Difficulty::Easy), red_player: None, black_player: None, state: RoomState::Waiting },
        RoomInfo { id: 2, room_type: RoomType::PvP, red_player: Some("x".to_string()), black_player: None, state: RoomState::Waiting },
    ];
    let (send, _) = net.handle_server_message(&mut game, ServerMessage::RoomList { rooms });
    assert!(matches!(send, Some(ClientMessage::JoinRoom { room_id: 2 })));
    assert!(!net.is_quick_matching);
    let (_, screen) = net.handle_server_message(
        &mut game,
        ServerMessage::GameStarted { initial_state: BoardState::initial(), your_side: Side::Black, red_player: "x".to_string(), black_player: "我".to_string() },
    );
    assert_eq!(screen, Some(GameState::Playing));
    assert_eq!(game.player_side, Some(Side::Black));
    assert_eq!(game.game_mode, Some(GameMode::OnlinePvP { room_id: 0 }));
    let a = net.handle_network_event(NetworkEvent::SendMove { from: Position::new_unchecked(0, 0), to: Position::new_unchecked(0, 1) });
    assert!(matches!(a.send, Some(ClientMessage::MakeMove { .. })));
    let a = net.handle_network_event(NetworkEvent::Disconnect);
    assert!(a.disconnect);
    assert_eq!(net.player_id, None);
}

#[test]
fn quick_match_times_out() {
    let mut net = NetworkState::default();
    assert!(!net.check_quick_match_timeout(Some(100)));
    net.is_quick_matching = true;
    assert!(!net.check_quick_match_timeout(Some(10)));
    assert!(net.check_quick_match_timeout(Some(11)));
    assert!(!net.is_quick_matching);
}

#[test]
fn settings_defaults() {
    let s = GameSettings::default();
    assert_eq!(s.ai_timeout_secs, 10);
    assert_eq!(s.default_difficulty, Difficulty::Medium);
    assert_eq!(s.server_address, "127.0.0.1:9527");
    assert_eq!(s.nickname, "玩家");
    assert_eq!(s.master_volume, 100);
    assert!(s.vsync && s.show_move_hints && !s.show_fps);
    assert_eq!(SettingsTab::default(), SettingsTab::Game);
    assert_eq!(SettingsTab::all().len(), 5);
    assert_eq!(SettingsTab::Network.display_name(), "网络");
}

#[test]
fn settings_buttons_adjust_and_leave() {
    let mut s = GameSettings::default();
    let mut tab = SettingsTab::Game;
    assert_eq!(handle_settings_action(&SettingsAction::SwitchTab(SettingsTab::Audio), &mut s, &mut tab), SettingsEffect::Stay);
    assert_eq!(tab, SettingsTab::Audio);
    assert_eq!(handle_settings_action(&SettingsAction::TimeLimitNext, &mut s, &mut tab), SettingsEffect::Stay);
    assert_eq!(s.time_limit, TimeLimit::TenMinutes);
    handle_settings_action(&SettingsAction::DifficultyNext, &mut s, &mut tab);
    assert_eq!(s.default_difficulty, Difficulty::Hard);
    handle_settings_action(&SettingsAction::DifficultyNext, &mut s, &mut tab);
    assert_eq!(s.default_difficulty, Difficulty::Easy);
    handle_settings_action(&SettingsAction::DifficultyPrev, &mut s, &mut tab);
    assert_eq!(s.default_difficulty, Difficulty::Hard);
    handle_settings_action(&SettingsAction::ToggleVsync, &mut s, &mut tab);
    assert!(!s.vsync);
    assert_eq!(handle_settings_action(&SettingsAction::AnimationSpeedIncrease, &mut s, &mut tab), SettingsEffect::AnimationSpeedUp);
    assert_eq!(handle_settings_action(&SettingsAction::AnimationSpeedDecrease, &mut s, &mut tab), SettingsEffect::AnimationSpeedDown);
    assert_eq!(handle_settings_action(&SettingsAction::RestoreDefaults, &mut s, &mut tab), SettingsEffect::DefaultsRestored);
    assert!(s.vsync);
    assert_eq!(s.time_limit, TimeLimit::Unlimited);
    assert_eq!(tab, SettingsTab::Audio);
    assert_eq!(handle_settings_action(&SettingsAction::Save, &mut s, &mut tab), SettingsEffect::Save);
    assert_eq!(handle_settings_action(&SettingsAction::Cancel, &mut s, &mut tab), SettingsEffect::Cancel);
}

#[test]
fn settings_ai_timeout_stays_within_range() {
    let mut s = GameSettings::default();
    let mut tab = SettingsTab::Game;
    for _ in 0..40 {
        handle_settings_action(&SettingsAction::AiTimeoutIncrease, &mut s, &mut tab);
    }
    assert_eq!(s.ai_timeout_secs, 30);
    for _ in 0..40 {
        handle_settings_action(&SettingsAction::AiTimeoutDecrease, &mut s, &mut tab);
    }
    assert_eq!(s.ai_timeout_secs, 5);
    handle_settings_action(&SettingsAction::AiTimeoutIncrease, &mut s, &mut tab);
    handle_settings_action(&SettingsAction::AiTimeoutDecrease, &mut s, &mut tab);
    assert_eq!(s.ai_timeout_secs, 5);
}

fn local_game() -> ClientGame {
    let mut g = ClientGame::new();
    g.start_local_pve(Difficulty::Easy);
    g
}

#[test]
fn local_move_is_played_when_legal() {
    let mut g = local_game();
    let from = Position::new_unchecked(1, 2);
    let to = Position::new_unchecked(4, 2);
    let legal = vec![Move::new(from, to)];
    assert!(execute_local_move(&mut g, from, to, &legal, "炮二平五".to_string()));
    let s = g.game_state.unwrap();
    assert_eq!(s.current_turn, Side::Black);
    assert!(s.board.get(from).is_none());
    assert_eq!(s.board.get(to).unwrap().piece_type, PieceType::Cannon);
    assert_eq!(g.move_history.len(), 1);
    assert_eq!(g.move_history[0].notation, "炮二平五");
    assert_eq!(g.last_move, Some((from, to)));
}

#[test]
fn local_move_is_refused_when_not_legal() {
    let mut g = local_game();
    let from = Position::new_unchecked(1, 2);
    let to = Position::new_unchecked(4, 2);
    assert!(!execute_local_move(&mut g, from, to, &Vec::new(), "x".to_string()));
    assert_eq!(g.move_history.len(), 0);
    assert_eq!(g.game_state.unwrap().current_turn, Side::Red);
}

#[test]
fn game_events_local_and_online() {
    let mut g = local_game();
    let (send, screen) = handle_game_event(&mut g, GameEvent::Resign, &Vec::new(), String::new());
    assert!(send.is_none());
    assert_eq!(screen, Some(GameState::GameOver));
    assert_eq!(g.game_result, Some(GameResult::BlackWin(WinReason::Resign)));
    assert_eq!(get_win_reason(&g), "对方认输");
    assert_eq!(get_draw_reason(&g), "");

    let mut online = ClientGame::new();
    online.start_game(BoardState::initial(), Side::Red, GameMode::OnlinePvP { room_id: 3 });
    let ev = GameEvent::MovePiece { from_x: 0, from_y: 0, to_x: 0, to_y: 1 };
    let (send, screen) = handle_game_event(&mut online, ev, &Vec::new(), String::new());
    assert!(matches!(send, Some(NetworkEvent::SendMove { .. })));
    assert!(screen.is_none());
    let (send, _) = handle_game_event(&mut online, GameEvent::PauseGame, &Vec::new(), String::new());
    assert!(matches!(send, Some(NetworkEvent::SendPause)));
    assert!(!online.is_paused);

    let (send, _) = handle_game_event(&mut g, GameEvent::PauseGame, &Vec::new(), String::new());
    assert!(send.is_none());
    assert!(g.is_paused);
}

#[test]
fn local_timer_runs_out() {
    let mut g = local_game();
    g.red_time_ms = 500;
    g.black_time_ms = 900;
    assert_eq!(update_local_timer(&mut g, TimeLimit::TenMinutes, 200), None);
    assert_eq!(g.red_time_ms, 300);
    assert_eq!(update_local_timer(&mut g, TimeLimit::Unlimited, 1000), None);
    assert_eq!(g.red_time_ms, 300);
    assert_eq!(update_local_timer(&mut g, TimeLimit::TenMinutes, 1000), Some(GameState::GameOver));
    assert_eq!(g.red_time_ms, 0);
    assert_eq!(g.game_result, Some(GameResult::BlackWin(WinReason::Timeout)));
    assert_eq!(get_win_reason(&g), "对方超时");
    assert_eq!(analysis_result_text(&g), "黑方胜（Timeout）");
}

#[test]
fn record_names_and_restore() {
    let g = local_game();
    assert_eq!(record_opponent_name(&g), "AI-Easy");
    assert_eq!(record_difficulty(&g), Some("Easy".to_string()));
    let mut pvp = ClientGame::new();
    pvp.start_game(BoardState::initial(), Side::Red, GameMode::LocalPvP);
    assert_eq!(record_opponent_name(&pvp), "对手");
    assert_eq!(record_difficulty(&pvp), None);
    assert_eq!(analysis_result_text(&pvp), "未知结果");

    assert_eq!(saved_difficulty(Some("困难")), Difficulty::Hard);
    assert_eq!(saved_difficulty(Some("Easy")), Difficulty::Easy);
    assert_eq!(saved_difficulty(Some("whatever")), Difficulty::Medium);
    assert_eq!(saved_difficulty(None), Difficulty::Medium);

    let moves = vec![
        SavedMove { from_x: 1, from_y: 2, to_x: 4, to_y: 2, notation: "炮二平五".to_string() },
        SavedMove { from_x: 20, from_y: 2, to_x: 4, to_y: 2, notation: "bad".to_string() },
        SavedMove { from_x: 1, from_y: 9, to_x: 2, to_y: 7, notation: "马8进7".to_string() },
    ];
    let mut g = ClientGame::new();
    restore_saved_game(&mut g, BoardState::initial(), &moves, Some("Hard"), Some((480000, 540000)));
    let s = g.game_state.unwrap();
    assert_eq!(s.current_turn, Side::Red);
    assert_eq!(g.move_history.len(), 2);
    assert_eq!(g.move_history[1].notation, "马8进7");
    assert_eq!(g.game_mode, Some(GameMode::LocalPvE { difficulty: Difficulty::Hard }));
    assert_eq!(g.red_time_ms, 480000);
    assert_eq!(g.black_time_ms, 540000);
    assert_eq!(g.state_history.len(), 1);
    assert!(s.board.get(Position::new_unchecked(2, 7)).is_some());
}

#[test]
fn clock_and_history_texts() {
    assert_eq!(clock_text(605000), "10:05");
    assert_eq!(clock_text(59999), "00:59");
    assert_eq!(clock_text(0), "00:00");
    assert_eq!(clock_text(86_400_000), "1440:00");
    assert_eq!(clock_text(86_400_001), "--:--");
    let mut g = local_game();
    let legal = vec![
        Move::new(Position::new_unchecked(1, 2), Position::new_unchecked(4, 2)),
    ];
    execute_local_move(&mut g, Position::new_unchecked(1, 2), Position::new_unchecked(4, 2), &legal, "炮二平五".to_string());
    let legal2 = vec![Move::new(Position::new_unchecked(1, 9), Position::new_unchecked(2, 7))];
    execute_local_move(&mut g, Position::new_unchecked(1, 9), Position::new_unchecked(2, 7), &legal2, "马8进7".to_string());
    let lines = move_history_lines(&g);
    assert_eq!(lines, vec!["1. 炮二平五".to_string(), "   马8进7".to_string()]);
}

#[test]
fn game_over_buttons() {
    let mut g = local_game();
    g.game_result = Some(GameResult::RedWin(WinReason::Checkmate));
    let step = handle_game_over_action(&mut g, GameOverAction::PlayAgain, TimeLimit::TenMinutes, "127.0.0.1:9527", "玩家");
    assert_eq!(step.screen, Some(GameState::Playing));
    assert!(!step.disconnect && step.send.is_none());
    assert_eq!(g.game_mode, Some(GameMode::LocalPvE { difficulty: Difficulty::Easy }));
    assert_eq!(g.red_time_ms, 600_000);
    assert!(g.game_result.is_none());

    let mut online = ClientGame::new();
    online.start_game(BoardState::initial(), Side::Black, GameMode::OnlinePvE { room_id: 7, difficulty: Difficulty::Hard });
    let step = handle_game_over_action(&mut online, GameOverAction::PlayAgain, TimeLimit::Unlimited, "host:1", "甲");
    assert!(step.disconnect);
    assert!(matches!(step.send, Some(NetworkEvent::Connect { ref addr, ref nickname }) if addr == "host:1" && nickname == "甲"));
    assert_eq!(online.game_mode, Some(GameMode::OnlinePvE { room_id: 0, difficulty: Difficulty::Hard }));
    assert_eq!(online.player_side, Some(Side::Red));

    let step = handle_game_over_action(&mut online, GameOverAction::BackToMenu, TimeLimit::Unlimited, "", "");
    assert_eq!(step.screen, Some(GameState::Menu));
    assert!(step.disconnect);
    assert!(online.game_state.is_none());

    let step = handle_game_over_action(&mut g, GameOverAction::ExportGame, TimeLimit::Unlimited, "", "");
    assert!(step.export && !step.analyze);
    let step = handle_game_over_action(&mut g, GameOverAction::Undo, TimeLimit::Unlimited, "", "");
    assert!(step.screen.is_none());
}

#[test]
fn menu_and_lobby_buttons() {
    let mut g = ClientGame::new();
    let mut net = NetworkState::new();
    let step = handle_button_action(MenuAction::PlayVsAi(Difficulty::Hard), &mut g, &mut net, TimeLimit::ThirtyMinutes, "a:1", "乙");
    assert_eq!(step.screen, Some(GameState::Playing));
    assert_eq!(g.red_time_ms, 1_800_000);
    assert_eq!(g.game_mode, Some(GameMode::LocalPvE { difficulty: Difficulty::Hard }));
    let step = handle_button_action(MenuAction::JoinRoom, &mut g, &mut net, TimeLimit::Unlimited, "a:1", "乙");
    assert_eq!(step.screen, Some(GameState::Lobby));
    assert!(matches!(net.pending_action, PendingAction::ListRooms));
    assert!(matches!(step.send, Some(NetworkEvent::Connect { ref addr, .. }) if addr == "a:1"));
    let step = handle_button_action(MenuAction::CreatePvPRoom, &mut g, &mut net, TimeLimit::Unlimited, "a:1", "乙");
    assert!(step.screen.is_none());
    assert!(matches!(net.pending_action, PendingAction::CreateRoom { room_type: RoomType::PvP, preferred_side: None }));
    assert_eq!(handle_button_action(MenuAction::Settings, &mut g, &mut net, TimeLimit::Unlimited, "", "").screen, Some(GameState::Settings));
    assert!(handle_button_action(MenuAction::ExitGame, &mut g, &mut net, TimeLimit::Unlimited, "", "").exit);
    let (ev, screen) = handle_lobby_action(LobbyAction::JoinRoomById(4));
    assert!(matches!(ev, NetworkEvent::JoinRoom { room_id: 4 }));
    assert!(screen.is_none());
    let (ev, screen) = handle_lobby_action(LobbyAction::BackToMenu);
    assert!(matches!(ev, NetworkEvent::Disconnect));
    assert_eq!(screen, Some(GameState::Menu));
}

#[test]
fn editor_start_game_buttons() {
    let mut editor = BoardEditorState::new();
    editor.set_initial();
    let mut g = ClientGame::new();
    let step = handle_editor_action(EditorAction::StartGame, &mut editor, &mut g, true, false);
    assert_eq!(step.screen, Some(GameState::Playing));
    assert!(editor.validation_errors.is_empty());
    assert!(g.game_state.is_some());

    let mut editor = BoardEditorState::new();
    editor.set_initial();
    let mut g = ClientGame::new();
    let step = handle_editor_action(EditorAction::StartGame, &mut editor, &mut g, true, true);
    assert!(step.screen.is_none());
    assert!(editor.show_warning_dialog);
    assert_eq!(editor.validation_warnings, vec!["当前局面：红方被将军".to_string()]);
    assert!(g.game_state.is_none());
    let step = handle_editor_action(EditorAction::ConfirmWarning, &mut editor, &mut g, true, true);
    assert_eq!(step.screen, Some(GameState::Playing));
    assert!(!editor.show_warning_dialog);

    let mut editor = BoardEditorState::new();
    editor.clear();
    let mut g = ClientGame::new();
    let step = handle_editor_action(EditorAction::StartGame, &mut editor, &mut g, true, false);
    assert!(step.screen.is_none());
    assert!(!editor.validation_errors.is_empty());
    assert!(g.game_state.is_none());
    assert_eq!(handle_editor_action(EditorAction::Back, &mut editor, &mut g, true, false).screen, Some(GameState::SavedGames));
    assert!(handle_editor_action(EditorAction::SaveLayout, &mut editor, &mut g, true, false).save_layout);
}

#[test]
fn editor_tools_and_clicks() {
    let mut editor = BoardEditorState::new();
    handle_tool_action(&mut editor, ToolAction::KingsOnly);
    assert!(editor.board.get(Position::new_unchecked(4, 0)).is_some());
    assert!(editor.is_modified);
    editor.select_piece(Piece::new(PieceType::Rook, Side::Red));
    handle_board_cell_click(&mut editor, 0, 0, true);
    assert_eq!(editor.board.get(Position::new_unchecked(0, 0)), Some(Piece::new(PieceType::Rook, Side::Red)));
    handle_board_cell_click(&mut editor, 0, 0, false);
    assert!(editor.board.get(Position::new_unchecked(0, 0)).is_none());
    handle_tool_action(&mut editor, ToolAction::Eraser);
    assert!(editor.selected_piece.is_none());
    handle_board_cell_click(&mut editor, 1, 1, true);
    assert!(editor.board.get(Position::new_unchecked(1, 1)).is_none());
    handle_tool_action(&mut editor, ToolAction::Initial);
    assert!(editor.board.get(Position::new_unchecked(0, 0)).is_some());
    handle_tool_action(&mut editor, ToolAction::Clear);
    assert!(editor.board.get(Position::new_unchecked(4, 0)).is_none());
}

#[test]
fn local_ai_flow() {
    let mut g = local_game();
    let (mv, screen) = handle_ai_result(&mut g, false, None);
    assert!(mv.is_none() && screen.is_none());
    let m = Move::new(Position::new_unchecked(1, 9), Position::new_unchecked(2, 7));
    let (mv, screen) = handle_ai_result(&mut g, false, Some(Some(m)));
    assert!(mv.is_some() && screen.is_none());
    g.is_paused = true;
    let (mv, _) = handle_ai_result(&mut g, false, Some(Some(m)));
    assert!(mv.is_none());
    g.is_paused = false;

    // Red moves, then the computer answers.
    let red = Move::new(Position::new_unchecked(1, 2), Position::new_unchecked(4, 2));
    assert!(execute_local_move(&mut g, red.from, red.to, &vec![red], "炮二平五".to_string()));
    assert_eq!(handle_ai_move(&mut g, m, &vec![], "马8进7".to_string(), true), None);
    assert_eq!(g.move_history.len(), 1);
    assert_eq!(handle_ai_move(&mut g, m, &vec![m], "马8进7".to_string(), false), Some(GameState::GameOver));
    assert_eq!(g.move_history.len(), 2);
    assert_eq!(g.game_result, Some(GameResult::BlackWin(WinReason::Checkmate)));

    let mut g2 = local_game();
    assert_eq!(check_game_over(&mut g2, true), None);
    assert_eq!(check_game_over(&mut g2, false), Some(GameState::GameOver));
    assert_eq!(g2.game_result, Some(GameResult::BlackWin(WinReason::Checkmate)));

    let mut g3 = local_game();
    let (_, screen) = handle_ai_result(&mut g3, true, None);
    assert_eq!(screen, Some(GameState::GameOver));
    assert_eq!(g3.game_result, Some(GameResult::RedWin(WinReason::Timeout)));
    let mut g4 = local_game();
    let (_, screen) = handle_ai_result(&mut g4, false, Some(None));
    assert_eq!(screen, Some(GameState::GameOver));
    assert_eq!(g4.game_result, Some(GameResult::RedWin(WinReason::Checkmate)));
}

#[test]
fn game_over_heading_follows_the_result() {
    let mut g = ClientGame::default();
    assert_eq!(game_over_title(&g), "游戏结束");
    assert_eq!(game_over_subtitle(&g), "");
    g.player_side = Some(Side::Red);
    g.game_result = Some(GameResult::RedWin(WinReason::Checkmate));
    assert_eq!(game_over_title(&g), "恭喜获胜！");
    assert_eq!(game_over_subtitle(&g), "将死对方");
    g.game_result = Some(GameResult::BlackWin(WinReason::Timeout));
    assert_eq!(game_over_title(&g), "很遗憾，您输了");
    assert_eq!(game_over_subtitle(&g), "对方超时");
    g.game_result = Some(GameResult::Draw(DrawReason::Repetition));
    assert_eq!(game_over_title(&g), "握手言和");
    assert_eq!(game_over_subtitle(&g), "三次重复局面");
}

#[test]
fn lobby_room_labels() {
    let waiting = RoomInfo {
        id: 3,
        room_type: RoomType::PvP,
        red_player: Some("甲".to_string()),
        black_player: None,
        state: RoomState::Waiting,
    };
    assert_eq!(room_status_text(waiting.state), "等待中");
    assert_eq!(room_type_text(waiting.room_type), "PvP");
    assert_eq!(room_player_count(&waiting), 1);
    assert!(room_can_join(&waiting));
    let playing = RoomInfo {
        id: 4,
        room_type: RoomType::PvE(Difficulty::Hard),
        red_player: Some("乙".to_string()),
        black_player: Some("AI".to_string()),
        state: RoomState::Playing,
    };
    assert_eq!(room_status_text(playing.state), "游戏中");
    assert_eq!(room_type_text(playing.room_type), "PvE 困难");
    assert_eq!(room_player_count(&playing), 2);
    assert!(!room_can_join(&playing));
    assert_eq!(room_closed_text(playing.state), "进行中");
    assert_eq!(room_closed_text(RoomState::Paused), "不可加入");
    assert_eq!(room_type_text(RoomType::PvE(Difficulty::Easy)), "PvE 简单");
}

use chinese_chess::board::{BoardState, Move, Position, Side};
use chinese_chess::icons::{evaluation_icon, moment_type_icon, sanitize, sanitize_owned};
use chinese_chess::llm::analysis::{MomentSide, MomentType, Weaknesses};
use chinese_chess::llm::engine::{first_attempt, next_step, AiBackend, AttemptOutcome, LlmEngine, RetryAction};
use chinese_chess::llm::parser::{LlmMove, MoveParseError, MoveParser};
use chinese_chess::llm::prompt::PromptTemplate;

#[test]
fn test_moment_type_display() {
    assert_eq!(MomentType::Brilliant.icon(), "🌟");
    assert_eq!(MomentType::Mistake.display_name(), "失误");
    assert_eq!(MomentType::TurningPoint.display_name(), "转折");
}

#[test]
fn moment_type_all_names() {
    assert_eq!(MomentType::Mistake.icon(), "❌");
    assert_eq!(MomentType::TurningPoint.icon(), "⚡");
    assert_eq!(MomentType::Brilliant.display_name(), "精彩");
}

#[test]
fn test_ai_backend_default() {
    let backend = AiBackend::default();
    assert_eq!(backend, AiBackend::Traditional);
}

#[test]
fn weaknesses_default_is_empty() {
    let w = Weaknesses::default();
    assert!(w.red.is_empty());
    assert!(w.black.is_empty());
}

#[test]
fn retry_policy() {
    assert_eq!(first_attempt(3), RetryAction::Attempt(1));
    assert_eq!(first_attempt(0), RetryAction::GiveUp);
    assert_eq!(next_step(1, 3, AttemptOutcome::Failed), RetryAction::Attempt(2));
    assert_eq!(next_step(3, 3, AttemptOutcome::Failed), RetryAction::GiveUp);
    assert_eq!(next_step(2, 3, AttemptOutcome::Parsed), RetryAction::Return);
}

#[test]
fn test_to_move() {
    let llm_move = LlmMove { from: [1, 2], to: [4, 2], reason: None };
    let result = MoveParser::to_move(&llm_move);
    assert!(result.is_ok());
    let mv = result.unwrap();
    assert_eq!(mv.from.x, 1);
    assert_eq!(mv.from.y, 2);
    assert_eq!(mv.to.x, 4);
    assert_eq!(mv.to.y, 2);
}

#[test]
fn test_to_move_invalid_position() {
    let llm_move = LlmMove { from: [10, 2], to: [4, 2], reason: None };
    let result = MoveParser::to_move(&llm_move);
    assert!(result.is_err());
}

#[test]
fn to_move_errors_name_the_square() {
    let bad_from = LlmMove { from: [0, 10], to: [4, 2], reason: None };
    assert_eq!(MoveParser::to_move(&bad_from), Err(MoveParseError::InvalidFrom));
    let bad_to = LlmMove { from: [0, 0], to: [9, 0], reason: None };
    assert_eq!(MoveParser::to_move(&bad_to), Err(MoveParseError::InvalidTo));
}

#[test]
fn test_validate_move() {
    let state = BoardState::initial();
    let valid_move = Move::new(Position::new_unchecked(1, 2), Position::new_unchecked(4, 2));
    let legal = vec![valid_move];
    assert!(MoveParser::validate_move(&valid_move, &state, &legal).is_ok());
    let invalid_move = Move::new(Position::new_unchecked(1, 2), Position::new_unchecked(2, 3));
    assert!(MoveParser::validate_move(&invalid_move, &state, &legal).is_err());
}

#[test]
fn validate_move_error_kinds() {
    let state = BoardState::initial();
    let legal: Vec<Move> = vec![];
    let empty = Move::new(Position::new_unchecked(4, 4), Position::new_unchecked(4, 5));
    assert_eq!(MoveParser::validate_move(&empty, &state, &legal), Err(MoveParseError::NoPieceAtFrom));
    let black = Move::new(Position::new_unchecked(0, 6), Position::new_unchecked(0, 5));
    assert_eq!(MoveParser::validate_move(&black, &state, &legal), Err(MoveParseError::OpponentPiece));
    let red = Move::new(Position::new_unchecked(0, 3), Position::new_unchecked(0, 4));
    assert_eq!(MoveParser::validate_move(&red, &state, &legal), Err(MoveParseError::IllegalMove));
}

#[test]
fn test_try_fix_response() {
    let response = "```json\n{'from': [1, 2], 'to': [4, 2]}\n```";
    let fixed = MoveParser::try_fix_response(response);
    assert!(!fixed.contains("```"));
    assert!(!fixed.contains('\''));
}

#[test]
fn try_fix_response_exact() {
    let fixed = MoveParser::try_fix_response("```json\n{'from': [1, 2], 'to': [4, 2]}\n```");
    assert_eq!(fixed, "{\"from\": [1, 2], \"to\": [4, 2]}");
}

#[test]
fn test_extract_json_nested() {
    let text = r#"Some text {"outer": {"inner": 1}} more text"#;
    let result = MoveParser::extract_json(text);
    assert!(result.is_ok());
    assert_eq!(result.unwrap(), r#"{"outer": {"inner": 1}}"#);
}

#[test]
fn extract_json_errors() {
    assert_eq!(MoveParser::extract_json("no object here"), Err(MoveParseError::NoJsonObject));
    assert_eq!(MoveParser::extract_json("start { never closed"), Err(MoveParseError::UnbalancedBraces));
    assert_eq!(MoveParser::extract_json("a {\"x\": 1} b {\"y\": 2}").unwrap(), "{\"x\": 1}");
}

#[test]
fn test_system_prompt() {
    let prompt = PromptTemplate::system_prompt();
    assert!(prompt.contains("中国象棋专家"));
    assert!(prompt.contains("JSON"));
}

#[test]
fn test_analysis_system_prompt() {
    let prompt = PromptTemplate::analysis_system_prompt();
    assert!(prompt.contains("中国象棋教练"));
    assert!(prompt.contains("复盘分析"));
    assert!(prompt.contains("JSON"));
}

#[test]
fn test_moment_type_icon() {
    assert_eq!(moment_type_icon("brilliant"), "★");
    assert_eq!(moment_type_icon("mistake"), "×");
    assert_eq!(moment_type_icon("turning_point"), "◆");
}

#[test]
fn moment_type_icon_other() {
    assert_eq!(moment_type_icon("other"), "◎");
}

#[test]
fn test_sanitize() {
    assert_eq!(sanitize("🌟 精彩"), "★ 精彩");
    assert_eq!(sanitize("❌ 失误"), "× 失误");
    assert_eq!(sanitize("⚡ 转折点"), "◆ 转折点");
    assert_eq!(sanitize("普通文本"), "普通文本");
    assert_eq!(sanitize("🌟❌⚡"), "★×◆");
}

#[test]
fn test_sanitize_mixed() {
    let input = "第10步 🌟 红方走出精彩一招，但第15步 ❌ 出现失误";
    let expected = "第10步 ★ 红方走出精彩一招，但第15步 × 出现失误";
    assert_eq!(sanitize(input), expected);
}

#[test]
fn sanitize_owned_matches_sanitize() {
    let s = "⚡ 转折".to_string();
    assert_eq!(sanitize_owned(s), "◆ 转折");
}

#[test]
fn evaluation_icons() {
    assert_eq!(evaluation_icon("好"), chinese_chess::icons::STAR);
    assert_eq!(evaluation_icon("average"), chinese_chess::icons::INFO);
    assert_eq!(evaluation_icon("bad"), chinese_chess::icons::WARNING);
    assert_eq!(evaluation_icon("其他"), chinese_chess::icons::BULLET);
}

#[test]
fn test_moment_side_conversion() {
    assert_eq!(MomentSide::from(Side::Red), MomentSide::Red);
    assert_eq!(MomentSide::from(Side::Black), MomentSide::Black);
    assert_eq!(Side::from(MomentSide::Red), Side::Red);
    assert_eq!(Side::from(MomentSide::Black), Side::Black);
}

#[test]
fn visualize_initial_board() {
    let glyphs = ['帅', '仕', '相', '马', '车', '炮', '兵', '将', '士', '象', '馬', '車', '砲', '卒'];
    let text = PromptTemplate::visualize_board(&BoardState::initial().board, &glyphs);
    let lines: Vec<&str> = text.lines().collect();
    assert_eq!(lines.len(), 24);
    assert_eq!(lines[0], "    0   1   2   3   4   5   6   7   8");
    assert_eq!(lines[2], "9 │車 │馬 │象 │士 │将 │士 │象 │馬 │車 │");
    assert!(text.contains("楚  河"));
    assert_eq!(lines[22], "0 │车 │马 │相 │仕 │帅 │仕 │相 │马 │车 │");
    assert!(text.ends_with("┘\n"));
}

/// Reads a move object `{"from": [x, y], "to": [x, y], "reason": ...}` as JSON.
fn decode_move(text: String) -> Option<LlmMove> {
    let v: serde_json::Value = serde_json::from_str(&text).ok()?;
    let square = |key: &str| -> Option<[u8; 2]> {
        let a = v.get(key)?.as_array()?;
        if a.len() != 2 {
            return None;
        }
        let x = u8::try_from(a[0].as_u64()?).ok()?;
        let y = u8::try_from(a[1].as_u64()?).ok()?;
        Some([x, y])
    };
    let from = square("from")?;
    let to = square("to")?;
    let reason = match v.get("reason") {
        None | Some(serde_json::Value::Null) => None,
        Some(r) => Some(r.as_str()?.to_string()),
    };
    Some(LlmMove { from, to, reason })
}

#[test]
fn test_parse_valid_json() {
    let response = r#"{"from": [1, 2], "to": [4, 2], "reason": "炮二平五，中炮开局"}"#;
    let result = MoveParser::parse_response(response, &decode_move);
    assert!(result.is_ok());
    let llm_move = result.unwrap();
    assert_eq!(llm_move.from, [1, 2]);
    assert_eq!(llm_move.to, [4, 2]);
    assert_eq!(llm_move.reason, Some("炮二平五，中炮开局".to_string()));
}

#[test]
fn test_parse_json_with_text() {
    let response = r#"
        好的，我分析了当前局势。
        {"from": [7, 0], "to": [7, 2]}
        这是最佳走法。
        "#;
    let result = MoveParser::parse_response(response, &decode_move);
    assert!(result.is_ok());
    let llm_move = result.unwrap();
    assert_eq!(llm_move.from, [7, 0]);
    assert_eq!(llm_move.to, [7, 2]);
}

#[test]
fn test_parse_invalid_json() {
    let response = "这不是有效的 JSON";
    let result = MoveParser::parse_response(response, &decode_move);
    assert!(result.is_err());
    assert!(matches!(MoveParser::parse_response("x {\"a\": 1} y", &decode_move), Err(MoveParseError::InvalidJson)));
}

#[test]
fn parse_with_fix_reads_cleaned_replies() {
    let state = BoardState::initial();
    let from = Position::new_unchecked(1, 2);
    let to = Position::new_unchecked(4, 2);
    let legal = vec![Move::new(from, to)];
    let reply = "<think>想一想</think>```json\n{'from': [1, 2], 'to': [4, 2]}\n```";
    let mv = MoveParser::parse_with_fix(reply, &state, &legal, &decode_move).unwrap();
    assert!(mv.from == from && mv.to == to);
    let wrong = r#"{"from": [1, 2], "to": [2, 3]}"#;
    assert_eq!(MoveParser::parse_and_validate(wrong, &state, &legal, &decode_move), Err(MoveParseError::IllegalMove));
    assert_eq!(MoveParser::parse_with_fix(wrong, &state, &legal, &decode_move), Err(MoveParseError::IllegalMove));
}

const GLYPHS: [char; 14] = ['帅', '仕', '相', '马', '车', '炮', '兵', '将', '士', '象', '馬', '車', '砲', '卒'];
const INITIAL_FEN: &str = "rnbakabnr/9/1c5c1/p1p1p1p1p/9/9/P1P1P1P1P/1C5C1/9/RNBAKABNR w - - 0 1";

fn initial_state_text() -> String {
    let state = BoardState::initial();
    let drawing = PromptTemplate::visualize_board(&state.board, &GLYPHS);
    PromptTemplate::format_board_state(&drawing, INITIAL_FEN, state.current_turn, 1)
}

#[test]
fn test_format_board_state() {
    let formatted = initial_state_text();
    assert!(formatted.contains("当前棋盘状态"));
    assert!(formatted.contains("FEN:"));
    assert!(formatted.contains("轮到: 红方"));
    assert!(formatted.contains("楚  河"));
}

#[test]
fn test_move_request_prompt() {
    let moves: Vec<Move> = vec![];
    let prompt = PromptTemplate::move_request_prompt(&initial_state_text(), &moves);
    assert!(prompt.contains("请分析当前局势"));
    assert!(prompt.contains(r#""from""#));
    assert!(prompt.contains(r#""to""#));
}

#[test]
fn test_game_summary_prompt() {
    let moves = vec![Move::new(Position::new_unchecked(1, 2), Position::new_unchecked(4, 2))];
    let prompt = PromptTemplate::game_summary_prompt(&initial_state_text(), &moves, "红方胜");
    assert!(prompt.contains("对局进行总结分析"));
    assert!(prompt.contains("红方胜"));
    assert!(prompt.contains("开局阶段评价"));
}

#[test]
fn test_game_analysis_prompt() {
    let state = BoardState::initial();
    let moves = vec![
        Move::new(Position::new_unchecked(1, 2), Position::new_unchecked(4, 2)),
        Move::new(Position::new_unchecked(1, 7), Position::new_unchecked(2, 5)),
    ];
    let notes = vec![Some("炮二平五".to_string()), Some("炮8平7".to_string())];
    let drawing = PromptTemplate::visualize_board(&state.board, &GLYPHS);
    let prompt = PromptTemplate::game_analysis_prompt(&drawing, &moves, &notes, "红方胜（将死）", "玩家1", "AI-困难");
    assert!(prompt.contains("复盘分析"));
    assert!(prompt.contains("红方：玩家1"));
    assert!(prompt.contains("黑方：AI-困难"));
    assert!(prompt.contains("opening_review"));
    assert!(prompt.contains("key_moments"));
    assert!(prompt.contains("overall_rating"));
}

#[test]
fn test_move_history() {
    let mut engine = LlmEngine::new();
    let mv = Move::new(Position::new_unchecked(1, 2), Position::new_unchecked(4, 2));
    engine.add_move(mv);
    assert_eq!(engine.move_history().len(), 1);
    engine.clear_history();
    assert_eq!(engine.move_history().len(), 0);
}

#[test]
fn moment_icon_by_name_is_the_sanitized_kind_icon() {
    assert_eq!(moment_type_icon("brilliant"), sanitize(MomentType::Brilliant.icon()));
    assert_eq!(moment_type_icon("mistake"), sanitize(MomentType::Mistake.icon()));
    assert_eq!(moment_type_icon("turning_point"), sanitize(MomentType::TurningPoint.icon()));
}

#[test]
fn sanitized_text_is_clean_and_stays_put() {
    let text = "🌟好棋 ✔️ ⚠️注意 ◀️ 后退 ▶️ ➡ 👀";
    let once = sanitize(text);
    assert_eq!(once, "★好棋 √ ◆注意 ◀ 后退 ▶ → ◎");
    for emoji in ["🌟", "✔️", "✔", "⚠️", "⚠", "◀️", "▶️", "➡", "👀"] {
        assert!(!once.contains(emoji));
    }
    assert_eq!(sanitize(&once), once);
}

#[test]
fn doubled_selector_after_triangle_leaves_an_emoji() {
    let once = sanitize("◀\u{FE0F}\u{FE0F}");
    assert_eq!(once, "◀\u{FE0F}");
    assert_eq!(sanitize(&once), "◀");
}

#[test]
fn cleaned_reply_stays_the_same() {
    let reply = "<think>hmm</think>\n```json\n  // the move\n{'from': [1, 2], 'to': [1, 9]}\n```\n";
    let once = MoveParser::try_fix_response(reply);
    assert_eq!(once, "{\"from\": [1, 2], \"to\": [1, 9]}");
    assert_eq!(MoveParser::try_fix_response(&once), once);
}

#[test]
fn clean_up_trims_unicode_white_space() {
    let once = MoveParser::try_fix_response("\u{3000}\u{2028}{\"a\": 1}\u{a0}\u{85}\t");
    assert_eq!(once, "{\"a\": 1}");
    assert_eq!(once, "\u{3000}\u{2028}{\"a\": 1}\u{a0}\u{85}\t".trim());
}

use chinese_chess::board::Side;
use chinese_chess::storage::{
    generate_filename, sanitize_filename, side_label, sort_newest_first, turn_label, SavedGameInfo,
    StorageManager,
};

#[test]
fn test_sanitize_filename() {
    assert_eq!(sanitize_filename("正常名称"), "正常名称");
    assert_eq!(sanitize_filename("包含/特殊\\字符"), "包含_特殊_字符");
    assert_eq!(sanitize_filename("AI:中等?"), "AI_中等_");
}

#[test]
fn sanitize_filename_controls_and_spaces() {
    assert_eq!(sanitize_filename("  a*b<c>d|e\"f\u{7}  "), "a_b_c_d_e_f_");
    assert_eq!(sanitize_filename("   "), "");
}

#[test]
fn test_generate_filename() {
    let timestamp = chrono::DateTime::parse_from_rfc3339("2026-01-09T15:30:22Z")
        .unwrap()
        .with_timezone(&chrono::Utc);
    let filename = generate_filename(timestamp.timestamp(), "玩家1", "AI-中等").unwrap();
    assert!(filename.starts_with("20260109_153022_"));
    assert!(filename.contains("玩家1vs"));
    assert!(filename.ends_with(".json"));
}

#[test]
fn generate_filename_exact() {
    // 2026-01-09T15:30:22Z
    let name = generate_filename(1767972622, "a/b", " c ").unwrap();
    assert_eq!(name, "20260109_153022_a_bvsc.json");
    assert_eq!(generate_filename(i64::MAX, "a", "b"), None);
}

fn info(id: &str, at: i64, diff: Option<&str>) -> SavedGameInfo {
    SavedGameInfo {
        game_id: id.to_string(),
        red_player: "红".to_string(),
        black_player: "黑".to_string(),
        saved_at: at,
        move_count: 0,
        ai_difficulty: diff.map(|d| d.to_string()),
    }
}

#[test]
fn saved_game_display() {
    assert_eq!(info("x", 0, None).display_name(), "红 vs 黑");
    assert_eq!(info("x", 0, Some("Hard")).display_name(), "红 vs AI(Hard)");
    assert_eq!(info("x", 1767972622, None).formatted_time(), Some("2026-01-09 15:30".to_string()));
}

#[test]
fn sort_newest_first_orders_by_time() {
    let games = vec![info("a", 10, None), info("b", 30, None), info("c", 20, None)];
    let sorted = sort_newest_first(games);
    let ids: Vec<&str> = sorted.iter().map(|g| g.game_id.as_str()).collect();
    assert_eq!(ids, vec!["b", "c", "a"]);
}

#[test]
fn labels_and_directory() {
    assert_eq!(turn_label(Side::Red), "red_turn");
    assert_eq!(turn_label(Side::Black), "black_turn");
    assert_eq!(side_label(Side::Black), "black");
    let m = StorageManager::with_directory("/tmp/saves".to_string());
    assert_eq!(m.saves_directory(), "/tmp/saves");
}

#[test]
fn sort_newest_first_keeps_ties_in_order() {
    let games = vec![info("a", 5, None), info("b", 9, None), info("c", 5, None), info("d", 9, None), info("e", 5, None)];
    let sorted = sort_newest_first(games);
    let ids: Vec<&str> = sorted.iter().map(|g| g.game_id.as_str()).collect();
    assert_eq!(ids, vec!["b", "d", "a", "c", "e"]);
}

#[test]
fn sanitize_filename_matches_std_character_classes() {
    for code in 0u32..0x3100 {
        if let Some(c) = char::from_u32(code) {
            let name: String = ['a', c, 'b'].iter().collect();
            let expected: String = name
                .chars()
                .map(|x| match x {
                    '/' | '\\' | ':' | '*' | '?' | '"' | '<' | '>' | '|' => '_',
                    x if x.is_control() => '_',
                    x => x,
                })
                .collect::<String>()
                .trim()
                .to_string();
            assert_eq!(sanitize_filename(&name), expected);
            let padded: String = [c, 'x', c].iter().collect();
            assert_eq!(sanitize_filename(&padded), padded.chars().map(|x| if x.is_control() { '_' } else { x }).map(|x| match x {
                '/' | '\\' | ':' | '*' | '?' | '"' | '<' | '>' | '|' => '_',
                x => x,
            }).collect::<String>().trim());
        }
    }
}

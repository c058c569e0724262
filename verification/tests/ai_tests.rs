use chinese_chess::board::{Board, BoardState, Piece, PieceType, Position, Side, Move};
use chinese_chess::evaluate::Evaluator;
use chinese_chess::search::{
    AiEngine,
    is_repetition, no_move_score, order_moves, played_move, tt_cutoff, update_hash, AiConfig, Difficulty,
};
use chinese_chess::transposition::{EntryType, TTEntry, TranspositionTable};
use chinese_chess::zobrist::ZobristTable;

/// The board of the piece-placement field of a FEN string (first rank is y = 9).
fn board_from_fen(fen: &str) -> Board {
    let mut board = Board::empty();
    let placement = fen.split(' ').next().unwrap();
    for (row, rank) in placement.split('/').enumerate() {
        let y = 9 - row as u8;
        let mut x: u8 = 0;
        for c in rank.chars() {
            if let Some(d) = c.to_digit(10) {
                x += d as u8;
                continue;
            }
            let side = if c.is_ascii_uppercase() { Side::Red } else { Side::Black };
            let kind = match c.to_ascii_lowercase() {
                'k' => PieceType::King,
                'a' => PieceType::Advisor,
                'b' | 'e' => PieceType::Bishop,
                'n' | 'h' => PieceType::Knight,
                'r' => PieceType::Rook,
                'c' => PieceType::Cannon,
                'p' => PieceType::Pawn,
                _ => panic!("unknown piece"),
            };
            board.set(Position::new_unchecked(x, y), Some(Piece::new(kind, side)));
            x += 1;
        }
    }
    board
}

#[test]
fn test_fen_helper_matches_initial() {
    let b = board_from_fen("rnbakabnr/9/1c5c1/p1p1p1p1p/9/9/P1P1P1P1P/1C5C1/9/RNBAKABNR w 0 1");
    let init = Board::initial();
    for y in 0..10u8 {
        for x in 0..9u8 {
            let p = Position::new_unchecked(x, y);
            assert_eq!(b.get(p), init.get(p));
        }
    }
}

#[test]
fn test_initial_evaluation() {
    let board = Board::initial();
    let score = Evaluator::evaluate(&board);
    assert!(score.abs() < 100, "Initial position should be balanced, got {}", score);
}

#[test]
fn test_material_evaluation() {
    let board = Board::initial();
    let score = Evaluator::evaluate_material(&board);
    assert_eq!(score, 0);
}

#[test]
fn test_piece_values() {
    assert_eq!(PieceType::King.value(), 10000);
    assert_eq!(PieceType::Rook.value(), 900);
    assert_eq!(PieceType::Knight.value(), 400);
    assert_eq!(PieceType::Cannon.value(), 450);
    assert_eq!(PieceType::Bishop.value(), 200);
    assert_eq!(PieceType::Advisor.value(), 200);
    assert_eq!(PieceType::Pawn.value(), 100);
}

#[test]
fn test_material_advantage() {
    let board = board_from_fen("rnbakabnr/9/1c5c1/p1p1p1p1p/9/9/P1P1P1P1P/1C5C1/9/RNBAKABN1 w 0 1");
    let score = Evaluator::evaluate_material(&board);
    assert!(score < 0, "红方少车应该分数为负: {}", score);
    assert!(score.abs() >= 900, "车的价值应该接近 1000: {}", score);
}

#[test]
fn test_position_bonus_pawn() {
    let score1 = Evaluator::evaluate(&board_from_fen("4k4/9/9/9/4P4/9/9/9/9/4K4 w 0 1"));
    let score2 = Evaluator::evaluate(&board_from_fen("4k4/9/9/9/9/9/9/4P4/9/4K4 w 0 1"));
    assert!(score1 > score2, "过河兵应该比未过河兵价值高: {} vs {}", score1, score2);
}

#[test]
fn test_position_bonus_knight() {
    let score1 = Evaluator::evaluate(&board_from_fen("4k4/9/9/9/4N4/9/9/9/9/4K4 w 0 1"));
    let score2 = Evaluator::evaluate(&board_from_fen("4k4/9/9/9/9/9/9/9/9/N3K4 w 0 1"));
    assert!(score1 > score2, "中心马应该比边角马价值高: {} vs {}", score1, score2);
}

#[test]
fn test_symmetry() {
    let board = Board::initial();
    let score = Evaluator::evaluate_material(&board);
    assert_eq!(score, 0, "对称局面应该为 0");
}

#[test]
fn test_black_mirror() {
    let score = Evaluator::evaluate(&board_from_fen("4k4/9/9/9/4p4/4P4/9/9/9/4K4 w 0 1"));
    assert!(score.abs() < 50, "对称兵/卒应该接近平衡: {}", score);
}

#[test]
fn test_evaluate_endgame() {
    let score = Evaluator::evaluate(&board_from_fen("4k4/9/9/9/9/9/9/9/4R4/4K4 w 0 1"));
    assert!(score > 500, "红方多车应该大幅领先: {}", score);
}

#[test]
fn test_cannon_position() {
    let score1 = Evaluator::evaluate(&board_from_fen("4k4/9/9/9/4C4/9/9/9/9/4K4 w 0 1"));
    let score2 = Evaluator::evaluate(&board_from_fen("4k4/9/9/9/9/9/9/9/C8/4K4 w 0 1"));
    assert!(score1 > score2, "中心炮应该比边缘炮价值高: {} vs {}", score1, score2);
}

#[test]
fn test_rook_position() {
    let score1 = Evaluator::evaluate(&board_from_fen("4k4/9/9/9/4R4/9/9/9/9/4K4 w 0 1"));
    let score2 = Evaluator::evaluate(&board_from_fen("4k4/9/9/9/9/9/9/9/R8/4K4 w 0 1"));
    assert!(score1 > score2, "中心车应该比边缘车价值高: {} vs {}", score1, score2);
}

#[test]
fn evaluate_mirror_negates_on_concrete_board() {
    // A red knight on (2, 3) against a black knight on (2, 6): mirror images of each other.
    let a = board_from_fen("4k4/9/9/2n6/9/9/2N6/9/9/4K4 w 0 1");
    assert_eq!(Evaluator::evaluate(&a), 0);
    let b = board_from_fen("4k4/9/9/9/9/9/2N6/9/9/4K4 w 0 1");
    let c = board_from_fen("4k4/9/9/2n6/9/9/9/9/9/4K4 w 0 1");
    assert_eq!(Evaluator::evaluate(&b), -Evaluator::evaluate(&c));
}

#[test]
fn test_difficulty_config() {
    let easy = AiConfig::from_difficulty(Difficulty::Easy);
    assert_eq!(easy.max_depth, 3);
    assert_eq!(easy.time_limit_ms, 1000);
    assert_eq!(easy.tt_size_mb, 16);

    let medium = AiConfig::from_difficulty(Difficulty::Medium);
    assert_eq!(medium.max_depth, 4);
    assert_eq!(medium.tt_size_mb, 32);

    let hard = AiConfig::from_difficulty(Difficulty::Hard);
    assert_eq!(hard.max_depth, 6);
    assert!(hard.use_opening_book);
    assert_eq!(hard.tt_size_mb, 64);
}

#[test]
fn custom_difficulty_config() {
    let c = AiConfig::from_difficulty(Difficulty::Custom { depth: 5, time_limit_ms: 2500 });
    assert_eq!(c.max_depth, 5);
    assert_eq!(c.time_limit_ms, 2500);
    assert!(c.use_opening_book);
    assert_eq!(c.tt_size_mb, 32);
    let d = AiConfig::default();
    assert_eq!(d.max_depth, 4);
    assert_eq!(d.time_limit_ms, 3000);
}

#[test]
fn test_tt_store_and_probe() {
    let mut tt = TranspositionTable::new(1);
    let hash = 0x1234567890ABCDEF_u64;
    tt.store(hash, 100, 5, EntryType::Exact, Some((1, 2, 3, 4)));
    let entry = tt.probe(hash);
    assert!(entry.is_some());
    let entry = entry.unwrap();
    assert_eq!(entry.score, 100);
    assert_eq!(entry.depth, 5);
    assert_eq!(entry.entry_type, EntryType::Exact);
    assert_eq!(entry.decode_move(), Some((1, 2, 3, 4)));
}

#[test]
fn test_tt_miss() {
    let mut tt = TranspositionTable::new(1);
    let entry = tt.probe(0x1234567890ABCDEF);
    assert!(entry.is_none());
}

#[test]
fn test_tt_replacement() {
    let mut tt = TranspositionTable::new(1);
    let hash = 0x1234567890ABCDEF_u64;
    tt.store(hash, 50, 3, EntryType::Exact, None);
    tt.store(hash, 100, 5, EntryType::Exact, None);
    let entry = tt.probe(hash).unwrap();
    assert_eq!(entry.depth, 5);
    assert_eq!(entry.score, 100);
}

#[test]
fn test_move_encoding() {
    let entry = TTEntry::new(0, 0, 0, EntryType::Exact, Some((8, 9, 4, 5)), 0);
    let decoded = entry.decode_move();
    assert_eq!(decoded, Some((8, 9, 4, 5)));
}

#[test]
fn tt_shallower_store_does_not_replace_same_age() {
    let mut tt = TranspositionTable::new(1);
    let hash = 0x0F0F_0F0F_1234_5678_u64;
    tt.store(hash, 70, 6, EntryType::LowerBound, None);
    tt.store(hash, -20, 2, EntryType::Exact, None);
    let entry = tt.probe(hash).unwrap();
    assert_eq!(entry.depth, 6);
    assert_eq!(entry.score, 70);
    assert_eq!(entry.entry_type, EntryType::LowerBound);
}

#[test]
fn tt_score_is_clamped_and_cleared() {
    let mut tt = TranspositionTable::new(1);
    let hash = 42u64;
    tt.store(hash, 1_000_000, 1, EntryType::UpperBound, None);
    assert_eq!(tt.probe(hash).unwrap().score, i16::MAX);
    tt.store(hash + (1u64 << 40), -1_000_000, 9, EntryType::Exact, None);
    tt.clear();
    assert!(tt.probe(hash).is_none());
    let stats = tt.stats();
    assert_eq!(stats.used, 0);
}

#[test]
fn test_zobrist_deterministic() {
    let table1 = ZobristTable::new();
    let table2 = ZobristTable::new();
    let state = BoardState::initial();
    let hash1 = table1.hash(&state.board, state.current_turn);
    let hash2 = table2.hash(&state.board, state.current_turn);
    assert_eq!(hash1, hash2, "Zobrist 哈希应该是确定性的");
}

#[test]
fn test_zobrist_different_positions() {
    let table = ZobristTable::new();
    let state1 = BoardState::initial();
    let hash1 = table.hash(&state1.board, state1.current_turn);
    let mut state2 = state1.clone();
    let from = Position::new_unchecked(1, 2);
    let to = Position::new_unchecked(1, 4);
    state2.board.move_piece(from, to);
    state2.switch_turn();
    let hash2 = table.hash(&state2.board, state2.current_turn);
    assert_ne!(hash1, hash2, "不同局面应该有不同的哈希值");
}

#[test]
fn test_zobrist_side_matters() {
    let table = ZobristTable::new();
    let board = Board::initial();
    let hash_red = table.hash(&board, Side::Red);
    let hash_black = table.hash(&board, Side::Black);
    assert_ne!(hash_red, hash_black, "不同走子方应该有不同的哈希值");
}

#[test]
fn zobrist_side_toggle_and_incremental_update() {
    let table = ZobristTable::new();
    let board = Board::initial();
    assert_eq!(table.hash(&board, Side::Red) ^ table.side_hash(), table.hash(&board, Side::Black));
    let from = Position::new_unchecked(1, 2);
    let to = Position::new_unchecked(4, 2);
    let before = table.hash(&board, Side::Red);
    let state = BoardState::initial();
    let mut after_board = board;
    let captured = after_board.move_piece(from, to);
    let mv = Move::new(from, to);
    let incremental = update_hash(&table, before, &state, &mv, captured.map(|p| p.piece_type));
    assert_eq!(incremental, table.hash(&after_board, Side::Black));
}

#[test]
fn repetition_and_scores() {
    let path = vec![1u64, 2, 1, 3, 1];
    assert!(is_repetition(&path, 1));
    assert!(!is_repetition(&path, 2));
    assert!(no_move_score(true, 4, 1) < 0);
    assert_eq!(no_move_score(false, 4, 1), 0);
}

#[test]
fn tt_cutoff_by_entry_type() {
    let exact = TTEntry::new(0, 30, 4, EntryType::Exact, None, 0);
    assert_eq!(tt_cutoff(Some(exact), 3, -100, 100), Some(30));
    assert_eq!(tt_cutoff(Some(exact), 5, -100, 100), None);
    let lower = TTEntry::new(0, 150, 4, EntryType::LowerBound, None, 0);
    assert_eq!(tt_cutoff(Some(lower), 4, -100, 100), Some(150));
    let upper = TTEntry::new(0, 10, 4, EntryType::UpperBound, None, 0);
    assert_eq!(tt_cutoff(Some(upper), 4, -100, 100), None);
    assert_eq!(tt_cutoff(None, 1, -100, 100), None);
}

#[test]
fn order_moves_puts_suggested_first() {
    let a = Move::new(Position::new_unchecked(0, 0), Position::new_unchecked(0, 1));
    let b = Move::new(Position::new_unchecked(1, 2), Position::new_unchecked(4, 2));
    let c = Move::new(Position::new_unchecked(7, 2), Position::new_unchecked(4, 2));
    let ordered = order_moves(&vec![a, b, c], Some((7, 2, 4, 2)));
    assert_eq!(ordered, vec![c, b, a]);
    let same = order_moves(&vec![a, b, c], None);
    assert_eq!(same, vec![a, b, c]);
}

/// Toy rules for driving the engine: every piece of the side to move may step one square
/// along a file or a rank onto an empty square or an enemy piece.
fn toy_legal_moves(state: BoardState) -> Vec<Move> {
    let mut out = Vec::new();
    for y in 0..10u8 {
        for x in 0..9u8 {
            let from = Position::new_unchecked(x, y);
            if let Some(p) = state.board.get(from) {
                if p.side != state.current_turn {
                    continue;
                }
                let steps: [(i8, i8); 4] = [(1, 0), (-1, 0), (0, 1), (0, -1)];
                for (dx, dy) in steps {
                    let nx = x as i8 + dx;
                    let ny = y as i8 + dy;
                    if nx < 0 || nx > 8 || ny < 0 || ny > 9 {
                        continue;
                    }
                    let to = Position::new_unchecked(nx as u8, ny as u8);
                    match state.board.get(to) {
                        Some(q) if q.side == p.side => {}
                        _ => out.push(Move::new(from, to)),
                    }
                }
            }
        }
    }
    out
}

fn toy_in_check(_state: BoardState) -> bool {
    false
}

fn same_squares(a: &Move, b: &Move) -> bool {
    a.from == b.from && a.to == b.to
}

#[test]
fn test_tt_usage() {
    let state = BoardState::initial();
    let mut engine = AiEngine::from_difficulty(Difficulty::Medium);
    let _ = engine.search(&state, &toy_legal_moves, &toy_in_check);
    let stats = engine.tt_stats();
    assert!(stats.used > 0, "the table should hold entries");
}

#[test]
fn test_clear_tt() {
    let state = BoardState::initial();
    let mut engine = AiEngine::from_difficulty(Difficulty::Easy);
    let _ = engine.search(&state, &toy_legal_moves, &toy_in_check);
    assert!(engine.tt_stats().used > 0);
    engine.clear_tt();
    assert_eq!(engine.tt_stats().used, 0, "the table should be empty after clearing");
}

#[test]
fn test_search_returns_legal_move() {
    let state = BoardState::initial();
    let mut engine = AiEngine::from_difficulty(Difficulty::Easy);
    let mv = engine.search(&state, &toy_legal_moves, &toy_in_check).unwrap();
    let legal = toy_legal_moves(state);
    assert!(legal.iter().any(|m| same_squares(m, &mv)), "the move must be legal: {:?}", mv);
}

#[test]
fn test_iterative_deepening() {
    let state = BoardState::initial();
    let mut engine = AiEngine::from_difficulty(Difficulty::Medium);
    let mv = engine.search(&state, &toy_legal_moves, &toy_in_check);
    assert!(mv.is_some(), "iterative deepening should return a move");
    assert!(engine.nodes_searched() > 0);
}

#[test]
fn test_search_with_history() {
    let state = BoardState::initial();
    let mut engine = AiEngine::from_difficulty(Difficulty::Easy);
    let history: Vec<BoardState> = vec![BoardState::initial(), BoardState::initial()];
    let mv = engine.search_with_history(&state, &history, &toy_legal_moves, &toy_in_check);
    assert!(mv.is_some(), "a search with history should return a move");
}

#[test]
fn engine_returns_none_without_legal_moves() {
    let state = BoardState::initial();
    let mut engine = AiEngine::from_difficulty(Difficulty::Hard);
    let none = |_s: BoardState| -> Vec<Move> { Vec::new() };
    assert!(engine.search(&state, &none, &toy_in_check).is_none());
}

#[test]
fn engine_plays_a_single_legal_move_at_once() {
    let state = BoardState::initial();
    let mut engine = AiEngine::from_difficulty(Difficulty::Hard);
    let only = Move::new(Position::new_unchecked(0, 0), Position::new_unchecked(0, 1));
    let one = move |_s: BoardState| -> Vec<Move> { vec![only] };
    let mv = engine.search(&state, &one, &toy_in_check).unwrap();
    assert!(same_squares(&mv, &only));
    assert_eq!(engine.nodes_searched(), 0);
}

#[test]
fn engine_answers_in_a_small_position() {
    let mut board = Board::empty();
    board.set(Position::new_unchecked(0, 0), Some(Piece::new(PieceType::Rook, Side::Red)));
    board.set(Position::new_unchecked(0, 1), Some(Piece::new(PieceType::Pawn, Side::Black)));
    board.set(Position::new_unchecked(8, 9), Some(Piece::new(PieceType::King, Side::Black)));
    board.set(Position::new_unchecked(4, 0), Some(Piece::new(PieceType::King, Side::Red)));
    let state = BoardState::from_board(board, Side::Red);
    let mut engine = AiEngine::from_difficulty(Difficulty::Custom { depth: 2, time_limit_ms: 5000 });
    let mv = engine.search(&state, &toy_legal_moves, &toy_in_check).unwrap();
    assert!(toy_legal_moves(state).iter().any(|m| same_squares(m, &mv)));
}

/// The position of a FEN string (placement and side to move) for the toy rules.
fn state_from_fen(fen: &str) -> BoardState {
    let side = match fen.split(' ').nth(1) {
        Some("b") => Side::Black,
        _ => Side::Red,
    };
    BoardState::from_board(board_from_fen(fen), side)
}

#[test]
fn test_search_initial_position() {
    let state = BoardState::initial();
    let mut engine = AiEngine::from_difficulty(Difficulty::Easy);
    let mv = engine.search(&state, &toy_legal_moves, &toy_in_check);
    assert!(mv.is_some());
}

#[test]
fn test_search_checkmate() {
    let state = state_from_fen("3k5/9/9/9/9/9/9/9/3r5/3K5 r 0 1");
    let mut engine = AiEngine::from_difficulty(Difficulty::Medium);
    let mv = engine.search(&state, &toy_legal_moves, &toy_in_check);
    if let Some(m) = mv {
        assert!(toy_legal_moves(state).iter().any(|l| same_squares(l, &m)));
    }
}

#[test]
fn test_easy_performance() {
    let state = BoardState::initial();
    let mut engine = AiEngine::from_difficulty(Difficulty::Easy);
    let start = std::time::Instant::now();
    let mv = engine.search(&state, &toy_legal_moves, &toy_in_check);
    let elapsed = start.elapsed();
    assert!(mv.is_some(), "the easy level should answer");
    assert!(elapsed.as_millis() < 2000, "the easy level should answer within 2 s, took {:?}", elapsed);
}

#[test]
fn test_medium_performance() {
    let state = BoardState::initial();
    let mut engine = AiEngine::from_difficulty(Difficulty::Medium);
    let start = std::time::Instant::now();
    let mv = engine.search(&state, &toy_legal_moves, &toy_in_check);
    let elapsed = start.elapsed();
    assert!(mv.is_some(), "the medium level should answer");
    assert!(elapsed.as_millis() < 5000, "the medium level should answer within 5 s, took {:?}", elapsed);
}

#[test]
fn test_search_different_positions() {
    let positions = [
        "rnbakabnr/9/1c5c1/p1p1p1p1p/9/9/P1P1P1P1P/1C5C1/9/RNBAKABNR w 0 1",
        "rnbakabnr/9/1c5c1/p1p1p1p1p/9/9/P1P1P1P1P/1C2C4/9/RNBAKABNR b 0 1",
        "r1bakabnr/9/1cn4c1/p1p1p1p1p/9/9/P1P1P1P1P/1C5C1/9/RNBAKABNR w 0 1",
    ];
    for fen in positions {
        let state = state_from_fen(fen);
        let mut engine = AiEngine::from_difficulty(Difficulty::Easy);
        let mv = engine.search(&state, &toy_legal_moves, &toy_in_check);
        assert!(mv.is_some(), "a move should be found: {}", fen);
    }
}

#[test]
fn test_search_endgame() {
    let state = state_from_fen("4k4/9/9/9/9/9/9/9/4R4/4K4 w 0 1");
    let mut engine = AiEngine::from_difficulty(Difficulty::Medium);
    let mv = engine.search(&state, &toy_legal_moves, &toy_in_check);
    assert!(mv.is_some(), "an endgame move should be found");
}

#[test]
fn test_tt_improves_performance() {
    let state = BoardState::initial();
    let mut engine = AiEngine::from_difficulty(Difficulty::Medium);
    let _ = engine.search(&state, &toy_legal_moves, &toy_in_check);
    let stats1 = engine.tt_stats();
    let _ = engine.search(&state, &toy_legal_moves, &toy_in_check);
    let stats2 = engine.tt_stats();
    assert!(stats2.hits > stats1.hits, "the second search should hit the table more");
    let delta = stats2.hits - stats1.hits;
    let ratio = stats2.hits as f64 / stats1.hits.max(1) as f64;
    assert!(delta > 50 || ratio > 3.0, "hits should grow clearly: delta={}, ratio={:.1}", delta, ratio);
}

#[test]
fn test_cross_turn_repetition_detection() {
    let state = BoardState::initial();
    let mut engine = AiEngine::from_difficulty(Difficulty::Easy);
    let history = vec![BoardState::initial(), BoardState::initial()];
    let mv = engine.search_with_history(&state, &history, &toy_legal_moves, &toy_in_check);
    assert!(mv.is_some(), "the engine should answer");
}

fn sample_moves() -> Vec<Move> {
    vec![
        Move::new(Position::new(0, 0).unwrap(), Position::new(0, 1).unwrap()),
        Move::new(Position::new(1, 0).unwrap(), Position::new(2, 2).unwrap()),
        Move::new(Position::new(4, 0).unwrap(), Position::new(4, 1).unwrap()),
    ]
}

#[test]
fn easy_roll_below_thirty_plays_the_drawn_move() {
    let moves = sample_moves();
    let searched = moves[0];
    let m = played_move(searched, &moves, Difficulty::Easy, 29, 2);
    assert!(same_squares(&m, &moves[2]));
}

#[test]
fn easy_roll_of_thirty_keeps_the_searched_move() {
    let moves = sample_moves();
    let searched = moves[1];
    let m = played_move(searched, &moves, Difficulty::Easy, 30, 2);
    assert!(same_squares(&m, &moves[1]));
}

#[test]
fn harder_levels_keep_the_searched_move() {
    let moves = sample_moves();
    let searched = moves[1];
    let m = played_move(searched, &moves, Difficulty::Hard, 0, 2);
    assert!(same_squares(&m, &moves[1]));
    let m = played_move(searched, &moves, Difficulty::Medium, 5, 0);
    assert!(same_squares(&m, &moves[1]));
}

#[test]
fn one_megabyte_table_has_slots() {
    let tt = TranspositionTable::new(1);
    assert!(tt.stats().entries > 0);
    assert_eq!(tt.stats().hits, 0);
    assert_eq!(tt.stats().probes, 0);
}

#[test]
fn tt_equal_depth_store_replaces_same_generation() {
    let mut tt = TranspositionTable::new(1);
    let hash = 0x1234567890ABCDEF_u64;
    tt.store(hash, 50, 3, EntryType::Exact, None);
    tt.store(hash, 70, 3, EntryType::LowerBound, None);
    let entry = tt.probe(hash).unwrap();
    assert_eq!(entry.score, 70);
    assert_eq!(entry.entry_type, EntryType::LowerBound);
}

#[test]
fn tt_shallower_store_keeps_same_generation_entry() {
    let mut tt = TranspositionTable::new(1);
    let hash = 0x1234567890ABCDEF_u64;
    tt.store(hash, 100, 5, EntryType::Exact, None);
    tt.store(hash, 50, 3, EntryType::UpperBound, None);
    let entry = tt.probe(hash).unwrap();
    assert_eq!(entry.depth, 5);
    assert_eq!(entry.score, 100);
}

#[test]
fn tt_new_search_lets_any_store_replace() {
    let mut tt = TranspositionTable::new(1);
    let hash = 0x1234567890ABCDEF_u64;
    tt.store(hash, 100, 9, EntryType::Exact, Some((1, 2, 3, 4)));
    tt.new_search();
    tt.store(hash, 5, 1, EntryType::UpperBound, None);
    let entry = tt.probe(hash).unwrap();
    assert_eq!(entry.depth, 1);
    assert_eq!(entry.score, 5);
    assert_eq!(entry.age, 1);
    assert_eq!(entry.decode_move(), None);
    let s = tt.stats();
    assert!(s.hits <= s.probes);
}

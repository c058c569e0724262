//! What the client does with the player's actions during a game: played here when the game
//! is on this machine, handed to the server otherwise; the clock of a game on this machine;
//! the texts of a finished game; saving and restoring a game on this machine.

use vstd::prelude::*;
use crate::board::{lemma_board_len, spec_move_piece, BoardState, Move, Piece, Position, Side};
use crate::client::{ClientGame, GameMode, GameState, MoveRecord};
use crate::network::NetworkEvent;
use crate::outcome::{DrawReason, GameResult, WinReason};
use crate::search::Difficulty;
use crate::server::handler::{difficulty_debug, difficulty_debug_text, difficulty_from_label, spec_difficulty_from_label};
use crate::server::room::listed;
use crate::settings::TimeLimit;
use crate::text::{decimal, push_decimal, push_str, string_of};

verus! {

broadcast use lemma_board_len;

/// What the player did on the board or with the game buttons.
#[derive(Clone, Copy, Debug, PartialEq, Eq, Structural)]
pub enum GameEvent {
    SelectPiece { x: u8, y: u8 },
    MovePiece { from_x: u8, from_y: u8, to_x: u8, to_y: u8 },
    Deselect,
    RequestUndo,
    Resign,
    PauseGame,
    ResumeGame,
}

/// Plays `from`-`to` in a game on this machine, when it is among `legal_moves` (the legal
/// moves of the current position); `notation` is how the move is written. The move is
/// refused (and nothing changes) when there is no position or the move is not legal.
pub fn execute_local_move(
    game: &mut ClientGame,
    from: Position,
    to: Position,
    legal_moves: &Vec<Move>,
    notation: String,
) -> (r: bool)
    requires
        from.valid(),
        to.valid(),
    ensures
        r == (old(game).game_state is Some && listed(legal_moves@, Move { from, to, captured: None })),
        r ==> (final(game).game_state matches Some(ns) && old(game).game_state matches Some(s) && ns.board@
            == spec_move_piece(s.board@, from, to) && ns.current_turn == s.current_turn.spec_opponent()
            && ns.no_capture_count == s.no_capture_count && old(game).updated(
            final(game),
            ns,
            from,
            to,
            notation,
        )),
        !r ==> *final(game) == *old(game),
        old(game).history_consistent() ==> final(game).history_consistent(),
{
    let state = match game.game_state {
        Some(s) => s,
        None => return false,
    };
    let mut i: usize = 0;
    let mut found = false;
    while i < legal_moves.len()
        invariant
            i <= legal_moves@.len(),
            found == exists|k: int| 0 <= k < i && (#[trigger] legal_moves@[k]).from == from && legal_moves@[k].to == to,
        decreases legal_moves@.len() - i,
    {
        let m = legal_moves[i];
        if m.from == from && m.to == to {
            found = true;
        }
        i = i + 1;
    }
    if !found {
        return false;
    }
    let mut new_state = state;
    new_state.board.move_piece(from, to);
    new_state.current_turn = new_state.current_turn.opponent();
    game.update_state(new_state, from, to, notation);
    true
}

/// Handles what the player did. Off the server (a game on this machine) moves, take-backs,
/// resignation and pause act on the game here; online they become messages for the server.
/// `legal_moves` are the legal moves of the current position and `notation` how the move of
/// a `MovePiece` is written. The result is the message to send, if any, and the screen to
/// show next, if it changes.
pub fn handle_game_event(
    game: &mut ClientGame,
    event: GameEvent,
    legal_moves: &Vec<Move>,
    notation: String,
) -> (r: (Option<NetworkEvent>, Option<GameState>))
    ensures
        match event {
            GameEvent::SelectPiece { x, y } => {
                &&& old(game).clicked(final(game), x, y, legal_moves@)
                &&& r == (None::<NetworkEvent>, None::<GameState>)
            },
            GameEvent::MovePiece { from_x, from_y, to_x, to_y } => {
                let from = Position { x: from_x, y: from_y };
                let to = Position { x: to_x, y: to_y };
                if from.valid() && to.valid() && old(game).spec_is_local() {
                    &&& r == (None::<NetworkEvent>, None::<GameState>)
                    &&& if old(game).game_state is Some && listed(
                        legal_moves@,
                        Move { from, to, captured: None },
                    ) {
                        final(game).game_state matches Some(ns) && old(game).updated(final(game), ns, from, to, notation)
                    } else {
                        old(game).cleared(final(game))
                    }
                } else if from.valid() && to.valid() {
                    &&& r == (Some(NetworkEvent::SendMove { from, to }), None::<GameState>)
                    &&& old(game).cleared(final(game))
                } else {
                    &&& r == (None::<NetworkEvent>, None::<GameState>)
                    &&& old(game).cleared(final(game))
                }
            },
            GameEvent::Deselect => {
                &&& old(game).cleared(final(game))
                &&& r == (None::<NetworkEvent>, None::<GameState>)
            },
            GameEvent::RequestUndo => if old(game).spec_is_local() {
                &&& exists|b: bool| old(game).undone_locally(final(game), b)
                &&& r == (None::<NetworkEvent>, None::<GameState>)
            } else {
                &&& *final(game) == *old(game)
                &&& r == (Some(NetworkEvent::SendUndo), None::<GameState>)
            },
            GameEvent::Resign => if old(game).spec_is_local() {
                &&& final(game).game_result == Some(GameResult::BlackWin(WinReason::Resign))
                &&& final(game).game_state == old(game).game_state
                &&& final(game).same_setup(old(game))
                &&& final(game).move_history@ == old(game).move_history@
                &&& final(game).state_history@ == old(game).state_history@
                &&& r == (None::<NetworkEvent>, Some(GameState::GameOver))
            } else {
                &&& *final(game) == *old(game)
                &&& r == (Some(NetworkEvent::SendResign), None::<GameState>)
            },
            GameEvent::PauseGame => if old(game).spec_is_local() {
                &&& *final(game) == ClientGame { is_paused: true, ..*old(game) }
                &&& r == (None::<NetworkEvent>, None::<GameState>)
            } else {
                &&& *final(game) == *old(game)
                &&& r == (Some(NetworkEvent::SendPause), None::<GameState>)
            },
            GameEvent::ResumeGame => if old(game).spec_is_local() {
                &&& *final(game) == ClientGame { is_paused: false, ..*old(game) }
                &&& r == (None::<NetworkEvent>, None::<GameState>)
            } else {
                &&& *final(game) == *old(game)
                &&& r == (Some(NetworkEvent::SendResume), None::<GameState>)
            },
        },
{
    match event {
        GameEvent::SelectPiece { x, y } => {
            game.select_piece(x, y, legal_moves);
            (None, None)
        },
        GameEvent::MovePiece { from_x, from_y, to_x, to_y } => {
            let mut out: Option<NetworkEvent> = None;
            if let (Some(from), Some(to)) = (Position::new(from_x, from_y), Position::new(to_x, to_y)) {
                if game.is_local() {
                    execute_local_move(game, from, to, legal_moves, notation);
                } else {
                    out = Some(NetworkEvent::SendMove { from, to });
                }
            }
            game.clear_selection();
            (out, None)
        },
        GameEvent::Deselect => {
            game.clear_selection();
            (None, None)
        },
        GameEvent::RequestUndo => {
            if game.is_local() {
                game.local_undo();
                (None, None)
            } else {
                (Some(NetworkEvent::SendUndo), None)
            }
        },
        GameEvent::Resign => {
            if game.is_local() {
                game.set_result(GameResult::BlackWin(WinReason::Resign));
                (None, Some(GameState::GameOver))
            } else {
                (Some(NetworkEvent::SendResign), None)
            }
        },
        GameEvent::PauseGame => {
            if game.is_local() {
                game.is_paused = true;
                (None, None)
            } else {
                (Some(NetworkEvent::SendPause), None)
            }
        },
        GameEvent::ResumeGame => {
            if game.is_local() {
                game.is_paused = false;
                (None, None)
            } else {
                (Some(NetworkEvent::SendResume), None)
            }
        },
    }
}

/// The clock of a game on this machine, `delta_ms` milliseconds later: the time of the side
/// to move runs down (stopping at zero), and at zero that side loses on time. Nothing runs
/// online, while paused, after the end, or without a time limit. The result is the screen
/// to show next, if it changes.
pub fn update_local_timer(game: &mut ClientGame, time_limit: TimeLimit, delta_ms: u64) -> (r: Option<
    GameState,
>)
    ensures
        ({
            let g = *old(game);
            if !g.spec_is_local() || g.is_paused || g.game_result is Some || time_limit
                == TimeLimit::Unlimited || g.game_state is None {
                *final(game) == g && r is None
            } else if g.game_state->0.current_turn == Side::Red {
                let left = if g.red_time_ms > delta_ms {
                    (g.red_time_ms - delta_ms) as u64
                } else {
                    0u64
                };
                &&& *final(game) == ClientGame {
                    red_time_ms: left,
                    game_result: if left == 0 {
                        Some(GameResult::BlackWin(WinReason::Timeout))
                    } else {
                        None
                    },
                    ..g
                }
                &&& r == (if left == 0 {
                    Some(GameState::GameOver)
                } else {
                    None
                })
            } else {
                let left = if g.black_time_ms > delta_ms {
                    (g.black_time_ms - delta_ms) as u64
                } else {
                    0u64
                };
                &&& *final(game) == ClientGame {
                    black_time_ms: left,
                    game_result: if left == 0 {
                        Some(GameResult::RedWin(WinReason::Timeout))
                    } else {
                        None
                    },
                    ..g
                }
                &&& r == (if left == 0 {
                    Some(GameState::GameOver)
                } else {
                    None
                })
            }
        }),
{
    if !game.is_local() || game.is_paused || game.game_result.is_some() {
        return None;
    }
    if time_limit == TimeLimit::Unlimited {
        return None;
    }
    let turn = match game.game_state {
        Some(s) => s.current_turn,
        None => return None,
    };
    match turn {
        Side::Red => {
            game.red_time_ms = game.red_time_ms.saturating_sub(delta_ms);
            if game.red_time_ms == 0 {
                game.game_result = Some(GameResult::BlackWin(WinReason::Timeout));
                return Some(GameState::GameOver);
            }
        },
        Side::Black => {
            game.black_time_ms = game.black_time_ms.saturating_sub(delta_ms);
            if game.black_time_ms == 0 {
                game.game_result = Some(GameResult::RedWin(WinReason::Timeout));
                return Some(GameState::GameOver);
            }
        },
    }
    None
}

/// Why the game was won, as the end screen says it; empty unless a side won.
pub open spec fn spec_win_reason(result: Option<GameResult>) -> Seq<char> {
    match result {
        Some(GameResult::RedWin(reason)) | Some(GameResult::BlackWin(reason)) => match reason {
            WinReason::Checkmate => "将死对方"@,
            WinReason::Resign => "对方认输"@,
            WinReason::Timeout => "对方超时"@,
            WinReason::Disconnect => "对方断线"@,
        },
        _ => Seq::empty(),
    }
}

/// Why the game was drawn, as the end screen says it; empty unless it was drawn.
pub open spec fn spec_draw_reason(result: Option<GameResult>) -> Seq<char> {
    match result {
        Some(GameResult::Draw(reason)) => match reason {
            DrawReason::Agreement => "双方同意和棋"@,
            DrawReason::Stalemate => "无子可动"@,
            DrawReason::Repetition => "三次重复局面"@,
            DrawReason::FiftyMoves => "五十回合无吃子"@,
        },
        _ => Seq::empty(),
    }
}

/// Why the game was won.
pub fn get_win_reason(game: &ClientGame) -> (r: String)
    ensures
        r@ == spec_win_reason(game.game_result),
{
    let text: &str = match game.game_result {
        Some(GameResult::RedWin(reason)) | Some(GameResult::BlackWin(reason)) => match reason {
            WinReason::Checkmate => "将死对方",
            WinReason::Resign => "对方认输",
            WinReason::Timeout => "对方超时",
            WinReason::Disconnect => "对方断线",
        },
        _ => "",
    };
    proof {
        reveal_strlit("");
    }
    text.to_owned()
}

/// Why the game was drawn.
pub fn get_draw_reason(game: &ClientGame) -> (r: String)
    ensures
        r@ == spec_draw_reason(game.game_result),
{
    let text: &str = match game.game_result {
        Some(GameResult::Draw(reason)) => match reason {
            DrawReason::Agreement => "双方同意和棋",
            DrawReason::Stalemate => "无子可动",
            DrawReason::Repetition => "三次重复局面",
            DrawReason::FiftyMoves => "五十回合无吃子",
        },
        _ => "",
    };
    proof {
        reveal_strlit("");
    }
    text.to_owned()
}

/// Whether the player won (`Some(true)`), lost (`Some(false)`), or neither applies (a draw,
/// no result, or no side of the player's own).
pub open spec fn spec_player_won(game: ClientGame) -> Option<bool> {
    match (game.game_result, game.player_side) {
        (Some(GameResult::RedWin(_)), Some(side)) => Some(side == Side::Red),
        (Some(GameResult::BlackWin(_)), Some(side)) => Some(side == Side::Black),
        _ => None,
    }
}

/// The heading of the end-of-game screen: congratulations on a win, regrets on a loss, a
/// handshake on any other result, and a plain "game over" without a result.
pub open spec fn spec_game_over_title(game: ClientGame) -> Seq<char> {
    match spec_player_won(game) {
        Some(true) => "恭喜获胜！"@,
        Some(false) => "很遗憾，您输了"@,
        None => if game.game_result is Some {
            "握手言和"@
        } else {
            "游戏结束"@
        },
    }
}

/// The line under the heading: why the game was won or lost, why it was drawn, or nothing.
pub open spec fn spec_game_over_subtitle(game: ClientGame) -> Seq<char> {
    match spec_player_won(game) {
        Some(_) => spec_win_reason(game.game_result),
        None => if game.game_result is Some {
            spec_draw_reason(game.game_result)
        } else {
            Seq::empty()
        },
    }
}

/// The heading of the end-of-game screen.
pub fn game_over_title(game: &ClientGame) -> (r: &'static str)
    ensures
        r@ == spec_game_over_title(*game),
{
    match game.is_player_win() {
        Some(true) => "恭喜获胜！",
        Some(false) => "很遗憾，您输了",
        None => if game.game_result.is_some() {
            "握手言和"
        } else {
            "游戏结束"
        },
    }
}

/// The line under the heading of the end-of-game screen.
pub fn game_over_subtitle(game: &ClientGame) -> (r: String)
    ensures
        r@ == spec_game_over_subtitle(*game),
{
    match game.is_player_win() {
        Some(_) => get_win_reason(game),
        None => if game.game_result.is_some() {
            get_draw_reason(game)
        } else {
            proof {
                reveal_strlit("");
            }
            "".to_owned()
        },
    }
}

/// The name a saved or exported record gives the opponent of the player (who plays Red):
/// `AI-` and the difficulty against the computer, `对手` otherwise.
pub open spec fn spec_opponent_name(mode: Option<GameMode>) -> Seq<char> {
    match mode {
        Some(GameMode::LocalPvE { difficulty }) => "AI-"@ + difficulty_debug(difficulty),
        Some(GameMode::OnlinePvE { difficulty, .. }) => "AI-"@ + difficulty_debug(difficulty),
        _ => "对手"@,
    }
}

/// The opponent's name in a saved or exported record.
pub fn record_opponent_name(game: &ClientGame) -> (r: String)
    ensures
        r@ == spec_opponent_name(game.game_mode),
{
    match game.game_mode {
        Some(GameMode::LocalPvE { difficulty }) | Some(GameMode::OnlinePvE { difficulty, .. }) => {
            let mut out: Vec<char> = Vec::new();
            push_str(&mut out, "AI-");
            let d = difficulty_debug_text(difficulty);
            push_str(&mut out, d.as_str());
            string_of(&out)
        },
        _ => "对手".to_owned(),
    }
}

/// The difficulty a saved or exported record notes: the computer's, as a debug print writes
/// it, against the computer; none otherwise.
pub fn record_difficulty(game: &ClientGame) -> (r: Option<String>)
    ensures
        r matches Some(t) ==> (game.game_mode matches Some(m) && m.difficulty_of() matches Some(d) && t@
            == difficulty_debug(d)),
        r is None ==> !(game.game_mode matches Some(m) && m.difficulty_of() is Some),
{
    match game.game_mode {
        Some(m) => match m.difficulty() {
            Some(d) => Some(difficulty_debug_text(d)),
            None => None,
        },
        None => None,
    }
}

/// The difficulty of a restored game against the computer: the one its label names (easy or
/// hard, in English or Chinese), medium otherwise or without a label.
pub open spec fn spec_saved_difficulty(label: Option<Seq<char>>) -> Difficulty {
    match label {
        Some(l) => match spec_difficulty_from_label(l) {
            Some(d) => d,
            None => Difficulty::Medium,
        },
        None => Difficulty::Medium,
    }
}

/// The difficulty of a restored game against the computer.
pub fn saved_difficulty(label: Option<&str>) -> (r: Difficulty)
    ensures
        r == spec_saved_difficulty(match label {
            Some(l) => Some(l@),
            None => None,
        }),
{
    match label {
        Some(l) => match difficulty_from_label(l) {
            Some(d) => d,
            None => Difficulty::Medium,
        },
        None => Difficulty::Medium,
    }
}

/// A move as a saved record holds it: its squares (which may lie off the board in a damaged
/// record) and its notation.
#[derive(Clone, Debug)]
pub struct SavedMove {
    pub from_x: u8,
    pub from_y: u8,
    pub to_x: u8,
    pub to_y: u8,
    pub notation: String,
}

/// Whether both squares of a saved move are on the board.
pub open spec fn saved_on_board(m: SavedMove) -> bool {
    m.from_x < 9 && m.from_y < 10 && m.to_x < 9 && m.to_y < 10
}

/// The squares after replaying the saved moves that are on the board, in order.
pub open spec fn replay_squares(b: Seq<Option<Piece>>, ms: Seq<SavedMove>) -> Seq<Option<Piece>>
    decreases ms.len(),
{
    if ms.len() == 0 {
        b
    } else {
        let before = replay_squares(b, ms.drop_last());
        let m = ms.last();
        if saved_on_board(m) {
            spec_move_piece(
                before,
                Position { x: m.from_x, y: m.from_y },
                Position { x: m.to_x, y: m.to_y },
            )
        } else {
            before
        }
    }
}

/// The side to move after replaying the saved moves that are on the board.
pub open spec fn replay_turn(t: Side, ms: Seq<SavedMove>) -> Side
    decreases ms.len(),
{
    if ms.len() == 0 {
        t
    } else {
        let before = replay_turn(t, ms.drop_last());
        if saved_on_board(ms.last()) {
            before.spec_opponent()
        } else {
            before
        }
    }
}

/// The history of the saved moves that are on the board.
pub open spec fn replay_records(ms: Seq<SavedMove>) -> Seq<MoveRecord>
    decreases ms.len(),
{
    if ms.len() == 0 {
        Seq::empty()
    } else {
        let before = replay_records(ms.drop_last());
        let m = ms.last();
        if saved_on_board(m) {
            before.push(
                MoveRecord {
                    notation: m.notation,
                    from: Position { x: m.from_x, y: m.from_y },
                    to: Position { x: m.to_x, y: m.to_y },
                },
            )
        } else {
            before
        }
    }
}

/// Restores a saved game against the computer on this machine: the saved moves that are on
/// the board are replayed from `initial`, the player takes Red, the difficulty comes from
/// the saved label, the history lists the replayed moves, and the saved clocks (when the
/// record has them) are set.
pub fn restore_saved_game(
    game: &mut ClientGame,
    initial: BoardState,
    moves: &Vec<SavedMove>,
    difficulty_label: Option<&str>,
    times: Option<(u64, u64)>,
)
    ensures
        final(game).game_state matches Some(s) && s.board@ == replay_squares(initial.board@, moves@)
            && s.current_turn == replay_turn(initial.current_turn, moves@) && s.no_capture_count
            == initial.no_capture_count && final(game).state_history@ == seq![s],
        final(game).player_side == Some(Side::Red),
        final(game).game_mode == Some(
            GameMode::LocalPvE {
                difficulty: spec_saved_difficulty(
                    match difficulty_label {
                        Some(l) => Some(l@),
                        None => None,
                    },
                ),
            },
        ),
        final(game).move_history@ == replay_records(moves@),
        final(game).selected_piece is None,
        final(game).valid_moves@.len() == 0,
        final(game).last_move is None,
        !final(game).is_paused,
        !final(game).waiting_undo_response,
        final(game).game_result is None,
        match times {
            Some((red, black)) => final(game).red_time_ms == red && final(game).black_time_ms == black,
            None => final(game).red_time_ms == old(game).red_time_ms && final(game).black_time_ms
                == old(game).black_time_ms,
        },
{
    let difficulty = saved_difficulty(difficulty_label);
    let mut state = initial;
    let mut records: Vec<MoveRecord> = Vec::new();
    let mut i: usize = 0;
    while i < moves.len()
        invariant
            i <= moves@.len(),
            state.board@ == replay_squares(initial.board@, moves@.take(i as int)),
            state.current_turn == replay_turn(initial.current_turn, moves@.take(i as int)),
            state.no_capture_count == initial.no_capture_count,
            records@ == replay_records(moves@.take(i as int)),
        decreases moves@.len() - i,
    {
        let m = &moves[i];
        proof {
            assert(moves@.take(i + 1).drop_last() =~= moves@.take(i as int));
            assert(moves@.take(i + 1).last() == moves@[i as int]);
        }
        if let (Some(from), Some(to)) = (Position::new(m.from_x, m.from_y), Position::new(m.to_x, m.to_y)) {
            state.board.move_piece(from, to);
            state.switch_turn();
            records.push(MoveRecord { notation: m.notation.clone(), from, to });
        }
        i = i + 1;
    }
    proof {
        assert(moves@.take(moves@.len() as int) =~= moves@);
    }
    game.start_game(state, Side::Red, GameMode::LocalPvE { difficulty });
    game.move_history = records;
    if let Some((red, black)) = times {
        game.red_time_ms = red;
        game.black_time_ms = black;
    }
}

/// How a win reason is written in a debug print.
pub open spec fn win_reason_debug(r: WinReason) -> Seq<char> {
    match r {
        WinReason::Checkmate => "Checkmate"@,
        WinReason::Timeout => "Timeout"@,
        WinReason::Resign => "Resign"@,
        WinReason::Disconnect => "Disconnect"@,
    }
}

/// How a draw reason is written in a debug print.
pub open spec fn draw_reason_debug(r: DrawReason) -> Seq<char> {
    match r {
        DrawReason::Stalemate => "Stalemate"@,
        DrawReason::FiftyMoves => "FiftyMoves"@,
        DrawReason::Repetition => "Repetition"@,
        DrawReason::Agreement => "Agreement"@,
    }
}

/// The result as a review request states it: the winner or a draw, with the reason.
pub open spec fn spec_result_text(result: Option<GameResult>) -> Seq<char> {
    match result {
        Some(GameResult::RedWin(r)) => "红方胜（"@ + win_reason_debug(r) + "）"@,
        Some(GameResult::BlackWin(r)) => "黑方胜（"@ + win_reason_debug(r) + "）"@,
        Some(GameResult::Draw(r)) => "和棋（"@ + draw_reason_debug(r) + "）"@,
        None => "未知结果"@,
    }
}

/// The result of the game for a review request.
pub fn analysis_result_text(game: &ClientGame) -> (r: String)
    ensures
        r@ == spec_result_text(game.game_result),
{
    let mut out: Vec<char> = Vec::new();
    match game.game_result {
        Some(GameResult::RedWin(r)) | Some(GameResult::BlackWin(r)) => {
            if game.game_result matches Some(GameResult::RedWin(_)) {
                push_str(&mut out, "红方胜（");
            } else {
                push_str(&mut out, "黑方胜（");
            }
            let name: &str = match r {
                WinReason::Checkmate => "Checkmate",
                WinReason::Timeout => "Timeout",
                WinReason::Resign => "Resign",
                WinReason::Disconnect => "Disconnect",
            };
            push_str(&mut out, name);
            push_str(&mut out, "）");
        },
        Some(GameResult::Draw(r)) => {
            push_str(&mut out, "和棋（");
            let name: &str = match r {
                DrawReason::Stalemate => "Stalemate",
                DrawReason::FiftyMoves => "FiftyMoves",
                DrawReason::Repetition => "Repetition",
                DrawReason::Agreement => "Agreement",
            };
            push_str(&mut out, name);
            push_str(&mut out, "）");
        },
        None => push_str(&mut out, "未知结果"),
    }
    assert(out@ =~= spec_result_text(game.game_result));
    string_of(&out)
}

/// A number written with at least two digits.
pub open spec fn two_digits(n: nat) -> Seq<char> {
    if n < 10 {
        seq!['0'] + decimal(n)
    } else {
        decimal(n)
    }
}

/// Longest time a clock shows; more counts as no limit.
pub const CLOCK_LIMIT_MS: u64 = 86_400_000;

/// What a clock shows for `time_ms`: `--:--` beyond a day (no limit), else minutes and
/// seconds, each with at least two digits.
pub open spec fn spec_clock_text(time_ms: u64) -> Seq<char> {
    if time_ms > CLOCK_LIMIT_MS {
        "--:--"@
    } else {
        two_digits((time_ms / 60000) as nat) + seq![':'] + two_digits(((time_ms % 60000) / 1000) as nat)
    }
}

fn push_two_digits(out: &mut Vec<char>, n: u64)
    ensures
        final(out)@ == old(out)@ + two_digits(n as nat),
{
    if n < 10 {
        out.push('0');
    }
    push_decimal(out, n);
}

/// The text of a clock.
pub fn clock_text(time_ms: u64) -> (r: String)
    ensures
        r@ == spec_clock_text(time_ms),
{
    if time_ms > CLOCK_LIMIT_MS {
        return "--:--".to_owned();
    }
    let mut out: Vec<char> = Vec::new();
    push_two_digits(&mut out, time_ms / 60000);
    out.push(':');
    push_two_digits(&mut out, (time_ms % 60000) / 1000);
    assert(out@ =~= spec_clock_text(time_ms));
    string_of(&out)
}

/// Line `i` of the move list: Red's moves (even `i`) start with the round number, Black's are
/// indented.
pub open spec fn history_line(i: int, notation: Seq<char>) -> Seq<char> {
    if i % 2 == 0 {
        decimal((i / 2 + 1) as nat) + ". "@ + notation
    } else {
        "   "@ + notation
    }
}

/// The lines of the move list.
pub fn move_history_lines(game: &ClientGame) -> (r: Vec<String>)
    ensures
        r@.len() == game.move_history@.len(),
        forall|i: int| 0 <= i < r@.len() ==> (#[trigger] r@[i])@ == history_line(i, game.move_history@[i].notation@),
{
    let mut lines: Vec<String> = Vec::new();
    let mut i: usize = 0;
    while i < game.move_history.len()
        invariant
            i <= game.move_history@.len(),
            lines@.len() == i,
            forall|k: int| 0 <= k < i ==> (#[trigger] lines@[k])@ == history_line(k, game.move_history@[k].notation@),
        decreases game.move_history@.len() - i,
    {
        let mut out: Vec<char> = Vec::new();
        if i % 2 == 0 {
            push_decimal(&mut out, (i / 2 + 1) as u64);
            push_str(&mut out, ". ");
        } else {
            push_str(&mut out, "   ");
        }
        push_str(&mut out, game.move_history[i].notation.as_str());
        assert(out@ =~= history_line(i as int, game.move_history@[i as int].notation@));
        lines.push(string_of(&out));
        i = i + 1;
    }
    lines
}

/// The buttons of the end-of-game screen.
#[derive(Clone, Copy, Debug, PartialEq, Eq, Structural)]
pub enum GameOverAction {
    BackToMenu,
    PlayAgain,
    Undo,
    ExportGame,
    AiAnalysis,
}

/// What is left to do after a button of the end-of-game screen.
pub struct GameOverStep {
    /// The screen to show next, if it changes.
    pub screen: Option<GameState>,
    /// A message for the network side, if any.
    pub send: Option<NetworkEvent>,
    /// Whether to close the connection to the server.
    pub disconnect: bool,
    /// Whether to export the record of the game.
    pub export: bool,
    /// Whether to start the review of the game by the language model.
    pub analyze: bool,
}

/// Whether `g` holds no game (as after `reset`).
pub open spec fn no_game(g: ClientGame) -> bool {
    &&& g.game_state is None
    &&& g.player_side is None
    &&& g.game_mode is None
    &&& g.selected_piece is None
    &&& g.valid_moves@.len() == 0
    &&& g.last_move is None
    &&& g.red_time_ms == 0
    &&& g.black_time_ms == 0
    &&& g.move_history@.len() == 0
    &&& g.state_history@.len() == 0
    &&& !g.is_paused
    &&& !g.waiting_undo_response
    &&& g.game_result is None
}

/// Whether `g` is a fresh game from the starting position, the player on Red, in `mode`,
/// with `time_ms` on each clock.
pub open spec fn fresh_game(g: ClientGame, mode: GameMode, time_ms: u64) -> bool {
    &&& g.game_state matches Some(s) && s.board@ == crate::board::initial_squares() && s.current_turn
        == Side::Red && s.no_capture_count == 0 && g.state_history@ == seq![s]
    &&& g.player_side == Some(Side::Red)
    &&& g.game_mode == Some(mode)
    &&& g.selected_piece is None
    &&& g.valid_moves@.len() == 0
    &&& g.last_move is None
    &&& g.move_history@.len() == 0
    &&& !g.is_paused
    &&& !g.waiting_undo_response
    &&& g.game_result is None
    &&& g.red_time_ms == time_ms
    &&& g.black_time_ms == time_ms
}

/// Handles a button of the end-of-game screen: back to the menu (the game is forgotten and
/// the connection closed); play again in the same mode (on this machine against the computer
/// with the configured time limit; online against the computer through a new connection
/// with ten minutes each; otherwise back to the menu); take back moves on this machine and
/// play on; export the record; start the review.
pub fn handle_game_over_action(
    game: &mut ClientGame,
    action: GameOverAction,
    time_limit: TimeLimit,
    server_address: &str,
    nickname: &str,
) -> (r: GameOverStep)
    ensures
        match action {
            GameOverAction::BackToMenu => {
                &&& no_game(*final(game))
                &&& r.screen == Some(GameState::Menu) && r.send is None && r.disconnect && !r.export && !r.analyze
            },
            GameOverAction::ExportGame => {
                &&& *final(game) == *old(game)
                &&& r.screen is None && r.send is None && !r.disconnect && r.export && !r.analyze
            },
            GameOverAction::AiAnalysis => {
                &&& *final(game) == *old(game)
                &&& r.screen is None && r.send is None && !r.disconnect && !r.export && r.analyze
            },
            GameOverAction::Undo => {
                &&& !r.disconnect && !r.export && !r.analyze && r.send is None
                &&& if old(game).spec_is_local() {
                    exists|b: bool| old(game).undone_locally(final(game), b) && r.screen == (if b {
                        Some(GameState::Playing)
                    } else {
                        None
                    })
                } else {
                    *final(game) == *old(game) && r.screen is None
                }
            },
            GameOverAction::PlayAgain => {
                &&& !r.export && !r.analyze
                &&& r.disconnect == (old(game).game_mode matches Some(m) && !(m is LocalPvE || m is LocalPvP))
                &&& match old(game).game_mode {
                    Some(GameMode::LocalPvE { difficulty }) => {
                        &&& fresh_game(*final(game), GameMode::LocalPvE { difficulty }, time_limit.spec_to_millis())
                        &&& r.screen == Some(GameState::Playing) && r.send is None
                    },
                    Some(GameMode::OnlinePvE { difficulty, .. }) => {
                        &&& fresh_game(*final(game), GameMode::OnlinePvE { room_id: 0, difficulty }, 600_000)
                        &&& r.screen == Some(GameState::Playing)
                        &&& r.send matches Some(NetworkEvent::Connect { addr, nickname: n }) && addr@ == server_address@
                            && n@ == nickname@
                    },
                    _ => {
                        &&& no_game(*final(game))
                        &&& r.screen == Some(GameState::Menu) && r.send is None
                    },
                }
            },
        },
{
    let none = GameOverStep { screen: None, send: None, disconnect: false, export: false, analyze: false };
    match action {
        GameOverAction::BackToMenu => {
            game.reset();
            GameOverStep { screen: Some(GameState::Menu), disconnect: true, ..none }
        },
        GameOverAction::ExportGame => GameOverStep { export: true, ..none },
        GameOverAction::AiAnalysis => GameOverStep { analyze: true, ..none },
        GameOverAction::Undo => {
            if game.is_local() {
                if game.local_undo() {
                    return GameOverStep { screen: Some(GameState::Playing), ..none };
                }
            }
            none
        },
        GameOverAction::PlayAgain => {
            let mode = game.game_mode;
            let disconnect = match mode {
                Some(m) => m.is_online(),
                None => false,
            };
            game.reset();
            match mode {
                Some(GameMode::LocalPvE { difficulty }) => {
                    game.start_local_pve(difficulty);
                    proof {
                        assert(game.state_history@ =~= seq![game.game_state->0]);
                    }
                    let time_ms = time_limit.to_millis();
                    game.red_time_ms = time_ms;
                    game.black_time_ms = time_ms;
                    GameOverStep { screen: Some(GameState::Playing), disconnect, ..none }
                },
                Some(GameMode::OnlinePvE { difficulty, .. }) => {
                    game.start_game(BoardState::initial(), Side::Red, GameMode::OnlinePvE { room_id: 0, difficulty });
                    game.red_time_ms = 600_000;
                    game.black_time_ms = 600_000;
                    GameOverStep {
                        screen: Some(GameState::Playing),
                        send: Some(NetworkEvent::Connect {
                            addr: server_address.to_owned(),
                            nickname: nickname.to_owned(),
                        }),
                        disconnect,
                        ..none
                    }
                },
                _ => GameOverStep { screen: Some(GameState::Menu), disconnect, ..none },
            }
        },
    }
}

/// `after` is `before` with `result` recorded and nothing else changed.
pub open spec fn with_result(before: ClientGame, after: ClientGame, result: GameResult) -> bool {
    after == ClientGame { game_result: Some(result), ..before }
}

/// The end of a game on this machine after a move: when the side to move has no legal move
/// (`has_legal_move`), it loses by checkmate. The result is the screen to show next, if it
/// changes.
pub fn check_game_over(game: &mut ClientGame, has_legal_move: bool) -> (r: Option<GameState>)
    ensures
        match old(game).game_state {
            Some(s) => if !has_legal_move {
                &&& with_result(*old(game), *final(game), if s.current_turn == Side::Red {
                    GameResult::BlackWin(WinReason::Checkmate)
                } else {
                    GameResult::RedWin(WinReason::Checkmate)
                })
                &&& r == Some(GameState::GameOver)
            } else {
                *final(game) == *old(game) && r is None
            },
            None => *final(game) == *old(game) && r is None,
        },
{
    let turn = match game.game_state {
        Some(s) => s.current_turn,
        None => return None,
    };
    if has_legal_move {
        return None;
    }
    game.game_result = Some(
        match turn {
            Side::Red => GameResult::BlackWin(WinReason::Checkmate),
            Side::Black => GameResult::RedWin(WinReason::Checkmate),
        },
    );
    Some(GameState::GameOver)
}

/// The computer's move in a game on this machine: played as the player's moves are (refused
/// unless among `legal_moves`, written `notation`), then the game ends when the side to move
/// has no legal move left (`has_legal_move_after`).
pub fn handle_ai_move(
    game: &mut ClientGame,
    mv: Move,
    legal_moves: &Vec<Move>,
    notation: String,
    has_legal_move_after: bool,
) -> (r: Option<GameState>)
    requires
        mv.from.valid(),
        mv.to.valid(),
    ensures
        !(old(game).game_state is Some && listed(legal_moves@, Move { from: mv.from, to: mv.to, captured: None }))
            ==> *final(game) == *old(game) && r is None,
        old(game).game_state is Some && listed(legal_moves@, Move { from: mv.from, to: mv.to, captured: None })
            ==> exists|mid: ClientGame| {
            &&& #[trigger] old(game).updated(&mid, mid.game_state->0, mv.from, mv.to, notation)
            &&& mid.game_state matches Some(ns) && old(game).game_state matches Some(s) && ns.board@
                == spec_move_piece(s.board@, mv.from, mv.to) && ns.current_turn == s.current_turn.spec_opponent()
            &&& if has_legal_move_after {
                *final(game) == mid && r is None
            } else {
                &&& with_result(mid, *final(game), if mid.game_state->0.current_turn == Side::Red {
                    GameResult::BlackWin(WinReason::Checkmate)
                } else {
                    GameResult::RedWin(WinReason::Checkmate)
                })
                &&& r == Some(GameState::GameOver)
            }
        },
{
    if !execute_local_move(game, mv.from, mv.to, legal_moves, notation) {
        return None;
    }
    let ghost mid = *game;
    let r = check_game_over(game, has_legal_move_after);
    assert(mid.game_state is Some);
    r
}

/// Handles the state of the computer's search in a game on this machine: past the time
/// limit (`timed_out`) the computer loses on time; unfinished (`outcome` is `None`), nothing
/// happens; a result arriving while the game is paused is dropped; a move is handed on to
/// be played; no move at all loses the game for the computer by checkmate. The result is the
/// move to play, if any, and the screen to show next, if it changes.
pub fn handle_ai_result(game: &mut ClientGame, timed_out: bool, outcome: Option<Option<Move>>) -> (r: (
    Option<Move>,
    Option<GameState>,
))
    ensures
        if timed_out {
            with_result(*old(game), *final(game), GameResult::RedWin(WinReason::Timeout)) && r == (None::<Move>, Some(GameState::GameOver))
        } else {
            match outcome {
                None => *final(game) == *old(game) && r == (None::<Move>, None::<GameState>),
                Some(_) if old(game).is_paused => *final(game) == *old(game) && r == (None::<Move>, None::<GameState>),
                Some(Some(mv)) => *final(game) == *old(game) && r == (Some(mv), None::<GameState>),
                Some(None) => with_result(*old(game), *final(game), GameResult::RedWin(WinReason::Checkmate))
                    && r == (None::<Move>, Some(GameState::GameOver)),
            }
        },
{
    if timed_out {
        game.game_result = Some(GameResult::RedWin(WinReason::Timeout));
        return (None, Some(GameState::GameOver));
    }
    match outcome {
        None => (None, None),
        Some(result) => {
            if game.is_paused {
                return (None, None);
            }
            match result {
                Some(mv) => (Some(mv), None),
                None => {
                    game.game_result = Some(GameResult::RedWin(WinReason::Checkmate));
                    (None, Some(GameState::GameOver))
                },
            }
        },
    }
}

} // verus!

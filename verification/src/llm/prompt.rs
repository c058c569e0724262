//! Prompts for the language model: the fixed system prompts and the requests built from a
//! game. Texts that need the rules of the game (FEN, notation, the characters of the
//! pieces) are passed in already written.

use vstd::prelude::*;
use crate::board::{lemma_board_len, Board, Move, Piece, PieceType, Position, Side};
use crate::text::{decimal, digit, digit_char, push_decimal, push_str, string_of};
use crate::zobrist::{kind_index, side_index};

verus! {

/// The end of a move request: the expected answer and its constraints.
pub const MOVE_REQUEST_TAIL: &'static str = "\n请分析当前局势，给出最佳走法。\n返回格式（严格 JSON）:\n{\"from\": [x1, y1], \"to\": [x2, y2], \"reason\": \"简短说明\"}\n\n注意：\n- x 范围 0-8，y 范围 0-9\n- 红方在下(y=0-4)，黑方在上(y=5-9)\n- 只返回 JSON，不要其他文字\n";

/// The end of a summary request: the aspects to cover.
pub const SUMMARY_TAIL: &'static str = "请从以下几个方面进行分析：\n1. 开局阶段评价\n2. 中局关键转折点\n3. 残局处理\n4. 双方的精彩走法和失误\n5. 总体评价和改进建议\n";

/// The end of a review request: the JSON layout of the answer and its constraints.
pub const ANALYSIS_TAIL: &'static str = r#"请从以下几个方面进行分析，并以严格的 JSON 格式返回：

{
  "opening_review": {
    "name": "开局名称（如有，如'中炮对屏风马'，没有则为null）",
    "evaluation": "好/中/差",
    "comment": "开局阶段点评"
  },
  "key_moments": [
    {
      "move_number": 步数,
      "side": "red或black",
      "move": "走法记号如'車一進三'",
      "type": "brilliant或mistake或turning_point",
      "analysis": "这步棋的分析说明"
    }
  ],
  "endgame_review": {
    "evaluation": "好/中/差",
    "comment": "残局阶段点评"
  },
  "weaknesses": {
    "red": ["红方的不足1：具体描述哪些方面需要提升", "不足2"],
    "black": ["黑方的不足1：具体描述哪些方面需要提升", "不足2"]
  },
  "suggestions": {
    "red": ["给红方的改进建议1", "建议2"],
    "black": ["给黑方的改进建议1", "建议2"]
  },
  "overall_rating": {
    "red_play_quality": 0-10的评分,
    "black_play_quality": 0-10的评分,
    "game_quality": 0-10的评分,
    "summary": "整体对局总结"
  }
}

注意：
- key_moments 最多选取 5 个最重要的时刻
- weaknesses 指出双方在本局中暴露的不足，即使获胜方也要分析其可改进之处
- suggestions 给出针对性的提升建议
- 评分使用 0-10 的浮点数
- 只返回 JSON，不要其他文字
"#;

/// Most recent moves listed in a move request.
pub const RECENT_MOVES: usize = 10;

/// A move written by its squares: `(x,y)->(x,y)`.
pub open spec fn coords_text(m: Move) -> Seq<char> {
    seq!['('] + decimal(m.from.x as nat) + seq![','] + decimal(m.from.y as nat) + seq![')', '-', '>', '(']
        + decimal(m.to.x as nat) + seq![','] + decimal(m.to.y as nat) + seq![')']
}

/// The last ten moves (all of them when fewer).
pub open spec fn recent_window(moves: Seq<Move>) -> Seq<Move> {
    if moves.len() > 10 {
        moves.skip(moves.len() - 10)
    } else {
        moves
    }
}

/// The moves written by their squares, separated by `, `.
pub open spec fn joined_coords(ms: Seq<Move>) -> Seq<char>
    decreases ms.len(),
{
    if ms.len() == 0 {
        Seq::empty()
    } else if ms.len() == 1 {
        coords_text(ms[0])
    } else {
        joined_coords(ms.drop_last()) + seq![',', ' '] + coords_text(ms.last())
    }
}

/// The line of recent moves of a move request (nothing without moves).
pub open spec fn recent_moves_text(moves: Seq<Move>) -> Seq<char> {
    let w = recent_window(moves);
    if w.len() == 0 {
        Seq::empty()
    } else {
        "最近走法: "@ + joined_coords(w) + seq!['\n']
    }
}

/// The line of the `i`-th move (from 0) in a summary request: its number, the side and
/// the squares.
pub open spec fn summary_line(i: int, m: Move) -> Seq<char> {
    decimal((i / 2 + 1) as nat) + seq!['.', ' '] + (if i % 2 == 0 { "红"@ } else { "黑"@ }) + seq![' ']
        + coords_text(m) + seq!['\n']
}

/// The summary lines of the first `n` moves.
pub open spec fn summary_lines(ms: Seq<Move>, n: int) -> Seq<char>
    decreases n,
{
    if n <= 0 {
        Seq::empty()
    } else {
        summary_lines(ms, n - 1) + summary_line(n - 1, ms[n - 1])
    }
}

/// How the `i`-th move is written in a numbered record: its notation when known, else its
/// squares.
pub open spec fn note_text(m: Move, note: Option<String>) -> Seq<char> {
    match note {
        Some(s) => s@,
        None => coords_text(m),
    }
}

/// The numbered record of the first `n` moves: Red's moves open a line with the move number,
/// Black's end it.
pub open spec fn numbered_record(ms: Seq<Move>, notes: Seq<Option<String>>, n: int) -> Seq<char>
    decreases n,
{
    if n <= 0 {
        Seq::empty()
    } else {
        let i = n - 1;
        numbered_record(ms, notes, i) + if i % 2 == 0 {
            decimal((i / 2 + 1) as nat) + seq!['.', ' '] + note_text(ms[i], notes[i])
        } else {
            seq![' ', ' '] + note_text(ms[i], notes[i]) + seq!['\n']
        }
    }
}

/// The numbered record of all the moves, ended by a line break after a lone Red move.
pub open spec fn full_record(ms: Seq<Move>, notes: Seq<Option<String>>) -> Seq<char> {
    numbered_record(ms, notes, ms.len() as int) + if ms.len() % 2 == 1 {
        seq!['\n']
    } else {
        Seq::empty()
    }
}

/// Appends a move written by its squares.
fn push_coords(out: &mut Vec<char>, m: Move)
    ensures
        final(out)@ == old(out)@ + coords_text(m),
{
    out.push('(');
    push_decimal(out, m.from.x as u64);
    out.push(',');
    push_decimal(out, m.from.y as u64);
    out.push(')');
    out.push('-');
    out.push('>');
    out.push('(');
    push_decimal(out, m.to.x as u64);
    out.push(',');
    push_decimal(out, m.to.y as u64);
    out.push(')');
    assert(final(out)@ =~= old(out)@ + coords_text(m));
}

/// Appends the numbered record of all the moves.
fn push_record(out: &mut Vec<char>, moves: &Vec<Move>, notes: &Vec<Option<String>>)
    requires
        notes@.len() == moves@.len(),
    ensures
        final(out)@ == old(out)@ + full_record(moves@, notes@),
{
    let mut i: usize = 0;
    while i < moves.len()
        invariant
            i <= moves@.len(),
            notes@.len() == moves@.len(),
            out@ == old(out)@ + numbered_record(moves@, notes@, i as int),
        decreases moves@.len() - i,
    {
        let ghost before = out@;
        let m = moves[i];
        if i % 2 == 0 {
            push_decimal(out, (i / 2 + 1) as u64);
            out.push('.');
            out.push(' ');
            match &notes[i] {
                Some(n) => push_str(out, n.as_str()),
                None => push_coords(out, m),
            }
            assert(out@ =~= before + (decimal((i / 2 + 1) as nat) + seq!['.', ' '] + note_text(moves@[i as int], notes@[i as int])));
        } else {
            out.push(' ');
            out.push(' ');
            match &notes[i] {
                Some(n) => push_str(out, n.as_str()),
                None => push_coords(out, m),
            }
            out.push('\n');
            assert(out@ =~= before + (seq![' ', ' '] + note_text(moves@[i as int], notes@[i as int]) + seq!['\n']));
        }
        i = i + 1;
    }
    if moves.len() % 2 == 1 {
        out.push('\n');
    }
    assert(out@ =~= old(out)@ + full_record(moves@, notes@));
}


/// Prompt texts.

/// The column numbers above the drawing of the board.
pub const COLUMN_LABELS: &'static str = "    0   1   2   3   4   5   6   7   8\n";

/// The top border of the drawing.
pub const TOP_BORDER: &'static str = "  ┌───┬───┬───┬───┬───┬───┬───┬───┬───┐\n";

/// The lines that draw the river between rows 5 and 4.
pub const RIVER_LINES: &'static str = "  ├───┴───┴───┴───┴───┴───┴───┴───┴───┤\n  │         楚  河      汉  界         │\n  ├───┬───┬───┬───┬───┬───┬───┬───┬───┤\n";

/// The line between two rows on the same side of the river.
pub const ROW_SEPARATOR: &'static str = "  ├───┼───┼───┼───┼───┼───┼───┼───┼───┤\n";

/// The bottom border of the drawing.
pub const BOTTOM_BORDER: &'static str = "  └───┴───┴───┴───┴───┴───┴───┴───┴───┘\n";

/// Where the character of a piece sits in a table of piece characters: the seven Red kinds
/// (king, advisor, bishop, knight, rook, cannon, pawn), then the seven Black kinds.
pub open spec fn glyph_slot(p: Piece) -> int {
    side_index(p.side) * 7 + kind_index(p.piece_type)
}

fn glyph_slot_of(p: Piece) -> (i: usize)
    ensures
        i == glyph_slot(p),
{
    let side: usize = match p.side {
        Side::Red => 0,
        Side::Black => 1,
    };
    let kind: usize = match p.piece_type {
        PieceType::King => 0,
        PieceType::Advisor => 1,
        PieceType::Bishop => 2,
        PieceType::Knight => 3,
        PieceType::Rook => 4,
        PieceType::Cannon => 5,
        PieceType::Pawn => 6,
    };
    side * 7 + kind
}

/// A square in the drawing: the piece's character and a space, or two spaces.
pub open spec fn cell_text(cell: Option<Piece>, glyphs: Seq<char>) -> Seq<char> {
    match cell {
        Some(p) => seq![glyphs[glyph_slot(p)], ' '],
        None => seq![' ', ' '],
    }
}

/// The first `n` squares of row `y`, each followed by a border.
pub open spec fn row_cells(b: Seq<Option<Piece>>, glyphs: Seq<char>, y: int, n: int) -> Seq<char>
    decreases n,
{
    if n <= 0 {
        Seq::empty()
    } else {
        row_cells(b, glyphs, y, n - 1) + cell_text(b[y * 9 + n - 1], glyphs) + seq!['│']
    }
}

/// Row `y` of the drawing: its number, its squares, and the line below it.
pub open spec fn row_block(b: Seq<Option<Piece>>, glyphs: Seq<char>, y: int) -> Seq<char> {
    seq![digit(y as nat), ' ', '│'] + row_cells(b, glyphs, y, 9) + seq!['\n'] + if y == 5 {
        RIVER_LINES@
    } else if y > 0 {
        ROW_SEPARATOR@
    } else {
        Seq::empty()
    }
}

/// The first `k` rows of the drawing, from the top (row 9) down.
pub open spec fn rows_drawn(b: Seq<Option<Piece>>, glyphs: Seq<char>, k: int) -> Seq<char>
    decreases k,
{
    if k <= 0 {
        Seq::empty()
    } else {
        rows_drawn(b, glyphs, k - 1) + row_block(b, glyphs, 9 - (k - 1))
    }
}

/// The drawing of a board: Black's side at the top, each piece shown by its character in
/// `glyphs` (see `glyph_slot`).
pub open spec fn spec_visualize_board(b: Seq<Option<Piece>>, glyphs: Seq<char>) -> Seq<char> {
    COLUMN_LABELS@ + TOP_BORDER@ + rows_drawn(b, glyphs, 10) + BOTTOM_BORDER@
}

pub struct PromptTemplate;

impl PromptTemplate {
    /// Draws `board` as text, each piece shown by its character in `glyphs`.
    pub fn visualize_board(board: &Board, glyphs: &[char; 14]) -> (r: String)
        ensures
            r@ == spec_visualize_board(board@, glyphs@),
    {
        proof {
            lemma_board_len(*board);
        }
        let mut out: Vec<char> = Vec::new();
        push_str(&mut out, COLUMN_LABELS);
        push_str(&mut out, TOP_BORDER);
        let ghost head = COLUMN_LABELS@ + TOP_BORDER@;
        let mut k: u8 = 0;
        while k < 10
            invariant
                k <= 10,
                board@.len() == 90,
                out@ == head + rows_drawn(board@, glyphs@, k as int),
            decreases 10 - k,
        {
            let y: u8 = 9 - k;
            let ghost before = out@;
            out.push(digit_char(y as u64));
            out.push(' ');
            out.push('│');
            let mut x: u8 = 0;
            while x < 9
                invariant
                    x <= 9,
                    y < 10,
                    board@.len() == 90,
                    out@ == before + seq![digit(y as nat), ' ', '│'] + row_cells(board@, glyphs@, y as int, x as int),
                decreases 9 - x,
            {
                let pos = Position::new_unchecked(x, y);
                assert(pos.index() == y * 9 + x);
                match board.get(pos) {
                    Some(p) => {
                        let i = glyph_slot_of(p);
                        out.push(glyphs[i]);
                        out.push(' ');
                    },
                    None => {
                        out.push(' ');
                        out.push(' ');
                    },
                }
                out.push('│');
                x = x + 1;
            }
            out.push('\n');
            if y == 5 {
                push_str(&mut out, RIVER_LINES);
            } else if y > 0 {
                push_str(&mut out, ROW_SEPARATOR);
            }
            proof {
                assert(out@ =~= before + row_block(board@, glyphs@, y as int));
                assert(head + rows_drawn(board@, glyphs@, k + 1) =~= head + rows_drawn(board@, glyphs@, k as int)
                    + row_block(board@, glyphs@, 9 - k));
            }
            k = k + 1;
        }
        push_str(&mut out, BOTTOM_BORDER);
        assert(out@ =~= spec_visualize_board(board@, glyphs@));
        string_of(&out)
    }

    /// The system prompt for move generation: the model plays a xiangqi expert and answers in
    /// JSON.
    pub open spec fn spec_system_prompt() -> Seq<char> {
        r#"你是一位中国象棋专家。你的任务是分析棋局并给出最佳走法。

规则提醒：
- 红方在下（y=0-4），黑方在上（y=5-9）
- 将/帅只能在九宫格内移动（x=3-5）
- 士/仕只能在九宫格内斜走
- 象/相不能过河，走田字，可被塞象眼
- 马走日字，可被蹩马腿
- 车走直线，不限距离
- 炮走直线，吃子需要隔一个棋子（炮架）
- 兵/卒过河前只能前进，过河后可左右平移

请严格按照要求的 JSON 格式返回走法。"#@
    }

    /// The system prompt for game review: the model plays a coach and answers in JSON.
    pub open spec fn spec_analysis_system_prompt() -> Seq<char> {
        r#"你是一位资深的中国象棋教练和分析师。你的任务是对完整的象棋对局进行复盘分析，帮助棋手提高棋力。

分析要点：
1. 开局评价：识别开局类型，评价双方布局是否合理
2. 关键时刻：找出对局中的精彩走法、失误和转折点
3. 残局评价：评价残局阶段的处理
4. 改进建议：针对双方给出具体、可操作的提升建议
5. 整体评分：客观评价双方的棋力表现

请严格按照要求的 JSON 格式返回分析结果。"#@
    }

    /// The system prompt for move generation.
    pub fn system_prompt() -> (r: &'static str)
        ensures
            r@ == Self::spec_system_prompt(),
    {
        r#"你是一位中国象棋专家。你的任务是分析棋局并给出最佳走法。

规则提醒：
- 红方在下（y=0-4），黑方在上（y=5-9）
- 将/帅只能在九宫格内移动（x=3-5）
- 士/仕只能在九宫格内斜走
- 象/相不能过河，走田字，可被塞象眼
- 马走日字，可被蹩马腿
- 车走直线，不限距离
- 炮走直线，吃子需要隔一个棋子（炮架）
- 兵/卒过河前只能前进，过河后可左右平移

请严格按照要求的 JSON 格式返回走法。"#
    }

    /// The state of a position: its drawing, its FEN, the side to move and the round.
    pub open spec fn spec_format_board_state(drawing: Seq<char>, fen: Seq<char>, turn: Side, round: u32) -> Seq<char> {
        "当前棋盘状态：\n"@ + drawing + seq!['\n'] + "FEN: "@ + fen + seq!['\n'] + "轮到: "@ + (if turn == Side::Red {
            "红方"@
        } else {
            "黑方"@
        }) + seq!['\n'] + "回合: "@ + decimal(round as nat) + seq!['\n']
    }

    /// Writes the state of a position, given its drawing and its FEN.
    pub fn format_board_state(drawing: &str, fen: &str, turn: Side, round: u32) -> (r: String)
        ensures
            r@ == Self::spec_format_board_state(drawing@, fen@, turn, round),
    {
        let mut out: Vec<char> = Vec::new();
        push_str(&mut out, "当前棋盘状态：\n");
        push_str(&mut out, drawing);
        out.push('\n');
        push_str(&mut out, "FEN: ");
        push_str(&mut out, fen);
        out.push('\n');
        push_str(&mut out, "轮到: ");
        match turn {
            Side::Red => push_str(&mut out, "红方"),
            Side::Black => push_str(&mut out, "黑方"),
        }
        out.push('\n');
        push_str(&mut out, "回合: ");
        push_decimal(&mut out, round as u64);
        out.push('\n');
        assert(out@ =~= Self::spec_format_board_state(drawing@, fen@, turn, round));
        string_of(&out)
    }

    /// The record of the moves played from a position (`notes`: the notation of each move,
    /// when it could be written).
    pub open spec fn spec_format_move_history(moves: Seq<Move>, notes: Seq<Option<String>>) -> Seq<char> {
        if moves.len() == 0 {
            "历史走法: 无\n"@
        } else {
            "历史走法:\n"@ + full_record(moves, notes)
        }
    }

    /// Writes the record of the moves played.
    pub fn format_move_history(moves: &Vec<Move>, notes: &Vec<Option<String>>) -> (r: String)
        requires
            notes@.len() == moves@.len(),
        ensures
            r@ == Self::spec_format_move_history(moves@, notes@),
    {
        if moves.len() == 0 {
            return "历史走法: 无\n".to_owned();
        }
        let mut out: Vec<char> = Vec::new();
        push_str(&mut out, "历史走法:\n");
        push_record(&mut out, moves, notes);
        string_of(&out)
    }

    /// A move request: the state of the position, the recent moves and the expected answer.
    pub open spec fn spec_move_request_prompt(board_state: Seq<char>, moves: Seq<Move>) -> Seq<char> {
        board_state + seq!['\n'] + recent_moves_text(moves) + MOVE_REQUEST_TAIL@
    }

    /// Writes a move request, given the written state of the position.
    pub fn move_request_prompt(board_state: &str, move_history: &Vec<Move>) -> (r: String)
        ensures
            r@ == Self::spec_move_request_prompt(board_state@, move_history@),
    {
        let mut out: Vec<char> = Vec::new();
        push_str(&mut out, board_state);
        out.push('\n');
        let n = move_history.len();
        let start: usize = if n > RECENT_MOVES { n - RECENT_MOVES } else { 0 };
        let ghost w = recent_window(move_history@);
        assert(w =~= move_history@.subrange(start as int, n as int));
        if start < n {
            let ghost head = out@;
            push_str(&mut out, "最近走法: ");
            let ghost base = out@;
            let mut i: usize = start;
            while i < n
                invariant
                    start <= i <= n,
                    n == move_history@.len(),
                    start < n,
                    out@ == base + joined_coords(move_history@.subrange(start as int, i as int)),
                decreases n - i,
            {
                let ghost prev = move_history@.subrange(start as int, i as int);
                if i > start {
                    out.push(',');
                    out.push(' ');
                }
                push_coords(&mut out, move_history[i]);
                proof {
                    let next = move_history@.subrange(start as int, i + 1);
                    assert(next.drop_last() =~= prev);
                    assert(next.last() == move_history@[i as int]);
                    if i == start {
                        assert(next.len() == 1);
                        assert(out@ =~= base + joined_coords(next));
                    } else {
                        assert(out@ =~= base + joined_coords(next));
                    }
                }
                i = i + 1;
            }
            out.push('\n');
            assert(out@ =~= head + recent_moves_text(move_history@));
        } else {
            assert(recent_moves_text(move_history@) =~= Seq::<char>::empty());
        }
        push_str(&mut out, MOVE_REQUEST_TAIL);
        assert(out@ =~= Self::spec_move_request_prompt(board_state@, move_history@));
        string_of(&out)
    }

    /// A summary request: the final position, every move with its side, the result and the
    /// aspects to cover.
    pub open spec fn spec_game_summary_prompt(board_state: Seq<char>, moves: Seq<Move>, result: Seq<char>) -> Seq<char> {
        "请对以下中国象棋对局进行总结分析：\n\n"@ + board_state + seq!['\n'] + "完整走法记录:\n"@ + summary_lines(
            moves,
            moves.len() as int,
        ) + seq!['\n'] + "对局结果: "@ + result + seq!['\n', '\n'] + SUMMARY_TAIL@
    }

    /// Writes a summary request, given the written final position.
    pub fn game_summary_prompt(board_state: &str, move_history: &Vec<Move>, result: &str) -> (r: String)
        ensures
            r@ == Self::spec_game_summary_prompt(board_state@, move_history@, result@),
    {
        let mut out: Vec<char> = Vec::new();
        push_str(&mut out, "请对以下中国象棋对局进行总结分析：\n\n");
        push_str(&mut out, board_state);
        out.push('\n');
        push_str(&mut out, "完整走法记录:\n");
        let ghost base = out@;
        let mut i: usize = 0;
        while i < move_history.len()
            invariant
                i <= move_history@.len(),
                out@ == base + summary_lines(move_history@, i as int),
            decreases move_history@.len() - i,
        {
            let ghost before = out@;
            push_decimal(&mut out, (i / 2 + 1) as u64);
            out.push('.');
            out.push(' ');
            if i % 2 == 0 {
                push_str(&mut out, "红");
            } else {
                push_str(&mut out, "黑");
            }
            out.push(' ');
            push_coords(&mut out, move_history[i]);
            out.push('\n');
            assert(out@ =~= before + summary_line(i as int, move_history@[i as int]));
            i = i + 1;
        }
        out.push('\n');
        push_str(&mut out, "对局结果: ");
        push_str(&mut out, result);
        out.push('\n');
        out.push('\n');
        push_str(&mut out, SUMMARY_TAIL);
        assert(out@ =~= Self::spec_game_summary_prompt(board_state@, move_history@, result@));
        string_of(&out)
    }

    /// A review request: the players and the result, the numbered record of the moves, the
    /// final position and the JSON layout of the answer.
    pub open spec fn spec_game_analysis_prompt(
        drawing: Seq<char>,
        moves: Seq<Move>,
        notes: Seq<Option<String>>,
        result: Seq<char>,
        red_player: Seq<char>,
        black_player: Seq<char>,
    ) -> Seq<char> {
        "请对以下中国象棋对局进行复盘分析：\n\n"@ + "对局信息：\n"@ + "- 红方："@ + red_player + seq!['\n'] + "- 黑方："@
            + black_player + seq!['\n'] + "- 结果："@ + result + seq!['\n'] + "- 总步数："@ + decimal(moves.len())
            + seq!['\n', '\n'] + "完整走法记录：\n"@ + full_record(moves, notes) + seq!['\n'] + "最终棋盘状态：\n"@
            + drawing + seq!['\n'] + ANALYSIS_TAIL@
    }

    /// Writes a review request, given the drawing of the final position and the notation of
    /// each move (when it could be written).
    pub fn game_analysis_prompt(
        drawing: &str,
        move_history: &Vec<Move>,
        notes: &Vec<Option<String>>,
        result: &str,
        red_player: &str,
        black_player: &str,
    ) -> (r: String)
        requires
            notes@.len() == move_history@.len(),
        ensures
            r@ == Self::spec_game_analysis_prompt(
                drawing@,
                move_history@,
                notes@,
                result@,
                red_player@,
                black_player@,
            ),
    {
        let mut out: Vec<char> = Vec::new();
        push_str(&mut out, "请对以下中国象棋对局进行复盘分析：\n\n");
        push_str(&mut out, "对局信息：\n");
        push_str(&mut out, "- 红方：");
        push_str(&mut out, red_player);
        out.push('\n');
        push_str(&mut out, "- 黑方：");
        push_str(&mut out, black_player);
        out.push('\n');
        push_str(&mut out, "- 结果：");
        push_str(&mut out, result);
        out.push('\n');
        push_str(&mut out, "- 总步数：");
        push_decimal(&mut out, move_history.len() as u64);
        out.push('\n');
        out.push('\n');
        push_str(&mut out, "完整走法记录：\n");
        push_record(&mut out, move_history, notes);
        out.push('\n');
        push_str(&mut out, "最终棋盘状态：\n");
        push_str(&mut out, drawing);
        out.push('\n');
        push_str(&mut out, ANALYSIS_TAIL);
        assert(out@ =~= Self::spec_game_analysis_prompt(
            drawing@,
            move_history@,
            notes@,
            result@,
            red_player@,
            black_player@,
        ));
        string_of(&out)
    }

    /// The system prompt for game review.
    pub fn analysis_system_prompt() -> (r: &'static str)
        ensures
            r@ == Self::spec_analysis_system_prompt(),
    {
        r#"你是一位资深的中国象棋教练和分析师。你的任务是对完整的象棋对局进行复盘分析，帮助棋手提高棋力。

分析要点：
1. 开局评价：识别开局类型，评价双方布局是否合理
2. 关键时刻：找出对局中的精彩走法、失误和转折点
3. 残局评价：评价残局阶段的处理
4. 改进建议：针对双方给出具体、可操作的提升建议
5. 整体评分：客观评价双方的棋力表现

请严格按照要求的 JSON 格式返回分析结果。"#
    }
}

} // verus!

//! Parsing of the model's move replies.

use vstd::prelude::*;
use crate::board::{lemma_board_len, BoardState, Move, Position};
use crate::text::{
    chars_of, find_chars, find_from, lemma_find_from, join_lines, join_with_newlines, lines, lines_of, matches_at,
    replace_all, replace_char, replace_chars, starts_with, string_of, trim, trim_chars,
};

verus! {

broadcast use lemma_board_len;

/// A move as the model writes it: `from` and `to` are `[x, y]`.
pub struct LlmMove {
    pub from: [u8; 2],
    pub to: [u8; 2],
    pub reason: Option<String>,
}

/// Why a reply could not be turned into a move.
#[derive(Clone, Copy, Debug, PartialEq, Eq, Structural)]
pub enum MoveParseError {
    /// The reply holds no `{`.
    NoJsonObject,
    /// The first `{` is never closed.
    UnbalancedBraces,
    /// The `from` square is off the board.
    InvalidFrom,
    /// The `to` square is off the board.
    InvalidTo,
    /// No piece stands on the `from` square.
    NoPieceAtFrom,
    /// The piece on `from` belongs to the side not to move.
    OpponentPiece,
    /// The move is not among the legal moves.
    IllegalMove,
    /// Neither the reply nor the object found in it reads as a move.
    InvalidJson,
}

/// Parser of the model's replies.
pub struct MoveParser;

/// Scans from `i` with `depth` open braces; the index just past the brace that closes
/// the first one, if any.
pub open spec fn brace_scan(s: Seq<char>, i: int, depth: int) -> Option<int>
    decreases s.len() - i,
{
    if i < 0 || i >= s.len() {
        None
    } else if s[i] == '{' {
        brace_scan(s, i + 1, depth + 1)
    } else if s[i] == '}' {
        if depth - 1 == 0 {
            Some(i + 1)
        } else {
            brace_scan(s, i + 1, depth - 1)
        }
    } else {
        brace_scan(s, i + 1, depth)
    }
}

/// The text from the first `{` to the brace that closes it.
pub open spec fn spec_extract_json(s: Seq<char>) -> Result<Seq<char>, MoveParseError> {
    match find_from(s, seq!['{'], 0) {
        None => Err(MoveParseError::NoJsonObject),
        Some(start) => match brace_scan(s, start, 0) {
            Some(end) => Ok(s.subrange(start, end)),
            None => Err(MoveParseError::UnbalancedBraces),
        },
    }
}

/// The clean-up applied to a reply before parsing: drop everything up to a closing
/// `</think>` tag, remove markdown fences, turn single quotes into double quotes, drop lines
/// that start with `//`, and trim.
pub open spec fn spec_fix_response(s: Seq<char>) -> Seq<char> {
    let a = match find_from(s, "</think>"@, 0) {
        Some(p) => s.skip(p + 8),
        None => s,
    };
    let b = replace_all(replace_all(a, "```json"@, Seq::empty()), "```"@, Seq::empty());
    let c = b.map_values(|ch: char| if ch == '\'' { '"' } else { ch });
    let d = join_lines(lines(c).filter(|l: Seq<char>| keep_line(l)));
    trim(d)
}

/// A line survives unless, trimmed, it starts with `//`.
pub open spec fn keep_line(l: Seq<char>) -> bool {
    !starts_with(trim(l), seq!['/', '/'])
}

/// The move a reply describes, if both squares lie on the board.
pub open spec fn spec_to_move(m: LlmMove) -> Result<Move, MoveParseError> {
    if !(m.from@[0] < 9 && m.from@[1] < 10) {
        Err(MoveParseError::InvalidFrom)
    } else if !(m.to@[0] < 9 && m.to@[1] < 10) {
        Err(MoveParseError::InvalidTo)
    } else {
        Ok(
            Move {
                from: Position { x: m.from@[0], y: m.from@[1] },
                to: Position { x: m.to@[0], y: m.to@[1] },
                captured: None,
            },
        )
    }
}

/// Whether some move of `moves` goes from `mv.from` to `mv.to`.
pub open spec fn listed(moves: Seq<Move>, mv: Move) -> bool {
    exists|i: int| 0 <= i < moves.len() && moves[i].from == mv.from && moves[i].to == mv.to
}

/// The check of a move against a position and its legal moves.
pub open spec fn spec_validate_move(mv: Move, state: BoardState, legal: Seq<Move>) -> Result<(), MoveParseError> {
    match state.board.at(mv.from) {
        None => Err(MoveParseError::NoPieceAtFrom),
        Some(p) => if p.side != state.current_turn {
            Err(MoveParseError::OpponentPiece)
        } else if !listed(legal, mv) {
            Err(MoveParseError::IllegalMove)
        } else {
            Ok(())
        },
    }
}

/// A reply's move is accepted exactly when a piece of the side to move stands on its from
/// square and some legal move goes from that square to its to square; otherwise the error
/// names the first of these that fails.
pub proof fn law_validate_move(mv: Move, state: BoardState, legal: Seq<Move>)
    ensures
        spec_validate_move(mv, state, legal) is Ok <==> ((state.board@[mv.from.index()] matches Some(p)
            && p.side == state.current_turn) && exists|i: int|
            0 <= i < legal.len() && legal[i].from == mv.from && legal[i].to == mv.to),
        spec_validate_move(mv, state, legal) == Err::<(), MoveParseError>(MoveParseError::NoPieceAtFrom)
            <==> state.board@[mv.from.index()] is None,
        spec_validate_move(mv, state, legal) == Err::<(), MoveParseError>(MoveParseError::OpponentPiece)
            <==> (state.board@[mv.from.index()] matches Some(p) && p.side != state.current_turn),
        spec_validate_move(mv, state, legal) == Err::<(), MoveParseError>(MoveParseError::IllegalMove)
            <==> ((state.board@[mv.from.index()] matches Some(p) && p.side == state.current_turn) && !exists|
            i: int|
            0 <= i < legal.len() && legal[i].from == mv.from && legal[i].to == mv.to),
{
}

/// Whether `decode`, given a text that reads `text`, may answer `out`.
pub open spec fn decodes<D: Fn(String) -> Option<LlmMove>>(decode: D, text: Seq<char>, out: Option<LlmMove>) -> bool {
    exists|s: String| s@ == text && #[trigger] decode.ensures((s,), out)
}

/// Whether `r` is what reading the reply `response` may give: the whole reply decoded as a
/// move, or else the object extracted from it decoded as a move, or else why neither worked.
pub open spec fn parse_outcome<D: Fn(String) -> Option<LlmMove>>(
    decode: D,
    response: Seq<char>,
    r: Result<LlmMove, MoveParseError>,
) -> bool {
    match r {
        Ok(m) => decodes(decode, response, Some(m)) || (decodes(decode, response, None) && (match spec_extract_json(response) {
            Ok(j) => decodes(decode, j, Some(m)),
            Err(_) => false,
        })),
        Err(e) => decodes(decode, response, None) && match spec_extract_json(response) {
            Err(x) => e == x,
            Ok(j) => e == MoveParseError::InvalidJson && decodes(decode, j, None),
        },
    }
}

/// The move a read reply gives once its squares and its legality have been checked.
pub open spec fn spec_checked_move(
    parsed: Result<LlmMove, MoveParseError>,
    state: BoardState,
    legal: Seq<Move>,
) -> Result<Move, MoveParseError> {
    match parsed {
        Err(e) => Err(e),
        Ok(m) => match spec_to_move(m) {
            Err(e) => Err(e),
            Ok(mv) => match spec_validate_move(mv, state, legal) {
                Err(e) => Err(e),
                Ok(_) => Ok(mv),
            },
        },
    }
}

/// Whether `r` is what reading and checking the reply `response` may give.
pub open spec fn checked_outcome<D: Fn(String) -> Option<LlmMove>>(
    decode: D,
    response: Seq<char>,
    state: BoardState,
    legal: Seq<Move>,
    r: Result<Move, MoveParseError>,
) -> bool {
    exists|p: Result<LlmMove, MoveParseError>| #[trigger] parse_outcome(decode, response, p) && r == spec_checked_move(p, state, legal)
}

impl MoveParser {
    /// The text from the first `{` to the brace that closes it.
    pub fn extract_json(text: &str) -> (r: Result<String, MoveParseError>)
        ensures
            r matches Ok(j) ==> spec_extract_json(text@) == Ok::<Seq<char>, MoveParseError>(j@),
            r matches Err(e) ==> spec_extract_json(text@) == Err::<Seq<char>, MoveParseError>(e),
    {
        let s = chars_of(text);
        let open = vec!['{'];
        assert(open@ == seq!['{']);
        let start = match find_chars(&s, &open) {
            Some(start) => start,
            None => return Err(MoveParseError::NoJsonObject),
        };
        proof {
            assert(find_from(s@, seq!['{'], 0) == Some(start as int));
            lemma_find_from(s@, seq!['{'], 0);
            assert(s@.subrange(start as int, start + 1)[0] == s@[start as int]);
        }
        let mut depth: usize = 0;
        let mut i: usize = start;
        let mut end: usize = start;
        let mut closed = false;
        while i < s.len() && !closed
            invariant
                start <= i <= s@.len(),
                start < s@.len(),
                s@[start as int] == '{',
                !closed ==> (i == start ==> depth == 0),
                !closed ==> (i > start ==> depth >= 1),
                !closed ==> depth <= i - start,
                !closed ==> brace_scan(s@, start as int, 0) == brace_scan(s@, i as int, depth as int),
                closed ==> start < end <= s@.len() && brace_scan(s@, start as int, 0) == Some(end as int),
            decreases s@.len() - i,
        {
            let ch = s[i];
            if ch == '{' {
                depth = depth + 1;
            } else if ch == '}' {
                if depth == 1 {
                    end = i + 1;
                    closed = true;
                } else {
                    depth = depth - 1;
                }
            }
            i = i + 1;
        }
        if !closed {
            return Err(MoveParseError::UnbalancedBraces);
        }
        let mut out: Vec<char> = Vec::new();
        let mut k: usize = start;
        while k < end
            invariant
                start <= k <= end,
                end <= s@.len(),
                out@ == s@.subrange(start as int, k as int),
            decreases end - k,
        {
            out.push(s[k]);
            k = k + 1;
            assert(out@ =~= s@.subrange(start as int, k as int));
        }
        Ok(string_of(&out))
    }

    /// Cleans up a reply before parsing (see `spec_fix_response`).
    pub fn try_fix_response(response: &str) -> (r: String)
        ensures
            r@ == spec_fix_response(response@),
    {
        proof {
            reveal_strlit("</think>");
            reveal_strlit("```json");
            reveal_strlit("```");
        }
        let s = chars_of(response);
        let think = chars_of("</think>");
        proof {
            lemma_find_from(s@, think@, 0);
        }
        let a = match find_chars(&s, &think) {
            Some(think_end) => {
                assert(think@.len() == 8);
                assert(matches_at(s@, think@, think_end as int));
                let n: usize = s.len();
                assert(think_end + 8 <= n);
                let mut v: Vec<char> = Vec::new();
                let mut k: usize = think_end + 8;
                while k < s.len()
                    invariant
                        think_end + 8 <= k <= s@.len(),
                        v@ == s@.subrange(think_end + 8, k as int),
                    decreases s@.len() - k,
                {
                    v.push(s[k]);
                    k = k + 1;
                    assert(v@ =~= s@.subrange(think_end + 8, k as int));
                }
                assert(v@ =~= s@.skip(think_end + 8));
                v
            },
            None => s,
        };
        let empty: Vec<char> = Vec::new();
        let b1 = replace_chars(&a, &chars_of("```json"), &empty);
        let b = replace_chars(&b1, &chars_of("```"), &empty);
        let c = replace_char(&b, '\'', '"');
        let all = lines_of(&c);
        let mut kept: Vec<Vec<char>> = Vec::new();
        let mut i: usize = 0;
        let slash2 = vec!['/', '/'];
        assert(slash2@ == seq!['/', '/']);
        while i < all.len()
            invariant
                i <= all@.len(),
                slash2@ == seq!['/', '/'],
                kept@.map_values(|l: Vec<char>| l@) == all@.map_values(|l: Vec<char>| l@).take(
                    i as int,
                ).filter(|l: Seq<char>| keep_line(l)),
            decreases all@.len() - i,
        {
            let ghost views = all@.map_values(|l: Vec<char>| l@);
            proof {
                assert(views.take(i + 1) =~= views.take(i as int).push(views[i as int]));
                views.take(i as int).lemma_filter_push(views[i as int], |l: Seq<char>| keep_line(l));
            }
            let t = trim_chars(&all[i]);
            let starts = t.len() >= 2 && t[0] == '/' && t[1] == '/';
            assert(starts == starts_with(trim(all@[i as int]@), seq!['/', '/'])) by {
                if t@.len() >= 2 {
                    assert(t@.take(2) =~= seq![t@[0], t@[1]]);
                }
            }
            let ghost kept0 = kept@.map_values(|l: Vec<char>| l@);
            if !starts {
                kept.push(all[i].clone());
                assert(kept@.map_values(|l: Vec<char>| l@) =~= kept0.push(all@[i as int]@));
            }
            i = i + 1;
        }
        assert(all@.map_values(|l: Vec<char>| l@).take(all@.len() as int) =~= all@.map_values(
            |l: Vec<char>| l@,
        ));
        let d = join_with_newlines(&kept);
        let e = trim_chars(&d);
        string_of(&e)
    }

    /// The move of a reply, if both squares lie on the board.
    pub fn to_move(llm_move: &LlmMove) -> (r: Result<Move, MoveParseError>)
        ensures
            r == spec_to_move(*llm_move),
    {
        let from = match Position::new(llm_move.from[0], llm_move.from[1]) {
            Some(p) => p,
            None => return Err(MoveParseError::InvalidFrom),
        };
        let to = match Position::new(llm_move.to[0], llm_move.to[1]) {
            Some(p) => p,
            None => return Err(MoveParseError::InvalidTo),
        };
        Ok(Move::new(from, to))
    }

    /// Checks a move against the position: a piece of the side to move must stand on
    /// `from`, and the move must be among `legal_moves` (the legal moves of the position).
    pub fn validate_move(mv: &Move, state: &BoardState, legal_moves: &Vec<Move>) -> (r: Result<(), MoveParseError>)
        requires
            mv.from.valid(),
        ensures
            r == spec_validate_move(*mv, *state, legal_moves@),
    {
        let piece = match state.board.get(mv.from) {
            Some(p) => p,
            None => return Err(MoveParseError::NoPieceAtFrom),
        };
        if piece.side != state.current_turn {
            return Err(MoveParseError::OpponentPiece);
        }
        let mut i: usize = 0;
        while i < legal_moves.len()
            invariant
                i <= legal_moves@.len(),
                state.board.at(mv.from) == Some(piece),
                piece.side == state.current_turn,
                forall|k: int| 0 <= k < i ==> !(legal_moves@[k].from == mv.from && legal_moves@[k].to == mv.to),
            decreases legal_moves@.len() - i,
        {
            let m = legal_moves[i];
            if m.from == mv.from && m.to == mv.to {
                assert(listed(legal_moves@, *mv)) by {
                    assert(legal_moves@[i as int].from == mv.from);
                }
                return Ok(());
            }
            i = i + 1;
        }
        assert(!listed(legal_moves@, *mv));
        Err(MoveParseError::IllegalMove)
    }

    /// Reads a move from a reply: the whole reply is decoded as a move (`decode` reads JSON),
    /// and failing that the first object in it.
    pub fn parse_response<D: Fn(String) -> Option<LlmMove>>(response: &str, decode: &D) -> (r: Result<
        LlmMove,
        MoveParseError,
    >)
        requires
            forall|s: String| #[trigger] decode.requires((s,)),
        ensures
            parse_outcome(*decode, response@, r),
    {
        let whole = response.to_owned();
        let first = decode(whole);
        assert(decodes(*decode, response@, first));
        if let Some(m) = first {
            return Ok(m);
        }
        let json = match Self::extract_json(response) {
            Ok(j) => j,
            Err(e) => return Err(e),
        };
        let ghost jv = json@;
        let second = decode(json);
        assert(decodes(*decode, jv, second));
        match second {
            Some(m) => Ok(m),
            None => Err(MoveParseError::InvalidJson),
        }
    }

    /// Reads a move from a reply and checks it against `state` and its legal moves.
    pub fn parse_and_validate<D: Fn(String) -> Option<LlmMove>>(
        response: &str,
        state: &BoardState,
        legal_moves: &Vec<Move>,
        decode: &D,
    ) -> (r: Result<Move, MoveParseError>)
        requires
            forall|s: String| #[trigger] decode.requires((s,)),
        ensures
            checked_outcome(*decode, response@, *state, legal_moves@, r),
    {
        let parsed = Self::parse_response(response, decode);
        assert(parse_outcome(*decode, response@, parsed));
        let llm_move = match parsed {
            Ok(m) => m,
            Err(e) => return Err(e),
        };
        let mv = match Self::to_move(&llm_move) {
            Ok(mv) => mv,
            Err(e) => return Err(e),
        };
        match Self::validate_move(&mv, state, legal_moves) {
            Ok(()) => Ok(mv),
            Err(e) => Err(e),
        }
    }

    /// Reads and checks a move from the cleaned-up reply, and failing that from the reply as
    /// it came.
    pub fn parse_with_fix<D: Fn(String) -> Option<LlmMove>>(
        response: &str,
        state: &BoardState,
        legal_moves: &Vec<Move>,
        decode: &D,
    ) -> (r: Result<Move, MoveParseError>)
        requires
            forall|s: String| #[trigger] decode.requires((s,)),
        ensures
            r is Ok ==> checked_outcome(*decode, spec_fix_response(response@), *state, legal_moves@, r)
                || checked_outcome(*decode, response@, *state, legal_moves@, r),
            r is Err ==> checked_outcome(*decode, response@, *state, legal_moves@, r)
                && exists|e: MoveParseError| #[trigger] checked_outcome(
                    *decode,
                    spec_fix_response(response@),
                    *state,
                    legal_moves@,
                    Err::<Move, MoveParseError>(e),
                ),
    {
        let fixed = Self::try_fix_response(response);
        let first = Self::parse_and_validate(fixed.as_str(), state, legal_moves, decode);
        if first.is_ok() {
            return first;
        }
        let second = Self::parse_and_validate(response, state, legal_moves, decode);
        proof {
            if let Err(e) = first {
                assert(checked_outcome(*decode, spec_fix_response(response@), *state, legal_moves@, Err::<Move, MoveParseError>(e)));
            }
        }
        second
    }
}

} // verus!

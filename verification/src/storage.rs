//! Saved games: file names, the list of saved games, and where they are kept.
//!
//! Times are counted in whole seconds since 1970-01-01 00:00:00 UTC.

use vstd::prelude::*;
use vstd::multiset::Multiset;
use crate::text::{chars_of, is_control, is_control_char, push_str, string_of, trim, trim_chars};

verus! {

broadcast use vstd::seq_lib::to_multiset_insert, vstd::seq_lib::to_multiset_remove;

/// chrono pattern of the time stamp that starts a file name.
pub const FILE_TIME_PATTERN: &'static str = "%Y%m%d_%H%M%S";

/// chrono pattern of the time shown in the list of saved games.
pub const DISPLAY_TIME_PATTERN: &'static str = "%Y-%m-%d %H:%M";

/// What chrono writes for the UTC time `secs` with `pattern`; `None` where chrono has no
/// date-time for `secs`.
pub uninterp spec fn utc_format(secs: i64, pattern: Seq<char>) -> Option<Seq<char>>;

/// chrono: `DateTime::<Utc>::from_timestamp(secs, 0)`, formatted with `format(pattern)` and
/// `to_string`. Claimed: the outcome depends on `secs` and `pattern` alone (`utc_format`);
/// the text itself is not stated. `pattern` is one of the two patterns above, which chrono
/// formats without error.
#[verifier::external_body]
fn format_utc(secs: i64, pattern: &str) -> (r: Option<String>)
    requires
        pattern@ == FILE_TIME_PATTERN@ || pattern@ == DISPLAY_TIME_PATTERN@,
    ensures
        match r {
            Some(s) => utc_format(secs, pattern@) == Some(s@),
            None => utc_format(secs, pattern@) is None,
        },
{
    match chrono::DateTime::from_timestamp(secs, 0) {
        Some(t) => Some(t.format(pattern).to_string()),
        None => None,
    }
}

/// The character that stands for `c` in a file name: path separators, characters that
/// file systems refuse, and control characters become `_`.
pub open spec fn filename_char(c: char) -> char {
    if c == '/' || c == '\\' || c == ':' || c == '*' || c == '?' || c == '"' || c == '<' || c
        == '>' || c == '|' || is_control_char(c) {
        '_'
    } else {
        c
    }
}

/// A name made safe for a file name: characters replaced, then white space trimmed.
pub open spec fn spec_sanitize_filename(name: Seq<char>) -> Seq<char> {
    trim(name.map_values(|c: char| filename_char(c)))
}

/// Makes `name` safe to stand in a file name.
pub fn sanitize_filename(name: &str) -> (r: String)
    ensures
        r@ == spec_sanitize_filename(name@),
{
    let chars = chars_of(name);
    let mut mapped: Vec<char> = Vec::new();
    let mut i: usize = 0;
    while i < chars.len()
        invariant
            i <= chars@.len(),
            mapped@ == chars@.take(i as int).map_values(|c: char| filename_char(c)),
        decreases chars@.len() - i,
    {
        let c = chars[i];
        let d = if c == '/' || c == '\\' || c == ':' || c == '*' || c == '?' || c == '"' || c
            == '<' || c == '>' || c == '|' || is_control(c) {
            '_'
        } else {
            c
        };
        mapped.push(d);
        proof {
            assert(chars@.take(i + 1) =~= chars@.take(i as int).push(c));
        }
        i = i + 1;
    }
    proof {
        assert(chars@.take(chars@.len() as int) =~= chars@);
    }
    string_of(&trim_chars(&mapped))
}


/// The file name of a game saved at `timestamp` between the two players: the time stamp,
/// `_`, the sanitized names joined by `vs`, and `.json`.
pub open spec fn spec_filename(timestamp: Seq<char>, red: Seq<char>, black: Seq<char>) -> Seq<
    char,
> {
    timestamp + seq!['_'] + spec_sanitize_filename(red) + seq!['v', 's'] + spec_sanitize_filename(
        black,
    ) + seq!['.', 'j', 's', 'o', 'n']
}

/// The file name of a game saved at `timestamp` (seconds, UTC) between `red_player` and
/// `black_player`; `None` where chrono has no date-time for `timestamp`.
pub fn generate_filename(timestamp: i64, red_player: &str, black_player: &str) -> (r: Option<String>)
    ensures
        match utc_format(timestamp, FILE_TIME_PATTERN@) {
            Some(t) => r matches Some(name) && name@ == spec_filename(t, red_player@, black_player@),
            None => r is None,
        },
{
    let stamp = match format_utc(timestamp, FILE_TIME_PATTERN) {
        Some(s) => s,
        None => return None,
    };
    let clean_red = sanitize_filename(red_player);
    let clean_black = sanitize_filename(black_player);
    let mut out: Vec<char> = Vec::new();
    push_str(&mut out, stamp.as_str());
    out.push('_');
    push_str(&mut out, clean_red.as_str());
    out.push('v');
    out.push('s');
    push_str(&mut out, clean_black.as_str());
    out.push('.');
    out.push('j');
    out.push('s');
    out.push('o');
    out.push('n');
    proof {
        assert(out@ =~= spec_filename(stamp@, red_player@, black_player@));
    }
    Some(string_of(&out))
}

/// The label of the side to move that a save records.
pub fn turn_label(side: crate::board::Side) -> (r: &'static str)
    ensures
        r == (match side {
            crate::board::Side::Red => "red_turn",
            crate::board::Side::Black => "black_turn",
        }),
{
    match side {
        crate::board::Side::Red => "red_turn",
        crate::board::Side::Black => "black_turn",
    }
}

/// The label of the side the player took that a save records.
pub fn side_label(side: crate::board::Side) -> (r: &'static str)
    ensures
        r == (match side {
            crate::board::Side::Red => "red",
            crate::board::Side::Black => "black",
        }),
{
    match side {
        crate::board::Side::Red => "red",
        crate::board::Side::Black => "black",
    }
}

/// A saved game as the list of saved games shows it.
#[derive(Clone, Debug)]
pub struct SavedGameInfo {
    /// The file name.
    pub game_id: String,
    pub red_player: String,
    pub black_player: String,
    /// When it was saved (seconds, UTC).
    pub saved_at: i64,
    pub move_count: usize,
    /// Difficulty of the computer opponent, for a game against the computer.
    pub ai_difficulty: Option<String>,
}

/// `red vs AI(difficulty)` for a game against the computer, else `red vs black`.
pub open spec fn spec_display_name(red: Seq<char>, black: Seq<char>, difficulty: Option<Seq<char>>) -> Seq<
    char,
> {
    match difficulty {
        Some(d) => red + seq![' ', 'v', 's', ' ', 'A', 'I', '('] + d + seq![')'],
        None => red + seq![' ', 'v', 's', ' '] + black,
    }
}

impl SavedGameInfo {
    /// The save time as `YYYY-MM-DD HH:MM` (UTC); `None` where chrono has no date-time for it.
    pub fn formatted_time(&self) -> (r: Option<String>)
        ensures
            match r {
                Some(s) => utc_format(self.saved_at, DISPLAY_TIME_PATTERN@) == Some(s@),
                None => utc_format(self.saved_at, DISPLAY_TIME_PATTERN@) is None,
            },
    {
        format_utc(self.saved_at, DISPLAY_TIME_PATTERN)
    }

    /// The title of the saved game in the list.
    pub fn display_name(&self) -> (r: String)
        ensures
            r@ == spec_display_name(
                self.red_player@,
                self.black_player@,
                match self.ai_difficulty {
                    Some(d) => Some(d@),
                    None => None,
                },
            ),
    {
        let mut out: Vec<char> = Vec::new();
        push_str(&mut out, self.red_player.as_str());
        match &self.ai_difficulty {
            Some(diff) => {
                push_str(&mut out, " vs AI(");
                push_str(&mut out, diff.as_str());
                out.push(')');
                proof {
                    reveal_strlit(" vs AI(");
                }
            },
            None => {
                push_str(&mut out, " vs ");
                push_str(&mut out, self.black_player.as_str());
                proof {
                    reveal_strlit(" vs ");
                }
            },
        }
        proof {
            assert(out@ =~= spec_display_name(
                self.red_player@,
                self.black_player@,
                match self.ai_difficulty {
                    Some(d) => Some(d@),
                    None => None,
                },
            ));
        }
        string_of(&out)
    }
}

/// Whether the games are in order of save time, newest first.
pub open spec fn newest_first(games: Seq<SavedGameInfo>) -> bool {
    forall|i: int, j: int| 0 <= i < j < games.len() ==> #[trigger] games[i].saved_at >= #[trigger] games[j].saved_at
}

/// The games saved at time `t`, in their order in `games`.
pub open spec fn saved_at_time(games: Seq<SavedGameInfo>, t: i64) -> Seq<SavedGameInfo> {
    games.filter(saved_at_test(t))
}

/// Whether a game was saved at time `t`.
pub open spec fn saved_at_test(t: i64) -> spec_fn(SavedGameInfo) -> bool {
    |g: SavedGameInfo| g.saved_at == t
}

/// A sequence of which no element passes `pred` keeps nothing.
proof fn lemma_filter_none(s: Seq<SavedGameInfo>, pred: spec_fn(SavedGameInfo) -> bool)
    requires
        forall|i: int| 0 <= i < s.len() ==> !pred(#[trigger] s[i]),
    ensures
        s.filter(pred) == Seq::<SavedGameInfo>::empty(),
{
    if s.filter(pred).len() > 0 {
        s.lemma_filter_pred(pred, 0);
        assert(s.filter(pred).contains(s.filter(pred)[0]));
        s.lemma_filter_contains_rev(pred, s.filter(pred)[0]);
    }
    assert(s.filter(pred) =~= Seq::<SavedGameInfo>::empty());
}

/// The same games, newest first; games saved at the same time keep their order (a stable
/// sort).
pub fn sort_newest_first(games: Vec<SavedGameInfo>) -> (r: Vec<SavedGameInfo>)
    ensures
        r@.to_multiset() == games@.to_multiset(),
        newest_first(r@),
        forall|t: i64| #[trigger] saved_at_time(r@, t) == saved_at_time(games@, t),
{
    broadcast use vstd::seq_lib::group_to_multiset_ensures, vstd::multiset::group_multiset_axioms,
        vstd::multiset::group_multiset_properties;

    let mut rest = games;
    let mut out: Vec<SavedGameInfo> = Vec::new();
    proof {
        assert(out@.to_multiset() =~= Multiset::<SavedGameInfo>::empty());
        assert(out@.to_multiset().add(rest@.to_multiset()) =~= games@.to_multiset());
    }
    let ghost all = games@;
    let ghost mut k: int = 0;
    proof {
        assert(rest@.skip(0) =~= rest@);
        assert forall|t: i64| #[trigger] saved_at_time(out@, t) == saved_at_time(all.take(0), t) by {
            reveal_with_fuel(Seq::<_>::filter, 1);
            assert(out@ =~= all.take(0));
        }
    }
    while rest.len() > 0
        invariant
            out@.to_multiset().add(rest@.to_multiset()) == games@.to_multiset(),
            newest_first(out@),
            0 <= k <= all.len(),
            rest@ == all.skip(k),
            all == games@,
            forall|t: i64| #[trigger] saved_at_time(out@, t) == saved_at_time(all.take(k), t),
        decreases rest@.len(),
    {
        let ghost rest_before = rest@;
        let g = rest.remove(0);
        proof {
            assert(rest@.to_multiset() =~= rest_before.to_multiset().remove(g));
        }
        let mut pos: usize = 0;
        while pos < out.len() && out[pos].saved_at >= g.saved_at
            invariant
                pos <= out@.len(),
                forall|k: int| 0 <= k < pos ==> #[trigger] out@[k].saved_at >= g.saved_at,
            decreases out@.len() - pos,
        {
            pos = pos + 1;
        }
        let ghost before = out@;
        out.insert(pos, g);
        proof {
            assert(all[k] == g);
            assert(all.take(k + 1) =~= all.take(k).push(g));
            assert(rest@ =~= all.skip(k + 1));
            assert(out@ =~= before.take(pos as int) + seq![g] + before.skip(pos as int));
            assert(before =~= before.take(pos as int) + before.skip(pos as int));
            assert forall|t: i64| #[trigger] saved_at_time(out@, t) == saved_at_time(all.take(k + 1), t) by {
                let pred = saved_at_test(t);
                all.take(k).lemma_filter_push(g, pred);
                Seq::filter_distributes_over_add(before.take(pos as int) + seq![g], before.skip(pos as int), pred);
                Seq::filter_distributes_over_add(before.take(pos as int), seq![g], pred);
                Seq::filter_distributes_over_add(before.take(pos as int), before.skip(pos as int), pred);
                reveal_with_fuel(Seq::<_>::filter, 2);
                assert(seq![g].drop_last() =~= Seq::<SavedGameInfo>::empty());
                if g.saved_at == t {
                    assert forall|i: int| 0 <= i < before.skip(pos as int).len() implies !pred(
                        #[trigger] before.skip(pos as int)[i],
                    ) by {
                        assert(before.skip(pos as int)[i] == before[pos + i]);
                        assert(before[pos as int].saved_at < g.saved_at);
                        if i > 0 {
                            assert(before[pos as int].saved_at >= before[pos + i].saved_at);
                        }
                    }
                    lemma_filter_none(before.skip(pos as int), pred);
                    assert(seq![g].filter(pred) =~= seq![g]);
                    assert(saved_at_time(out@, t) =~= before.take(pos as int).filter(pred).push(g));
                    assert(saved_at_time(before, t) =~= before.take(pos as int).filter(pred));
                    assert(pred(g));
                    assert(saved_at_time(all.take(k + 1), t) == saved_at_time(all.take(k), t).push(g));
                    assert(saved_at_time(before, t) == saved_at_time(all.take(k), t));
                } else {
                    assert(!pred(g));
                    assert(saved_at_time(all.take(k + 1), t) == saved_at_time(all.take(k), t));
                    assert(saved_at_time(before, t) == saved_at_time(all.take(k), t));
                    assert(saved_at_time(before, t) =~= before.take(pos as int).filter(pred) + before.skip(
                        pos as int,
                    ).filter(pred));
                    assert(seq![g].filter(pred) =~= Seq::<SavedGameInfo>::empty());
                    assert(saved_at_time(out@, t) =~= before.take(pos as int).filter(pred) + before.skip(
                        pos as int,
                    ).filter(pred));
                }
            }
            k = k + 1;
        }
        proof {
            assert(out@.to_multiset() =~= before.to_multiset().insert(g));
            assert(rest_before[0] == g);
            assert(rest_before.contains(g));
            rest_before.to_multiset_ensures();
            assert(rest_before.to_multiset().count(g) > 0);
            assert(out@.to_multiset().add(rest@.to_multiset()) =~= games@.to_multiset());
            let s = out@;
            assert forall|i: int, j: int| 0 <= i < j < s.len() implies #[trigger] s[i].saved_at
                >= #[trigger] s[j].saved_at by {
                if i < pos && j < pos {
                    assert(s[i] == before[i] && s[j] == before[j]);
                } else if i < pos && j == pos {
                    assert(s[i] == before[i]);
                } else if i < pos {
                    assert(s[i] == before[i] && s[j] == before[j - 1]);
                } else if i == pos {
                    assert(s[j] == before[j - 1]);
                    assert(pos < before.len() && before[pos as int].saved_at < g.saved_at);
                    assert(before[pos as int].saved_at >= before[j - 1].saved_at || j - 1 == pos);
                } else {
                    assert(s[i] == before[i - 1] && s[j] == before[j - 1]);
                }
            }
        }
    }
    proof {
        assert(rest@.to_multiset() =~= Multiset::<SavedGameInfo>::empty());
        assert(out@.to_multiset() =~= out@.to_multiset().add(rest@.to_multiset()));
        assert(all.skip(k).len() == 0);
        assert(all.take(k) =~= all);
    }
    out
}

/// Where saved games are kept.
pub struct StorageManager {
    saves_dir: String,
}

impl StorageManager {
    /// The directory of the saves.
    pub closed spec fn dir(&self) -> Seq<char> {
        self.saves_dir@
    }

    /// A manager of the saves kept in `saves_dir`.
    pub fn with_directory(saves_dir: String) -> (m: StorageManager)
        ensures
            m.dir() == saves_dir@,
    {
        StorageManager { saves_dir }
    }

    /// The directory of the saves.
    pub fn saves_directory(&self) -> (r: &str)
        ensures
            r@ == self.dir(),
    {
        self.saves_dir.as_str()
    }
}

} // verus!
